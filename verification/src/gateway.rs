use vstd::prelude::*;
use vstd::string::StringExecFns;
use crate::ids::{new_uuid, uuid_hyphenated, uuid_text};

verus! {

/// A request to create a room with a name.
#[derive(Debug, PartialEq, Eq)]
pub struct CreateRoomRequest {
    pub name: String,
}

/// Where a file storage of connection statistics writes: a file of its own
/// in an output directory.
#[derive(Debug, PartialEq, Eq)]
pub struct FileConfiguration {
    pub path: String,
}

impl FileConfiguration {
    /// The file `<output_dir>/<name>.txt`.
    pub fn with_file_name(output_dir: &str, name: &str) -> (c: FileConfiguration)
        ensures
            c.path@ == output_dir@ + "/"@ + name@ + ".txt"@,
    {
        let mut path = output_dir.to_owned();
        path.append("/");
        path.append(name);
        path.append(".txt");
        FileConfiguration { path }
    }

    /// The file `<output_dir>/<file_id>.txt`, with `file_id` written as a
    /// hyphenated UUID.
    pub fn with_file_id(output_dir: &str, file_id: u128) -> (c: FileConfiguration)
        ensures
            c.path@ == output_dir@ + "/"@ + uuid_hyphenated(file_id) + ".txt"@,
    {
        let name = uuid_text(file_id);
        FileConfiguration::with_file_name(output_dir, name.as_str())
    }

    /// A new file named by a random UUID in `output_dir`.
    pub fn in_dir(output_dir: &str) -> (c: FileConfiguration)
        ensures
            exists|id: u128| c.path@ == output_dir@ + "/"@ + uuid_hyphenated(id) + ".txt"@,
    {
        let id = new_uuid();
        FileConfiguration::with_file_id(output_dir, id)
    }
}

/// How a statistics storage finds its configuration in the environment;
/// implemented by the storages that the server is used with.
pub trait StorageConfiguration: Sized {
    type Error;

    fn from_env() -> Result<Self, Self::Error>;
}

/// An id that keys rooms and participants.
pub trait Key: Copy + Eq {}

impl<K: Copy + Eq> Key for K {}

} // verus!
