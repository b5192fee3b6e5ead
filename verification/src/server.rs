use vstd::prelude::*;
use std::collections::HashMap;
use crate::table::{lists_handles, take_handles};

verus! {

broadcast use vstd::std_specs::hash::group_hash_axioms;

/// What the server is told; `room` is the handle of a room that the caller
/// has just started.
pub enum ServerMessage {
    CreateRoom { id: u128, room: u64 },
    DeleteRoom { room_id: u128 },
    GetRoomAddr { room_id: u128 },
}

/// What the server does in answer to a message.
#[derive(Debug, PartialEq, Eq)]
pub enum ServerAction {
    /// Answer the creator with the new room; `replaced` is the room that the
    /// id named before, if any, which the server no longer knows.
    Created { room: u64, replaced: Option<u64> },
    /// Terminate `room`, if any.
    Deleted { room: Option<u64> },
    /// Answer with the room that the id names, if any.
    Found { room: Option<u64> },
}

/// The rooms of a server, by id.
pub struct Server {
    pub rooms: HashMap<u128, u64>,
}

impl Server {
    /// A server without rooms.
    pub fn default() -> (s: Server)
        ensures
            s.rooms@ == Map::<u128, u64>::empty(),
    {
        Server { rooms: HashMap::new() }
    }

    /// Handles one message.
    pub fn handle(&mut self, msg: ServerMessage) -> (action: ServerAction)
        ensures
            match msg {
                ServerMessage::CreateRoom { id, room } => {
                    &&& final(self).rooms@ == old(self).rooms@.insert(id, room)
                    &&& action == ServerAction::Created {
                        room,
                        replaced: if old(self).rooms@.contains_key(id) {
                            Some(old(self).rooms@[id])
                        } else {
                            None::<u64>
                        },
                    }
                },
                ServerMessage::DeleteRoom { room_id } => {
                    &&& final(self).rooms@ == old(self).rooms@.remove(room_id)
                    &&& action == ServerAction::Deleted {
                        room: if old(self).rooms@.contains_key(room_id) {
                            Some(old(self).rooms@[room_id])
                        } else {
                            None::<u64>
                        },
                    }
                },
                ServerMessage::GetRoomAddr { room_id } => {
                    &&& final(self).rooms@ == old(self).rooms@
                    &&& action == ServerAction::Found {
                        room: if old(self).rooms@.contains_key(room_id) {
                            Some(old(self).rooms@[room_id])
                        } else {
                            None::<u64>
                        },
                    }
                },
            },
    {
        match msg {
            ServerMessage::CreateRoom { id, room } => {
                let replaced = self.rooms.insert(id, room);
                ServerAction::Created { room, replaced }
            },
            ServerMessage::DeleteRoom { room_id } => {
                let room = self.rooms.remove(&room_id);
                ServerAction::Deleted { room }
            },
            ServerMessage::GetRoomAddr { room_id } => {
                let room = match self.rooms.get(&room_id) {
                    Some(r) => Some(*r),
                    None => None,
                };
                ServerAction::Found { room }
            },
        }
    }

    /// The rooms to terminate when the server stops.
    pub fn stopping(&mut self) -> (rooms: Vec<u64>)
        ensures
            final(self).rooms@ == Map::<u128, u64>::empty(),
            lists_handles(old(self).rooms@, rooms@),
    {
        take_handles(&mut self.rooms)
    }
}

/// A room asked for right after it was created is the room that was created.
pub proof fn law_get_after_create(rooms: Map<u128, u64>, id: u128, room: u64)
    ensures
        rooms.insert(id, room).contains_key(id),
        rooms.insert(id, room)[id] == room,
{
}

/// A room asked for after it was deleted is not found.
pub proof fn law_get_after_delete(rooms: Map<u128, u64>, id: u128)
    ensures
        !rooms.remove(id).contains_key(id),
{
}

/// Creating or deleting one room leaves every other room as it was.
pub proof fn law_other_rooms_unchanged(rooms: Map<u128, u64>, id: u128, room: u64, other: u128)
    requires
        other != id,
    ensures
        rooms.insert(id, room).contains_key(other) == rooms.contains_key(other),
        rooms.contains_key(other) ==> rooms.insert(id, room)[other] == rooms[other],
        rooms.remove(id).contains_key(other) == rooms.contains_key(other),
        rooms.contains_key(other) ==> rooms.remove(id)[other] == rooms[other],
{
}

} // verus!
