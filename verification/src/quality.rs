use vstd::prelude::*;

verus! {

/// Errors that the decision logic itself reports.
#[derive(Debug, PartialEq, Eq)]
pub enum Error {
    /// A failure described by a message, such as an unknown layer name.
    SystemError { message: String },
    /// A channel that the logic needed was closed.
    ChannelClosed,
}

/// Compares two string slices by their characters.
pub fn str_eq(a: &str, b: &str) -> (r: bool)
    ensures
        r == (a@ == b@),
{
    a.to_owned() == b.to_owned()
}

/// A simulcast layer of a published stream; `Audio` marks the single layer of
/// an audio stream.
#[derive(Debug, PartialEq, Eq, Hash, Clone, Copy, Structural, PartialOrd, Ord)]
pub enum StreamQuality {
    Audio,
    Low,
    Mid,
    High,
}

/// The layer named by a simulcast RID, if the name is one of the three known ones.
pub open spec fn quality_of_rid(rid: Seq<char>) -> Option<StreamQuality> {
    if rid == "low"@ {
        Some(StreamQuality::Low)
    } else if rid == "mid"@ {
        Some(StreamQuality::Mid)
    } else if rid == "high"@ {
        Some(StreamQuality::High)
    } else {
        None
    }
}

/// The message of the error for a RID that names no layer.
pub open spec fn unknown_quality_message() -> Seq<char> {
    "Unknown StreamQuality type"@
}

impl StreamQuality {
    /// The layer's number in the order `Audio < Low < Mid < High`.
    pub open spec fn rank(self) -> int {
        match self {
            StreamQuality::Audio => 0,
            StreamQuality::Low => 1,
            StreamQuality::Mid => 2,
            StreamQuality::High => 3,
        }
    }

    /// The layer's number in the order `Audio < Low < Mid < High`.
    pub fn as_u8(self) -> (r: u8)
        ensures
            r == self.rank(),
    {
        match self {
            StreamQuality::Audio => 0,
            StreamQuality::Low => 1,
            StreamQuality::Mid => 2,
            StreamQuality::High => 3,
        }
    }

    /// The highest layer, which a new subscription starts from.
    pub fn default() -> (r: StreamQuality)
        ensures
            r == StreamQuality::High,
    {
        StreamQuality::High
    }

    /// Parses a simulcast RID: `"low"`, `"mid"` or `"high"`.
    pub fn from_str(s: &str) -> (r: Result<StreamQuality, Error>)
        ensures
            quality_of_rid(s@) matches Some(q) ==> r == Ok::<StreamQuality, Error>(q),
            quality_of_rid(s@) is None ==> (r matches Err(Error::SystemError { message })
                && message@ == unknown_quality_message()),
    {
        if str_eq(s, "low") {
            Ok(StreamQuality::Low)
        } else if str_eq(s, "mid") {
            Ok(StreamQuality::Mid)
        } else if str_eq(s, "high") {
            Ok(StreamQuality::High)
        } else {
            Err(Error::SystemError { message: "Unknown StreamQuality type".to_owned() })
        }
    }
}

/// The codec of a published track. Audio tracks keep their MIME type as it
/// was announced.
#[derive(Debug, PartialEq, Eq)]
pub enum Codec {
    VP8,
    VP9,
    H264,
    AV1,
    Audio(String),
}

/// The mathematical value of a codec: the audio MIME type as characters.
pub enum CodecView {
    VP8,
    VP9,
    H264,
    AV1,
    Audio(Seq<char>),
}

impl View for Codec {
    type V = CodecView;

    open spec fn view(&self) -> CodecView {
        match self {
            Codec::VP8 => CodecView::VP8,
            Codec::VP9 => CodecView::VP9,
            Codec::H264 => CodecView::H264,
            Codec::AV1 => CodecView::AV1,
            Codec::Audio(m) => CodecView::Audio(m@),
        }
    }
}

impl CodecView {
    /// The MIME type that names the codec.
    pub open spec fn mime(self) -> Seq<char> {
        match self {
            CodecView::H264 => "video/H264"@,
            CodecView::VP8 => "video/VP8"@,
            CodecView::VP9 => "video/VP9"@,
            CodecView::AV1 => "video/AV1"@,
            CodecView::Audio(m) => m,
        }
    }

    /// The RTP payload type that the forwarded stream carries.
    pub open spec fn payload_type(self) -> u8 {
        match self {
            CodecView::AV1 => 41,
            CodecView::H264 => 102,
            CodecView::VP8 => 96,
            CodecView::VP9 => 100,
            CodecView::Audio(_) => 0,
        }
    }

    /// Whether the codec is a video codec whose key frames can be recognised.
    pub open spec fn has_keyframe_parser(self) -> bool {
        self is H264 || self is VP8 || self is VP9
    }
}

/// The codec that a MIME type names; any MIME type that names no video codec
/// is taken as the MIME type of an audio codec.
pub open spec fn codec_of_mime(m: Seq<char>) -> CodecView {
    if m == "video/VP8"@ {
        CodecView::VP8
    } else if m == "video/VP9"@ {
        CodecView::VP9
    } else if m == "video/H264"@ {
        CodecView::H264
    } else if m == "video/AV1"@ {
        CodecView::AV1
    } else {
        CodecView::Audio(m)
    }
}

impl Codec {
    /// The codec used where a track announces none that can be parsed.
    pub fn default() -> (r: Codec)
        ensures
            r@ == CodecView::VP8,
    {
        Codec::VP8
    }

    /// A copy of the codec.
    pub fn duplicate(&self) -> (r: Codec)
        ensures
            r == *self,
            r@ == self@,
    {
        match self {
            Codec::VP8 => Codec::VP8,
            Codec::VP9 => Codec::VP9,
            Codec::H264 => Codec::H264,
            Codec::AV1 => Codec::AV1,
            Codec::Audio(m) => Codec::Audio(m.clone()),
        }
    }

    /// Reads a codec from a MIME type; this never fails.
    pub fn from_str(s: &str) -> (r: Result<Codec, Error>)
        ensures
            r matches Ok(c) && c@ == codec_of_mime(s@),
    {
        if str_eq(s, "video/VP8") {
            Ok(Codec::VP8)
        } else if str_eq(s, "video/VP9") {
            Ok(Codec::VP9)
        } else if str_eq(s, "video/H264") {
            Ok(Codec::H264)
        } else if str_eq(s, "video/AV1") {
            Ok(Codec::AV1)
        } else {
            Ok(Codec::Audio(s.to_owned()))
        }
    }

    /// The MIME type that names the codec.
    pub fn to_string(&self) -> (r: String)
        ensures
            r@ == self@.mime(),
    {
        match self {
            Codec::H264 => "video/H264".to_owned(),
            Codec::VP8 => "video/VP8".to_owned(),
            Codec::VP9 => "video/VP9".to_owned(),
            Codec::AV1 => "video/AV1".to_owned(),
            Codec::Audio(audio) => audio.clone(),
        }
    }

    /// The RTP payload type that the forwarded stream carries.
    pub fn payload_type(&self) -> (r: u8)
        ensures
            r == self@.payload_type(),
    {
        match self {
            Codec::AV1 => 41,
            Codec::H264 => 102,
            Codec::VP8 => 96,
            Codec::VP9 => 100,
            Codec::Audio(_) => 0,
        }
    }

    /// Whether the codec is a video codec whose key frames can be recognised.
    pub fn has_keyframe_parser(&self) -> (r: bool)
        ensures
            r == self@.has_keyframe_parser(),
    {
        match self {
            Codec::H264 | Codec::VP8 | Codec::VP9 => true,
            _ => false,
        }
    }
}

/// Reading back the MIME type of a codec read from a MIME type gives that MIME
/// type again, whatever it was.
pub proof fn law_mime_of_parsed_codec(m: Seq<char>)
    ensures
        codec_of_mime(m).mime() == m,
{
}

/// A codec survives the trip through its MIME type, unless it is an audio
/// codec whose MIME type names a video codec.
pub proof fn law_parse_of_codec_mime(c: CodecView)
    requires
        !(c is Audio && (c.mime() == "video/VP8"@ || c.mime() == "video/VP9"@
            || c.mime() == "video/H264"@ || c.mime() == "video/AV1"@)),
    ensures
        codec_of_mime(c.mime()) == c,
{
    reveal_strlit("video/VP8");
    reveal_strlit("video/VP9");
    reveal_strlit("video/H264");
    reveal_strlit("video/AV1");
    match c {
        CodecView::VP8 => {
            assert("video/VP8"@ != "video/VP9"@) by { assert("video/VP8"@[8] != "video/VP9"@[8]); }
        },
        CodecView::VP9 => {
            assert("video/VP9"@ != "video/VP8"@) by { assert("video/VP8"@[8] != "video/VP9"@[8]); }
        },
        CodecView::H264 => {
            assert("video/H264"@ != "video/VP8"@) by { assert("video/H264"@.len() != "video/VP8"@.len()); }
            assert("video/H264"@ != "video/VP9"@) by { assert("video/H264"@.len() != "video/VP9"@.len()); }
        },
        CodecView::AV1 => {
            assert("video/AV1"@ != "video/VP8"@) by { assert("video/AV1"@[6] != "video/VP8"@[6]); }
            assert("video/AV1"@ != "video/VP9"@) by { assert("video/AV1"@[6] != "video/VP9"@[6]); }
            assert("video/AV1"@ != "video/H264"@) by { assert("video/AV1"@.len() != "video/H264"@.len()); }
        },
        CodecView::Audio(_) => {},
    }
}

} // verus!
