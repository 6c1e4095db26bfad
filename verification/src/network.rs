//! The message format of the animation-injection protocol: a play-mode
//! tag and the animation bytes. The listening, reading and file
//! writing live with the embedding program; deciding what a message
//! means is done, and verified, here.

use vstd::prelude::*;
use vstd::string::*;

use crate::text::spec_decimal;
use crate::text::u64_to_string;

verus! {

/// Failures of receiving an animation.
#[derive(Debug)]
pub enum NetworkError {
    /// An IO error occurred; the payload is its message.
    Io(String),
    /// A JSON error occurred; the payload is its message.
    Json(String),
    /// A conversion error occurred, with a description.
    Conversion(&'static str),
}

/// The structure a received JSON message gets parsed to.
#[derive(Debug)]
pub struct Message {
    /// Mode how the animation should be played.
    pub mode: String,
    /// The bytes of the animation.
    pub data: Vec<u8>,
}

/// How the animation should be played.
#[derive(Copy, Clone, PartialEq, Eq, Structural, Debug)]
pub enum PlayMode {
    /// Play the animation immediately. The scheduler does not support
    /// pre-emption, so such a message is acknowledged and not queued.
    Now,
    /// Queue the animation as next to play after the current cycle.
    Queued,
}

/// A character's value with an upper-case ASCII letter folded to its
/// lower-case one.
pub open spec fn spec_lower_u32(c: char) -> u32 {
    let v = c as u32;
    if 65 <= v && v <= 90 {
        (v + 32) as u32
    } else {
        v
    }
}

/// Whether two strings are equal up to ASCII case.
pub open spec fn spec_eq_ignore_ascii_case(a: Seq<char>, b: Seq<char>) -> bool {
    &&& a.len() == b.len()
    &&& forall|i: int| 0 <= i < a.len() ==> spec_lower_u32(#[trigger] a[i]) == spec_lower_u32(b[i])
}

/// The play mode a tag names: `now` or `queued`, in any ASCII case.
pub open spec fn spec_play_mode(s: Seq<char>) -> Option<PlayMode> {
    if spec_eq_ignore_ascii_case(s, "now"@) {
        Some(PlayMode::Now)
    } else if spec_eq_ignore_ascii_case(s, "queued"@) {
        Some(PlayMode::Queued)
    } else {
        None
    }
}

/// Compare two strings up to ASCII case.
fn eq_ignore_ascii_case(a: &str, b: &str) -> (r: bool)
    ensures
        r == spec_eq_ignore_ascii_case(a@, b@),
{
    let alen = a.unicode_len();
    let blen = b.unicode_len();
    if alen != blen {
        return false;
    }
    let mut i: usize = 0;
    while i < alen
        invariant
            0 <= i <= alen,
            alen == a@.len(),
            alen == b@.len(),
            forall|j: int| 0 <= j < i ==> spec_lower_u32(#[trigger] a@[j]) == spec_lower_u32(b@[j]),
        decreases alen - i,
    {
        let ca = a.get_char(i) as u32;
        let cb = b.get_char(i) as u32;
        let la = if 65 <= ca && ca <= 90 {
            ca + 32
        } else {
            ca
        };
        let lb = if 65 <= cb && cb <= 90 {
            cb + 32
        } else {
            cb
        };
        if la != lb {
            return false;
        }
        i = i + 1;
    }
    true
}

impl PlayMode {
    /// Convert a received play mode tag to its mode; an unknown tag is
    /// a conversion error.
    pub fn from_str(s: &str) -> (r: Result<PlayMode, NetworkError>)
        ensures
            match r {
                Ok(m) => spec_play_mode(s@) == Some(m),
                Err(e) => spec_play_mode(s@) is None && e matches NetworkError::Conversion(_),
            },
    {
        if eq_ignore_ascii_case(s, "now") {
            Ok(PlayMode::Now)
        } else if eq_ignore_ascii_case(s, "queued") {
            Ok(PlayMode::Queued)
        } else {
            Err(NetworkError::Conversion("Invalid play mode type"))
        }
    }
}

/// Once the message is interpreted, present it as a processed message.
#[derive(Debug)]
pub struct ProcessedMessage {
    /// The play mode the animation asks for.
    pub play_mode: PlayMode,
    /// The file name the animation bytes should be stored under, in
    /// the temporary directory.
    pub file_name: String,
}

/// The file name for the n-th received animation.
pub open spec fn spec_received_file_name(n: u8) -> Seq<char> {
    "received_file_"@ + spec_decimal(n as nat) + ".gif"@
}

/// Process a received message: determine its play mode and the unique
/// file name its animation bytes should be written under, numbered by
/// how many messages came before.
pub fn process_message(message: &Message, prev_recv_count: u8) -> (r: Result<
    ProcessedMessage,
    NetworkError,
>)
    ensures
        match r {
            Ok(p) => {
                &&& spec_play_mode(message.mode@) == Some(p.play_mode)
                &&& p.file_name@ == spec_received_file_name(prev_recv_count)
            },
            Err(_) => spec_play_mode(message.mode@) is None,
        },
{
    let play_mode = match PlayMode::from_str(message.mode.as_str()) {
        Ok(m) => m,
        Err(e) => {
            return Err(e);
        },
    };
    let mut name = String::from_str("received_file_");
    name.append(u64_to_string(prev_recv_count as u64).as_str());
    name.append(".gif");
    Ok(ProcessedMessage { play_mode, file_name: name })
}

} // verus!
