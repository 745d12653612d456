//! Track references in song requests.
use crate::text::{find, find_from, index_of_from, scan_to, to_chars};
use vstd::prelude::*;
use vstd::string::*;

verus! {

/// What precedes the track identifier in a track's address.
pub const TRACK_MARKER: &'static str = "/track/";

/// What precedes the track identifier in a track's resource name.
pub const TRACK_URI_PREFIX: &'static str = "spotify:track:";

/// What precedes the resource name in the command that opens a track.
pub const OPEN_PREFIX: &'static str = "open \"";

/// What closes the command that opens a track.
pub const QUOTE: &'static str = "\"";

/// The track identifier in an address: what follows the first `/track/`, up
/// to the next `/track/`, the first question mark after it or the end of
/// the address, whichever comes first.
pub open spec fn track_id_of(url: Seq<char>) -> Option<Seq<char>> {
    match find_from(url, TRACK_MARKER@, 0) {
        None => None,
        Some(at) => {
            let start = at + TRACK_MARKER@.len();
            let stop = match find_from(url, TRACK_MARKER@, start) {
                Some(next) => next,
                None => url.len() as int,
            };
            Some(url.subrange(start, index_of_from(url.take(stop), '?', start)))
        },
    }
}

/// The resource name of the track that an address refers to.
pub open spec fn track_uri_of(url: Seq<char>) -> Option<Seq<char>> {
    match track_id_of(url) {
        Some(id) => Some(TRACK_URI_PREFIX@ + id),
        None => None,
    }
}

pub fn extract_track_id(url: &str) -> (r: Option<&str>)
    ensures
        r is Some <==> track_id_of(url@) is Some,
        r matches Some(id) ==> Some(id@) == track_id_of(url@),
{
    let chars = to_chars(url);
    let marker = to_chars(TRACK_MARKER);
    let n: usize = chars.len();
    match find(&chars, &marker, 0) {
        None => None,
        Some(at) => {
            proof {
                crate::text::lemma_find_from(chars@, marker@, 0);
            }
            let start: usize = at + marker.len();
            let stop: usize = match find(&chars, &marker, start) {
                Some(next) => {
                    proof {
                        crate::text::lemma_find_from(chars@, marker@, start as int);
                    }
                    next
                },
                None => n,
            };
            let end: usize = scan_to(&chars, '?', start, stop);
            Some(url.substring_char(start, end))
        },
    }
}

/// The shell command that opens the track that an address refers to.
pub open spec fn open_command_of(url: Seq<char>) -> Option<Seq<char>> {
    match track_uri_of(url) {
        Some(uri) => Some(OPEN_PREFIX@ + uri + QUOTE@),
        None => None,
    }
}

/// The shell command that opens the track that an address refers to.
pub fn open_track(url: &str) -> (r: Option<String>)
    ensures
        r is Some <==> open_command_of(url@) is Some,
        r matches Some(command) ==> Some(command@) == open_command_of(url@),
{
    match track_uri(url) {
        Some(uri) => Some(String::from_str(OPEN_PREFIX).concat(uri.as_str()).concat(QUOTE)),
        None => None,
    }
}

/// The resource name of the track that an address refers to.
pub fn track_uri(url: &str) -> (r: Option<String>)
    ensures
        r is Some <==> track_uri_of(url@) is Some,
        r matches Some(uri) ==> Some(uri@) == track_uri_of(url@),
{
    match extract_track_id(url) {
        Some(id) => Some(String::from_str(TRACK_URI_PREFIX).concat(id)),
        None => None,
    }
}

} // verus!
