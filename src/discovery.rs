//! Reading the answers to an SSDP search for players.
use vstd::prelude::*;

use crate::text::{
    ascii_lowercase, fields_of, find_char, first_index, split_on, substring, texts,
    to_ascii_lower, trim, trimmed,
};

verus! {

/// The search target that identifies players (ZonePlayer devices).
pub const SONOS_URN: &'static str = "urn:schemas-upnp-org:device:ZonePlayer:1";

/// The header that a response line `name: value` carries: its name, trimmed
/// and in lower case, and its value, trimmed; nothing for a line without a
/// colon.
pub open spec fn line_header(line: Seq<char>) -> Option<(Seq<char>, Seq<char>)> {
    match first_index(line, ':') {
        Some(i) => Some(
            (
                ascii_lowercase(trimmed(line.subrange(0, i))),
                trimmed(line.subrange(i + 1, line.len() as int)),
            ),
        ),
        None => None,
    }
}

/// The value of the last header named `name` among `lines`.
pub open spec fn last_header(lines: Seq<Seq<char>>, name: Seq<char>) -> Option<Seq<char>>
    decreases lines.len(),
{
    if lines.len() == 0 {
        None
    } else {
        match line_header(lines.last()) {
            Some((n, v)) if n == name => Some(v),
            _ => last_header(lines.drop_last(), name),
        }
    }
}

/// The location that a search response advertises, where it is the answer
/// of a player: its `ST` header is `SONOS_URN` and it has a `LOCATION`
/// header. Where a header repeats, its last value counts.
pub open spec fn advertised_location(response: Seq<char>) -> Option<Seq<char>> {
    let lines = fields_of(response, '\n');
    match last_header(lines, "st"@) {
        Some(st) if st == SONOS_URN@ => last_header(lines, "location"@),
        _ => None,
    }
}

/// The header that a line carries.
fn header_of(line: &String) -> (r: Option<(String, String)>)
    ensures
        match line_header(line@) {
            Some((n, v)) => r matches Some(p) && p.0@ == n && p.1@ == v,
            None => r is None,
        },
{
    let text = line.as_str();
    let n = text.unicode_len();
    match find_char(text, ':') {
        None => None,
        Some(i) => {
            let name = to_ascii_lower(trim(substring(text, 0, i).as_str()).as_str());
            let value = trim(substring(text, i + 1, n).as_str());
            Some((name, value))
        },
    }
}

/// The value of the last header named `name` among `lines`.
fn last_header_value(lines: &Vec<String>, name: &String) -> (r: Option<String>)
    ensures
        match last_header(texts(lines@), name@) {
            Some(v) => r matches Some(t) && t@ == v,
            None => r is None,
        },
{
    let ghost all = texts(lines@);
    let mut k: usize = lines.len();
    assert(all.subrange(0, k as int) =~= all);
    while k > 0
        invariant
            k <= lines.len(),
            all == texts(lines@),
            last_header(all, name@) == last_header(all.subrange(0, k as int), name@),
        decreases k,
    {
        let ghost prefix = all.subrange(0, k as int);
        assert(prefix.drop_last() =~= all.subrange(0, k - 1));
        assert(prefix.last() == lines@[k - 1]@);
        match header_of(&lines[k - 1]) {
            Some((n, v)) => {
                if n == *name {
                    return Some(v);
                }
            },
            None => {},
        }
        k = k - 1;
    }
    None
}

/// The location of the device description that a search response
/// advertises, where the response is the answer of a player.
pub fn player_location(response: &str) -> (r: Option<String>)
    ensures
        match advertised_location(response@) {
            Some(l) => r matches Some(t) && t@ == l,
            None => r is None,
        },
{
    let lines = split_on(response, '\n');
    match last_header_value(&lines, &String::from_str("st")) {
        Some(st) => {
            if st == String::from_str(SONOS_URN) {
                last_header_value(&lines, &String::from_str("location"))
            } else {
                None
            }
        },
        None => None,
    }
}

} // verus!
