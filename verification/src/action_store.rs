//! The file that stores the quick actions: what a load makes of a file that
//! does not parse, and the names of the files written beside it.

use vstd::prelude::*;
use crate::quick_action::{is_uuid_v4_text, new_uuid_v4};
use crate::text::{chars_of, extend_chars, string_from_chars};

verus! {

/// What a load of the stored actions comes to.
#[derive(Debug)]
pub enum LoadOutcome<T> {
    /// The file parsed.
    Loaded(T),
    /// The file did not parse but its backup did; the unreadable file is
    /// kept aside under another name before the backup is used.
    Recovered(T),
    /// Neither parsed: the load fails and the file stays as it is.
    Corrupted(String),
}

/// The error of a load whose file, at `path`, and its backup do not parse.
pub open spec fn corrupted_text(path: Seq<char>, error: Seq<char>) -> Seq<char> {
    "action file is corrupted; original retained at "@ + path + ": "@ + error
}

/// What a load comes to, given how the file at `path` parsed and whether
/// its backup parsed: a file that does not parse is never taken for an
/// empty list.
pub fn load_outcome<T>(parsed: Result<T, String>, backup: Option<T>, path: &str) -> (r: LoadOutcome<T>)
    ensures
        match parsed {
            Ok(v) => r == LoadOutcome::Loaded(v),
            Err(e) => match backup {
                Some(b) => r == LoadOutcome::Recovered(b),
                None => r matches LoadOutcome::Corrupted(m) && m@ == corrupted_text(path@, e@),
            },
        },
{
    match parsed {
        Ok(v) => LoadOutcome::Loaded(v),
        Err(e) => match backup {
            Some(b) => LoadOutcome::Recovered(b),
            None => {
                let mut v = chars_of("action file is corrupted; original retained at ");
                extend_chars(&mut v, &chars_of(path));
                extend_chars(&mut v, &chars_of(": "));
                extend_chars(&mut v, &chars_of(e.as_str()));
                assert(v@ =~= corrupted_text(path@, e@));
                LoadOutcome::Corrupted(string_from_chars(&v))
            },
        },
    }
}

/// Whether a save first copies the stored file to the backup: only a file
/// that parses replaces the backup.
pub fn backs_up_previous(previous_read: bool, previous_parses: bool) -> (b: bool)
    ensures
        b == (previous_read && previous_parses),
{
    previous_read && previous_parses
}

/// A fresh name under which an unreadable actions file is kept.
pub fn corrupt_file_name() -> (s: String)
    ensures
        exists|u: Seq<char>| #[trigger] is_uuid_v4_text(u) && s@ == "quick_actions.json.corrupt."@ + u,
{
    let u = new_uuid_v4();
    let mut v = chars_of("quick_actions.json.corrupt.");
    extend_chars(&mut v, &chars_of(u.as_str()));
    assert(is_uuid_v4_text(u@));
    string_from_chars(&v)
}

/// A fresh name for the file that a replacement of the file `file_name`
/// writes first, beside it: hidden, unique, ending in `.tmp`; the name
/// `arcrelay-data` stands in when the file has none.
pub fn temporary_file_name(file_name: Option<&str>) -> (s: String)
    ensures
        exists|u: Seq<char>| #[trigger] is_uuid_v4_text(u) && s@ == "."@ + match file_name {
            Some(n) => n@,
            None => "arcrelay-data"@,
        } + "."@ + u + ".tmp"@,
{
    let u = new_uuid_v4();
    let mut v = chars_of(".");
    match file_name {
        Some(n) => extend_chars(&mut v, &chars_of(n)),
        None => extend_chars(&mut v, &chars_of("arcrelay-data")),
    }
    extend_chars(&mut v, &chars_of("."));
    extend_chars(&mut v, &chars_of(u.as_str()));
    extend_chars(&mut v, &chars_of(".tmp"));
    assert(is_uuid_v4_text(u@));
    string_from_chars(&v)
}

} // verus!
