//! Paths that quick actions open or write: user paths with `~` and
//! environment variables, and the names of captured screenshots.

use vstd::prelude::*;
use crate::text::{chars_of, decimal, extend_chars, push_decimal, string_from_chars, trim, trim_chars};

verus! {

/// Whether expanding `path` leaves it as it is: it holds no `$` and does not
/// start with `~`.
pub open spec fn nothing_to_expand(path: Seq<char>) -> bool {
    !path.contains('$') && !(path.len() > 0 && path[0] == '~')
}

/// `shellexpand::full`: expands `~` and environment variables in `input`,
/// reading the home directory and the environment. Its source returns the
/// input unchanged when it holds no `$` and does not start with `~`; what it
/// gives otherwise depends on the environment and is not stated. An error is
/// handed back as its message.
#[verifier::external_body]
fn shell_expand_full(input: &str) -> (r: Result<String, String>)
    ensures
        nothing_to_expand(input@) ==> (r is Ok && r->Ok_0@ == input@),
{
    match shellexpand::full(input) {
        Ok(expanded) => Ok(expanded.into_owned()),
        Err(error) => Err(error.to_string()),
    }
}

/// The prefix of the error reported when a path cannot be expanded.
pub open spec fn expansion_failure_prefix() -> Seq<char> {
    "failed to expand path variables: "@
}

/// The path that an action's `path` names: trimmed, then with `~` and
/// environment variables expanded. A path with nothing to expand comes back
/// trimmed; an expansion that fails is reported with its reason.
pub fn expand_path(path: &str) -> (r: Result<String, String>)
    ensures
        nothing_to_expand(trim(path@)) ==> (r is Ok && r->Ok_0@ == trim(path@)),
        r is Err ==> exists|reason: Seq<char>| r->Err_0@ == expansion_failure_prefix() + reason,
{
    let trimmed = string_from_chars(&trim_chars(&chars_of(path)));
    match shell_expand_full(trimmed.as_str()) {
        Ok(expanded) => Ok(expanded),
        Err(reason) => {
            let mut v = chars_of("failed to expand path variables: ");
            let tail = chars_of(reason.as_str());
            extend_chars(&mut v, &tail);
            assert(v@ == expansion_failure_prefix() + reason@);
            Err(string_from_chars(&v))
        },
    }
}

/// The file name of a screenshot captured `seconds` after the Unix epoch.
pub open spec fn screenshot_file_text(seconds: nat) -> Seq<char> {
    "ArcRelay-"@ + decimal(seconds) + ".png"@
}

/// The file name under which a screenshot taken `seconds` after the Unix
/// epoch is saved.
pub fn screenshot_file_name(seconds: u64) -> (s: String)
    ensures
        s@ == screenshot_file_text(seconds as nat),
{
    let mut v = chars_of("ArcRelay-");
    push_decimal(&mut v, seconds);
    extend_chars(&mut v, &chars_of(".png"));
    assert(v@ =~= screenshot_file_text(seconds as nat));
    string_from_chars(&v)
}

} // verus!
