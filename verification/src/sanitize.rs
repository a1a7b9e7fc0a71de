//! Turning an untrusted file name into one that holds nothing unsafe for a
//! bare path segment. Of some names nothing is left.

use crate::paths::{is_confined, is_dot_name, is_separator};
use vstd::prelude::*;

verus! {

/// The name that the `sanitize-filename` crate makes of `name`, with or
/// without its extra rules for Windows, cutting at 255 bytes and replacing
/// what it removes by nothing.
pub uninterp spec fn sanitized(name: Seq<char>, windows: bool) -> Seq<char>;

/// A character that no sanitized name holds: a separator or one of
/// `? < > : * | "`.
pub open spec fn is_illegal(c: char) -> bool {
    is_separator(c) || c == '?' || c == '<' || c == '>' || c == ':' || c == '*' || c == '|' || c
        == '"'
}

/// A control character: U+0000 to U+001F, or U+0080 to U+009F.
pub open spec fn is_control(c: char) -> bool {
    c as u32 <= 0x1f || 0x80 <= c as u32 <= 0x9f
}

/// What holds of every sanitized name: no illegal character, no control
/// character, and it is neither `.` nor `..`.
pub open spec fn is_clean(name: Seq<char>) -> bool {
    &&& forall|i: int| 0 <= i < name.len() ==> !is_illegal(#[trigger] name[i])
    &&& forall|i: int| 0 <= i < name.len() ==> !is_control(#[trigger] name[i])
    &&& !is_dot_name(name)
}

/// A clean name is confined unless it is empty.
pub proof fn lemma_clean_is_confined(name: Seq<char>)
    requires
        is_clean(name),
    ensures
        is_confined(name) <==> name.len() > 0,
{
}

/// Calls `sanitize_filename::sanitize_with_options` with truncation on and an
/// empty replacement. Trusted: the result is a function of `name` and
/// `windows` alone, and it is clean. The crate deletes every illegal and
/// every control character and only ever deletes; a name made of dots alone
/// becomes empty; the cut at 255 bytes leaves at least 252 bytes, so it cannot
/// leave `.` or `..` behind. Nothing is claimed of the result's length: of
/// an empty name, or one of separators or dots alone, nothing is left.
#[verifier::external_body]
fn sanitize_with_options(name: &str, windows: bool) -> (result: String)
    ensures
        result@ == sanitized(name@, windows),
        is_clean(result@),
{
    let options = sanitize_filename::Options { windows, truncate: true, replacement: "" };
    sanitize_filename::sanitize_with_options(name, options)
}

/// Sanitizes an untrusted file name. For every input the result holds no
/// separator and is neither `.` nor `..`; it is confined unless it is
/// empty, as it is for the empty name and for names of separators or dots
/// alone.
pub fn sanitize(name: &str, windows: bool) -> (result: String)
    ensures
        result@ == sanitized(name@, windows),
        is_clean(result@),
        is_confined(result@) <==> result@.len() > 0,
{
    let result = sanitize_with_options(name, windows);
    proof {
        lemma_clean_is_confined(result@);
    }
    result
}

} // verus!
