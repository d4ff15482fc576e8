//! Output relay: what is logged for each chunk that the child wrote.

use crate::text::{chars_of, decode_lossy, push_range, trim_end, trim_end_at, utf8_lossy};
use vstd::prelude::*;

verus! {

/// The stream of the child that a chunk came from.
#[derive(Debug, Clone, Copy, PartialEq, Eq, Structural)]
pub enum StreamOrigin {
    Stdout,
    Stderr,
}

/// The tag that marks the origin of a line.
pub open spec fn origin_tag(origin: StreamOrigin) -> Seq<char> {
    match origin {
        StreamOrigin::Stdout => "Py stdout: "@,
        StreamOrigin::Stderr => "Py stderr: "@,
    }
}

/// A relayed line: the tag of its origin, then the text without its
/// trailing whitespace.
pub open spec fn relay_line_spec(origin: StreamOrigin, text: Seq<char>) -> Seq<char> {
    origin_tag(origin) + trim_end(text)
}

/// Tags a decoded line with its origin and drops its trailing whitespace.
pub fn tag_line(origin: StreamOrigin, text: &str) -> (line: String)
    ensures
        line@ == relay_line_spec(origin, text@),
{
    let mut line = match origin {
        StreamOrigin::Stdout => "Py stdout: ".to_owned(),
        StreamOrigin::Stderr => "Py stderr: ".to_owned(),
    };
    let chars = chars_of(text);
    let end = trim_end_at(&chars, 0, chars.len());
    assert(chars@.subrange(0, chars@.len() as int) =~= chars@);
    push_range(&mut line, &chars, 0, end);
    line
}

/// Turns one chunk of output into the line to log. Bytes that are no valid
/// text are replaced, so every chunk gives a line.
pub fn relay_line(origin: StreamOrigin, bytes: &[u8]) -> (line: String)
    ensures
        line@ == relay_line_spec(origin, utf8_lossy(bytes@)),
{
    let text = decode_lossy(bytes);
    tag_line(origin, text.as_str())
}

} // verus!
