//! Recognition of the deep link that hands the application an API key on
//! its command line.

use crate::text::{chars_of, matches_at, string_of};
use vstd::prelude::*;

verus! {

/// The text that a deep link with an API key begins with.
pub open spec fn api_key_prefix() -> Seq<char> {
    "todoforai-edge://auth/apikey/"@
}

/// The API key that the argument carries: what follows the prefix, when
/// the argument begins with it.
pub open spec fn api_key_spec(arg: Seq<char>) -> Option<Seq<char>> {
    if arg.len() >= api_key_prefix().len() && arg.take(api_key_prefix().len() as int)
        == api_key_prefix() {
        Some(arg.skip(api_key_prefix().len() as int))
    } else {
        None
    }
}

/// Reads the API key out of a command-line argument, if it is such a deep
/// link.
pub fn deep_link_api_key(arg: &str) -> (key: Option<String>)
    ensures
        match key {
            Some(text) => api_key_spec(arg@) == Some(text@),
            None => api_key_spec(arg@) is None,
        },
{
    let chars = chars_of(arg);
    let prefix = chars_of("todoforai-edge://auth/apikey/");
    let n = prefix.len();
    if chars.len() < n {
        return None;
    }
    let starts = matches_at(&chars, 0, &prefix);
    assert(chars@.subrange(0, n as int) =~= arg@.take(n as int));
    if starts {
        let key = string_of(&chars, n, chars.len());
        assert(chars@.subrange(n as int, chars@.len() as int) =~= arg@.skip(n as int));
        Some(key)
    } else {
        None
    }
}

} // verus!
