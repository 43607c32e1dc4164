//! Stripping one pair of surrounding quotes from a drafted message before it
//! is published: chat completions often hand the note back wrapped in `"` or
//! `'`, which must not appear in the posted text.

use vstd::prelude::*;

verus! {

/// The two quote characters that may wrap a drafted message.
pub open spec fn is_quote_char(c: char) -> bool {
    c == '"' || c == '\''
}

/// A string is wrapped exactly when it has at least two characters and its
/// first and last characters are the same quote character.
pub open spec fn is_quote_wrapped(s: Seq<char>) -> bool {
    s.len() >= 2 && s[0] == s[s.len() - 1] && is_quote_char(s[0])
}

/// Remove a single matching pair of surrounding quotes; any other string,
/// including one shorter than two characters, stays as it is.
pub open spec fn spec_remove_quotes(s: Seq<char>) -> Seq<char> {
    if is_quote_wrapped(s) {
        s.subrange(1, s.len() - 1)
    } else {
        s
    }
}

/// Strip one matching pair of leading/trailing quotes from `s`, if present.
pub fn remove_quotes(s: &str) -> (r: String)
    ensures
        r@ == spec_remove_quotes(s@),
{
    let n = s.unicode_len();
    if n < 2 {
        return s.to_owned();
    }
    let first = s.get_char(0);
    let last = s.get_char(n - 1);
    if first == last && (first == '"' || first == '\'') {
        s.substring_char(1, n - 1).to_owned()
    } else {
        s.to_owned()
    }
}

/// Quote-stripping changes nothing on input that is not wrapped in a
/// matching quote pair; in particular it is idempotent on such input.
pub proof fn lemma_remove_quotes_unwrapped(s: Seq<char>)
    requires
        !is_quote_wrapped(s),
    ensures
        spec_remove_quotes(s) == s,
        spec_remove_quotes(spec_remove_quotes(s)) == spec_remove_quotes(s),
{
}

/// Input shorter than two characters is returned unchanged.
pub proof fn lemma_remove_quotes_short(s: Seq<char>)
    requires
        s.len() < 2,
    ensures
        spec_remove_quotes(s) == s,
{
}

/// On wrapped input exactly the first and last characters are removed.
pub proof fn lemma_remove_quotes_wrapped(s: Seq<char>)
    requires
        is_quote_wrapped(s),
    ensures
        spec_remove_quotes(s) == s.subrange(1, s.len() - 1),
        spec_remove_quotes(s).len() == s.len() - 2,
{
}

} // verus!
