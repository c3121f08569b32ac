//! Small verified helpers on strings.

use vstd::prelude::*;

verus! {

/// Whether two string slices hold the same characters.
pub fn same_text(a: &str, b: &str) -> (r: bool)
    ensures
        r == (a@ == b@),
{
    let x = a.to_owned();
    let y = b.to_owned();
    x == y
}

/// The text of a boolean as the file format writes it.
pub open spec fn flag_text(b: bool) -> Seq<char> {
    if b {
        "true"@
    } else {
        "false"@
    }
}

/// Writes a boolean as the lowercase literal `true` or `false`.
pub fn flag_literal(b: bool) -> (s: &'static str)
    ensures
        s@ == flag_text(b),
{
    if b {
        "true"
    } else {
        "false"
    }
}

/// The boolean that a raw text stands for: `true` and `false` are the only
/// literals, anything else stands for none.
pub open spec fn parse_flag_spec(raw: Seq<char>) -> Option<bool> {
    if raw == "true"@ {
        Some(true)
    } else if raw == "false"@ {
        Some(false)
    } else {
        None
    }
}

/// Coerces a raw text to a boolean; `None` where it is neither literal.
pub fn parse_flag(raw: &str) -> (r: Option<bool>)
    ensures
        r == parse_flag_spec(raw@),
{
    if same_text(raw, "true") {
        Some(true)
    } else if same_text(raw, "false") {
        Some(false)
    } else {
        None
    }
}

/// Writing a flag and reading it back gives the flag.
pub proof fn lemma_flag_text_parses_back(b: bool)
    ensures
        parse_flag_spec(flag_text(b)) == Some(b),
{
    reveal_strlit("true");
    reveal_strlit("false");
    if !b {
        assert("false"@.len() == 5);
        assert("true"@.len() == 4);
    }
}

} // verus!
