//! Case-convention mapping: each schema declares its canonical field names in
//! lower-case words joined by underscores, and one fixed convention per
//! schema maps them to the literal spelling the input uses. Irregular names
//! (all-caps acronyms and the like) use a per-field literal override instead.

use vstd::prelude::*;
use vstd::string::StrSliceExecFns;

verus! {

/// A fixed field-name spelling convention.
#[derive(PartialEq, Eq, Structural, Clone, Copy, Debug)]
pub enum Convention {
    /// Capitalized words joined by underscores: `bank_account` -> `Bank_Account`.
    PascalSnake,
    /// Capitalized words, no separator: `game_mode` -> `GameMode`.
    Pascal,
    /// All lower case, no separator: `game_version` -> `gameversion`.
    LowerJoin,
}

/// Upper-cases one ASCII letter; anything else is unchanged.
pub open spec fn spec_upper(c: char) -> char {
    if 'a' <= c && c <= 'z' {
        ((c as u32 - 32) as u8) as char
    } else {
        c
    }
}

fn upper_char(c: char) -> (r: char)
    ensures
        r == spec_upper(c),
{
    if 'a' <= c && c <= 'z' {
        ((c as u32 - 32) as u8) as char
    } else {
        c
    }
}

/// Whether position `i` starts a word: the first position, or one following
/// an underscore.
pub open spec fn spec_boundary(s: Seq<char>, i: int) -> bool {
    i == 0 || s[i - 1] == '_'
}

/// What one character of the canonical name contributes to the spelling.
pub open spec fn spec_piece(c: char, boundary: bool, conv: Convention) -> Seq<char> {
    if c == '_' {
        if conv is PascalSnake {
            seq!['_']
        } else {
            Seq::empty()
        }
    } else if boundary && !(conv is LowerJoin) {
        seq![spec_upper(c)]
    } else {
        seq![c]
    }
}

/// The spelling of the first `n` characters of the canonical name.
pub open spec fn spec_convert_prefix(s: Seq<char>, conv: Convention, n: int) -> Seq<char>
    decreases n,
{
    if n <= 0 {
        Seq::empty()
    } else {
        spec_convert_prefix(s, conv, n - 1) + spec_piece(s[n - 1], spec_boundary(s, n - 1), conv)
    }
}

/// The literal input spelling of a canonical field name under a convention.
pub open spec fn spec_convert(s: Seq<char>, conv: Convention) -> Seq<char> {
    spec_convert_prefix(s, conv, s.len() as int)
}

/// Relies on String::push: appends the one given character at the end.
#[verifier::external_body]
pub(crate) fn push_char(s: &mut String, c: char)
    ensures
        final(s)@ == old(s)@.push(c),
{
    s.push(c);
}

/// Maps a canonical field name to the spelling the input uses under the
/// given convention.
pub fn convert_name(name: &str, conv: Convention) -> (r: String)
    ensures
        r@ == spec_convert(name@, conv),
{
    let n = name.unicode_len();
    let mut out = String::new();
    let mut boundary = true;
    let mut i: usize = 0;
    while i < n
        invariant
            n == name@.len(),
            0 <= i <= n,
            out@ == spec_convert_prefix(name@, conv, i as int),
            boundary == spec_boundary(name@, i as int),
        decreases n - i,
    {
        let ghost before = out@;
        let c = name.get_char(i);
        if c == '_' {
            if conv == Convention::PascalSnake {
                push_char(&mut out, '_');
            }
            boundary = true;
        } else {
            if boundary && !(conv == Convention::LowerJoin) {
                push_char(&mut out, upper_char(c));
            } else {
                push_char(&mut out, c);
            }
            boundary = false;
        }
        proof {
            assert(out@ =~= before + spec_piece(name@[i as int], spec_boundary(name@, i as int), conv));
        }
        i = i + 1;
    }
    out
}

} // verus!
