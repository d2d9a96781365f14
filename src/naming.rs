//! The default rule that turns a variant's declared identifier into its
//! wire-name: snake case, where every ASCII capital letter becomes its lower
//! case form and, unless it opens the identifier, is preceded by `_`.
//! `BazQuxx` becomes `baz_quxx`; every other character is kept as it is.
use vstd::prelude::*;

verus! {

/// Relies on std's `String::push`: the character is appended at the end.
pub assume_specification[ String::push ](s: &mut String, ch: char)
    ensures
        final(s)@ == old(s)@.push(ch),
;

pub open spec fn is_ascii_upper(c: char) -> bool {
    'A' <= c && c <= 'Z'
}

pub open spec fn lower_char(c: char) -> char {
    if is_ascii_upper(c) {
        ((c as u32) + 32) as char
    } else {
        c
    }
}

/// What one character of the identifier contributes to the wire-name.
pub open spec fn snake_piece(c: char, first: bool) -> Seq<char> {
    if is_ascii_upper(c) && !first {
        seq!['_', lower_char(c)]
    } else {
        seq![lower_char(c)]
    }
}

/// The snake-case wire-name of an identifier.
pub open spec fn snake_case(s: Seq<char>) -> Seq<char>
    decreases s.len(),
{
    if s.len() == 0 {
        Seq::empty()
    } else {
        snake_case(s.drop_last()) + snake_piece(s.last(), s.len() == 1)
    }
}

pub fn to_ascii_lower(c: char) -> (r: char)
    ensures
        r == lower_char(c),
{
    if 'A' <= c && c <= 'Z' {
        ((c as u8) + 32) as char
    } else {
        c
    }
}

/// Applies the default naming rule to a declared identifier.
pub fn to_snake_case(name: &str) -> (r: String)
    ensures
        r@ == snake_case(name@),
{
    let n = name.unicode_len();
    let mut r = String::new();
    let mut i: usize = 0;
    while i < n
        invariant
            n == name@.len(),
            i <= n,
            r@ == snake_case(name@.subrange(0, i as int)),
        decreases n - i,
    {
        let c = name.get_char(i);
        if 'A' <= c && c <= 'Z' && i > 0 {
            r.push('_');
        }
        r.push(to_ascii_lower(c));
        proof {
            let next = name@.subrange(0, i + 1);
            assert(next.drop_last() =~= name@.subrange(0, i as int));
            assert(next.last() == c);
        }
        i = i + 1;
    }
    proof {
        assert(name@.subrange(0, n as int) =~= name@);
    }
    r
}

} // verus!
