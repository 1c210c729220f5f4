//! The mathematical model of the character set: one spec sequence per
//! category, and the concatenation a configuration denotes.
//!
//! The letter and digit ranges are half-open on purpose: the lowercase
//! category stops at `'y'`, the uppercase category at `'Y'`, and the digit
//! category at `'8'`. The final character of each range is excluded.

use vstd::prelude::*;

verus! {

/// The lowercase category: the 25 characters `'a'` through `'y'`, in
/// increasing order (`'z'` is excluded).
pub open spec fn lowercase_chars() -> Seq<char> {
    Seq::new(25, |i: int| (('a' as int) + i) as char)
}

/// The uppercase category: the 25 characters `'A'` through `'Y'`, in
/// increasing order (`'Z'` is excluded).
pub open spec fn uppercase_chars() -> Seq<char> {
    Seq::new(25, |i: int| (('A' as int) + i) as char)
}

/// The digit category: the 9 characters `'0'` through `'8'`, in
/// increasing order (`'9'` is excluded).
pub open spec fn digit_chars() -> Seq<char> {
    Seq::new(9, |i: int| (('0' as int) + i) as char)
}

/// The special-symbol category: a fixed list of 18 symbols, in this order.
pub open spec fn special_chars() -> Seq<char> {
    seq!['!', '@', '#', '$', '%', '^', '&', '*', '(', ')', '-', '+', '=', '{', '}', '[', ']', '\\']
}

/// The ordered character set a configuration denotes: the enabled
/// categories concatenated in the fixed order
/// lowercase, uppercase, digits, special.
pub open spec fn charset_spec(lowercase: bool, uppercase: bool, digits: bool, special: bool) -> Seq<
    char,
> {
    (if lowercase {
        lowercase_chars()
    } else {
        Seq::<char>::empty()
    }) + (if uppercase {
        uppercase_chars()
    } else {
        Seq::<char>::empty()
    }) + (if digits {
        digit_chars()
    } else {
        Seq::<char>::empty()
    }) + (if special {
        special_chars()
    } else {
        Seq::<char>::empty()
    })
}

/// Appends the characters whose codes run from `lo` (inclusive) to `hi`
/// (exclusive), in increasing order.
pub(crate) fn push_char_range(out: &mut Vec<char>, lo: u8, hi: u8)
    requires
        lo <= hi,
        hi <= 127,
    ensures
        final(out)@ == old(out)@ + Seq::new((hi - lo) as nat, |i: int| (lo + i) as char),
{
    let mut c: u8 = lo;
    while c < hi
        invariant
            lo <= c <= hi,
            hi <= 127,
            out@ =~= old(out)@ + Seq::new((c - lo) as nat, |i: int| (lo + i) as char),
        decreases hi - c,
    {
        out.push(c as char);
        c = c + 1;
        proof {
            assert(out@ =~= old(out)@ + Seq::new((c - lo) as nat, |i: int| (lo + i) as char));
        }
    }
}

/// Appends the 18 special symbols in their fixed order.
pub(crate) fn push_special(out: &mut Vec<char>)
    ensures
        final(out)@ == old(out)@ + special_chars(),
{
    out.push('!');
    out.push('@');
    out.push('#');
    out.push('$');
    out.push('%');
    out.push('^');
    out.push('&');
    out.push('*');
    out.push('(');
    out.push(')');
    out.push('-');
    out.push('+');
    out.push('=');
    out.push('{');
    out.push('}');
    out.push('[');
    out.push(']');
    out.push('\\');
    proof {
        assert(out@ =~= old(out)@ + special_chars());
    }
}

} // verus!
