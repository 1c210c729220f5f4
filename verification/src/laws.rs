//! Properties of the character-set model, each stated and proved once.

use crate::builder::PasswordGeneratorBuilder;
use crate::charset::charset_spec;
use crate::charset::digit_chars;
use crate::charset::lowercase_chars;
use crate::charset::special_chars;
use crate::charset::uppercase_chars;
use vstd::prelude::*;

verus! {

/// A configuration with at least one category enabled denotes a nonempty
/// character set, so a generator built from it succeeds at every length.
pub proof fn lemma_enabled_category_nonempty(
    lowercase: bool,
    uppercase: bool,
    numbers: bool,
    special: bool,
)
    requires
        lowercase || uppercase || numbers || special,
    ensures
        charset_spec(lowercase, uppercase, numbers, special).len() > 0,
{
}

/// A configuration with every category disabled denotes the empty
/// character set, so a generator built from it fails at every nonzero
/// length and returns the empty string at length zero.
pub proof fn lemma_all_disabled_empty()
    ensures
        charset_spec(false, false, false, false).len() == 0,
{
}

/// The character set depends on the four toggles alone: building equal
/// configurations yields character sets that are equal as ordered
/// sequences.
pub proof fn lemma_charset_deterministic(
    first: PasswordGeneratorBuilder,
    second: PasswordGeneratorBuilder,
)
    requires
        first.spec_lowercase() == second.spec_lowercase(),
        first.spec_uppercase() == second.spec_uppercase(),
        first.spec_numbers() == second.spec_numbers(),
        first.spec_special() == second.spec_special(),
    ensures
        first.spec_charset() == second.spec_charset(),
{
}

/// Category isolation: with only the digit category enabled, every
/// character of the character set is one of the digits `'0'` through
/// `'8'` — no letters and no symbols.
pub proof fn lemma_digits_isolation()
    ensures
        charset_spec(false, false, true, false) == digit_chars(),
        forall|i: int|
            0 <= i < digit_chars().len() ==> '0' <= #[trigger] digit_chars()[i]
                && digit_chars()[i] <= '8',
{
    assert(charset_spec(false, false, true, false) =~= digit_chars());
    assert forall|i: int| 0 <= i < digit_chars().len() implies '0' <= #[trigger] digit_chars()[i]
        && digit_chars()[i] <= '8' by {
        assert(digit_chars()[i] == (('0' as int) + i) as char);
    }
}

/// Concatenation order: with all four categories enabled, the character
/// set is the lowercase category, then the uppercase category, then the
/// digit category, then the special-symbol category, in that fixed order.
pub proof fn lemma_concatenation_order()
    ensures
        charset_spec(true, true, true, true).len() == 77,
        charset_spec(true, true, true, true).subrange(0, 25) == lowercase_chars(),
        charset_spec(true, true, true, true).subrange(25, 50) == uppercase_chars(),
        charset_spec(true, true, true, true).subrange(50, 59) == digit_chars(),
        charset_spec(true, true, true, true).subrange(59, 77) == special_chars(),
{
    assert(charset_spec(true, true, true, true).subrange(0, 25) =~= lowercase_chars());
    assert(charset_spec(true, true, true, true).subrange(25, 50) =~= uppercase_chars());
    assert(charset_spec(true, true, true, true).subrange(50, 59) =~= digit_chars());
    assert(charset_spec(true, true, true, true).subrange(59, 77) =~= special_chars());
}

} // verus!
