//! The configuration builder: four independent boolean toggles, finalized
//! by concatenating the enabled categories into one ordered character set.

use crate::charset::charset_spec;
use crate::charset::push_char_range;
use crate::charset::push_special;
use crate::generator::PasswordGenerator;
use vstd::prelude::*;

verus! {

/// Accumulates the four category toggles. Every combination is legal,
/// including all four disabled, which finalizes to an empty character set.
pub struct PasswordGeneratorBuilder {
    lowercase: bool,
    uppercase: bool,
    numbers: bool,
    special: bool,
}

impl PasswordGeneratorBuilder {
    /// Whether the lowercase category is enabled.
    pub closed spec fn spec_lowercase(&self) -> bool {
        self.lowercase
    }

    /// Whether the uppercase category is enabled.
    pub closed spec fn spec_uppercase(&self) -> bool {
        self.uppercase
    }

    /// Whether the digit category is enabled.
    pub closed spec fn spec_numbers(&self) -> bool {
        self.numbers
    }

    /// Whether the special-symbol category is enabled.
    pub closed spec fn spec_special(&self) -> bool {
        self.special
    }

    /// The ordered character set this configuration denotes.
    pub open spec fn spec_charset(&self) -> Seq<char> {
        charset_spec(
            self.spec_lowercase(),
            self.spec_uppercase(),
            self.spec_numbers(),
            self.spec_special(),
        )
    }

    /// A fresh configuration with every category disabled.
    pub fn new() -> (r: Self)
        ensures
            !r.spec_lowercase(),
            !r.spec_uppercase(),
            !r.spec_numbers(),
            !r.spec_special(),
    {
        PasswordGeneratorBuilder { lowercase: false, uppercase: false, numbers: false, special: false }
    }

    /// Enables or disables the lowercase category; the other toggles keep
    /// their values.
    pub fn with_lowercase(self, lowercase: bool) -> (r: Self)
        ensures
            r.spec_lowercase() == lowercase,
            r.spec_uppercase() == self.spec_uppercase(),
            r.spec_numbers() == self.spec_numbers(),
            r.spec_special() == self.spec_special(),
    {
        PasswordGeneratorBuilder { lowercase, ..self }
    }

    /// Enables or disables the uppercase category; the other toggles keep
    /// their values.
    pub fn with_uppercase(self, uppercase: bool) -> (r: Self)
        ensures
            r.spec_lowercase() == self.spec_lowercase(),
            r.spec_uppercase() == uppercase,
            r.spec_numbers() == self.spec_numbers(),
            r.spec_special() == self.spec_special(),
    {
        PasswordGeneratorBuilder { uppercase, ..self }
    }

    /// Enables or disables the digit category; the other toggles keep
    /// their values.
    pub fn with_numbers(self, numbers: bool) -> (r: Self)
        ensures
            r.spec_lowercase() == self.spec_lowercase(),
            r.spec_uppercase() == self.spec_uppercase(),
            r.spec_numbers() == numbers,
            r.spec_special() == self.spec_special(),
    {
        PasswordGeneratorBuilder { numbers, ..self }
    }

    /// Enables or disables the special-symbol category; the other toggles
    /// keep their values.
    pub fn with_special(self, special: bool) -> (r: Self)
        ensures
            r.spec_lowercase() == self.spec_lowercase(),
            r.spec_uppercase() == self.spec_uppercase(),
            r.spec_numbers() == self.spec_numbers(),
            r.spec_special() == special,
    {
        PasswordGeneratorBuilder { special, ..self }
    }

    /// Concatenates the enabled categories, in the fixed order lowercase,
    /// uppercase, digits, special, into one ordered character set.
    pub fn create_charset(&self) -> (r: Vec<char>)
        ensures
            r@ == self.spec_charset(),
    {
        let mut charset: Vec<char> = Vec::new();

        if self.lowercase {
            push_char_range(&mut charset, 'a' as u8, 'z' as u8);
        }

        if self.uppercase {
            push_char_range(&mut charset, 'A' as u8, 'Z' as u8);
        }

        if self.numbers {
            push_char_range(&mut charset, '0' as u8, '9' as u8);
        }

        if self.special {
            push_special(&mut charset);
        }

        proof {
            assert(charset@ =~= self.spec_charset());
        }
        charset
    }

    /// Finalizes the configuration into a generator wrapping the character
    /// set this configuration denotes.
    pub fn build(self) -> (r: PasswordGenerator)
        ensures
            r@ == self.spec_charset(),
    {
        PasswordGenerator::from_charset(self.create_charset())
    }
}

} // verus!
