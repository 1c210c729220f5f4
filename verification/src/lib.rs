//! A small random password generator: a builder assembles an ordered
//! character set from four independently toggled categories (lowercase
//! letters, uppercase letters, digits, special symbols), and a generator
//! samples from that set uniformly at random to produce passwords of a
//! requested length.

mod builder;
mod charset;
mod generator;
mod laws;

pub use builder::PasswordGeneratorBuilder;
pub use charset::charset_spec;
pub use charset::digit_chars;
pub use charset::lowercase_chars;
pub use charset::special_chars;
pub use charset::uppercase_chars;
pub use generator::EmptyCharsetError;
pub use generator::PasswordGenerator;
pub use laws::lemma_all_disabled_empty;
pub use laws::lemma_charset_deterministic;
pub use laws::lemma_concatenation_order;
pub use laws::lemma_digits_isolation;
pub use laws::lemma_enabled_category_nonempty;
