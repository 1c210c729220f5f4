//! The password generator: an immutable ordered character set, sampled
//! independently and uniformly, with replacement, once per output position.

use rand::Rng;
use vstd::prelude::*;

verus! {

/// Returned when a password of nonzero length is requested from a
/// generator whose character set is empty: there is nothing to sample.
#[derive(Debug, Clone, Copy, PartialEq, Eq, Structural)]
pub struct EmptyCharsetError;

/// Relies on std's String::push: it appends the given character to the
/// end of the string.
pub assume_specification[ String::push ](s: &mut String, ch: char)
    ensures
        final(s)@ == old(s)@.push(ch),
;

/// Relies on rand::thread_rng and rand::Rng::gen_range over the half-open
/// range below `bound`: the draw lies in that range, uniformly distributed.
/// An empty range would panic, so a positive bound is required; nothing
/// more than the bound is promised of any one draw.
#[verifier::external_body]
fn random_index(bound: usize) -> (r: usize)
    requires
        bound >= 1,
    ensures
        r < bound,
{
    rand::thread_rng().gen_range(0..bound)
}

/// Wraps one finalized, immutable character set and samples passwords
/// from it. Stateless across calls: draws come from a shared random
/// source, and no call observes or mutates generator state.
pub struct PasswordGenerator {
    charset: Vec<char>,
}

impl View for PasswordGenerator {
    type V = Seq<char>;

    closed spec fn view(&self) -> Seq<char> {
        self.charset@
    }
}

impl PasswordGenerator {
    /// Wraps an already-assembled character set.
    pub(crate) fn from_charset(charset: Vec<char>) -> (r: Self)
        ensures
            r@ == charset@,
    {
        PasswordGenerator { charset }
    }

    /// The character set, in the order it was assembled.
    pub fn charset(&self) -> (r: &Vec<char>)
        ensures
            r@ == self@,
    {
        &self.charset
    }

    /// Produces a password of exactly `length` characters, each drawn
    /// independently and uniformly, with replacement, from the character
    /// set. Fails if and only if the character set is empty and at least
    /// one character was asked for; a length of zero always yields the
    /// empty string.
    pub fn generate_password(&self, length: usize) -> (r: Result<String, EmptyCharsetError>)
        ensures
            r is Err <==> self@.len() == 0 && length > 0,
            r matches Ok(p) ==> p@.len() == length,
            r matches Ok(p) ==> forall|i: int| 0 <= i < p@.len() ==> self@.contains(#[trigger] p@[i]),
    {
        if self.charset.len() == 0 && length > 0 {
            return Err(EmptyCharsetError);
        }
        let mut password = String::new();
        let mut i: usize = 0;
        while i < length
            invariant
                i <= length,
                length > 0 ==> self.charset@.len() > 0,
                password@.len() == i,
                forall|j: int| 0 <= j < i ==> self@.contains(#[trigger] password@[j]),
            decreases length - i,
        {
            let idx = random_index(self.charset.len());
            let c = self.charset[idx];
            password.push(c);
            i = i + 1;
        }
        Ok(password)
    }
}

} // verus!
