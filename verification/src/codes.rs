//! Short-code generation: fixed-length identifiers drawn uniformly from the
//! alphanumeric alphabet.
//!
//! Generation is stateless and never inspects the URL being shortened; each
//! call samples characters independently. Collisions are possible by design:
//! the mapping store, not the generator, is the final authority on
//! uniqueness.

use vstd::prelude::*;
use rand::Rng;

verus! {

/// Length of every generated short code.
pub const CODE_LENGTH: usize = 6;

/// A character is alphanumeric in the ASCII sense: a digit, an upper-case
/// letter, or a lower-case letter.
pub open spec fn is_alphanumeric_char(c: char) -> bool {
    ('0' <= c && c <= '9') || ('A' <= c && c <= 'Z') || ('a' <= c && c <= 'z')
}

/// A well-formed short code: exactly `CODE_LENGTH` characters, all
/// alphanumeric.
pub open spec fn valid_code(s: Seq<char>) -> bool {
    &&& s.len() == CODE_LENGTH
    &&& forall|i: int| 0 <= i < s.len() ==> is_alphanumeric_char(#[trigger] s[i])
}

/// Relies on rand's `Alphanumeric` distribution: sampling it yields a byte
/// drawn uniformly from the 62 ASCII digits and letters (0-9, A-Z, a-z), so
/// the character it converts to is always alphanumeric. Nothing more is
/// assumed of the outcome: two calls may return anything in that alphabet.
/// Failure to obtain entropy aborts in the host environment and is not a
/// recoverable error.
#[verifier::external_body]
fn sample_alphanumeric() -> (c: char)
    ensures
        is_alphanumeric_char(c),
{
    char::from(rand::thread_rng().sample(rand::distributions::Alphanumeric))
}

/// Relies on `String::push`: appends the given character to the end of the
/// string.
#[verifier::external_body]
fn push_char(s: &mut String, c: char)
    ensures
        final(s)@ == old(s)@.push(c),
{
    s.push(c);
}

/// Produce a fresh candidate short code: exactly `CODE_LENGTH` characters,
/// each sampled independently and uniformly from the alphanumeric alphabet.
pub fn generate_short_code() -> (code: String)
    ensures
        valid_code(code@),
{
    let mut code = String::new();
    let mut i: usize = 0;
    while i < CODE_LENGTH
        invariant
            i <= CODE_LENGTH,
            code@.len() == i,
            forall|j: int| 0 <= j < code@.len() ==> is_alphanumeric_char(#[trigger] code@[j]),
        decreases CODE_LENGTH - i,
    {
        let c = sample_alphanumeric();
        push_char(&mut code, c);
        i = i + 1;
    }
    code
}

} // verus!
