//! The secret that the broker shares with its payload.

use vstd::prelude::*;

verus! {

/// How many characters a secret has.
pub const SECRET_LEN: usize = 16;

/// Whether `c` is one of `A` to `Z`, `a` to `z` and `0` to `9`.
pub open spec fn is_alphanumeric(c: char) -> bool {
    ('A' <= c && c <= 'Z') || ('a' <= c && c <= 'z') || ('0' <= c && c <= '9')
}

/// Whether `s` can be a secret: it has the length of one, and every
/// character of it is a letter or a digit.
pub open spec fn is_secret(s: Seq<char>) -> bool {
    &&& s.len() == SECRET_LEN
    &&& forall|i: int| 0 <= i < s.len() ==> is_alphanumeric(#[trigger] s[i])
}

/// Draws one character with `rand::Rng::sample` from the distribution
/// `rand::distr::Alphanumeric`, on the thread's generator `rand::rng()`,
/// which is seeded by the operating system. The distribution picks from the
/// 62 letters and digits of ASCII, each with the same chance; which one
/// comes is left open here.
#[verifier::external_body]
fn sample_alphanumeric() -> (c: char)
    ensures
        is_alphanumeric(c),
{
    char::from(rand::Rng::sample(&mut rand::rng(), rand::distr::Alphanumeric))
}

/// Makes a fresh secret of 16 random letters and digits.
pub fn generate_secret() -> (r: String)
    ensures
        is_secret(r@),
{
    let mut r = String::new();
    let mut i: usize = 0;
    while i < SECRET_LEN
        invariant
            i <= SECRET_LEN,
            r@.len() == i,
            forall|j: int| 0 <= j < r@.len() ==> is_alphanumeric(#[trigger] r@[j]),
        decreases SECRET_LEN - i,
    {
        let c = sample_alphanumeric();
        r.push(c);
        i = i + 1;
    }
    r
}

} // verus!
