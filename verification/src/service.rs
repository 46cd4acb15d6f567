//! Subscription-token generation: 25 characters drawn from the alphanumeric
//! alphabet by the fast per-thread generator.

use vstd::prelude::*;

verus! {

use crate::text::push_char;

/// A character of the token alphabet: `A`–`Z`, `a`–`z` or `0`–`9`.
pub open spec fn is_token_char(c: char) -> bool {
    (65 <= c as int && c as int <= 90) || (97 <= c as int && c as int <= 122) || (48 <= c as int
        && c as int <= 57)
}

#[verifier::external_type_specification]
#[verifier::external_body]
pub struct ExThreadRng(rand::rngs::ThreadRng);

/// Relies on rand's `thread_rng`: a fresh handle to the per-thread generator.
#[verifier::external_body]
fn new_rng() -> rand::rngs::ThreadRng {
    rand::thread_rng()
}

/// Relies on rand's `Alphanumeric` distribution, which samples uniformly
/// from `A`–`Z`, `a`–`z`, `0`–`9`; nothing more is assumed of the draw.
#[verifier::external_body]
fn sample_alphanumeric(rng: &mut rand::rngs::ThreadRng) -> (c: char)
    ensures
        is_token_char(c),
{
    char::from(rand::Rng::sample(rng, rand::distributions::Alphanumeric))
}

/// Draws a fresh subscription token: exactly 25 alphanumeric characters.
pub fn generate_subcription_token() -> (r: String)
    ensures
        r@.len() == 25,
        forall|i: int| 0 <= i < r@.len() ==> is_token_char(#[trigger] r@[i]),
{
    let mut rng = new_rng();
    let mut s = String::new();
    let mut i: usize = 0;
    while i < 25
        invariant
            i <= 25,
            s@.len() == i,
            forall|j: int| 0 <= j < s@.len() ==> is_token_char(#[trigger] s@[j]),
        decreases 25 - i,
    {
        let c = sample_alphanumeric(&mut rng);
        push_char(&mut s, c);
        i += 1;
    }
    s
}

} // verus!
