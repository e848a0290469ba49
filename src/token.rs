use vstd::prelude::*;

use rand::Rng;

verus! {

/// The number of characters in a confirmation token.
pub const TOKEN_LENGTH: usize = 25;

/// A character of the token alphabet `[A-Za-z0-9]`.
pub open spec fn is_token_char(c: char) -> bool {
    ('A' <= c && c <= 'Z') || ('a' <= c && c <= 'z') || ('0' <= c && c <= '9')
}

/// A well-formed confirmation token: `TOKEN_LENGTH` characters of the token alphabet.
pub open spec fn is_subscription_token(t: Seq<char>) -> bool {
    t.len() == TOKEN_LENGTH && forall|i: int| 0 <= i < t.len() ==> is_token_char(#[trigger] t[i])
}

/// Relies on `rand::distributions::Alphanumeric`, sampled from the thread-local
/// generator: it yields one byte of `A-Z`, `a-z` or `0-9`.
#[verifier::external_body]
fn random_token_char() -> (c: char)
    ensures
        is_token_char(c),
{
    char::from(rand::thread_rng().sample(rand::distributions::Alphanumeric))
}

/// Relies on `String::push`: the character is appended at the end.
#[verifier::external_body]
fn push_char(s: &mut String, c: char)
    ensures
        final(s)@ == old(s)@.push(c),
{
    s.push(c)
}

/// Draws a fresh confirmation token.
pub fn generate_subscription_token() -> (t: String)
    ensures
        is_subscription_token(t@),
{
    let mut t = String::new();
    let mut i: usize = 0;
    while i < TOKEN_LENGTH
        invariant
            i <= TOKEN_LENGTH,
            t@.len() == i,
            forall|j: int| 0 <= j < i ==> is_token_char(#[trigger] t@[j]),
        decreases TOKEN_LENGTH - i,
    {
        let c = random_token_char();
        push_char(&mut t, c);
        i = i + 1;
    }
    t
}

} // verus!
