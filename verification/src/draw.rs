//! Drawing characters at random and putting the draws together.

use rand::seq::IteratorRandom;
use vstd::prelude::*;

verus! {

/// `rand::rngs::ThreadRng`, the handle to the thread-local generator. Nothing
/// is known of its state.
#[verifier::external_type_specification]
#[verifier::external_body]
pub struct ExThreadRng(rand::rngs::ThreadRng);

/// `rand::thread_rng` hands out the handle to the thread-local generator.
/// Nothing is claimed of the handle. The call fails only where the operating
/// system cannot seed the generator.
pub assume_specification[ rand::thread_rng ]() -> (rng: rand::rngs::ThreadRng)
;

/// `String::insert` at byte position 0 puts `ch` in front of the characters
/// that the string held. Position 0 is always a character boundary, so the
/// call does not panic; other positions are not specified here.
pub assume_specification[ String::insert ](s: &mut String, idx: usize, ch: char)
    requires
        idx == 0,
    ensures
        final(s)@ == seq![ch] + old(s)@,
;

/// `IteratorRandom::choose` on the characters of `charset`: one of them,
/// picked with the generator behind `rng`, or `None` if and only if `charset`
/// is empty. Which character comes out is not specified, and two calls may
/// differ.
#[verifier::external_body]
fn choose_char(charset: &str, rng: &mut rand::rngs::ThreadRng) -> (draw: Option<char>)
    ensures
        draw is None <==> charset@.len() == 0,
        draw matches Some(ch) ==> charset@.contains(ch),
{
    charset.chars().choose(rng)
}

/// Whether every member of `chars` is a member of `charset`.
pub open spec fn drawn_from(chars: Seq<char>, charset: Seq<char>) -> bool {
    forall|i: int| 0 <= i < chars.len() ==> charset.contains(#[trigger] chars[i])
}

/// Draws `count` characters from `charset`, each on its own and with
/// replacement, and returns them in the order in which they were drawn.
///
/// Fails exactly when `charset` is empty.
pub fn draw_chars(charset: &str, count: usize) -> (result: Result<Vec<char>, ()>)
    ensures
        result is Ok <==> charset@.len() > 0,
        result matches Ok(draws) ==> draws@.len() == count && drawn_from(draws@, charset@),
{
    if charset.is_empty() {
        return Err(());
    }
    let mut rng = rand::thread_rng();
    let mut draws: Vec<char> = Vec::new();
    let mut drawn: usize = 0;
    while drawn < count
        invariant
            drawn <= count,
            charset@.len() > 0,
            draws@.len() == drawn,
            drawn_from(draws@, charset@),
        decreases count - drawn,
    {
        match choose_char(charset, &mut rng) {
            Some(ch) => draws.push(ch),
            None => return Err(()),
        }
        drawn += 1;
    }
    Ok(draws)
}

/// Builds the password from the characters in the order in which they were
/// drawn: each one is put in front of those drawn before it, so the first
/// draw ends up last and the last draw first.
pub fn password_from_draws(draws: &Vec<char>) -> (password: String)
    ensures
        password@ == draws@.reverse(),
{
    let mut password = String::new();
    let mut placed: usize = 0;
    while placed < draws.len()
        invariant
            placed <= draws@.len(),
            password@ == draws@.subrange(0, placed as int).reverse(),
        decreases draws@.len() - placed,
    {
        password.insert(0, draws[placed]);
        placed += 1;
        assert(password@ =~= draws@.subrange(0, placed as int).reverse());
    }
    assert(draws@.subrange(0, placed as int) =~= draws@);
    password
}

} // verus!
