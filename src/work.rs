//! Synthetic work: each unit draws one random word and hands it to the
//! optimiser as an opaque value, so no unit can be removed as dead code.
use vstd::prelude::*;

verus! {

#[verifier::external_type_specification]
#[verifier::external_body]
pub struct ExThreadRng(rand::rngs::ThreadRng);

/// Relies on `rand::Rng::gen::<usize>` for rand's thread-local generator:
/// a uniformly random word. Nothing can be promised of its value.
#[verifier::external_body]
fn draw_word(rng: &mut rand::rngs::ThreadRng) -> usize {
    rand::Rng::gen::<usize>(rng)
}

/// Relies on `std::hint::black_box`: the value is treated as used, and the
/// call has no other effect.
#[verifier::external_body]
fn keep_opaque(word: usize) {
    std::hint::black_box(word);
}

/// Performs `units` units of synthetic work and returns how many were done,
/// which is `units` itself.
pub fn busy_work(rng: &mut rand::rngs::ThreadRng, units: u64) -> (done: u64)
    ensures
        done == units,
{
    let mut done: u64 = 0;
    while done < units
        invariant
            done <= units,
        decreases units - done,
    {
        let word = draw_word(rng);
        keep_opaque(word);
        done = done + 1;
    }
    done
}

} // verus!
