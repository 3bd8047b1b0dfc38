//! The scheduler's clock and random source, and what it remembers between calls.
use vstd::prelude::*;

use rand::rngs::StdRng;
use rand::{Rng, SeedableRng};
use std::time::Instant;

verus! {

/// `std::time::Instant`, carried opaquely as the scheduler's clock origin.
#[verifier::external_type_specification]
#[verifier::external_body]
pub struct ExInstant(Instant);

/// `rand::rngs::StdRng`, carried opaquely as a seeded lottery source.
#[verifier::external_type_specification]
#[verifier::external_body]
pub struct ExStdRng(StdRng);

/// Relies on `Instant::now`: the current instant. Nothing is promised of it.
pub assume_specification[ Instant::now ]() -> Instant;

/// Relies on `Instant::elapsed`: the time since the instant. Nothing is promised of it.
pub assume_specification[ Instant::elapsed ](self_: &Instant) -> std::time::Duration;

/// Relies on `Duration::as_millis`: the whole milliseconds of a duration.
pub assume_specification[ std::time::Duration::as_millis ](self_: &std::time::Duration) -> u128;

/// State the scheduler keeps between selections.
pub struct SchedulerState {
    /// Round-robin cursor: an index into the current round-robin candidates.
    pub rr_cursor: usize,
    /// Sticky flag: set once a real-time deadline was seen to have passed.
    pub deadline_violated: bool,
    /// Clock origin for deadline checks.
    pub start: Instant,
    /// Seeded lottery source; `None` draws from the thread-local generator.
    pub rng: Option<StdRng>,
}

/// Whole milliseconds since `start`, as `u64` (wrapping past `u64::MAX`).
pub(crate) fn elapsed_ms(start: &Instant) -> (r: u64) {
    let ms: u128 = start.elapsed().as_millis();
    ms as u64
}

/// Relies on `SeedableRng::seed_from_u64` for `StdRng`: a generator fixed by `seed`.
#[verifier::external_body]
fn seeded_rng(seed: u64) -> (r: StdRng) {
    StdRng::seed_from_u64(seed)
}

/// Relies on `Rng::gen_range` over `thread_rng()`: a value in `[0, bound)`;
/// it panics on an empty range, which `requires` leaves out.
#[verifier::external_body]
fn draw_thread_rng(bound: u128) -> (r: u128)
    requires
        bound > 0,
    ensures
        r < bound,
{
    rand::thread_rng().gen_range(0..bound)
}

/// Relies on `Rng::gen_range` for `StdRng`: a value in `[0, bound)`;
/// it panics on an empty range, which `requires` leaves out.
#[verifier::external_body]
fn draw_seeded(rng: &mut StdRng, bound: u128) -> (r: u128)
    requires
        bound > 0,
    ensures
        r < bound,
{
    rng.gen_range(0..bound)
}

/// Fresh scheduler state drawing from the thread-local generator.
pub fn new_scheduler_state() -> (r: SchedulerState)
    ensures
        r.rr_cursor == 0,
        !r.deadline_violated,
        r.rng is None,
{
    SchedulerState { rr_cursor: 0, deadline_violated: false, start: Instant::now(), rng: None }
}

/// Fresh scheduler state drawing from a generator seeded with `seed`.
pub fn seeded_scheduler_state(seed: u64) -> (r: SchedulerState)
    ensures
        r.rr_cursor == 0,
        !r.deadline_violated,
        r.rng is Some,
{
    SchedulerState {
        rr_cursor: 0,
        deadline_violated: false,
        start: Instant::now(),
        rng: Some(seeded_rng(seed)),
    }
}

impl SchedulerState {
    /// A uniform draw in `[0, bound)` from this state's random source.
    pub fn draw_below(&mut self, bound: u128) -> (r: u128)
        requires
            bound > 0,
        ensures
            r < bound,
            final(self).rr_cursor == old(self).rr_cursor,
            final(self).deadline_violated == old(self).deadline_violated,
            final(self).start == old(self).start,
            final(self).rng is Some == old(self).rng is Some,
    {
        match &mut self.rng {
            Some(g) => draw_seeded(g, bound),
            None => draw_thread_rng(bound),
        }
    }
}

} // verus!
