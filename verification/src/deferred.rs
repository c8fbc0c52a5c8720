//! Deferred return to normal quality: while a user interacts, a render is switched
//! to a cheap mode at once and back to normal after a delay, unless a newer request
//! arrived in between.
//!
//! The iterator decides which switch to make and hands it back as a [`Quality`]; the
//! embedding application performs it by calling the matching callback of the
//! [`TemporaryLow`] implementor ([`DeferredIterator::temporary_low`]).
use vstd::prelude::*;

verus! {

/// The two quality modes that a deferred iterator switches between, implemented by
/// the embedding application.
pub trait TemporaryLow {
    /// Switches to the cheap mode.
    fn callback_low(&self);

    /// Switches back to normal mode.
    fn callback_normal(&self);

    /// The implementor is busy (what [`TemporaryLow::is_active`] reports).
    spec fn busy(&self) -> bool;

    /// The implementor considers itself busy.
    fn is_active(&self) -> (r: bool)
        ensures
            r == self.busy(),
    ;
}

/// The quality mode to switch to.
#[derive(Clone, Copy, Debug, PartialEq, Eq, Structural)]
pub enum Quality {
    /// The cheap mode: [`TemporaryLow::callback_low`].
    Low,
    /// The normal mode: [`TemporaryLow::callback_normal`].
    Normal,
}

/// The generation after `g`: the counter wraps around like an atomic `fetch_add`.
pub open spec fn next_generation(g: usize) -> usize {
    if g == usize::MAX {
        0
    } else {
        (g + 1) as usize
    }
}

/// Switches to the cheap mode on request and back to normal after `delay_ms`
/// milliseconds; every request starts a new generation, and only the latest
/// generation's delayed switch takes effect.
pub struct DeferredIterator<L> {
    temporary_low: L,
    delay_ms: u64,
    schedule_gen: usize,
}

impl<L: TemporaryLow> DeferredIterator<L> {
    /// The current generation.
    pub closed spec fn generation(&self) -> usize {
        self.schedule_gen
    }

    /// The two modes it switches between.
    pub closed spec fn low(&self) -> L {
        self.temporary_low
    }

    /// The delay of the switch back, in milliseconds.
    pub closed spec fn delay(&self) -> u64 {
        self.delay_ms
    }

    /// A deferred iterator at generation 0.
    pub fn new(temporary_low: L, delay_ms: u64) -> (r: Self)
        ensures
            r.generation() == 0,
            r.delay() == delay_ms,
            r.low() == temporary_low,
    {
        DeferredIterator { temporary_low, delay_ms, schedule_gen: 0 }
    }

    /// Delay of the switch back, in milliseconds.
    pub fn delay_ms(&self) -> (r: u64)
        ensures
            r == self.delay(),
    {
        self.delay_ms
    }

    /// The generation counter is at its maximum: the next [`DeferredIterator::schedule`]
    /// would overflow its ticket.
    pub fn is_at_last_generation(&self) -> (r: bool)
        ensures
            r == (self.generation() == usize::MAX),
    {
        self.schedule_gen == usize::MAX
    }

    fn bump(&mut self)
        ensures
            final(self).generation() == next_generation(old(self).generation()),
            final(self).delay() == old(self).delay(),
            final(self).low() == old(self).low(),
    {
        if self.schedule_gen == usize::MAX {
            self.schedule_gen = 0;
        } else {
            self.schedule_gen = self.schedule_gen + 1;
        }
    }

    /// The implementor of the two modes, whose callback performs a switch.
    pub fn temporary_low(&self) -> (r: &L)
        ensures
            *r == self.low(),
    {
        &self.temporary_low
    }

    /// Switches back to normal at once and cancels any pending delayed switch.
    /// Returns the switch to perform: always [`Quality::Normal`].
    pub fn force(&mut self) -> (switch: Quality)
        ensures
            switch == Quality::Normal,
            final(self).generation() == next_generation(old(self).generation()),
            final(self).delay() == old(self).delay(),
            final(self).low() == old(self).low(),
    {
        self.bump();
        Quality::Normal
    }

    /// Switches to the cheap mode and starts a new generation. Returns the switch to
    /// perform now (always [`Quality::Low`]) and the ticket that the delayed switch
    /// back must present to [`DeferredIterator::fire`].
    pub fn schedule(&mut self) -> (r: (Quality, usize))
        requires
            old(self).generation() < usize::MAX,
        ensures
            r.0 == Quality::Low,
            r.1 == old(self).generation() + 1,
            final(self).generation() == r.1,
            final(self).delay() == old(self).delay(),
            final(self).low() == old(self).low(),
    {
        self.bump();
        (Quality::Low, self.schedule_gen)
    }

    /// The delayed switch back for `ticket`: back to normal only when no newer
    /// request arrived since the ticket was handed out, otherwise nothing.
    pub fn fire(&self, ticket: usize) -> (switch: Option<Quality>)
        ensures
            switch == (if self.generation() == ticket {
                Some(Quality::Normal)
            } else {
                None::<Quality>
            }),
    {
        if self.schedule_gen != ticket {
            return None;
        }
        Some(Quality::Normal)
    }

    /// Some request was ever made, or the implementor is busy.
    pub fn is_active(&self) -> (r: bool)
        ensures
            r == reports_active(self.generation(), self.low().busy()),
    {
        self.schedule_gen != 0 || self.temporary_low.is_active()
    }
}

/// A newer request always invalidates the ticket of the previous one.
pub proof fn lemma_newer_request_cancels(g: usize)
    ensures
        next_generation(g) != g,
{
}

/// Whether a deferred iterator at generation `g` whose implementor is `busy` reports
/// itself active.
pub open spec fn reports_active(g: usize, busy: bool) -> bool {
    g != 0 || busy
}

/// Before any request, the iterator is active exactly when its implementor is busy;
/// after a request (`force` or `schedule`) from a generation below the maximum, it is
/// active whatever the implementor says.
pub proof fn lemma_active_after_request(g: usize, busy: bool)
    ensures
        reports_active(0, busy) == busy,
        g < usize::MAX ==> reports_active(next_generation(g), busy),
{
}

} // verus!
