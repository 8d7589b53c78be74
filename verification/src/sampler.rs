//! The producer side of the pipeline: one turn of the sampling loop.
//!
//! The loop itself — spawn a thread, tick, sleep a fixed interval, repeat —
//! is plumbing that lives outside the library; what is verified here is the
//! policy of a turn: publish a successful reading, swallow a transient
//! failure and go on, and stop only once the consumer is gone.

use vstd::prelude::*;
use crate::channel::send_sample;
use crate::monitor::GpuMonitor;

verus! {

/// What one turn of the sampling loop came to.
#[derive(Clone, Copy, Debug, PartialEq, Eq, Structural)]
pub enum SamplerOutcome {
    /// A reading was taken and handed to the consumer.
    Sent,
    /// A reading was taken but the consumer is gone; the loop must stop.
    Disconnected,
    /// The reading failed transiently; nothing was published and the loop
    /// must try again after its interval.
    SampleFailed,
}

/// The decision of one loop turn, as a function of what the two outside
/// steps came to: did the reading succeed, and was it delivered.
pub fn outcome_of(sampled: bool, delivered: bool) -> (o: SamplerOutcome)
    ensures
        !sampled ==> o == SamplerOutcome::SampleFailed,
        (sampled && delivered) ==> o == SamplerOutcome::Sent,
        (sampled && !delivered) ==> o == SamplerOutcome::Disconnected,
{
    if !sampled {
        SamplerOutcome::SampleFailed
    } else if delivered {
        SamplerOutcome::Sent
    } else {
        SamplerOutcome::Disconnected
    }
}

/// One turn of the sampling loop: take a reading from the monitor and, when
/// it succeeds, publish it on the channel. A failed reading publishes
/// nothing, so the consumer's stores see nothing from this turn.
pub fn sampler_tick<M: GpuMonitor + ?Sized>(
    monitor: &mut M,
    tx: &crossbeam_channel::Sender<crate::channel::Msg>,
) -> (o: SamplerOutcome) {
    match monitor.sample() {
        Ok(msg) => outcome_of(true, send_sample(tx, msg)),
        Err(_) => outcome_of(false, false),
    }
}

/// The loop policy: a transient sampling failure never ends the loop; only
/// a disconnected consumer does.
pub fn should_continue(o: SamplerOutcome) -> (c: bool)
    ensures
        c == (o != SamplerOutcome::Disconnected),
{
    match o {
        SamplerOutcome::Disconnected => false,
        _ => true,
    }
}

} // verus!
