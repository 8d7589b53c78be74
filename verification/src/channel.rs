//! The thread boundary of the pipeline: a bounded FIFO channel carrying one
//! sample and its accompanying process list per message.
//!
//! The channel itself comes from an outside crate and is trusted only for
//! what its documentation states; everything the consumer does with the
//! drained messages is verified. Sends block under backpressure (bounded
//! blocking-send policy) and fail only once the receiving side is gone.

use vstd::prelude::*;
use crate::data::GpuData;
use crate::data::ProcessInfo;
use crate::history::History;
use crate::history::ProcessTable;
use crate::history::appended_all;

verus! {

/// What the sampler publishes per tick: the telemetry reading and the
/// processes seen with it.
pub type Msg = (GpuData, Vec<ProcessInfo>);

#[verifier::external_type_specification]
#[verifier::external_body]
#[verifier::reject_recursive_types(T)]
pub struct ExSender<T>(crossbeam_channel::Sender<T>);

#[verifier::external_type_specification]
#[verifier::external_body]
#[verifier::reject_recursive_types(T)]
pub struct ExReceiver<T>(crossbeam_channel::Receiver<T>);

/// Relies on `crossbeam_channel::bounded`: a FIFO channel that holds at most
/// `capacity` pending messages.
#[verifier::external_body]
pub fn sample_channel(capacity: usize) -> (crossbeam_channel::Sender<Msg>, crossbeam_channel::Receiver<
    Msg,
>) {
    crossbeam_channel::bounded(capacity)
}

/// Relies on `Sender::send`: blocks while the channel is full and returns an
/// error only when all receivers have been dropped. The message is consumed
/// either way.
#[verifier::external_body]
pub fn send_sample(tx: &crossbeam_channel::Sender<Msg>, msg: Msg) -> (delivered: bool) {
    tx.send(msg).is_ok()
}

/// Relies on `Receiver::try_recv`: returns a pending message without ever
/// blocking, or nothing when the channel is currently empty or disconnected.
#[verifier::external_body]
pub fn try_recv_sample(rx: &crossbeam_channel::Receiver<Msg>) -> (r: Option<Msg>) {
    rx.try_recv().ok()
}

/// The samples of a batch of messages, in arrival order.
pub open spec fn samples_of(msgs: Seq<Msg>) -> Seq<GpuData> {
    msgs.map_values(|m: Msg| m.0)
}

/// One non-blocking drain of the channel, the consumer side of a refresh
/// tick: every currently pending message is appended to the history window
/// in arrival order and the process table is replaced wholesale with the
/// list of the last message drained. Returns how many messages were drained;
/// an empty drain leaves both stores exactly as they were.
pub fn drain_into(
    rx: &crossbeam_channel::Receiver<Msg>,
    history: &mut History,
    table: &mut ProcessTable,
) -> (n: usize)
    ensures
        final(history).duration() == old(history).duration(),
        n == 0 ==> final(history).samples_seq() == old(history).samples_seq()
            && final(table).entries_seq() == old(table).entries_seq(),
        exists|msgs: Seq<Msg>|
            {
                &&& msgs.len() == n
                &&& final(history).samples_seq() == appended_all(
                    old(history).samples_seq(),
                    samples_of(msgs),
                    old(history).duration(),
                )
                &&& (n > 0 ==> final(table).entries_seq() == msgs.last().1@)
            },
{
    let mut n: usize = 0;
    let ghost mut msgs: Seq<Msg> = Seq::empty();
    loop
        invariant
            history.duration() == old(history).duration(),
            msgs.len() == n,
            history.samples_seq() == appended_all(
                old(history).samples_seq(),
                samples_of(msgs),
                old(history).duration(),
            ),
            n == 0 ==> history.samples_seq() == old(history).samples_seq()
                && table.entries_seq() == old(table).entries_seq(),
            n > 0 ==> table.entries_seq() == msgs.last().1@,
        decreases usize::MAX - n,
    {
        if n == usize::MAX {
            break ;
        }
        match try_recv_sample(rx) {
            Some(msg) => {
                let ghost prev = msgs;
                proof {
                    msgs = msgs.push(msg);
                }
                let (sample, procs) = msg;
                assert(samples_of(msgs).drop_last() =~= samples_of(prev));
                assert(samples_of(msgs).last() == sample);
                history.push(sample);
                table.replace(procs);
                n += 1;
            },
            None => {
                break ;
            },
        }
    }
    proof {
        assert(msgs.len() == n && history.samples_seq() == appended_all(
            old(history).samples_seq(),
            samples_of(msgs),
            old(history).duration(),
        ) && (n > 0 ==> table.entries_seq() == msgs.last().1@));
    }
    n
}

} // verus!
