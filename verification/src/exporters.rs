//! The consumer-side decision logic shared by every presentation sink,
//! and the small computations of the individual sinks.
//!
//! Each consumer task subscribes to the sample broadcast and to the
//! stop-flag and runs a loop that races the two; the loop body feeds
//! what it observed to [`consumer_step`]. Falling behind the broadcast
//! (samples were missed) and a closed channel are never fatal: the task
//! skips and keeps waiting, so the stop-flag stays the only way out.

use vstd::prelude::*;

use crate::inmemory::Entry;
use crate::measure::Measurement;

verus! {

/// One event a consumer task can observe while it runs.
pub enum ConsumerEvent {
    /// The stop-flag transitioned to set.
    StopRequested,
    /// A new sample arrived on the broadcast.
    Sample(Measurement),
    /// The consumer fell behind and missed some samples.
    Lagged,
    /// The broadcast's sending half was dropped.
    ChannelClosed,
}

/// The two reachable states of a consumer task.
#[derive(Clone, Copy, Debug, PartialEq, Eq, Structural)]
pub enum ConsumerState {
    /// The task waits for samples or the stop-flag.
    Running,
    /// Terminal: the task has exited its loop.
    Stopped,
}

/// What a consumer task does in reaction to one event.
pub enum ConsumerAction {
    /// Leave the loop; the task terminates.
    Exit,
    /// Hand the sample to the sink (print it, cache it, post it).
    Deliver(Measurement),
    /// Skip this round and continue from the next available sample.
    Skip,
}

/// The decision a consumer task takes on one observed event: the
/// stop-flag is terminal and always stops the task; a missed-samples
/// indication or a closed channel is never fatal.
pub open spec fn spec_consumer_step(state: ConsumerState, event: ConsumerEvent) -> (
    ConsumerState,
    ConsumerAction,
) {
    match event {
        ConsumerEvent::StopRequested => (ConsumerState::Stopped, ConsumerAction::Exit),
        ConsumerEvent::Sample(m) => (ConsumerState::Running, ConsumerAction::Deliver(m)),
        ConsumerEvent::Lagged => (ConsumerState::Running, ConsumerAction::Skip),
        ConsumerEvent::ChannelClosed => (ConsumerState::Running, ConsumerAction::Skip),
    }
}

/// The decision a consumer task takes on one observed event.
pub fn consumer_step(state: ConsumerState, event: ConsumerEvent) -> (r: (
    ConsumerState,
    ConsumerAction,
))
    requires
        state is Running,
    ensures
        r == spec_consumer_step(state, event),
{
    match event {
        ConsumerEvent::StopRequested => (ConsumerState::Stopped, ConsumerAction::Exit),
        ConsumerEvent::Sample(m) => (ConsumerState::Running, ConsumerAction::Deliver(m)),
        ConsumerEvent::Lagged => (ConsumerState::Running, ConsumerAction::Skip),
        ConsumerEvent::ChannelClosed => (ConsumerState::Running, ConsumerAction::Skip),
    }
}

/// The tweet each new report replies to: the id of the last
/// successfully posted tweet, carried over unchanged when posting
/// fails.
pub open spec fn spec_next_tweet_id(last: Option<u64>, posted: Option<u64>) -> Option<u64> {
    if posted is Some {
        posted
    } else {
        last
    }
}

/// Threads the reply chain of the posting sink: each successfully
/// posted report becomes the tweet the next one replies to; a failed
/// post leaves the chain where it was.
pub fn next_tweet_id(last: Option<u64>, posted: Option<u64>) -> (r: Option<u64>)
    ensures
        r == spec_next_tweet_id(last, posted),
{
    match posted {
        Some(id) => Some(id),
        None => last,
    }
}

/// Whether a history snapshot is worth rendering: a chart needs at
/// least two data points.
pub fn should_plot(history_len: usize) -> (r: bool)
    ensures
        r == (history_len >= 2),
{
    history_len >= 2
}

/// Why no time range could be derived for a chart.
#[derive(Clone, Copy, Debug, PartialEq, Eq, Structural)]
pub enum PlotRangeError {
    /// The snapshot holds no entry at all.
    NoData,
    /// First and last entry fall on the same instant; there is no range
    /// to spread the chart over.
    SingleInstant,
}

/// The time range a chart of the snapshot spans: from the first to the
/// last timestamp. Fails without at least two distinct instants.
pub fn plot_time_range(data: &Vec<Entry>) -> (r: Result<(i64, i64), PlotRangeError>)
    ensures
        data@.len() == 0 ==> r == Err::<(i64, i64), PlotRangeError>(PlotRangeError::NoData),
        data@.len() > 0 && data@.first().0 == data@.last().0 ==> r == Err::<
            (i64, i64),
            PlotRangeError,
        >(PlotRangeError::SingleInstant),
        data@.len() > 0 && data@.first().0 != data@.last().0 ==> r == Ok::<
            (i64, i64),
            PlotRangeError,
        >((data@.first().0, data@.last().0)),
{
    if data.len() == 0 {
        return Err(PlotRangeError::NoData);
    }
    let first = data[0].0;
    let last = data[data.len() - 1].0;
    if first == last {
        Err(PlotRangeError::SingleInstant)
    } else {
        Ok((first, last))
    }
}

} // verus!
