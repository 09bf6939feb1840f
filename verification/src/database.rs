//! The history-store actor: its configuration, its construction, the
//! processing of one store request, and the decision logic of its event
//! loop.
//!
//! The store task owns the history buffer exclusively; every access is
//! mediated by its request/acknowledgement protocol. The surrounding
//! process runs the loop: it waits for either a stop signal or an
//! inbound request and feeds what it observed to [`database_step`],
//! which decides whether the task stores and acknowledges, keeps
//! waiting, or exits.

use vstd::prelude::*;

use crate::inmemory::{
    ring_push, sorted_by_timestamp, Entry, InMemory, DEFAULT_HISTORY_SIZE,
};
use crate::measure::Measurement;
use crate::text::{lower_of, lowercase, str_eq};

verus! {

/// Configuration for the history-store task.
#[derive(Clone)]
pub struct Config {
    /// Identifies the kind of the underlying store. Matched
    /// case-insensitively: `"in-memory"`, `"memory"`, `"mem"` and
    /// `"default"` select the in-memory store; `"csv"` is recognised
    /// but not implemented.
    pub kind: String,
    /// Path where the monitor's state may be stored; consumed by the
    /// chart renderer.
    pub path: String,
    /// The number of past measurements to keep; defaults to
    /// [`DEFAULT_HISTORY_SIZE`] when absent. Must be positive when
    /// given.
    pub history_size: Option<usize>,
}

impl Config {
    /// The path where the monitor's state may be stored.
    pub fn path(&self) -> (r: &str)
        ensures
            r@ == self.path@,
    {
        self.path.as_str()
    }
}

/// The kinds of store backend that the configuration can name.
#[derive(Clone, Copy, Debug, PartialEq, Eq, Structural)]
pub enum StoreKind {
    /// The in-memory ring buffer.
    InMemory,
    /// An on-disk CSV file; recognised but not implemented.
    Csv,
}

/// The store kind selected by an already-lowercased kind string, or
/// `None` when the string names no known kind.
pub open spec fn spec_store_kind(kind_lowered: Seq<char>) -> Option<StoreKind> {
    if kind_lowered == "in-memory"@ || kind_lowered == "memory"@ || kind_lowered == "mem"@
        || kind_lowered == "default"@ {
        Some(StoreKind::InMemory)
    } else if kind_lowered == "csv"@ {
        Some(StoreKind::Csv)
    } else {
        None
    }
}

/// Decides the store kind from an already-lowercased kind string.
pub fn store_kind_of_lowered(kind_lowered: &str) -> (k: Option<StoreKind>)
    ensures
        k == spec_store_kind(kind_lowered@),
{
    if str_eq(kind_lowered, "in-memory") || str_eq(kind_lowered, "memory") || str_eq(
        kind_lowered,
        "mem",
    ) || str_eq(kind_lowered, "default") {
        Some(StoreKind::InMemory)
    } else if str_eq(kind_lowered, "csv") {
        Some(StoreKind::Csv)
    } else {
        None
    }
}

/// Decides the store kind from the configured string,
/// case-insensitively.
pub fn store_kind(kind: &str) -> (k: Option<StoreKind>)
    ensures
        k == spec_store_kind(lower_of(kind@)),
{
    let lowered = lowercase(kind);
    store_kind_of_lowered(lowered.as_str())
}

/// Why constructing the history store failed.
#[derive(Clone, Copy, Debug, PartialEq, Eq, Structural)]
pub enum DatabaseError {
    /// Only the in-memory store is implemented so far.
    CsvNotImplemented,
    /// The configured store kind is not recognised.
    UnsupportedKind,
}

/// The history-store actor state: the ring buffer it exclusively owns.
pub struct Database {
    store: InMemory,
}

impl Database {
    /// Internal well-formedness of the owned store.
    pub closed spec fn wf(&self) -> bool {
        self.store.wf()
    }

    /// The stored entries in arrival order, oldest first.
    pub closed spec fn history(&self) -> Seq<Entry> {
        self.store@
    }

    /// The store's fixed capacity.
    pub closed spec fn capacity(&self) -> nat {
        self.store.cap()
    }

    /// Builds the store selected by the configuration: empty, with the
    /// configured capacity (or the default when none is given). Fails
    /// exactly when the configuration names a kind that is not the
    /// in-memory store.
    pub fn new(config: Config) -> (r: Result<Database, DatabaseError>)
        requires
            config.history_size matches Some(h) ==> h >= 1,
        ensures
            r is Ok <==> spec_store_kind(lower_of(config.kind@)) == Some(StoreKind::InMemory),
            r matches Ok(db) ==> db.wf() && db.history() == Seq::<Entry>::empty() && db.capacity()
                == (match config.history_size {
                Some(h) => h as nat,
                None => DEFAULT_HISTORY_SIZE as nat,
            }),
            r == Err::<Database, DatabaseError>(DatabaseError::CsvNotImplemented) <==> spec_store_kind(
                lower_of(config.kind@),
            ) == Some(StoreKind::Csv),
            r == Err::<Database, DatabaseError>(DatabaseError::UnsupportedKind) <==> spec_store_kind(
                lower_of(config.kind@),
            ) is None,
    {
        let history_size = match config.history_size {
            Some(h) => h,
            None => DEFAULT_HISTORY_SIZE,
        };
        match store_kind(config.kind.as_str()) {
            Some(StoreKind::InMemory) => Ok(Database { store: InMemory::new(history_size) }),
            Some(StoreKind::Csv) => Err(DatabaseError::CsvNotImplemented),
            None => Err(DatabaseError::UnsupportedKind),
        }
    }

    /// Handles one store request: assigns the acquisition timestamp at
    /// the moment of storage and applies the store operation to the
    /// history buffer. Returns the assigned timestamp; the
    /// acknowledgement sent back to the orchestrator carries no data.
    pub fn handle_request(&mut self, measurement: Measurement) -> (ts: i64)
        requires
            old(self).wf(),
        ensures
            final(self).wf(),
            final(self).capacity() == old(self).capacity(),
            final(self).history() == ring_push(
                old(self).history(),
                (ts, measurement),
                old(self).capacity(),
            ),
    {
        let ts = now_timestamp_millis();
        self.store.store(ts, measurement);
        ts
    }

    /// Returns a snapshot of the stored entries ordered by timestamp
    /// ascending.
    pub fn retrieve_history(&self) -> (r: Vec<Entry>)
        requires
            self.wf(),
        ensures
            sorted_by_timestamp(r@),
            r@.to_multiset() == self.history().to_multiset(),
            r@.len() == self.history().len(),
    {
        self.store.retrieve_history()
    }

    /// Returns the most recently stored entry, or `None` while nothing
    /// has been stored.
    pub fn retrieve_most_recent(&self) -> (r: Option<Entry>)
        requires
            self.wf(),
        ensures
            r == if self.history().len() == 0 {
                Option::<Entry>::None
            } else {
                Option::<Entry>::Some(self.history().last())
            },
    {
        self.store.retrieve_most_recent()
    }
}

/// Relies on `chrono::Local::now`: the local acquisition time, read
/// from the system clock and converted to milliseconds since the Unix
/// epoch. Nothing is promised of the value: it depends on the clock.
#[verifier::external_body]
fn now_timestamp_millis() -> i64 {
    chrono::Local::now().timestamp_millis()
}

/// One event the history-store task can observe while it runs: the
/// stop-flag transitioned, a store request arrived, or the sending half
/// of its inbound channel was dropped.
pub enum DatabaseEvent {
    /// The stop-flag transitioned to set.
    StopRequested,
    /// A new sample arrived to be stored.
    Request(Measurement),
    /// The producer dropped its end of the inbound channel.
    ProducerClosed,
}

/// The two reachable states of the history-store task.
#[derive(Clone, Copy, Debug, PartialEq, Eq, Structural)]
pub enum DatabaseState {
    /// The task waits for requests or the stop-flag.
    Running,
    /// Terminal: the task has exited its loop.
    Stopped,
}

/// What the history-store task does in reaction to one event.
pub enum DatabaseAction {
    /// Leave the loop; the task terminates.
    Exit,
    /// Store the sample (with a fresh timestamp), then acknowledge.
    StoreAndAck(Measurement),
    /// Keep waiting: a closed producer is not fatal, so that a pending
    /// stop-flag check stays reachable on the next iteration.
    KeepWaiting,
}

/// The decision the history-store task takes on one observed event:
/// the stop-flag is terminal and always stops the task; a request is
/// stored and acknowledged; a closed inbound channel is never fatal.
pub open spec fn spec_database_step(state: DatabaseState, event: DatabaseEvent) -> (
    DatabaseState,
    DatabaseAction,
) {
    match event {
        DatabaseEvent::StopRequested => (DatabaseState::Stopped, DatabaseAction::Exit),
        DatabaseEvent::Request(m) => (DatabaseState::Running, DatabaseAction::StoreAndAck(m)),
        DatabaseEvent::ProducerClosed => (DatabaseState::Running, DatabaseAction::KeepWaiting),
    }
}

/// The decision the history-store task takes on one observed event.
/// The stop-flag is terminal: observing it always stops the task. A
/// closed inbound channel never stops the task, so that the pending
/// stop-flag check stays reachable on the next loop iteration.
pub fn database_step(state: DatabaseState, event: DatabaseEvent) -> (r: (
    DatabaseState,
    DatabaseAction,
))
    requires
        state is Running,
    ensures
        r == spec_database_step(state, event),
{
    match event {
        DatabaseEvent::StopRequested => (DatabaseState::Stopped, DatabaseAction::Exit),
        DatabaseEvent::Request(m) => (DatabaseState::Running, DatabaseAction::StoreAndAck(m)),
        DatabaseEvent::ProducerClosed => (DatabaseState::Running, DatabaseAction::KeepWaiting),
    }
}

} // verus!
