//! The measurement data model and the decision logic of the measurers.
//!
//! A [`Measurement`] is one sample of network performance. The three
//! quantities are IEEE 754 double-precision values; the library stores
//! and distributes them as their 64-bit representations and never
//! computes with them, so the numeric work of the measurers stays with
//! the unverified adapters that produce the samples.

use vstd::prelude::*;

verus! {

/// One network-performance sample: a ping latency in milliseconds and a
/// download and an upload bandwidth in megabits per second. Each field
/// holds the 64-bit representation of the measured double-precision
/// value; a value of `0` stands for a measured zero.
#[derive(Clone, Copy, Debug, PartialEq, Eq, Structural)]
pub struct Measurement {
    pub ping_latency: u64,
    pub download_speed: u64,
    pub upload_speed: u64,
}

impl Measurement {
    /// True of the zero-valued sample that stands in for a failed or
    /// timed-out measurement.
    pub open spec fn is_zero(self) -> bool {
        self.ping_latency == 0 && self.download_speed == 0 && self.upload_speed == 0
    }

    /// The zero-valued sample. A failed measurement is reported as this
    /// ordinary value, never as an error.
    pub fn zero() -> (m: Measurement)
        ensures
            m.is_zero(),
    {
        Measurement { ping_latency: 0, download_speed: 0, upload_speed: 0 }
    }

    /// Builds a sample from the representations of its three quantities.
    pub fn new(ping_latency: u64, download_speed: u64, upload_speed: u64) -> (m: Measurement)
        ensures
            m == (Measurement { ping_latency, download_speed, upload_speed }),
    {
        Measurement { ping_latency, download_speed, upload_speed }
    }
}

impl Default for Measurement {
    /// The default sample is the zero-valued sample.
    fn default() -> (m: Measurement)
        ensures
            m.is_zero(),
    {
        Measurement { ping_latency: 0, download_speed: 0, upload_speed: 0 }
    }
}

/// The measurer that invokes the Ookla `speedtest` binary once per tick
/// and decodes its JSON output. The process invocation, the JSON
/// parsing and the numeric conversion live with the process adapter;
/// [`SpeedTestCli::interpret_run`] holds the decision of what sample
/// the run yields.
#[derive(Debug, Default)]
pub struct SpeedTestCli;

/// How one deadline-bounded run of the external speed-test binary
/// ended, as far as the sample to distribute is concerned.
pub enum CliRunOutcome {
    /// The binary did not finish before the tick's deadline.
    TimedOut,
    /// The binary could not be spawned or its output not be read.
    SpawnFailed,
    /// The binary exited unsuccessfully (it reports its own error).
    StatusFailed,
    /// The binary's output was not well-formed.
    ParseFailed,
    /// The decoded quantities: ping latency, download and upload
    /// bandwidth, each as the representation of its measured value.
    Decoded(u64, u64, u64),
}

impl SpeedTestCli {
    /// Converts one run of the external binary into the sample to
    /// distribute: the decoded quantities when the run succeeded and
    /// its output parsed, and the zero-valued sample on every failure
    /// or timeout. A failed measurement is thus indistinguishable,
    /// downstream, from a measured zero.
    pub fn interpret_run(outcome: CliRunOutcome) -> (m: Measurement)
        ensures
            outcome matches CliRunOutcome::Decoded(p, d, u) ==> m == (Measurement {
                ping_latency: p,
                download_speed: d,
                upload_speed: u,
            }),
            !(outcome is Decoded) ==> m.is_zero(),
    {
        match outcome {
            CliRunOutcome::Decoded(p, d, u) => Measurement::new(p, d, u),
            _ => Measurement::zero(),
        }
    }
}

/// The measurer backed by the `speedtestr` library: it looks up the
/// best server, then measures ping latency, download bandwidth and
/// upload bandwidth, each phase bounded by the tick's deadline. The
/// blocking calls live with the process adapter; the decision of how
/// each phase outcome shapes the sample is the [`RMeasure`] machine.
#[derive(Debug, Default)]
pub struct SpeedTestR;

/// How the server-lookup phase of a `speedtestr` measurement ended.
pub enum ServerOutcome {
    /// The lookup did not finish before the tick's deadline.
    TimedOut,
    /// The lookup finished but failed; no server to measure against.
    Failed,
    /// A server was found; measuring proceeds against it.
    Found,
}

/// How one measuring phase of a `speedtestr` measurement ended.
pub enum PhaseOutcome {
    /// The phase did not finish before the tick's deadline; nothing
    /// after it runs.
    TimedOut,
    /// The phase finished but failed; its quantity counts as zero and
    /// the next phase still runs.
    Failed,
    /// The phase produced its quantity (the representation of the
    /// measured value).
    Value(u64),
}

/// The phases of one `speedtestr` measurement, in the order they run.
#[derive(Clone, Copy, Debug, PartialEq, Eq, Structural)]
pub enum RPhase {
    /// Looking up the best server to measure against.
    FindServer,
    /// Measuring the ping latency.
    Ping,
    /// Measuring the download bandwidth.
    Download,
    /// Measuring the upload bandwidth.
    Upload,
    /// The measurement is complete; the sample can be taken.
    Done,
}

/// The progress of one `speedtestr` measurement: which phase comes
/// next, and the quantities gathered so far. Quantities start at zero
/// and a phase that fails or never runs leaves its quantity zero, so a
/// measurement cut short by the deadline still resolves to a sample.
pub struct RMeasure {
    phase: RPhase,
    ping_latency: u64,
    download_speed: u64,
    upload_speed: u64,
}

impl SpeedTestR {
    /// Starts one measurement: the server lookup comes first, and every
    /// quantity starts at zero.
    pub fn begin_measure() -> (m: RMeasure)
        ensures
            m.wf(),
            m.phase() is FindServer,
            m.sample().is_zero(),
    {
        RMeasure { phase: RPhase::FindServer, ping_latency: 0, download_speed: 0, upload_speed: 0 }
    }
}

impl RMeasure {
    /// The phase that comes next.
    pub closed spec fn phase(&self) -> RPhase {
        self.phase
    }

    /// The sample as gathered so far.
    pub closed spec fn sample(&self) -> Measurement {
        Measurement {
            ping_latency: self.ping_latency,
            download_speed: self.download_speed,
            upload_speed: self.upload_speed,
        }
    }

    /// A quantity is gathered only once its phase has run: everything
    /// from the next phase onwards is still zero.
    pub closed spec fn wf(&self) -> bool {
        &&& (self.phase is FindServer || self.phase is Ping ==> self.sample().is_zero())
        &&& (self.phase is Download ==> self.download_speed == 0 && self.upload_speed == 0)
        &&& (self.phase is Upload ==> self.upload_speed == 0)
    }

    /// The server-lookup phase resolved. Without a server (the lookup
    /// timed out or failed) the measurement is over and resolves to the
    /// zero-valued sample; otherwise the ping phase begins.
    pub fn server_resolved(&mut self, outcome: ServerOutcome)
        requires
            old(self).wf(),
            old(self).phase() is FindServer,
        ensures
            final(self).wf(),
            final(self).sample() == old(self).sample(),
            final(self).sample().is_zero(),
            outcome is Found ==> final(self).phase() is Ping,
            !(outcome is Found) ==> final(self).phase() is Done,
    {
        match outcome {
            ServerOutcome::Found => self.phase = RPhase::Ping,
            _ => self.phase = RPhase::Done,
        }
    }

    /// The ping phase resolved. A timeout ends the measurement (still
    /// the zero-valued sample: no time is left to measure bandwidth); a
    /// failure counts the latency as zero; either way short of a
    /// timeout, the download phase begins.
    pub fn ping_resolved(&mut self, outcome: PhaseOutcome)
        requires
            old(self).wf(),
            old(self).phase() is Ping,
        ensures
            final(self).wf(),
            outcome is TimedOut ==> final(self).phase() is Done && final(self).sample().is_zero(),
            outcome is Failed ==> final(self).phase() is Download && final(self).sample() == old(self).sample(),
            outcome matches PhaseOutcome::Value(v) ==> final(self).phase() is Download && final(self).sample() == (Measurement { ping_latency: v, ..old(self).sample() }),
    {
        match outcome {
            PhaseOutcome::TimedOut => self.phase = RPhase::Done,
            PhaseOutcome::Failed => self.phase = RPhase::Download,
            PhaseOutcome::Value(v) => {
                self.ping_latency = v;
                self.phase = RPhase::Download;
            },
        }
    }

    /// The download phase resolved. A timeout ends the measurement with
    /// what is gathered so far (no time is left to measure the upload);
    /// a failure counts the bandwidth as zero; either way short of a
    /// timeout, the upload phase begins.
    pub fn download_resolved(&mut self, outcome: PhaseOutcome)
        requires
            old(self).wf(),
            old(self).phase() is Download,
        ensures
            final(self).wf(),
            outcome is TimedOut ==> final(self).phase() is Done && final(self).sample() == old(self).sample(),
            outcome is Failed ==> final(self).phase() is Upload && final(self).sample() == old(self).sample(),
            outcome matches PhaseOutcome::Value(v) ==> final(self).phase() is Upload && final(self).sample() == (Measurement { download_speed: v, ..old(self).sample() }),
    {
        match outcome {
            PhaseOutcome::TimedOut => self.phase = RPhase::Done,
            PhaseOutcome::Failed => self.phase = RPhase::Upload,
            PhaseOutcome::Value(v) => {
                self.download_speed = v;
                self.phase = RPhase::Upload;
            },
        }
    }

    /// The upload phase resolved; the measurement is complete. A
    /// timeout or failure counts the bandwidth as zero.
    pub fn upload_resolved(&mut self, outcome: PhaseOutcome)
        requires
            old(self).wf(),
            old(self).phase() is Upload,
        ensures
            final(self).wf(),
            final(self).phase() is Done,
            !(outcome is Value) ==> final(self).sample() == old(self).sample(),
            outcome matches PhaseOutcome::Value(v) ==> final(self).sample() == (Measurement {
                upload_speed: v,
                ..old(self).sample()
            }),
    {
        if let PhaseOutcome::Value(v) = outcome {
            self.upload_speed = v;
        }
        self.phase = RPhase::Done;
    }

    /// The sample a completed measurement resolves to.
    pub fn result(&self) -> (m: Measurement)
        requires
            self.phase() is Done,
        ensures
            m == self.sample(),
    {
        Measurement {
            ping_latency: self.ping_latency,
            download_speed: self.download_speed,
            upload_speed: self.upload_speed,
        }
    }
}

} // verus!
