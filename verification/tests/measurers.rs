//! Tests of the measurer decision logic: every failure or timeout
//! resolves to the zero-valued sample, never to an error.

use netspeedmon::measure::{
    CliRunOutcome, Measurement, PhaseOutcome, ServerOutcome, SpeedTestCli, SpeedTestR,
};

fn bits(v: f64) -> u64 {
    f64::to_bits(v)
}

fn zero() -> Measurement {
    Measurement::new(0, 0, 0)
}

#[test]
fn cli_decoded_run_yields_the_decoded_sample() {
    let m = SpeedTestCli::interpret_run(CliRunOutcome::Decoded(
        bits(0.918),
        bits(941.300376),
        bits(941.043264),
    ));
    assert_eq!(m, Measurement::new(bits(0.918), bits(941.300376), bits(941.043264)));
}

#[test]
fn cli_timeout_yields_the_zero_sample() {
    assert_eq!(SpeedTestCli::interpret_run(CliRunOutcome::TimedOut), zero());
}

#[test]
fn cli_failures_yield_the_zero_sample() {
    assert_eq!(SpeedTestCli::interpret_run(CliRunOutcome::SpawnFailed), zero());
    assert_eq!(SpeedTestCli::interpret_run(CliRunOutcome::StatusFailed), zero());
    assert_eq!(SpeedTestCli::interpret_run(CliRunOutcome::ParseFailed), zero());
}

#[test]
fn speedtestr_full_run_gathers_all_three_quantities() {
    let mut m = SpeedTestR::begin_measure();
    m.server_resolved(ServerOutcome::Found);
    m.ping_resolved(PhaseOutcome::Value(bits(12.5)));
    m.download_resolved(PhaseOutcome::Value(bits(100.0)));
    m.upload_resolved(PhaseOutcome::Value(bits(50.0)));
    assert_eq!(m.result(), Measurement::new(bits(12.5), bits(100.0), bits(50.0)));
}

#[test]
fn speedtestr_without_server_yields_the_zero_sample() {
    let mut m = SpeedTestR::begin_measure();
    m.server_resolved(ServerOutcome::TimedOut);
    assert_eq!(m.result(), zero());

    let mut m = SpeedTestR::begin_measure();
    m.server_resolved(ServerOutcome::Failed);
    assert_eq!(m.result(), zero());
}

#[test]
fn speedtestr_ping_timeout_yields_the_zero_sample() {
    let mut m = SpeedTestR::begin_measure();
    m.server_resolved(ServerOutcome::Found);
    m.ping_resolved(PhaseOutcome::TimedOut);
    assert_eq!(m.result(), zero());
}

#[test]
fn speedtestr_download_timeout_keeps_the_ping() {
    let mut m = SpeedTestR::begin_measure();
    m.server_resolved(ServerOutcome::Found);
    m.ping_resolved(PhaseOutcome::Value(bits(9.0)));
    m.download_resolved(PhaseOutcome::TimedOut);
    assert_eq!(m.result(), Measurement::new(bits(9.0), 0, 0));
}

#[test]
fn speedtestr_failed_phases_count_as_zero_and_measuring_goes_on() {
    let mut m = SpeedTestR::begin_measure();
    m.server_resolved(ServerOutcome::Found);
    m.ping_resolved(PhaseOutcome::Failed);
    m.download_resolved(PhaseOutcome::Value(bits(80.0)));
    m.upload_resolved(PhaseOutcome::Failed);
    assert_eq!(m.result(), Measurement::new(0, bits(80.0), 0));
}

#[test]
fn speedtestr_upload_timeout_keeps_ping_and_download() {
    let mut m = SpeedTestR::begin_measure();
    m.server_resolved(ServerOutcome::Found);
    m.ping_resolved(PhaseOutcome::Value(bits(9.0)));
    m.download_resolved(PhaseOutcome::Value(bits(80.0)));
    m.upload_resolved(PhaseOutcome::TimedOut);
    assert_eq!(m.result(), Measurement::new(bits(9.0), bits(80.0), 0));
}

#[test]
fn default_sample_is_the_zero_sample() {
    assert_eq!(Measurement::default(), zero());
    assert_eq!(Measurement::zero(), zero());
}
