use rec_cli::controller::{Failure, Outcome};
use rec_cli::report::{device_listing_report, report};

fn lines(list: &[&str]) -> Vec<String> {
    list.iter().map(|s| s.to_string()).collect()
}

#[test]
fn already_running_is_one_token() {
    assert_eq!(report(&Outcome::AlreadyRunning), lines(&["REC_ALREADY_RUNNING"]));
}

#[test]
fn a_start_reports_its_output_path() {
    let outcome = Outcome::Started { output_path: "/out/rec_20240131_235959.mp4".to_string() };
    assert_eq!(
        report(&outcome),
        lines(&["Recording started", "Output: /out/rec_20240131_235959.mp4"])
    );
}

#[test]
fn an_immediate_exit_points_at_the_log() {
    assert_eq!(
        report(&Outcome::ImmediateExit),
        lines(&["REC_START_ERR", "ffmpeg exited immediately", "Log: /tmp/rec.nvim.ffmpeg.log"])
    );
}

#[test]
fn not_running_is_one_token() {
    assert_eq!(report(&Outcome::NotRunning), lines(&["REC_NOT_RUNNING"]));
}

#[test]
fn a_stop_reports_the_saved_file() {
    let outcome = Outcome::Stopped { output_path: "/out/a b.mp4".to_string() };
    assert_eq!(report(&outcome), lines(&["Recording stopped", "Recording saved: /out/a b.mp4"]));
}

#[test]
fn a_doubtful_stop_points_at_the_log() {
    assert_eq!(
        report(&Outcome::StopUncertain),
        lines(&["REC_STOP_ERR", "Check log: /tmp/rec.nvim.ffmpeg.log"])
    );
}

#[test]
fn a_failure_is_left_to_the_caller() {
    let failures = [
        Failure::OutputDirectory,
        Failure::OutputPathRecord,
        Failure::Launch,
        Failure::ProcessIdRecord,
        Failure::Unexpected,
    ];
    for &failure in failures.iter() {
        assert_eq!(report(&Outcome::Failed(failure)), Vec::<String>::new());
    }
}

#[test]
fn a_bad_listing_is_only_a_warning() {
    assert_eq!(device_listing_report(false), lines(&["ffmpeg device listing failed"]));
    assert_eq!(device_listing_report(true), Vec::<String>::new());
}
