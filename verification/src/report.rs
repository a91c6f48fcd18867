//! What a command's end is reported as: the lines printed for the user and
//! for the programs that read the tokens among them.

use crate::command::{push_text, texts, LOG_FILE};
use crate::controller::{Outcome, OutcomeView};
use vstd::prelude::*;
use vstd::string::*;

verus! {

/// The lines that report an outcome. A failure has none: it is the caller's
/// to report, with what the operating system said of it.
pub open spec fn report_lines(outcome: OutcomeView) -> Seq<Seq<char>> {
    match outcome {
        OutcomeView::AlreadyRunning => seq!["REC_ALREADY_RUNNING"@],
        OutcomeView::Started { output_path } => seq![
            "Recording started"@,
            "Output: "@ + output_path,
        ],
        OutcomeView::ImmediateExit => seq![
            "REC_START_ERR"@,
            "ffmpeg exited immediately"@,
            "Log: "@ + LOG_FILE@,
        ],
        OutcomeView::NotRunning => seq!["REC_NOT_RUNNING"@],
        OutcomeView::Stopped { output_path } => seq![
            "Recording stopped"@,
            "Recording saved: "@ + output_path,
        ],
        OutcomeView::StopUncertain => seq!["REC_STOP_ERR"@, "Check log: "@ + LOG_FILE@],
        OutcomeView::Failed(_) => seq![],
    }
}

/// Appends to a list the text made of `head` and `tail`.
fn push_pair(list: &mut Vec<String>, head: &str, tail: &str)
    ensures
        texts(final(list)@) == texts(old(list)@).push(head@ + tail@),
{
    let mut line: String = String::from_str(head);
    line.append(tail);
    push_text(list, line.as_str());
}

/// Writes the lines that report an outcome.
pub fn report(outcome: &Outcome) -> (lines: Vec<String>)
    ensures
        texts(lines@) == report_lines(outcome@),
{
    let mut lines: Vec<String> = Vec::new();
    assert(texts(lines@) =~= Seq::<Seq<char>>::empty());
    match outcome {
        Outcome::AlreadyRunning => {
            push_text(&mut lines, "REC_ALREADY_RUNNING");
        },
        Outcome::Started { output_path } => {
            push_text(&mut lines, "Recording started");
            push_pair(&mut lines, "Output: ", output_path.as_str());
        },
        Outcome::ImmediateExit => {
            push_text(&mut lines, "REC_START_ERR");
            push_text(&mut lines, "ffmpeg exited immediately");
            push_pair(&mut lines, "Log: ", LOG_FILE);
        },
        Outcome::NotRunning => {
            push_text(&mut lines, "REC_NOT_RUNNING");
        },
        Outcome::Stopped { output_path } => {
            push_text(&mut lines, "Recording stopped");
            push_pair(&mut lines, "Recording saved: ", output_path.as_str());
        },
        Outcome::StopUncertain => {
            push_text(&mut lines, "REC_STOP_ERR");
            push_pair(&mut lines, "Check log: ", LOG_FILE);
        },
        Outcome::Failed(_) => {},
    }
    lines
}

/// The warning printed after a listing of devices: one line where the
/// capture tool ended badly, which is no failure of the command.
pub open spec fn device_listing_warning(success: bool) -> Seq<Seq<char>> {
    if success {
        seq![]
    } else {
        seq!["ffmpeg device listing failed"@]
    }
}

/// Writes the warning that follows a listing of devices, if any.
pub fn device_listing_report(success: bool) -> (lines: Vec<String>)
    ensures
        texts(lines@) == device_listing_warning(success),
{
    let mut lines: Vec<String> = Vec::new();
    assert(texts(lines@) =~= Seq::<Seq<char>>::empty());
    if !success {
        push_text(&mut lines, "ffmpeg device listing failed");
    }
    lines
}

} // verus!
