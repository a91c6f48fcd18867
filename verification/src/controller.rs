//! The session controller: `start` and `stop` as a machine that names the
//! next action and takes its answer as the next event.
//!
//! The caller performs what the machine cannot do itself, that is reading
//! and writing the persisted records, running the capture tool and its
//! probe, and sleeping. The machine asks the host for the rest.

use crate::command::{
    capture_command, capture_input, capture_input_text, capture_invocation, crop_filter,
    crop_filter_text, default_output_dir, default_output_dir_text, next_output_file,
    output_file_text, probe_command, probe_invocation, push_text, texts, Invocation,
    InvocationView,
};
use crate::geometry::{
    get_screen_size, probed_size, resolve, resolved_crop, CaptureRectangle, CropRequest,
};
use crate::text::{append_decimal, decimal_text};
use crate::session::{Session, SessionView};
use crate::system::{home_directory, interrupt_process, local_time_stamp, process_exists};
use vstd::prelude::*;
use vstd::string::*;

verus! {

/// How long a started capture process is given to fail, in milliseconds.
pub const GRACE_MILLIS: u64 = 400;

/// The pause between two looks at a stopping process or at its output
/// file, in milliseconds.
pub const POLL_MILLIS: u64 = 100;

/// How often a stopping process is looked at before it is given up.
pub const EXIT_POLLS: u32 = 50;

/// How often the output file is looked at before it is given up.
pub const ARTIFACT_POLLS: u32 = 30;

/// What `start` is asked for.
#[derive(Clone, Debug, PartialEq, Eq)]
pub struct StartRequest {
    pub output_dir: Option<String>,
    pub crop: Option<CropRequest>,
}

/// A start request as plain values.
pub struct StartRequestView {
    pub output_dir: Option<Seq<char>>,
    pub crop: Option<CropRequest>,
}

impl View for StartRequest {
    type V = StartRequestView;

    open spec fn view(&self) -> StartRequestView {
        StartRequestView {
            output_dir: match self.output_dir {
                Some(dir) => Some(dir@),
                None => None,
            },
            crop: self.crop,
        }
    }
}

/// Why a command ended without doing its work.
#[derive(Clone, Copy, Debug, PartialEq, Eq, Structural)]
pub enum Failure {
    /// The output directory could not be made.
    OutputDirectory,
    /// The output path could not be persisted.
    OutputPathRecord,
    /// The capture process could not be started.
    Launch,
    /// The process id could not be persisted.
    ProcessIdRecord,
    /// An event arrived that answers no action the machine had named.
    Unexpected,
}

/// How a command ended.
#[derive(Clone, Debug, PartialEq, Eq)]
pub enum Outcome {
    AlreadyRunning,
    Started { output_path: String },
    ImmediateExit,
    NotRunning,
    Stopped { output_path: String },
    StopUncertain,
    Failed(Failure),
}

/// An outcome as plain values.
pub enum OutcomeView {
    AlreadyRunning,
    Started { output_path: Seq<char> },
    ImmediateExit,
    NotRunning,
    Stopped { output_path: Seq<char> },
    StopUncertain,
    Failed(Failure),
}

impl View for Outcome {
    type V = OutcomeView;

    open spec fn view(&self) -> OutcomeView {
        match self {
            Outcome::AlreadyRunning => OutcomeView::AlreadyRunning,
            Outcome::Started { output_path } => OutcomeView::Started { output_path: output_path@ },
            Outcome::ImmediateExit => OutcomeView::ImmediateExit,
            Outcome::NotRunning => OutcomeView::NotRunning,
            Outcome::Stopped { output_path } => OutcomeView::Stopped { output_path: output_path@ },
            Outcome::StopUncertain => OutcomeView::StopUncertain,
            Outcome::Failed(failure) => OutcomeView::Failed(*failure),
        }
    }
}

/// What is to be done next. The first ten are for the caller; the machine
/// puts the last four to the host itself.
#[derive(Clone, Debug, PartialEq, Eq)]
pub enum Action {
    /// Read the persisted session; answered by `Loaded`.
    LoadSession,
    /// Remove both persisted records; answered by `Done`, or by `Failed`,
    /// which changes nothing.
    ClearSession,
    /// Make the directory and what is missing above it; answered by `Done`
    /// or `Failed`.
    EnsureDirectory(String),
    /// Run the probe and collect what it prints; answered by `Probed`.
    ProbeSource(Invocation),
    /// Persist the output path; answered by `Done` or `Failed`.
    SaveOutputPath(String),
    /// Start the capture process apart from the terminal, its diagnostics
    /// appended to the log; answered by `Launched` or `Failed`.
    Launch(Invocation),
    /// Persist the process id; answered by `Done` or `Failed`.
    SavePid(i32),
    /// Sleep for so many milliseconds; answered by `Done`.
    Sleep(u64),
    /// Look whether the file exists and is not empty; answered by
    /// `Artifact`.
    CheckArtifact(String),
    /// The command has ended.
    Finish(Outcome),
    /// Ask whether the process is alive; answered by `Alive`.
    ProbeProcess(i32),
    /// Ask the process to stop and finish its output; answered by `Done`.
    SignalProcess(i32),
    /// Ask for the home directory; answered by `Home`.
    AskHome,
    /// Ask for the local time as a stamp; answered by `Stamp`.
    AskStamp,
}

/// An action as plain values.
pub enum ActionView {
    LoadSession,
    ClearSession,
    EnsureDirectory(Seq<char>),
    ProbeSource(InvocationView),
    SaveOutputPath(Seq<char>),
    Launch(InvocationView),
    SavePid(i32),
    Sleep(u64),
    CheckArtifact(Seq<char>),
    Finish(OutcomeView),
    ProbeProcess(i32),
    SignalProcess(i32),
    AskHome,
    AskStamp,
}

impl View for Action {
    type V = ActionView;

    open spec fn view(&self) -> ActionView {
        match self {
            Action::LoadSession => ActionView::LoadSession,
            Action::ClearSession => ActionView::ClearSession,
            Action::EnsureDirectory(dir) => ActionView::EnsureDirectory(dir@),
            Action::ProbeSource(command) => ActionView::ProbeSource(command@),
            Action::SaveOutputPath(path) => ActionView::SaveOutputPath(path@),
            Action::Launch(command) => ActionView::Launch(command@),
            Action::SavePid(pid) => ActionView::SavePid(*pid),
            Action::Sleep(millis) => ActionView::Sleep(*millis),
            Action::CheckArtifact(path) => ActionView::CheckArtifact(path@),
            Action::Finish(outcome) => ActionView::Finish(outcome@),
            Action::ProbeProcess(pid) => ActionView::ProbeProcess(*pid),
            Action::SignalProcess(pid) => ActionView::SignalProcess(*pid),
            Action::AskHome => ActionView::AskHome,
            Action::AskStamp => ActionView::AskStamp,
        }
    }
}

impl ActionView {
    /// The action is one that the caller performs, or the end.
    pub open spec fn for_caller(self) -> bool {
        !(self is ProbeProcess || self is SignalProcess || self is AskHome || self is AskStamp)
    }
}

/// The answer to an action.
#[derive(Clone, Debug, PartialEq, Eq)]
pub enum Event {
    /// The persisted session as it was read.
    Loaded(Session),
    /// The action was performed.
    Done,
    /// The action could not be performed.
    Failed,
    /// Whether the process is alive.
    Alive(bool),
    /// The home directory, where the host names one.
    Home(Option<String>),
    /// The local time as a stamp.
    Stamp(String),
    /// Whether the probe ran and ended well, and what it printed.
    Probed { success: bool, output: String },
    /// The id of the capture process that was started.
    Launched(u32),
    /// Whether the output file exists and is not empty.
    Artifact(bool),
}

/// An event as plain values.
pub enum EventView {
    Loaded(SessionView),
    Done,
    Failed,
    Alive(bool),
    Home(Option<Seq<char>>),
    Stamp(Seq<char>),
    Probed { success: bool, output: Seq<char> },
    Launched(u32),
    Artifact(bool),
}

impl View for Event {
    type V = EventView;

    open spec fn view(&self) -> EventView {
        match self {
            Event::Loaded(session) => EventView::Loaded(session@),
            Event::Done => EventView::Done,
            Event::Failed => EventView::Failed,
            Event::Alive(alive) => EventView::Alive(*alive),
            Event::Home(home) => EventView::Home(
                match home {
                    Some(h) => Some(h@),
                    None => None,
                },
            ),
            Event::Stamp(stamp) => EventView::Stamp(stamp@),
            Event::Probed { success, output } => EventView::Probed {
                success: *success,
                output: output@,
            },
            Event::Launched(id) => EventView::Launched(*id),
            Event::Artifact(ready) => EventView::Artifact(*ready),
        }
    }
}

/// Where a command stands: what it waits for and what it has to remember.
#[allow(inconsistent_fields)]
#[derive(Clone, Debug, PartialEq, Eq)]
pub enum Phase {
    /// `start` waits for the persisted session.
    StartLoading { request: StartRequest },
    /// `start` waits to hear whether the persisted process is alive.
    StartProbing { request: StartRequest },
    /// `start` waits for a stale session to be cleared.
    StartRepairing { request: StartRequest },
    /// `start` waits for the home directory.
    StartHome { crop: Option<CropRequest> },
    /// `start` waits for the time stamp.
    StartStamp { dir: String, crop: Option<CropRequest> },
    /// `start` waits for the output directory to be made.
    StartDirectory { path: String, crop: Option<CropRequest> },
    /// `start` waits for the probe of the source's size.
    StartSizing { path: String, request: CropRequest },
    /// `start` waits for the output path to be persisted.
    StartRecordingPath { path: String, crop: Option<CaptureRectangle> },
    /// `start` waits for the capture process to be started.
    StartLaunching { path: String },
    /// `start` waits while the capture process may fail.
    StartGrace { path: String, pid: i32 },
    /// `start` waits to hear whether the capture process survived.
    StartConfirming { path: String, pid: i32 },
    /// `start` waits for the process id to be persisted.
    StartRecordingPid { path: String },
    /// `start` waits for the session of a failed launch to be cleared.
    StartAborting,
    /// `stop` waits for the persisted session.
    StopLoading,
    /// `stop` waits for the request to stop to be sent.
    StopSignalling { pid: i32, path: String },
    /// `stop` waits to hear whether the process is still alive.
    StopProbing { pid: i32, path: String, remaining: u32 },
    /// `stop` waits between two looks at the process.
    StopWaiting { pid: i32, path: String, remaining: u32 },
    /// `stop` waits for the session to be cleared.
    StopClearing { path: String },
    /// `stop` waits to hear whether the output file is there.
    StopChecking { path: String, remaining: u32 },
    /// `stop` waits between two looks at the output file.
    StopSettling { path: String, remaining: u32 },
    /// The command has ended.
    Finished,
}

/// A phase as plain values.
#[allow(inconsistent_fields)]
pub enum PhaseView {
    StartLoading { request: StartRequestView },
    StartProbing { request: StartRequestView },
    StartRepairing { request: StartRequestView },
    StartHome { crop: Option<CropRequest> },
    StartStamp { dir: Seq<char>, crop: Option<CropRequest> },
    StartDirectory { path: Seq<char>, crop: Option<CropRequest> },
    StartSizing { path: Seq<char>, request: CropRequest },
    StartRecordingPath { path: Seq<char>, crop: Option<CaptureRectangle> },
    StartLaunching { path: Seq<char> },
    StartGrace { path: Seq<char>, pid: i32 },
    StartConfirming { path: Seq<char>, pid: i32 },
    StartRecordingPid { path: Seq<char> },
    StartAborting,
    StopLoading,
    StopSignalling { pid: i32, path: Seq<char> },
    StopProbing { pid: i32, path: Seq<char>, remaining: u32 },
    StopWaiting { pid: i32, path: Seq<char>, remaining: u32 },
    StopClearing { path: Seq<char> },
    StopChecking { path: Seq<char>, remaining: u32 },
    StopSettling { path: Seq<char>, remaining: u32 },
    Finished,
}

impl View for Phase {
    type V = PhaseView;

    open spec fn view(&self) -> PhaseView {
        match self {
            Phase::StartLoading { request } => PhaseView::StartLoading { request: request@ },
            Phase::StartProbing { request } => PhaseView::StartProbing { request: request@ },
            Phase::StartRepairing { request } => PhaseView::StartRepairing { request: request@ },
            Phase::StartHome { crop } => PhaseView::StartHome { crop: *crop },
            Phase::StartStamp { dir, crop } => PhaseView::StartStamp { dir: dir@, crop: *crop },
            Phase::StartDirectory { path, crop } => PhaseView::StartDirectory {
                path: path@,
                crop: *crop,
            },
            Phase::StartSizing { path, request } => PhaseView::StartSizing {
                path: path@,
                request: *request,
            },
            Phase::StartRecordingPath { path, crop } => PhaseView::StartRecordingPath {
                path: path@,
                crop: *crop,
            },
            Phase::StartLaunching { path } => PhaseView::StartLaunching { path: path@ },
            Phase::StartGrace { path, pid } => PhaseView::StartGrace { path: path@, pid: *pid },
            Phase::StartConfirming { path, pid } => PhaseView::StartConfirming {
                path: path@,
                pid: *pid,
            },
            Phase::StartRecordingPid { path } => PhaseView::StartRecordingPid { path: path@ },
            Phase::StartAborting => PhaseView::StartAborting,
            Phase::StopLoading => PhaseView::StopLoading,
            Phase::StopSignalling { pid, path } => PhaseView::StopSignalling {
                pid: *pid,
                path: path@,
            },
            Phase::StopProbing { pid, path, remaining } => PhaseView::StopProbing {
                pid: *pid,
                path: path@,
                remaining: *remaining,
            },
            Phase::StopWaiting { pid, path, remaining } => PhaseView::StopWaiting {
                pid: *pid,
                path: path@,
                remaining: *remaining,
            },
            Phase::StopClearing { path } => PhaseView::StopClearing { path: path@ },
            Phase::StopChecking { path, remaining } => PhaseView::StopChecking {
                path: path@,
                remaining: *remaining,
            },
            Phase::StopSettling { path, remaining } => PhaseView::StopSettling {
                path: path@,
                remaining: *remaining,
            },
            Phase::Finished => PhaseView::Finished,
        }
    }
}

/// One move of the machine: the phase it is in now, the lines to append to
/// the log, and the action to perform after that.
#[derive(Clone, Debug, PartialEq, Eq)]
pub struct Step {
    pub phase: Phase,
    pub log: Vec<String>,
    pub action: Action,
}

/// A step as plain values.
pub struct StepView {
    pub phase: PhaseView,
    pub log: Seq<Seq<char>>,
    pub action: ActionView,
}

impl View for Step {
    type V = StepView;

    open spec fn view(&self) -> StepView {
        StepView { phase: self.phase@, log: texts(self.log@), action: self.action@ }
    }
}

/// The source size as exec integers, where the probe states one.
pub open spec fn probed_source(success: bool, output: Seq<char>) -> Option<(i32, i32)> {
    match probed_size(success, output) {
        Some((w, h)) => Some((w as i32, h as i32)),
        None => None,
    }
}

/// The lines logged when a recording is about to begin.
pub open spec fn start_notes(path: Seq<char>) -> Seq<Seq<char>> {
    seq!["===== START ====="@, "Input: "@ + capture_input_text(), "Output: "@ + path]
}

/// The line that states the source's size beside the crop asked for.
pub open spec fn size_note(request: CropRequest, width: i32, height: i32) -> Seq<char> {
    "Screen size: "@ + decimal_text(width as int) + "x"@ + decimal_text(height as int)
        + " (requested crop: "@ + decimal_text(request.width as int) + "x"@ + decimal_text(
        request.height as int,
    ) + " at "@ + decimal_text(request.x as int) + ","@ + decimal_text(request.y as int) + ")"@
}

/// The lines logged when a crop request has been resolved: why there is no
/// crop, where there is none.
pub open spec fn sizing_notes(request: CropRequest, source: Option<(i32, i32)>) -> Seq<Seq<char>> {
    match source {
        Some((width, height)) => if resolved_crop(request, source) is Some {
            seq![size_note(request, width, height)]
        } else {
            seq![
                size_note(request, width, height),
                "Crop invalid after clamping; skipping crop."@,
            ]
        },
        None => seq!["Failed to get screen size; skipping crop."@],
    }
}

/// The line logged for the crop filter, where there is a crop.
pub open spec fn filter_notes(crop: Option<CaptureRectangle>) -> Seq<Seq<char>> {
    match crop {
        Some(c) => seq!["Crop filter: "@ + crop_filter_text(c)],
        None => seq![],
    }
}

/// The lines logged when a stop begins.
pub open spec fn stop_notes() -> Seq<Seq<char>> {
    seq!["===== STOP ====="@]
}

/// A step that logs nothing.
pub open spec fn quiet(phase: PhaseView, action: ActionView) -> StepView {
    StepView { phase, log: seq![], action }
}

/// The step that ends a command.
pub open spec fn finish(outcome: OutcomeView) -> StepView {
    quiet(PhaseView::Finished, ActionView::Finish(outcome))
}

/// The step taken on an event that answers nothing the phase waits for.
pub open spec fn unexpected() -> StepView {
    finish(OutcomeView::Failed(Failure::Unexpected))
}

/// The first step of `start`.
pub open spec fn start_step(request: StartRequestView) -> StepView {
    quiet(PhaseView::StartLoading { request }, ActionView::LoadSession)
}

/// The first step of `stop`.
pub open spec fn stop_step() -> StepView {
    quiet(PhaseView::StopLoading, ActionView::LoadSession)
}

/// How `start` goes on once no live session stands in its way: with the
/// directory asked for, or by asking for the home directory.
pub open spec fn plan_output(request: StartRequestView) -> StepView {
    match request.output_dir {
        Some(dir) => quiet(PhaseView::StartStamp { dir, crop: request.crop }, ActionView::AskStamp),
        None => quiet(PhaseView::StartHome { crop: request.crop }, ActionView::AskHome),
    }
}

/// The machine: the step that follows from a phase and the event that
/// answers its action.
pub open spec fn next(phase: PhaseView, event: EventView) -> StepView {
    match phase {
        PhaseView::StartLoading { request } => match event {
            EventView::Loaded(session) => match session.process() {
                Some(pid) => quiet(
                    PhaseView::StartProbing { request },
                    ActionView::ProbeProcess(pid),
                ),
                None => plan_output(request),
            },
            _ => unexpected(),
        },
        PhaseView::StartProbing { request } => match event {
            EventView::Alive(true) => finish(OutcomeView::AlreadyRunning),
            EventView::Alive(false) => quiet(
                PhaseView::StartRepairing { request },
                ActionView::ClearSession,
            ),
            _ => unexpected(),
        },
        PhaseView::StartRepairing { request } => match event {
            EventView::Done => plan_output(request),
            EventView::Failed => plan_output(request),
            _ => unexpected(),
        },
        PhaseView::StartHome { crop } => match event {
            EventView::Home(home) => quiet(
                PhaseView::StartStamp { dir: default_output_dir_text(home), crop },
                ActionView::AskStamp,
            ),
            _ => unexpected(),
        },
        PhaseView::StartStamp { dir, crop } => match event {
            EventView::Stamp(stamp) => quiet(
                PhaseView::StartDirectory { path: output_file_text(dir, stamp), crop },
                ActionView::EnsureDirectory(dir),
            ),
            _ => unexpected(),
        },
        PhaseView::StartDirectory { path, crop } => match event {
            EventView::Done => match crop {
                Some(request) => StepView {
                    phase: PhaseView::StartSizing { path, request },
                    log: start_notes(path),
                    action: ActionView::ProbeSource(probe_invocation(capture_input_text())),
                },
                None => StepView {
                    phase: PhaseView::StartRecordingPath { path, crop: None },
                    log: start_notes(path),
                    action: ActionView::SaveOutputPath(path),
                },
            },
            EventView::Failed => finish(OutcomeView::Failed(Failure::OutputDirectory)),
            _ => unexpected(),
        },
        PhaseView::StartSizing { path, request } => match event {
            EventView::Probed { success, output } => StepView {
                phase: PhaseView::StartRecordingPath {
                    path,
                    crop: resolved_crop(request, probed_source(success, output)),
                },
                log: sizing_notes(request, probed_source(success, output)),
                action: ActionView::SaveOutputPath(path),
            },
            _ => unexpected(),
        },
        PhaseView::StartRecordingPath { path, crop } => match event {
            EventView::Done => StepView {
                phase: PhaseView::StartLaunching { path },
                log: filter_notes(crop),
                action: ActionView::Launch(capture_invocation(capture_input_text(), crop, path)),
            },
            EventView::Failed => finish(OutcomeView::Failed(Failure::OutputPathRecord)),
            _ => unexpected(),
        },
        PhaseView::StartLaunching { path } => match event {
            EventView::Launched(id) => if 0 < id <= i32::MAX {
                quiet(
                    PhaseView::StartGrace { path, pid: id as i32 },
                    ActionView::Sleep(GRACE_MILLIS),
                )
            } else {
                finish(OutcomeView::Failed(Failure::Launch))
            },
            EventView::Failed => finish(OutcomeView::Failed(Failure::Launch)),
            _ => unexpected(),
        },
        PhaseView::StartGrace { path, pid } => match event {
            EventView::Done => quiet(
                PhaseView::StartConfirming { path, pid },
                ActionView::ProbeProcess(pid),
            ),
            _ => unexpected(),
        },
        PhaseView::StartConfirming { path, pid } => match event {
            EventView::Alive(true) => quiet(
                PhaseView::StartRecordingPid { path },
                ActionView::SavePid(pid),
            ),
            EventView::Alive(false) => quiet(PhaseView::StartAborting, ActionView::ClearSession),
            _ => unexpected(),
        },
        PhaseView::StartRecordingPid { path } => match event {
            EventView::Done => finish(OutcomeView::Started { output_path: path }),
            EventView::Failed => finish(OutcomeView::Failed(Failure::ProcessIdRecord)),
            _ => unexpected(),
        },
        PhaseView::StartAborting => match event {
            EventView::Done => finish(OutcomeView::ImmediateExit),
            EventView::Failed => finish(OutcomeView::ImmediateExit),
            _ => unexpected(),
        },
        PhaseView::StopLoading => match event {
            EventView::Loaded(session) => match session.process() {
                Some(pid) => StepView {
                    phase: PhaseView::StopSignalling {
                        pid,
                        path: match session.output_path {
                            Some(path) => path,
                            None => Seq::empty(),
                        },
                    },
                    log: stop_notes(),
                    action: ActionView::SignalProcess(pid),
                },
                None => finish(OutcomeView::NotRunning),
            },
            _ => unexpected(),
        },
        PhaseView::StopSignalling { pid, path } => match event {
            EventView::Done => quiet(
                PhaseView::StopProbing { pid, path, remaining: EXIT_POLLS },
                ActionView::ProbeProcess(pid),
            ),
            _ => unexpected(),
        },
        PhaseView::StopProbing { pid, path, remaining } => match event {
            EventView::Alive(alive) => if alive && remaining > 0 {
                quiet(
                    PhaseView::StopWaiting { pid, path, remaining: (remaining - 1) as u32 },
                    ActionView::Sleep(POLL_MILLIS),
                )
            } else {
                quiet(PhaseView::StopClearing { path }, ActionView::ClearSession)
            },
            _ => unexpected(),
        },
        PhaseView::StopWaiting { pid, path, remaining } => match event {
            EventView::Done => if remaining > 0 {
                quiet(
                    PhaseView::StopProbing { pid, path, remaining },
                    ActionView::ProbeProcess(pid),
                )
            } else {
                quiet(PhaseView::StopClearing { path }, ActionView::ClearSession)
            },
            _ => unexpected(),
        },
        PhaseView::StopClearing { path } => match event {
            EventView::Done => quiet(
                PhaseView::StopChecking { path, remaining: ARTIFACT_POLLS },
                ActionView::CheckArtifact(path),
            ),
            EventView::Failed => quiet(
                PhaseView::StopChecking { path, remaining: ARTIFACT_POLLS },
                ActionView::CheckArtifact(path),
            ),
            _ => unexpected(),
        },
        PhaseView::StopChecking { path, remaining } => match event {
            EventView::Artifact(ready) => if ready {
                finish(OutcomeView::Stopped { output_path: path })
            } else if remaining > 0 {
                quiet(
                    PhaseView::StopSettling { path, remaining: (remaining - 1) as u32 },
                    ActionView::Sleep(POLL_MILLIS),
                )
            } else {
                finish(OutcomeView::StopUncertain)
            },
            _ => unexpected(),
        },
        PhaseView::StopSettling { path, remaining } => match event {
            EventView::Done => if remaining > 0 {
                quiet(
                    PhaseView::StopChecking { path, remaining },
                    ActionView::CheckArtifact(path),
                )
            } else {
                finish(OutcomeView::StopUncertain)
            },
            _ => unexpected(),
        },
        PhaseView::Finished => unexpected(),
    }
}

/// A text made of two parts.
fn text_of(head: &str, tail: &str) -> (text: String)
    ensures
        text@ == head@ + tail@,
{
    let mut text: String = String::from_str(head);
    text.append(tail);
    text
}

/// Builds the lines logged when a recording is about to begin.
fn start_log(path: &str) -> (log: Vec<String>)
    ensures
        texts(log@) == start_notes(path@),
{
    let input: String = capture_input();
    let mut log: Vec<String> = Vec::new();
    assert(texts(log@) =~= Seq::<Seq<char>>::empty());
    push_text(&mut log, "===== START =====");
    push_text(&mut log, text_of("Input: ", input.as_str()).as_str());
    push_text(&mut log, text_of("Output: ", path).as_str());
    log
}

/// Builds the line that states the source's size beside the crop asked for.
fn size_line(request: CropRequest, width: i32, height: i32) -> (line: String)
    ensures
        line@ == size_note(request, width, height),
{
    let mut line: String = String::from_str("Screen size: ");
    append_decimal(&mut line, width);
    line.append("x");
    append_decimal(&mut line, height);
    line.append(" (requested crop: ");
    append_decimal(&mut line, request.width);
    line.append("x");
    append_decimal(&mut line, request.height);
    line.append(" at ");
    append_decimal(&mut line, request.x);
    line.append(",");
    append_decimal(&mut line, request.y);
    line.append(")");
    line
}

/// Builds the lines logged when a crop request has been resolved to `crop`.
fn sizing_log(request: CropRequest, source: Option<(i32, i32)>, crop: &Option<CaptureRectangle>) -> (log:
    Vec<String>)
    requires
        *crop == resolved_crop(request, source),
    ensures
        texts(log@) == sizing_notes(request, source),
{
    let mut log: Vec<String> = Vec::new();
    assert(texts(log@) =~= Seq::<Seq<char>>::empty());
    match source {
        Some((width, height)) => {
            push_text(&mut log, size_line(request, width, height).as_str());
            if crop.is_none() {
                push_text(&mut log, "Crop invalid after clamping; skipping crop.");
            }
        },
        None => {
            push_text(&mut log, "Failed to get screen size; skipping crop.");
        },
    }
    log
}

/// Builds the line logged for the crop filter, where there is a crop.
fn filter_log(crop: Option<CaptureRectangle>) -> (log: Vec<String>)
    ensures
        texts(log@) == filter_notes(crop),
{
    let mut log: Vec<String> = Vec::new();
    assert(texts(log@) =~= Seq::<Seq<char>>::empty());
    match crop {
        Some(c) => {
            let filter: String = crop_filter(c);
            push_text(&mut log, text_of("Crop filter: ", filter.as_str()).as_str());
        },
        None => {},
    }
    log
}

/// A step that logs nothing.
fn quiet_step(phase: Phase, action: Action) -> (step: Step)
    ensures
        step@ == quiet(phase@, action@),
{
    let log: Vec<String> = Vec::new();
    assert(texts(log@) =~= Seq::<Seq<char>>::empty());
    Step { phase, log, action }
}

/// The step that ends a command.
fn finish_step(outcome: Outcome) -> (step: Step)
    ensures
        step@ == finish(outcome@),
{
    quiet_step(Phase::Finished, Action::Finish(outcome))
}

/// The step taken on an event that answers nothing the phase waits for.
fn unexpected_step() -> (step: Step)
    ensures
        step@ == unexpected(),
{
    finish_step(Outcome::Failed(Failure::Unexpected))
}

/// Goes on with `start` once no live session stands in its way.
fn plan_output_step(request: StartRequest) -> (step: Step)
    ensures
        step@ == plan_output(request@),
{
    let crop: Option<CropRequest> = request.crop;
    match request.output_dir {
        Some(dir) => quiet_step(Phase::StartStamp { dir, crop }, Action::AskStamp),
        None => quiet_step(Phase::StartHome { crop }, Action::AskHome),
    }
}

/// Begins a `start`: the first action is to read the persisted session.
pub fn start(request: StartRequest) -> (step: Step)
    ensures
        step@ == start_step(request@),
{
    quiet_step(Phase::StartLoading { request }, Action::LoadSession)
}

/// Begins a `stop`: the first action is to read the persisted session.
pub fn stop() -> (step: Step)
    ensures
        step@ == stop_step(),
{
    quiet_step(Phase::StopLoading, Action::LoadSession)
}

/// Takes one step of the machine: from the phase and the event that answers
/// its action to the next phase, the lines to log and the next action.
pub fn step(phase: Phase, event: Event) -> (taken: Step)
    ensures
        taken@ == next(phase@, event@),
{
    match phase {
        Phase::StartLoading { request } => match event {
            Event::Loaded(session) => match session.process() {
                Some(pid) => quiet_step(Phase::StartProbing { request }, Action::ProbeProcess(pid)),
                None => plan_output_step(request),
            },
            _ => unexpected_step(),
        },
        Phase::StartProbing { request } => match event {
            Event::Alive(alive) => if alive {
                finish_step(Outcome::AlreadyRunning)
            } else {
                quiet_step(Phase::StartRepairing { request }, Action::ClearSession)
            },
            _ => unexpected_step(),
        },
        Phase::StartRepairing { request } => match event {
            Event::Done => plan_output_step(request),
            Event::Failed => plan_output_step(request),
            _ => unexpected_step(),
        },
        Phase::StartHome { crop } => match event {
            Event::Home(home) => quiet_step(
                Phase::StartStamp { dir: default_output_dir(home), crop },
                Action::AskStamp,
            ),
            _ => unexpected_step(),
        },
        Phase::StartStamp { dir, crop } => match event {
            Event::Stamp(stamp) => {
                let path: String = next_output_file(dir.as_str(), stamp.as_str());
                quiet_step(Phase::StartDirectory { path, crop }, Action::EnsureDirectory(dir))
            },
            _ => unexpected_step(),
        },
        Phase::StartDirectory { path, crop } => match event {
            Event::Done => {
                let log: Vec<String> = start_log(path.as_str());
                match crop {
                    Some(request) => {
                        let input: String = capture_input();
                        Step {
                            phase: Phase::StartSizing { path, request },
                            log,
                            action: Action::ProbeSource(probe_command(input.as_str())),
                        }
                    },
                    None => {
                        let record: String = path.clone();
                        Step {
                            phase: Phase::StartRecordingPath { path, crop: None },
                            log,
                            action: Action::SaveOutputPath(record),
                        }
                    },
                }
            },
            Event::Failed => finish_step(Outcome::Failed(Failure::OutputDirectory)),
            _ => unexpected_step(),
        },
        Phase::StartSizing { path, request } => match event {
            Event::Probed { success, output } => {
                let source: Option<(i32, i32)> = get_screen_size(success, output.as_str());
                assert(source == probed_source(success, output@));
                let resolved: Option<CaptureRectangle> = resolve(request, source);
                let log: Vec<String> = sizing_log(request, source, &resolved);
                let record: String = path.clone();
                Step {
                    phase: Phase::StartRecordingPath { path, crop: resolved },
                    log,
                    action: Action::SaveOutputPath(record),
                }
            },
            _ => unexpected_step(),
        },
        Phase::StartRecordingPath { path, crop } => match event {
            Event::Done => {
                let input: String = capture_input();
                let command: Invocation = capture_command(input.as_str(), crop, path.as_str());
                Step {
                    phase: Phase::StartLaunching { path },
                    log: filter_log(crop),
                    action: Action::Launch(command),
                }
            },
            Event::Failed => finish_step(Outcome::Failed(Failure::OutputPathRecord)),
            _ => unexpected_step(),
        },
        Phase::StartLaunching { path } => match event {
            Event::Launched(id) => if 0 < id && id <= 0x7FFF_FFFF {
                quiet_step(Phase::StartGrace { path, pid: id as i32 }, Action::Sleep(GRACE_MILLIS))
            } else {
                finish_step(Outcome::Failed(Failure::Launch))
            },
            Event::Failed => finish_step(Outcome::Failed(Failure::Launch)),
            _ => unexpected_step(),
        },
        Phase::StartGrace { path, pid } => match event {
            Event::Done => quiet_step(
                Phase::StartConfirming { path, pid },
                Action::ProbeProcess(pid),
            ),
            _ => unexpected_step(),
        },
        Phase::StartConfirming { path, pid } => match event {
            Event::Alive(alive) => if alive {
                quiet_step(Phase::StartRecordingPid { path }, Action::SavePid(pid))
            } else {
                quiet_step(Phase::StartAborting, Action::ClearSession)
            },
            _ => unexpected_step(),
        },
        Phase::StartRecordingPid { path } => match event {
            Event::Done => finish_step(Outcome::Started { output_path: path }),
            Event::Failed => finish_step(Outcome::Failed(Failure::ProcessIdRecord)),
            _ => unexpected_step(),
        },
        Phase::StartAborting => match event {
            Event::Done => finish_step(Outcome::ImmediateExit),
            Event::Failed => finish_step(Outcome::ImmediateExit),
            _ => unexpected_step(),
        },
        Phase::StopLoading => match event {
            Event::Loaded(session) => match session.process() {
                Some(pid) => {
                    let path: String = match session.output_path {
                        Some(path) => path,
                        None => String::new(),
                    };
                    let mut log: Vec<String> = Vec::new();
                    assert(texts(log@) =~= Seq::<Seq<char>>::empty());
                    push_text(&mut log, "===== STOP =====");
                    Step {
                        phase: Phase::StopSignalling { pid, path },
                        log,
                        action: Action::SignalProcess(pid),
                    }
                },
                None => finish_step(Outcome::NotRunning),
            },
            _ => unexpected_step(),
        },
        Phase::StopSignalling { pid, path } => match event {
            Event::Done => quiet_step(
                Phase::StopProbing { pid, path, remaining: EXIT_POLLS },
                Action::ProbeProcess(pid),
            ),
            _ => unexpected_step(),
        },
        Phase::StopProbing { pid, path, remaining } => match event {
            Event::Alive(alive) => if alive && remaining > 0 {
                quiet_step(
                    Phase::StopWaiting { pid, path, remaining: remaining - 1 },
                    Action::Sleep(POLL_MILLIS),
                )
            } else {
                quiet_step(Phase::StopClearing { path }, Action::ClearSession)
            },
            _ => unexpected_step(),
        },
        Phase::StopWaiting { pid, path, remaining } => match event {
            Event::Done => if remaining > 0 {
                quiet_step(Phase::StopProbing { pid, path, remaining }, Action::ProbeProcess(pid))
            } else {
                quiet_step(Phase::StopClearing { path }, Action::ClearSession)
            },
            _ => unexpected_step(),
        },
        Phase::StopClearing { path } => match event {
            Event::Done => {
                let file: String = path.clone();
                quiet_step(
                    Phase::StopChecking { path, remaining: ARTIFACT_POLLS },
                    Action::CheckArtifact(file),
                )
            },
            Event::Failed => {
                let file: String = path.clone();
                quiet_step(
                    Phase::StopChecking { path, remaining: ARTIFACT_POLLS },
                    Action::CheckArtifact(file),
                )
            },
            _ => unexpected_step(),
        },
        Phase::StopChecking { path, remaining } => match event {
            Event::Artifact(ready) => if ready {
                finish_step(Outcome::Stopped { output_path: path })
            } else if remaining > 0 {
                quiet_step(
                    Phase::StopSettling { path, remaining: remaining - 1 },
                    Action::Sleep(POLL_MILLIS),
                )
            } else {
                finish_step(Outcome::StopUncertain)
            },
            _ => unexpected_step(),
        },
        Phase::StopSettling { path, remaining } => match event {
            Event::Done => if remaining > 0 {
                let file: String = path.clone();
                quiet_step(Phase::StopChecking { path, remaining }, Action::CheckArtifact(file))
            } else {
                finish_step(Outcome::StopUncertain)
            },
            _ => unexpected_step(),
        },
        Phase::Finished => unexpected_step(),
    }
}

/// The event is of the kind that answers an action put to the host.
pub open spec fn answers(action: ActionView, event: EventView) -> bool {
    match action {
        ActionView::ProbeProcess(_) => event is Alive,
        ActionView::SignalProcess(_) => event is Done,
        ActionView::AskHome => event is Home,
        ActionView::AskStamp => event is Stamp,
        _ => false,
    }
}

/// How many more actions in a row a phase can put to the host.
pub open spec fn host_turns(phase: PhaseView) -> nat {
    match phase {
        PhaseView::StartLoading { .. } => 2,
        PhaseView::StartRepairing { .. } => 2,
        PhaseView::StopLoading => 2,
        PhaseView::StartHome { .. } => 1,
        PhaseView::StartGrace { .. } => 1,
        PhaseView::StopSignalling { .. } => 1,
        PhaseView::StopWaiting { .. } => 1,
        _ => 0,
    }
}

/// What is left of a step before the caller has to act: nothing where its
/// action is the caller's.
pub open spec fn host_work(step: StepView) -> nat {
    if step.action.for_caller() {
        0
    } else {
        host_turns(step.phase) + 1
    }
}

/// The step that follows `step` when the host answers its action with
/// `answer`; the lines to log add up.
pub open spec fn follow(step: StepView, answer: EventView) -> StepView {
    let taken = next(step.phase, answer);
    StepView { phase: taken.phase, log: step.log + taken.log, action: taken.action }
}

/// A step that puts an action to the host leads to one with fewer such
/// actions ahead, so the host is asked only a bounded number of times before
/// the caller's turn.
pub proof fn lemma_host_work_decreases(step: StepView, answer: EventView)
    requires
        !step.action.for_caller(),
    ensures
        host_work(follow(step, answer)) < host_work(step),
{
}

/// `end` is a step that `step` can settle into: `step` itself where its
/// action is the caller's, and else a step that one of the host's possible
/// answers leads to.
pub open spec fn settles(step: StepView, end: StepView) -> bool
    decreases host_work(step),
{
    if step.action.for_caller() {
        end == step
    } else {
        exists|answer: EventView| #[trigger]
            answers(step.action, answer) && settles(follow(step, answer), end)
    }
}

/// Puts an action to the host where it is one of the host's, and hands back
/// the answer.
fn perform(action: &Action) -> (answer: Option<Event>)
    ensures
        match answer {
            Some(event) => !action@.for_caller() && answers(action@, event@),
            None => action@.for_caller(),
        },
{
    match action {
        Action::ProbeProcess(pid) => Some(Event::Alive(process_exists(*pid))),
        Action::SignalProcess(pid) => {
            if *pid > 0 {
                interrupt_process(*pid);
            }
            Some(Event::Done)
        },
        Action::AskHome => Some(Event::Home(home_directory())),
        Action::AskStamp => Some(Event::Stamp(local_time_stamp())),
        _ => None,
    }
}

/// Takes the step that `event` leads to and then every further step that
/// only the host has to answer, up to the next action for the caller. The
/// lines to log are those of all the steps taken, in order.
pub fn advance(phase: Phase, event: Event) -> (settled: Step)
    ensures
        settled@.action.for_caller(),
        settles(next(phase@, event@), settled@),
{
    let ghost first = next(phase@, event@);
    let mut current: Step = step(phase, event);
    loop
        invariant
            first == next(phase@, event@),
            forall|end: StepView| settles(current@, end) ==> settles(first, end),
        decreases host_work(current@),
    {
        let ghost before = current@;
        match perform(&current.action) {
            None => {
                assert(settles(current@, current@));
                return current;
            },
            Some(answer) => {
                let Step { phase, log, action: _ } = current;
                let Step { phase: reached, log: mut more, action } = step(phase, answer);
                let mut log: Vec<String> = log;
                let ghost head = log@;
                let ghost tail = more@;
                log.append(&mut more);
                assert(texts(log@) =~= texts(head) + texts(tail));
                current = Step { phase: reached, log, action };
                assert(current@ == follow(before, answer@));
                proof {
                    lemma_host_work_decreases(before, answer@);
                    assert forall|end: StepView| settles(current@, end) implies settles(
                        first,
                        end,
                    ) by {
                        assert(answers(before.action, answer@));
                        assert(settles(before, end));
                    }
                }
            },
        }
    }
}

} // verus!
