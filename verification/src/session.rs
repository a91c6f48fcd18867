//! The persisted session and what it amounts to once the host has said
//! whether its process lives.

use crate::system::process_exists;
use crate::text::{
    append_decimal, chars_of, decimal_text, lemma_decimal_round_trip, parse_i32, parsed_i32,
    trim_bounds, trim_text, trimmed,
};
use vstd::prelude::*;
use vstd::string::*;

verus! {

/// What is persisted between invocations: the capture process, if one was
/// started and not yet stopped, and the file it writes.
#[derive(Clone, Debug, PartialEq, Eq)]
pub struct Session {
    pub process_id: Option<i32>,
    pub output_path: Option<String>,
}

/// The session as plain values.
pub struct SessionView {
    pub process_id: Option<i32>,
    pub output_path: Option<Seq<char>>,
}

impl View for Session {
    type V = SessionView;

    open spec fn view(&self) -> SessionView {
        SessionView {
            process_id: self.process_id,
            output_path: match self.output_path {
                Some(path) => Some(path@),
                None => None,
            },
        }
    }
}

impl SessionView {
    /// The session with no record at all.
    pub open spec fn empty() -> SessionView {
        SessionView { process_id: None, output_path: None }
    }

    /// Whoever names a process names its output file too.
    pub open spec fn whole(self) -> bool {
        self.process_id is Some ==> self.output_path is Some
    }

    /// The process that the session tracks. A number that cannot name a
    /// single process, zero or below, tracks none.
    pub open spec fn process(self) -> Option<i32> {
        match self.process_id {
            Some(pid) => if pid > 0 {
                Some(pid)
            } else {
                None
            },
            None => None,
        }
    }
}

impl Session {
    /// A session with no record at all.
    pub fn empty() -> (session: Session)
        ensures
            session@ == SessionView::empty(),
    {
        Session { process_id: None, output_path: None }
    }

    /// The process that the session tracks, if any.
    pub fn process(&self) -> (pid: Option<i32>)
        ensures
            pid == self@.process(),
    {
        match self.process_id {
            Some(pid) => if pid > 0 {
                Some(pid)
            } else {
                None
            },
            None => None,
        }
    }
}

/// What a session is at the moment of asking.
#[derive(Clone, Debug, PartialEq, Eq)]
pub enum SessionState {
    Idle,
    Recording { process_id: i32, output_path: Option<String> },
}

/// A session's state as plain values.
pub enum SessionStateView {
    Idle,
    Recording { process_id: i32, output_path: Option<Seq<char>> },
}

impl View for SessionState {
    type V = SessionStateView;

    open spec fn view(&self) -> SessionStateView {
        match self {
            SessionState::Idle => SessionStateView::Idle,
            SessionState::Recording { process_id, output_path } => SessionStateView::Recording {
                process_id: *process_id,
                output_path: match output_path {
                    Some(path) => Some(path@),
                    None => None,
                },
            },
        }
    }
}

/// The state of a persisted session, given whether the process it tracks is
/// alive: recording where it tracks a live process, idle otherwise. A record
/// of a process that is gone is stale and counts as idle.
pub open spec fn reconciled(session: SessionView, alive: bool) -> SessionStateView {
    match session.process() {
        Some(pid) => if alive {
            SessionStateView::Recording { process_id: pid, output_path: session.output_path }
        } else {
            SessionStateView::Idle
        },
        None => SessionStateView::Idle,
    }
}

/// Reconciles a persisted session with the liveness of its process.
pub fn reconcile(session: &Session, alive: bool) -> (state: SessionState)
    ensures
        state@ == reconciled(session@, alive),
{
    match session.process() {
        Some(pid) => if alive {
            SessionState::Recording { process_id: pid, output_path: session.output_path.clone() }
        } else {
            SessionState::Idle
        },
        None => SessionState::Idle,
    }
}

/// Reports the state of a persisted session, asking the host whether the
/// process it names is alive. The session is only read: a stale record is
/// reported as idle and left for the next start to clear.
pub fn status(session: &Session) -> (state: SessionState)
    ensures
        state@ == reconciled(session@, true) || state@ == reconciled(session@, false),
        session@.process() is None ==> state@ == SessionStateView::Idle,
{
    match session.process() {
        Some(pid) => {
            let alive: bool = process_exists(pid);
            reconcile(session, alive)
        },
        None => SessionState::Idle,
    }
}

/// The process id that a record states: the record without the white space
/// round it, read as a 32-bit decimal number.
pub open spec fn process_id_of(record: Seq<char>) -> Option<int> {
    parsed_i32(trimmed(record))
}

/// Reads a process-id record. A record that states no number gives `None`.
pub fn parse_pid(record: &str) -> (pid: Option<i32>)
    ensures
        match pid {
            Some(p) => process_id_of(record@) == Some(p as int),
            None => process_id_of(record@) is None,
        },
{
    let chars: Vec<char> = chars_of(record);
    assert(chars@.subrange(0, chars@.len() as int) == record@);
    let (a, b) = trim_bounds(&chars, 0, chars.len());
    parse_i32(&chars, a, b)
}

/// Where the process id is persisted.
pub const PID_FILE: &'static str = "/tmp/rec.nvim.pid";

/// Where the output path is persisted.
pub const OUT_FILE: &'static str = "/tmp/rec.nvim.outpath";

/// The record that persists a process id: the number in decimal.
pub fn pid_record(pid: i32) -> (record: String)
    ensures
        record@ == decimal_text(pid as int),
{
    let mut record: String = String::new();
    append_decimal(&mut record, pid);
    assert(record@ =~= decimal_text(pid as int));
    record
}

/// A process id that is persisted is read back as it was.
pub proof fn law_pid_record_round_trip(pid: i32)
    ensures
        process_id_of(decimal_text(pid as int)) == Some(pid as int),
{
    lemma_decimal_round_trip(pid as int);
}

/// The session that two records amount to, each absent where its file is
/// missing or cannot be read: the process id that the first states, and the
/// second without the white space round it as the output path. A record
/// that states no process id counts as absent.
pub open spec fn session_of_records(
    pid_record: Option<Seq<char>>,
    path_record: Option<Seq<char>>,
) -> SessionView {
    SessionView {
        process_id: match pid_record {
            Some(record) => match process_id_of(record) {
                Some(pid) => Some(pid as i32),
                None => None,
            },
            None => None,
        },
        output_path: match path_record {
            Some(record) => Some(trimmed(record)),
            None => None,
        },
    }
}

/// Reads a session from its two records.
pub fn load_session(pid_record: Option<&str>, path_record: Option<&str>) -> (session: Session)
    ensures
        session@ == session_of_records(
            match pid_record {
                Some(record) => Some(record@),
                None => None,
            },
            match path_record {
                Some(record) => Some(record@),
                None => None,
            },
        ),
{
    let process_id: Option<i32> = match pid_record {
        Some(record) => parse_pid(record),
        None => None,
    };
    let output_path: Option<String> = match path_record {
        Some(record) => Some(trim_text(record)),
        None => None,
    };
    Session { process_id, output_path }
}

} // verus!
