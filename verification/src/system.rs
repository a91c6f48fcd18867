//! What the library asks of the host: process signals, the home directory
//! and the local time. Nothing here is proved; each contract is read off the
//! called crate.

use vstd::prelude::*;

verus! {

/// Calls `nix::sys::signal::kill` with no signal, which only checks that the
/// process can be signalled, and reports whether that check passed. The
/// answer depends on the host; nothing is claimed of it.
#[verifier::external_body]
pub(crate) fn process_exists(pid: i32) -> (alive: bool) {
    nix::sys::signal::kill(nix::unistd::Pid::from_raw(pid), None).is_ok()
}

/// Calls `nix::sys::signal::kill` with `SIGINT`, the request to stop that a
/// capture process answers by finishing its output file. Failure to deliver
/// is ignored. A process id that is not positive would address a process
/// group, the caller's own among them, and is left out.
#[verifier::external_body]
pub(crate) fn interrupt_process(pid: i32)
    requires
        pid > 0,
{
    let _ = nix::sys::signal::kill(
        nix::unistd::Pid::from_raw(pid),
        nix::sys::signal::Signal::SIGINT,
    );
}

/// Calls `dirs::home_dir` and hands the directory out as text, characters
/// that are not Unicode replaced. The answer depends on the environment;
/// nothing is claimed of it.
#[verifier::external_body]
pub(crate) fn home_directory() -> (home: Option<String>) {
    dirs::home_dir().map(|p| p.to_string_lossy().into_owned())
}

/// Calls `chrono::Local::now` and formats the moment with chrono's
/// `%Y%m%d_%H%M%S`, as in `20240131_235959`. The answer depends on the clock
/// and the time zone; nothing is claimed of it. Where the clock stands before
/// 1970 chrono panics, which no argument of the library's can prevent.
#[verifier::external_body]
pub(crate) fn local_time_stamp() -> (stamp: String) {
    chrono::Local::now().format("%Y%m%d_%H%M%S").to_string()
}

} // verus!
