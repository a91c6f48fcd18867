use rec_cli::session::{
    load_session, reconcile, status, Session, SessionState, OUT_FILE, PID_FILE,
};

fn recorded(pid: i32, path: &str) -> Session {
    Session { process_id: Some(pid), output_path: Some(path.to_string()) }
}

#[test]
fn an_empty_session_has_no_record() {
    assert_eq!(Session::empty(), Session { process_id: None, output_path: None });
    assert_eq!(Session::empty().process(), None);
}

#[test]
fn a_session_names_only_single_processes() {
    assert_eq!(recorded(4242, "a").process(), Some(4242));
    assert_eq!(recorded(1, "a").process(), Some(1));
    assert_eq!(recorded(0, "a").process(), None);
    assert_eq!(recorded(-1, "a").process(), None);
    assert_eq!(recorded(i32::MIN, "a").process(), None);
}

#[test]
fn a_live_process_means_recording() {
    assert_eq!(
        reconcile(&recorded(4242, "/out/rec.mp4"), true),
        SessionState::Recording { process_id: 4242, output_path: Some("/out/rec.mp4".to_string()) }
    );
}

#[test]
fn a_stale_record_means_idle() {
    assert_eq!(reconcile(&recorded(4242, "/out/rec.mp4"), false), SessionState::Idle);
}

#[test]
fn no_process_means_idle_whatever_the_host_says() {
    let only_path = Session { process_id: None, output_path: Some("/out/rec.mp4".to_string()) };
    assert_eq!(reconcile(&only_path, true), SessionState::Idle);
    assert_eq!(reconcile(&only_path, false), SessionState::Idle);
    assert_eq!(reconcile(&Session::empty(), true), SessionState::Idle);
    assert_eq!(reconcile(&recorded(0, "x"), true), SessionState::Idle);
    assert_eq!(reconcile(&recorded(-7, "x"), true), SessionState::Idle);
}

#[test]
fn recording_without_a_path_record_has_no_path() {
    let only_pid = Session { process_id: Some(9), output_path: None };
    assert_eq!(
        reconcile(&only_pid, true),
        SessionState::Recording { process_id: 9, output_path: None }
    );
}

#[test]
fn status_of_this_very_process_is_recording() {
    let me = nix::unistd::getpid().as_raw();
    assert_eq!(
        status(&recorded(me, "/out/rec.mp4")),
        SessionState::Recording { process_id: me, output_path: Some("/out/rec.mp4".to_string()) }
    );
}

#[test]
fn status_of_a_process_that_cannot_exist_is_idle() {
    assert_eq!(status(&recorded(i32::MAX, "/out/rec.mp4")), SessionState::Idle);
}

#[test]
fn status_without_a_process_is_idle() {
    assert_eq!(status(&Session::empty()), SessionState::Idle);
    assert_eq!(status(&recorded(0, "x")), SessionState::Idle);
}

#[test]
fn status_leaves_the_session_alone() {
    let session = recorded(i32::MAX, "/out/rec.mp4");
    let before = session.clone();
    let _ = status(&session);
    assert_eq!(session, before);
}

#[test]
fn a_session_is_loaded_from_both_records() {
    assert_eq!(load_session(Some("4242\n"), Some("/out/rec.mp4\n")), recorded(4242, "/out/rec.mp4"));
}

#[test]
fn missing_records_load_as_absent() {
    assert_eq!(load_session(None, None), Session::empty());
    assert_eq!(
        load_session(None, Some("/out/rec.mp4")),
        Session { process_id: None, output_path: Some("/out/rec.mp4".to_string()) }
    );
    assert_eq!(load_session(Some("17"), None), Session { process_id: Some(17), output_path: None });
}

#[test]
fn a_corrupt_process_id_loads_as_absent() {
    assert_eq!(
        load_session(Some("garbage"), Some("p")),
        Session { process_id: None, output_path: Some("p".to_string()) }
    );
    assert_eq!(load_session(Some(""), None), Session::empty());
    assert_eq!(load_session(Some("99999999999"), None), Session::empty());
}

#[test]
fn the_path_record_is_trimmed() {
    assert_eq!(
        load_session(None, Some("  /out/my rec.mp4 \r\n")).output_path,
        Some("/out/my rec.mp4".to_string())
    );
    assert_eq!(load_session(None, Some("\n")).output_path, Some(String::new()));
}

#[test]
fn the_records_are_well_known() {
    assert_eq!(PID_FILE, "/tmp/rec.nvim.pid");
    assert_eq!(OUT_FILE, "/tmp/rec.nvim.outpath");
}
