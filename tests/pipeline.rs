use xdp_loader::{
    Action, AttachCause, Event, HookMode, ModePolicy, Phase, Pipeline, ProgramKind, RunError,
};

use ProgramKind::{EarlyReceive, Other};

fn reason(text: &str) -> String {
    text.to_string()
}

fn loaded(programs: Vec<ProgramKind>, tables: usize) -> Event {
    Event::ModuleLoaded { programs, tables }
}

/// Drives a pipeline up to the point where it asks for the module to be loaded.
fn up_to_load(p: &mut Pipeline) {
    let first = p.step(Event::Proceed);
    if first == Action::WarnGenericMode {
        assert_eq!(p.step(Event::Proceed), Action::RaiseMemlockLimit);
    } else {
        assert_eq!(first, Action::RaiseMemlockLimit);
    }
    assert_eq!(p.step(Event::LimitResult { code: 0 }), Action::BuildImage);
    assert_eq!(p.step(Event::Proceed), Action::LoadModule);
}

#[test]
fn scenario_default_mode_attaches_and_keeps_alive() {
    let mut p = Pipeline::new(None, ModePolicy::Strict, false, false).unwrap();
    assert_eq!(p.step(Event::Proceed), Action::WarnGenericMode);
    assert_eq!(p.step(Event::Proceed), Action::RaiseMemlockLimit);
    assert_eq!(p.step(Event::LimitResult { code: 0 }), Action::BuildImage);
    assert_eq!(p.step(Event::Proceed), Action::LoadModule);
    assert_eq!(p.step(loaded(vec![EarlyReceive], 0)), Action::LoadProgram { index: 0 });
    assert_eq!(
        p.step(Event::Proceed),
        Action::AttachProgram { index: 0, mode: HookMode::Generic }
    );
    assert_eq!(p.step(Event::Proceed), Action::KeepAlive);
    assert_eq!(p.phase, Phase::Running);
    assert!(!p.accepts(&Event::Proceed));
}

#[test]
fn scenario_driver_mode_publishes_table_without_warning() {
    let mut p = Pipeline::new(Some("driver"), ModePolicy::Strict, false, true).unwrap();
    assert_eq!(p.step(Event::Proceed), Action::RaiseMemlockLimit);
    assert_eq!(p.step(Event::LimitResult { code: 0 }), Action::BuildImage);
    assert_eq!(p.step(Event::Proceed), Action::LoadModule);
    assert_eq!(p.step(loaded(vec![EarlyReceive], 1)), Action::PublishTable { index: 0 });
    assert_eq!(p.step(Event::Proceed), Action::LoadProgram { index: 0 });
    assert_eq!(
        p.step(Event::Proceed),
        Action::AttachProgram { index: 0, mode: HookMode::Driver }
    );
    assert_eq!(p.step(Event::Proceed), Action::KeepAlive);
}

#[test]
fn scenario_malformed_image_fails_before_attach() {
    let mut p = Pipeline::new(None, ModePolicy::Lenient, true, true).unwrap();
    up_to_load(&mut p);
    let action = p.step(Event::ModuleRejected { malformed: true, reason: reason("bad ELF") });
    assert_eq!(action, Action::Stop { error: RunError::Parse { reason: reason("bad ELF") } });
    assert_eq!(p.phase, Phase::Stopped);
}

#[test]
fn kernel_refusing_image_is_a_load_error() {
    let mut p = Pipeline::new(Some("hardware"), ModePolicy::Lenient, false, false).unwrap();
    up_to_load(&mut p);
    let action = p.step(Event::ModuleRejected { malformed: false, reason: reason("EPERM") });
    assert_eq!(action, Action::Stop { error: RunError::Load { reason: reason("EPERM") } });
}

#[test]
fn scenario_strict_unknown_mode_fails_first() {
    let r = Pipeline::new(Some("foo"), ModePolicy::Strict, false, false);
    assert_eq!(r.err(), Some(RunError::Configuration { mode: reason("foo") }));
}

#[test]
fn lenient_unknown_mode_warns() {
    let mut p = Pipeline::new(Some("foo"), ModePolicy::Lenient, false, false).unwrap();
    assert_eq!(p.selection.mode, HookMode::Generic);
    assert_eq!(p.step(Event::Proceed), Action::WarnGenericMode);
}

#[test]
fn no_programs_publishes_tables_and_succeeds() {
    let mut p = Pipeline::new(Some("driver"), ModePolicy::Strict, false, true).unwrap();
    up_to_load(&mut p);
    assert_eq!(p.step(loaded(vec![], 2)), Action::PublishTable { index: 0 });
    assert_eq!(p.step(Event::Proceed), Action::PublishTable { index: 1 });
    assert_eq!(p.step(Event::Proceed), Action::KeepAlive);
}

#[test]
fn no_programs_and_no_tables_succeeds() {
    let mut p = Pipeline::new(Some("driver"), ModePolicy::Strict, false, false).unwrap();
    up_to_load(&mut p);
    assert_eq!(p.step(loaded(vec![], 3)), Action::KeepAlive);
}

#[test]
fn other_program_kind_stops_where_it_comes_up() {
    let mut p = Pipeline::new(Some("driver"), ModePolicy::Strict, false, false).unwrap();
    up_to_load(&mut p);
    assert_eq!(
        p.step(loaded(vec![EarlyReceive, Other, EarlyReceive], 0)),
        Action::LoadProgram { index: 0 }
    );
    assert_eq!(
        p.step(Event::Proceed),
        Action::AttachProgram { index: 0, mode: HookMode::Driver }
    );
    assert_eq!(
        p.step(Event::Proceed),
        Action::Stop { error: RunError::Attach { program: 1, cause: AttachCause::WrongKind } }
    );
}

#[test]
fn other_program_kind_first_attaches_nothing() {
    let mut p = Pipeline::new(None, ModePolicy::Lenient, false, false).unwrap();
    up_to_load(&mut p);
    assert_eq!(
        p.step(loaded(vec![Other, EarlyReceive], 0)),
        Action::Stop { error: RunError::Attach { program: 0, cause: AttachCause::WrongKind } }
    );
}

#[test]
fn memlock_failure_only_warns() {
    let mut p = Pipeline::new(Some("driver"), ModePolicy::Strict, false, false).unwrap();
    assert_eq!(p.step(Event::Proceed), Action::RaiseMemlockLimit);
    assert_eq!(p.step(Event::LimitResult { code: -1 }), Action::WarnMemlockLimit { code: -1 });
    assert_eq!(p.step(Event::Proceed), Action::BuildImage);
}

#[test]
fn unreadable_image_stops() {
    let mut p = Pipeline::new(Some("driver"), ModePolicy::Strict, false, false).unwrap();
    assert_eq!(p.step(Event::Proceed), Action::RaiseMemlockLimit);
    assert_eq!(p.step(Event::LimitResult { code: 0 }), Action::BuildImage);
    assert_eq!(
        p.step(Event::Rejected { reason: reason("no such file") }),
        Action::Stop { error: RunError::Image { reason: reason("no such file") } }
    );
}

#[test]
fn diagnostics_come_before_tables() {
    let mut p = Pipeline::new(Some("driver"), ModePolicy::Strict, true, true).unwrap();
    up_to_load(&mut p);
    assert_eq!(p.step(loaded(vec![EarlyReceive], 2)), Action::InstallDiagnostics);
    assert_eq!(p.step(Event::DiagnosticsInstalled { tables: 1 }), Action::PublishTable { index: 0 });
    assert_eq!(p.step(Event::Proceed), Action::LoadProgram { index: 0 });
}

#[test]
fn diagnostics_taking_the_only_table_leaves_nothing_to_publish() {
    let mut p = Pipeline::new(Some("driver"), ModePolicy::Strict, true, true).unwrap();
    up_to_load(&mut p);
    assert_eq!(p.step(loaded(vec![EarlyReceive], 1)), Action::InstallDiagnostics);
    assert!(!p.accepts(&Event::Proceed));
    assert_eq!(p.step(Event::DiagnosticsInstalled { tables: 0 }), Action::LoadProgram { index: 0 });
    assert_eq!(p.tables, 0);
}

#[test]
fn diagnostics_failure_is_fatal() {
    let mut p = Pipeline::new(Some("driver"), ModePolicy::Strict, true, false).unwrap();
    up_to_load(&mut p);
    assert_eq!(p.step(loaded(vec![EarlyReceive], 0)), Action::InstallDiagnostics);
    assert_eq!(
        p.step(Event::Rejected { reason: reason("no log map") }),
        Action::Stop { error: RunError::DiagnosticsInit { reason: reason("no log map") } }
    );
}

#[test]
fn publish_failure_names_the_table() {
    let mut p = Pipeline::new(Some("driver"), ModePolicy::Strict, false, true).unwrap();
    up_to_load(&mut p);
    assert_eq!(p.step(loaded(vec![EarlyReceive], 2)), Action::PublishTable { index: 0 });
    assert_eq!(p.step(Event::Proceed), Action::PublishTable { index: 1 });
    assert_eq!(
        p.step(Event::Rejected { reason: reason("EACCES") }),
        Action::Stop { error: RunError::Publish { table: 1, reason: reason("EACCES") } }
    );
}

#[test]
fn tables_are_not_published_unless_asked() {
    let mut p = Pipeline::new(Some("driver"), ModePolicy::Strict, false, false).unwrap();
    up_to_load(&mut p);
    assert_eq!(p.step(loaded(vec![EarlyReceive], 4)), Action::LoadProgram { index: 0 });
}

#[test]
fn program_load_refusal_is_an_attach_error() {
    let mut p = Pipeline::new(Some("driver"), ModePolicy::Strict, false, false).unwrap();
    up_to_load(&mut p);
    assert_eq!(p.step(loaded(vec![EarlyReceive], 0)), Action::LoadProgram { index: 0 });
    assert_eq!(
        p.step(Event::Rejected { reason: reason("verifier") }),
        Action::Stop {
            error: RunError::Attach {
                program: 0,
                cause: AttachCause::LoadRejected { reason: reason("verifier") },
            },
        }
    );
}

#[test]
fn attach_refusal_keeps_earlier_attachments() {
    let mut p = Pipeline::new(Some("hardware"), ModePolicy::Strict, false, false).unwrap();
    up_to_load(&mut p);
    assert_eq!(p.step(loaded(vec![EarlyReceive, EarlyReceive], 0)), Action::LoadProgram { index: 0 });
    assert_eq!(
        p.step(Event::Proceed),
        Action::AttachProgram { index: 0, mode: HookMode::Hardware }
    );
    assert_eq!(p.step(Event::Proceed), Action::LoadProgram { index: 1 });
    assert_eq!(
        p.step(Event::Proceed),
        Action::AttachProgram { index: 1, mode: HookMode::Hardware }
    );
    assert_eq!(
        p.step(Event::Rejected { reason: reason("busy") }),
        Action::Stop {
            error: RunError::Attach {
                program: 1,
                cause: AttachCause::AttachRejected { reason: reason("busy") },
            },
        }
    );
}

#[test]
fn unexpected_events_are_not_accepted() {
    let p = Pipeline::new(None, ModePolicy::Lenient, false, false).unwrap();
    assert!(p.accepts(&Event::Proceed));
    assert!(!p.accepts(&Event::LimitResult { code: 0 }));
    assert!(!p.accepts(&loaded(vec![], 0)));
}
