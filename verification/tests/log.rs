use microservice_rust_workshop::log::lines_to_write;
use microservice_rust_workshop::log::LogEvent;
use microservice_rust_workshop::log::Phase;
use microservice_rust_workshop::log::Verbosity;

fn event(phase: Phase, method: &str, target: &str) -> LogEvent {
    LogEvent { phase, method: method.to_string(), target: target.to_string() }
}

fn two_requests() -> Vec<LogEvent> {
    vec![
        event(Phase::Entry, "GET", "/"),
        event(Phase::Exit, "GET", "/"),
        event(Phase::Entry, "DELETE", "/admin/kv"),
        event(Phase::Exit, "DELETE", "/admin/kv"),
    ]
}

#[test]
fn event_line_names_method_and_target() {
    assert_eq!(event(Phase::Entry, "GET", "/").line(), "processing GET /");
    assert_eq!(event(Phase::Exit, "GET", "/").line(), "end processing GET /");
    assert_eq!(
        event(Phase::Entry, "POST", "/kv/a key?x=1").line(),
        "processing POST /kv/a key?x=1"
    );
    assert_eq!(event(Phase::Exit, "", "").line(), "end processing  ");
}

#[test]
fn verbosity_decides_which_phases_show() {
    assert!(!Verbosity::Silent.is_shown(Phase::Entry));
    assert!(!Verbosity::Silent.is_shown(Phase::Exit));
    assert!(Verbosity::Entries.is_shown(Phase::Entry));
    assert!(!Verbosity::Entries.is_shown(Phase::Exit));
    assert!(Verbosity::All.is_shown(Phase::Entry));
    assert!(Verbosity::All.is_shown(Phase::Exit));
}

#[test]
fn lines_follow_the_log_in_order() {
    let log = two_requests();
    assert!(lines_to_write(Verbosity::Silent, &log).is_empty());
    assert_eq!(
        lines_to_write(Verbosity::Entries, &log),
        vec!["processing GET /", "processing DELETE /admin/kv"]
    );
    assert_eq!(
        lines_to_write(Verbosity::All, &log),
        vec![
            "processing GET /",
            "end processing GET /",
            "processing DELETE /admin/kv",
            "end processing DELETE /admin/kv",
        ]
    );
    assert!(lines_to_write(Verbosity::All, &Vec::new()).is_empty());
    assert_eq!(
        lines_to_write(Verbosity::Entries, &vec![event(Phase::Exit, "GET", "/")]),
        Vec::<String>::new()
    );
}
