use xunlei::backend::{Action, Event, Fatal, Signal, SupervisorState, XunleiBackendServer};
use xunlei::cgi::{parse_cgi_output, parse_header_line, CgiError, HeadLines, HeaderLine};
use xunlei::launcher::{Config, XunleiLauncher};
use xunlei::port::{parser_port_in_range, PortError};

#[test]
fn cgi_status_header_and_body() {
    let out = b"Status: 404 X\r\nFoo: bar\r\n\r\nBODY";
    let head = parse_cgi_output(out).unwrap();
    assert_eq!(head.status_code, 404);
    assert_eq!(head.headers, vec![(b"Foo".to_vec(), b"bar".to_vec())]);
    assert_eq!(&out[head.body_start..], b"BODY");
}

#[test]
fn cgi_default_status_and_plain_newlines() {
    let out = b"Content-Type: text/plain\nX: y\n\nhello\nworld";
    let head = parse_cgi_output(out).unwrap();
    assert_eq!(head.status_code, 200);
    assert_eq!(head.headers.len(), 2);
    assert_eq!(&out[head.body_start..], b"hello\nworld");
}

#[test]
fn cgi_without_blank_line_has_empty_body() {
    let out = b"A: b";
    let head = parse_cgi_output(out).unwrap();
    assert_eq!(head.headers, vec![(b"A".to_vec(), b"b".to_vec())]);
    assert_eq!(head.body_start, out.len());
}

#[test]
fn cgi_line_without_colon_fails() {
    assert_eq!(parse_cgi_output(b"Foo: bar\r\nbroken\r\n\r\nBODY").err(), Some(CgiError::MissingColon));
    assert_eq!(parse_cgi_output(b"broken\n\nBODY").err(), Some(CgiError::MissingColon));
}

#[test]
fn cgi_other_header_errors() {
    assert_eq!(parse_cgi_output(b"Foo:\r\n\r\n").err(), Some(CgiError::MissingValue));
    assert_eq!(parse_cgi_output(b"Status: 4x\r\n\r\n").err(), Some(CgiError::InvalidStatus));
    assert_eq!(parse_cgi_output(b"Status: abc\r\n\r\n").err(), Some(CgiError::InvalidStatus));
}

#[test]
fn header_line_forms() {
    match parse_header_line(b"Status: 302 Found").unwrap() {
        HeaderLine::Status(c) => assert_eq!(c, 302),
        HeaderLine::Field(..) => panic!("expected a status"),
    }
    match parse_header_line(b"Location: /x:y").unwrap() {
        HeaderLine::Field(n, v) => {
            assert_eq!(n, b"Location".to_vec());
            assert_eq!(v, b"/x:y".to_vec());
        }
        HeaderLine::Status(_) => panic!("expected a field"),
    }
}

#[test]
fn supervisor_interrupt_then_unmount() {
    let (s, a) = SupervisorState::start();
    assert_eq!(a, Action::Mount);
    let (s, a) = s.step(Event::Mounted(true));
    assert_eq!(a, Action::Spawn);
    let (s, a) = s.step(Event::Spawned(Some(42)));
    assert_eq!(a, Action::WaitSignal);
    let (s, a) = s.step(Event::Received(Signal::Other));
    assert_eq!(a, Action::WaitSignal);
    let (s, a) = s.step(Event::Received(Signal::Interrupt));
    assert_eq!(a, Action::SendInterrupt(42));
    let (s, a) = s.step(Event::KillSent(true));
    assert_eq!(a, Action::Unmount);
    let (s, a) = s.step(Event::Unmounted(false));
    assert_eq!(a, Action::Finish);
    assert_eq!(s, SupervisorState::Done);
}

#[test]
fn supervisor_escalates_then_unmounts() {
    let s = SupervisorState::Running { pid: 7 };
    let (s, a) = s.step(Event::Received(Signal::Hangup));
    assert_eq!(a, Action::SendInterrupt(7));
    let (s, a) = s.step(Event::KillSent(false));
    assert_eq!(a, Action::SendTerminate(7));
    let (_, a) = s.step(Event::KillSent(true));
    assert_eq!(a, Action::Unmount);
}

#[test]
fn supervisor_fatal_errors() {
    let (s, _) = SupervisorState::start();
    assert_eq!(s.step(Event::Mounted(false)).1, Action::Abort(Fatal::MountFailed));
    assert_eq!(SupervisorState::Spawning.step(Event::Spawned(None)).1, Action::Abort(Fatal::SpawnFailed));
    let s = SupervisorState::Stopping { pid: 3, forced: true };
    assert_eq!(s.step(Event::KillSent(false)), (SupervisorState::Failed, Action::Abort(Fatal::KillFailed)));
    assert_eq!(SupervisorState::Stopped.step(Event::Mounted(true)), (SupervisorState::Stopped, Action::Ignore));
}

#[test]
fn backend_command_line() {
    let l = XunleiLauncher::from((false, Config {
        auth_user: None,
        auth_password: None,
        host: String::from("0.0.0.0"),
        port: 5055,
        uid: Some(1),
        gid: Some(2),
        config_path: String::from("/cfg"),
        download_path: String::from("/dl"),
        mount_bind_download_path: String::from("/bind"),
    }));
    let b = XunleiBackendServer::from(l);
    assert_eq!(b.download_path, "/dl");
    assert_eq!(b.uid, 1);
    let args = b.args();
    assert_eq!(args.len(), 3);
    assert!(args[0].starts_with("-launcher_listen=unix://"));
    assert!(args[1].starts_with("-pid=/"));
    assert!(args[2].starts_with("-logfile=/"));
}

#[test]
fn port_parsing() {
    assert_eq!(parser_port_in_range("5055"), Ok(5055));
    assert_eq!(parser_port_in_range("1024"), Ok(1024));
    assert_eq!(parser_port_in_range("65535"), Ok(65535));
    assert_eq!(parser_port_in_range("+2000"), Ok(2000));
    assert_eq!(parser_port_in_range("1023"), Err(PortError::OutOfRange));
    assert_eq!(parser_port_in_range("65536"), Err(PortError::OutOfRange));
    assert_eq!(parser_port_in_range("0"), Err(PortError::OutOfRange));
    assert_eq!(parser_port_in_range(""), Err(PortError::NotANumber));
    assert_eq!(parser_port_in_range("+"), Err(PortError::NotANumber));
    assert_eq!(parser_port_in_range("-80"), Err(PortError::NotANumber));
    assert_eq!(parser_port_in_range("80a"), Err(PortError::NotANumber));
    assert_eq!(parser_port_in_range("99999999999999999999999"), Err(PortError::NotANumber));
}

#[test]
fn head_lines_step_by_step() {
    let mut head = HeadLines::new();
    assert_eq!(head.head_step(b"Status: 404 X"), Ok(true));
    assert_eq!(head.head_step(b"Foo: bar"), Ok(true));
    assert_eq!(head.head_step(b""), Ok(false));
    assert_eq!(head.status_code, 404);
    assert_eq!(head.headers, vec![(b"Foo".to_vec(), b"bar".to_vec())]);
    assert_eq!(head.head_step(b"broken"), Err(CgiError::MissingColon));
    assert_eq!(head.headers.len(), 1);
}
