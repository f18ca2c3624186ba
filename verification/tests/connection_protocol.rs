use trs::connection::{Connection, ExecStart, TransferStart};
use trs::prompt::Prompt;
use trs::registry::Registry;
use trs::session::{
    response_to_result, sentinel_assignment, sentinel_pattern, setup_advance, ConnectionState,
    Response, SetupStage, StepOutcome,
};

fn drive(job: &mut trs::connection::ExecJob, bytes: &[u8]) -> Option<String> {
    for &b in bytes {
        if let Some(out) = job.feed(b) {
            return Some(out);
        }
    }
    None
}

#[test]
fn exec_round_trip_extracts_command_output() {
    let mut c = Connection::ready(Prompt::new("qwerty").unwrap());
    let start = c.exec(String::from("echo hi"), None, None);
    let mut job = match start {
        ExecStart::Started(job) => job,
        _ => panic!("command should start on an idle connection"),
    };
    assert!(matches!(c.state, ConnectionState::Executing));
    let out = drive(&mut job, b"echo hi\r\nhi\r\nqwerty").unwrap();
    assert_eq!(out, "hi\r\n");
    c.command_finished();
    assert!(matches!(c.state, ConnectionState::Idle));
}

#[test]
fn exec_with_prompt_override_uses_it_for_this_command_only() {
    let mut c = Connection::ready(Prompt::new("\\$ ").unwrap());
    let start = c.exec(String::from("cat"), Some(String::from("EOF")), Some(true));
    let mut job = match start {
        ExecStart::Started(job) => job,
        _ => panic!("override compiles, so the command should start"),
    };
    let out = drive(&mut job, b"cat\r\ndata\nEOF").unwrap();
    assert_eq!(out, "data\nEOF");
    c.command_finished();
    // The default prompt is untouched: the next command scans for it again.
    let start = c.exec(String::from(""), None, None);
    let mut job = match start {
        ExecStart::Started(job) => job,
        _ => panic!("connection should be idle again"),
    };
    let out = drive(&mut job, b"\r\nok\n$ ").unwrap();
    assert_eq!(out, "ok\n");
}

#[test]
fn bad_prompt_override_fails_command_but_keeps_connection_usable() {
    let mut c = Connection::ready(Prompt::new("\\$ ").unwrap());
    let start = c.exec(String::from("echo hi"), Some(String::from("BADREGEX(")), Some(false));
    match start {
        ExecStart::BadPrompt(m) => {
            assert_eq!(m, "Incorrect prompt regexp 'BADREGEX('");
        },
        _ => panic!("an invalid override must abandon the command"),
    }
    assert!(matches!(c.state, ConnectionState::Idle));
    // The connection stays usable for further commands.
    let start = c.exec(String::from("echo hi"), None, None);
    let mut job = match start {
        ExecStart::Started(job) => job,
        _ => panic!("connection should still accept commands"),
    };
    let out = drive(&mut job, b"echo hi\r\nhi\r\n$ ").unwrap();
    assert_eq!(out, "hi\r\n");
}

#[test]
fn failed_connection_short_circuits_every_operation() {
    let mut reg = Registry::new().unwrap();
    // Connecting with an unparsable prompt creates the handle failed.
    let err = match reg.resolve_prompt(Some(String::from("("))) {
        Err(e) => e,
        Ok(_) => panic!("an unparsable prompt must be rejected"),
    };
    let mut c = Connection::failed(err);
    assert_eq!(c.get_error(), Some(String::from("Bad optional prompt")));
    for _ in 0..2 {
        match c.exec(String::from("ls"), None, None) {
            ExecStart::Refused(m) => assert_eq!(m, "Bad optional prompt"),
            _ => panic!("a failed connection must refuse exec"),
        }
    }
    match c.send_file(String::from("a"), String::from("b")) {
        TransferStart::Refused(m) => assert_eq!(m, "Bad optional prompt"),
        _ => panic!("a failed connection must refuse send_file"),
    }
    assert!(!c.set_prompt(String::from("\\$ ")));
    // Failure is sticky: the stored error survives everything above.
    assert_eq!(c.get_error(), Some(String::from("Bad optional prompt")));
    reg.register(c);
    let closed = reg.close_all();
    assert_eq!(closed.len(), 1);
    assert!(matches!(closed[0].state, ConnectionState::Failed(_)));
}

#[test]
fn set_prompt_twice_with_same_pattern_changes_nothing_more() {
    let mut c1 = Connection::ready(Prompt::new("\\$ ").unwrap());
    let mut c2 = Connection::ready(Prompt::new("\\$ ").unwrap());
    assert!(c1.set_prompt(String::from("PROMPT>")));
    assert!(c2.set_prompt(String::from("PROMPT>")));
    assert!(c2.set_prompt(String::from("PROMPT>")));
    // Subsequent execute behaviour is identical after one call and after two.
    for c in [&mut c1, &mut c2] {
        let start = c.exec(String::from("pwd"), None, None);
        let mut job = match start {
            ExecStart::Started(job) => job,
            _ => panic!("idle connection must start the command"),
        };
        let out = drive(&mut job, b"pwd\r\n/root\nPROMPT>").unwrap();
        assert_eq!(out, "/root\n");
        c.command_finished();
    }
}

#[test]
fn invalid_set_prompt_keeps_the_old_pattern() {
    let mut c = Connection::ready(Prompt::new("qwerty").unwrap());
    assert!(!c.set_prompt(String::from("(")));
    let start = c.exec(String::from("x"), None, None);
    let mut job = match start {
        ExecStart::Started(job) => job,
        _ => panic!("connection should be idle"),
    };
    // Still scanning for the old prompt.
    let out = drive(&mut job, b"x\r\nout\nqwerty").unwrap();
    assert_eq!(out, "out\n");
}

#[test]
fn close_makes_later_commands_fail_with_unknown_error() {
    let mut c = Connection::ready(Prompt::new("\\$ ").unwrap());
    c.close();
    assert!(matches!(c.state, ConnectionState::Closed));
    assert_eq!(c.get_error(), None);
    match c.exec(String::from("ls"), None, None) {
        ExecStart::Refused(m) => assert_eq!(m, "Unknown error"),
        _ => panic!("a closed connection must refuse exec"),
    }
    assert!(!c.set_prompt(String::from("\\$ ")));
}

#[test]
fn send_file_starts_with_the_console_body() {
    let mut c = Connection::ready(Prompt::new("\\$ ").unwrap());
    match c.send_file(String::from("/tmp/a.bin"), String::from("/srv/a.bin")) {
        TransferStart::Started(m) => assert_eq!(m, "/tmp/a.bin -> /srv/a.bin"),
        _ => panic!("an idle connection must start the transfer"),
    }
    assert!(matches!(c.state, ConnectionState::Executing));
    c.command_finished();
    assert!(matches!(c.state, ConnectionState::Idle));
}

#[test]
fn registry_resolves_prompts_against_the_default() {
    let reg = Registry::new().unwrap();
    let p = reg.resolve_prompt(None).unwrap();
    assert_eq!(p.pattern_str(), "\\$ ");
    let q = reg.resolve_prompt(Some(String::from("PROMPT>"))).unwrap();
    assert_eq!(q.pattern_str(), "PROMPT>");
    match reg.resolve_prompt(Some(String::from("("))) {
        Err(m) => assert_eq!(m, "Bad optional prompt"),
        Ok(_) => panic!("an unparsable prompt must be rejected"),
    }
}

#[test]
fn close_all_closes_in_reverse_creation_order() {
    let mut reg = Registry::new().unwrap();
    let mut first = Connection::ready(Prompt::new("a").unwrap());
    let second = Connection::ready(Prompt::new("b").unwrap());
    first.close();
    reg.register(first);
    reg.register(second);
    assert_eq!(reg.connection_count(), 2);
    let closed = reg.close_all();
    assert_eq!(reg.connection_count(), 0);
    assert_eq!(closed.len(), 2);
    // The last-created connection is closed first.
    assert_eq!(closed[0].prompt.as_ref().unwrap().pattern_str(), "b");
    assert!(matches!(closed[0].state, ConnectionState::Closed));
    // An already-closed connection stays closed.
    assert!(matches!(closed[1].state, ConnectionState::Closed));
}

#[test]
fn setup_walks_its_stages_in_order() {
    let mut stage = SetupStage::ResolvingAddress;
    for _ in 0..9 {
        stage = setup_advance(stage, StepOutcome::Success);
    }
    assert!(matches!(stage, SetupStage::Ready));
    // Terminal states absorb further outcomes.
    stage = setup_advance(stage, StepOutcome::Failure(String::from("late")));
    assert!(matches!(stage, SetupStage::Ready));
}

#[test]
fn setup_failures_carry_the_step_error() {
    let failed = |stage: SetupStage, detail: &str| -> String {
        match setup_advance(stage, StepOutcome::Failure(String::from(detail))) {
            SetupStage::Failed(e) => e.message(),
            _ => panic!("a failing step must end setup"),
        }
    };
    assert_eq!(
        failed(SetupStage::ResolvingAddress, "bad ip"),
        "Invalid ip address: bad ip"
    );
    assert_eq!(
        failed(SetupStage::OpeningTransport, "refused"),
        "Tcp connection error: refused"
    );
    assert_eq!(failed(SetupStage::Handshaking, "kex"), "Handshake error: kex");
    assert_eq!(
        failed(SetupStage::Authenticating, "denied"),
        "Authentication error: denied"
    );
    assert_eq!(
        failed(SetupStage::OpeningShell, "no pty"),
        "Tcp connection error: no pty"
    );
    // A failure in a terminal state changes nothing.
    let sticky = setup_advance(
        setup_advance(
            SetupStage::Handshaking,
            StepOutcome::Failure(String::from("kex")),
        ),
        StepOutcome::Success,
    );
    match sticky {
        SetupStage::Failed(e) => assert_eq!(e.message(), "Handshake error: kex"),
        _ => panic!("failure must be sticky"),
    }
}

#[test]
fn sentinel_constants_match_the_protocol() {
    assert_eq!(sentinel_assignment(), "PS1=qwerty\n");
    assert_eq!(sentinel_pattern(), "qwerty");
    let p = Prompt::new(sentinel_pattern()).unwrap();
    assert_eq!(p.pattern_str(), "qwerty");
}

#[test]
fn responses_map_to_handle_results() {
    assert_eq!(
        response_to_result(Response::Text(String::from("out"))),
        (false, String::from("out"))
    );
    assert_eq!(response_to_result(Response::Bool(true)), (false, String::new()));
    assert_eq!(response_to_result(Response::Bool(false)), (true, String::new()));
    assert_eq!(
        response_to_result(Response::Failure(String::from("why"))),
        (true, String::from("why"))
    );
}
