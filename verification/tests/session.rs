use gummy::error::GummyError;
use gummy::handshake::Handshake;
use gummy::protocol::Received;
use gummy::session::{
    Closed, ConnectStart, ConnectStep, Connected, Connecting, Converting, FinishStart, FinishStep,
    Finished, Finishing, Gummy, StartStep, Starting,
};

fn started(task_id: &str) -> Received {
    Received::Text(format!(
        r#"{{"header":{{"event":"task-started","task_id":"{}"}},"payload":{{}}}}"#,
        task_id
    ))
}

fn finished(task_id: &str) -> Received {
    Received::Text(format!(
        r#"{{"header":{{"event":"task-finished","task_id":"{}"}},"payload":{{}}}}"#,
        task_id
    ))
}

fn failed(task_id: &str) -> Received {
    Received::Text(format!(
        r#"{{"header":{{"event":"task-failed","task_id":"{}","error_code":"X"}}}}"#,
        task_id
    ))
}

fn result(task_id: &str, sentence_id: u64, text: &str, end: bool, translated: Option<&str>) -> Received {
    let translation = match translated {
        Some(t) => format!(r#","translation":{{"text":"{}"}}"#, t),
        None => String::new(),
    };
    Received::Text(format!(
        r#"{{"header":{{"event":"result-generated","task_id":"{}"}},"payload":{{"output":{{"transcription":{{"sentence_id":{},"begin_time":{},"end_time":{},"text":"{}","sentence_end":{}}}{}}}}}}}"#,
        task_id,
        sentence_id,
        sentence_id * 100,
        sentence_id * 100 + 50,
        text,
        end,
        translation
    ))
}

fn connecting(session: Gummy<Closed>, url: Option<&str>) -> Gummy<Connecting> {
    match session.connect(url) {
        ConnectStart::Open(session, _) => session,
        other => panic!("refused: {:?}", other),
    }
}

fn connected() -> Gummy<Connected> {
    match connecting(Gummy::new("key"), None).complete(Handshake::Opened) {
        ConnectStep::Connected(session) => session,
        other => panic!("not connected: {:?}", other),
    }
}

fn converting() -> Gummy<Converting> {
    let (starting, _) = connected().start(Some("pcm"), Some(16000), None, None);
    let id = starting.task_id().to_string();
    match starting.acknowledge(&started(&id)) {
        StartStep::Started(session) => session,
        other => panic!("not started: {:?}", other),
    }
}

fn finishing(session: Gummy<Converting>) -> Gummy<Finishing> {
    match session.finish() {
        FinishStart::Send(session, _) => session,
        other => panic!("nothing to send: {:?}", other),
    }
}

fn waiting<P: std::fmt::Debug>(step: StartStep<P>) -> Gummy<Starting<P>> {
    match step {
        StartStep::Waiting(session) => session,
        other => panic!("not waiting: {:?}", other),
    }
}

#[test]
fn new_session_keeps_the_credential() {
    let session = Gummy::new("secret-token");
    assert_eq!(session.api_key(), "secret-token");
    assert_eq!(session.close().api_key(), "secret-token");
}

#[test]
fn connect_request_names_the_service_and_its_headers() {
    let request = Gummy::new("abc").connect_request(None).unwrap();
    assert_eq!(request.url, "wss://dashscope.aliyuncs.com/api-ws/v1/inference");
    let expected = vec![
        ("Authorization".to_string(), "Bearer abc".to_string()),
        ("user-agent".to_string(), "app".to_string()),
        ("X-DashScope-WorkSpace".to_string(), "llm-hxfupix3oo63uw6d".to_string()),
        ("X-DashScope-DataInspection".to_string(), "enable".to_string()),
    ];
    assert_eq!(request.headers, expected);
}

#[test]
fn connect_request_takes_the_callers_address() {
    let request = Gummy::new("abc").connect_request(Some("wss://example.test/ws")).unwrap();
    assert_eq!(request.url, "wss://example.test/ws");
    assert_eq!(request.headers.len(), 4);
}

#[test]
fn credential_that_cannot_stand_in_a_header_is_an_auth_error() {
    assert_eq!(
        Gummy::new("bad\nkey").connect_request(None).unwrap_err(),
        GummyError::Auth
    );
    assert_eq!(
        Gummy::new("bad\u{7f}key").connect_request(None).unwrap_err(),
        GummyError::Auth
    );
    assert_eq!(Gummy::new("\u{0}").connect_request(None).unwrap_err(), GummyError::Auth);
    assert!(Gummy::new("tab\tkey").connect_request(None).is_ok());
    assert!(Gummy::new("cl\u{e9}").connect_request(None).is_ok());
    assert!(Gummy::new("").connect_request(None).is_ok());
}

#[test]
fn address_that_the_transport_does_not_take_is_a_transport_error() {
    for url in ["", "not a url", "wss://", "/only/a/path", "wss://user@/x"] {
        assert_eq!(
            Gummy::new("abc").connect_request(Some(url)).unwrap_err(),
            GummyError::Transport,
            "{:?}",
            url
        );
    }
    assert_eq!(
        Gummy::new("bad\nkey").connect_request(Some("not a url")).unwrap_err(),
        GummyError::Transport
    );
    assert!(Gummy::new("abc").connect_request(Some("ws://localhost:9000/ws")).is_ok());
}

#[test]
fn connect_hands_back_the_request_and_awaits_the_handshake() {
    match Gummy::new("abc").connect(Some("wss://example.test/ws")) {
        ConnectStart::Open(session, request) => {
            assert_eq!(session.api_key(), "abc");
            assert_eq!(request.url, "wss://example.test/ws");
            assert_eq!(request.headers.len(), 4);
            assert_eq!(
                request.headers[0],
                ("Authorization".to_string(), "Bearer abc".to_string())
            );
        }
        other => panic!("refused: {:?}", other),
    }
}

#[test]
fn connect_is_refused_without_an_attempt() {
    match Gummy::new("bad\nkey").connect(None) {
        ConnectStart::Refused(session, error) => {
            assert_eq!(error, GummyError::Auth);
            let session: Gummy<Closed> = session;
            assert_eq!(session.api_key(), "bad\nkey");
        }
        other => panic!("not refused: {:?}", other),
    }
    match Gummy::new("abc").connect(Some("not a url")) {
        ConnectStart::Refused(session, error) => {
            assert_eq!(error, GummyError::Transport);
            assert_eq!(session.api_key(), "abc");
        }
        other => panic!("not refused: {:?}", other),
    }
}

#[test]
fn opened_handshake_connects_the_session() {
    match connecting(Gummy::new("abc"), None).complete(Handshake::Opened) {
        ConnectStep::Connected(session) => {
            let session: Gummy<Connected> = session;
            assert_eq!(session.api_key(), "abc");
        }
        other => panic!("not connected: {:?}", other),
    }
}

#[test]
fn failed_handshake_is_a_transport_error_and_leaves_the_session_closed() {
    match connecting(Gummy::new("abc"), None).complete(Handshake::Failed) {
        ConnectStep::Failed(session, error) => {
            assert_eq!(error, GummyError::Transport);
            let session: Gummy<Closed> = session;
            assert_eq!(session.api_key(), "abc");
            assert!(matches!(session.connect(None), ConnectStart::Open(_, _)));
        }
        other => panic!("not failed: {:?}", other),
    }
}

#[test]
fn start_hands_back_the_message_for_the_awaited_task() {
    let (starting, message) = connected().start(Some("pcm"), Some(16000), Some("en"), Some("ja"));
    assert_eq!(starting.task_id(), message.id());
    assert_eq!(starting.api_key(), "key");
    assert_eq!(message.header.action, "run-task");
    let p = message.payload.parameters.as_ref().unwrap();
    assert_eq!(p.sample_rate, 16000);
    assert_eq!(p.format, "pcm");
    assert_eq!(p.source_language.as_deref(), Some("en"));
    assert_eq!(p.translation_target_languages, vec!["ja".to_string()]);
}

#[test]
fn start_is_acknowledged_by_task_started_for_the_task() {
    let (starting, _) = connected().start(None, None, None, None);
    let id = starting.task_id().to_string();
    match starting.acknowledge(&started(&id)) {
        StartStep::Started(session) => {
            assert_eq!(session.task_id(), id);
            assert_eq!(session.api_key(), "key");
            assert!(!session.is_finished());
            assert!(session.snapshot().is_empty());
        }
        other => panic!("not started: {:?}", other),
    }
}

#[test]
fn start_passes_over_frames_that_are_not_its_acknowledgement() {
    let (starting, _) = connected().start(None, None, None, None);
    let id = starting.task_id().to_string();
    let starting = waiting(starting.acknowledge(&started("someone-else")));
    let starting = waiting(starting.acknowledge(&Received::Other));
    let starting = waiting(starting.acknowledge(&finished(&id)));
    let starting = waiting(starting.acknowledge(&result(&id, 0, "early", false, None)));
    let starting = waiting(starting.acknowledge(&failed("someone-else")));
    let starting = waiting(starting.acknowledge(&failed(&id)));
    let starting = waiting(starting.acknowledge(&Received::Text(
        r#"{"header":{"event":"heartbeat"}}"#.to_string(),
    )));
    assert_eq!(starting.task_id(), id);
    assert!(matches!(starting.acknowledge(&started(&id)), StartStep::Started(_)));
}

#[test]
fn channel_closed_during_start_is_a_protocol_error() {
    let (starting, _) = connected().start(None, None, None, None);
    match starting.acknowledge(&Received::Closed) {
        StartStep::Failed(session, error) => {
            assert_eq!(error, GummyError::Protocol);
            let session: Gummy<Connected> = session;
            assert_eq!(session.api_key(), "key");
            let (again, _) = session.start(None, None, None, None);
            assert!(!again.task_id().is_empty());
        }
        other => panic!("not failed: {:?}", other),
    }
}

#[test]
fn task_failed_during_start_is_passed_over() {
    let (starting, _) = connected().start(None, None, None, None);
    let id = starting.task_id().to_string();
    let starting = waiting(starting.acknowledge(&failed(&id)));
    assert_eq!(starting.task_id(), id);
    match starting.settle(&[failed(&id), Received::Other, started(&id)]) {
        StartStep::Started(session) => {
            assert_eq!(session.task_id(), id);
            assert!(session.snapshot().is_empty());
        }
        other => panic!("not started: {:?}", other),
    }
}

#[test]
fn transport_error_during_start_is_reported() {
    let (starting, _) = connected().start(None, None, None, None);
    assert!(matches!(
        starting.acknowledge(&Received::Failed),
        StartStep::Failed(_, GummyError::Transport)
    ));
}

#[test]
fn malformed_frame_during_start_aborts_it() {
    let (starting, _) = connected().start(None, None, None, None);
    assert!(matches!(
        starting.acknowledge(&Received::Text("{".to_string())),
        StartStep::Failed(_, GummyError::MalformedMessage)
    ));
}

#[test]
fn settle_stops_at_the_acknowledgement() {
    let (starting, _) = connected().start(None, None, None, None);
    let id = starting.task_id().to_string();
    let script = vec![Received::Other, started("x"), started(&id), Received::Closed];
    assert!(matches!(starting.settle(&script), StartStep::Started(_)));

    let (starting, _) = connected().start(None, None, None, None);
    let script = vec![Received::Other, started("x")];
    assert!(matches!(starting.settle(&script), StartStep::Waiting(_)));

    let (starting, _) = connected().start(None, None, None, None);
    let id = starting.task_id().to_string();
    let script = vec![Received::Other, Received::Closed, started(&id)];
    assert!(matches!(
        starting.settle(&script),
        StartStep::Failed(_, GummyError::Protocol)
    ));

    let (starting, _) = connected().start(None, None, None, None);
    assert!(matches!(starting.settle(&[]), StartStep::Waiting(_)));
}

#[test]
fn send_forwards_the_bytes_as_they_are() {
    let session = converting();
    assert_eq!(session.send(&[1, 2, 3, 255, 0]), vec![1, 2, 3, 255, 0]);
    assert!(session.send(&[]).is_empty());
}

#[test]
fn receive_folds_results_of_the_task() {
    let mut session = converting();
    let id = session.task_id().to_string();
    let snap = session.receive(&result(&id, 0, "hel", false, None)).unwrap();
    assert_eq!(snap.len(), 1);
    assert_eq!(snap[0].text, "hel");
    let snap = session.receive(&result(&id, 0, "hello", true, Some("bonjour"))).unwrap();
    assert_eq!(snap.len(), 1);
    assert_eq!(snap[0].text, "hello");
    assert_eq!(snap[0].translated_text.as_deref(), Some("bonjour"));
    let snap = session.receive(&result(&id, 1, "world", false, None)).unwrap();
    assert_eq!(snap.len(), 2);
    assert_eq!(snap[1].text, "world");
    assert_eq!(snap[1].begin_time, 100);
    assert_eq!(snap[1].end_time, 150);
    assert!(!session.is_finished());
}

#[test]
fn receive_is_idempotent_between_events() {
    let mut session = converting();
    let id = session.task_id().to_string();
    session.receive(&result(&id, 0, "one", false, None)).unwrap();
    let a = session.receive(&Received::Other).unwrap();
    let b = session.receive(&Received::Other).unwrap();
    let c = session.snapshot();
    assert_eq!(a.len(), 1);
    assert_eq!(b.len(), 1);
    assert_eq!(c.len(), 1);
    assert_eq!(a[0].text, "one");
    assert_eq!(b[0].text, "one");
    assert_eq!(c[0].text, "one");
}

#[test]
fn receive_ignores_other_tasks_and_unknown_events() {
    let mut session = converting();
    let id = session.task_id().to_string();
    assert!(session.receive(&result("other-task", 0, "x", false, None)).unwrap().is_empty());
    assert!(session.receive(&finished("other-task")).unwrap().is_empty());
    assert!(!session.is_finished());
    assert!(session.receive(&started(&id)).unwrap().is_empty());
    assert!(session.receive(&failed(&id)).unwrap().is_empty());
    assert!(session
        .receive(&Received::Text(r#"{"header":{"event":"noise","task_id":"q"}}"#.to_string()))
        .unwrap()
        .is_empty());
    assert!(session.receive(&Received::Closed).unwrap().is_empty());
    assert!(!session.is_finished());
}

#[test]
fn receive_reports_errors_and_keeps_its_results() {
    let mut session = converting();
    let id = session.task_id().to_string();
    session.receive(&result(&id, 0, "kept", false, Some("garde"))).unwrap();
    assert_eq!(
        session.receive(&Received::Text("garbage".to_string())).unwrap_err(),
        GummyError::MalformedMessage
    );
    assert_eq!(session.receive(&Received::Failed).unwrap_err(), GummyError::Transport);
    assert_eq!(
        session.receive(&result(&id, 5, "gap", false, None)).unwrap_err(),
        GummyError::MalformedMessage
    );
    let snap = session.snapshot();
    assert_eq!(snap.len(), 1);
    assert_eq!(snap[0].text, "kept");
    assert_eq!(snap[0].translated_text.as_deref(), Some("garde"));
    let snap = session.receive(&result(&id, 1, "next", false, None)).unwrap();
    assert_eq!(snap.len(), 2);
}

#[test]
fn receive_keeps_a_translation_over_a_transcription_only_revision() {
    let mut session = converting();
    let id = session.task_id().to_string();
    session.receive(&result(&id, 0, "good", false, Some("bon"))).unwrap();
    let snap = session.receive(&result(&id, 0, "good day", true, None)).unwrap();
    assert_eq!(snap[0].text, "good day");
    assert_eq!(snap[0].translated_text.as_deref(), Some("bon"));
}

#[test]
fn receive_reads_nothing_once_the_task_is_finished() {
    let mut session = converting();
    let id = session.task_id().to_string();
    session.receive(&result(&id, 0, "last", true, None)).unwrap();
    session.receive(&finished(&id)).unwrap();
    assert!(session.is_finished());
    let snap = session.receive(&result(&id, 1, "too late", false, None)).unwrap();
    assert_eq!(snap.len(), 1);
    assert_eq!(snap[0].text, "last");
    assert!(session.receive(&Received::Failed).is_ok());
    assert!(session.receive(&Received::Text("garbage".to_string())).is_ok());
}

#[test]
fn finish_of_a_finished_task_sends_nothing() {
    let mut session = converting();
    let id = session.task_id().to_string();
    session.receive(&result(&id, 0, "only", true, None)).unwrap();
    session.receive(&finished(&id)).unwrap();
    match session.finish() {
        FinishStart::Done(done) => {
            let done: Gummy<Finished> = done;
            assert_eq!(done.task_id(), id);
            assert_eq!(done.api_key(), "key");
            let results = done.get_result();
            assert_eq!(results.len(), 1);
            assert_eq!(results[0].text, "only");
        }
        other => panic!("unexpected {:?}", other),
    }
}

#[test]
fn finish_of_a_running_task_sends_the_finish_message() {
    let session = converting();
    let id = session.task_id().to_string();
    match session.finish() {
        FinishStart::Send(waiting, message) => {
            assert_eq!(message.id(), id);
            assert_eq!(message.header.action, "finish-task");
            assert_eq!(waiting.api_key(), "key");
        }
        other => panic!("unexpected {:?}", other),
    }
}

#[test]
fn two_revisions_then_task_finished_leave_one_final_entry() {
    let session = converting();
    let id = session.task_id().to_string();
    let script = vec![
        result(&id, 0, "partial", false, None),
        result(&id, 0, "final text", true, None),
        finished(&id),
    ];
    match finishing(session).drain(&script) {
        FinishStep::Finished(done) => {
            let results = done.get_result();
            assert_eq!(results.len(), 1);
            assert_eq!(results[0].text, "final text");
            assert_eq!(done.task_id(), id);
        }
        other => panic!("not finished: {:?}", other),
    }
}

#[test]
fn finish_records_every_result_before_the_end() {
    let mut session = converting();
    let id = session.task_id().to_string();
    session.receive(&result(&id, 0, "a0", false, None)).unwrap();
    let script = vec![
        result(&id, 0, "a1", true, Some("A")),
        Received::Other,
        result("other", 0, "zz", false, None),
        result(&id, 1, "b0", false, None),
        result(&id, 2, "c0", false, Some("C")),
        result(&id, 1, "b1", true, Some("B")),
        result(&id, 2, "c1", true, None),
        finished("other"),
        finished(&id),
        result(&id, 3, "after the end", false, None),
    ];
    match finishing(session).drain(&script) {
        FinishStep::Finished(done) => {
            let results = done.get_result();
            assert_eq!(results.len(), 3);
            assert_eq!(results[0].text, "a1");
            assert_eq!(results[0].translated_text.as_deref(), Some("A"));
            assert_eq!(results[1].text, "b1");
            assert_eq!(results[1].translated_text.as_deref(), Some("B"));
            assert_eq!(results[2].text, "c1");
            assert_eq!(results[2].translated_text.as_deref(), Some("C"));
            assert_eq!(results[2].begin_time, 200);
            assert_eq!(results[2].end_time, 250);
        }
        other => panic!("not finished: {:?}", other),
    }
}

#[test]
fn advance_step_by_step_matches_drain() {
    let session = converting();
    let id = session.task_id().to_string();
    let mut waiting = finishing(session);
    for frame in [result(&id, 0, "x", false, None), Received::Other, result(&id, 1, "y", true, None)] {
        waiting = match waiting.advance(&frame) {
            FinishStep::Waiting(next) => next,
            other => panic!("not waiting: {:?}", other),
        };
    }
    match waiting.advance(&finished(&id)) {
        FinishStep::Finished(done) => {
            let results = done.get_result();
            assert_eq!(results.len(), 2);
            assert_eq!(results[0].text, "x");
            assert_eq!(results[1].text, "y");
        }
        other => panic!("not finished: {:?}", other),
    }
}

#[test]
fn channel_closed_during_finish_is_a_protocol_error() {
    let session = converting();
    let id = session.task_id().to_string();
    let script = vec![result(&id, 0, "seen", false, None), Received::Closed, finished(&id)];
    match finishing(session).drain(&script) {
        FinishStep::Failed(back, error) => {
            assert_eq!(error, GummyError::Protocol);
            let back: Gummy<Converting> = back;
            assert_eq!(back.task_id(), id);
            assert!(!back.is_finished());
            let snap = back.snapshot();
            assert_eq!(snap.len(), 1);
            assert_eq!(snap[0].text, "seen");
        }
        other => panic!("not failed: {:?}", other),
    }
}

#[test]
fn errors_during_finish_abort_it() {
    assert!(matches!(
        finishing(converting()).advance(&Received::Closed),
        FinishStep::Failed(_, GummyError::Protocol)
    ));
    assert!(matches!(
        finishing(converting()).advance(&Received::Failed),
        FinishStep::Failed(_, GummyError::Transport)
    ));
    assert!(matches!(
        finishing(converting()).advance(&Received::Text("[".to_string())),
        FinishStep::Failed(_, GummyError::MalformedMessage)
    ));
    let session = converting();
    let id = session.task_id().to_string();
    assert!(matches!(
        finishing(session).advance(&result(&id, 4, "gap", false, None)),
        FinishStep::Failed(_, GummyError::MalformedMessage)
    ));
    assert!(matches!(
        finishing(converting()).drain(&[Received::Other, failed("other")]),
        FinishStep::Waiting(_)
    ));
}

#[test]
fn task_failed_during_finish_is_passed_over() {
    let session = converting();
    let id = session.task_id().to_string();
    let waiting = match finishing(session).advance(&failed(&id)) {
        FinishStep::Waiting(next) => next,
        other => panic!("not waiting: {:?}", other),
    };
    let script = vec![
        result(&id, 0, "before", false, None),
        failed(&id),
        result(&id, 0, "after", true, Some("apres")),
        finished(&id),
    ];
    match waiting.drain(&script) {
        FinishStep::Finished(done) => {
            let results = done.get_result();
            assert_eq!(results.len(), 1);
            assert_eq!(results[0].text, "after");
            assert_eq!(results[0].translated_text.as_deref(), Some("apres"));
        }
        other => panic!("not finished: {:?}", other),
    }
}

#[test]
fn a_finished_session_starts_the_next_task_empty() {
    let session = converting();
    let first = session.task_id().to_string();
    let done = match finishing(session).drain(&[result(&first, 0, "old", true, None), finished(&first)]) {
        FinishStep::Finished(done) => done,
        other => panic!("not finished: {:?}", other),
    };
    assert_eq!(done.get_result().len(), 1);
    let (starting, message) = done.start(None, None, None, None);
    let second = starting.task_id().to_string();
    assert_eq!(message.id(), second);
    assert_ne!(first, second);
    let starting = waiting(starting.acknowledge(&started(&first)));
    match starting.acknowledge(&started(&second)) {
        StartStep::Started(mut session) => {
            assert_eq!(session.task_id(), second);
            assert!(!session.is_finished());
            assert!(session.snapshot().is_empty());
            assert!(session.receive(&result(&first, 0, "stale", false, None)).unwrap().is_empty());
        }
        other => panic!("not started: {:?}", other),
    }
}

#[test]
fn a_failed_restart_keeps_the_finished_results() {
    let session = converting();
    let first = session.task_id().to_string();
    let done = match finishing(session).drain(&[result(&first, 0, "old", true, None), finished(&first)]) {
        FinishStep::Finished(done) => done,
        other => panic!("not finished: {:?}", other),
    };
    let (starting, _) = done.start(None, None, None, None);
    match starting.acknowledge(&Received::Closed) {
        StartStep::Failed(back, error) => {
            assert_eq!(error, GummyError::Protocol);
            let back: Gummy<Finished> = back;
            assert_eq!(back.task_id(), first);
            let results = back.get_result();
            assert_eq!(results.len(), 1);
            assert_eq!(results[0].text, "old");
        }
        other => panic!("not failed: {:?}", other),
    }
}

#[test]
fn close_releases_any_phase() {
    assert_eq!(connected().close().api_key(), "key");
    assert_eq!(converting().close().api_key(), "key");
    assert_eq!(finishing(converting()).close().api_key(), "key");
    let (starting, _) = connected().start(None, None, None, None);
    let closed = starting.close();
    assert_eq!(closed.api_key(), "key");
    assert_eq!(connecting(closed, None).close().api_key(), "key");
}
