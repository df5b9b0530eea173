use rust_projects::smtp::command::{extract_address, parse_command, Verb};
use rust_projects::smtp::driver::{on_event, run_lines, serve, Event};
use rust_projects::smtp::envelope::Envelope;
use rust_projects::reply::Reply;
use rust_projects::smtp::session::{Session, State};

fn lines(texts: &[&str]) -> Vec<String> {
    texts.iter().map(|t| t.to_string()).collect()
}

fn code_of(reply: &Option<Reply>) -> u16 {
    reply.as_ref().expect("a reply").code
}

fn session_in(state: State) -> Session {
    let mut session = Session::new();
    let script: &[&str] = match state {
        State::Initial => &[],
        State::Greeted => &["HELO client"],
        State::SenderSet => &["HELO client", "MAIL FROM:<a@x>"],
        State::RecipientSet => &["HELO client", "MAIL FROM:<a@x>", "RCPT TO:<b@x>"],
        State::ReceivingBody => &["HELO client", "MAIL FROM:<a@x>", "RCPT TO:<b@x>", "DATA"],
        State::Closed => &["QUIT"],
    };
    for line in script {
        session.handle_line(line);
    }
    assert_eq!(session.state(), state);
    session
}

#[test]
fn full_sequence_delivers_once_and_resets() {
    let mut session = Session::new();
    let script = lines(&[
        "HELO client",
        "MAIL FROM:<a@x>",
        "RCPT TO:<b@x>",
        "RCPT TO:<c@x>",
        "DATA",
        "hello",
        "world",
        ".",
    ]);
    let transcript = run_lines(&mut session, &script);
    assert_eq!(transcript.delivered.len(), 1);
    let message = &transcript.delivered[0];
    assert_eq!(message.sender, "a@x");
    assert_eq!(message.recipients, vec!["b@x".to_string(), "c@x".to_string()]);
    assert_eq!(message.body, "hello\nworld");
    assert_eq!(session.state(), State::Greeted);
    assert!(session.envelope().is_empty());
    assert_eq!(session.envelope().sender(), &None);
    assert!(session.envelope().recipients().is_empty());
    assert!(session.envelope().body_lines().is_empty());
    let codes: Vec<u16> = transcript.replies.iter().map(|r| r.code).collect();
    assert_eq!(codes, vec![250, 250, 250, 250, 354, 250]);
    assert_eq!(transcript.replies[0].text, "localhost Hello");
    assert_eq!(transcript.replies[1].text, "OK");
    assert_eq!(transcript.replies[4].text, "End data with <CR><LF>.<CR><LF>");
    assert_eq!(transcript.replies[5].text, "OK: Message accepted");
}

#[test]
fn recipients_keep_count_and_order() {
    let mut session = session_in(State::SenderSet);
    let names = ["one@x", "two@x", "one@x", "three@x", "four@x"];
    for (i, name) in names.iter().enumerate() {
        let line = format!("RCPT TO:<{}>", name);
        let outcome = session.handle_line(&line);
        assert_eq!(code_of(&outcome.reply), 250);
        assert!(outcome.delivered.is_none());
        assert_eq!(session.state(), State::RecipientSet);
        assert_eq!(session.envelope().recipients().len(), i + 1);
    }
    let expected: Vec<String> = names.iter().map(|n| n.to_string()).collect();
    assert_eq!(session.envelope().recipients(), &expected);
}

#[test]
fn data_before_recipient_is_bad_sequence() {
    for state in [State::Greeted, State::SenderSet] {
        let mut session = session_in(state);
        let outcome = session.handle_line("DATA");
        let reply = outcome.reply.expect("a reply");
        assert_eq!(reply.code, 503);
        assert_eq!(reply.text, "Bad sequence of commands");
        assert!(outcome.delivered.is_none());
        assert_eq!(session.state(), state);
    }
}

#[test]
fn data_before_greeting_is_syntax_error() {
    let mut session = Session::new();
    let outcome = session.handle_line("DATA");
    let reply = outcome.reply.expect("a reply");
    assert_eq!(reply.code, 500);
    assert_eq!(reply.text, "Syntax error, command unrecognized");
    assert_eq!(session.state(), State::Initial);
}

#[test]
fn data_inside_body_is_body_text() {
    let mut session = session_in(State::ReceivingBody);
    let outcome = session.handle_line("DATA");
    assert!(outcome.reply.is_none());
    assert!(outcome.delivered.is_none());
    assert_eq!(session.state(), State::ReceivingBody);
    assert_eq!(session.envelope().body_lines(), &vec!["DATA".to_string()]);
}

#[test]
fn recipient_right_after_hand_off_is_refused() {
    let mut session = session_in(State::ReceivingBody);
    session.handle_line("text");
    let outcome = session.handle_line(".");
    assert_eq!(code_of(&outcome.reply), 250);
    assert!(outcome.delivered.is_some());
    let outcome = session.handle_line("RCPT TO:<d@x>");
    assert_eq!(code_of(&outcome.reply), 503);
    assert!(outcome.delivered.is_none());
    assert_eq!(session.state(), State::Greeted);
    assert!(session.envelope().is_empty());
}

#[test]
fn stream_end_in_body_delivers_nothing() {
    let script = lines(&["HELO c", "MAIL FROM:<a@x>", "RCPT TO:<b@x>", "DATA", "half a message"]);
    let transcript = serve(&script);
    assert!(transcript.delivered.is_empty());
    let codes: Vec<u16> = transcript.replies.iter().map(|r| r.code).collect();
    assert_eq!(codes, vec![220, 250, 250, 250, 354]);

    let mut session = session_in(State::ReceivingBody);
    session.handle_line("half a message");
    session.disconnect();
    assert_eq!(session.state(), State::Closed);
    assert!(session.is_closed());
    assert!(session.envelope().is_empty());
}

#[test]
fn quit_closes_from_every_command_state() {
    for state in [State::Initial, State::Greeted, State::SenderSet, State::RecipientSet] {
        let mut session = session_in(state);
        let script = lines(&["QUIT", "HELO again", "MAIL FROM:<a@x>", "QUIT"]);
        let transcript = run_lines(&mut session, &script);
        assert_eq!(transcript.replies.len(), 1);
        assert_eq!(transcript.replies[0].code, 221);
        assert_eq!(transcript.replies[0].text, "Bye");
        assert!(transcript.delivered.is_empty());
        assert_eq!(session.state(), State::Closed);
        assert!(session.envelope().is_empty());
    }
}

#[test]
fn quit_inside_body_is_body_text() {
    let mut session = session_in(State::ReceivingBody);
    let outcome = session.handle_line("QUIT");
    assert!(outcome.reply.is_none());
    assert_eq!(session.state(), State::ReceivingBody);
}

#[test]
fn closed_session_ignores_lines() {
    let mut session = session_in(State::Closed);
    let outcome = session.handle_line("HELO x");
    assert!(outcome.reply.is_none());
    assert!(outcome.delivered.is_none());
    assert_eq!(session.state(), State::Closed);
}

#[test]
fn body_round_trip_keeps_lines_verbatim() {
    let mut session = session_in(State::ReceivingBody);
    let body = ["", "  indented", "..", ". ", "MAIL FROM:<z@x>", "tab\there", "last"];
    for line in body {
        let outcome = session.handle_line(line);
        assert!(outcome.reply.is_none());
        assert!(outcome.delivered.is_none());
    }
    let outcome = session.handle_line(".");
    let message = outcome.delivered.expect("a message");
    assert_eq!(message.body, "\n  indented\n..\n. \nMAIL FROM:<z@x>\ntab\there\nlast");
    let back: Vec<&str> = message.body.split('\n').collect();
    assert_eq!(back, body.to_vec());
}

#[test]
fn empty_body_is_delivered_empty() {
    let mut session = session_in(State::ReceivingBody);
    let message = session.handle_line(".").delivered.expect("a message");
    assert_eq!(message.body, "");
    assert_eq!(message.sender, "a@x");
    assert_eq!(message.recipients, vec!["b@x".to_string()]);
}

#[test]
fn verbs_ignore_case() {
    let mut session = Session::new();
    assert_eq!(code_of(&session.handle_line("ehlo there").reply), 250);
    assert_eq!(code_of(&session.handle_line("mail from:<a@x>").reply), 250);
    assert_eq!(code_of(&session.handle_line("Rcpt To:<b@x>").reply), 250);
    assert_eq!(code_of(&session.handle_line("data").reply), 354);
    assert_eq!(session.state(), State::ReceivingBody);
    assert!(session.handle_line(".").delivered.is_some());
    assert_eq!(code_of(&session.handle_line("quit").reply), 221);
    assert_eq!(session.state(), State::Closed);
}

#[test]
fn unknown_lines_never_change_state() {
    let cases = [
        (State::Initial, 500),
        (State::Greeted, 503),
        (State::SenderSet, 503),
        (State::RecipientSet, 503),
    ];
    for (state, code) in cases {
        for line in ["NOOP", "", "HEL", "MAIL FROM", "RCPT TO", "DATA now", "QUIT now", "."] {
            let mut session = session_in(state);
            let before = session.envelope().recipients().clone();
            let outcome = session.handle_line(line);
            assert_eq!(code_of(&outcome.reply), code, "{:?} {:?}", state, line);
            assert_eq!(session.state(), state);
            assert_eq!(session.envelope().recipients(), &before);
        }
    }
}

#[test]
fn out_of_order_commands_are_refused() {
    let mut session = session_in(State::Initial);
    assert_eq!(code_of(&session.handle_line("MAIL FROM:<a@x>").reply), 500);
    let mut session = session_in(State::Greeted);
    assert_eq!(code_of(&session.handle_line("HELO again").reply), 503);
    assert_eq!(code_of(&session.handle_line("RCPT TO:<b@x>").reply), 503);
    let mut session = session_in(State::SenderSet);
    assert_eq!(code_of(&session.handle_line("MAIL FROM:<other@x>").reply), 503);
    assert_eq!(session.envelope().sender(), &Some("a@x".to_string()));
    let mut session = session_in(State::RecipientSet);
    assert_eq!(code_of(&session.handle_line("MAIL FROM:<other@x>").reply), 503);
    assert_eq!(code_of(&session.handle_line("HELO again").reply), 503);
    assert_eq!(session.state(), State::RecipientSet);
}

#[test]
fn empty_address_is_malformed() {
    for line in ["MAIL FROM:", "MAIL FROM:<>", "MAIL FROM:<", "MAIL FROM:>"] {
        let mut session = session_in(State::Greeted);
        assert_eq!(code_of(&session.handle_line(line).reply), 503, "{:?}", line);
        assert_eq!(session.state(), State::Greeted);
        assert_eq!(session.envelope().sender(), &None);
    }
    for line in ["RCPT TO:", "RCPT TO:<>", "RCPT TO:<", "RCPT TO:>"] {
        let mut session = session_in(State::SenderSet);
        assert_eq!(code_of(&session.handle_line(line).reply), 503, "{:?}", line);
        assert_eq!(session.state(), State::SenderSet);
        assert!(session.envelope().recipients().is_empty());
        let mut session = session_in(State::RecipientSet);
        assert_eq!(code_of(&session.handle_line(line).reply), 503, "{:?}", line);
        assert_eq!(session.envelope().recipients().len(), 1);
    }
}

#[test]
fn address_loses_one_bracket_on_each_side() {
    assert_eq!(extract_address("<a@x>"), "a@x");
    assert_eq!(extract_address("a@x"), "a@x");
    assert_eq!(extract_address("<a@x"), "a@x");
    assert_eq!(extract_address("a@x>"), "a@x");
    assert_eq!(extract_address("<<a@x>>"), "<a@x>");
    assert_eq!(extract_address(" <a@x>"), " <a@x");
    assert_eq!(extract_address("<>"), "");
    assert_eq!(extract_address("<"), "");
    assert_eq!(extract_address(">"), "");
    assert_eq!(extract_address(""), "");
    assert_eq!(extract_address("<é@x>"), "é@x");
}

#[test]
fn commands_are_read_with_their_arguments() {
    let c = parse_command("HELO client.example");
    assert_eq!((c.verb, c.argument), (Verb::Greet, " client.example"));
    let c = parse_command("ehlo");
    assert_eq!((c.verb, c.argument), (Verb::Greet, ""));
    let c = parse_command("MAIL FROM:<a@x>");
    assert_eq!((c.verb, c.argument), (Verb::SetSender, "<a@x>"));
    let c = parse_command("rcpt to: b@x");
    assert_eq!((c.verb, c.argument), (Verb::AddRecipient, " b@x"));
    let c = parse_command("DaTa");
    assert_eq!((c.verb, c.argument), (Verb::BeginBody, ""));
    let c = parse_command("Quit");
    assert_eq!((c.verb, c.argument), (Verb::Quit, ""));
    let c = parse_command("DATA ");
    assert_eq!((c.verb, c.argument), (Verb::Unknown, "DATA "));
    let c = parse_command("VRFY someone");
    assert_eq!((c.verb, c.argument), (Verb::Unknown, "VRFY someone"));
    let c = parse_command("");
    assert_eq!((c.verb, c.argument), (Verb::Unknown, ""));
}

#[test]
fn replies_go_over_the_wire_with_their_delimiter() {
    assert_eq!(Reply::banner().wire_line(), "220 localhost ESMTP Rust SMTP Server\r\n");
    assert_eq!(Reply::hello().wire_line(), "250 localhost Hello\r\n");
    assert_eq!(Reply::ok().wire_line(), "250 OK\r\n");
    assert_eq!(Reply::accepted().wire_line(), "250 OK: Message accepted\r\n");
    assert_eq!(Reply::start_body().wire_line(), "354 End data with <CR><LF>.<CR><LF>\r\n");
    assert_eq!(Reply::bye().wire_line(), "221 Bye\r\n");
    assert_eq!(
        Reply::syntax_error().wire_line(),
        "500 Syntax error, command unrecognized\r\n"
    );
    assert_eq!(Reply::bad_sequence().wire_line(), "503 Bad sequence of commands\r\n");
    let odd = Reply { code: 907, text: String::new() };
    assert_eq!(odd.wire_line(), "907 \r\n");
}

#[test]
fn envelope_gathers_and_finalizes() {
    let mut envelope = Envelope::new();
    assert!(envelope.is_empty());
    assert!(envelope.finalize().is_none());
    envelope.add_recipient("b@x".to_string());
    assert!(!envelope.is_empty());
    assert!(envelope.finalize().is_none());
    assert!(envelope.is_empty());
    envelope.set_sender("a@x".to_string());
    envelope.add_recipient("b@x".to_string());
    envelope.add_recipient("b@x".to_string());
    envelope.push_body_line("one".to_string());
    envelope.push_body_line("two".to_string());
    assert_eq!(envelope.sender(), &Some("a@x".to_string()));
    assert_eq!(envelope.body_lines().len(), 2);
    let message = envelope.finalize().expect("a message");
    assert_eq!(message.sender, "a@x");
    assert_eq!(message.recipients, vec!["b@x".to_string(), "b@x".to_string()]);
    assert_eq!(message.body, "one\ntwo");
    assert!(envelope.is_empty());
    envelope.set_sender("a@x".to_string());
    envelope.clear();
    assert!(envelope.is_empty());
}

#[test]
fn two_messages_on_one_connection() {
    let script = lines(&[
        "HELO c",
        "MAIL FROM:<a@x>",
        "RCPT TO:<b@x>",
        "DATA",
        "first",
        ".",
        "MAIL FROM:<c@x>",
        "RCPT TO:<d@x>",
        "DATA",
        "second",
        ".",
        "QUIT",
        "HELO ignored",
    ]);
    let transcript = serve(&script);
    assert_eq!(transcript.delivered.len(), 2);
    assert_eq!(transcript.delivered[0].sender, "a@x");
    assert_eq!(transcript.delivered[0].body, "first");
    assert_eq!(transcript.delivered[1].sender, "c@x");
    assert_eq!(transcript.delivered[1].recipients, vec!["d@x".to_string()]);
    assert_eq!(transcript.delivered[1].body, "second");
    let codes: Vec<u16> = transcript.replies.iter().map(|r| r.code).collect();
    assert_eq!(codes, vec![220, 250, 250, 250, 354, 250, 250, 250, 354, 250, 221]);
}

#[test]
fn events_other_than_lines_end_the_session_silently() {
    for event in [Event::EndOfStream, Event::Failed] {
        for state in [
            State::Initial,
            State::Greeted,
            State::SenderSet,
            State::RecipientSet,
            State::ReceivingBody,
            State::Closed,
        ] {
            let mut session = session_in(state);
            let outcome = on_event(&mut session, event);
            assert!(outcome.reply.is_none());
            assert!(outcome.delivered.is_none());
            assert_eq!(session.state(), State::Closed);
            assert!(session.envelope().is_empty());
        }
    }
}

#[test]
fn line_events_are_processed_as_lines() {
    let mut session = session_in(State::ReceivingBody);
    assert!(on_event(&mut session, Event::Line("body")).reply.is_none());
    let outcome = on_event(&mut session, Event::Line("."));
    assert_eq!(code_of(&outcome.reply), 250);
    assert_eq!(outcome.delivered.expect("a message").body, "body");
    let outcome = on_event(&mut session, Event::Line("QUIT"));
    assert_eq!(code_of(&outcome.reply), 221);
    assert!(session.is_closed());
}

#[test]
fn run_stops_at_the_first_quit() {
    let mut session = Session::new();
    let script = lines(&["NOOP", "QUIT", "HELO x", "QUIT"]);
    let transcript = run_lines(&mut session, &script);
    let codes: Vec<u16> = transcript.replies.iter().map(|r| r.code).collect();
    assert_eq!(codes, vec![500, 221]);
    let transcript = run_lines(&mut session, &script);
    assert!(transcript.replies.is_empty());
    let transcript = run_lines(&mut Session::new(), &Vec::new());
    assert!(transcript.replies.is_empty());
    assert!(transcript.delivered.is_empty());
}
