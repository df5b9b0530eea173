use rust_projects::chat::{classify, message_command, notice, quit_command, user_command, Input};
use rust_projects::dns::{respond as dns_respond, DnsHeader, HEADER_LEN, RESPONSE_FLAGS};
use rust_projects::ftp::respond as ftp_respond;
use rust_projects::reply::Reply;

#[test]
fn ftp_answers_user_and_pass() {
    let r = ftp_respond("USER anonymous");
    assert_eq!((r.reply.code, r.reply.text.as_str(), r.close), (331, "Username OK, need password", false));
    let r = ftp_respond("PASS secret");
    assert_eq!((r.reply.code, r.reply.text.as_str(), r.close), (230, "User logged in", false));
    let r = ftp_respond("USERS");
    assert_eq!(r.reply.code, 331);
    let r = ftp_respond("PASSWORD");
    assert_eq!(r.reply.code, 230);
}

#[test]
fn ftp_quit_is_the_only_line_that_closes() {
    let r = ftp_respond("QUIT");
    assert_eq!((r.reply.code, r.reply.text.as_str(), r.close), (221, "Goodbye", true));
    for line in ["QUIT now", "quit", "Quit", " QUIT", "", "LIST", "user x", "pass x"] {
        let r = ftp_respond(line);
        assert_eq!(r.reply.code, 502, "{:?}", line);
        assert_eq!(r.reply.text, "Command not implemented");
        assert!(!r.close);
    }
}

#[test]
fn ftp_replies_go_over_the_wire() {
    assert_eq!(Reply::welcome().wire_line(), "220 Welcome to Rust FTP server\r\n");
    assert_eq!(ftp_respond("USER a").reply.wire_line(), "331 Username OK, need password\r\n");
    assert_eq!(ftp_respond("NOOP").reply.wire_line(), "502 Command not implemented\r\n");
}

#[test]
fn dns_header_is_written_in_network_order() {
    let header = DnsHeader {
        id: 0x1234,
        flags: 0x8180,
        questions: 1,
        answer_rrs: 0x0102,
        authority_rrs: 0,
        additional_rrs: 0xffff,
    };
    assert_eq!(
        header.to_bytes(),
        vec![0x12, 0x34, 0x81, 0x80, 0x00, 0x01, 0x01, 0x02, 0x00, 0x00, 0xff, 0xff]
    );
    assert_eq!(header.to_bytes().len(), HEADER_LEN);
}

#[test]
fn dns_short_datagram_gets_no_response() {
    assert_eq!(dns_respond(&[]), None);
    assert_eq!(dns_respond(&[0u8; 11]), None);
    assert!(dns_respond(&[0u8; 12]).is_some());
}

#[test]
fn dns_response_repeats_id_and_questions() {
    let mut query = vec![0xab, 0xcd, 0x01, 0x00, 0x00, 0x02, 0, 0, 0, 0, 0, 0];
    query.extend_from_slice(b"\x07example\x03com\x00\x00\x01\x00\x01");
    let response = dns_respond(&query).expect("a response");
    let expected: Vec<u8> = vec![
        0xab, 0xcd, 0x81, 0x80, 0x00, 0x02, 0x00, 0x01, 0x00, 0x00, 0x00, 0x00,
        0x05, 0x6c, 0x6f, 0x63, 0x61, 0x6c, 0x68, 0x6f, 0x73, 0x74, 0x00,
        0x00, 0x01, 0x00, 0x01,
        0xc0, 0x0c, 0x00, 0x01, 0x00, 0x01,
        0x00, 0x00, 0x0e, 0x10, 0x00, 0x04,
        0x7f, 0x00, 0x00, 0x01,
    ];
    assert_eq!(response, expected);
    assert_eq!(response.len(), 43);
    assert_eq!(RESPONSE_FLAGS, 0x8180);
}

#[test]
fn chat_input_is_classified() {
    assert_eq!(classify(""), Input::Skip);
    assert_eq!(classify("/quit"), Input::Quit);
    assert_eq!(classify("/help"), Input::Help);
    assert_eq!(classify("/users"), Input::Send);
    assert_eq!(classify("/QUIT"), Input::Send);
    assert_eq!(classify("hello there"), Input::Send);
    assert_eq!(classify("/quit now"), Input::Send);
}

#[test]
fn chat_lines_for_the_server() {
    assert_eq!(user_command("alice"), "USER alice\n");
    assert_eq!(user_command(""), "USER \n");
    assert_eq!(message_command("hi all"), "MSG hi all\n");
    assert_eq!(quit_command(), "QUIT\n");
}

#[test]
fn chat_notices_from_the_server() {
    assert_eq!(notice("USERLIST alice bob  carol"), Some("\nOnline users: alice, bob, carol".to_string()));
    assert_eq!(notice("USERLIST"), Some("\nOnline users: ".to_string()));
    assert_eq!(notice("USERLISTING x"), Some("\nOnline users: x".to_string()));
    assert_eq!(notice("ERROR no such user"), Some("Server error: ERROR no such user".to_string()));
    assert_eq!(notice("INFO welcome"), Some("Server: INFO welcome".to_string()));
    assert_eq!(notice("MSG bob hi"), None);
    assert_eq!(notice("error lower"), None);
    assert_eq!(notice(""), None);
}
