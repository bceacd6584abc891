//! The control socket's lines and answers.

use aurisd::ctl_proto::{Request, Response};
use aurisd::ctl_server::{
    accept_is_transient, default_socket, is_blank, queue_refusal, queued_answer, serve_request,
    too_long_answer, AcceptFault, Line, LineReader, Serving, MAX_LINE,
};
use aurisd::state::NoiseControlMode;

fn refused(text: &str) -> Response {
    Response::Ack {
        ok: false,
        error: Some(text.to_owned()),
    }
}

#[test]
fn a_line_may_come_in_pieces() {
    let mut reader = LineReader::new();
    assert_eq!(reader.feed(b"{\"cmd\""), (Line::More, 6));
    assert_eq!(
        reader.feed(b":\"status\"}\n{\"cmd\""),
        (Line::Got("{\"cmd\":\"status\"}".into()), 11)
    );
    assert_eq!(reader.feed(b"rest"), (Line::More, 4));
    assert_eq!(reader.feed(b""), (Line::Got("rest".into()), 0));
    assert_eq!(reader.feed(b""), (Line::Eof, 0));
}

#[test]
fn how_a_line_is_cut_does_not_matter() {
    let bytes = b"one line\nmore";
    for cut in 1..8 {
        let mut pieces = LineReader::new();
        assert_eq!(pieces.feed(&bytes[..cut]), (Line::More, cut));
        let (line, _) = pieces.feed(&bytes[cut..]);
        assert_eq!(line, LineReader::new().feed(bytes).0, "{cut}");
    }
}

#[test]
fn a_line_past_the_limit_is_refused_and_one_at_the_limit_is_not() {
    let full = vec![b'a'; MAX_LINE];
    let mut reader = LineReader::new();
    assert_eq!(reader.feed(&full), (Line::More, MAX_LINE));
    assert_eq!(reader.feed(b"a"), (Line::TooLong, 0));
    assert_eq!(reader.feed(b"\n"), (Line::Got("a".repeat(MAX_LINE)), 1));

    let over = vec![b'a'; MAX_LINE + 1];
    assert_eq!(LineReader::new().feed(&over), (Line::TooLong, 0));
    assert_eq!(too_long_answer(), refused("request too long"));
}

#[test]
fn bytes_that_are_no_text_are_replaced() {
    let mut reader = LineReader::new();
    assert_eq!(
        reader.feed(b"a\xffb\n"),
        (Line::Got("a\u{fffd}b".into()), 4)
    );
}

#[test]
fn only_a_foreign_accept_fault_ends_the_server() {
    for fault in [
        AcceptFault::ProcessFiles,
        AcceptFault::SystemFiles,
        AcceptFault::Aborted,
        AcceptFault::Interrupted,
        AcceptFault::WouldBlock,
    ] {
        assert!(accept_is_transient(fault), "{fault:?}");
    }
    assert!(!accept_is_transient(AcceptFault::Other));
}

#[test]
fn status_and_subscribe_never_reach_the_supervisor() {
    assert_eq!(serve_request(Ok(Request::Status)), Serving::Status);
    assert_eq!(serve_request(Ok(Request::Subscribe)), Serving::Stream);
    let write = Request::SetNoiseControl {
        value: NoiseControlMode::Anc,
    };
    assert_eq!(serve_request(Ok(write.clone())), Serving::Dispatch(write));
    assert_eq!(
        serve_request(Err("expected value".into())),
        Serving::Refuse("bad request: expected value".into())
    );
    assert!(is_blank(" \t"));
    assert!(!is_blank(" {"));
}

#[test]
fn a_request_that_is_not_answered_is_answered_why() {
    assert_eq!(queue_refusal(Some(true)), None);
    assert_eq!(queue_refusal(Some(false)), Some(refused("daemon is shutting down")));
    assert_eq!(queue_refusal(None), Some(refused("request expired before queueing")));
    assert_eq!(queued_answer(Some(Some(Response::ok()))), Response::ok());
    assert_eq!(queued_answer(Some(None)), refused("daemon dropped the request"));
    assert_eq!(
        queued_answer(None),
        refused("request timed out; an already-sent operation may still complete; no automatic retry")
    );
    assert_eq!(default_socket("/run/user/1000/aurisd"), "/run/user/1000/aurisd/ctl.sock");
}
