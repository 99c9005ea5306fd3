use aikosh_backend::models::ChatRequest;
use aikosh_backend::models::upstream_request_of;
use aikosh_backend::relay::RelayStream;
use aikosh_backend::relay::UpstreamReply;
use aikosh_backend::relay::connect_failure_message;
use aikosh_backend::relay::parse_failure_message;
use aikosh_backend::relay::plan_chunks;
use aikosh_backend::relay::unavailable_message;
use aikosh_backend::text::split_words;

fn drain(mut stream: RelayStream) -> Vec<String> {
    let mut out: Vec<String> = Vec::new();
    while let Some(chunk) = stream.emit_next() {
        out.push(chunk);
    }
    assert!(stream.is_closed());
    out
}

fn answer(text: &str) -> UpstreamReply {
    UpstreamReply::Response { status: 200, answer: Some(text.to_string()) }
}

#[test]
fn hello_world_chunks() {
    let chunks = plan_chunks(answer("hello world"));
    assert_eq!(chunks, vec!["hello".to_string(), " world".to_string()]);
    let joined: String = chunks.concat();
    assert_eq!(joined, "hello world");
}

#[test]
fn empty_answer_yields_no_chunks() {
    let chunks = plan_chunks(answer(""));
    assert_eq!(chunks.len(), 0);
    let stream = RelayStream::start(answer(""));
    assert!(stream.is_closed());
    assert!(!stream.heartbeat_due());
    assert_eq!(drain(stream).len(), 0);
}

#[test]
fn blank_answer_yields_no_chunks() {
    let chunks = plan_chunks(answer(" \t\n  \u{00A0}"));
    assert_eq!(chunks.len(), 0);
}

#[test]
fn timeout_yields_single_connect_failure_chunk() {
    let chunks = plan_chunks(UpstreamReply::NoResponse);
    assert_eq!(chunks, vec![connect_failure_message()]);
    let stream = RelayStream::start(UpstreamReply::NoResponse);
    let out = drain(stream);
    assert_eq!(out, vec![connect_failure_message()]);
}

#[test]
fn bad_status_yields_single_unavailable_chunk() {
    let reply = UpstreamReply::Response { status: 503, answer: Some("ignored body".to_string()) };
    let chunks = plan_chunks(reply);
    assert_eq!(chunks, vec![unavailable_message()]);
    let reply_no_body = UpstreamReply::Response { status: 503, answer: None };
    assert_eq!(plan_chunks(reply_no_body), vec![unavailable_message()]);
}

#[test]
fn unreadable_body_yields_single_parse_failure_chunk() {
    let reply = UpstreamReply::Response { status: 200, answer: None };
    let chunks = plan_chunks(reply);
    assert_eq!(chunks, vec![parse_failure_message()]);
}

#[test]
fn stream_emits_chunks_in_order_then_closes() {
    let mut stream = RelayStream::start(answer("a quick test"));
    assert!(!stream.is_closed());
    assert!(stream.heartbeat_due());
    assert_eq!(stream.emit_next(), Some("a".to_string()));
    assert!(stream.heartbeat_due());
    assert_eq!(stream.emit_next(), Some(" quick".to_string()));
    assert_eq!(stream.emit_next(), Some(" test".to_string()));
    assert!(stream.is_closed());
    assert!(!stream.heartbeat_due());
    assert_eq!(stream.emit_next(), None);
    assert_eq!(stream.emit_next(), None);
}

#[test]
fn concatenation_normalizes_whitespace() {
    let chunks = plan_chunks(answer("  hello\t\tbig \n world  "));
    assert_eq!(
        chunks,
        vec!["hello".to_string(), " big".to_string(), " world".to_string()]
    );
    let joined: String = chunks.concat();
    assert_eq!(joined, "hello big world");
}

#[test]
fn split_words_matches_std_split_whitespace() {
    for text in [
        "hello world",
        "",
        "   ",
        "one",
        " leading",
        "trailing ",
        "a  b\tc\nd",
        "\u{3000}wide\u{2003}gaps\u{00A0}",
    ] {
        let expected: Vec<String> = text.split_whitespace().map(|w| w.to_string()).collect();
        assert_eq!(split_words(text), expected, "tokens of {:?}", text);
    }
}

#[test]
fn upstream_question_is_verbatim() {
    let req = ChatRequest { message: " what is  AIKosh? ".to_string() };
    let up = upstream_request_of(req);
    assert_eq!(up.question, " what is  AIKosh? ");
}

#[test]
fn success_status_range_bounds() {
    for status in [200u16, 204, 299] {
        let chunks = plan_chunks(UpstreamReply::Response {
            status,
            answer: Some("ok".to_string()),
        });
        assert_eq!(chunks, vec!["ok".to_string()]);
    }
    for status in [199u16, 300, 404, 500] {
        let chunks = plan_chunks(UpstreamReply::Response {
            status,
            answer: Some("ok".to_string()),
        });
        assert_eq!(chunks, vec![unavailable_message()]);
    }
}
