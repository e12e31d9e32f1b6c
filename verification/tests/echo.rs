use echo_service::echo::digest_handler;
use echo_service::echo::handle_request;
use echo_service::echo::refusal_text;
use echo_service::echo::wants_hash;
use echo_service::echo::Input;
use echo_service::echo::Output;
use echo_service::echo::Response;
use echo_service::echo::STATUS_BAD_REQUEST;
use echo_service::echo::STATUS_OK;
use echo_service::upstream::serve;
use echo_service::upstream::wanted;
use echo_service::upstream::HashError;
use echo_service::upstream::Session;
use std::cell::Cell;

const HI_HEX: &str = "8f434346648f6b96df89dda901c5176b10a6d83961dd3c1ac88b59b2dc327aa4";

fn input(message: &str) -> Input {
    Input { message: String::from(message) }
}

/// The upstream resource in memory: one frame in, one digest out.
fn upstream(frame: Vec<u8>) -> Result<[u8; 32], String> {
    let (prefix, rest) = frame.split_at(wanted(Session::Length));
    let awaiting = serve(Session::Length, prefix).next;
    serve(awaiting, rest).reply.ok_or(String::from("upstream closed the connection"))
}

#[test]
fn only_the_hash_path_asks_for_a_digest() {
    assert!(wants_hash("/hash"));
    assert!(!wants_hash("/"));
    assert!(!wants_hash("/hash/"));
    assert!(!wants_hash("/Hash"));
    assert!(!wants_hash("hash"));
    assert!(!wants_hash(""));
}

#[test]
fn hash_path_answers_with_the_digest_in_hex() {
    let output = digest_handler("/hash", input("hi"), upstream).unwrap();
    assert_eq!(
        output,
        Output { message: String::from("hi"), hash: Some(String::from(HI_HEX)) }
    );
    let hash = output.hash.unwrap();
    assert_eq!(hash.len(), 64);
    assert!(hash.chars().all(|c| c.is_ascii_digit() || ('a'..='f').contains(&c)));
}

#[test]
fn hex_keeps_leading_zeros_and_uses_lowercase() {
    let mut digest = [0u8; 32];
    digest[0] = 0x0a;
    digest[1] = 0xf0;
    digest[31] = 0xff;
    let output: Output = digest_handler("/hash", input("x"), |_frame| Ok::<_, String>(digest)).unwrap();
    let hash = output.hash.unwrap();
    assert_eq!(&hash[..4], "0af0");
    assert_eq!(&hash[4..62], "0".repeat(58));
    assert_eq!(&hash[62..], "ff");
}

#[test]
fn any_other_path_echoes_without_a_digest() {
    let asked = Cell::new(false);
    let output = digest_handler("/echo", input("hi"), |_frame| {
        asked.set(true);
        Err(String::from("never"))
    })
    .unwrap();
    assert_eq!(output, Output { message: String::from("hi"), hash: None });
    assert!(!asked.get());
}

#[test]
fn oversize_message_is_refused_with_a_client_error() {
    let asked = Cell::new(false);
    let result = digest_handler("/hash", input(&"a".repeat(65536)), |_frame| {
        asked.set(true);
        Ok::<_, String>([0u8; 32])
    });
    assert_eq!(result, Err(HashError::TooLong));
    assert!(!asked.get());

    let text = refusal_text(result.unwrap_err(), |e| e);
    assert_eq!(text, "Message length exceeds 65535 bytes");
    let response = handle_request(Err(text));
    assert_eq!(response.status, 400);
    assert_eq!(response.body, b"Message length exceeds 65535 bytes".to_vec());
}

#[test]
fn message_length_counts_bytes_not_characters() {
    let message = "\u{e9}".repeat(32768);
    assert_eq!(message.chars().count(), 32768);
    let result = digest_handler("/hash", input(&message), upstream);
    assert_eq!(result, Err(HashError::TooLong));
}

#[test]
fn oversize_message_is_echoed_where_no_digest_is_asked() {
    let message = "a".repeat(65536);
    let output = digest_handler("/", input(&message), upstream).unwrap();
    assert_eq!(output.message, message);
    assert_eq!(output.hash, None);
}

#[test]
fn longest_message_is_hashed() {
    let output = digest_handler("/hash", input(&"a".repeat(65535)), upstream).unwrap();
    assert_eq!(output.hash.unwrap().len(), 64);
}

#[test]
fn exchange_failure_is_passed_on() {
    let result = digest_handler("/hash", input("hi"), |_frame| Err(String::from("timed out")));
    assert_eq!(result, Err(HashError::Exchange(String::from("timed out"))));
    let text = refusal_text(result.unwrap_err(), |e| format!("upstream: {}", e));
    assert_eq!(text, "upstream: timed out");
}

#[test]
fn answer_is_sent_as_it_is() {
    let response = handle_request(Ok(b"{\"message\":\"hi\",\"hash\":null}".to_vec()));
    assert_eq!(
        response,
        Response { status: 200, body: b"{\"message\":\"hi\",\"hash\":null}".to_vec() }
    );
    assert_eq!(STATUS_OK, 200);
}

#[test]
fn failure_becomes_a_bad_request() {
    let response = handle_request(Err(String::from("expected value at line 1 column 1")));
    assert_eq!(response.status, STATUS_BAD_REQUEST);
    assert_eq!(STATUS_BAD_REQUEST, 400);
    assert_eq!(response.body, b"expected value at line 1 column 1".to_vec());
}

#[test]
fn end_to_end_hash_request_and_plain_request() {
    let hashed = digest_handler("/hash", input("hi"), upstream).unwrap();
    let expected = hex::encode(upstream(vec![2, 0, b'h', b'i']).unwrap());
    assert_eq!(hashed.message, "hi");
    assert_eq!(hashed.hash, Some(expected));

    let plain = digest_handler("/anything", input("hi"), upstream).unwrap();
    assert_eq!(plain.message, "hi");
    assert_eq!(plain.hash, None);
}
