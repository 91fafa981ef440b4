use phalanx::client::{
    format_path, Client, ContentType, ErrorKind, Payload, PhalanxClientError, PhalanxResponse,
};
use phalanx::server::UnitResponder;
use phalanx::text::{contains_text, decimal_text, push_joined, push_terminated, same_text};
use phalanx::web::Json;

fn texts(items: &[&str]) -> Vec<String> {
    items.iter().map(|s| s.to_string()).collect()
}

fn response(status: u16, body: &[u8]) -> PhalanxResponse {
    PhalanxResponse { status, body: body.to_vec() }
}

#[test]
fn client_joins_base_and_path() {
    let client = Client::url("http://localhost:8080");
    assert_eq!(client.url, "http://localhost:8080");
    assert_eq!(client.format_url("/foo"), "http://localhost:8080/foo");
    assert_eq!(client.format_url(""), "http://localhost:8080");
    assert_eq!(Client::new("a".to_string()).format_url("b"), "ab");
    assert_eq!(Client::from("http://h".to_string()), Client::url("http://h"));
}

#[test]
fn content_type_header_values() {
    assert_eq!(ContentType::TEXT_PLAIN.header_value(), "text/plain");
    assert_eq!(ContentType::APPLICATION_JSON.header_value(), "application/json");
    assert_eq!(ContentType::from(&"anything".to_string()), ContentType::TEXT_PLAIN);
}

#[test]
fn payload_kinds_choose_content_type_and_bytes() {
    let text = Payload::Text("hi".to_string());
    assert_eq!(text.content_type(), ContentType::TEXT_PLAIN);
    assert_eq!(text.into_bytes(), b"hi".to_vec());
    let json = Payload::Json(b"[1]".to_vec());
    assert_eq!(json.content_type(), ContentType::APPLICATION_JSON);
    assert_eq!(json.into_bytes(), b"[1]".to_vec());
}

#[test]
fn path_is_built_by_literal_replacement() {
    assert_eq!(
        format_path("/{id}/{name}/index.html", &texts(&["id", "name"]), &texts(&["0", "World"])),
        Some("/0/World/index.html".to_string())
    );
    assert_eq!(format_path("/{path}", &texts(&["path"]), &texts(&["7"])), Some("/7".to_string()));
    assert_eq!(format_path("/", &vec![], &vec![]), Some("/".to_string()));
    assert_eq!(format_path("", &vec![], &vec![]), Some(String::new()));
}

#[test]
fn path_keeps_what_is_no_placeholder_of_a_name() {
    assert_eq!(
        format_path("/{a}/{b}/{a", &texts(&["a"]), &texts(&["1"])),
        Some("/1/{b}/{a".to_string())
    );
    assert_eq!(format_path("/{{a}}", &texts(&["a"]), &texts(&["x"])), Some("/{x}".to_string()));
    assert_eq!(format_path("/{ab}", &texts(&["a"]), &texts(&["x"])), Some("/{ab}".to_string()));
    assert_eq!(format_path("é{a}é", &texts(&["a"]), &texts(&["ü"])), Some("éüé".to_string()));
}

#[test]
fn path_values_are_not_read_again() {
    assert_eq!(
        format_path("/{a}/{b}", &texts(&["a", "b"]), &texts(&["{b}", "2"])),
        Some("/{b}/2".to_string())
    );
    assert_eq!(format_path("{a}{a}", &texts(&["a"]), &texts(&["{a}"])), Some("{a}{a}".to_string()));
}

#[test]
fn path_takes_the_first_of_equal_names() {
    assert_eq!(
        format_path("/{a}", &texts(&["a", "a"]), &texts(&["1", "2"])),
        Some("/1".to_string())
    );
}

#[test]
fn path_needs_one_value_for_each_name() {
    assert_eq!(format_path("/{a}", &texts(&["a"]), &vec![]), None);
    assert_eq!(format_path("/", &vec![], &texts(&["1"])), None);
}

#[test]
fn unit_decoding_goes_by_the_status() {
    assert!(matches!(response(200, b"ignored").into_unit(), Ok(())));
    assert!(matches!(response(204, b"").into_unit(), Ok(())));
    assert!(matches!(response(302, b"").into_unit(), Ok(())));
    assert!(matches!(response(399, b"").into_unit(), Ok(())));
    assert!(matches!(response(600, b"").into_unit(), Ok(())));
    assert!(matches!(response(400, b"").into_unit(), Err(PhalanxClientError::Status(400))));
    assert!(matches!(response(404, b"").into_unit(), Err(PhalanxClientError::Status(404))));
    assert!(matches!(response(599, b"").into_unit(), Err(PhalanxClientError::Status(599))));
}

#[test]
fn server_error_is_a_status_error_and_never_a_value() {
    assert!(matches!(response(500, b"").into_unit(), Err(PhalanxClientError::Status(500))));
    assert!(matches!(
        response(500, b"Hello World!").into_text(),
        Err(PhalanxClientError::Status(500))
    ));
    let parsed: Result<i32, serde_json::Error> = serde_json::from_slice(b"5");
    assert!(matches!(Json::from_parsed(500, parsed), Err(PhalanxClientError::Status(500))));
    let parsed: Result<i32, serde_json::Error> = serde_json::from_slice(b"{");
    assert!(matches!(Json::from_parsed(500, parsed), Err(PhalanxClientError::Status(500))));
}

#[test]
fn status_check_hands_the_response_on() {
    assert_eq!(response(200, b"x").error_for_status().unwrap(), response(200, b"x"));
    assert!(matches!(
        response(418, b"x").error_for_status(),
        Err(PhalanxClientError::Status(418))
    ));
}

#[test]
fn text_decoding_reads_utf8() {
    assert_eq!(response(200, "Hello Wörld!".as_bytes()).into_text().unwrap(), "Hello Wörld!");
    assert_eq!(response(200, b"").into_text().unwrap(), "");
}

#[test]
fn text_decoding_refuses_bytes_that_are_no_utf8() {
    match response(200, &[b'a', 0xff, b'b']).into_text() {
        Err(PhalanxClientError::ParseError(cause)) => {
            assert_eq!(cause.utf8_error().valid_up_to(), 1);
        }
        other => panic!("unexpected: {:?}", other),
    }
    assert!(matches!(
        response(200, &[0xc3]).into_text(),
        Err(PhalanxClientError::ParseError(_))
    ));
}

#[test]
fn json_decoding_wraps_the_parsed_value() {
    let parsed: Result<Vec<i32>, serde_json::Error> = serde_json::from_slice(b"[1, 2]");
    let value = Json::from_parsed(200, parsed).unwrap();
    assert_eq!(value, Json(vec![1, 2]));
    assert_eq!(value.into_inner(), vec![1, 2]);
}

#[test]
fn json_decoding_refuses_malformed_json() {
    let parsed: Result<Vec<i32>, serde_json::Error> = serde_json::from_slice(b"[1, 2");
    assert!(matches!(Json::from_parsed(200, parsed), Err(PhalanxClientError::SerdeJsonError(_))));
    let parsed: Result<i32, serde_json::Error> = serde_json::from_slice(b"\"text\"");
    assert!(matches!(Json::from_parsed(201, parsed), Err(PhalanxClientError::SerdeJsonError(_))));
}

#[test]
fn json_round_trip_gives_the_value_back() {
    let mut data = serde_json::Map::new();
    data.insert("data".to_string(), serde_json::Value::from(5));
    let value = serde_json::Value::Object(data);
    let body = Payload::Json(serde_json::to_vec(&value).unwrap()).into_bytes();
    assert_eq!(body, b"{\"data\":5}".to_vec());
    let parsed: Result<serde_json::Value, serde_json::Error> = serde_json::from_slice(&body);
    assert_eq!(Json::from_parsed(200, parsed).unwrap().into_inner(), value);
    for number in [i32::MIN, -1, 0, 7, i32::MAX] {
        let body = serde_json::to_vec(&number).unwrap();
        let parsed: Result<i32, serde_json::Error> = serde_json::from_slice(&body);
        assert_eq!(Json::from_parsed(200, parsed).unwrap(), Json(number));
    }
}

#[test]
fn json_wrapper_gives_its_value() {
    assert_eq!(Json(5).into_inner(), 5);
    assert_eq!(*Json("x".to_string()), "x");
    assert_eq!(Json(vec![1u8]).len(), 1);
}

#[test]
fn client_errors_in_words() {
    assert_eq!(PhalanxClientError::TransportError.message(), "error making request");
    assert_eq!(PhalanxClientError::Status(500).message(), "error making request");
    let cause = String::from_utf8(vec![0xff]).unwrap_err();
    assert_eq!(PhalanxClientError::from(cause).message(), "error parsing request");
    let cause = serde_json::from_slice::<i32>(b"x").unwrap_err();
    assert_eq!(PhalanxClientError::from(cause).message(), "error parsing request");
}

#[test]
fn unit_responder_answers_ok_and_empty() {
    let res = UnitResponder.respond_to();
    assert_eq!(res.status, 200);
    assert_eq!(res.body, Vec::<u8>::new());
}

#[test]
fn numbers_in_decimal() {
    assert_eq!(decimal_text(0), "0");
    assert_eq!(decimal_text(9), "9");
    assert_eq!(decimal_text(10), "10");
    assert_eq!(decimal_text(1234567890), "1234567890");
    assert_eq!(decimal_text(usize::MAX), usize::MAX.to_string());
}

#[test]
fn texts_are_compared_and_joined() {
    assert!(same_text("abc", "abc"));
    assert!(!same_text("abc", "abd"));
    assert!(!same_text("abc", "ab"));
    assert!(contains_text(&texts(&["a", "b"]), "b"));
    assert!(!contains_text(&texts(&["a", "b"]), "c"));
    assert!(!contains_text(&vec![], ""));
    let mut out = "x".to_string();
    push_joined(&mut out, &texts(&["a", "b", "c"]), ", ");
    assert_eq!(out, "xa, b, c");
    push_joined(&mut out, &vec![], ", ");
    assert_eq!(out, "xa, b, c");
    push_terminated(&mut out, &texts(&["d", "e"]), ";");
    assert_eq!(out, "xa, b, cd;e;");
}

struct Holder {
    inner: Client,
}

impl phalanx::client::PhalanxClient for Holder {
    fn client(&self) -> &Client {
        &self.inner
    }
}

#[test]
fn stubs_reach_the_client_through_the_trait() {
    let holder = Holder { inner: Client::url("http://h") };
    assert_eq!(phalanx::client::PhalanxClient::client(&holder).format_url("/x"), "http://h/x");
}

#[test]
fn json_wrapper_lets_its_value_be_changed() {
    let mut value = Json(vec![1u8]);
    value.push(2);
    assert_eq!(value.into_inner(), vec![1u8, 2]);
}

#[test]
fn every_error_has_its_kind() {
    assert_eq!(PhalanxClientError::TransportError.kind(), ErrorKind::Transport);
    assert_eq!(PhalanxClientError::Status(503).kind(), ErrorKind::Status(503));
    let cause = String::from_utf8(vec![0xff]).unwrap_err();
    assert_eq!(PhalanxClientError::from(cause).kind(), ErrorKind::Parse);
    let cause = serde_json::from_slice::<i32>(b"x").unwrap_err();
    assert_eq!(PhalanxClientError::from(cause).kind(), ErrorKind::Parse);
}

#[test]
fn every_error_status_is_a_status_error_whatever_the_body() {
    for status in [400u16, 404, 499, 500, 502, 599] {
        for body in [&b"Hello"[..], &[0xff, 0xfe][..], &b""[..], &b"5"[..]] {
            assert_eq!(
                response(status, body).into_unit().unwrap_err().kind(),
                ErrorKind::Status(status)
            );
            assert_eq!(
                response(status, body).into_text().unwrap_err().kind(),
                ErrorKind::Status(status)
            );
            let parsed: Result<i32, serde_json::Error> = serde_json::from_slice(body);
            assert_eq!(
                Json::from_parsed(status, parsed).unwrap_err().kind(),
                ErrorKind::Status(status)
            );
        }
    }
}
