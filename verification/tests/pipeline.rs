use async_openai_wasm::client::Client;
use async_openai_wasm::config::Config;
use async_openai_wasm::error::OpenAIError;
use async_openai_wasm::request::{Body, Form, Method, Part, RawResponse, Request};
use async_openai_wasm::stream::MessageEvent;
use async_openai_wasm::types::InputSource;
use async_openai_wasm::util::create_file_part;
use serde_json::Value;

struct Fixed;

impl Config for Fixed {
    fn url(&self, path: &str) -> String {
        format!("https://api.example.test/v1{}", path)
    }

    fn query(&self) -> Vec<(String, String)> {
        vec![("api-version".to_string(), "7".to_string())]
    }

    fn headers(&self) -> Vec<(String, String)> {
        vec![("Authorization".to_string(), "Bearer k".to_string())]
    }
}

fn pair(name: &str, value: &str) -> (String, String) {
    (name.to_string(), value.to_string())
}

fn document(text: &str) -> Value {
    serde_json::from_str(text).unwrap()
}

fn check_target(request: &Request, method: Method, url: &str) {
    assert_eq!(request.method, method);
    assert_eq!(request.url, url);
    assert_eq!(request.headers, vec![pair("Authorization", "Bearer k")]);
}

fn decode(bytes: &[u8]) -> Result<Value, serde_json::Error> {
    serde_json::from_slice::<Value>(bytes)
}

#[test]
fn get_carries_the_configuration() {
    let client = Client::with_config(Fixed);
    let request = client.get("/models");
    check_target(&request, Method::Get, "https://api.example.test/v1/models");
    assert_eq!(request.query, vec![pair("api-version", "7")]);
    assert_eq!(request.body, Body::Empty);
    assert_eq!(client.get_raw("/models"), request);
}

#[test]
fn delete_carries_the_configuration() {
    let client = Client::with_config(Fixed);
    let request = client.delete("/files/f1");
    check_target(&request, Method::Delete, "https://api.example.test/v1/files/f1");
    assert_eq!(request.query, vec![pair("api-version", "7")]);
    assert_eq!(request.body, Body::Empty);
}

#[test]
fn get_with_query_puts_the_configuration_first() {
    let client = Client::with_config(Fixed);
    let query = vec![pair("limit", "2"), pair("order", "asc")];
    let request = client.get_with_query("/files", &query);
    check_target(&request, Method::Get, "https://api.example.test/v1/files");
    assert_eq!(
        request.query,
        vec![pair("api-version", "7"), pair("limit", "2"), pair("order", "asc")]
    );
    assert_eq!(request.body, Body::Empty);
}

#[test]
fn get_stream_puts_the_configuration_last() {
    let client = Client::with_config(Fixed);
    let query = vec![pair("limit", "2")];
    let (request, stream) = client._get_stream::<Value>("/events", &query);
    check_target(&request, Method::Get, "https://api.example.test/v1/events");
    assert_eq!(request.query, vec![pair("limit", "2"), pair("api-version", "7")]);
    assert_eq!(request.body, Body::Empty);
    assert!(!stream.is_done());
}

#[test]
fn post_carries_the_document() {
    let client = Client::with_config(Fixed);
    let payload = document("{\"input\":\"hello\"}");
    let request = client.post("/moderations", payload.clone());
    check_target(&request, Method::Post, "https://api.example.test/v1/moderations");
    assert_eq!(request.query, vec![pair("api-version", "7")]);
    assert_eq!(request.body, Body::Json(payload.clone()));
    assert_eq!(client.post_raw("/moderations", payload), request);
}

#[test]
fn post_stream_opens_an_active_adapter() {
    let client = Client::with_config(Fixed);
    let payload = document("{\"stream\":true}");
    let (request, stream) = client.post_stream::<Value>("/chat/completions", payload.clone());
    check_target(&request, Method::Post, "https://api.example.test/v1/chat/completions");
    assert_eq!(request.body, Body::Json(payload.clone()));
    assert!(!stream.is_done());
    let (mapped_request, mapped) = client.post_stream_mapped_raw_events(
        "/chat/completions",
        payload,
        |record: MessageEvent| Ok::<String, OpenAIError>(record.data),
    );
    assert_eq!(mapped_request, request);
    assert!(!mapped.is_done());
}

#[test]
fn post_form_builds_the_form_at_each_call() {
    let client = Client::with_config(Fixed);
    let source = InputSource::VecU8 { filename: "a.jsonl".to_string(), vec: vec![1, 2, 3] };
    let to_form = |source: &InputSource| -> Result<Form, OpenAIError> {
        let part = create_file_part(source.clone())?;
        Ok(Form::new().text("purpose".to_string(), "fine-tune".to_string()).part("file".to_string(), part))
    };
    let first = client.post_form("/files", &source, to_form).unwrap();
    let second = client.post_form_raw("/files", &source, to_form).unwrap();
    assert_eq!(first, second);
    check_target(&first, Method::Post, "https://api.example.test/v1/files");
    match first.body {
        Body::Multipart(form) => {
            assert_eq!(form.parts.len(), 2);
            assert_eq!(form.parts[0], ("purpose".to_string(), Part::Text("fine-tune".to_string())));
            match &form.parts[1] {
                (name, Part::File(file)) => {
                    assert_eq!(name, "file");
                    assert_eq!(file.file_name, "a.jsonl");
                    assert_eq!(file.mime, "application/octet-stream");
                    assert_eq!(file.content, vec![1, 2, 3]);
                }
                other => panic!("unexpected: {:?}", other),
            }
        }
        other => panic!("unexpected: {:?}", other),
    }
}

#[test]
fn post_form_fails_as_the_form_does() {
    let client = Client::with_config(Fixed);
    let built = client.post_form("/files", &7u8, |_: &u8| {
        Err::<Form, OpenAIError>(OpenAIError::InvalidArgument("unreadable".to_string()))
    });
    assert_eq!(built, Err(OpenAIError::InvalidArgument("unreadable".to_string())));
}

#[test]
fn success_returns_the_body_unread() {
    let client = Client::with_config(Fixed);
    let body = b"not json at all".to_vec();
    let bytes = client.execute_raw(Ok(RawResponse { status: 200, body: body.clone() })).unwrap();
    assert_eq!(bytes, body);
}

#[test]
fn success_is_the_class_2xx() {
    let client = Client::with_config(Fixed);
    let envelope = b"{\"error\":{\"message\":\"m\"}}".to_vec();
    for status in [200u16, 201, 204, 299] {
        assert!(RawResponse { status, body: vec![] }.is_success());
        assert!(client.execute_raw(Ok(RawResponse { status, body: envelope.clone() })).is_ok());
    }
    for status in [0u16, 100, 199, 300, 304, 400, 404, 429, 500, 999, u16::MAX] {
        assert!(!RawResponse { status, body: vec![] }.is_success());
        assert!(client.execute_raw(Ok(RawResponse { status, body: envelope.clone() })).is_err());
    }
}

#[test]
fn transport_failure_is_reported_as_such() {
    let client = Client::with_config(Fixed);
    assert_eq!(
        client.execute_raw(Err("connection refused".to_string())),
        Err(OpenAIError::Reqwest("connection refused".to_string()))
    );
    assert_eq!(
        client.execute(Err("timed out".to_string()), decode),
        Err(OpenAIError::Reqwest("timed out".to_string()))
    );
}

#[test]
fn execute_reads_a_success_as_the_typed_value() {
    let client = Client::with_config(Fixed);
    let body = b"{\"id\":\"a\"}".to_vec();
    let value = client.execute(Ok(RawResponse { status: 200, body }), decode).unwrap();
    assert_eq!(value["id"], "a");
}

#[test]
fn execute_reports_a_success_that_cannot_be_read() {
    let client = Client::with_config(Fixed);
    let body = b"{\"id\":".to_vec();
    match client.execute(Ok(RawResponse { status: 200, body: body.clone() }), decode) {
        Err(OpenAIError::JSONDeserialize { message, body: kept }) => {
            assert_eq!(kept, body);
            assert_eq!(message, "EOF while parsing a value at line 1 column 6");
        }
        other => panic!("unexpected: {:?}", other),
    }
}

#[test]
fn bad_request_with_envelope_is_an_api_error() {
    let client = Client::with_config(Fixed);
    let body = b"{\"error\":{\"message\":\"no such model\",\"type\":\"invalid_request_error\",\"param\":\"model\",\"code\":\"model_not_found\"}}".to_vec();
    match client.execute(Ok(RawResponse { status: 400, body }), decode) {
        Err(OpenAIError::ApiError(e)) => {
            assert_eq!(e.message, "no such model");
            assert_eq!(e.kind, Some("invalid_request_error".to_string()));
            assert_eq!(e.param, Some(Value::from("model")));
            assert_eq!(e.code, Some(Value::from("model_not_found")));
        }
        other => panic!("unexpected: {:?}", other),
    }
}

#[test]
fn server_error_without_json_is_a_deserialization_error() {
    let client = Client::with_config(Fixed);
    let body = b"<html>Internal Server Error</html>".to_vec();
    match client.execute(Ok(RawResponse { status: 500, body: body.clone() }), decode) {
        Err(OpenAIError::JSONDeserialize { message, body: kept }) => {
            assert_eq!(kept, body);
            assert_eq!(message, "expected value at line 1 column 1");
        }
        other => panic!("unexpected: {:?}", other),
    }
}

#[test]
fn rate_limit_is_an_api_error() {
    let client = Client::with_config(Fixed);
    let body = b"{\"error\":{\"message\":\"slow down\",\"type\":\"rate_limit\"}}".to_vec();
    let mut decoder_calls = 0;
    let outcome = client.execute(Ok(RawResponse { status: 429, body }), |bytes: &[u8]| {
        decoder_calls += 1;
        decode(bytes)
    });
    assert_eq!(decoder_calls, 0);
    match outcome {
        Err(OpenAIError::ApiError(e)) => {
            assert_eq!(e.message, "slow down");
            assert_eq!(e.kind, Some("rate_limit".to_string()));
            assert_eq!(e.param, None);
            assert_eq!(e.code, None);
        }
        other => panic!("unexpected: {:?}", other),
    }
}

#[test]
fn envelope_on_a_success_is_not_an_error() {
    let client = Client::with_config(Fixed);
    let body = b"{\"error\":{\"message\":\"m\"}}".to_vec();
    let value = client.execute(Ok(RawResponse { status: 200, body }), decode).unwrap();
    assert_eq!(value["error"]["message"], "m");
}
