use async_openai_wasm::client::Client;
use async_openai_wasm::config::Config;
use async_openai_wasm::error::OpenAIError;
use async_openai_wasm::file::Files;
use async_openai_wasm::messages::Messages;
use async_openai_wasm::moderation::Moderations;
use async_openai_wasm::request::{Body, FilePart, Form, Method, Part};
use async_openai_wasm::types::InputSource;
use async_openai_wasm::util::create_file_part;
use serde_json::Value;

struct Gateway {
    deployment: String,
}

impl Config for Gateway {
    fn url(&self, path: &str) -> String {
        format!("https://gw.example.test/{}{}", self.deployment, path)
    }

    fn query(&self) -> Vec<(String, String)> {
        Vec::new()
    }

    fn headers(&self) -> Vec<(String, String)> {
        vec![("api-key".to_string(), "s".to_string())]
    }
}

fn client() -> Client<Gateway> {
    Client::with_config(Gateway { deployment: "d1".to_string() })
}

fn document(text: &str) -> Value {
    serde_json::from_str(text).unwrap()
}

#[test]
fn client_keeps_its_configuration() {
    let client = client();
    assert_eq!(client.config().deployment, "d1");
}

#[test]
fn file_part_of_bytes() {
    let source = InputSource::Bytes { filename: "clip.mp3".to_string(), bytes: vec![9, 8, 7] };
    let part = create_file_part(source).unwrap();
    assert_eq!(
        part,
        FilePart {
            file_name: "clip.mp3".to_string(),
            mime: "application/octet-stream".to_string(),
            content: vec![9, 8, 7],
        }
    );
}

#[test]
fn file_part_of_a_vector() {
    let source = InputSource::VecU8 { filename: String::new(), vec: Vec::new() };
    let part = create_file_part(source).unwrap();
    assert_eq!(part.file_name, "");
    assert_eq!(part.mime, "application/octet-stream");
    assert_eq!(part.content, Vec::<u8>::new());
}

#[test]
fn form_keeps_its_fields_in_order() {
    let file = FilePart { file_name: "a".to_string(), mime: "text/plain".to_string(), content: vec![1] };
    let form = Form::new()
        .text("purpose".to_string(), "assistants".to_string())
        .part("file".to_string(), file.clone())
        .text("purpose".to_string(), "again".to_string());
    assert_eq!(Form::new().parts, vec![]);
    assert_eq!(
        form.parts,
        vec![
            ("purpose".to_string(), Part::Text("assistants".to_string())),
            ("file".to_string(), Part::File(file)),
            ("purpose".to_string(), Part::Text("again".to_string())),
        ]
    );
}

#[test]
fn files_group_addresses_its_calls() {
    let client = client();
    let files = client.files();
    let listed = files.list(&vec![("purpose".to_string(), "fine-tune".to_string())]);
    assert_eq!(listed.method, Method::Get);
    assert_eq!(listed.url, "https://gw.example.test/d1/files");
    assert_eq!(listed.query, vec![("purpose".to_string(), "fine-tune".to_string())]);
    assert_eq!(listed.headers, vec![("api-key".to_string(), "s".to_string())]);

    let one = files.retrieve("file-abc");
    assert_eq!(one.method, Method::Get);
    assert_eq!(one.url, "https://gw.example.test/d1/files/file-abc");
    assert_eq!(one.body, Body::Empty);

    let gone = files.delete("file-abc");
    assert_eq!(gone.method, Method::Delete);
    assert_eq!(gone.url, "https://gw.example.test/d1/files/file-abc");

    let content = files.retrieve_content("file-abc");
    assert_eq!(content.method, Method::Get);
    assert_eq!(content.url, "https://gw.example.test/d1/files/file-abc/content");

    let empty = Files::new(&client).retrieve("");
    assert_eq!(empty.url, "https://gw.example.test/d1/files/");
}

#[test]
fn files_group_uploads_a_form() {
    let client = client();
    let source = InputSource::Bytes { filename: "t.jsonl".to_string(), bytes: vec![b'{', b'}'] };
    let built = client
        .files()
        .create(&source, |source: &InputSource| -> Result<Form, OpenAIError> {
            Ok(Form::new().part("file".to_string(), create_file_part(source.clone())?))
        })
        .unwrap();
    assert_eq!(built.method, Method::Post);
    assert_eq!(built.url, "https://gw.example.test/d1/files");
    match built.body {
        Body::Multipart(form) => assert_eq!(form.parts.len(), 1),
        other => panic!("unexpected: {:?}", other),
    }
}

#[test]
fn moderations_group_posts_the_request() {
    let client = client();
    let payload = document("{\"input\":\"text\"}");
    let built = client.moderations().create(payload.clone());
    assert_eq!(built.method, Method::Post);
    assert_eq!(built.url, "https://gw.example.test/d1/moderations");
    assert_eq!(built.body, Body::Json(payload.clone()));
    assert_eq!(Moderations::new(&client).create(payload), built);
}

#[test]
fn messages_group_addresses_its_thread() {
    let client = client();
    let messages = Messages::new(&client, "thread_1");
    assert_eq!(messages.thread_id, "thread_1");
    let payload = document("{\"role\":\"user\",\"content\":\"hi\"}");

    let created = messages.create(payload.clone());
    assert_eq!(created.method, Method::Post);
    assert_eq!(created.url, "https://gw.example.test/d1/threads/thread_1/messages");
    assert_eq!(created.body, Body::Json(payload.clone()));

    let one = messages.retrieve("msg_9");
    assert_eq!(one.method, Method::Get);
    assert_eq!(one.url, "https://gw.example.test/d1/threads/thread_1/messages/msg_9");
    assert_eq!(one.body, Body::Empty);

    let updated = messages.update("msg_9", payload.clone());
    assert_eq!(updated.method, Method::Post);
    assert_eq!(updated.url, "https://gw.example.test/d1/threads/thread_1/messages/msg_9");
    assert_eq!(updated.body, Body::Json(payload));

    let listed = messages.list(&vec![("limit".to_string(), "5".to_string())]);
    assert_eq!(listed.method, Method::Get);
    assert_eq!(listed.url, "https://gw.example.test/d1/threads/thread_1/messages");
    assert_eq!(listed.query, vec![("limit".to_string(), "5".to_string())]);
}

#[test]
fn missing_builder_field_is_an_invalid_argument() {
    let e = derive_builder::UninitializedFieldError::new("model");
    assert_eq!(
        OpenAIError::from(e),
        OpenAIError::InvalidArgument("Field not initialized: model".to_string())
    );
}
