use ankiconnect_rs::client::media::{
    base64_source, checked_filename, path_source, store_file_params, url_source, MediaClient,
};
use ankiconnect_rs::client::request::{
    DeleteMediaParams, Params, Reply, ReplyKind, RetrieveMediaParams, StoreMediaFileParams,
};
use ankiconnect_rs::models::media::MediaSource;
use std::path::PathBuf;
use ankiconnect_rs::error::{AnkiConnectError, AnkiError};
use ankiconnect_rs::http::{interpret_response, RequestSender};
use std::cell::RefCell;
use std::collections::VecDeque;
use std::rc::Rc;

struct Exchange {
    action: &'static str,
    params: Option<Params>,
    kind: ReplyKind,
    answer: Result<(Option<Reply>, Option<String>), AnkiError>,
}

#[derive(Clone)]
struct MockServer {
    script: Rc<RefCell<VecDeque<Exchange>>>,
    hits: Rc<RefCell<usize>>,
}

impl MockServer {
    fn start() -> MockServer {
        MockServer {
            script: Rc::new(RefCell::new(VecDeque::new())),
            hits: Rc::new(RefCell::new(0)),
        }
    }

    fn mock(
        &self,
        action: &'static str,
        params: Option<Params>,
        kind: ReplyKind,
        result: Option<Reply>,
        error: Option<&str>,
    ) {
        self.script.borrow_mut().push_back(Exchange {
            action,
            params,
            kind,
            answer: Ok((result, error.map(|e| e.to_string()))),
        });
    }

    fn assert_hits(&self, hits: usize) {
        assert_eq!(*self.hits.borrow(), hits);
        assert!(self.script.borrow().is_empty());
    }
}

impl RequestSender for MockServer {
    fn send(
        &self,
        action: &str,
        params: Option<Params>,
        expect: ReplyKind,
    ) -> Result<Reply, AnkiError> {
        let next = self
            .script
            .borrow_mut()
            .pop_front()
            .unwrap_or_else(|| panic!("no request was expected, got {}", action));
        assert_eq!(action, next.action);
        assert_eq!(params, next.params);
        assert_eq!(expect, next.kind);
        *self.hits.borrow_mut() += 1;
        match next.answer {
            Ok((result, error)) => interpret_response(result, error, expect),
            Err(e) => Err(e),
        }
    }
}

fn create_mock_client(server: &MockServer) -> MediaClient<MockServer> {
    MediaClient::new(server.clone())
}

#[test]
fn test_store_media_from_base64() {
    let server = MockServer::start();
    server.mock(
        "storeMediaFile",
        Some(Params::StoreMediaFile(StoreMediaFileParams {
            path: None,
            url: None,
            data: Some("SGVsbG8sIHdvcmxkIQ==".to_string()),
            filename: "_hello.txt".to_string(),
            delete_existing: true,
        })),
        ReplyKind::Text,
        Some(Reply::Text("_hello.txt".to_string())),
        None,
    );
    let client = create_mock_client(&server);

    let filename = client.store_from_base64("SGVsbG8sIHdvcmxkIQ==", "_hello.txt", true);

    server.assert_hits(1);
    let filename = filename.unwrap();
    assert_eq!(filename, "_hello.txt");
}

#[test]
fn test_store_media_from_url() {
    let server = MockServer::start();
    server.mock(
        "storeMediaFile",
        Some(Params::StoreMediaFile(StoreMediaFileParams {
            path: None,
            url: Some("https://example.com/image.jpg".to_string()),
            data: None,
            filename: "image.jpg".to_string(),
            delete_existing: false,
        })),
        ReplyKind::Text,
        Some(Reply::Text("image_1.jpg".to_string())),
        None,
    );
    let client = create_mock_client(&server);

    let filename = client.store_from_url("https://example.com/image.jpg", "image.jpg", false);

    server.assert_hits(1);
    let filename = filename.unwrap();
    assert_eq!(filename, "image_1.jpg");
}

#[test]
fn test_retrieve_media_file() {
    let server = MockServer::start();
    server.mock(
        "retrieveMediaFile",
        Some(Params::RetrieveMedia(RetrieveMediaParams {
            filename: "_hello.txt".to_string(),
        })),
        ReplyKind::Text,
        Some(Reply::Text("SGVsbG8sIHdvcmxkIQ==".to_string())),
        None,
    );
    let client = create_mock_client(&server);

    let data = client.retrieve_file("_hello.txt");

    server.assert_hits(1);
    let data = data.unwrap();
    assert_eq!(data, "SGVsbG8sIHdvcmxkIQ==");
}

#[test]
fn test_delete_media_file() {
    let server = MockServer::start();
    server.mock(
        "deleteMediaFile",
        Some(Params::DeleteMedia(DeleteMediaParams {
            filename: "_hello.txt".to_string(),
        })),
        ReplyKind::Nothing,
        None,
        None,
    );
    let client = create_mock_client(&server);

    let result = client.delete_file("_hello.txt");

    server.assert_hits(1);
    assert!(result.is_ok());
}

#[test]
fn test_get_media_dir_path() {
    let server = MockServer::start();
    server.mock(
        "getMediaDirPath",
        None,
        ReplyKind::Text,
        Some(Reply::Text(
            "/home/user/.local/share/Anki2/Main/collection.media".to_string(),
        )),
        None,
    );
    let client = create_mock_client(&server);

    let path = client.get_directory();

    server.assert_hits(1);
    let path = path.unwrap();
    assert_eq!(
        PathBuf::from(path),
        PathBuf::from("/home/user/.local/share/Anki2/Main/collection.media")
    );
}

#[test]
fn test_store_media_with_invalid_params() {
    let server = MockServer::start();
    let client = create_mock_client(&server);

    let result = client.store_from_base64("SGVsbG8sIHdvcmxkIQ==", "", true);

    assert!(result.is_err());
    if let Err(e) = result {
        assert!(e.message().contains("cannot be empty"));
    }

    let result = client.store_from_base64("", "file.txt", true);

    assert!(result.is_err());
    if let Err(e) = result {
        assert!(e.message().contains("cannot be empty"));
    }

    let result = client.store_from_url("", "file.txt", true);

    assert!(result.is_err());
    if let Err(e) = result {
        assert!(e.message().contains("cannot be empty"));
    }
    server.assert_hits(0);
}

#[test]
fn each_refusal_has_its_own_sentence() {
    let server = MockServer::start();
    let client = create_mock_client(&server);
    let refused = |text: &str| Err(AnkiError::ValidationError(text.to_string()));
    assert_eq!(
        client.store_from_base64("", "", true),
        refused("Base64 data cannot be empty")
    );
    assert_eq!(
        client.store_from_base64("AA==", "", true),
        refused("Filename cannot be empty")
    );
    assert_eq!(
        client.store_from_url("", "", true),
        refused("URL cannot be empty")
    );
    assert_eq!(
        client.store_from_url("http://x", "", true),
        refused("Filename cannot be empty")
    );
    assert_eq!(
        client.store_from_path("/no/such/file", false, "f.txt", true),
        refused("File does not exist: /no/such/file")
    );
    assert_eq!(
        client.store_from_path("/some/file", true, "", true),
        refused("Filename cannot be empty")
    );
    assert_eq!(
        client.store_file(&MediaSource::Url("u".to_string()), "", false),
        refused("Filename cannot be empty")
    );
    assert_eq!(client.retrieve_file(""), refused("Filename cannot be empty"));
    assert_eq!(
        client.delete_file(""),
        Err(AnkiError::ValidationError(
            "Filename cannot be empty".to_string()
        ))
    );
    server.assert_hits(0);
}

#[test]
fn a_file_from_a_path_is_sent_by_its_path() {
    let server = MockServer::start();
    server.mock(
        "storeMediaFile",
        Some(Params::StoreMediaFile(StoreMediaFileParams {
            path: Some("/tmp/dog.jpg".to_string()),
            url: None,
            data: None,
            filename: "dog.jpg".to_string(),
            delete_existing: false,
        })),
        ReplyKind::Text,
        Some(Reply::Text("dog.jpg".to_string())),
        None,
    );
    let client = create_mock_client(&server);
    assert_eq!(
        client.store_from_path("/tmp/dog.jpg", true, "dog.jpg", false),
        Ok("dog.jpg".to_string())
    );
    server.assert_hits(1);
}

#[test]
fn lists_and_texts_of_the_media_client() {
    let server = MockServer::start();
    server.mock(
        "checkMediaDatabase",
        None,
        ReplyKind::Texts,
        Some(Reply::Texts(vec!["a.png".to_string(), "b.mp3".to_string()])),
        None,
    );
    server.mock(
        "getMediaFilesNames",
        None,
        ReplyKind::Text,
        Some(Reply::Text("icon".to_string())),
        None,
    );
    server.mock(
        "getMediaDirPath",
        None,
        ReplyKind::Text,
        None,
        Some("unsupported action"),
    );
    let client = create_mock_client(&server);
    assert_eq!(
        client.get_missing_files(),
        Ok(vec!["a.png".to_string(), "b.mp3".to_string()])
    );
    assert_eq!(client.get_sound_icon(), Ok("icon".to_string()));
    assert_eq!(
        client.get_directory(),
        Err(AnkiError::AnkiConnectError(
            AnkiConnectError::UnsupportedAction
        ))
    );
    server.assert_hits(3);
}

#[test]
fn sources_and_parameters() {
    assert_eq!(
        path_source("/a", true),
        Ok(MediaSource::Path("/a".to_string()))
    );
    assert_eq!(
        url_source("http://a"),
        Ok(MediaSource::Url("http://a".to_string()))
    );
    assert_eq!(
        base64_source("QQ=="),
        Ok(MediaSource::Base64("QQ==".to_string()))
    );
    assert_eq!(checked_filename("f"), Ok("f".to_string()));
    assert_eq!(
        store_file_params(&MediaSource::Base64("QQ==".to_string()), "f", true),
        Ok(StoreMediaFileParams {
            path: None,
            url: None,
            data: Some("QQ==".to_string()),
            filename: "f".to_string(),
            delete_existing: true,
        })
    );
    assert_eq!(
        store_file_params(&MediaSource::Path("/p".to_string()), "f", false),
        Ok(StoreMediaFileParams {
            path: Some("/p".to_string()),
            url: None,
            data: None,
            filename: "f".to_string(),
            delete_existing: false,
        })
    );
}
