use paste_rs::api::{Method, Outcome, Paste, Reply, Request};
use paste_rs::error::PasteError;

fn response(status: u16, body: &str) -> Reply {
    Reply::Response { status, body: body.to_string() }
}

/// A service that keeps its pastes in memory and answers as the real one
/// does, cutting content off after `limit` bytes.
struct Shelf {
    pastes: Vec<(String, String)>,
    limit: usize,
}

impl Shelf {
    fn serve(&mut self, request: &Request) -> Reply {
        match request.method {
            Method::Post => {
                assert_eq!(request.url, "https://paste.rs/");
                assert_eq!(request.content_type.as_deref(), Some("text/plain"));
                let id = format!("p{:02}", self.pastes.len());
                let whole = request.body.len() <= self.limit;
                let kept = if whole { request.body.clone() } else { request.body[..self.limit].to_string() };
                self.pastes.push((id.clone(), kept));
                response(if whole { 201 } else { 206 }, &format!("https://paste.rs/{}", id))
            }
            Method::Get => {
                assert_eq!(request.content_type, None);
                assert_eq!(request.body, "");
                for (id, content) in &self.pastes {
                    if request.url == format!("https://paste.rs/{}", id) {
                        return response(200, content);
                    }
                }
                response(404, "not found")
            }
        }
    }
}

#[test]
fn created_paste() {
    assert_eq!(
        Paste::new(response(201, "https://paste.rs/abc")),
        Ok(Paste { id: "abc".to_string(), outcome: Some(Outcome::Created) })
    );
}

#[test]
fn partially_created_paste() {
    let paste = Paste::new(response(206, "https://paste.rs/abc")).unwrap();
    assert_eq!(paste.outcome, Some(Outcome::PartiallyCreated));
    assert_eq!(paste.id, "abc");
    assert!(!paste.id.is_empty());
}

#[test]
fn create_with_another_status_is_remote_error() {
    for status in [200u16, 202, 204, 207, 301, 400, 404, 413, 500, 0, 65535] {
        assert_eq!(
            Paste::new(response(status, "https://paste.rs/abc")),
            Err(PasteError::RemoteError { status, body: "https://paste.rs/abc".to_string() })
        );
    }
    assert_eq!(
        Paste::new(response(500, "oops")),
        Err(PasteError::RemoteError { status: 500, body: "oops".to_string() })
    );
}

#[test]
fn create_with_unexpected_body_is_invalid_url() {
    assert_eq!(Paste::new(response(201, "abc")), Err(PasteError::InvalidUrl));
    assert_eq!(Paste::new(response(206, "")), Err(PasteError::InvalidUrl));
    assert_eq!(Paste::new(response(201, "http://paste.rs/abc")), Err(PasteError::InvalidUrl));
    assert_eq!(Paste::new(response(201, " https://paste.rs/abc")), Err(PasteError::InvalidUrl));
}

#[test]
fn create_without_an_answer_is_transport_error() {
    assert_eq!(
        Paste::new(Reply::Failure { cause: "connection refused".to_string() }),
        Err(PasteError::TransportError("connection refused".to_string()))
    );
}

#[test]
fn create_request_carries_the_content() {
    let request = Paste::new_request("Hello world!".to_string());
    assert_eq!(
        request,
        Request {
            method: Method::Post,
            url: "https://paste.rs/".to_string(),
            content_type: Some("text/plain".to_string()),
            body: "Hello world!".to_string(),
        }
    );
}

#[test]
fn fetch_request_names_the_paste() {
    let paste = Paste::from("osx").unwrap();
    assert_eq!(
        paste.get_request(),
        Request {
            method: Method::Get,
            url: "https://paste.rs/osx".to_string(),
            content_type: None,
            body: String::new(),
        }
    );
}

#[test]
fn fetched_content() {
    let paste = Paste::from("osx").unwrap();
    assert_eq!(paste.get(response(200, "content\n")), Ok("content\n".to_string()));
    assert_eq!(paste.get(response(299, "")), Ok(String::new()));
    assert_eq!(paste.get(response(206, "part")), Ok("part".to_string()));
}

#[test]
fn fetch_of_unknown_paste_is_remote_error() {
    let paste = Paste::from("zzz").unwrap();
    assert_eq!(
        paste.get(response(404, "not found")),
        Err(PasteError::RemoteError { status: 404, body: "not found".to_string() })
    );
    for status in [0u16, 199, 300, 500, 65535] {
        assert_eq!(
            paste.get(response(status, "x")),
            Err(PasteError::RemoteError { status, body: "x".to_string() })
        );
    }
}

#[test]
fn fetch_without_an_answer_is_transport_error() {
    let paste = Paste::from("osx").unwrap();
    assert_eq!(
        paste.get(Reply::Failure { cause: "timed out".to_string() }),
        Err(PasteError::TransportError("timed out".to_string()))
    );
}

#[test]
fn created_paste_is_read_back() {
    let mut shelf = Shelf { pastes: Vec::new(), limit: 64 };
    for content in ["Hello world!", "", "second\npaste"] {
        let reply = shelf.serve(&Paste::new_request(content.to_string()));
        let paste = Paste::new(reply).unwrap();
        assert_eq!(paste.outcome, Some(Outcome::Created));
        let again = Paste::from(&paste.id).unwrap();
        let reply = shelf.serve(&again.get_request());
        assert_eq!(again.get(reply), Ok(content.to_string()));
    }
}

#[test]
fn oversized_paste_is_stored_in_part() {
    let mut shelf = Shelf { pastes: Vec::new(), limit: 4 };
    let reply = shelf.serve(&Paste::new_request("Hello world!".to_string()));
    let paste = Paste::new(reply).unwrap();
    assert_eq!(paste.outcome, Some(Outcome::PartiallyCreated));
    assert_eq!(paste.id, "p00");
    let reply = shelf.serve(&paste.get_request());
    assert_eq!(paste.get(reply), Ok("Hell".to_string()));
}

#[test]
fn unknown_paste_on_the_shelf() {
    let mut shelf = Shelf { pastes: Vec::new(), limit: 64 };
    let paste = Paste::from("osx").unwrap();
    let reply = shelf.serve(&paste.get_request());
    assert!(matches!(paste.get(reply), Err(PasteError::RemoteError { status: 404, .. })));
}
