//! Paste references and the two exchanges with the service.

use crate::error::{PasteError, PasteErrorView};
use crate::text::{contains, has_prefix, occurs_in, strip_prefix};
use vstd::prelude::*;

verus! {

/// The address under which the service stores its pastes.
pub const PASTE_RS_URL: &'static str = "https://paste.rs/";

/// The base address as a sequence of characters.
pub open spec fn base_url() -> Seq<char> {
    "https://paste.rs/"@
}

/// The address under which the paste `id` is read.
pub open spec fn canonical_url(id: Seq<char>) -> Seq<char> {
    base_url() + id
}

/// Whether a text holds the marker of a scheme.
pub open spec fn is_url_spec(s: Seq<char>) -> bool {
    occurs_in(s, "http://"@) || occurs_in(s, "https://"@)
}

/// Whether a text names the service's domain. This is a test for a
/// substring, not a reading of the address's authority.
pub open spec fn is_paste_rs_url_spec(s: Seq<char>) -> bool {
    occurs_in(s, "paste.rs"@)
}

/// The identifier in an address of the service: what follows the base
/// address, where the text begins with it.
pub open spec fn extract_spec(url: Seq<char>) -> Option<Seq<char>> {
    if has_prefix(url, base_url()) {
        Some(url.skip(base_url().len() as int))
    } else {
        None
    }
}

/// How a create request ended.
#[derive(Debug, Clone, Copy, PartialEq, Eq, Structural)]
pub enum Outcome {
    /// The whole content was stored.
    Created,
    /// The content was too large and was stored in part.
    PartiallyCreated,
}

/// A reference to a paste, with the outcome of the request that made it
/// where it came from one.
#[derive(Debug, Clone, PartialEq, Eq)]
pub struct Paste {
    pub id: String,
    pub outcome: Option<Outcome>,
}

/// `Paste` with its identifier as a sequence of characters.
pub struct PasteView {
    pub id: Seq<char>,
    pub outcome: Option<Outcome>,
}

impl View for Paste {
    type V = PasteView;

    open spec fn view(&self) -> PasteView {
        PasteView { id: self.id@, outcome: self.outcome }
    }
}

/// The reference that a text stands for. The first rule that applies
/// decides: an address of the service; a text that names the service
/// without a scheme, read as if `https://` stood before it; any text of
/// three characters; any other address; anything else.
pub open spec fn resolve(s: Seq<char>) -> Result<PasteView, PasteErrorView> {
    if is_paste_rs_url_spec(s) {
        let full = if is_url_spec(s) {
            s
        } else {
            "https://"@ + s
        };
        match extract_spec(full) {
            Some(id) => Ok(PasteView { id, outcome: None }),
            None => Err(PasteErrorView::InvalidUrl),
        }
    } else if s.len() == 3 {
        Ok(PasteView { id: s, outcome: None })
    } else if is_url_spec(s) {
        Err(PasteErrorView::InvalidUrl)
    } else {
        Err(PasteErrorView::InvalidArguments)
    }
}

/// The two kinds of request that the client makes.
#[derive(Debug, Clone, Copy, PartialEq, Eq, Structural)]
pub enum Method {
    Get,
    Post,
}

/// One request to the service, to be sent once and as a whole.
#[derive(Debug, Clone, PartialEq, Eq)]
pub struct Request {
    pub method: Method,
    pub url: String,
    /// The value of the `Content-Type` header, where the request has a body.
    pub content_type: Option<String>,
    pub body: String,
}

/// How an exchange with the service ended.
#[derive(Debug, Clone, PartialEq, Eq)]
pub enum Reply {
    /// The service answered.
    Response { status: u16, body: String },
    /// No answer came; the field describes the cause.
    Failure { cause: String },
}

/// `Reply` with its texts as sequences of characters.
pub enum ReplyView {
    Response { status: u16, body: Seq<char> },
    Failure { cause: Seq<char> },
}

impl View for Reply {
    type V = ReplyView;

    open spec fn view(&self) -> ReplyView {
        match *self {
            Reply::Response { status, body } => ReplyView::Response { status, body: body@ },
            Reply::Failure { cause } => ReplyView::Failure { cause: cause@ },
        }
    }
}

/// The outcome that a status of a create request stands for: 201 for a
/// paste stored whole, 206 for one stored in part, no other.
pub open spec fn outcome_of(status: u16) -> Option<Outcome> {
    if status == 201 {
        Some(Outcome::Created)
    } else if status == 206 {
        Some(Outcome::PartiallyCreated)
    } else {
        None
    }
}

/// Whether a status is one of the success class, 200 to 299.
pub open spec fn is_success(status: u16) -> bool {
    200 <= status <= 299
}

/// What a create request has achieved, given how the exchange ended. The
/// status is looked at first, then the body, which must be the address of
/// the new paste.
pub open spec fn create_result(reply: ReplyView) -> Result<PasteView, PasteErrorView> {
    match reply {
        ReplyView::Failure { cause } => Err(PasteErrorView::TransportError(cause)),
        ReplyView::Response { status, body } => match outcome_of(status) {
            None => Err(PasteErrorView::RemoteError { status, body }),
            Some(outcome) => match extract_spec(body) {
                Some(id) => Ok(PasteView { id, outcome: Some(outcome) }),
                None => Err(PasteErrorView::InvalidUrl),
            },
        },
    }
}

/// What a fetch request has achieved, given how the exchange ended: the
/// body of an answer with a success status, else an error.
pub open spec fn fetch_result(reply: ReplyView) -> Result<Seq<char>, PasteErrorView> {
    match reply {
        ReplyView::Failure { cause } => Err(PasteErrorView::TransportError(cause)),
        ReplyView::Response { status, body } => if is_success(status) {
            Ok(body)
        } else {
            Err(PasteErrorView::RemoteError { status, body })
        },
    }
}

/// Whether the text holds `http://` or `https://`.
pub fn is_url(url: &str) -> (r: bool)
    ensures
        r == is_url_spec(url@),
{
    contains(url, "http://") || contains(url, "https://")
}

/// Whether the text holds the service's domain name.
pub fn is_paste_rs_url(url: &str) -> (r: bool)
    ensures
        r == is_paste_rs_url_spec(url@),
{
    contains(url, "paste.rs")
}

/// The identifier in an address of the service, or `InvalidUrl` where the
/// text does not begin with the service's base address.
pub fn extract_paste_id(url: &String) -> (r: Result<String, PasteError>)
    ensures
        match r {
            Ok(id) => extract_spec(url@) == Some(id@),
            Err(e) => extract_spec(url@).is_none() && e@ == PasteErrorView::InvalidUrl,
        },
{
    match strip_prefix(url.as_str(), PASTE_RS_URL) {
        Some(id) => Ok(id),
        None => Err(PasteError::InvalidUrl),
    }
}

impl Paste {
    /// Resolves what a user typed (an identifier, an address of the
    /// service, or such an address without its scheme) into a reference.
    /// The result depends on the text alone.
    pub fn from(val: &str) -> (r: Result<Paste, PasteError>)
        ensures
            match r {
                Ok(paste) => resolve(val@) == Ok::<PasteView, PasteErrorView>(paste@),
                Err(e) => resolve(val@) == Err::<PasteView, PasteErrorView>(e@),
            },
    {
        let named = is_paste_rs_url(val);
        let url = is_url(val);
        if named {
            let full = if url {
                String::from_str(val)
            } else {
                String::from_str("https://").concat(val)
            };
            match extract_paste_id(&full) {
                Ok(id) => Ok(Paste { id, outcome: None }),
                Err(e) => Err(e),
            }
        } else if val.unicode_len() == 3 {
            Ok(Paste { id: String::from_str(val), outcome: None })
        } else if url {
            Err(PasteError::InvalidUrl)
        } else {
            Err(PasteError::InvalidArguments)
        }
    }

    /// The address under which this paste is read.
    pub fn get_url(&self) -> (r: String)
        ensures
            r@ == canonical_url(self.id@),
    {
        String::from_str(PASTE_RS_URL).concat(self.id.as_str())
    }

    /// The request that stores `data` as a new paste: the whole content as
    /// the body, marked as plain text, posted to the base address.
    pub fn new_request(data: String) -> (r: Request)
        ensures
            r.method == Method::Post,
            r.url@ == base_url(),
            r.content_type.is_some(),
            r.content_type.unwrap()@ == "text/plain"@,
            r.body@ == data@,
    {
        Request {
            method: Method::Post,
            url: String::from_str(PASTE_RS_URL),
            content_type: Some(String::from_str("text/plain")),
            body: data,
        }
    }

    /// The paste that a create request has made, given how the exchange
    /// ended.
    pub fn new(reply: Reply) -> (r: Result<Paste, PasteError>)
        ensures
            match r {
                Ok(paste) => create_result(reply@) == Ok::<PasteView, PasteErrorView>(paste@),
                Err(e) => create_result(reply@) == Err::<PasteView, PasteErrorView>(e@),
            },
    {
        match reply {
            Reply::Failure { cause } => Err(PasteError::TransportError(cause)),
            Reply::Response { status, body } => {
                let outcome = if status == 201 {
                    Outcome::Created
                } else if status == 206 {
                    Outcome::PartiallyCreated
                } else {
                    return Err(PasteError::RemoteError { status, body });
                };
                match extract_paste_id(&body) {
                    Ok(id) => Ok(Paste { id, outcome: Some(outcome) }),
                    Err(e) => Err(e),
                }
            },
        }
    }

    /// The request that reads this paste: a get of its address, without a
    /// body.
    pub fn get_request(&self) -> (r: Request)
        ensures
            r.method == Method::Get,
            r.url@ == canonical_url(self.id@),
            r.content_type.is_none(),
            r.body@ == Seq::<char>::empty(),
    {
        Request { method: Method::Get, url: self.get_url(), content_type: None, body: String::new() }
    }

    /// The content of this paste, given how the exchange of `get_request`
    /// ended.
    pub fn get(&self, reply: Reply) -> (r: Result<String, PasteError>)
        ensures
            match r {
                Ok(content) => fetch_result(reply@) == Ok::<Seq<char>, PasteErrorView>(content@),
                Err(e) => fetch_result(reply@) == Err::<Seq<char>, PasteErrorView>(e@),
            },
    {
        match reply {
            Reply::Failure { cause } => Err(PasteError::TransportError(cause)),
            Reply::Response { status, body } => {
                if 200 <= status && status <= 299 {
                    Ok(body)
                } else {
                    Err(PasteError::RemoteError { status, body })
                }
            },
        }
    }
}

} // verus!
