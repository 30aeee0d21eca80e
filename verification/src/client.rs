//! The store client: which requests it makes and how it reads the answers.

use vstd::prelude::*;
use vstd::string::*;
use crate::model::{ContentServiceError, ErrorView, FileKey, FileKeyView};
use crate::text::{strip_trailing, without_trailing};
use crate::token::{escaped_digest, name_token, path_tokens};

verus! {

/// What came of one request.
#[derive(Debug)]
pub enum TransportReply {
    /// The request could not be sent, or no answer was received: a
    /// description of what went wrong.
    Failed(String),
    /// The store answered with a status code. The body is its text, or a
    /// description of why it could not be read.
    Answered { status: u16, body: Result<String, String> },
}

/// What a `TransportReply` holds, as plain text.
pub enum ReplyView {
    Failed(Seq<char>),
    Answered { status: u16, body: Result<Seq<char>, Seq<char>> },
}

impl View for TransportReply {
    type V = ReplyView;

    open spec fn view(&self) -> ReplyView {
        match self {
            TransportReply::Failed(why) => ReplyView::Failed(why@),
            TransportReply::Answered { status, body } => ReplyView::Answered {
                status: *status,
                body: match body {
                    Ok(text) => Ok(text@),
                    Err(why) => Err(why@),
                },
            },
        }
    }
}

/// The body of an answer, or the empty text where it could not be read.
pub open spec fn body_or_empty(body: Result<Seq<char>, Seq<char>>) -> Seq<char> {
    match body {
        Ok(text) => text,
        Err(_) => Seq::empty(),
    }
}

/// What a reply to a lookup means. Status 200 with a readable body: the
/// package is there, at the reference in the body. Status 404: it is not
/// there. Any other status: the store rejected the request. No answer, or a
/// body of a 200 that cannot be read: a network failure.
pub open spec fn lookup_outcome(reply: ReplyView) -> Result<Option<Seq<char>>, ErrorView> {
    match reply {
        ReplyView::Failed(why) => Err(ErrorView::NetworkError(why)),
        ReplyView::Answered { status, body } => {
            if status == 200 {
                match body {
                    Ok(uri) => Ok(Some(uri)),
                    Err(why) => Err(ErrorView::NetworkError(why)),
                }
            } else if status == 404 {
                Ok(None)
            } else {
                Err(ErrorView::UploadFailed(body_or_empty(body), status))
            }
        },
    }
}

/// What a reply to an upload means. A status from 200 to 299 with a readable
/// body: the package is stored at the reference in the body. Any other
/// status: the store rejected the upload. No answer, or a body of a success
/// that cannot be read: a network failure.
pub open spec fn upload_outcome(reply: ReplyView) -> Result<Seq<char>, ErrorView> {
    match reply {
        ReplyView::Failed(why) => Err(ErrorView::NetworkError(why)),
        ReplyView::Answered { status, body } => {
            if 200 <= status && status <= 299 {
                match body {
                    Ok(uri) => Ok(uri),
                    Err(why) => Err(ErrorView::NetworkError(why)),
                }
            } else {
                Err(ErrorView::UploadFailed(body_or_empty(body), status))
            }
        },
    }
}

/// The result of a lookup, as plain text.
pub open spec fn lookup_view(found: Result<Option<String>, ContentServiceError>) -> Result<
    Option<Seq<char>>,
    ErrorView,
> {
    match found {
        Ok(Some(uri)) => Ok(Some(uri@)),
        Ok(None) => Ok(None),
        Err(e) => Err(e@),
    }
}

/// The result of an upload, as plain text.
pub open spec fn stored_view(stored: Result<String, ContentServiceError>) -> Result<Seq<char>, ErrorView> {
    match stored {
        Ok(uri) => Ok(uri@),
        Err(e) => Err(e@),
    }
}

/// Reads the reply to a lookup.
pub fn interpret_lookup(reply: TransportReply) -> (found: Result<Option<String>, ContentServiceError>)
    ensures
        lookup_view(found) == lookup_outcome(reply@),
{
    match reply {
        TransportReply::Failed(why) => Err(ContentServiceError::NetworkError(why)),
        TransportReply::Answered { status, body } => {
            if status == 200 {
                match body {
                    Ok(uri) => Ok(Some(uri)),
                    Err(why) => Err(ContentServiceError::NetworkError(why)),
                }
            } else if status == 404 {
                Ok(None)
            } else {
                let text = match body {
                    Ok(text) => text,
                    Err(_) => String::new(),
                };
                Err(ContentServiceError::UploadFailed(text, status))
            }
        },
    }
}

/// Reads the reply to an upload.
pub fn interpret_upload(reply: TransportReply) -> (stored: Result<String, ContentServiceError>)
    ensures
        stored_view(stored) == upload_outcome(reply@),
{
    match reply {
        TransportReply::Failed(why) => Err(ContentServiceError::NetworkError(why)),
        TransportReply::Answered { status, body } => {
            if 200 <= status && status <= 299 {
                match body {
                    Ok(uri) => Ok(uri),
                    Err(why) => Err(ContentServiceError::NetworkError(why)),
                }
            } else {
                let text = match body {
                    Ok(text) => text,
                    Err(_) => String::new(),
                };
                Err(ContentServiceError::UploadFailed(text, status))
            }
        },
    }
}

/// The address under which the store keeps its packages, below the endpoint.
pub open spec fn packages_url(endpoint: Seq<char>) -> Seq<char> {
    endpoint + "/api/v1/content/packages"@
}

/// The address that answers whether the store holds the package of a key.
pub open spec fn lookup_url(endpoint: Seq<char>, key: FileKeyView) -> Seq<char> {
    packages_url(endpoint) + "/"@ + escaped_digest(key.hash) + "/"@ + name_token(key.name)
}

/// A client of one store, known by its endpoint.
#[derive(Debug, Clone, PartialEq, Eq)]
pub struct SIContentServiceClient {
    service_uri: String,
}

impl SIContentServiceClient {
    /// The endpoint: the address given at construction, without the `/` at
    /// its end.
    pub closed spec fn endpoint(&self) -> Seq<char> {
        self.service_uri@
    }

    /// A client of the store at `service_uri`.
    pub fn new(service_uri: &str) -> (client: Self)
        ensures
            client.endpoint() == without_trailing(service_uri@, '/'),
    {
        SIContentServiceClient { service_uri: String::from_str(strip_trailing(service_uri, '/')) }
    }

    /// The endpoint of the store.
    pub fn service_uri(&self) -> (uri: &str)
        ensures
            uri@ == self.endpoint(),
    {
        self.service_uri.as_str()
    }

    /// The address to which packages are posted.
    pub fn upload_url(&self) -> (url: String)
        ensures
            url@ == packages_url(self.endpoint()),
    {
        let mut url = String::from_str(self.service_uri.as_str());
        url.append("/api/v1/content/packages");
        url
    }

    /// The address that is asked whether the store holds the package of `key`.
    pub fn lookup_url(&self, key: &FileKey) -> (url: String)
        ensures
            url@ == lookup_url(self.endpoint(), key@),
    {
        let tokens = path_tokens(key);
        let mut url = self.upload_url();
        url.append("/");
        url.append(tokens.0.as_str());
        url.append("/");
        url.append(tokens.1.as_str());
        url
    }
}

} // verus!
