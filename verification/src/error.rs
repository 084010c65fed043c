//! Errors of the KRA client.
use vstd::prelude::*;

verus! {

/// All errors that can occur when interacting with the KRA API.
#[derive(Debug)]
pub enum GavaConnectError {
    /// HTTP transport failure, with the transport's message.
    Http(String),
    /// The API answered with an error status or a body that is not JSON.
    Api { status: u16, body: String },
    /// A response body could not be decoded into the expected shape.
    Deserialize(String),
    /// The client has no access token: `authenticate` must run first.
    NotAuthenticated,
    /// KRA answered with a domain error code (e.g. 84002).
    Kra { code: String, message: String },
}

/// The model of an error, with texts as character sequences.
pub enum ErrorView {
    Http(Seq<char>),
    Api { status: u16, body: Seq<char> },
    Deserialize(Seq<char>),
    NotAuthenticated,
    Kra { code: Seq<char>, message: Seq<char> },
}

impl View for GavaConnectError {
    type V = ErrorView;

    open spec fn view(&self) -> ErrorView {
        match self {
            GavaConnectError::Http(m) => ErrorView::Http(m@),
            GavaConnectError::Api { status, body } => ErrorView::Api { status: *status, body: body@ },
            GavaConnectError::Deserialize(m) => ErrorView::Deserialize(m@),
            GavaConnectError::NotAuthenticated => ErrorView::NotAuthenticated,
            GavaConnectError::Kra { code, message } => ErrorView::Kra {
                code: code@,
                message: message@,
            },
        }
    }
}

} // verus!
