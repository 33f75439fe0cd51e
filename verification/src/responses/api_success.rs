//! The one structured success that an operation reports.
use vstd::prelude::*;
use vstd::string::StringExecFns;
use crate::responses::api_error::Status;

verus! {

/// What a success carries: a message, rendered as an object with the single
/// field `success`, or a document that is handed on as it is.
#[derive(Debug)]
pub enum Body {
    Message(String),
    Data(String),
}

/// A success body as plain mathematical values.
pub enum BodyView {
    Message(Seq<char>),
    Data(Seq<char>),
}

impl View for Body {
    type V = BodyView;

    open spec fn view(&self) -> BodyView {
        match self {
            Body::Message(text) => BodyView::Message(text@),
            Body::Data(text) => BodyView::Data(text@),
        }
    }
}

/// A success: its body and the status `Success`.
#[derive(Debug)]
pub struct ApiSuccess {
    pub json: Body,
    pub status: Status,
}

impl ApiSuccess {
    /// A success that carries only a message.
    pub fn default(message: &str) -> (success: ApiSuccess)
        ensures
            success.json@ == BodyView::Message(message@),
            success.status == Status::Success,
    {
        ApiSuccess { json: Body::Message(String::from_str(message)), status: Status::Success }
    }

    /// A success that carries a document, given as its text.
    pub fn data(data: String) -> (success: ApiSuccess)
        ensures
            success.json@ == BodyView::Data(data@),
            success.status == Status::Success,
    {
        ApiSuccess { json: Body::Data(data), status: Status::Success }
    }
}

} // verus!
