//! The description of one HTTP exchange, as an operation hands it to the
//! transport.

use crate::paste::{CreateObject, CreateObjectView, EditObject, EditObjectView};
use vstd::prelude::*;
use vstd::string::*;

verus! {

/// Name of the header that carries the caller's token.
pub const AUTHORIZATION: &'static str = "Authorization";

/// Name of the header that announces the body's format.
pub const CONTENT_TYPE: &'static str = "Content-Type";

/// Media type of every body this client sends.
pub const APPLICATION_JSON: &'static str = "application/json";

/// The HTTP method of a request.
#[derive(Clone, Copy, Debug, PartialEq, Eq, Structural)]
pub enum Method {
    Get,
    Post,
    Patch,
    Delete,
}

/// The part of the reply that an operation reads.
#[derive(Clone, Copy, Debug, PartialEq, Eq, Structural)]
pub enum Reply {
    /// The body, decoded from JSON into the operation's record.
    Record,
    /// The numeric status code alone; the body is not read.
    Status,
}

/// A record to be sent as the JSON body of a request.
#[derive(Clone, Debug)]
pub enum Payload {
    Create(CreateObject),
    Edit(EditObject),
}

/// What a [`Payload`] holds.
pub enum PayloadView {
    Create(CreateObjectView),
    Edit(EditObjectView),
}

impl View for Payload {
    type V = PayloadView;

    open spec fn view(&self) -> PayloadView {
        match *self {
            Payload::Create(contents) => PayloadView::Create(contents@),
            Payload::Edit(contents) => PayloadView::Edit(contents@),
        }
    }
}

/// One HTTP exchange to perform.
#[derive(Clone, Debug)]
pub struct Request {
    pub method: Method,
    /// The full address, sent as it stands: nothing in it is escaped.
    pub url: String,
    /// The token to send verbatim under [`AUTHORIZATION`], if any.
    pub authorization: Option<String>,
    /// The record to send as JSON, if any.
    pub body: Option<Payload>,
    pub reply: Reply,
}

/// What a [`Request`] holds.
pub struct RequestView {
    pub method: Method,
    pub url: Seq<char>,
    pub authorization: Option<Seq<char>>,
    pub body: Option<PayloadView>,
    pub reply: Reply,
}

impl View for Request {
    type V = RequestView;

    open spec fn view(&self) -> RequestView {
        RequestView {
            method: self.method,
            url: self.url@,
            authorization: match self.authorization {
                Some(token) => Some(token@),
                None => None,
            },
            body: match self.body {
                Some(payload) => Some(payload@),
                None => None,
            },
            reply: self.reply,
        }
    }
}

/// One header line of a request.
#[derive(Clone, Debug)]
pub struct Header {
    pub name: String,
    pub value: String,
}

impl View for Header {
    type V = (Seq<char>, Seq<char>);

    open spec fn view(&self) -> (Seq<char>, Seq<char>) {
        (self.name@, self.value@)
    }
}

/// The views of a list of headers, in order.
pub open spec fn headers_view(list: Seq<Header>) -> Seq<(Seq<char>, Seq<char>)> {
    list.map_values(|h: Header| h@)
}

impl RequestView {
    /// The headers that go out with the request, in order: the token under
    /// [`AUTHORIZATION`] where there is one, then the body's format under
    /// [`CONTENT_TYPE`] where there is a body.
    pub open spec fn headers(self) -> Seq<(Seq<char>, Seq<char>)> {
        let token = match self.authorization {
            Some(token) => seq![(AUTHORIZATION@, token)],
            None => Seq::<(Seq<char>, Seq<char>)>::empty(),
        };
        let format = if self.body is Some {
            seq![(CONTENT_TYPE@, APPLICATION_JSON@)]
        } else {
            Seq::<(Seq<char>, Seq<char>)>::empty()
        };
        token + format
    }

    /// What the service's interface asks of each method: a fetch carries no
    /// body, a creation carries a new paste, an edit carries the edited
    /// fields and a token, a deletion carries a token and no body and reads
    /// the status alone.
    pub open spec fn well_formed(self) -> bool {
        match self.method {
            Method::Get => self.body is None,
            Method::Post => self.body is Some && self.body->0 is Create && self.reply == Reply::Record,
            Method::Patch => {
                &&& self.body is Some
                &&& self.body->0 is Edit
                &&& self.authorization is Some
                &&& self.reply == Reply::Record
            },
            Method::Delete => {
                &&& self.body is None
                &&& self.authorization is Some
                &&& self.reply == Reply::Status
            },
        }
    }
}

impl Request {
    /// Lists the headers to attach to the request, in the order in which
    /// they are attached.
    pub fn headers(&self) -> (list: Vec<Header>)
        ensures
            headers_view(list@) == self@.headers(),
    {
        let mut list: Vec<Header> = Vec::new();
        match &self.authorization {
            Some(token) => {
                list.push(
                    Header {
                        name: String::from_str(AUTHORIZATION),
                        value: String::from_str(token.as_str()),
                    },
                );
            },
            None => {},
        }
        match &self.body {
            Some(_) => {
                list.push(
                    Header {
                        name: String::from_str(CONTENT_TYPE),
                        value: String::from_str(APPLICATION_JSON),
                    },
                );
            },
            None => {},
        }
        assert(headers_view(list@) =~= self@.headers());
        list
    }
}

} // verus!
