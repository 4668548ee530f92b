//! Languages: the record of the service and the requests that look one up,
//! by name or by file extension.

pub mod language;

use crate::request::{Method, Reply, Request, RequestView};
use crate::text::{join, same, texts};
use vstd::prelude::*;
use vstd::string::*;

verus! {

/// Prefix of the addresses of the language data.
pub const DATA_ENDPOINT: &'static str = "https://paste.myst.rs/api/v2/data/";

/// The kind of lookup that goes by a language's name.
pub const BY_NAME: &'static str = "name";

/// The kind of lookup that goes by a file extension.
pub const BY_EXTENSION: &'static str = "ext";

/// What follows the prefix in a lookup by name.
pub const NAME_QUERY: &'static str = "language?name=";

/// What follows the prefix in a lookup by extension.
pub const EXTENSION_QUERY: &'static str = "languageExt?extension=";

/// What the service knows of a language.
#[derive(Clone, Debug)]
pub struct DataObject {
    /// The name of the language.
    pub name: String,
    /// The mode that an editor uses for it.
    pub mode: String,
    /// Its MIME types.
    pub mimes: Vec<String>,
    /// Its file extensions, where the service lists any.
    pub ext: Option<Vec<String>>,
    /// The colour that stands for it, where the service has one.
    pub color: Option<String>,
}

/// What a [`DataObject`] holds.
pub struct DataObjectView {
    pub name: Seq<char>,
    pub mode: Seq<char>,
    pub mimes: Seq<Seq<char>>,
    pub ext: Option<Seq<Seq<char>>>,
    pub color: Option<Seq<char>>,
}

impl View for DataObject {
    type V = DataObjectView;

    open spec fn view(&self) -> DataObjectView {
        DataObjectView {
            name: self.name@,
            mode: self.mode@,
            mimes: texts(self.mimes@),
            ext: match self.ext {
                Some(list) => Some(texts(list@)),
                None => None,
            },
            color: match self.color {
                Some(color) => Some(color@),
                None => None,
            },
        }
    }
}

/// Whether `req_type` names one of the two kinds of lookup.
pub open spec fn known_lookup(req_type: Seq<char>) -> bool {
    req_type == BY_NAME@ || req_type == BY_EXTENSION@
}

/// The address that looks `value` up: by name where `req_type` says so, else
/// by extension. The value stands in it as given.
pub open spec fn language_url(value: Seq<char>, req_type: Seq<char>) -> Seq<char> {
    if req_type == BY_NAME@ {
        DATA_ENDPOINT@ + NAME_QUERY@ + value
    } else {
        DATA_ENDPOINT@ + EXTENSION_QUERY@ + value
    }
}

/// Builds the address that looks `value` up in the way `req_type` names.
pub fn parse_url(value: &str, req_type: &str) -> (url: String)
    requires
        known_lookup(req_type@),
    ensures
        url@ == language_url(value@, req_type@),
{
    let mut url = if same(req_type, BY_NAME) {
        join(DATA_ENDPOINT, NAME_QUERY)
    } else {
        join(DATA_ENDPOINT, EXTENSION_QUERY)
    };
    url.append(value);
    url
}

/// Asks for the language called `language_name`.
pub fn get_language_by_name_request(language_name: &str) -> (request: Request)
    ensures
        request@ == (RequestView {
            method: Method::Get,
            url: DATA_ENDPOINT@ + NAME_QUERY@ + language_name@,
            authorization: None,
            body: None,
            reply: Reply::Record,
        }),
        request@.well_formed(),
{
    Request {
        method: Method::Get,
        url: parse_url(language_name, BY_NAME),
        authorization: None,
        body: None,
        reply: Reply::Record,
    }
}

/// Asks for the language whose files end in `lang_extension`.
pub fn get_language_by_extension_request(lang_extension: &str) -> (request: Request)
    ensures
        request@ == (RequestView {
            method: Method::Get,
            url: DATA_ENDPOINT@ + EXTENSION_QUERY@ + lang_extension@,
            authorization: None,
            body: None,
            reply: Reply::Record,
        }),
        request@.well_formed(),
{
    proof {
        lemma_lookup_kinds_differ();
    }
    Request {
        method: Method::Get,
        url: parse_url(lang_extension, BY_EXTENSION),
        authorization: None,
        body: None,
        reply: Reply::Record,
    }
}

/// The two kinds of lookup have different names.
pub proof fn lemma_lookup_kinds_differ()
    ensures
        BY_NAME@ != BY_EXTENSION@,
{
    reveal_strlit("name");
    reveal_strlit("ext");
    assert(BY_NAME@.len() == 4);
    assert(BY_EXTENSION@.len() == 3);
}

} // verus!
