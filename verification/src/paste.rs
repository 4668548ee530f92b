//! Pastes: the records of the service and the requests that fetch, create,
//! edit and delete them.

use crate::request::{Method, Payload, PayloadView, Reply, Request, RequestView};
use crate::text::{join, texts};
use vstd::prelude::*;
use vstd::string::*;

verus! {

/// Address under which pastes are created.
pub const SEND_ENDPOINT: &'static str = "https://paste.myst.rs/api/v2/paste";

/// Prefix of the address of one paste.
pub const PASTE_ENDPOINT: &'static str = "https://paste.myst.rs/api/v2/paste/";

/// One file of a paste.
#[allow(non_snake_case)]
#[derive(Clone, Debug)]
pub struct PastyObject {
    /// Id of the pasty; the service assigns it and ignores one sent on creation.
    pub _id: String,
    /// Language of the pasty.
    pub language: String,
    /// Title of the pasty.
    pub title: String,
    /// Contents of the pasty.
    pub code: String,
}

/// What a [`PastyObject`] holds.
#[allow(non_snake_case)]
pub struct PastyObjectView {
    pub _id: Seq<char>,
    pub language: Seq<char>,
    pub title: Seq<char>,
    pub code: Seq<char>,
}

impl View for PastyObject {
    type V = PastyObjectView;

    open spec fn view(&self) -> PastyObjectView {
        PastyObjectView {
            _id: self._id@,
            language: self.language@,
            title: self.title@,
            code: self.code@,
        }
    }
}

/// The views of a list of pasties, in order.
pub open spec fn pasties_view(list: Seq<PastyObject>) -> Seq<PastyObjectView> {
    list.map_values(|p: PastyObject| p@)
}

/// One recorded change of a paste.
#[allow(non_snake_case)]
#[derive(Clone, Debug)]
pub struct EditHistory {
    /// Unique id of the edit.
    pub _id: String,
    /// Id shared by the edits that were made together.
    pub editId: String,
    /// Kind of edit: title (0), pasty title (1), pasty language (2),
    /// pasty content (3), pasty added (4), pasty removed (5).
    pub editType: i32,
    /// Metadata of the edit, chiefly which pasty it touched.
    pub metadata: Vec<String>,
    /// The value before the edit.
    pub edit: String,
    /// Unix time of the edit.
    pub editedAt: i32,
}

/// What an [`EditHistory`] holds.
#[allow(non_snake_case)]
pub struct EditHistoryView {
    pub _id: Seq<char>,
    pub editId: Seq<char>,
    pub editType: int,
    pub metadata: Seq<Seq<char>>,
    pub edit: Seq<char>,
    pub editedAt: int,
}

impl View for EditHistory {
    type V = EditHistoryView;

    open spec fn view(&self) -> EditHistoryView {
        EditHistoryView {
            _id: self._id@,
            editId: self.editId@,
            editType: self.editType as int,
            metadata: texts(self.metadata@),
            edit: self.edit@,
            editedAt: self.editedAt as int,
        }
    }
}

/// A paste as the service returns it.
#[allow(non_snake_case)]
#[derive(Clone, Debug)]
pub struct PasteObject {
    /// Id of the paste.
    pub _id: String,
    /// Id of the owner; empty where the paste has none.
    pub ownerId: String,
    /// Title of the paste.
    pub title: String,
    /// Unix time of creation.
    pub createdAt: u64,
    /// When the paste expires: `never`, `1h`, `2h`, `10h`, `1d`, `2d`, `1w`,
    /// `1m` or `1y`.
    pub expiresIn: String,
    /// Unix time of deletion; 0 where the paste never expires.
    pub deletesAt: u64,
    /// Number of stars the paste received.
    pub stars: u64,
    /// Whether only the owner can read it.
    pub isPrivate: bool,
    /// Whether it is shown on the owner's public profile.
    pub isPublic: bool,
    /// Tags, in order.
    pub tags: Vec<String>,
    /// The files of the paste, in order; the service keeps at least one.
    pub pasties: Vec<PastyObject>,
    /// The edits made so far, in order.
    pub edits: Vec<EditHistory>,
}

/// What a [`PasteObject`] holds.
#[allow(non_snake_case)]
pub struct PasteObjectView {
    pub _id: Seq<char>,
    pub ownerId: Seq<char>,
    pub title: Seq<char>,
    pub createdAt: nat,
    pub expiresIn: Seq<char>,
    pub deletesAt: nat,
    pub stars: nat,
    pub isPrivate: bool,
    pub isPublic: bool,
    pub tags: Seq<Seq<char>>,
    pub pasties: Seq<PastyObjectView>,
    pub edits: Seq<EditHistoryView>,
}

impl View for PasteObject {
    type V = PasteObjectView;

    open spec fn view(&self) -> PasteObjectView {
        PasteObjectView {
            _id: self._id@,
            ownerId: self.ownerId@,
            title: self.title@,
            createdAt: self.createdAt as nat,
            expiresIn: self.expiresIn@,
            deletesAt: self.deletesAt as nat,
            stars: self.stars as nat,
            isPrivate: self.isPrivate,
            isPublic: self.isPublic,
            tags: texts(self.tags@),
            pasties: pasties_view(self.pasties@),
            edits: self.edits@.map_values(|e: EditHistory| e@),
        }
    }
}

/// What the caller supplies to create a paste.
#[allow(non_snake_case)]
#[derive(Clone, Debug)]
pub struct CreateObject {
    /// Title of the paste.
    pub title: String,
    /// When the paste expires: `never`, `1h`, `2h`, `10h`, `1d`, `2d`, `1w`,
    /// `1m` or `1y`.
    pub expiresIn: String,
    /// Whether only the owner can read it.
    pub isPrivate: bool,
    /// Whether it is shown on the owner's public profile.
    pub isPublic: bool,
    /// Tags, separated by commas.
    pub tags: String,
    /// The files of the paste. The service refuses an empty list; nothing
    /// here looks at it.
    pub pasties: Vec<PastyObject>,
}

/// What a [`CreateObject`] holds.
#[allow(non_snake_case)]
pub struct CreateObjectView {
    pub title: Seq<char>,
    pub expiresIn: Seq<char>,
    pub isPrivate: bool,
    pub isPublic: bool,
    pub tags: Seq<char>,
    pub pasties: Seq<PastyObjectView>,
}

impl View for CreateObject {
    type V = CreateObjectView;

    open spec fn view(&self) -> CreateObjectView {
        CreateObjectView {
            title: self.title@,
            expiresIn: self.expiresIn@,
            isPrivate: self.isPrivate,
            isPublic: self.isPublic,
            tags: self.tags@,
            pasties: pasties_view(self.pasties@),
        }
    }
}

/// What the caller supplies to edit a paste: a [`CreateObject`] without the
/// expiry, which an edit cannot change. The list of pasties replaces the
/// paste's list as a whole.
#[allow(non_snake_case)]
#[derive(Clone, Debug)]
pub struct EditObject {
    /// Title of the paste.
    pub title: String,
    /// Whether only the owner can read it.
    pub isPrivate: bool,
    /// Whether it is shown on the owner's public profile.
    pub isPublic: bool,
    /// Tags, separated by commas.
    pub tags: String,
    /// All the files of the paste, changed or not.
    pub pasties: Vec<PastyObject>,
}

/// What an [`EditObject`] holds.
#[allow(non_snake_case)]
pub struct EditObjectView {
    pub title: Seq<char>,
    pub isPrivate: bool,
    pub isPublic: bool,
    pub tags: Seq<char>,
    pub pasties: Seq<PastyObjectView>,
}

impl View for EditObject {
    type V = EditObjectView;

    open spec fn view(&self) -> EditObjectView {
        EditObjectView {
            title: self.title@,
            isPrivate: self.isPrivate,
            isPublic: self.isPublic,
            tags: self.tags@,
            pasties: pasties_view(self.pasties@),
        }
    }
}

/// The address of the paste `id`: the prefix and the id as given.
pub open spec fn paste_url(id: Seq<char>) -> Seq<char> {
    PASTE_ENDPOINT@ + id
}

/// Builds the address of the paste `id`.
pub fn parse_url(id: &str) -> (url: String)
    ensures
        url@ == paste_url(id@),
{
    join(PASTE_ENDPOINT, id)
}

/// Asks for the paste `id`, which anyone may read.
pub fn get_paste_request(id: &str) -> (request: Request)
    ensures
        request@ == (RequestView {
            method: Method::Get,
            url: paste_url(id@),
            authorization: None,
            body: None,
            reply: Reply::Record,
        }),
        request@.well_formed(),
{
    Request {
        method: Method::Get,
        url: parse_url(id),
        authorization: None,
        body: None,
        reply: Reply::Record,
    }
}

/// Asks for the paste `id` on behalf of its owner. The token goes out as it
/// is given, with no scheme written before it.
pub fn get_private_paste_request(id: &str, auth_token: &str) -> (request: Request)
    ensures
        request@ == (RequestView {
            method: Method::Get,
            url: paste_url(id@),
            authorization: Some(auth_token@),
            body: None,
            reply: Reply::Record,
        }),
        request@.well_formed(),
{
    Request {
        method: Method::Get,
        url: parse_url(id),
        authorization: Some(String::from_str(auth_token)),
        body: None,
        reply: Reply::Record,
    }
}

/// Submits `contents` as a new paste that belongs to nobody. The service
/// answers with the paste it made.
pub fn create_paste_request(contents: CreateObject) -> (request: Request)
    ensures
        request@ == (RequestView {
            method: Method::Post,
            url: SEND_ENDPOINT@,
            authorization: None,
            body: Some(PayloadView::Create(contents@)),
            reply: Reply::Record,
        }),
        request@.well_formed(),
{
    Request {
        method: Method::Post,
        url: String::from_str(SEND_ENDPOINT),
        authorization: None,
        body: Some(Payload::Create(contents)),
        reply: Reply::Record,
    }
}

/// Submits `contents` as a new paste owned by the account of `auth_token`.
pub fn create_private_paste_request(contents: CreateObject, auth_token: &str) -> (request: Request)
    ensures
        request@ == (RequestView {
            method: Method::Post,
            url: SEND_ENDPOINT@,
            authorization: Some(auth_token@),
            body: Some(PayloadView::Create(contents@)),
            reply: Reply::Record,
        }),
        request@.well_formed(),
{
    Request {
        method: Method::Post,
        url: String::from_str(SEND_ENDPOINT),
        authorization: Some(String::from_str(auth_token)),
        body: Some(Payload::Create(contents)),
        reply: Reply::Record,
    }
}

/// Replaces the editable fields of the paste `id` by `edit_info`, on behalf
/// of its owner. The service answers with the paste as it then stands.
pub fn edit_paste_request(edit_info: EditObject, id: &str, auth_token: &str) -> (request: Request)
    ensures
        request@ == (RequestView {
            method: Method::Patch,
            url: paste_url(id@),
            authorization: Some(auth_token@),
            body: Some(PayloadView::Edit(edit_info@)),
            reply: Reply::Record,
        }),
        request@.well_formed(),
{
    Request {
        method: Method::Patch,
        url: parse_url(id),
        authorization: Some(String::from_str(auth_token)),
        body: Some(Payload::Edit(edit_info)),
        reply: Reply::Record,
    }
}

/// Deletes the paste `id` on behalf of its owner. The answer is the status
/// code as the service gave it, 200 where the paste is gone; no code is
/// turned into a failure here.
pub fn delete_paste_request(id: &str, auth_token: &str) -> (request: Request)
    ensures
        request@ == (RequestView {
            method: Method::Delete,
            url: paste_url(id@),
            authorization: Some(auth_token@),
            body: None,
            reply: Reply::Status,
        }),
        request@.well_formed(),
{
    Request {
        method: Method::Delete,
        url: parse_url(id),
        authorization: Some(String::from_str(auth_token)),
        body: None,
        reply: Reply::Status,
    }
}

} // verus!
