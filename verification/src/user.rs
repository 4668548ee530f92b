//! Users: the record of the service, the existence check and the lookup that
//! rests on it.

use crate::request::{Method, Reply, Request, RequestView};
use crate::text::join;
use vstd::prelude::*;
use vstd::string::*;

verus! {

/// Prefix of the address of one user.
pub const USER_ENDPOINT: &'static str = "https://paste.myst.rs/api/v2/user/";

/// What follows the username in the address of the existence check.
pub const EXISTS_SUFFIX: &'static str = "/exists";

/// What is said of a lookup that found no user, before the username.
pub const ABSENT_NOTICE_HEAD: &'static str = "[pastemyst] The user '";

/// What is said of a lookup that found no user, after the username.
pub const ABSENT_NOTICE_TAIL: &'static str = "' does not exist and an empty object is returned.\n";

/// The public details of a user.
#[allow(non_snake_case)]
#[derive(Clone, Debug)]
pub struct UserObject {
    /// Id of the user.
    pub _id: String,
    /// The username.
    pub username: String,
    /// Address of the avatar image.
    pub avatarUrl: String,
    /// The user's default pasty language.
    pub defaultLang: String,
    /// Whether the profile is public.
    pub publicProfile: bool,
    /// How long the user has been a supporter; 0 for none.
    pub supporterLength: u32,
    /// Whether the user has contributed to the service.
    pub contributor: bool,
}

/// What a [`UserObject`] holds.
#[allow(non_snake_case)]
pub struct UserObjectView {
    pub _id: Seq<char>,
    pub username: Seq<char>,
    pub avatarUrl: Seq<char>,
    pub defaultLang: Seq<char>,
    pub publicProfile: bool,
    pub supporterLength: nat,
    pub contributor: bool,
}

impl View for UserObject {
    type V = UserObjectView;

    open spec fn view(&self) -> UserObjectView {
        UserObjectView {
            _id: self._id@,
            username: self.username@,
            avatarUrl: self.avatarUrl@,
            defaultLang: self.defaultLang@,
            publicProfile: self.publicProfile,
            supporterLength: self.supporterLength as nat,
            contributor: self.contributor,
        }
    }
}

/// The record that stands for no user: every text empty, every flag false,
/// the number 0.
pub open spec fn empty_user() -> UserObjectView {
    UserObjectView {
        _id: Seq::<char>::empty(),
        username: Seq::<char>::empty(),
        avatarUrl: Seq::<char>::empty(),
        defaultLang: Seq::<char>::empty(),
        publicProfile: false,
        supporterLength: 0,
        contributor: false,
    }
}

impl UserObject {
    /// Makes the record that stands for no user.
    pub fn empty() -> (user: UserObject)
        ensures
            user@ == empty_user(),
    {
        UserObject {
            _id: String::new(),
            username: String::new(),
            avatarUrl: String::new(),
            defaultLang: String::new(),
            publicProfile: false,
            supporterLength: 0,
            contributor: false,
        }
    }
}

/// The address of the user `username`: the prefix and the name as given.
pub open spec fn user_url(username: Seq<char>) -> Seq<char> {
    USER_ENDPOINT@ + username
}

/// The address that tells whether the user `username` exists.
pub open spec fn user_exists_url(username: Seq<char>) -> Seq<char> {
    USER_ENDPOINT@ + username + EXISTS_SUFFIX@
}

/// What a lookup says when it found no user `username`.
pub open spec fn absent_notice(username: Seq<char>) -> Seq<char> {
    ABSENT_NOTICE_HEAD@ + username + ABSENT_NOTICE_TAIL@
}

/// Builds the address of the user `username`.
pub fn parse_user(username: &str) -> (url: String)
    ensures
        url@ == user_url(username@),
{
    join(USER_ENDPOINT, username)
}

/// Builds the address of the existence check for `username`.
pub fn parse_user_get(username: &str) -> (url: String)
    ensures
        url@ == user_exists_url(username@),
{
    let mut url = join(USER_ENDPOINT, username);
    url.append(EXISTS_SUFFIX);
    url
}

/// The request of the existence check for `username`.
pub open spec fn exists_request(username: Seq<char>) -> RequestView {
    RequestView {
        method: Method::Get,
        url: user_exists_url(username),
        authorization: None,
        body: None,
        reply: Reply::Status,
    }
}

/// The request that fetches the record of `username`.
pub open spec fn fetch_request(username: Seq<char>) -> RequestView {
    RequestView {
        method: Method::Get,
        url: user_url(username),
        authorization: None,
        body: None,
        reply: Reply::Record,
    }
}

/// What a status code of the existence check says: the user exists exactly
/// where it is 200.
pub open spec fn status_means_exists(status: u16) -> bool {
    status == 200
}

/// Asks whether the user `username` exists. Only the status of the reply is
/// read.
pub fn user_exists_request(username: &str) -> (request: Request)
    ensures
        request@ == exists_request(username@),
        request@.well_formed(),
{
    Request {
        method: Method::Get,
        url: parse_user_get(username),
        authorization: None,
        body: None,
        reply: Reply::Status,
    }
}

/// Reads the reply to the existence check: `true` for 200, `false` for 404,
/// and `false` as well for every other code, none of which is taken for a
/// failure.
pub fn user_exists_from_status(status: u16) -> (exists: bool)
    ensures
        exists == status_means_exists(status),
        status == 200 ==> exists,
        status == 404 ==> !exists,
{
    let mut exists = false;
    if status == 200 {
        exists = true;
    } else if status == 404 {
        exists = false;
    }
    exists
}

/// How a lookup goes on once it is known whether the user exists.
#[derive(Clone, Debug)]
pub enum UserStep {
    /// The user exists: fetch the record with this request.
    Fetch(Request),
    /// There is no such user: answer `user`, say `notice`, ask nothing more.
    Absent { user: UserObject, notice: String },
}

/// What a [`UserStep`] holds.
pub enum UserStepView {
    Fetch(RequestView),
    Absent { user: UserObjectView, notice: Seq<char> },
}

impl View for UserStep {
    type V = UserStepView;

    open spec fn view(&self) -> UserStepView {
        match *self {
            UserStep::Fetch(request) => UserStepView::Fetch(request@),
            UserStep::Absent { user, notice } => UserStepView::Absent {
                user: user@,
                notice: notice@,
            },
        }
    }
}

impl UserStepView {
    /// The requests that this step sends to the service.
    pub open spec fn requests(self) -> Seq<RequestView> {
        match self {
            UserStepView::Fetch(request) => seq![request],
            UserStepView::Absent { .. } => Seq::<RequestView>::empty(),
        }
    }
}

/// The step that follows the existence check for `username`.
pub open spec fn user_step(username: Seq<char>, exists: bool) -> UserStepView {
    if exists {
        UserStepView::Fetch(fetch_request(username))
    } else {
        UserStepView::Absent { user: empty_user(), notice: absent_notice(username) }
    }
}

/// All that a lookup of `username` sends, in order, where the existence
/// check is answered with `status`.
pub open spec fn lookup_requests(username: Seq<char>, status: u16) -> Seq<RequestView> {
    seq![exists_request(username)] + user_step(username, status_means_exists(status)).requests()
}

/// Decides how the lookup of `username` goes on, given the outcome of the
/// existence check that precedes every lookup.
pub fn get_user_step(username: &str, exists: bool) -> (step: UserStep)
    ensures
        step@ == user_step(username@, exists),
        step@ matches UserStepView::Fetch(request) ==> request.well_formed(),
{
    if exists {
        UserStep::Fetch(
            Request {
                method: Method::Get,
                url: parse_user(username),
                authorization: None,
                body: None,
                reply: Reply::Record,
            },
        )
    } else {
        let mut notice = join(ABSENT_NOTICE_HEAD, username);
        notice.append(ABSENT_NOTICE_TAIL);
        UserStep::Absent { user: UserObject::empty(), notice }
    }
}

/// The lookup of a user whom the service reports absent sends the existence
/// check and nothing else, and answers the record in which every text is
/// empty, every flag false and the number 0.
pub proof fn lemma_absent_user_lookup(username: Seq<char>, status: u16)
    requires
        !status_means_exists(status),
    ensures
        lookup_requests(username, status) == seq![exists_request(username)],
        !lookup_requests(username, status).contains(fetch_request(username)),
        user_step(username, status_means_exists(status)) matches UserStepView::Absent { user, notice }
            && {
            &&& notice == absent_notice(username)
            &&& user._id.len() == 0
            &&& user.username.len() == 0
            &&& user.avatarUrl.len() == 0
            &&& user.defaultLang.len() == 0
            &&& !user.publicProfile
            &&& user.supporterLength == 0
            &&& !user.contributor
        },
{
    let sent = lookup_requests(username, status);
    assert(sent =~= seq![exists_request(username)]);
    assert(exists_request(username).reply != fetch_request(username).reply);
}

/// The lookup of a user who exists sends two requests: the existence check,
/// then the fetch of the record.
pub proof fn lemma_present_user_lookup(username: Seq<char>, status: u16)
    requires
        status_means_exists(status),
    ensures
        lookup_requests(username, status) == seq![
            exists_request(username),
            fetch_request(username),
        ],
{
    assert(lookup_requests(username, status) =~= seq![
        exists_request(username),
        fetch_request(username),
    ]);
}

} // verus!
