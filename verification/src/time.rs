//! Expiry tags and their conversion into a point in time, which the service
//! computes.

pub mod expires_in;

use crate::request::{Method, Reply, Request, RequestView};
use crate::text::{decimal, decimal_digits, join, same};
use vstd::prelude::*;
use vstd::string::*;

verus! {

/// Address of the conversion.
pub const TIME_ENDPOINT: &'static str = "https://paste.myst.rs/api/v2/time/expiresInToUnixTime";

/// What stands before the time of creation in the address.
pub const CREATED_AT_PARAMETER: &'static str = "?createdAt=";

/// What stands before the expiry tag in the address.
pub const EXPIRES_IN_PARAMETER: &'static str = "&expiresIn=";

/// What is said of a conversion that was given an unknown tag.
pub const INVALID_NOTICE: &'static str =
    "[pastemyst] The given expires timestamp is not valid and 0 will be returned.";

/// Whether `tag` is one of the nine expiry tags.
pub open spec fn valid_expiry(tag: Seq<char>) -> bool {
    ||| tag == expires_in::NEVER@
    ||| tag == expires_in::ONE_HOUR@
    ||| tag == expires_in::TWO_HOURS@
    ||| tag == expires_in::TEN_HOURS@
    ||| tag == expires_in::ONE_DAY@
    ||| tag == expires_in::TWO_DAYS@
    ||| tag == expires_in::ONE_WEEK@
    ||| tag == expires_in::ONE_MONTH@
    ||| tag == expires_in::ONE_YEAR@
}

/// The address that converts: the endpoint, then the time of creation in
/// decimal and the tag as given, as the two query parameters.
pub open spec fn time_url(created_at: u64, tag: Seq<char>) -> Seq<char> {
    TIME_ENDPOINT@ + CREATED_AT_PARAMETER@ + decimal_digits(created_at as nat)
        + EXPIRES_IN_PARAMETER@ + tag
}

/// Tells whether `tag` is one of the nine expiry tags.
pub fn is_valid_expiry(tag: &str) -> (valid: bool)
    ensures
        valid == valid_expiry(tag@),
{
    same(tag, expires_in::NEVER) || same(tag, expires_in::ONE_HOUR) || same(
        tag,
        expires_in::TWO_HOURS,
    ) || same(tag, expires_in::TEN_HOURS) || same(tag, expires_in::ONE_DAY) || same(
        tag,
        expires_in::TWO_DAYS,
    ) || same(tag, expires_in::ONE_WEEK) || same(tag, expires_in::ONE_MONTH) || same(
        tag,
        expires_in::ONE_YEAR,
    )
}

/// Builds the address that converts `expires_in`, counted from `created_at`.
pub fn parse_time(created_at: u64, expires_in: &str) -> (url: String)
    ensures
        url@ == time_url(created_at, expires_in@),
{
    let mut url = join(TIME_ENDPOINT, CREATED_AT_PARAMETER);
    let numeral = decimal(created_at);
    url.append(numeral.as_str());
    url.append(EXPIRES_IN_PARAMETER);
    url.append(expires_in);
    url
}

/// How a conversion goes on once its tag has been looked at.
#[derive(Clone, Debug)]
pub enum ExpiryStep {
    /// The tag is known: ask the service with this request. The answer is the
    /// number in the reply's `result` field.
    Fetch(Request),
    /// The tag is unknown: answer `result`, say `notice`, ask nothing.
    Invalid { result: u64, notice: String },
}

/// What an [`ExpiryStep`] holds.
pub enum ExpiryStepView {
    Fetch(RequestView),
    Invalid { result: u64, notice: Seq<char> },
}

impl View for ExpiryStep {
    type V = ExpiryStepView;

    open spec fn view(&self) -> ExpiryStepView {
        match *self {
            ExpiryStep::Fetch(request) => ExpiryStepView::Fetch(request@),
            ExpiryStep::Invalid { result, notice } => ExpiryStepView::Invalid {
                result,
                notice: notice@,
            },
        }
    }
}

impl ExpiryStepView {
    /// The requests that this step sends to the service.
    pub open spec fn requests(self) -> Seq<RequestView> {
        match self {
            ExpiryStepView::Fetch(request) => seq![request],
            ExpiryStepView::Invalid { .. } => Seq::<RequestView>::empty(),
        }
    }
}

/// The step that a conversion of `tag`, counted from `created_at`, takes.
pub open spec fn expiry_step(created_at: u64, tag: Seq<char>) -> ExpiryStepView {
    if valid_expiry(tag) {
        ExpiryStepView::Fetch(
            RequestView {
                method: Method::Get,
                url: time_url(created_at, tag),
                authorization: None,
                body: None,
                reply: Reply::Record,
            },
        )
    } else {
        ExpiryStepView::Invalid { result: 0, notice: INVALID_NOTICE@ }
    }
}

/// Decides how the conversion of `expires_in`, counted from `created_at`,
/// goes on: to the service with a known tag, and to the answer 0 with any
/// other text.
pub fn expires_into_unix_step(created_at: u64, expires_in: &str) -> (step: ExpiryStep)
    ensures
        step@ == expiry_step(created_at, expires_in@),
        step@ matches ExpiryStepView::Fetch(request) ==> request.well_formed(),
{
    if is_valid_expiry(expires_in) {
        ExpiryStep::Fetch(
            Request {
                method: Method::Get,
                url: parse_time(created_at, expires_in),
                authorization: None,
                body: None,
                reply: Reply::Record,
            },
        )
    } else {
        ExpiryStep::Invalid { result: 0, notice: String::from_str(INVALID_NOTICE) }
    }
}

/// A conversion sends exactly one request where its tag is one of the nine;
/// for every other text it sends none and its answer is 0.
pub proof fn lemma_conversion_requests(created_at: u64, tag: Seq<char>)
    ensures
        valid_expiry(tag) ==> expiry_step(created_at, tag).requests().len() == 1,
        !valid_expiry(tag) ==> expiry_step(created_at, tag).requests().len() == 0,
        !valid_expiry(tag) ==> expiry_step(created_at, tag) == (ExpiryStepView::Invalid {
            result: 0,
            notice: INVALID_NOTICE@,
        }),
{
}

} // verus!
