//! What the service client computes around its network calls: the address
//! of each request, and the message of each failure.

use vstd::prelude::*;
use vstd::string::*;
use crate::text::{decimal, decimal_text};
use crate::trip::GetByDestinationInput;

verus! {

/// Where the trip service lives. The address ends in the slash that every
/// route starts from.
pub const URL: &'static str = "https://backend-rust-277582128315.us-central1.run.app/";

/// The part of a destination query that travels as query parameters; the
/// destination itself is part of the address.
#[derive(Debug, Clone, PartialEq, Eq)]
pub struct GetByDestinationQuery {
    pub pages: String,
    pub per_page: String,
}

/// The address of the record with identifier `index`.
pub open spec fn index_address(index: Seq<char>) -> Seq<char> {
    URL@ + "trip/"@ + index
}

/// The address of the price-range search.
pub open spec fn price_range_address() -> Seq<char> {
    URL@ + "trip/price"@
}

/// The address of the search by destination zone `destination`.
pub open spec fn destination_address(destination: Seq<char>) -> Seq<char> {
    URL@ + "trip/destination/"@ + destination
}

/// Builds the address of one record. The identifier goes in as entered.
pub fn index_url(index: &str) -> (url: String)
    ensures
        url@ == index_address(index@),
{
    let mut url = String::from_str(URL);
    url.append("trip/");
    url.append(index);
    url
}

/// Builds the address of the price-range search.
pub fn price_range_url() -> (url: String)
    ensures
        url@ == price_range_address(),
{
    let mut url = String::from_str(URL);
    url.append("trip/price");
    url
}

/// Builds the address of a search by destination. The zone goes in as entered.
pub fn destination_url(destination: &str) -> (url: String)
    ensures
        url@ == destination_address(destination@),
{
    let mut url = String::from_str(URL);
    url.append("trip/destination/");
    url.append(destination);
    url
}

/// Picks the query parameters out of a destination query.
pub fn destination_query(data: &GetByDestinationInput) -> (query: GetByDestinationQuery)
    ensures
        query.pages@ == data.pages@,
        query.per_page@ == data.per_page@,
{
    GetByDestinationQuery { pages: data.pages.clone(), per_page: data.per_page.clone() }
}

/// How `reqwest::StatusCode` (the status type of the `http` crate) writes
/// the status with code `code`: the code and the reason phrase that goes
/// with it.
pub uninterp spec fn status_words(code: u16) -> Seq<char>;

/// Whether a status code is one that a status can have.
pub open spec fn is_status_code(code: u16) -> bool {
    100 <= code <= 999
}

/// Whether a status code reports success.
pub open spec fn is_success_code(code: u16) -> bool {
    200 <= code <= 299
}

/// How a status is named in a message: as the service client writes it,
/// or by its bare number where the number is no status code.
pub open spec fn status_label(code: u16) -> Seq<char> {
    if is_status_code(code) {
        status_words(code)
    } else {
        decimal(code as nat)
    }
}

/// Calls `reqwest::StatusCode::is_success` on the status with code `code`.
/// The claim: it holds exactly for the codes 200 to 299.
#[verifier::external_body]
fn status_reports_success(code: u16) -> (ok: bool)
    requires
        is_status_code(code),
    ensures
        ok == is_success_code(code),
{
    match reqwest::StatusCode::from_u16(code) {
        Ok(status) => status.is_success(),
        Err(_) => false,
    }
}

/// Calls the `Display` of `reqwest::StatusCode` on the status with code
/// `code`. The claim: the text it writes depends on the code alone.
#[verifier::external_body]
fn status_text(code: u16) -> (text: String)
    requires
        is_status_code(code),
    ensures
        text@ == status_words(code),
{
    match reqwest::StatusCode::from_u16(code) {
        Ok(status) => status.to_string(),
        Err(_) => String::new(),
    }
}

/// Whether a reply with status `code` carries what was asked for. A number
/// that is no status code reports no success.
pub fn is_success(code: u16) -> (ok: bool)
    ensures
        ok == is_success_code(code),
{
    if 100 <= code && code <= 999 {
        status_reports_success(code)
    } else {
        false
    }
}

/// Names the status with code `code` for a message.
pub fn status_name(code: u16) -> (text: String)
    ensures
        text@ == status_label(code),
{
    if 100 <= code && code <= 999 {
        status_text(code)
    } else {
        decimal_text(code as u64)
    }
}

/// Why a fetch failed.
#[derive(Debug, Clone, PartialEq, Eq)]
pub enum FetchError {
    /// The network call itself could not complete; holds the transport's words.
    Transport(String),
    /// The lookup of one record was answered with a status other than success.
    NotFound { status: u16 },
    /// A search was answered with a status other than success; `body` is the
    /// text that came with it, if it could be read.
    RemoteRejected { status: u16, body: Option<String> },
    /// The answer did not have the expected shape; holds the decoder's words.
    Decode(String),
}

/// What a failure says, as plain values.
pub enum FetchErrorView {
    Transport(Seq<char>),
    NotFound { status: u16 },
    RemoteRejected { status: u16, body: Option<Seq<char>> },
    Decode(Seq<char>),
}

impl FetchErrorView {
    /// The one-line message of a failure.
    pub open spec fn message(self) -> Seq<char> {
        match self {
            FetchErrorView::Transport(words) => words,
            FetchErrorView::NotFound { status } => "Error: Status "@ + status_label(status),
            FetchErrorView::RemoteRejected { status, body } => "Error "@ + status_label(status)
                + ": "@ + (match body {
                Some(text) => text,
                None => "Error desconocido"@,
            }),
            FetchErrorView::Decode(words) => words,
        }
    }
}

impl View for FetchError {
    type V = FetchErrorView;

    open spec fn view(&self) -> FetchErrorView {
        match self {
            FetchError::Transport(words) => FetchErrorView::Transport(words@),
            FetchError::NotFound { status } => FetchErrorView::NotFound { status: *status },
            FetchError::RemoteRejected { status, body } => FetchErrorView::RemoteRejected {
                status: *status,
                body: match body {
                    Some(text) => Some(text@),
                    None => None,
                },
            },
            FetchError::Decode(words) => FetchErrorView::Decode(words@),
        }
    }
}

impl FetchError {
    /// The one-line message of this failure.
    pub fn message(&self) -> (text: String)
        ensures
            text@ == self@.message(),
    {
        match self {
            FetchError::Transport(words) => words.clone(),
            FetchError::NotFound { status } => {
                let mut text = String::from_str("Error: Status ");
                text.append(status_name(*status).as_str());
                text
            },
            FetchError::RemoteRejected { status, body } => {
                let mut text = String::from_str("Error ");
                text.append(status_name(*status).as_str());
                text.append(": ");
                match body {
                    Some(words) => text.append(words.as_str()),
                    None => text.append("Error desconocido"),
                }
                text
            },
            FetchError::Decode(words) => words.clone(),
        }
    }
}

} // verus!
