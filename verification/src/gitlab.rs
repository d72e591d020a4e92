//! The one request that the indicator sends to GitLab, and the reading of
//! what comes back.
//!
//! Nothing here touches the network. [`GitLabClient::todos_request`] says
//! what to send; the host sends it and hands the outcome to
//! [`GitLabClient::fetch_todo_count`], which turns it into a count or an
//! error.

use crate::text::{decimal, parse_u32, parse_u32_bytes, push_decimal};
use vstd::prelude::*;
use vstd::string::*;

verus! {

/// Seconds after which a request that has not been answered is given up.
pub const REQUEST_TIMEOUT_SECS: u64 = 10;

/// A named value: one header of a request, or one parameter of its query.
#[derive(Debug, PartialEq, Eq)]
pub struct Field {
    pub name: String,
    pub value: String,
}

impl View for Field {
    type V = (Seq<char>, Seq<char>);

    open spec fn view(&self) -> (Seq<char>, Seq<char>) {
        (self.name@, self.value@)
    }
}

/// The names and values of a list of fields, in order.
pub open spec fn fields_view(fields: Seq<Field>) -> Seq<(Seq<char>, Seq<char>)> {
    fields.map_values(|f: Field| f@)
}

/// A GET request, described by its parts.
#[derive(Debug, PartialEq, Eq)]
pub struct TodoRequest {
    /// Address of the resource, without the query.
    pub url: String,
    pub headers: Vec<Field>,
    pub query: Vec<Field>,
    pub timeout_secs: u64,
}

/// What a [`TodoRequest`] holds.
pub struct RequestModel {
    pub url: Seq<char>,
    pub headers: Seq<(Seq<char>, Seq<char>)>,
    pub query: Seq<(Seq<char>, Seq<char>)>,
    pub timeout_secs: u64,
}

impl View for TodoRequest {
    type V = RequestModel;

    open spec fn view(&self) -> RequestModel {
        RequestModel {
            url: self.url@,
            headers: fields_view(self.headers@),
            query: fields_view(self.query@),
            timeout_secs: self.timeout_secs,
        }
    }
}

/// What the indicator reads of an HTTP response: its status code and the
/// raw value of its `X-Total` header, if it has one.
#[derive(Debug, PartialEq, Eq)]
pub struct GitLabResponse {
    pub status: u16,
    pub x_total: Option<Vec<u8>>,
}

/// What a [`GitLabResponse`] holds.
pub struct ResponseModel {
    pub status: u16,
    pub x_total: Option<Seq<u8>>,
}

impl View for GitLabResponse {
    type V = ResponseModel;

    open spec fn view(&self) -> ResponseModel {
        ResponseModel {
            status: self.status,
            x_total: match self.x_total {
                Some(bytes) => Some(bytes@),
                None => None,
            },
        }
    }
}

/// Why a fetch produced no count.
#[derive(Debug, PartialEq, Eq)]
pub enum FetchError {
    /// The server answered with a status outside 200 to 299.
    RequestFailed { status: u16, reason: String },
    /// No answer arrived: resolution, connection, TLS or the timeout failed.
    TransportError { message: String },
}

/// What a [`FetchError`] holds.
pub enum FetchErrorModel {
    RequestFailed { status: u16, reason: Seq<char> },
    TransportError { message: Seq<char> },
}

impl View for FetchError {
    type V = FetchErrorModel;

    open spec fn view(&self) -> FetchErrorModel {
        match self {
            FetchError::RequestFailed { status, reason } => FetchErrorModel::RequestFailed {
                status: *status,
                reason: reason@,
            },
            FetchError::TransportError { message } => FetchErrorModel::TransportError {
                message: message@,
            },
        }
    }
}

/// The outcome of sending a request, by its contents: a response, or the
/// description of a transport failure.
pub open spec fn outcome_view(outcome: Result<GitLabResponse, String>) -> Result<
    ResponseModel,
    Seq<char>,
> {
    match outcome {
        Ok(response) => Ok(response@),
        Err(message) => Err(message@),
    }
}

/// The result of a fetch, by its contents.
pub open spec fn fetched_view(result: Result<u32, FetchError>) -> Result<u32, FetchErrorModel> {
    match result {
        Ok(count) => Ok(count),
        Err(error) => Err(error@),
    }
}

/// The result of a fetch with its error rendered as text, by its contents.
pub open spec fn report_view(result: Result<u32, String>) -> Result<u32, Seq<char>> {
    match result {
        Ok(count) => Ok(count),
        Err(text) => Err(text@),
    }
}

/// An optional string, by its contents.
pub open spec fn text_view(text: Option<String>) -> Option<Seq<char>> {
    match text {
        Some(t) => Some(t@),
        None => None,
    }
}

/// Whether a status code reports success: 200 to 299.
pub open spec fn is_success(status: u16) -> bool {
    200 <= status < 300
}

/// The count that an `X-Total` header stands for. A missing header and one
/// that is no unsigned 32-bit decimal number both stand for zero.
pub open spec fn count_from_header(x_total: Option<Seq<u8>>) -> u32 {
    match x_total {
        Some(bytes) => match parse_u32(bytes) {
            Some(count) => count,
            None => 0,
        },
        None => 0,
    }
}

/// The reason reported for a failed request: the standard phrase of its
/// status code, or a fixed text where the code has none.
pub open spec fn reason_text(canonical: Option<Seq<char>>) -> Seq<char> {
    match canonical {
        Some(phrase) => phrase,
        None => "Unknown error"@,
    }
}

/// A status code as it is printed: the number, a space, and its standard
/// phrase or a fixed text where it has none.
pub open spec fn status_text(status: u16, canonical: Option<Seq<char>>) -> Seq<char> {
    decimal(status as nat) + " "@ + match canonical {
        Some(phrase) => phrase,
        None => "<unknown status code>"@,
    }
}

/// The error for a response whose status code reports no success, given
/// the standard phrase of that code.
pub open spec fn request_failed(status: u16, canonical: Option<Seq<char>>) -> FetchErrorModel {
    FetchErrorModel::RequestFailed { status, reason: reason_text(canonical) }
}

/// The text shown for a failed request, given the standard phrase of its
/// status code.
pub open spec fn request_failed_text(status: u16, canonical: Option<Seq<char>>, reason: Seq<char>)
    -> Seq<char> {
    "GitLab API request failed with status: "@ + status_text(status, canonical) + " - "@ + reason
}

/// The standard reason phrase of an HTTP status code ("Not Found" for
/// 404), as `reqwest::StatusCode::canonical_reason` gives it. Codes outside
/// 100 to 999, which are no status codes, and codes without a registered
/// phrase have none.
pub uninterp spec fn canonical_reason(status: u16) -> Option<Seq<char>>;

/// What a fetch yields for the outcome of sending the request.
pub open spec fn fetch_spec(outcome: Result<ResponseModel, Seq<char>>) -> Result<
    u32,
    FetchErrorModel,
> {
    match outcome {
        Err(message) => Err(FetchErrorModel::TransportError { message }),
        Ok(response) => if is_success(response.status) {
            Ok(count_from_header(response.x_total))
        } else {
            Err(request_failed(response.status, canonical_reason(response.status)))
        },
    }
}

/// The text shown for a fetch error. A transport error is shown by one
/// fixed sentence, whatever its message.
pub open spec fn describe_spec(error: FetchErrorModel) -> Seq<char> {
    match error {
        FetchErrorModel::RequestFailed { status, reason } => request_failed_text(
            status,
            canonical_reason(status),
            reason,
        ),
        FetchErrorModel::TransportError { message } => "Failed to send request to GitLab API"@,
    }
}

/// What a fetch reports to the indicator: the count, or the text of the
/// error.
pub open spec fn report_spec(outcome: Result<ResponseModel, Seq<char>>) -> Result<u32, Seq<char>> {
    match fetch_spec(outcome) {
        Ok(count) => Ok(count),
        Err(error) => Err(describe_spec(error)),
    }
}

/// A response that reports success stands for a count of zero where its
/// `X-Total` header is missing or is no unsigned 32-bit decimal number, and
/// that is no error.
pub proof fn lemma_unreadable_total_counts_zero(response: ResponseModel)
    requires
        is_success(response.status),
        match response.x_total {
            Some(bytes) => parse_u32(bytes) is None,
            None => true,
        },
    ensures
        fetch_spec(Ok(response)) == Ok::<u32, FetchErrorModel>(0),
        report_spec(Ok(response)) == Ok::<u32, Seq<char>>(0),
{
}

/// A response that reports success never yields an error, and one that
/// reports anything else never yields a count, whatever its headers.
pub proof fn lemma_status_decides(response: ResponseModel)
    ensures
        fetch_spec(Ok(response)) is Ok <==> is_success(response.status),
        fetch_spec(Ok(response)) matches Err(error) ==> error matches FetchErrorModel::RequestFailed {
            status,
            ..
        } && status == response.status,
{
}

/// Calls `reqwest::StatusCode::from_u16` and, on the status code so made,
/// `reqwest::StatusCode::canonical_reason`. The phrase depends on the code
/// alone, so the contract names it: the result is `canonical_reason(status)`,
/// and none where the number is no status code.
#[verifier::external_body]
fn canonical_reason_of(status: u16) -> (phrase: Option<String>)
    ensures
        text_view(phrase) == canonical_reason(status),
{
    match reqwest::StatusCode::from_u16(status) {
        Ok(code) => code.canonical_reason().map(String::from),
        Err(_) => None,
    }
}

impl GitLabResponse {
    /// Whether the status code reports success.
    pub fn is_success(&self) -> (success: bool)
        ensures
            success == is_success(self.status),
    {
        200 <= self.status && self.status < 300
    }

    /// The count that the `X-Total` header stands for: zero where it is
    /// missing or is no number.
    pub fn total(&self) -> (count: u32)
        ensures
            count == count_from_header(self@.x_total),
    {
        match &self.x_total {
            Some(bytes) => match parse_u32_bytes(bytes.as_slice()) {
                Some(count) => count,
                None => 0,
            },
            None => 0,
        }
    }
}

impl FetchError {
    /// The error for a response whose status code reports no success, given
    /// the standard phrase of that code.
    pub fn request_failed(status: u16, canonical: Option<String>) -> (error: FetchError)
        ensures
            error@ == request_failed(status, text_view(canonical)),
    {
        let reason = match canonical {
            Some(phrase) => phrase,
            None => String::from_str("Unknown error"),
        };
        FetchError::RequestFailed { status, reason }
    }

    /// The text shown for a failed request, given the standard phrase of its
    /// status code.
    pub fn request_failed_text(status: u16, canonical: Option<String>, reason: &str) -> (text:
        String)
        ensures
            text@ == request_failed_text(status, text_view(canonical), reason@),
    {
        let mut text = String::from_str("GitLab API request failed with status: ");
        push_decimal(&mut text, status as u64);
        text.append(" ");
        match &canonical {
            Some(phrase) => text.append(phrase.as_str()),
            None => text.append("<unknown status code>"),
        }
        text.append(" - ");
        text.append(reason);
        assert(text@ =~= request_failed_text(status, text_view(canonical), reason@));
        text
    }

    /// The text shown for this error.
    pub fn describe(&self) -> (text: String)
        ensures
            text@ == describe_spec(self@),
    {
        match self {
            FetchError::RequestFailed { status, reason } => {
                let canonical = canonical_reason_of(*status);
                FetchError::request_failed_text(*status, canonical, reason.as_str())
            },
            FetchError::TransportError { message } => String::from_str(
                "Failed to send request to GitLab API",
            ),
        }
    }
}

/// What is needed to reach GitLab on behalf of one account.
#[derive(Debug, Clone, PartialEq, Eq)]
pub struct GitLabClient {
    base_url: String,
    access_token: String,
}

/// What a [`GitLabClient`] holds.
pub struct ClientModel {
    pub base_url: Seq<char>,
    pub access_token: Seq<char>,
}

impl View for GitLabClient {
    type V = ClientModel;

    closed spec fn view(&self) -> ClientModel {
        ClientModel { base_url: self.base_url@, access_token: self.access_token@ }
    }
}

/// The request that asks GitLab how many to-do items are pending.
pub open spec fn todos_request_of(client: ClientModel) -> RequestModel {
    RequestModel {
        url: client.base_url + "/api/v4/todos"@,
        headers: seq![
            ("Authorization"@, "Bearer "@ + client.access_token),
            ("Content-Type"@, "application/json"@),
        ],
        query: seq![("state"@, "pending"@), ("per_page"@, "1"@)],
        timeout_secs: REQUEST_TIMEOUT_SECS,
    }
}

/// The page on which GitLab lists the account's to-do items.
pub open spec fn todos_url_of(client: ClientModel) -> Seq<char> {
    client.base_url + "/dashboard/todos"@
}

fn field(name: &str, value: String) -> (f: Field)
    ensures
        f@ == (name@, value@),
{
    Field { name: String::from_str(name), value }
}

impl GitLabClient {
    pub fn new(base_url: String, access_token: String) -> (client: GitLabClient)
        ensures
            client@ == (ClientModel { base_url: base_url@, access_token: access_token@ }),
    {
        GitLabClient { base_url, access_token }
    }

    /// The request to send for one fetch.
    pub fn todos_request(&self) -> (request: TodoRequest)
        ensures
            request@ == todos_request_of(self@),
    {
        let mut url = self.base_url.clone();
        url.append("/api/v4/todos");
        let mut bearer = String::from_str("Bearer ");
        bearer.append(self.access_token.as_str());
        let mut headers: Vec<Field> = Vec::new();
        headers.push(field("Authorization", bearer));
        headers.push(field("Content-Type", String::from_str("application/json")));
        let mut query: Vec<Field> = Vec::new();
        query.push(field("state", String::from_str("pending")));
        query.push(field("per_page", String::from_str("1")));
        let request = TodoRequest { url, headers, query, timeout_secs: REQUEST_TIMEOUT_SECS };
        assert(request@.headers =~= todos_request_of(self@).headers);
        assert(request@.query =~= todos_request_of(self@).query);
        request
    }

    /// What one fetch yields, given the outcome of sending
    /// [`todos_request`](GitLabClient::todos_request): the count that the
    /// response's `X-Total` header stands for, or the error.
    pub fn fetch_todo_count(&self, outcome: Result<GitLabResponse, String>) -> (result: Result<
        u32,
        FetchError,
    >)
        ensures
            fetched_view(result) == fetch_spec(outcome_view(outcome)),
    {
        match outcome {
            Err(message) => Err(FetchError::TransportError { message }),
            Ok(response) => {
                if response.is_success() {
                    Ok(response.total())
                } else {
                    let canonical = canonical_reason_of(response.status);
                    Err(FetchError::request_failed(response.status, canonical))
                }
            },
        }
    }

    /// What one fetch reports to the indicator: the count, or the text of
    /// the error.
    pub fn fetch_report(&self, outcome: Result<GitLabResponse, String>) -> (report: Result<
        u32,
        String,
    >)
        ensures
            report_view(report) == report_spec(outcome_view(outcome)),
    {
        match self.fetch_todo_count(outcome) {
            Ok(count) => Ok(count),
            Err(error) => Err(error.describe()),
        }
    }

    pub fn get_todos_url(&self) -> (url: String)
        ensures
            url@ == todos_url_of(self@),
    {
        let mut url = self.base_url.clone();
        url.append("/dashboard/todos");
        url
    }
}

} // verus!
