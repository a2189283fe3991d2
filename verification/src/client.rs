//! The client: how a request is addressed and authenticated, and how an
//! answer is told apart into a record or one of the three failures.
//!
//! The client holds no connection. An operation is a request that the
//! caller sends by whatever transport it has; the answer goes back into
//! [`MigaduClient::handle_response`] or [`MigaduClient::handle_listing`].

use vstd::prelude::*;
use crate::error::{Error, ErrorView};
use crate::json::{JsonView, parse, parsed};
use crate::payload::{Field, render, rendered};
use crate::types::{Entity, decode_list, lemma_listed_follows_envelope, listed};

verus! {

/// The address of the service that [`MigaduClient::new`] uses.
pub const BASE_URL: &'static str = "https://api.migadu.com/v1";

/// The verb of a request.
#[derive(Debug, Clone, Copy, PartialEq, Eq, Structural)]
pub enum Method {
    /// Retrieve.
    Get,
    /// Create.
    Post,
    /// Replace the fields that the payload sets.
    Put,
    /// Remove.
    Delete,
}

/// A request, ready to be sent: basic authentication with `username` and
/// `password`, and `body`, where there is one, as a JSON payload.
#[derive(Debug, Clone)]
pub struct Request {
    pub method: Method,
    pub url: String,
    pub username: String,
    pub password: String,
    pub body: Option<String>,
}

/// The mathematical content of a [`Request`].
pub struct RequestView {
    pub method: Method,
    pub url: Seq<char>,
    pub username: Seq<char>,
    pub password: Seq<char>,
    pub body: Option<Seq<char>>,
}

impl View for Request {
    type V = RequestView;

    open spec fn view(&self) -> RequestView {
        RequestView {
            method: self.method,
            url: self.url@,
            username: self.username@,
            password: self.password@,
            body: self.body.deep_view(),
        }
    }
}

/// The body of an answer.
#[derive(Debug, Clone)]
pub enum Body {
    /// The whole body, as text.
    Text(String),
    /// The body could not be read; holds the transport's diagnostic.
    Unreadable(String),
}

/// What the service answered.
#[derive(Debug, Clone)]
pub struct Response {
    pub status: u16,
    pub body: Body,
}

/// Whether a status signals success: the 2xx range.
pub open spec fn is_success(status: u16) -> bool {
    200 <= status < 300
}

/// The message of an `Api` failure: the body of the answer, or a
/// placeholder where the body could not be read.
pub open spec fn failure_message(body: Body) -> Seq<char> {
    match body {
        Body::Text(text) => text@,
        Body::Unreadable(_) => "Unknown error"@,
    }
}

/// The failure that an answer amounts to before its body is decoded, if
/// any: an `Api` failure for a status outside 2xx, whatever the body holds;
/// a `Request` failure for a body that could not be read.
pub open spec fn refused(response: Response) -> Option<ErrorView> {
    if !is_success(response.status) {
        Some(ErrorView::Api { status: response.status, message: failure_message(response.body) })
    } else {
        match response.body {
            Body::Text(_) => None,
            Body::Unreadable(diagnostic) => Some(ErrorView::Request(diagnostic@)),
        }
    }
}

/// What an answer amounts to for a caller that expects one record: the
/// record, or the failure. A refused answer fails before its body is
/// decoded; a body that is no JSON, or that holds no such record, is a
/// `Parse` failure with the decoder's diagnostic.
pub open spec fn record_in<T: Entity>(response: Response) -> Result<T::V, ErrorView> {
    match refused(response) {
        Some(failure) => Err(failure),
        None => match parsed(response.body->Text_0@) {
            Err(message) => Err(ErrorView::Parse(message)),
            Ok(j) => match T::decoded(j) {
                Err(message) => Err(ErrorView::Parse(message)),
                Ok(record) => Ok(record),
            },
        },
    }
}

/// What an answer amounts to for a caller that expects a list: the records
/// under the envelope `T::envelope()`, in the answer's order, or the
/// failure.
pub open spec fn records_in<T: Entity>(response: Response) -> Result<Seq<T::V>, ErrorView> {
    match refused(response) {
        Some(failure) => Err(failure),
        None => match parsed(response.body->Text_0@) {
            Err(message) => Err(ErrorView::Parse(message)),
            Ok(j) => match listed::<T>(j) {
                Err(message) => Err(ErrorView::Parse(message)),
                Ok(records) => Ok(records),
            },
        },
    }
}

/// An answer with a status outside the 2xx range is an `Api` failure that
/// carries the status and the body as it came, whatever the body holds and
/// whatever the caller expects: it is never a `Parse` failure.
pub proof fn lemma_failure_status_is_api_failure<T: Entity>(response: Response)
    requires
        !is_success(response.status),
    ensures
        record_in::<T>(response) == Err::<T::V, ErrorView>(
            ErrorView::Api { status: response.status, message: failure_message(response.body) },
        ),
        records_in::<T>(response) == Err::<Seq<T::V>, ErrorView>(
            ErrorView::Api { status: response.status, message: failure_message(response.body) },
        ),
        response.body matches Body::Text(text) ==> failure_message(response.body) == text@,
{
}

/// A body that is no JSON, under a status of the 2xx range, is a `Parse`
/// failure: never a record, never an empty list.
pub proof fn lemma_invalid_json_is_parse_failure<T: Entity>(response: Response)
    requires
        is_success(response.status),
        response.body is Text,
        parsed(response.body->Text_0@) is Err,
    ensures
        record_in::<T>(response) matches Err(failure) && failure is Parse,
        records_in::<T>(response) matches Err(failure) && failure is Parse,
{
}

/// A list answer yields the content of its envelope: as many records as
/// the array under `T::envelope()` has items, each what its item holds, in
/// the array's order.
pub proof fn lemma_listing_yields_envelope<T: Entity>(response: Response)
    requires
        records_in::<T>(response) is Ok,
    ensures
        is_success(response.status),
        response.body is Text,
        parsed(response.body->Text_0@) matches Ok(j) && j.member(T::envelope()) matches Some(
            JsonView::Array(items),
        ) && records_in::<T>(response)->Ok_0.len() == items.len() && forall|k: int|
            0 <= k < items.len() ==> T::decoded(#[trigger] items[k]) == Ok::<T::V, Seq<char>>(
                records_in::<T>(response)->Ok_0[k],
            ),
{
    lemma_listed_follows_envelope::<T>(parsed(response.body->Text_0@)->Ok_0);
}

/// A list answer whose body lacks the envelope, or holds something else
/// than an array under its name, is a `Parse` failure.
pub proof fn lemma_listing_needs_envelope<T: Entity>(response: Response)
    requires
        is_success(response.status),
        response.body is Text,
        parsed(response.body->Text_0@) matches Ok(j) && (j.member(T::envelope()) is None || !(
        j.member(T::envelope())->0 is Array)),
    ensures
        records_in::<T>(response) matches Err(failure) && failure is Parse,
{
}

/// Client for the Migadu API.
#[derive(Debug, Clone)]
pub struct MigaduClient {
    base_url: String,
    email: String,
    api_key: String,
}

/// The mathematical content of a [`MigaduClient`].
pub struct ClientView {
    pub base_url: Seq<char>,
    pub email: Seq<char>,
    pub api_key: Seq<char>,
}

impl ClientView {
    /// The absolute address of a path: the base address, then the path.
    pub open spec fn url(self, path: Seq<char>) -> Seq<char> {
        self.base_url + path
    }

    /// The request of this client for a path.
    pub open spec fn request(
        self,
        method: Method,
        path: Seq<char>,
        body: Option<Seq<char>>,
    ) -> RequestView {
        RequestView {
            method,
            url: self.url(path),
            username: self.email,
            password: self.api_key,
            body,
        }
    }
}

impl View for MigaduClient {
    type V = ClientView;

    closed spec fn view(&self) -> ClientView {
        ClientView { base_url: self.base_url@, email: self.email@, api_key: self.api_key@ }
    }
}

impl MigaduClient {
    /// Creates a new Migadu API client.
    ///
    /// # Arguments
    /// * `email` - The email address used for authentication
    /// * `api_key` - The API key for authentication
    pub fn new(email: &str, api_key: &str) -> (client: MigaduClient)
        ensures
            client@ == (ClientView { base_url: BASE_URL@, email: email@, api_key: api_key@ }),
    {
        MigaduClient {
            base_url: String::from_str(BASE_URL),
            email: String::from_str(email),
            api_key: String::from_str(api_key),
        }
    }

    /// Creates a new client with a custom base URL (useful for testing).
    pub fn with_base_url(email: &str, api_key: &str, base_url: &str) -> (client: MigaduClient)
        ensures
            client@ == (ClientView { base_url: base_url@, email: email@, api_key: api_key@ }),
    {
        MigaduClient {
            base_url: String::from_str(base_url),
            email: String::from_str(email),
            api_key: String::from_str(api_key),
        }
    }

    /// The absolute address of a path.
    pub fn url(&self, path: &str) -> (url: String)
        ensures
            url@ == self@.url(path@),
    {
        let mut url = self.base_url.clone();
        url.append(path);
        url
    }

    /// A request for `path` that carries this client's credentials.
    fn auth(&self, method: Method, path: &str, body: Option<String>) -> (request: Request)
        ensures
            request@ == self@.request(method, path@, body.deep_view()),
    {
        Request {
            method,
            url: self.url(path),
            username: self.email.clone(),
            password: self.api_key.clone(),
            body,
        }
    }

    /// The request that retrieves what is at `path`.
    pub fn get(&self, path: &str) -> (request: Request)
        ensures
            request@ == self@.request(Method::Get, path@, None),
    {
        self.auth(Method::Get, path, None)
    }

    /// The request that creates under `path` what the payload describes.
    pub fn post(&self, path: &str, body: &Vec<Field>) -> (request: Request)
        ensures
            request@ == self@.request(Method::Post, path@, Some(rendered(body.deep_view()))),
    {
        self.auth(Method::Post, path, Some(render(body)))
    }

    /// The request that replaces, in what is at `path`, the fields that the
    /// payload sets.
    pub fn put(&self, path: &str, body: &Vec<Field>) -> (request: Request)
        ensures
            request@ == self@.request(Method::Put, path@, Some(rendered(body.deep_view()))),
    {
        self.auth(Method::Put, path, Some(render(body)))
    }

    /// The request that removes what is at `path`.
    pub fn delete(&self, path: &str) -> (request: Request)
        ensures
            request@ == self@.request(Method::Delete, path@, None),
    {
        self.auth(Method::Delete, path, None)
    }

    /// Reads the record that an answer holds: see [`read_record`].
    pub fn handle_response<T: Entity>(&self, response: &Response) -> (r: Result<T, Error>)
        ensures
            match r {
                Ok(record) => record_in::<T>(*response) == Ok::<T::V, ErrorView>(
                    record.deep_view(),
                ),
                Err(e) => record_in::<T>(*response) == Err::<T::V, ErrorView>(e@),
            },
    {
        read_record::<T>(response)
    }

    /// Reads the records that the answer to a list request holds: see
    /// [`read_listing`].
    pub fn handle_listing<T: Entity>(&self, response: &Response) -> (r: Result<Vec<T>, Error>)
        ensures
            match r {
                Ok(records) => records_in::<T>(*response) == Ok::<Seq<T::V>, ErrorView>(
                    records.deep_view(),
                ),
                Err(e) => records_in::<T>(*response) == Err::<Seq<T::V>, ErrorView>(e@),
            },
    {
        read_listing::<T>(response)
    }
}

/// Tells a status apart: the body of an answer in the 2xx range, or the
/// failure that the answer amounts to.
pub fn check_status<'a>(response: &'a Response) -> (r: Result<&'a str, Error>)
    ensures
        match r {
            Ok(text) => refused(*response) is None && response.body is Text
                && response.body->Text_0@ == text@,
            Err(e) => refused(*response) == Some(e@),
        },
{
    if !(200 <= response.status && response.status < 300) {
        let message = match &response.body {
            Body::Text(text) => text.clone(),
            Body::Unreadable(_) => String::from_str("Unknown error"),
        };
        return Err(Error::Api { status: response.status, message });
    }
    match &response.body {
        Body::Text(text) => Ok(text.as_str()),
        Body::Unreadable(diagnostic) => Err(Error::Request(diagnostic.clone())),
    }
}

/// Reads the record that an answer holds.
///
/// A status outside 2xx is an `Api` failure with that status and the body
/// as its message, and the body is not decoded. A body that cannot be read
/// is a `Request` failure. A body that is no JSON, or that does not hold
/// the record, is a `Parse` failure.
pub fn read_record<T: Entity>(response: &Response) -> (r: Result<T, Error>)
    ensures
        match r {
            Ok(record) => record_in::<T>(*response) == Ok::<T::V, ErrorView>(record.deep_view()),
            Err(e) => record_in::<T>(*response) == Err::<T::V, ErrorView>(e@),
        },
{
    let text = check_status(response)?;
    let document = parse(text)?;
    T::from_json(&document)
}

/// Reads the records that the answer to a list request holds, in the order
/// in which the answer lists them.
///
/// Failures are those of [`read_record`]; a body that is no object, or
/// whose member `T::envelope()` is absent or no array of records, is a
/// `Parse` failure.
pub fn read_listing<T: Entity>(response: &Response) -> (r: Result<Vec<T>, Error>)
    ensures
        match r {
            Ok(records) => records_in::<T>(*response) == Ok::<Seq<T::V>, ErrorView>(
                records.deep_view(),
            ),
            Err(e) => records_in::<T>(*response) == Err::<Seq<T::V>, ErrorView>(e@),
        },
{
    let text = check_status(response)?;
    let document = parse(text)?;
    decode_list::<T>(&document)
}

} // verus!
