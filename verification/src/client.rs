//! The authenticated request executor and its device-scoped companion.
//!
//! Every request the library makes goes through one of the verbs here:
//! they attach basic authentication and the fixed user agent, and for GET
//! requests append the verified query string. The single trusted boundary
//! to the HTTP capability is the three `http_*` wrappers; everything that
//! shapes a request — the URL, the query order, the body text — is built by
//! verified code before the wrapper is called.

use vstd::prelude::*;

verus! {

use crate::error::ClientError;
use crate::query::append_query;

#[verifier::external_type_specification]
#[verifier::external_body]
pub struct ExHttpClient(reqwest::blocking::Client);

/// The user agent string every request carries.
pub open spec fn user_agent() -> Seq<char> {
    "mygpoclient/0.1.0"@
}

fn user_agent_str() -> (r: &'static str)
    ensures
        r@ == user_agent(),
{
    "mygpoclient/0.1.0"
}

/// Relies on `reqwest::blocking::Client::clone`: another handle to the
/// same HTTP client. Nothing about it is relied on beyond its existence.
pub assume_specification[ <reqwest::blocking::Client as Clone>::clone ](
    c: &reqwest::blocking::Client,
) -> reqwest::blocking::Client;

/// Relies on `reqwest::blocking::Client::new`: a fresh HTTP client with
/// default settings. Its documentation says it panics where the system
/// configuration cannot be loaded or when it is called from within an
/// async runtime; this library is synchronous and leaves those conditions
/// to the process, as a direct caller of the constructor would.
#[verifier::external_body]
fn new_http_client() -> reqwest::blocking::Client {
    reqwest::blocking::Client::new()
}

/// Relies on reqwest's blocking client: one GET request to `url` with
/// basic authentication and the given user agent header; returns the
/// response's status code and body text verbatim, or the transport
/// error.
#[verifier::external_body]
fn http_get(
    client: &reqwest::blocking::Client,
    url: &str,
    username: &str,
    password: &str,
    agent: &str,
) -> Result<(u16, String), reqwest::Error> {
    let response = client.get(url).basic_auth(username, Some(password)).header(
        reqwest::header::USER_AGENT,
        agent,
    ).send()?;
    let status = response.status().as_u16();
    Ok((status, response.text()?))
}

/// Relies on reqwest's blocking client: one PUT request to `url` with
/// basic authentication, the given user agent header and a JSON body;
/// returns the response's status code and body text verbatim, or the
/// transport error.
#[verifier::external_body]
fn http_put(
    client: &reqwest::blocking::Client,
    url: &str,
    username: &str,
    password: &str,
    agent: &str,
    body: &str,
) -> Result<(u16, String), reqwest::Error> {
    let response = client.put(url).basic_auth(username, Some(password)).header(
        reqwest::header::USER_AGENT,
        agent,
    ).header(reqwest::header::CONTENT_TYPE, "application/json").body(
        body.to_owned(),
    ).send()?;
    let status = response.status().as_u16();
    Ok((status, response.text()?))
}

/// Relies on reqwest's blocking client: one POST request to `url` with
/// basic authentication, the given user agent header and a JSON body;
/// returns the response's status code and body text verbatim, or the
/// transport error.
#[verifier::external_body]
fn http_post(
    client: &reqwest::blocking::Client,
    url: &str,
    username: &str,
    password: &str,
    agent: &str,
    body: &str,
) -> Result<(u16, String), reqwest::Error> {
    let response = client.post(url).basic_auth(username, Some(password)).header(
        reqwest::header::USER_AGENT,
        agent,
    ).header(reqwest::header::CONTENT_TYPE, "application/json").body(
        body.to_owned(),
    ).send()?;
    let status = response.status().as_u16();
    Ok((status, response.text()?))
}

/// The ghost state of an authenticated client: the credentials it holds.
pub struct ClientView {
    pub username: Seq<char>,
    pub password: Seq<char>,
}

/// A client that performs HTTP requests as one user. Credentials are set
/// at construction and never change.
#[derive(Clone)]
pub struct AuthenticatedClient {
    pub(crate) username: String,
    pub(crate) password: String,
    pub(crate) client: reqwest::blocking::Client,
}

impl View for AuthenticatedClient {
    type V = ClientView;

    closed spec fn view(&self) -> ClientView {
        ClientView { username: self.username@, password: self.password@ }
    }
}

/// The ghost state of a device-scoped client: the credentials and the
/// device the operations are scoped to.
pub struct DeviceClientView {
    pub device_id: Seq<char>,
    pub username: Seq<char>,
    pub password: Seq<char>,
}

/// A client bound to one device of the user: device-scoped operations use
/// its device id, user-scoped ones delegate to the held
/// [`AuthenticatedClient`].
#[derive(Clone)]
pub struct DeviceClient {
    pub(crate) device_id: String,
    pub(crate) authenticated_client: AuthenticatedClient,
}

impl View for DeviceClient {
    type V = DeviceClientView;

    closed spec fn view(&self) -> DeviceClientView {
        DeviceClientView {
            device_id: self.device_id@,
            username: self.authenticated_client@.username,
            password: self.authenticated_client@.password,
        }
    }
}

impl AuthenticatedClient {
    /// A client that authenticates as `username` with `password`.
    pub fn new(username: &str, password: &str) -> (r: AuthenticatedClient)
        ensures
            r@.username == username@,
            r@.password == password@,
    {
        AuthenticatedClient {
            username: username.to_owned(),
            password: password.to_owned(),
            client: new_http_client(),
        }
    }

    /// One GET request to `url`; the response's status code and body text
    /// come back verbatim, uninterpreted. Transport failures surface as
    /// [`ClientError::Http`].
    pub fn get(&self, url: &str) -> (r: Result<(u16, String), ClientError>)
        ensures
            r matches Err(e) ==> e is Http,
    {
        match http_get(
            &self.client,
            url,
            self.username.as_str(),
            self.password.as_str(),
            user_agent_str(),
        ) {
            Ok(response) => Ok(response),
            Err(e) => Err(ClientError::Http(e)),
        }
    }

    /// One GET request to `url` with the query part for `params` appended:
    /// the parameters stand in the query string in exactly the order they
    /// are supplied. The response's status code and body text come back
    /// verbatim, uninterpreted. Transport failures surface as
    /// [`ClientError::Http`].
    pub fn get_with_query(&self, url: &str, params: &Vec<(String, String)>) -> (r: Result<
        (u16, String),
        ClientError,
    >)
        ensures
            r matches Err(e) ==> e is Http,
    {
        let mut full = url.to_owned();
        append_query(&mut full, params);
        self.get(full.as_str())
    }

    /// One PUT request to `url` carrying `body` as JSON; the response's
    /// status code and body text come back verbatim, uninterpreted.
    /// Transport failures surface as [`ClientError::Http`].
    pub fn put(&self, url: &str, body: &str) -> (r: Result<(u16, String), ClientError>)
        ensures
            r matches Err(e) ==> e is Http,
    {
        match http_put(
            &self.client,
            url,
            self.username.as_str(),
            self.password.as_str(),
            user_agent_str(),
            body,
        ) {
            Ok(response) => Ok(response),
            Err(e) => Err(ClientError::Http(e)),
        }
    }

    /// One POST request to `url` carrying `body` as JSON; the response's
    /// status code and body text come back verbatim, uninterpreted.
    /// Transport failures surface as [`ClientError::Http`].
    pub fn post(&self, url: &str, body: &str) -> (r: Result<(u16, String), ClientError>)
        ensures
            r matches Err(e) ==> e is Http,
    {
        match http_post(
            &self.client,
            url,
            self.username.as_str(),
            self.password.as_str(),
            user_agent_str(),
            body,
        ) {
            Ok(response) => Ok(response),
            Err(e) => Err(ClientError::Http(e)),
        }
    }
}

impl DeviceClient {
    /// A client that authenticates as `username` with `password` and scopes
    /// device-level operations to `device_id`.
    pub fn new(username: &str, password: &str, device_id: &str) -> (r: DeviceClient)
        ensures
            r@.username == username@,
            r@.password == password@,
            r@.device_id == device_id@,
    {
        DeviceClient {
            device_id: device_id.to_owned(),
            authenticated_client: AuthenticatedClient::new(username, password),
        }
    }

    /// The held user-scoped client, for operations that are not bound to a
    /// device.
    pub fn user_client(&self) -> (r: &AuthenticatedClient)
        ensures
            r@.username == self@.username,
            r@.password == self@.password,
    {
        &self.authenticated_client
    }

    /// Delegates verbatim to [`AuthenticatedClient::get`].
    pub fn get(&self, url: &str) -> (r: Result<(u16, String), ClientError>)
        ensures
            r matches Err(e) ==> e is Http,
    {
        self.authenticated_client.get(url)
    }

    /// Delegates verbatim to [`AuthenticatedClient::get_with_query`].
    pub fn get_with_query(&self, url: &str, params: &Vec<(String, String)>) -> (r: Result<
        (u16, String),
        ClientError,
    >)
        ensures
            r matches Err(e) ==> e is Http,
    {
        self.authenticated_client.get_with_query(url, params)
    }

    /// Delegates verbatim to [`AuthenticatedClient::put`].
    pub fn put(&self, url: &str, body: &str) -> (r: Result<(u16, String), ClientError>)
        ensures
            r matches Err(e) ==> e is Http,
    {
        self.authenticated_client.put(url, body)
    }

    /// Delegates verbatim to [`AuthenticatedClient::post`].
    pub fn post(&self, url: &str, body: &str) -> (r: Result<(u16, String), ClientError>)
        ensures
            r matches Err(e) ==> e is Http,
    {
        self.authenticated_client.post(url, body)
    }
}

} // verus!
