//! The three calls that the reconciler makes, as plain descriptions of what to
//! send, and the reading of what came back. Nothing here touches the network:
//! whoever drives the reconciler sends a [`Request`] and reports a [`Reply`].

use vstd::prelude::*;
use vstd::string::StringExecFns;

use crate::config::{Configuration, ConfigurationView};
use crate::record::{
    copy_optional_text, optional_patch, optional_text, DnsPatchRequest, DnsPatchRequestView, DnsRecord, DnsResult,
    IpResponse,
};

verus! {

/// The seconds after which a call that has not been answered counts as failed
/// in transport. No call may block the reconciler for ever.
pub const REQUEST_TIMEOUT_SECONDS: u64 = 10;

/// The HTTP method of a request.
#[derive(Debug, Clone, Copy, PartialEq, Eq, Structural)]
pub enum Method {
    Get,
    Patch,
}

/// The calls that the reconciler makes.
#[derive(Debug, Clone, Copy, PartialEq, Eq, Structural)]
pub enum Call {
    /// Reading the managed record from the provider.
    Fetch,
    /// Asking the lookup service for the current public address.
    Resolve,
    /// Writing the managed record at the provider.
    Patch,
}

/// Why a call gave no result.
#[derive(Debug, Clone, Copy, PartialEq, Eq, Structural)]
pub enum ClientError {
    /// The service could not be reached, or did not answer in time.
    Transport,
    /// The provider rejected the credential.
    Auth,
    /// The answer's body is not of the expected shape.
    Decode,
}

impl Call {
    /// The call's name in diagnostics.
    pub open spec fn name_text(self) -> Seq<char> {
        match self {
            Call::Fetch => "fetch"@,
            Call::Resolve => "resolve"@,
            Call::Patch => "patch"@,
        }
    }

    /// The call's name in diagnostics.
    pub fn name(&self) -> (name: &'static str)
        ensures
            name@ == self.name_text(),
    {
        match self {
            Call::Fetch => "fetch",
            Call::Resolve => "resolve",
            Call::Patch => "patch",
        }
    }
}

impl ClientError {
    /// What went wrong, in words.
    pub open spec fn description_text(self) -> Seq<char> {
        match self {
            ClientError::Transport => "the service could not be reached"@,
            ClientError::Auth => "the credential was rejected"@,
            ClientError::Decode => "the answer could not be decoded"@,
        }
    }

    /// What went wrong, in words.
    pub fn description(&self) -> (description: &'static str)
        ensures
            description@ == self.description_text(),
    {
        match self {
            ClientError::Transport => "the service could not be reached",
            ClientError::Auth => "the credential was rejected",
            ClientError::Decode => "the answer could not be decoded",
        }
    }
}

/// One request, in full: where it goes, how it is authorised, and what it
/// carries.
#[derive(Debug, PartialEq, Eq)]
pub struct Request {
    pub method: Method,
    pub url: String,
    /// The credential for the header `Authorization: Bearer <token>`, where
    /// the call is authenticated.
    pub bearer_token: Option<String>,
    /// The JSON body, where the call has one.
    pub body: Option<DnsPatchRequest>,
    pub timeout_seconds: u64,
}

/// What a [`Request`] holds, with its texts as sequences of characters.
pub struct RequestView {
    pub method: Method,
    pub url: Seq<char>,
    pub bearer_token: Option<Seq<char>>,
    pub body: Option<DnsPatchRequestView>,
    pub timeout_seconds: u64,
}

impl View for Request {
    type V = RequestView;

    open spec fn view(&self) -> RequestView {
        RequestView {
            method: self.method,
            url: self.url@,
            bearer_token: optional_text(self.bearer_token),
            body: optional_patch(self.body),
            timeout_seconds: self.timeout_seconds,
        }
    }
}

impl Clone for Request {
    fn clone(&self) -> (copy: Self)
        ensures
            copy == *self,
    {
        Request {
            method: self.method,
            url: self.url.clone(),
            bearer_token: copy_optional_text(&self.bearer_token),
            body: match &self.body {
                Some(patch) => Some(patch.clone()),
                None => None,
            },
            timeout_seconds: self.timeout_seconds,
        }
    }
}

/// The address of the lookup service, which answers with the caller's public
/// address in a JSON object.
pub open spec fn lookup_url() -> Seq<char> {
    "https://api.ipify.org?format=json"@
}

/// The address of the managed record at the provider. Reads and writes go to
/// the same address. The two identifiers are put in as they are.
pub open spec fn record_url(config: ConfigurationView) -> Seq<char> {
    "https://api.cloudflare.com/client/v4/zones/"@ + config.zone_id + "/dns_records/"@
        + config.dns_record_id
}

/// The authenticated read of the managed record.
pub open spec fn fetch_request_for(config: ConfigurationView) -> RequestView {
    RequestView {
        method: Method::Get,
        url: record_url(config),
        bearer_token: Some(config.bearer_token),
        body: None,
        timeout_seconds: REQUEST_TIMEOUT_SECONDS,
    }
}

/// The authenticated write of `patch` to the managed record.
pub open spec fn patch_request_for(
    config: ConfigurationView,
    patch: DnsPatchRequestView,
) -> RequestView {
    RequestView {
        method: Method::Patch,
        url: record_url(config),
        bearer_token: Some(config.bearer_token),
        body: Some(patch),
        timeout_seconds: REQUEST_TIMEOUT_SECONDS,
    }
}

/// The question to the lookup service. It carries no credential.
pub open spec fn resolve_request_for() -> RequestView {
    RequestView {
        method: Method::Get,
        url: lookup_url(),
        bearer_token: None,
        body: None,
        timeout_seconds: REQUEST_TIMEOUT_SECONDS,
    }
}

/// Builds the address of the managed record at the provider.
pub fn record_endpoint(config: &Configuration) -> (url: String)
    ensures
        url@ == record_url(config@),
{
    String::from_str("https://api.cloudflare.com/client/v4/zones/").concat(
        config.zone_id.as_str(),
    ).concat("/dns_records/").concat(config.dns_record_id.as_str())
}

/// Builds the authenticated read of the managed record.
pub fn fetch_request(config: &Configuration) -> (request: Request)
    ensures
        request@ == fetch_request_for(config@),
{
    Request {
        method: Method::Get,
        url: record_endpoint(config),
        bearer_token: Some(config.bearer_token.clone()),
        body: None,
        timeout_seconds: REQUEST_TIMEOUT_SECONDS,
    }
}

/// Builds the authenticated write of `patch` to the managed record.
pub fn patch_request(config: &Configuration, patch: DnsPatchRequest) -> (request: Request)
    ensures
        request@ == patch_request_for(config@, patch@),
{
    Request {
        method: Method::Patch,
        url: record_endpoint(config),
        bearer_token: Some(config.bearer_token.clone()),
        body: Some(patch),
        timeout_seconds: REQUEST_TIMEOUT_SECONDS,
    }
}

/// Builds the question to the lookup service.
pub fn resolve_request() -> (request: Request)
    ensures
        request@ == resolve_request_for(),
{
    Request {
        method: Method::Get,
        url: String::from_str("https://api.ipify.org?format=json"),
        bearer_token: None,
        body: None,
        timeout_seconds: REQUEST_TIMEOUT_SECONDS,
    }
}

/// What became of a request that was sent.
#[derive(Debug, PartialEq, Eq)]
pub enum Reply<T> {
    /// No answer: the service could not be reached or the time ran out.
    Unreachable,
    /// An answer with its HTTP status, and its body where that had the
    /// expected shape.
    Answered { status: u16, body: Option<T> },
}

/// Whether an HTTP status says that the credential was rejected: 401, no
/// valid credential, or 403, a credential without the right to this record.
pub open spec fn is_auth_rejection(status: u16) -> bool {
    status == 401 || status == 403
}

/// How the provider's reply to a read or a write is taken. No answer is a
/// transport failure. An answer that rejects the credential is an
/// authorisation failure, whatever its body. Any other answer stands by its
/// body: the record inside the envelope, or a decoding failure where the body
/// is not such an envelope.
pub open spec fn record_outcome(reply: Reply<DnsResult>) -> Result<DnsRecord, ClientError> {
    match reply {
        Reply::Unreachable => Err(ClientError::Transport),
        Reply::Answered { status, body } => if is_auth_rejection(status) {
            Err(ClientError::Auth)
        } else {
            match body {
                Some(envelope) => Ok(envelope.result),
                None => Err(ClientError::Decode),
            }
        },
    }
}

/// How the lookup service's reply is taken. No answer is a transport failure.
/// An answer stands by its body, whatever its status: the call carries no
/// credential that could be rejected.
pub open spec fn lookup_outcome(reply: Reply<IpResponse>) -> Result<IpResponse, ClientError> {
    match reply {
        Reply::Unreachable => Err(ClientError::Transport),
        Reply::Answered { status, body } => match body {
            Some(observation) => Ok(observation),
            None => Err(ClientError::Decode),
        },
    }
}

/// Takes the provider's reply to a read or a write of the managed record.
pub fn read_record_reply(reply: Reply<DnsResult>) -> (outcome: Result<DnsRecord, ClientError>)
    ensures
        outcome == record_outcome(reply),
{
    match reply {
        Reply::Unreachable => Err(ClientError::Transport),
        Reply::Answered { status, body } => {
            if status == 401 || status == 403 {
                Err(ClientError::Auth)
            } else {
                match body {
                    Some(envelope) => Ok(envelope.result),
                    None => Err(ClientError::Decode),
                }
            }
        },
    }
}

/// Takes the lookup service's reply.
pub fn read_lookup_reply(reply: Reply<IpResponse>) -> (outcome: Result<IpResponse, ClientError>)
    ensures
        outcome == lookup_outcome(reply),
{
    match reply {
        Reply::Unreachable => Err(ClientError::Transport),
        Reply::Answered { status, body } => match body {
            Some(observation) => Ok(observation),
            None => Err(ClientError::Decode),
        },
    }
}

} // verus!
