use vstd::prelude::*;

use crate::json_text::{decimal, decimal_text, json_quoted, json_string};
use crate::nss_dns_resolver::NssDnsResolver;

verus! {

/// One address override: the exact `host:port` text to match, and the socket
/// address (as text) to use for it.
#[derive(Debug, PartialEq, Eq)]
pub struct NssSocketAddress {
    pub from: String,
    pub to: String,
}

/// The client's configuration: the service's base URLs (only the first is
/// used) and the address overrides.
#[derive(Debug, PartialEq, Eq)]
pub struct PamClientConfig {
    pub base_urls: Vec<String>,
    pub nss_socket_addresses: Vec<NssSocketAddress>,
}

/// The body of a lookup by user id.
#[derive(Debug, PartialEq, Eq)]
pub struct NssPasswordByUidRequest {
    pub hostname: String,
    pub user_id: u32,
}

/// The body of a lookup by user name.
#[derive(Debug, PartialEq, Eq)]
pub struct NssPasswordByNameRequest {
    pub hostname: String,
    pub name: String,
}

/// The envelope that the service answers with.
#[derive(Debug, PartialEq, Eq)]
pub struct NssPasswordEntryResponse {
    pub result_code: i32,
    pub error_message: Option<String>,
    pub password_entry: Option<NssPasswordEntry>,
}

/// A password-database entry.
#[derive(Debug, PartialEq, Eq)]
pub struct NssPasswordEntry {
    pub name: String,
    pub passwd: String,
    pub uid: u32,
    pub gid: u32,
    pub gecos: String,
    pub dir: String,
    pub shell: String,
}

/// The client; each lookup is self-contained, so it holds no state.
#[derive(Debug)]
pub struct NssPasswordClient {}

/// What a lookup reports to its caller.
#[derive(Debug, PartialEq, Eq)]
pub enum LookupOutcome {
    /// A definite match.
    Found(NssPasswordEntry),
    /// A definite non-match.
    NotFound,
    /// The service could not be asked or answered oddly; the caller may retry.
    TemporaryFailure,
    /// The lookup cannot work in this session; the caller should not retry.
    Unavailable,
}

/// What a lookup asks for.
#[derive(Debug, PartialEq, Eq)]
pub enum LookupKey {
    ById(u32),
    ByName(String),
}

/// What became of the body of an HTTP answer.
#[derive(Debug, PartialEq, Eq)]
pub enum ReplyBody {
    /// It was not read, the status having already decided.
    Skipped,
    /// It could not be read as text.
    Unreadable,
    /// It was text, but not a well-formed envelope.
    Malformed,
    /// It was a well-formed envelope.
    Decoded(NssPasswordEntryResponse),
}

/// What came of sending a lookup request.
#[derive(Debug, PartialEq, Eq)]
pub enum HttpExchange {
    /// No HTTP answer was had (connection refused, timeout, TLS or DNS failure).
    TransportFailed,
    /// The service answered with a status, and the body was handled as given.
    Responded { status: u16, body: ReplyBody },
}

/// A request ready to send: the local host name it was built with, the target
/// URL, the JSON body, and the resolver that the transport is to use.
#[derive(Debug, PartialEq, Eq)]
pub struct PreparedLookup {
    pub hostname: String,
    pub url: String,
    pub body: String,
    pub resolver: NssDnsResolver,
}

/// The JSON text of a lookup by user id.
pub open spec fn uid_request_json(hostname: Seq<char>, uid: u32) -> Seq<char> {
    "{\"hostname\":"@ + json_quoted(hostname) + ",\"userId\":"@ + decimal(uid as nat) + "}"@
}

/// The JSON text of a lookup by user name.
pub open spec fn name_request_json(hostname: Seq<char>, name: Seq<char>) -> Seq<char> {
    "{\"hostname\":"@ + json_quoted(hostname) + ",\"name\":"@ + json_quoted(name) + "}"@
}

/// The URL that a lookup is sent to.
pub open spec fn request_url(base: Seq<char>, hostname: Seq<char>, key: LookupKey) -> Seq<char> {
    match key {
        LookupKey::ById(uid) => base + "/identity/record/uid/"@ + hostname + "/"@ + decimal(
            uid as nat,
        ),
        LookupKey::ByName(name) => base + "/identity/record/name/"@ + hostname + "/"@ + name@,
    }
}

/// The body that a lookup sends.
pub open spec fn request_body(hostname: Seq<char>, key: LookupKey) -> Seq<char> {
    match key {
        LookupKey::ById(uid) => uid_request_json(hostname, uid),
        LookupKey::ByName(name) => name_request_json(hostname, name@),
    }
}

/// `p` is the request for `key`, built with the host name `hostname` and the
/// configuration `config`.
pub open spec fn prepared_for(
    p: PreparedLookup,
    hostname: Seq<char>,
    config: PamClientConfig,
    key: LookupKey,
) -> bool {
    &&& config.base_urls@.len() > 0
    &&& p.hostname@ == hostname
    &&& p.url@ == request_url(config.base_urls@[0]@, hostname, key)
    &&& p.body@ == request_body(hostname, key)
    &&& p.resolver.nss_socket_addresses == config.nss_socket_addresses
}

/// The outcome that a well-formed envelope stands for.
pub open spec fn outcome_of_envelope(e: NssPasswordEntryResponse) -> LookupOutcome {
    if e.result_code != 0 {
        LookupOutcome::NotFound
    } else {
        match e.password_entry {
            Some(entry) => LookupOutcome::Found(entry),
            None => LookupOutcome::Unavailable,
        }
    }
}

/// The outcome of an answer with status 200, by what became of its body.
pub open spec fn outcome_of_body(b: ReplyBody) -> LookupOutcome {
    match b {
        ReplyBody::Skipped => LookupOutcome::TemporaryFailure,
        ReplyBody::Unreadable => LookupOutcome::TemporaryFailure,
        ReplyBody::Malformed => LookupOutcome::Unavailable,
        ReplyBody::Decoded(e) => outcome_of_envelope(e),
    }
}

/// The outcome of sending a lookup request.
pub open spec fn outcome_of_exchange(x: HttpExchange) -> LookupOutcome {
    match x {
        HttpExchange::TransportFailed => LookupOutcome::TemporaryFailure,
        HttpExchange::Responded { status, body } => if status != 200 {
            LookupOutcome::TemporaryFailure
        } else {
            outcome_of_body(body)
        },
    }
}

/// A well-formed envelope with code 0 and an entry, answered with status
/// 200, yields that entry unchanged: every field comes out as it went in.
pub proof fn lemma_found_copies_entry(envelope: NssPasswordEntryResponse)
    requires
        envelope.result_code == 0,
        envelope.password_entry is Some,
    ensures
        outcome_of_exchange(
            HttpExchange::Responded { status: 200, body: ReplyBody::Decoded(envelope) },
        ) == LookupOutcome::Found(envelope.password_entry.unwrap()),
        outcome_of_envelope(envelope) == LookupOutcome::Found(envelope.password_entry.unwrap()),
{
}

/// An envelope with a nonzero code means no such user, whether or not it
/// carries an entry.
pub proof fn lemma_nonzero_code_not_found(envelope: NssPasswordEntryResponse)
    requires
        envelope.result_code != 0,
    ensures
        outcome_of_exchange(
            HttpExchange::Responded { status: 200, body: ReplyBody::Decoded(envelope) },
        ) == LookupOutcome::NotFound,
        outcome_of_envelope(envelope) == LookupOutcome::NotFound,
{
}

/// An answer with a status other than 200 is a temporary failure, whatever
/// its body held.
pub proof fn lemma_other_status_temporary(status: u16, body: ReplyBody)
    requires
        status != 200,
    ensures
        outcome_of_exchange(HttpExchange::Responded { status, body })
            == LookupOutcome::TemporaryFailure,
{
}

/// A body that is not a well-formed envelope, on an answer with status 200,
/// makes the lookup unavailable.
pub proof fn lemma_malformed_body_unavailable()
    ensures
        outcome_of_exchange(HttpExchange::Responded { status: 200, body: ReplyBody::Malformed })
            == LookupOutcome::Unavailable,
{
}

/// Asking twice for the same key, with the same host name and configuration,
/// sends the same request; and the same exchange with the service gives the
/// same outcome, entry included.
pub proof fn lemma_lookup_repeatable(
    first: PreparedLookup,
    second: PreparedLookup,
    hostname: Seq<char>,
    config: PamClientConfig,
    key: LookupKey,
    first_exchange: HttpExchange,
    second_exchange: HttpExchange,
)
    requires
        prepared_for(first, hostname, config, key),
        prepared_for(second, hostname, config, key),
        first_exchange == second_exchange,
    ensures
        first.url@ == second.url@,
        first.body@ == second.body@,
        first.resolver == second.resolver,
        outcome_of_exchange(first_exchange) == outcome_of_exchange(second_exchange),
{
}

/// Relies on `gethostname::gethostname`: the name of this machine, kept
/// when it is valid Unicode. It depends on the machine, so nothing is
/// promised of it.
#[verifier::external_body]
fn local_hostname() -> (r: Option<String>) {
    gethostname::gethostname().to_str().map(|h| h.to_string())
}

impl NssPasswordByUidRequest {
    /// The request as JSON text.
    pub fn to_json(&self) -> (r: Result<String, serde_json::Error>)
        ensures
            r is Ok,
            r.unwrap()@ == uid_request_json(self.hostname@, self.user_id),
    {
        let host = json_string(self.hostname.as_str())?;
        let id = decimal_text(self.user_id);
        let mut text = String::from_str("{\"hostname\":");
        text.append(host.as_str());
        text.append(",\"userId\":");
        text.append(id.as_str());
        text.append("}");
        Ok(text)
    }
}

impl NssPasswordByNameRequest {
    /// The request as JSON text.
    pub fn to_json(&self) -> (r: Result<String, serde_json::Error>)
        ensures
            r is Ok,
            r.unwrap()@ == name_request_json(self.hostname@, self.name@),
    {
        let host = json_string(self.hostname.as_str())?;
        let name = json_string(self.name.as_str())?;
        let mut text = String::from_str("{\"hostname\":");
        text.append(host.as_str());
        text.append(",\"name\":");
        text.append(name.as_str());
        text.append("}");
        Ok(text)
    }
}

impl NssPasswordEntryResponse {
    /// The outcome that this envelope stands for: a nonzero code is a
    /// non-match; a zero code with an entry is that entry; a zero code
    /// without one breaks the protocol.
    pub fn into_outcome(self) -> (r: LookupOutcome)
        ensures
            r == outcome_of_envelope(self),
    {
        if self.result_code != 0 {
            return LookupOutcome::NotFound;
        }
        match self.password_entry {
            Some(entry) => LookupOutcome::Found(entry),
            None => LookupOutcome::Unavailable,
        }
    }
}

impl NssPasswordClient {
    /// A client; it holds nothing between lookups.
    pub fn new() -> (r: NssPasswordClient) {
        NssPasswordClient {  }
    }

    /// Builds the request for `key` from the local host name and the
    /// configuration, each `None` where it could not be had. Without a host
    /// name, a configuration or a base URL the lookup is unavailable.
    pub fn prepare_lookup(
        &self,
        hostname: Option<String>,
        config: Option<PamClientConfig>,
        key: LookupKey,
    ) -> (r: Result<PreparedLookup, LookupOutcome>)
        ensures
            r is Err <==> (hostname is None || config is None || config.unwrap().base_urls@.len()
                == 0),
            r is Err ==> r == Err::<PreparedLookup, LookupOutcome>(LookupOutcome::Unavailable),
            r is Ok ==> prepared_for(r.unwrap(), hostname.unwrap()@, config.unwrap(), key),
    {
        let hostname = match hostname {
            Some(h) => h,
            None => return Err(LookupOutcome::Unavailable),
        };
        let config = match config {
            Some(c) => c,
            None => return Err(LookupOutcome::Unavailable),
        };
        let PamClientConfig { base_urls, nss_socket_addresses } = config;
        if base_urls.len() == 0 {
            return Err(LookupOutcome::Unavailable);
        }
        let mut url = base_urls[0].clone();
        let body = match key {
            LookupKey::ById(uid) => {
                url.append("/identity/record/uid/");
                url.append(hostname.as_str());
                url.append("/");
                url.append(decimal_text(uid).as_str());
                let request = NssPasswordByUidRequest { hostname: hostname.clone(), user_id: uid };
                match request.to_json() {
                    Ok(text) => text,
                    Err(_) => return Err(LookupOutcome::Unavailable),
                }
            },
            LookupKey::ByName(name) => {
                url.append("/identity/record/name/");
                url.append(hostname.as_str());
                url.append("/");
                url.append(name.as_str());
                let request = NssPasswordByNameRequest { hostname: hostname.clone(), name };
                match request.to_json() {
                    Ok(text) => text,
                    Err(_) => return Err(LookupOutcome::Unavailable),
                }
            },
        };
        let resolver = NssDnsResolver::new(nss_socket_addresses);
        Ok(PreparedLookup { hostname, url, body, resolver })
    }

    /// As `prepare_lookup`, with the name of this machine as the host name.
    pub fn prepare_local_lookup(&self, config: Option<PamClientConfig>, key: LookupKey) -> (r:
        Result<PreparedLookup, LookupOutcome>)
        ensures
            config is None || config.unwrap().base_urls@.len() == 0 ==> r is Err,
            r is Err ==> r == Err::<PreparedLookup, LookupOutcome>(LookupOutcome::Unavailable),
            r is Ok ==> prepared_for(r.unwrap(), r.unwrap().hostname@, config.unwrap(), key),
    {
        let hostname = local_hostname();
        self.prepare_lookup(hostname, config, key)
    }

    /// Whether an answer with this status is to have its body read: only one
    /// with status 200 is.
    pub fn wants_body(&self, status: u16) -> (r: bool)
        ensures
            r == (status == 200),
    {
        status == 200
    }

    /// The outcome of an answer with status 200, by what became of its body.
    pub fn classify_body(&self, body: ReplyBody) -> (r: LookupOutcome)
        ensures
            r == outcome_of_body(body),
    {
        match body {
            ReplyBody::Skipped => LookupOutcome::TemporaryFailure,
            ReplyBody::Unreadable => LookupOutcome::TemporaryFailure,
            ReplyBody::Malformed => LookupOutcome::Unavailable,
            ReplyBody::Decoded(envelope) => envelope.into_outcome(),
        }
    }

    /// The outcome of sending a lookup request: a failed transport or a
    /// status other than 200 is temporary, whatever the body held.
    pub fn classify_exchange(&self, exchange: HttpExchange) -> (r: LookupOutcome)
        ensures
            r == outcome_of_exchange(exchange),
    {
        match exchange {
            HttpExchange::TransportFailed => LookupOutcome::TemporaryFailure,
            HttpExchange::Responded { status, body } => {
                if !self.wants_body(status) {
                    LookupOutcome::TemporaryFailure
                } else {
                    self.classify_body(body)
                }
            },
        }
    }
}

} // verus!
