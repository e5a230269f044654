//! The client: a one-shot builder that finalizes an immutable
//! configuration, and the handle that executes requests with it. The
//! transport exchange itself is a callback the caller supplies; the engine
//! decides everything else.

use vstd::prelude::*;
use crate::engine::{Method, RedirectFlow, Request, ResponseHead, Step};
use crate::error::Error;
use crate::redirect::RedirectPolicy;
use crate::urls::{parse_url, parse_url_spec};
use vstd::pervasive::unreached;
use vstd::slice::slice_to_vec;

verus! {

/// Whether a byte string is a valid binary DER certificate.
pub uninterp spec fn der_certificate_ok(der: Seq<u8>) -> bool;

/// Relies on `native_tls::Certificate::from_der`: it accepts exactly the
/// byte strings that decode as a binary DER certificate.
#[verifier::external_body]
fn check_der(der: &[u8]) -> (r: bool)
    ensures
        r == der_certificate_ok(der@),
{
    native_tls::Certificate::from_der(der).is_ok()
}

/// An X.509 certificate, held as the DER bytes it was created from. Its
/// only constructor checks them, so a value of this type decodes.
#[derive(Debug)]
pub struct Certificate {
    der: Vec<u8>,
}

impl View for Certificate {
    type V = Seq<u8>;

    closed spec fn view(&self) -> Seq<u8> {
        self.der@
    }
}

impl Clone for Certificate {
    fn clone(&self) -> (r: Self)
        ensures
            r@ == self@,
    {
        Certificate { der: self.der.clone() }
    }
}

impl Certificate {
    /// Creates a `Certificate` from a binary DER encoded certificate,
    /// refusing bytes that do not decode as one.
    pub fn from_der(der: &[u8]) -> (r: Result<Certificate, Error>)
        ensures
            der_certificate_ok(der@) ==> (r matches Ok(c) && c@ == der@),
            !der_certificate_ok(der@) ==> (r matches Err(e) && e matches Error::TlsConfigError),
    {
        if check_der(der) {
            Ok(Certificate { der: slice_to_vec(der) })
        } else {
            Err(Error::TlsConfigError)
        }
    }

    /// The DER bytes the certificate was created from.
    pub fn der_bytes(&self) -> (r: &Vec<u8>)
        ensures
            r@ == self@,
    {
        &self.der
    }
}

/// The mathematical value of a configuration.
pub ghost struct ConfigModel {
    pub gzip: bool,
    pub hostname_verification: bool,
    pub redirect_policy: RedirectPolicy,
    pub referer: bool,
    pub timeout_ms: Option<u64>,
    pub root_certificates: Seq<Seq<u8>>,
}

/// The configuration a builder accumulates and a client then holds,
/// immutable, for its lifetime.
#[derive(Debug)]
pub struct Config {
    pub gzip: bool,
    pub hostname_verification: bool,
    pub redirect_policy: RedirectPolicy,
    pub referer: bool,
    pub timeout_ms: Option<u64>,
    pub root_certificates: Vec<Certificate>,
}

impl View for Config {
    type V = ConfigModel;

    open spec fn view(&self) -> ConfigModel {
        ConfigModel {
            gzip: self.gzip,
            hostname_verification: self.hostname_verification,
            redirect_policy: self.redirect_policy,
            referer: self.referer,
            timeout_ms: self.timeout_ms,
            root_certificates: self.root_certificates@.map_values(|c: Certificate| c@),
        }
    }
}

impl Clone for Config {
    fn clone(&self) -> (r: Self)
        ensures
            r@ == self@,
    {
        let mut certs: Vec<Certificate> = Vec::new();
        let mut i: usize = 0;
        while i < self.root_certificates.len()
            invariant
                i <= self.root_certificates.len(),
                certs@.len() == i,
                forall|j: int| 0 <= j < i ==> certs@[j]@ == self.root_certificates@[j]@,
            decreases self.root_certificates.len() - i,
        {
            certs.push(self.root_certificates[i].clone());
            i += 1;
        }
        let r = Config {
            gzip: self.gzip,
            hostname_verification: self.hostname_verification,
            redirect_policy: self.redirect_policy,
            referer: self.referer,
            timeout_ms: self.timeout_ms,
            root_certificates: certs,
        };
        proof {
            assert(r@.root_certificates =~= self@.root_certificates);
        }
        r
    }
}

/// The configuration a fresh builder starts from: secure defaults.
pub open spec fn default_config() -> ConfigModel {
    ConfigModel {
        gzip: true,
        hostname_verification: true,
        redirect_policy: RedirectPolicy::Limit(10usize),
        referer: true,
        timeout_ms: None,
        root_certificates: Seq::empty(),
    }
}

/// A one-shot builder for a `Client`. Building consumes the configuration;
/// any operation on a consumed builder fails with `BuilderReused` instead
/// of silently reusing stale state.
pub struct ClientBuilder {
    config: Option<Config>,
}

impl View for ClientBuilder {
    type V = Option<ConfigModel>;

    closed spec fn view(&self) -> Option<ConfigModel> {
        match self.config {
            Some(c) => Some(c@),
            None => None,
        }
    }
}

impl ClientBuilder {
    /// A new builder, seeded with the secure defaults: gzip on, hostname
    /// verification on, `Limit(10)` redirects, Referer on, no timeout.
    pub fn new() -> (r: Result<ClientBuilder, Error>)
        ensures
            r matches Ok(b) && b@ == Some(default_config()),
    {
        let b = ClientBuilder {
            config: Some(
                Config {
                    gzip: true,
                    hostname_verification: true,
                    redirect_policy: RedirectPolicy::Limit(10),
                    referer: true,
                    timeout_ms: None,
                    root_certificates: Vec::new(),
                },
            ),
        };
        proof {
            assert(b@->Some_0.root_certificates =~= default_config().root_certificates);
        }
        Ok(b)
    }

    /// Consumes the configuration and yields the immutable client. A
    /// second build, or any later mutation, fails with `BuilderReused`.
    pub fn build(&mut self) -> (r: Result<Client, Error>)
        ensures
            old(self)@ matches Some(cfg) ==> (r matches Ok(c) && c@ == cfg),
            old(self)@ is None ==> (r matches Err(e) && e matches Error::BuilderReused),
            final(self)@ is None,
    {
        match self.config.take() {
            Some(cfg) => Ok(Client { config: cfg }),
            None => Err(Error::BuilderReused),
        }
    }

    /// Adds a root certificate to the trust configuration.
    pub fn add_root_certificate(&mut self, cert: Certificate) -> (r: Result<(), Error>)
        ensures
            old(self)@ matches Some(cfg) ==> final(self)@ == Some(
                ConfigModel { root_certificates: cfg.root_certificates.push(cert@), ..cfg },
            ) && r is Ok,
            old(self)@ is None ==> final(self)@ is None && (r matches Err(e) && e
                matches Error::BuilderReused),
    {
        match &mut self.config {
            Some(c) => {
                c.root_certificates.push(cert);
                proof {
                    assert(final(self)@->Some_0.root_certificates =~= old(
                        self,
                    )@->Some_0.root_certificates.push(cert@));
                }
                Ok(())
            },
            None => Err(Error::BuilderReused),
        }
    }

    /// Turns TLS peer hostname checking off. Doing so trusts any valid
    /// certificate for any host: a deliberate, security-reducing escape
    /// hatch.
    pub fn danger_disable_hostname_verification(&mut self) -> (r: Result<(), Error>)
        ensures
            old(self)@ matches Some(cfg) ==> final(self)@ == Some(
                ConfigModel { hostname_verification: false, ..cfg },
            ) && r is Ok,
            old(self)@ is None ==> final(self)@ is None && (r matches Err(e) && e
                matches Error::BuilderReused),
    {
        match &mut self.config {
            Some(c) => {
                c.hostname_verification = false;
                Ok(())
            },
            None => Err(Error::BuilderReused),
        }
    }

    /// Turns TLS peer hostname checking back on.
    pub fn enable_hostname_verification(&mut self) -> (r: Result<(), Error>)
        ensures
            old(self)@ matches Some(cfg) ==> final(self)@ == Some(
                ConfigModel { hostname_verification: true, ..cfg },
            ) && r is Ok,
            old(self)@ is None ==> final(self)@ is None && (r matches Err(e) && e
                matches Error::BuilderReused),
    {
        match &mut self.config {
            Some(c) => {
                c.hostname_verification = true;
                Ok(())
            },
            None => Err(Error::BuilderReused),
        }
    }

    /// Enables or disables negotiating gzip response encoding.
    pub fn gzip(&mut self, enable: bool) -> (r: Result<(), Error>)
        ensures
            old(self)@ matches Some(cfg) ==> final(self)@ == Some(
                ConfigModel { gzip: enable, ..cfg },
            ) && r is Ok,
            old(self)@ is None ==> final(self)@ is None && (r matches Err(e) && e
                matches Error::BuilderReused),
    {
        match &mut self.config {
            Some(c) => {
                c.gzip = enable;
                Ok(())
            },
            None => Err(Error::BuilderReused),
        }
    }

    /// Sets the redirect policy.
    pub fn redirect(&mut self, policy: RedirectPolicy) -> (r: Result<(), Error>)
        ensures
            old(self)@ matches Some(cfg) ==> final(self)@ == Some(
                ConfigModel { redirect_policy: policy, ..cfg },
            ) && r is Ok,
            old(self)@ is None ==> final(self)@ is None && (r matches Err(e) && e
                matches Error::BuilderReused),
    {
        match &mut self.config {
            Some(c) => {
                c.redirect_policy = policy;
                Ok(())
            },
            None => Err(Error::BuilderReused),
        }
    }

    /// Enables or disables the automatic Referer header across redirects.
    pub fn referer(&mut self, enable: bool) -> (r: Result<(), Error>)
        ensures
            old(self)@ matches Some(cfg) ==> final(self)@ == Some(
                ConfigModel { referer: enable, ..cfg },
            ) && r is Ok,
            old(self)@ is None ==> final(self)@ is None && (r matches Err(e) && e
                matches Error::BuilderReused),
    {
        match &mut self.config {
            Some(c) => {
                c.referer = enable;
                Ok(())
            },
            None => Err(Error::BuilderReused),
        }
    }

    /// Sets the read and write timeout, in milliseconds, applied uniformly
    /// to every hop.
    pub fn timeout(&mut self, timeout_ms: u64) -> (r: Result<(), Error>)
        ensures
            old(self)@ matches Some(cfg) ==> final(self)@ == Some(
                ConfigModel { timeout_ms: Some(timeout_ms), ..cfg },
            ) && r is Ok,
            old(self)@ is None ==> final(self)@ is None && (r matches Err(e) && e
                matches Error::BuilderReused),
    {
        match &mut self.config {
            Some(c) => {
                c.timeout_ms = Some(timeout_ms);
                Ok(())
            },
            None => Err(Error::BuilderReused),
        }
    }
}

/// A request being put together: the target of one of the convenience
/// methods, ready to take headers and a body before it is executed.
pub struct RequestBuilder {
    request: Request,
}

impl View for RequestBuilder {
    type V = crate::engine::RequestModel;

    closed spec fn view(&self) -> crate::engine::RequestModel {
        self.request@
    }
}

impl RequestBuilder {
    /// Appends one header line.
    pub fn header(&mut self, name: &str, value: &str)
        ensures
            final(self)@ == (crate::engine::RequestModel {
                headers: old(self)@.headers.push(
                    crate::headers::HeaderModel { name: name@, value: value@ },
                ),
                ..old(self)@
            }),
    {
        self.request.headers.add(name, value);
    }

    /// Sets the request body and whether it can be re-sent after a
    /// redirect consumed it.
    pub fn body(&mut self, bytes: Vec<u8>, resettable: bool)
        ensures
            final(self)@ == (crate::engine::RequestModel {
                body: Some(crate::engine::BodyModel { bytes: bytes@, resettable }),
                ..old(self)@
            }),
    {
        self.request.body = Some(crate::engine::Body { bytes, resettable });
    }

    /// The finished request.
    pub fn build(self) -> (r: Request)
        ensures
            r@ == self@,
    {
        self.request
    }
}

/// A client: an immutable configuration behind a handle. Each `execute`
/// call owns its own working state, so one client serves any number of
/// call sites.
#[derive(Debug)]
pub struct Client {
    pub config: Config,
}

impl View for Client {
    type V = ConfigModel;

    open spec fn view(&self) -> ConfigModel {
        self.config@
    }
}

impl Clone for Client {
    fn clone(&self) -> (r: Self)
        ensures
            r@ == self@,
    {
        Client { config: self.config.clone() }
    }
}

impl Client {
    /// A client with the default configuration.
    pub fn new() -> (r: Result<Client, Error>)
        ensures
            r matches Ok(c) && c@ == default_config(),
    {
        let mut b = match ClientBuilder::new() {
            Ok(b) => b,
            Err(_) => unreached(),
        };
        b.build()
    }

    /// A builder, for a client with custom configuration.
    pub fn builder() -> (r: Result<ClientBuilder, Error>)
        ensures
            r matches Ok(b) && b@ == Some(default_config()),
    {
        ClientBuilder::new()
    }

    /// Starts a GET request to `url`.
    pub fn get(&self, url: &str) -> (r: Result<RequestBuilder, Error>)
        ensures
            request_outcome(r, Method::Get, url@),
    {
        self.request(Method::Get, url)
    }

    /// Starts a POST request to `url`.
    pub fn post(&self, url: &str) -> (r: Result<RequestBuilder, Error>)
        ensures
            request_outcome(r, Method::Post, url@),
    {
        self.request(Method::Post, url)
    }

    /// Starts a PUT request to `url`.
    pub fn put(&self, url: &str) -> (r: Result<RequestBuilder, Error>)
        ensures
            request_outcome(r, Method::Put, url@),
    {
        self.request(Method::Put, url)
    }

    /// Starts a PATCH request to `url`.
    pub fn patch(&self, url: &str) -> (r: Result<RequestBuilder, Error>)
        ensures
            request_outcome(r, Method::Patch, url@),
    {
        self.request(Method::Patch, url)
    }

    /// Starts a DELETE request to `url`.
    pub fn delete(&self, url: &str) -> (r: Result<RequestBuilder, Error>)
        ensures
            request_outcome(r, Method::Delete, url@),
    {
        self.request(Method::Delete, url)
    }

    /// Starts a HEAD request to `url`.
    pub fn head(&self, url: &str) -> (r: Result<RequestBuilder, Error>)
        ensures
            request_outcome(r, Method::Head, url@),
    {
        self.request(Method::Head, url)
    }

    /// Starts a request with the given method on `url`, rejecting a string
    /// that does not parse as a URL.
    pub fn request(&self, method: Method, url: &str) -> (r: Result<RequestBuilder, Error>)
        ensures
            request_outcome(r, method, url@),
    {
        match parse_url(url) {
            Some(u) => Ok(RequestBuilder { request: Request::new(method, u) }),
            None => Err(Error::InvalidUrl),
        }
    }

    /// Executes a request to its terminal response. `send` performs one
    /// transport exchange for the engine and answers with the response
    /// head, or with nothing on a transport failure, which ends the call
    /// with a `TransportError` naming the URL that failed. Policies decided
    /// per hop by the caller (`Custom`) drive a `RedirectFlow` directly;
    /// this loop serves the built-in policies, whose hop count it bounds.
    pub fn execute<F: Fn(&RedirectFlow) -> Option<ResponseHead>>(
        &self,
        request: Request,
        send: F,
    ) -> (r: Result<ResponseHead, Error>)
        requires
            !(self@.redirect_policy is Custom),
            forall|a: (&RedirectFlow,)| #[trigger] call_requires(send, a),
        ensures
            r matches Err(e) ==> (e matches Error::TransportError { .. } || e
                matches Error::RedirectLoopDetected { .. } || e matches Error::TooManyRedirects {
                ..
            }),
    {
        let mut flow = RedirectFlow::begin(
            self.config.redirect_policy,
            self.config.referer,
            self.config.gzip,
            request,
        );
        loop
            invariant
                flow@.pending is None,
                flow@.policy == self@.redirect_policy,
                !(flow@.policy is Custom),
                flow@.history.len() <= policy_limit(flow@.policy),
                forall|a: (&RedirectFlow,)| #[trigger] call_requires(send, a),
            decreases policy_limit(flow@.policy) + 1 - flow@.history.len(),
        {
            let resp = match send(&flow) {
                Some(resp) => resp,
                None => {
                    return Err(Error::TransportError { url: flow.url });
                },
            };
            let step = flow.handle_response(&resp);
            match step {
                Step::Resend => {},
                Step::Terminal => {
                    return Ok(resp);
                },
                Step::LoopDetected => {
                    return Err(Error::RedirectLoopDetected { url: resp.url });
                },
                Step::TooManyRedirects => {
                    return Err(Error::TooManyRedirects { url: resp.url });
                },
                Step::AskPolicy => {
                    return unreached();
                },
            }
        }
    }
}

/// The most hops a built-in policy can ever follow: none under `NoFollow`,
/// `n` under `Limit(n)`.
pub open spec fn policy_limit(p: RedirectPolicy) -> int {
    match p {
        RedirectPolicy::Limit(n) => n as int,
        _ => 0,
    }
}

/// What starting a request yields: a builder holding a bare request for
/// the parsed URL, or `InvalidUrl` exactly when the string does not parse.
pub open spec fn request_outcome(
    r: Result<RequestBuilder, Error>,
    method: Method,
    url: Seq<char>,
) -> bool {
    match parse_url_spec(url) {
        Some(u) => r matches Ok(b) && b@ == (crate::engine::RequestModel {
            method,
            url: u,
            headers: Seq::empty(),
            body: None,
        }),
        None => r matches Err(e) && e matches Error::InvalidUrl,
    }
}

} // verus!
