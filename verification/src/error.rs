//! The ways building a client or executing a request can fail. Policy-
//! directed truncation of a redirect chain is not an error: it yields the
//! last response as a terminal result.

use vstd::prelude::*;
use crate::urls::HttpUrl;

verus! {

/// A failure of request execution or client construction.
#[derive(Debug)]
pub enum Error {
    /// The input string could not be parsed as a URL before any send.
    InvalidUrl,
    /// Certificate bytes or the trust-store construction were invalid.
    TlsConfigError,
    /// The transport failed to carry out the exchange with this URL.
    TransportError { url: HttpUrl },
    /// The redirect chain grew past what the policy allows.
    TooManyRedirects { url: HttpUrl },
    /// A redirect revisited a URL already seen in this call.
    RedirectLoopDetected { url: HttpUrl },
    /// A builder was used again after it had already built its client.
    BuilderReused,
}

} // verus!
