//! The library's model of a URL: the components the redirect logic reads
//! (scheme, userinfo, host, port, path, query, fragment) held as plain
//! values. Parsing and reference resolution are delegated to the `url`
//! crate behind trusted wrappers; everything else about a URL is verified.

use vstd::prelude::*;
use vstd::string::{StringExecFns, StrSliceExecFns};
use crate::chars::{opt_seq, str_eq, opt_str_eq};

verus! {

/// The mathematical value of a URL: its components as character sequences.
pub ghost struct UrlModel {
    pub scheme: Seq<char>,
    pub username: Seq<char>,
    pub password: Option<Seq<char>>,
    pub host: Option<Seq<char>>,
    pub port: Option<u16>,
    pub path: Seq<char>,
    pub query: Option<Seq<char>>,
    pub fragment: Option<Seq<char>>,
}

/// A parsed URL. Components are stored in the canonical form the parser
/// produced (lower-case scheme and host, percent-encoded path and query),
/// so comparing components compares canonical URLs.
#[derive(Debug)]
pub struct HttpUrl {
    pub scheme: String,
    pub username: String,
    pub password: Option<String>,
    pub host: Option<String>,
    pub port: Option<u16>,
    pub path: String,
    pub query: Option<String>,
    pub fragment: Option<String>,
}

impl View for HttpUrl {
    type V = UrlModel;

    open spec fn view(&self) -> UrlModel {
        UrlModel {
            scheme: self.scheme@,
            username: self.username@,
            password: opt_seq(self.password),
            host: opt_seq(self.host),
            port: self.port,
            path: self.path@,
            query: opt_seq(self.query),
            fragment: opt_seq(self.fragment),
        }
    }
}

impl Clone for HttpUrl {
    fn clone(&self) -> (r: Self)
        ensures
            r@ == self@,
    {
        HttpUrl {
            scheme: self.scheme.clone(),
            username: self.username.clone(),
            password: match &self.password {
                Some(p) => Some(p.clone()),
                None => None,
            },
            host: match &self.host {
                Some(h) => Some(h.clone()),
                None => None,
            },
            port: self.port,
            path: self.path.clone(),
            query: match &self.query {
                Some(q) => Some(q.clone()),
                None => None,
            },
            fragment: match &self.fragment {
                Some(f) => Some(f.clone()),
                None => None,
            },
        }
    }
}

impl HttpUrl {
    /// Whether two URLs are the same URL, component for component.
    pub fn same_url(&self, other: &HttpUrl) -> (r: bool)
        ensures
            r == (self@ == other@),
    {
        let r = str_eq(self.scheme.as_str(), other.scheme.as_str())
            && str_eq(self.username.as_str(), other.username.as_str())
            && opt_str_eq(&self.password, &other.password)
            && opt_str_eq(&self.host, &other.host)
            && self.port == other.port
            && str_eq(self.path.as_str(), other.path.as_str())
            && opt_str_eq(&self.query, &other.query)
            && opt_str_eq(&self.fragment, &other.fragment);
        proof {
            if r {
                assert(self@ == other@);
            } else {
                assert(self@ != other@);
            }
        }
        r
    }

    /// Whether two URLs agree on scheme and host: the boundary the header
    /// sanitizer guards. Differing in either is a cross-origin move.
    pub fn same_scheme_and_host(&self, other: &HttpUrl) -> (r: bool)
        ensures
            r == same_origin(self@, other@),
    {
        str_eq(self.scheme.as_str(), other.scheme.as_str()) && opt_str_eq(&self.host, &other.host)
    }

    /// The URL written back out as a string, from its components.
    #[verifier::rlimit(30)]
    pub fn serialize(&self) -> (s: String)
        ensures
            s@ == url_str(self@),
    {
        let ghost head: Seq<char> = self@.scheme + ":"@ + authority_str(self@);
        let mut s = String::new();
        s.append(self.scheme.as_str());
        s.append(":");
        if let Some(h) = &self.host {
            s.append("//");
            let has_user = self.username.as_str().unicode_len() > 0;
            let has_pass = self.password.is_some();
            if has_user || has_pass {
                s.append(self.username.as_str());
                if let Some(p) = &self.password {
                    s.append(":");
                    s.append(p.as_str());
                }
                s.append("@");
            }
            proof {
                assert(s@ =~= self@.scheme + ":"@ + "//"@ + userinfo_str(self@));
            }
            s.append(h.as_str());
            if let Some(p) = self.port {
                s.append(":");
                s.append(u16_dec(p).as_str());
            }
            proof {
                assert(s@ =~= head);
            }
        } else {
            proof {
                assert(s@ =~= head);
            }
        }
        s.append(self.path.as_str());
        if let Some(q) = &self.query {
            s.append("?");
            s.append(q.as_str());
        }
        proof {
            assert(s@ =~= head + self@.path + query_str(self@.query));
        }
        if let Some(f) = &self.fragment {
            s.append("#");
            s.append(f.as_str());
        }
        proof {
            assert(s@ =~= url_str(self@));
        }
        s
    }
}

/// Two URLs sit on the same origin boundary for header purposes when both
/// scheme and host agree.
pub open spec fn same_origin(a: UrlModel, b: UrlModel) -> bool {
    a.scheme == b.scheme && a.host == b.host
}

/// The string form of a URL model: scheme, then the authority when a host
/// is present, then path, query and fragment.
pub open spec fn url_str(u: UrlModel) -> Seq<char> {
    u.scheme + ":"@ + authority_str(u) + u.path + query_str(u.query) + fragment_str(u.fragment)
}

pub open spec fn authority_str(u: UrlModel) -> Seq<char> {
    match u.host {
        Some(h) => "//"@ + userinfo_str(u) + h + port_str(u.port),
        None => Seq::empty(),
    }
}

pub open spec fn userinfo_str(u: UrlModel) -> Seq<char> {
    if u.username.len() == 0 && u.password is None {
        Seq::empty()
    } else {
        u.username + match u.password {
            Some(p) => ":"@ + p,
            None => Seq::<char>::empty(),
        } + "@"@
    }
}

pub open spec fn port_str(p: Option<u16>) -> Seq<char> {
    match p {
        Some(n) => ":"@ + dec_str(n as nat),
        None => Seq::empty(),
    }
}

pub open spec fn query_str(q: Option<Seq<char>>) -> Seq<char> {
    match q {
        Some(s) => "?"@ + s,
        None => Seq::empty(),
    }
}

pub open spec fn fragment_str(f: Option<Seq<char>>) -> Seq<char> {
    match f {
        Some(s) => "#"@ + s,
        None => Seq::empty(),
    }
}

/// The character for a single decimal digit.
pub open spec fn dec_digit(d: nat) -> char {
    ((48 + d) as u8) as char
}

/// The decimal notation of a natural number, most significant digit first.
pub open spec fn dec_str(n: nat) -> Seq<char>
    decreases n,
{
    if n < 10 {
        seq![dec_digit(n)]
    } else {
        dec_str(n / 10) + seq![dec_digit(n % 10)]
    }
}

fn digit_str(d: u16) -> (r: &'static str)
    requires
        d < 10,
    ensures
        r@ == seq![dec_digit(d as nat)],
{
    proof {
        reveal_strlit("0");
        reveal_strlit("1");
        reveal_strlit("2");
        reveal_strlit("3");
        reveal_strlit("4");
        reveal_strlit("5");
        reveal_strlit("6");
        reveal_strlit("7");
        reveal_strlit("8");
        reveal_strlit("9");
        assert("0"@ =~= seq![dec_digit(0)]);
        assert("1"@ =~= seq![dec_digit(1)]);
        assert("2"@ =~= seq![dec_digit(2)]);
        assert("3"@ =~= seq![dec_digit(3)]);
        assert("4"@ =~= seq![dec_digit(4)]);
        assert("5"@ =~= seq![dec_digit(5)]);
        assert("6"@ =~= seq![dec_digit(6)]);
        assert("7"@ =~= seq![dec_digit(7)]);
        assert("8"@ =~= seq![dec_digit(8)]);
        assert("9"@ =~= seq![dec_digit(9)]);
    }
    match d {
        0 => "0",
        1 => "1",
        2 => "2",
        3 => "3",
        4 => "4",
        5 => "5",
        6 => "6",
        7 => "7",
        8 => "8",
        _ => "9",
    }
}

/// The decimal string of a 16-bit number, as `dec_str` describes it.
pub fn u16_dec(n: u16) -> (s: String)
    ensures
        s@ == dec_str(n as nat),
    decreases n,
{
    if n < 10 {
        String::from_str(digit_str(n))
    } else {
        let mut s = u16_dec(n / 10);
        s.append(digit_str(n % 10));
        s
    }
}

/// The view of a sequence of URLs, such as the visited history.
pub open spec fn urls_view(s: Seq<HttpUrl>) -> Seq<UrlModel> {
    s.map_values(|u: HttpUrl| u@)
}

/// The view of an optional URL, for the contracts of the trusted parsers.
pub open spec fn opt_model(r: Option<HttpUrl>) -> Option<UrlModel> {
    match r {
        Some(u) => Some(u@),
        None => None,
    }
}

/// What the URL standard makes of an absolute URL string: its components,
/// or nothing when the string is not a URL.
pub uninterp spec fn parse_url_spec(s: Seq<char>) -> Option<UrlModel>;

/// What the URL standard makes of a reference `location` resolved against
/// the URL written `base`: the target's components, or nothing when the
/// reference cannot be resolved.
pub uninterp spec fn resolve_spec(base: Seq<char>, location: Seq<char>) -> Option<UrlModel>;

/// Relies on `url::Url::parse`: splits an absolute URL string into scheme,
/// username, password, host, port, path, query and fragment, in canonical
/// (percent-encoded, lower-cased scheme and host) form.
#[verifier::external_body]
pub fn parse_url(s: &str) -> (r: Option<HttpUrl>)
    ensures
        opt_model(r) == parse_url_spec(s@),
{
    let u = match url::Url::parse(s) { Ok(u) => u, Err(_) => return None };
    Some(HttpUrl {
        scheme: u.scheme().to_string(), username: u.username().to_string(),
        password: u.password().map(|p| p.to_string()), host: u.host_str().map(|h| h.to_string()),
        port: u.port(), path: u.path().to_string(), query: u.query().map(|q| q.to_string()),
        fragment: u.fragment().map(|f| f.to_string()),
    })
}

/// Relies on `url::Url::join`: resolves `location` against the URL written
/// `base` per the URL standard (`url::Url::parse` re-reads the base).
#[verifier::external_body]
pub fn resolve_in(base: &str, location: &str) -> (r: Option<HttpUrl>)
    ensures
        opt_model(r) == resolve_spec(base@, location@),
{
    let b = match url::Url::parse(base) { Ok(b) => b, Err(_) => return None };
    let u = match b.join(location) { Ok(u) => u, Err(_) => return None };
    Some(HttpUrl {
        scheme: u.scheme().to_string(), username: u.username().to_string(),
        password: u.password().map(|p| p.to_string()), host: u.host_str().map(|h| h.to_string()),
        port: u.port(), path: u.path().to_string(), query: u.query().map(|q| q.to_string()),
        fragment: u.fragment().map(|f| f.to_string()),
    })
}

} // verus!
