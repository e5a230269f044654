//! The redirect-following execution engine: a state machine that a caller
//! drives. The caller performs one transport exchange per hop and hands the
//! response head back; the engine decides whether to resend, where, with
//! which method, body and headers, or to end with a terminal response or an
//! error.

use vstd::prelude::*;
use crate::headers::{HeaderMap, HeaderModel, has_name, first_value, remove_name, set_value};
use crate::redirect::{
    Action, RedirectPolicy, check_redirect, remove_sensitive_headers, spec_check_redirect,
    spec_sanitized,
};
use crate::urls::{HttpUrl, UrlModel, opt_model, resolve_spec, url_str, urls_view};
use vstd::pervasive::unreached;

verus! {

/// An HTTP request method.
#[derive(Clone, Copy, PartialEq, Eq, Structural, Debug)]
pub enum Method {
    Get,
    Head,
    Post,
    Put,
    Patch,
    Delete,
    Options,
    Trace,
    Connect,
}

/// The wire name of a method.
pub open spec fn method_name(m: Method) -> Seq<char> {
    match m {
        Method::Get => "GET"@,
        Method::Head => "HEAD"@,
        Method::Post => "POST"@,
        Method::Put => "PUT"@,
        Method::Patch => "PATCH"@,
        Method::Delete => "DELETE"@,
        Method::Options => "OPTIONS"@,
        Method::Trace => "TRACE"@,
        Method::Connect => "CONNECT"@,
    }
}

impl Method {
    /// The wire name of the method.
    pub fn name(&self) -> (r: &'static str)
        ensures
            r@ == method_name(*self),
    {
        match self {
            Method::Get => "GET",
            Method::Head => "HEAD",
            Method::Post => "POST",
            Method::Put => "PUT",
            Method::Patch => "PATCH",
            Method::Delete => "DELETE",
            Method::Options => "OPTIONS",
            Method::Trace => "TRACE",
            Method::Connect => "CONNECT",
        }
    }
}

/// The mathematical value of a request body.
pub ghost struct BodyModel {
    pub bytes: Seq<u8>,
    pub resettable: bool,
}

/// A request body: its bytes, and whether it can be sent again after a
/// redirect consumes it. A caller whose body is a one-shot stream keeps the
/// stream and registers it here as not resettable.
#[derive(Debug)]
pub struct Body {
    pub bytes: Vec<u8>,
    pub resettable: bool,
}

impl View for Body {
    type V = BodyModel;

    open spec fn view(&self) -> BodyModel {
        BodyModel { bytes: self.bytes@, resettable: self.resettable }
    }
}

impl Clone for Body {
    fn clone(&self) -> (r: Self)
        ensures
            r@ == self@,
    {
        Body { bytes: self.bytes.clone(), resettable: self.resettable }
    }
}

/// The view of an optional body.
pub open spec fn opt_body_view(b: Option<Body>) -> Option<BodyModel> {
    match b {
        Some(x) => Some(x@),
        None => None,
    }
}

/// The mathematical value of a request.
pub ghost struct RequestModel {
    pub method: Method,
    pub url: UrlModel,
    pub headers: Seq<HeaderModel>,
    pub body: Option<BodyModel>,
}

/// A request ready to execute: method, URL, headers and optional body.
#[derive(Debug)]
pub struct Request {
    pub method: Method,
    pub url: HttpUrl,
    pub headers: HeaderMap,
    pub body: Option<Body>,
}

impl View for Request {
    type V = RequestModel;

    open spec fn view(&self) -> RequestModel {
        RequestModel {
            method: self.method,
            url: self.url@,
            headers: self.headers@,
            body: opt_body_view(self.body),
        }
    }
}

impl Request {
    /// A new request for `method` on `url`, with no headers and no body.
    pub fn new(method: Method, url: HttpUrl) -> (r: Request)
        ensures
            r@ == (RequestModel {
                method,
                url: url@,
                headers: Seq::<HeaderModel>::empty(),
                body: None::<BodyModel>,
            }),
    {
        Request { method, url, headers: HeaderMap::new(), body: None }
    }
}

/// The mathematical value of a response head.
pub ghost struct ResponseModel {
    pub status: u16,
    pub headers: Seq<HeaderModel>,
    pub url: UrlModel,
}

/// What the transport hands back from one exchange: the status, the
/// response headers, and the URL the exchange ended on. The response body
/// stays with the caller.
#[derive(Debug)]
pub struct ResponseHead {
    pub status: u16,
    pub headers: HeaderMap,
    pub url: HttpUrl,
}

impl View for ResponseHead {
    type V = ResponseModel;

    open spec fn view(&self) -> ResponseModel {
        ResponseModel { status: self.status, headers: self.headers@, url: self.url@ }
    }
}

/// The statuses the engine treats as redirects.
pub open spec fn is_redirect_status(status: u16) -> bool {
    status == 301 || status == 302 || status == 303 || status == 307 || status == 308
}

/// The statuses that rewrite the method to GET and drop the body.
pub open spec fn forces_get(status: u16) -> bool {
    status == 301 || status == 302 || status == 303
}

/// Whether `status` is one the engine redirects on.
pub fn status_is_redirect(status: u16) -> (r: bool)
    ensures
        r == is_redirect_status(status),
{
    status == 301 || status == 302 || status == 303 || status == 307 || status == 308
}

/// The method the next hop uses: 301, 302 and 303 rewrite anything but GET
/// and HEAD to GET; 307 and 308 keep the method.
pub open spec fn rewritten_method(m: Method, status: u16) -> Method {
    if forces_get(status) && m != Method::Get && m != Method::Head {
        Method::Get
    } else {
        m
    }
}

/// The body the next hop carries: 301, 302 and 303 drop it entirely; 307
/// and 308 keep it only when it is resettable.
pub open spec fn rewritten_body(b: Option<BodyModel>, status: u16) -> Option<BodyModel> {
    if forces_get(status) {
        None
    } else {
        match b {
            Some(bm) => if bm.resettable {
                Some(bm)
            } else {
                None
            },
            None => None,
        }
    }
}

/// A Referer may not leak a secure page's address to an insecure origin.
pub open spec fn referer_denied(next: UrlModel, previous: UrlModel) -> bool {
    next.scheme == "http"@ && previous.scheme == "https"@
}

/// The Referer value derived from the previous URL: userinfo cleared and
/// the fragment removed.
pub open spec fn referer_model(previous: UrlModel) -> UrlModel {
    UrlModel {
        username: Seq::<char>::empty(),
        password: None,
        fragment: None,
        ..previous
    }
}

/// The Referer for a hop from `previous` to `next`: nothing on a downgrade
/// from `https` to `http`, otherwise `previous` with userinfo and fragment
/// cleared.
pub open spec fn spec_make_referer(next: UrlModel, previous: UrlModel) -> Option<UrlModel> {
    if referer_denied(next, previous) {
        None
    } else {
        Some(referer_model(previous))
    }
}

/// Derives the Referer URL for the hop from `previous` to `next`, or
/// nothing when setting one would cross a protocol downgrade.
pub fn make_referer(next: &HttpUrl, previous: &HttpUrl) -> (r: Option<HttpUrl>)
    ensures
        opt_model(r) == spec_make_referer(next@, previous@),
{
    if crate::chars::str_eq(next.scheme.as_str(), "http") && crate::chars::str_eq(
        previous.scheme.as_str(),
        "https",
    ) {
        return None;
    }
    Some(
        HttpUrl {
            scheme: previous.scheme.clone(),
            username: String::new(),
            password: None,
            host: match &previous.host {
                Some(h) => Some(h.clone()),
                None => None,
            },
            port: previous.port,
            path: previous.path.clone(),
            query: match &previous.query {
                Some(q) => Some(q.clone()),
                None => None,
            },
            fragment: None,
        },
    )
}

/// What the engine answers after seeing one response.
#[derive(Clone, Copy, PartialEq, Eq, Structural, Debug)]
pub enum Step {
    /// Send the flow's current request again; it points at the next hop.
    Resend,
    /// The response just handed in is the terminal result of the call.
    Terminal,
    /// The policy is `Custom`: the caller decides and calls `apply_action`.
    AskPolicy,
    /// The candidate URL was already visited: fail with a loop error.
    LoopDetected,
    /// The chain outgrew the policy: fail with a too-many-redirects error.
    TooManyRedirects,
}

/// The mathematical state of one execution.
pub ghost struct FlowModel {
    pub method: Method,
    pub url: UrlModel,
    pub headers: Seq<HeaderModel>,
    pub body: Option<BodyModel>,
    pub history: Seq<UrlModel>,
    pub policy: RedirectPolicy,
    pub send_referer: bool,
    pub pending: Option<UrlModel>,
}

/// The working state of one `execute` call: the request as it will next be
/// sent, the URLs visited so far, and the configuration the engine obeys.
#[derive(Debug)]
pub struct RedirectFlow {
    pub method: Method,
    pub url: HttpUrl,
    pub headers: HeaderMap,
    pub body: Option<Body>,
    pub history: Vec<HttpUrl>,
    pub policy: RedirectPolicy,
    pub send_referer: bool,
    pub pending: Option<HttpUrl>,
}

impl View for RedirectFlow {
    type V = FlowModel;

    open spec fn view(&self) -> FlowModel {
        FlowModel {
            method: self.method,
            url: self.url@,
            headers: self.headers@,
            body: opt_body_view(self.body),
            history: urls_view(self.history@),
            policy: self.policy,
            send_referer: self.send_referer,
            pending: match self.pending {
                Some(u) => Some(u@),
                None => None,
            },
        }
    }
}

/// The default headers a fresh execution carries: a User-Agent and an
/// Accept when the caller set none, and, with gzip enabled, an
/// Accept-Encoding unless one or a Range header is already present.
pub open spec fn spec_prepare_headers(hs: Seq<HeaderModel>, gzip: bool) -> Seq<HeaderModel> {
    let h1 = if has_name(hs, "user-agent"@) {
        hs
    } else {
        hs.push(HeaderModel { name: "user-agent"@, value: "httpflow/0.1.0"@ })
    };
    let h2 = if has_name(h1, "accept"@) {
        h1
    } else {
        h1.push(HeaderModel { name: "accept"@, value: "*/*"@ })
    };
    if gzip && !has_name(h2, "accept-encoding"@) && !has_name(h2, "range"@) {
        h2.push(HeaderModel { name: "accept-encoding"@, value: "gzip"@ })
    } else {
        h2
    }
}

/// The state a fresh execution starts in.
pub open spec fn spec_begin(
    policy: RedirectPolicy,
    send_referer: bool,
    gzip: bool,
    req: RequestModel,
) -> FlowModel {
    FlowModel {
        method: req.method,
        url: req.url,
        headers: spec_prepare_headers(req.headers, gzip),
        body: req.body,
        history: Seq::empty(),
        policy,
        send_referer,
        pending: None,
    }
}

/// The Location of a response, resolved against the current URL: the
/// candidate target of the hop, or nothing when the header is missing or
/// does not resolve.
pub open spec fn candidate_of(pre: FlowModel, resp: ResponseModel) -> Option<UrlModel> {
    match first_value(resp.headers, "location"@) {
        Some(loc) => resolve_spec(url_str(pre.url), loc),
        None => None,
    }
}

/// The headers after the Referer step of a hop towards `cand`: set to the
/// computed value, cleared on a protocol downgrade, untouched when Referer
/// support is off.
pub open spec fn headers_after_referer(pre: FlowModel, cand: UrlModel) -> Seq<HeaderModel> {
    if pre.send_referer {
        match spec_make_referer(cand, pre.url) {
            Some(r) => set_value(pre.headers, "referer"@, url_str(r)),
            None => remove_name(pre.headers, "referer"@),
        }
    } else {
        pre.headers
    }
}

/// The state after a policy decision on the candidate `cand`: a followed
/// hop adopts the candidate and strips sensitive headers across the origin
/// boundary; every other decision leaves the state still.
pub open spec fn spec_apply(mid: FlowModel, cand: UrlModel, a: Action) -> (FlowModel, Step) {
    match a {
        Action::Follow => (
            FlowModel {
                url: cand,
                headers: spec_sanitized(mid.headers, cand, mid.history),
                pending: None,
                ..mid
            },
            Step::Resend,
        ),
        Action::Stop => (FlowModel { pending: None, ..mid }, Step::Terminal),
        Action::LoopDetected => (FlowModel { pending: None, ..mid }, Step::LoopDetected),
        Action::TooManyRedirects => (FlowModel { pending: None, ..mid }, Step::TooManyRedirects),
    }
}

/// One transition of the engine: classify the status, rewrite method and
/// body, resolve the candidate, compute the Referer, record the hop in the
/// history, and let the policy decide.
pub open spec fn spec_step(pre: FlowModel, resp: ResponseModel) -> (FlowModel, Step) {
    if !is_redirect_status(resp.status) {
        (pre, Step::Terminal)
    } else {
        let m = rewritten_method(pre.method, resp.status);
        let b = rewritten_body(pre.body, resp.status);
        match candidate_of(pre, resp) {
            None => (FlowModel { method: m, body: b, ..pre }, Step::Terminal),
            Some(cand) => {
                let hs = headers_after_referer(pre, cand);
                let hist = pre.history.push(pre.url);
                let mid = FlowModel { method: m, body: b, headers: hs, history: hist, ..pre };
                match spec_check_redirect(pre.policy, cand, hist) {
                    None => (FlowModel { pending: Some(cand), ..mid }, Step::AskPolicy),
                    Some(a) => spec_apply(mid, cand, a),
                }
            },
        }
    }
}

impl RedirectFlow {
    /// Starts an execution of `request` under the given policy and flags,
    /// filling in the default headers.
    pub fn begin(policy: RedirectPolicy, send_referer: bool, gzip: bool, request: Request) -> (flow:
        RedirectFlow)
        ensures
            flow@ == spec_begin(policy, send_referer, gzip, request@),
    {
        let Request { method, url, mut headers, body } = request;
        if !headers.has("user-agent") {
            headers.add("user-agent", "httpflow/0.1.0");
        }
        if !headers.has("accept") {
            headers.add("accept", "*/*");
        }
        if gzip && !headers.has("accept-encoding") && !headers.has("range") {
            headers.add("accept-encoding", "gzip");
        }
        let flow = RedirectFlow {
            method,
            url,
            headers,
            body,
            history: Vec::new(),
            policy,
            send_referer,
            pending: None,
        };
        proof {
            assert(urls_view(Seq::<HttpUrl>::empty()) =~= Seq::<UrlModel>::empty());
            assert(flow@ =~= spec_begin(policy, send_referer, gzip, request@));
        }
        flow
    }

    /// Digests one response. The answer says whether to resend the flow's
    /// current request, stop with this response as terminal, fail, or — for
    /// a `Custom` policy — ask the caller to decide via `apply_action`.
    pub fn handle_response(&mut self, resp: &ResponseHead) -> (step: Step)
        requires
            old(self).pending is None,
        ensures
            ({
                let (post, s) = spec_step(old(self)@, resp@);
                final(self)@ == post && step == s
            }),
    {
        if !status_is_redirect(resp.status) {
            return Step::Terminal;
        }
        if resp.status == 301 || resp.status == 302 || resp.status == 303 {
            self.body = None;
            match self.method {
                Method::Get | Method::Head => {},
                _ => {
                    self.method = Method::Get;
                },
            }
        } else {
            let must_drop = match &self.body {
                Some(b) => !b.resettable,
                None => false,
            };
            if must_drop {
                self.body = None;
            }
        }
        let loc = match resp.headers.get_first("location") {
            Some(l) => l,
            None => {
                return Step::Terminal;
            },
        };
        let base = self.url.serialize();
        let cand = match crate::urls::resolve_in(base.as_str(), loc.as_str()) {
            Some(c) => c,
            None => {
                return Step::Terminal;
            },
        };
        if self.send_referer {
            match make_referer(&cand, &self.url) {
                Some(r) => {
                    let v = r.serialize();
                    self.headers.set("referer", v.as_str());
                },
                None => {
                    self.headers.remove("referer");
                },
            }
        }
        self.history.push(self.url.clone());
        proof {
            assert(urls_view(self.history@) =~= urls_view(old(self).history@).push(old(self)@.url));
        }
        match check_redirect(&self.policy, &cand, &self.history) {
            None => {
                self.pending = Some(cand);
                Step::AskPolicy
            },
            Some(a) => self.finish_hop(cand, a),
        }
    }

    /// Completes a hop whose policy decision is known.
    fn finish_hop(&mut self, cand: HttpUrl, a: Action) -> (step: Step)
        requires
            old(self).pending is None,
        ensures
            ({
                let (post, s) = spec_apply(old(self)@, cand@, a);
                final(self)@ == post && step == s
            }),
    {
        match a {
            Action::Follow => {
                self.url = cand;
                remove_sensitive_headers(&mut self.headers, &self.url, &self.history);
                Step::Resend
            },
            Action::Stop => Step::Terminal,
            Action::LoopDetected => Step::LoopDetected,
            Action::TooManyRedirects => Step::TooManyRedirects,
        }
    }

    /// Hands in the caller's decision for the candidate a `Custom` policy
    /// was asked about.
    pub fn apply_action(&mut self, action: Action) -> (step: Step)
        requires
            old(self)@.pending is Some,
        ensures
            ({
                let (post, s) = spec_apply(
                    flow_without_pending(old(self)@),
                    old(self)@.pending->Some_0,
                    action,
                );
                final(self)@ == post && step == s
            }),
    {
        let cand = match &self.pending {
            Some(c) => c.clone(),
            None => unreached(),
        };
        self.pending = None;
        self.finish_hop(cand, action)
    }
}

/// The same state with no pending candidate.
pub open spec fn flow_without_pending(m: FlowModel) -> FlowModel {
    FlowModel { pending: None, ..m }
}

/// Law: a 303 response resends with GET and no body, whatever the original
/// method and whether the body was resettable. The one exception is HEAD,
/// which keeps its method (a HEAD exchange has no body either way).
pub proof fn lemma_see_other_rewrite(m: Method, b: Option<BodyModel>)
    requires
        m != Method::Head,
    ensures
        rewritten_method(m, 303) == Method::Get,
        rewritten_body(b, 303) is None,
{
}

/// Law: a 301 or 302 response to a non-GET/HEAD request rewrites the
/// method to GET; GET and HEAD requests keep their method; the body is
/// dropped either way.
pub proof fn lemma_moved_found_rewrite(m: Method, b: Option<BodyModel>, status: u16)
    requires
        status == 301 || status == 302,
    ensures
        m != Method::Get && m != Method::Head ==> rewritten_method(m, status) == Method::Get,
        m == Method::Get || m == Method::Head ==> rewritten_method(m, status) == m,
        rewritten_body(b, status) is None,
{
}

/// Law: under `Limit(n)` a hop is only ever followed while it leaves at
/// most `n` URLs in the history, and every followed hop appends exactly
/// one URL — so no execution follows more than `n` hops.
pub proof fn lemma_limit_bounds_flow(pre: FlowModel, resp: ResponseModel, n: usize)
    requires
        pre.policy == RedirectPolicy::Limit(n),
        spec_step(pre, resp).1 == Step::Resend,
    ensures
        spec_step(pre, resp).0.history.len() <= n,
        spec_step(pre, resp).0.history == pre.history.push(pre.url),
{
}

/// The state after digesting a sequence of responses, one transition each.
pub open spec fn run_steps(pre: FlowModel, resps: Seq<ResponseModel>) -> FlowModel
    decreases resps.len(),
{
    if resps.len() == 0 {
        pre
    } else {
        run_steps(spec_step(pre, resps[0]).0, resps.drop_first())
    }
}

/// No transition changes the policy a flow obeys.
pub proof fn lemma_run_steps_policy(pre: FlowModel, resps: Seq<ResponseModel>)
    ensures
        run_steps(pre, resps).policy == pre.policy,
    decreases resps.len(),
{
    if resps.len() > 0 {
        lemma_run_steps_policy(spec_step(pre, resps[0]).0, resps.drop_first());
    }
}

/// Running a chain is one transition after running all but the last.
pub proof fn lemma_run_steps_snoc(pre: FlowModel, resps: Seq<ResponseModel>)
    requires
        resps.len() > 0,
    ensures
        run_steps(pre, resps) == spec_step(
            run_steps(pre, resps.take(resps.len() - 1)),
            resps.last(),
        ).0,
    decreases resps.len(),
{
    if resps.len() == 1 {
        assert(resps.take(0) =~= Seq::<ResponseModel>::empty());
    } else {
        let next = spec_step(pre, resps[0]).0;
        let rest = resps.drop_first();
        lemma_run_steps_snoc(next, rest);
        assert(rest.take(rest.len() - 1) =~= resps.take(resps.len() - 1).drop_first());
        assert(resps.take(resps.len() - 1)[0] == resps[0]);
        assert(rest.last() == resps.last());
    }
}

/// Law (chain form): under `Limit(n)`, however long a chain of responses
/// the engine answers with `Resend`, it follows one hop per response, the
/// history records one URL per hop, and no chain of more than `n` hops is
/// ever followed.
pub proof fn lemma_chain_hops_bounded(start: FlowModel, resps: Seq<ResponseModel>, n: usize)
    requires
        start.policy == RedirectPolicy::Limit(n),
        forall|k: int|
            0 <= k < resps.len() ==> #[trigger] spec_step(
                run_steps(start, resps.take(k)),
                resps[k],
            ).1 == Step::Resend,
    ensures
        run_steps(start, resps).history.len() == start.history.len() + resps.len(),
        resps.len() > 0 ==> run_steps(start, resps).history.len() <= n,
    decreases resps.len(),
{
    if resps.len() > 0 {
        let m = resps.len() - 1;
        let front = resps.take(m);
        assert forall|k: int|
            0 <= k < front.len() implies #[trigger] spec_step(
            run_steps(start, front.take(k)),
            front[k],
        ).1 == Step::Resend by {
            assert(front.take(k) =~= resps.take(k));
            assert(spec_step(run_steps(start, resps.take(k)), resps[k]).1 == Step::Resend);
        }
        lemma_chain_hops_bounded(start, front, n);
        lemma_run_steps_snoc(start, resps);
        lemma_run_steps_policy(start, front);
        assert(spec_step(run_steps(start, resps.take(m)), resps[m]).1 == Step::Resend);
        assert(front =~= resps.take(m));
        lemma_limit_bounds_flow(run_steps(start, front), resps[m], n);
    }
}

/// Law: under `Limit(n)` a candidate URL that already appears among the
/// visited URLs ends the call with a loop error, even while the count
/// limit would still allow the hop.
pub proof fn lemma_loop_detected_flow(pre: FlowModel, resp: ResponseModel, n: usize)
    requires
        pre.policy == RedirectPolicy::Limit(n),
        is_redirect_status(resp.status),
        candidate_of(pre, resp) is Some,
        pre.history.push(pre.url).contains(candidate_of(pre, resp)->Some_0),
    ensures
        spec_step(pre, resp).1 == Step::LoopDetected,
{
}

/// Law: when Referer support is on and the hop moves from an `https` URL
/// to an `http` one, the request that goes out on the followed hop carries
/// no Referer header at all.
pub proof fn lemma_referer_downgrade(pre: FlowModel, resp: ResponseModel)
    requires
        pre.send_referer,
        candidate_of(pre, resp) is Some,
        referer_denied(candidate_of(pre, resp)->Some_0, pre.url),
        spec_step(pre, resp).1 == Step::Resend,
    ensures
        !has_name(spec_step(pre, resp).0.headers, "referer"@),
{
    let cand = candidate_of(pre, resp)->Some_0;
    let hs = headers_after_referer(pre, cand);
    let hist = pre.history.push(pre.url);
    crate::headers::lemma_remove_name_absent(pre.headers, "referer"@, "referer"@);
    if !crate::urls::same_origin(cand, hist.last()) {
        let s1 = remove_name(hs, "authorization"@);
        let s2 = remove_name(s1, "cookie"@);
        let s3 = remove_name(s2, "cookie2"@);
        crate::redirect::lemma_remove_preserves_absence(hs, "authorization"@, "referer"@);
        crate::redirect::lemma_remove_preserves_absence(s1, "cookie"@, "referer"@);
        crate::redirect::lemma_remove_preserves_absence(s2, "cookie2"@, "referer"@);
        crate::redirect::lemma_remove_preserves_absence(s3, "proxy-authorization"@, "referer"@);
    }
}

} // verus!
