use vstd::prelude::*;
use crate::redirect::{Fetched, Hop, HopView, RedirectState, next_count, next_hop};
use crate::request::{IncomingRequest, Method};
use crate::translate::{
    MalformedTarget,
    find_external_uri,
    scheme_of,
    segments,
    target_authority,
    target_path_and_query,
    text_of,
    uri_parts_accepted,
};

verus! {

/// The body of a reply that the proxy makes itself.
#[derive(Clone, Copy, Debug, PartialEq, Eq, Structural)]
pub enum Body {
    Empty,
    /// The page that describes the proxy.
    HomePage,
}

/// A reply that the proxy makes without relaying an origin's response.
#[derive(Clone, Copy, Debug, PartialEq, Eq, Structural)]
pub struct Reply {
    pub status: u16,
    /// Whether the reply carries the `Allow` header, see [`allowed_methods`].
    pub allow: bool,
    pub body: Body,
}

/// What the caller does next in an exchange.
#[derive(Clone, Debug)]
pub enum Action {
    /// Issue one outbound GET to this URI and report what came back to [`Exchange::on_fetched`].
    Fetch(String),
    /// Answer with the last fetched response, its body replaced by an empty one where `strip_body`.
    Relay { strip_body: bool },
    /// Answer with this reply.
    Reply(Reply),
    /// The target does not form a well-formed URI: no answer can be built.
    Malformed(MalformedTarget),
}

pub enum ActionView {
    Fetch(Seq<char>),
    Relay { strip_body: bool },
    Reply(Reply),
    Malformed,
}

impl View for Action {
    type V = ActionView;

    open spec fn view(&self) -> ActionView {
        match self {
            Action::Fetch(u) => ActionView::Fetch(u@),
            Action::Relay { strip_body } => ActionView::Relay { strip_body: *strip_body },
            Action::Reply(r) => ActionView::Reply(*r),
            Action::Malformed(_) => ActionView::Malformed,
        }
    }
}

/// The value of the `Allow` header: `GET, HEAD, OPTIONS`.
pub open spec fn allow_text() -> Seq<char> {
    seq!['G', 'E', 'T', ',', ' ', 'H', 'E', 'A', 'D', ',', ' ', 'O', 'P', 'T', 'I', 'O', 'N', 'S']
}

/// The methods that the proxy itself supports, as the `Allow` header lists them.
pub fn allowed_methods() -> (r: &'static str)
    ensures
        r@ == allow_text(),
{
    proof {
        reveal_strlit("GET, HEAD, OPTIONS");
    }
    "GET, HEAD, OPTIONS"
}

pub open spec fn reply(status: u16, allow: bool, body: Body) -> ActionView {
    ActionView::Reply(Reply { status, allow, body })
}

/// The full text of the target URI of a path.
pub open spec fn target_text(
    path: Seq<char>,
    scheme: Option<Seq<char>>,
    query: Option<Seq<char>>,
) -> Seq<char> {
    scheme_of(scheme) + seq![':', '/', '/'] + target_authority(path) + target_path_and_query(
        path,
        query,
    )
}

/// What a GET of this path does first.
pub open spec fn get_action(
    path: Seq<char>,
    scheme: Option<Seq<char>>,
    query: Option<Seq<char>>,
) -> ActionView {
    if segments(path).len() == 0 {
        reply(200, false, Body::HomePage)
    } else if !uri_parts_accepted(
        scheme_of(scheme),
        target_authority(path),
        target_path_and_query(path, query),
    ) {
        ActionView::Malformed
    } else {
        ActionView::Fetch(target_text(path, scheme, query))
    }
}

/// The same action with the body of the answer left out.
pub open spec fn stripped(a: ActionView) -> ActionView {
    match a {
        ActionView::Relay { .. } => ActionView::Relay { strip_body: true },
        ActionView::Reply(r) => ActionView::Reply(Reply { body: Body::Empty, ..r }),
        _ => a,
    }
}

/// What a request with this method and URI does first.
pub open spec fn start_action(
    method: Method,
    path: Seq<char>,
    scheme: Option<Seq<char>>,
    query: Option<Seq<char>>,
) -> ActionView {
    match method {
        Method::Get => get_action(path, scheme, query),
        Method::Head => stripped(get_action(path, scheme, query)),
        Method::Options => reply(204, true, Body::Empty),
        Method::Other => reply(405, true, Body::Empty),
    }
}

/// What follows a fetch, with `count` redirects followed out of at most `max`.
pub open spec fn fetched_action(strip_body: bool, count: nat, max: nat, f: Fetched) -> ActionView {
    match next_hop(count, max, f) {
        HopView::Fetch(u) => ActionView::Fetch(u),
        HopView::Relay => ActionView::Relay { strip_body },
        HopView::Fail(e) => reply(e.spec_status(), false, Body::Empty),
    }
}

} // verus!

verus! {

/// The first action of a GET: the home page where the path names no target,
/// else a fetch of the target (or `Malformed` where it forms no URI).
pub fn get(req: &IncomingRequest) -> (r: Action)
    ensures
        r@ == get_action(req.path@, text_of(req.scheme), text_of(req.query)),
{
    match find_external_uri(req) {
        None => Action::Reply(Reply { status: 200, allow: false, body: Body::HomePage }),
        Some(Err(e)) => Action::Malformed(e),
        Some(Ok(t)) => Action::Fetch(t.to_uri_string()),
    }
}

fn strip(a: Action) -> (r: Action)
    ensures
        r@ == stripped(a@),
{
    match a {
        Action::Relay { .. } => Action::Relay { strip_body: true },
        Action::Reply(rep) => Action::Reply(Reply { body: Body::Empty, ..rep }),
        _ => a,
    }
}

/// The state of one exchange while it fetches.
#[derive(Clone, Copy, Debug)]
pub struct Exchange {
    /// Whether the answer goes out without its body (a HEAD request).
    pub strip_body: bool,
    pub redirects: RedirectState,
}

impl Exchange {
    pub open spec fn wf(&self) -> bool {
        self.redirects.wf()
    }

    /// Decides what follows a fetch of this exchange.
    pub fn on_fetched(&mut self, fetched: &Fetched) -> (r: Action)
        requires
            old(self).wf(),
        ensures
            final(self).wf(),
            final(self).strip_body == old(self).strip_body,
            final(self).redirects.max_redirects == old(self).redirects.max_redirects,
            final(self).redirects.count == next_count(
                old(self).redirects.count as nat,
                old(self).redirects.max_redirects as nat,
                *fetched,
            ),
            r@ == fetched_action(
                old(self).strip_body,
                old(self).redirects.count as nat,
                old(self).redirects.max_redirects as nat,
                *fetched,
            ),
    {
        match self.redirects.on_fetched(fetched) {
            Hop::Fetch(u) => Action::Fetch(u),
            Hop::Relay => Action::Relay { strip_body: self.strip_body },
            Hop::Fail(e) => Action::Reply(Reply { status: e.status(), allow: false, body: Body::Empty }),
        }
    }
}

/// Starts an exchange: decides by the request's method what happens first.
///
/// GET translates the path and fetches the target (or serves the home page);
/// HEAD does the same and leaves the body out; OPTIONS answers 204 and any other
/// method 405, both with the `Allow` header and without contacting any origin.
/// At most `max_redirects` redirects are followed afterwards.
pub fn respond(req: &IncomingRequest, max_redirects: usize) -> (r: (Exchange, Action))
    ensures
        r.0.wf(),
        r.0.strip_body == (req.method == Method::Head),
        r.0.redirects.count == 0,
        r.0.redirects.max_redirects == max_redirects,
        r.1@ == start_action(req.method, req.path@, text_of(req.scheme), text_of(req.query)),
{
    let ex = Exchange {
        strip_body: req.method == Method::Head,
        redirects: RedirectState::new(max_redirects),
    };
    let a = match req.method {
        Method::Get => get(req),
        Method::Head => strip(get(req)),
        Method::Options => Action::Reply(Reply { status: 204, allow: true, body: Body::Empty }),
        Method::Other => Action::Reply(Reply { status: 405, allow: true, body: Body::Empty }),
    };
    (ex, a)
}

} // verus!

verus! {

/// The number of redirects that the proxy follows for one request.
pub const MAX_REDIRECT_COUNT: usize = 5;

/// A GET whose path has no non-empty segment is answered with the home page,
/// status 200, and no fetch.
pub proof fn law_home_page_without_fetch(
    path: Seq<char>,
    scheme: Option<Seq<char>>,
    query: Option<Seq<char>>,
)
    requires
        segments(path).len() == 0,
    ensures
        start_action(Method::Get, path, scheme, query) == reply(200, false, Body::HomePage),
{
}

/// OPTIONS, whatever the path, is answered with status 204 and the `Allow` header, and no fetch.
pub proof fn law_options_without_fetch(
    path: Seq<char>,
    scheme: Option<Seq<char>>,
    query: Option<Seq<char>>,
)
    ensures
        start_action(Method::Options, path, scheme, query) == reply(204, true, Body::Empty),
{
}

/// Methods other than GET, HEAD and OPTIONS are answered with status 405 and the
/// `Allow` header, and no fetch.
pub proof fn law_other_methods_rejected(
    path: Seq<char>,
    scheme: Option<Seq<char>>,
    query: Option<Seq<char>>,
)
    ensures
        start_action(Method::Other, path, scheme, query) == reply(405, true, Body::Empty),
{
}

/// HEAD does what GET does, at the start and after every fetch, with the body
/// of the answer left out: same fetches, same status, same headers.
pub proof fn law_head_is_get_without_body(
    path: Seq<char>,
    scheme: Option<Seq<char>>,
    query: Option<Seq<char>>,
    count: nat,
    max: nat,
    f: Fetched,
)
    ensures
        start_action(Method::Head, path, scheme, query) == stripped(
            start_action(Method::Get, path, scheme, query),
        ),
        fetched_action(true, count, max, f) == stripped(fetched_action(false, count, max, f)),
{
}

} // verus!
