use vstd::prelude::*;

verus! {

/// The `Location` header of a fetched response, as read off the wire.
#[derive(Clone, Debug)]
pub enum Location {
    Absent,
    /// The header's value, as its bytes.
    Value(Vec<u8>),
}

/// What one outbound fetch gave.
#[derive(Clone, Debug)]
pub enum Fetched {
    /// The origin could not be reached.
    TransportFailure,
    Response { status: u16, location: Location },
}

/// Why a redirect chain ended without a response of the origin.
#[derive(Clone, Copy, Debug, PartialEq, Eq, Structural)]
pub enum Failure {
    TransportFailure,
    TooManyRedirects,
    MissingRedirectLocation,
    InvalidRedirectLocation,
}

impl Failure {
    pub open spec fn spec_status(self) -> u16 {
        match self {
            Failure::TransportFailure => 404,
            Failure::TooManyRedirects => 504,
            Failure::MissingRedirectLocation => 502,
            Failure::InvalidRedirectLocation => 502,
        }
    }

    /// The status code that reports this failure to the client.
    pub fn status(&self) -> (r: u16)
        ensures
            r == self.spec_status(),
    {
        match self {
            Failure::TransportFailure => 404,
            Failure::TooManyRedirects => 504,
            Failure::MissingRedirectLocation => 502,
            Failure::InvalidRedirectLocation => 502,
        }
    }
}

/// What to do after a fetch.
#[derive(Clone, Debug)]
pub enum Hop {
    /// Follow the redirect: fetch this URI next.
    Fetch(String),
    /// The fetched response is final: hand it back unchanged.
    Relay,
    /// The chain ends in a failure.
    Fail(Failure),
}

pub enum HopView {
    Fetch(Seq<char>),
    Relay,
    Fail(Failure),
}

impl View for Hop {
    type V = HopView;

    open spec fn view(&self) -> HopView {
        match self {
            Hop::Fetch(u) => HopView::Fetch(u@),
            Hop::Relay => HopView::Relay,
            Hop::Fail(f) => HopView::Fail(*f),
        }
    }
}

/// Statuses of the redirection class.
pub open spec fn is_redirection(status: u16) -> bool {
    300 <= status <= 399
}

/// A byte that may stand in the text of a header value: visible ASCII or a tab.
pub open spec fn is_visible_ascii(b: u8) -> bool {
    (32 <= b && b < 127) || b == 9
}

/// A header value that reads as text.
pub open spec fn is_header_text(v: Seq<u8>) -> bool {
    forall|i: int| 0 <= i < v.len() ==> is_visible_ascii(#[trigger] v[i])
}

/// The text of ASCII bytes: one character per byte.
pub open spec fn ascii_text(v: Seq<u8>) -> Seq<char> {
    v.map_values(|b: u8| b as char)
}

/// Relies on `String::from_utf8`: ASCII bytes are valid UTF-8, each byte one character.
#[verifier::external_body]
fn ascii_string(v: &[u8]) -> (r: String)
    requires
        forall|i: int| 0 <= i < v@.len() ==> v@[i] < 128,
    ensures
        r@ == ascii_text(v@),
{
    match String::from_utf8(v.to_vec()) {
        Ok(s) => s,
        Err(_) => String::new(),
    }
}

/// Reads a header value as text, where every byte of it is visible ASCII (or a tab).
fn header_text(v: &Vec<u8>) -> (r: Option<String>)
    ensures
        r is Some <==> is_header_text(v@),
        r matches Some(s) ==> s@ == ascii_text(v@),
{
    let mut i: usize = 0;
    while i < v.len()
        invariant
            i <= v.len(),
            forall|k: int| 0 <= k < i ==> is_visible_ascii(#[trigger] v@[k]),
        decreases v.len() - i,
    {
        let b = v[i];
        if !((32 <= b && b < 127) || b == 9) {
            return None;
        }
        i = i + 1;
    }
    Some(ascii_string(v.as_slice()))
}

/// Whether `http` parses this text as a URI.
pub uninterp spec fn uri_text_accepted(s: Seq<char>) -> bool;

/// Relies on `http::Uri`'s `TryFrom<&str>`: whether it returns `Ok` depends on the text alone.
#[verifier::external_body]
fn uri_text_parses(s: &str) -> (r: bool)
    ensures
        r == uri_text_accepted(s@),
{
    http::Uri::try_from(s).is_ok()
}

/// The decision after a fetch, when `count` redirects have been followed out of at most `max`.
pub open spec fn next_hop(count: nat, max: nat, f: Fetched) -> HopView {
    match f {
        Fetched::TransportFailure => HopView::Fail(Failure::TransportFailure),
        Fetched::Response { status, location } => {
            if !is_redirection(status) {
                HopView::Relay
            } else if count >= max {
                HopView::Fail(Failure::TooManyRedirects)
            } else {
                match location {
                    Location::Absent => HopView::Fail(Failure::MissingRedirectLocation),
                    Location::Value(v) => if is_header_text(v@) && uri_text_accepted(
                        ascii_text(v@),
                    ) {
                        HopView::Fetch(ascii_text(v@))
                    } else {
                        HopView::Fail(Failure::InvalidRedirectLocation)
                    },
                }
            }
        },
    }
}

/// The redirect count after that decision: one more where a redirect is followed.
pub open spec fn next_count(count: nat, max: nat, f: Fetched) -> nat {
    if next_hop(count, max, f) is Fetch {
        count + 1
    } else {
        count
    }
}

/// The redirect state of one exchange: how many redirects were followed, out of how many allowed.
#[derive(Clone, Copy, Debug)]
pub struct RedirectState {
    pub count: usize,
    pub max_redirects: usize,
}

impl RedirectState {
    pub open spec fn wf(&self) -> bool {
        self.count <= self.max_redirects
    }

    /// The state before the first fetch.
    pub fn new(max_redirects: usize) -> (r: RedirectState)
        ensures
            r.count == 0,
            r.max_redirects == max_redirects,
            r.wf(),
    {
        RedirectState { count: 0, max_redirects }
    }

    /// Decides what follows a fetch, and counts a followed redirect.
    pub fn on_fetched(&mut self, fetched: &Fetched) -> (r: Hop)
        requires
            old(self).wf(),
        ensures
            final(self).wf(),
            final(self).max_redirects == old(self).max_redirects,
            r@ == next_hop(old(self).count as nat, old(self).max_redirects as nat, *fetched),
            final(self).count == next_count(
                old(self).count as nat,
                old(self).max_redirects as nat,
                *fetched,
            ),
    {
        match fetched {
            Fetched::TransportFailure => Hop::Fail(Failure::TransportFailure),
            Fetched::Response { status, location } => {
                if !(300 <= *status && *status <= 399) {
                    Hop::Relay
                } else if self.count >= self.max_redirects {
                    Hop::Fail(Failure::TooManyRedirects)
                } else {
                    match location {
                        Location::Absent => Hop::Fail(Failure::MissingRedirectLocation),
                        Location::Value(v) => match header_text(v) {
                            Some(t) => {
                                if uri_text_parses(t.as_str()) {
                                    self.count = self.count + 1;
                                    Hop::Fetch(t)
                                } else {
                                    Hop::Fail(Failure::InvalidRedirectLocation)
                                }
                            },
                            None => Hop::Fail(Failure::InvalidRedirectLocation),
                        },
                    }
                }
            },
        }
    }
}

} // verus!

verus! {

/// A redirect response whose location `http` accepts as a URI.
pub open spec fn is_followable(f: Fetched) -> bool {
    match f {
        Fetched::Response { status, location: Location::Value(v) } => is_redirection(status)
            && is_header_text(v@) && uri_text_accepted(ascii_text(v@)),
        _ => false,
    }
}

/// Every fetch of `events`, in turn, is answered by following a redirect, starting from `count`.
pub open spec fn follows_all(count: nat, max: nat, events: Seq<Fetched>) -> bool
    decreases events.len(),
{
    events.len() == 0 || (next_hop(count, max, events[0]) is Fetch && follows_all(
        count + 1,
        max,
        events.drop_first(),
    ))
}

proof fn lemma_follows_followable(count: nat, max: nat, events: Seq<Fetched>)
    requires
        count + events.len() <= max,
        forall|i: int| 0 <= i < events.len() ==> is_followable(#[trigger] events[i]),
    ensures
        follows_all(count, max, events),
    decreases events.len(),
{
    if events.len() > 0 {
        assert(is_followable(events[0]));
        lemma_follows_followable(count + 1, max, events.drop_first());
    }
}

/// At most `max` redirects are ever followed in a row: a chain of followed
/// redirects from `count` never takes the count past `max`.
pub proof fn law_redirects_bounded(count: nat, max: nat, events: Seq<Fetched>)
    requires
        count <= max,
        follows_all(count, max, events),
    ensures
        count + events.len() <= max,
    decreases events.len(),
{
    if events.len() > 0 {
        law_redirects_bounded(count + 1, max, events.drop_first());
    }
}

/// After `max` followed redirects, one more redirect ends the chain with too many
/// redirects (status 504): `max + 1` fetches in all.
pub proof fn law_redirect_limit_reached(max: nat, chain: Seq<Fetched>, last: Fetched)
    requires
        chain.len() == max,
        forall|i: int| 0 <= i < chain.len() ==> is_followable(#[trigger] chain[i]),
        last matches Fetched::Response { status, .. } && is_redirection(status),
    ensures
        follows_all(0, max, chain),
        next_hop(max, max, last) == HopView::Fail(Failure::TooManyRedirects),
        Failure::TooManyRedirects.spec_status() == 504,
{
    lemma_follows_followable(0, max, chain);
}

/// Fewer than `max` followed redirects and then a response outside the redirection
/// class: that response is handed back unchanged.
pub proof fn law_redirect_chain_within_limit(max: nat, chain: Seq<Fetched>, last: Fetched)
    requires
        chain.len() < max,
        forall|i: int| 0 <= i < chain.len() ==> is_followable(#[trigger] chain[i]),
        last matches Fetched::Response { status, .. } && !is_redirection(status),
    ensures
        follows_all(0, max, chain),
        next_hop(chain.len(), max, last) == HopView::Relay,
{
    lemma_follows_followable(0, max, chain);
}

/// A redirect without a `Location` header ends the chain with status 502, at every
/// count below the limit.
pub proof fn law_missing_location(count: nat, max: nat, status: u16)
    requires
        count < max,
        is_redirection(status),
    ensures
        next_hop(count, max, Fetched::Response { status, location: Location::Absent })
            == HopView::Fail(Failure::MissingRedirectLocation),
        Failure::MissingRedirectLocation.spec_status() == 502,
{
}

/// A transport failure ends the chain with status 404, at any count.
pub proof fn law_transport_failure(count: nat, max: nat)
    ensures
        next_hop(count, max, Fetched::TransportFailure) == HopView::Fail(Failure::TransportFailure),
        Failure::TransportFailure.spec_status() == 404,
{
}

} // verus!
