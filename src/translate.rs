use vstd::prelude::*;
use vstd::string::*;
use crate::request::IncomingRequest;

verus! {

/// The non-empty `/`-separated segments of a path, in order.
pub open spec fn segments(s: Seq<char>) -> Seq<Seq<char>>
    decreases s.len(),
{
    if s.len() == 0 {
        Seq::empty()
    } else {
        let prev = segments(s.drop_last());
        let c = s.last();
        if c == '/' {
            prev
        } else if s.len() >= 2 && s[s.len() - 2] != '/' {
            prev.drop_last().push(prev.last().push(c))
        } else {
            prev.push(seq![c])
        }
    }
}

/// Each segment preceded by a single `/`, all concatenated.
pub open spec fn slash_join(ss: Seq<Seq<char>>) -> Seq<char>
    decreases ss.len(),
{
    if ss.len() == 0 {
        Seq::empty()
    } else {
        slash_join(ss.drop_last()) + seq!['/'] + ss.last()
    }
}

/// The text that spans of a path stand for.
pub open spec fn spans_text(s: Seq<char>, spans: Seq<(usize, usize)>) -> Seq<Seq<char>> {
    spans.map_values(|p: (usize, usize)| s.subrange(p.0 as int, p.1 as int))
}

pub open spec fn spans_within(spans: Seq<(usize, usize)>, n: int) -> bool {
    forall|k: int| 0 <= k < spans.len() ==> spans[k].0 <= spans[k].1 && spans[k].1 <= n
}

pub proof fn lemma_segments_nonempty(s: Seq<char>)
    requires
        s.len() > 0,
        s.last() != '/',
    ensures
        segments(s).len() > 0,
    decreases s.len(),
{
    if s.len() >= 2 && s[s.len() - 2] != '/' {
        lemma_segments_nonempty(s.drop_last());
    }
}

/// Finds where each non-empty segment of `path` starts and ends, counted in characters.
fn segment_spans(path: &str) -> (r: Vec<(usize, usize)>)
    ensures
        spans_within(r@, path@.len() as int),
        spans_text(path@, r@) == segments(path@),
{
    let n = path.unicode_len();
    let mut spans: Vec<(usize, usize)> = Vec::new();
    let mut i: usize = 0;
    let mut after_slash = true;
    while i < n
        invariant
            n == path@.len(),
            i <= n,
            spans_within(spans@, i as int),
            spans_text(path@, spans@) == segments(path@.take(i as int)),
            after_slash == (i == 0 || path@[i - 1] == '/'),
            !after_slash ==> spans@.len() > 0 && spans@.last().1 == i,
        decreases n - i,
    {
        let c = path.get_char(i);
        let ghost s = path@.take(i + 1);
        let ghost prev = segments(path@.take(i as int));
        assert(s.drop_last() =~= path@.take(i as int));
        assert(s.last() == c);
        if c == '/' {
            after_slash = true;
        } else if !after_slash {
            let k = spans.len() - 1;
            let start = spans[k].0;
            spans.set(k, (start, i + 1));
            assert(s[s.len() - 2] == path@[i - 1]);
            assert(path@.subrange(start as int, i + 1) =~= path@.subrange(start as int, i as int).push(c));
            assert(spans_text(path@, spans@) =~= prev.drop_last().push(prev.last().push(c)));
        } else {
            spans.push((i, i + 1));
            assert(path@.subrange(i as int, i + 1) =~= seq![c]);
            assert(spans_text(path@, spans@) =~= prev.push(seq![c]));
            after_slash = false;
        }
        i = i + 1;
    }
    assert(path@.take(n as int) =~= path@);
    spans
}

} // verus!

verus! {

/// The text of an optional string.
pub open spec fn text_of(o: Option<String>) -> Option<Seq<char>> {
    match o {
        Some(s) => Some(s@),
        None => None,
    }
}

/// The scheme given to a target when the incoming request names none.
pub open spec fn default_scheme() -> Seq<char> {
    seq!['h', 't', 't', 'p', 's']
}

pub open spec fn scheme_of(scheme: Option<Seq<char>>) -> Seq<char> {
    match scheme {
        Some(s) => s,
        None => default_scheme(),
    }
}

/// The authority of the target: the first segment of the path.
pub open spec fn target_authority(path: Seq<char>) -> Seq<char> {
    segments(path)[0]
}

/// The path of the target: the segments after the first, each after a `/`; `/` if there are none.
pub open spec fn target_path(path: Seq<char>) -> Seq<char> {
    let rest = segments(path).drop_first();
    if rest.len() == 0 {
        seq!['/']
    } else {
        slash_join(rest)
    }
}

/// The target's path followed by the query, if any, after a `?`.
pub open spec fn target_path_and_query(path: Seq<char>, query: Option<Seq<char>>) -> Seq<char> {
    match query {
        Some(q) => target_path(path) + seq!['?'] + q,
        None => target_path(path),
    }
}

/// Whether `http`'s URI builder accepts a URI made of these three parts.
pub uninterp spec fn uri_parts_accepted(
    scheme: Seq<char>,
    authority: Seq<char>,
    path_and_query: Seq<char>,
) -> bool;

/// Relies on `http::uri::Builder::build` (after `scheme`, `authority` and
/// `path_and_query`): whether it returns `Ok` depends on the three parts alone.
#[verifier::external_body]
fn uri_parts_build(scheme: &str, authority: &str, path_and_query: &str) -> (r: bool)
    ensures
        r == uri_parts_accepted(scheme@, authority@, path_and_query@),
{
    http::Uri::builder().scheme(scheme).authority(authority).path_and_query(path_and_query).build().is_ok()
}

/// The outbound URI that an incoming request designates.
#[derive(Clone, Debug)]
pub struct TargetUri {
    pub scheme: String,
    pub authority: String,
    pub path_and_query: String,
}

impl TargetUri {
    /// The URI written out in full.
    pub open spec fn text(&self) -> Seq<char> {
        self.scheme@ + seq![':', '/', '/'] + self.authority@ + self.path_and_query@
    }

    /// The URI written out in full: `<scheme>://<authority><path and query>`.
    pub fn to_uri_string(&self) -> (r: String)
        ensures
            r@ == self.text(),
    {
        let mut out = self.scheme.clone();
        proof {
            reveal_strlit("://");
        }
        out.append("://");
        out.append(self.authority.as_str());
        out.append(self.path_and_query.as_str());
        out
    }
}

/// The error of a path whose target cannot form a well-formed URI.
#[derive(Clone, Copy, Debug, PartialEq, Eq, Structural)]
pub enum MalformedTarget {
    MalformedTarget,
}

/// `/` before each span's text, from span `from` on, all concatenated.
fn slash_joined(path: &str, spans: &Vec<(usize, usize)>, from: usize) -> (r: String)
    requires
        from <= spans.len(),
        spans_within(spans@, path@.len() as int),
    ensures
        r@ == slash_join(spans_text(path@, spans@).subrange(from as int, spans@.len() as int)),
{
    let ghost text = spans_text(path@, spans@);
    let mut out = String::new();
    let mut j: usize = from;
    assert(text.subrange(from as int, from as int) =~= Seq::<Seq<char>>::empty());
    while j < spans.len()
        invariant
            from <= j <= spans.len(),
            spans_within(spans@, path@.len() as int),
            text == spans_text(path@, spans@),
            out@ == slash_join(text.subrange(from as int, j as int)),
        decreases spans.len() - j,
    {
        let (a, b) = spans[j];
        proof {
            reveal_strlit("/");
        }
        out.append("/");
        out.append(path.substring_char(a, b));
        assert(text.subrange(from as int, j + 1).drop_last() =~= text.subrange(from as int, j as int));
        j = j + 1;
    }
    out
}

} // verus!

verus! {

/// Translates an incoming request into the target it designates.
///
/// `None` when the path has no non-empty segment (the home route). Otherwise the
/// first segment is the authority, the others form the path, the query follows
/// after `?`, and the scheme is the request's own or `https`; `Err` when these
/// parts do not form a well-formed URI.
pub fn find_external_uri(req: &IncomingRequest) -> (r: Option<Result<TargetUri, MalformedTarget>>)
    ensures
        r is None <==> segments(req.path@).len() == 0,
        r is Some ==> (r->0 is Ok <==> uri_parts_accepted(
            scheme_of(text_of(req.scheme)),
            target_authority(req.path@),
            target_path_and_query(req.path@, text_of(req.query)),
        )),
        r matches Some(Ok(t)) ==> t.scheme@ == scheme_of(text_of(req.scheme)) && t.authority@
            == target_authority(req.path@) && t.path_and_query@ == target_path_and_query(
            req.path@,
            text_of(req.query),
        ),
{
    let path = req.path.as_str();
    let spans = segment_spans(path);
    if spans.len() == 0 {
        return None;
    }
    let ghost segs = segments(path@);
    let (a, b) = spans[0];
    let authority = String::from_str(path.substring_char(a, b));
    let mut path_and_query = if spans.len() == 1 {
        proof {
            reveal_strlit("/");
        }
        String::from_str("/")
    } else {
        let joined = slash_joined(path, &spans, 1);
        assert(segs.drop_first() =~= spans_text(path@, spans@).subrange(1, spans@.len() as int));
        joined
    };
    assert(segs.drop_first().len() == 0 <==> spans.len() == 1);
    match &req.query {
        Some(q) => {
            proof {
                reveal_strlit("?");
            }
            path_and_query.append("?");
            path_and_query.append(q.as_str());
        },
        None => {},
    }
    let scheme = match &req.scheme {
        Some(s) => s.clone(),
        None => {
            proof {
                reveal_strlit("https");
            }
            String::from_str("https")
        },
    };
    assert(scheme@ == scheme_of(text_of(req.scheme)));
    assert(authority@ == target_authority(path@));
    assert(path_and_query@ == target_path_and_query(path@, text_of(req.query)));
    if uri_parts_build(scheme.as_str(), authority.as_str(), path_and_query.as_str()) {
        Some(Ok(TargetUri { scheme, authority, path_and_query }))
    } else {
        Some(Err(MalformedTarget::MalformedTarget))
    }
}

} // verus!

verus! {

/// A run of characters with no `/` at all.
pub open spec fn has_no_slash(s: Seq<char>) -> bool {
    forall|i: int| 0 <= i < s.len() ==> s[i] != '/'
}

/// Non-empty segments joined by single slashes: no leading, trailing or doubled `/`.
pub open spec fn is_slash_separated(t: Seq<char>) -> bool {
    &&& t.len() > 0
    &&& t[0] != '/'
    &&& t.last() != '/'
    &&& forall|i: int| 0 <= i < t.len() - 1 && #[trigger] t[i] == '/' ==> t[i + 1] != '/'
}

proof fn lemma_segments_of_run(host: Seq<char>)
    requires
        host.len() > 0,
        has_no_slash(host),
    ensures
        segments(host) == seq![host],
    decreases host.len(),
{
    let h = host.drop_last();
    if h.len() == 0 {
        assert(h =~= Seq::<char>::empty());
        assert(segments(h) =~= Seq::<Seq<char>>::empty());
        assert(host =~= seq![host.last()]);
    } else {
        assert(host[host.len() - 2] != '/');
        assert(has_no_slash(h));
        lemma_segments_of_run(h);
        assert(h.push(host.last()) =~= host);
        assert(seq![h].drop_last().push(h.push(host.last())) =~= seq![host]);
    }
}

proof fn lemma_segments_concat(a: Seq<char>, t: Seq<char>)
    requires
        a.len() == 0 || a.last() == '/',
        t.len() == 0 || t[0] != '/',
    ensures
        segments(a + t) == segments(a) + segments(t),
    decreases t.len(),
{
    if t.len() == 0 {
        assert(a + t =~= a);
        assert(segments(a) + segments(t) =~= segments(a));
    } else {
        let u = t.drop_last();
        let c = t.last();
        assert((a + t).drop_last() =~= a + u);
        lemma_segments_concat(a, u);
        let sa = segments(a);
        let su = segments(u);
        if c != '/' {
            if u.len() == 0 {
                assert(sa.push(seq![c]) =~= sa + seq![seq![c]]);
                assert(su =~= Seq::<Seq<char>>::empty());
                assert(segments(t) =~= seq![seq![c]]);
            } else if u.last() == '/' {
                assert((a + t)[(a + t).len() - 2] == u.last());
                assert((sa + su).push(seq![c]) =~= sa + su.push(seq![c]));
            } else {
                assert((a + t)[(a + t).len() - 2] == u.last());
                lemma_segments_nonempty(u);
                assert((sa + su).drop_last().push((sa + su).last().push(c)) =~= sa + su.drop_last().push(
                    su.last().push(c),
                ));
            }
        }
    }
}

proof fn lemma_slash_join_segments(t: Seq<char>)
    requires
        is_slash_separated(t),
    ensures
        slash_join(segments(t)) == seq!['/'] + t,
    decreases t.len(),
{
    let u = t.drop_last();
    let c = t.last();
    if u.len() == 0 {
        assert(t =~= seq![c]);
        assert(segments(t) =~= seq![seq![c]]);
        assert(seq![seq![c]].drop_last() =~= Seq::<Seq<char>>::empty());
        assert(slash_join(Seq::<Seq<char>>::empty()) =~= Seq::<char>::empty());
        assert(slash_join(seq![seq![c]]) =~= seq!['/'] + t);
    } else if u.last() == '/' {
        let w = u.drop_last();
        assert(t[t.len() - 2] == '/');
        assert(w.len() > 0);
        assert(w.last() == t[t.len() - 3]);
        assert(is_slash_separated(w));
        lemma_slash_join_segments(w);
        assert(u =~= w.push('/'));
        assert(u.drop_last() =~= w);
        let sw = segments(w);
        assert(segments(u) == sw);
        assert(segments(t) == sw.push(seq![c]));
        assert(sw.push(seq![c]).drop_last() =~= sw);
        assert(slash_join(sw.push(seq![c])) =~= seq!['/'] + t);
    } else {
        assert(is_slash_separated(u));
        lemma_slash_join_segments(u);
        lemma_segments_nonempty(u);
        let su = segments(u);
        let st = su.drop_last().push(su.last().push(c));
        assert(segments(t) == st);
        assert(st.drop_last() =~= su.drop_last());
        assert(slash_join(su) == slash_join(su.drop_last()) + seq!['/'] + su.last());
        assert(slash_join(st) == slash_join(su.drop_last()) + seq!['/'] + su.last().push(c));
        assert(slash_join(su.drop_last()) + seq!['/'] + su.last().push(c) =~= slash_join(su).push(c));
        assert(t =~= u.push(c));
        assert(slash_join(st) =~= seq!['/'] + t);
    }
}

/// For a path `/<host>/<rest>`, where the host is non-empty and holds no `/` and the
/// rest is empty or non-empty segments joined by single slashes, the target's
/// authority is the host and its path is `/<rest>` exactly (`/` for an empty rest).
pub proof fn law_target_keeps_host_and_rest(host: Seq<char>, rest: Seq<char>)
    requires
        host.len() > 0,
        has_no_slash(host),
        rest.len() == 0 || is_slash_separated(rest),
    ensures
        ({
            let p = seq!['/'] + host + seq!['/'] + rest;
            &&& segments(p).len() > 0
            &&& target_authority(p) == host
            &&& target_path(p) == seq!['/'] + rest
        }),
{
    let p = seq!['/'] + host + seq!['/'] + rest;
    let hs = host + seq!['/'];
    assert(p =~= seq!['/'] + (hs + rest));
    assert((hs + rest).len() == 0 || (hs + rest)[0] == host[0]);
    lemma_segments_concat(seq!['/'], hs + rest);
    assert(seq!['/'].drop_last() =~= Seq::<char>::empty());
    assert(segments(Seq::<char>::empty()) =~= Seq::<Seq<char>>::empty());
    assert(segments(seq!['/']) =~= Seq::<Seq<char>>::empty());
    lemma_segments_concat(hs, rest);
    assert(hs.drop_last() =~= host);
    lemma_segments_of_run(host);
    let sp = seq![host] + segments(rest);
    assert(segments(p) =~= sp);
    assert(sp.drop_first() =~= segments(rest));
    if rest.len() > 0 {
        lemma_slash_join_segments(rest);
    } else {
        assert(seq!['/'] + rest =~= seq!['/']);
    }
}

} // verus!
