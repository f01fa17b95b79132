//! Link extraction from a message body: finds URL-shaped spans, keeps those
//! that parse to candidate links (https, allow-listed host, post path), and
//! deduplicates them by their normalized parts, preserving first-occurrence
//! order.

use vstd::prelude::*;
use crate::weblink;
use crate::weblink::{UrlParts, UrlView};

verus! {

/// The URL-shaped spans of a text, in order of occurrence. Determined by
/// the link finder's scanner; opaque to the library.
pub uninterp spec fn link_spans_of(s: Seq<char>) -> Seq<Seq<char>>;

/// Relies on `linkify::LinkFinder::links`: scans the text and yields its
/// link-shaped spans in order; the result depends on the text alone.
#[verifier::external_body]
fn find_link_spans(s: &str) -> (r: Vec<String>)
    ensures
        r.deep_view() == link_spans_of(s@),
{
    linkify::LinkFinder::new().links(s).map(|l| l.as_str().to_string()).collect()
}

/// The candidate links among the given spans, in order: each span that is a
/// well-formed URL and passes the candidate filter, as its parts.
pub open spec fn candidates_of(spans: Seq<Seq<char>>) -> Seq<UrlView>
    decreases spans.len(),
{
    if spans.len() == 0 {
        Seq::empty()
    } else {
        let rest = candidates_of(spans.drop_last());
        let s = spans.last();
        if weblink::url_well_formed(s) && weblink::is_candidate(weblink::url_parts_of(s)) {
            rest.push(weblink::to_candidate(weblink::url_parts_of(s)))
        } else {
            rest
        }
    }
}

/// Order-preserving deduplication: keeps each value's first occurrence.
pub open spec fn dedup_first(s: Seq<UrlView>) -> Seq<UrlView>
    decreases s.len(),
{
    if s.len() == 0 {
        Seq::empty()
    } else {
        let rest = dedup_first(s.drop_last());
        if s.drop_last().contains(s.last()) {
            rest
        } else {
            rest.push(s.last())
        }
    }
}

/// The candidate links a message body yields, deduplicated by their
/// normalized parts, first occurrence first.
pub open spec fn extracted_links(body: Seq<char>) -> Seq<UrlView> {
    dedup_first(candidates_of(link_spans_of(body)))
}

/// A deduplicated sequence holds a value if and only if the original did.
pub proof fn lemma_dedup_same_members(s: Seq<UrlView>, v: UrlView)
    ensures
        dedup_first(s).contains(v) <==> s.contains(v),
    decreases s.len(),
{
    if s.len() > 0 {
        lemma_dedup_same_members(s.drop_last(), v);
        let rest = dedup_first(s.drop_last());
        if s.drop_last().contains(s.last()) {
            if s.contains(v) {
                let i = choose|i: int| 0 <= i < s.len() && s[i] == v;
                if i < s.len() - 1 {
                    assert(s.drop_last()[i] == v);
                } else {
                    assert(s.drop_last().contains(v));
                }
            }
            if rest.contains(v) {
                assert(s.drop_last().contains(v));
                let i = choose|i: int| 0 <= i < s.drop_last().len() && s.drop_last()[i] == v;
                assert(s[i] == v);
            }
        } else {
            if s.contains(v) {
                let i = choose|i: int| 0 <= i < s.len() && s[i] == v;
                if i < s.len() - 1 {
                    assert(s.drop_last()[i] == v);
                    assert(rest.contains(v));
                    let j = choose|j: int| 0 <= j < rest.len() && rest[j] == v;
                    assert(rest.push(s.last())[j] == v);
                } else {
                    assert(rest.push(s.last())[rest.len() as int] == v);
                }
            }
            if rest.push(s.last()).contains(v) {
                let i = choose|i: int| 0 <= i < rest.push(s.last()).len() && rest.push(s.last())[i]
                    == v;
                if i < rest.len() {
                    assert(rest[i] == v);
                    assert(s.drop_last().contains(v));
                    let j = choose|j: int| 0 <= j < s.drop_last().len() && s.drop_last()[j] == v;
                    assert(s[j] == v);
                } else {
                    assert(s[s.len() - 1] == v);
                }
            }
        }
    }
}

/// A deduplicated sequence holds no value twice.
pub proof fn lemma_dedup_no_repeats(s: Seq<UrlView>)
    ensures
        forall|i: int, j: int|
            0 <= i < j < dedup_first(s).len() ==> dedup_first(s)[i] != dedup_first(s)[j],
    decreases s.len(),
{
    if s.len() > 0 {
        lemma_dedup_no_repeats(s.drop_last());
        let rest = dedup_first(s.drop_last());
        if !s.drop_last().contains(s.last()) {
            assert forall|i: int, j: int|
                0 <= i < j < dedup_first(s).len() implies dedup_first(s)[i] != dedup_first(
                s,
            )[j] by {
                if j < rest.len() {
                    assert(rest[i] != rest[j]);
                } else {
                    assert(dedup_first(s)[j] == s.last());
                    assert(rest[i] == dedup_first(s)[i]);
                    lemma_dedup_same_members(s.drop_last(), rest[i]);
                    assert(s.drop_last().contains(rest[i]));
                }
            }
        }
    }
}

/// Every candidate passed the filter: its scheme is `https`, its host is
/// on the allow-list, and its path marks an individual post.
pub proof fn lemma_candidates_all_ok(spans: Seq<Seq<char>>)
    ensures
        forall|i: int|
            0 <= i < candidates_of(spans).len() ==> weblink::candidate_ok(
                #[trigger] candidates_of(spans)[i],
            ),
    decreases spans.len(),
{
    if spans.len() > 0 {
        lemma_candidates_all_ok(spans.drop_last());
        let rest = candidates_of(spans.drop_last());
        let s = spans.last();
        assert forall|i: int| 0 <= i < candidates_of(spans).len() implies weblink::candidate_ok(
            #[trigger] candidates_of(spans)[i],
        ) by {
            if i < rest.len() {
                assert(candidates_of(spans)[i] == rest[i]);
            } else {
                assert(weblink::is_candidate(weblink::url_parts_of(s)));
                assert(candidates_of(spans)[i] == weblink::to_candidate(weblink::url_parts_of(s)));
            }
        }
    }
}

/// Deduplication keeps only values of the original sequence.
pub proof fn lemma_dedup_subset(s: Seq<UrlView>)
    ensures
        forall|i: int| 0 <= i < dedup_first(s).len() ==> s.contains(#[trigger] dedup_first(s)[i]),
    decreases s.len(),
{
    if s.len() > 0 {
        lemma_dedup_subset(s.drop_last());
        assert forall|i: int| 0 <= i < dedup_first(s).len() implies s.contains(
            #[trigger] dedup_first(s)[i],
        ) by {
            let rest = dedup_first(s.drop_last());
            if i < rest.len() {
                assert(s.drop_last().contains(rest[i]));
                let j = choose|j: int| 0 <= j < s.drop_last().len() && s.drop_last()[j] == rest[i];
                assert(s[j] == dedup_first(s)[i]);
            } else {
                assert(s[s.len() - 1] == dedup_first(s)[i]);
            }
        }
    }
}

/// Extraction never yields a URL outside the candidate filter — in
/// particular never a host outside the allow-list — and never yields the
/// same normalized URL twice.
pub proof fn lemma_extracted_links_sound(body: Seq<char>)
    ensures
        forall|i: int|
            0 <= i < extracted_links(body).len() ==> weblink::candidate_ok(
                #[trigger] extracted_links(body)[i],
            ),
        forall|i: int, j: int|
            0 <= i < j < extracted_links(body).len() ==> extracted_links(body)[i]
                != extracted_links(body)[j],
{
    let spans = link_spans_of(body);
    let cands = candidates_of(spans);
    lemma_candidates_all_ok(spans);
    lemma_dedup_no_repeats(cands);
    lemma_dedup_subset(cands);
    assert forall|i: int| 0 <= i < extracted_links(body).len() implies weblink::candidate_ok(
        #[trigger] extracted_links(body)[i],
    ) by {
        assert(cands.contains(extracted_links(body)[i]));
        let j = choose|j: int| 0 <= j < cands.len() && cands[j] == extracted_links(body)[i];
        assert(weblink::candidate_ok(cands[j]));
    }
}

/// A candidate link is extracted exactly once, however often it occurs in
/// the body: extraction yields a value if and only if some span yields that
/// candidate, and (by `lemma_extracted_links_sound`) never yields it twice.
pub proof fn lemma_extracted_once(body: Seq<char>, v: UrlView)
    ensures
        extracted_links(body).contains(v) <==> candidates_of(link_spans_of(body)).contains(v),
{
    lemma_dedup_same_members(candidates_of(link_spans_of(body)), v);
}

/// Extracts the candidate links of a message body, in first-occurrence
/// order, each distinct normalized URL at most once.
pub fn extract_links(body: &str) -> (r: Vec<UrlParts>)
    ensures
        r.deep_view() == extracted_links(body@),
{
    let spans: Vec<String> = find_link_spans(body);
    let mut cands: Vec<UrlParts> = Vec::new();
    let ghost all_spans = spans.deep_view();
    let mut i: usize = 0;
    while i < spans.len()
        invariant
            i <= spans@.len(),
            all_spans == spans.deep_view(),
            all_spans == link_spans_of(body@),
            cands.deep_view() == candidates_of(all_spans.subrange(0, i as int)),
        decreases spans@.len() - i,
    {
        let ghost prefix = all_spans.subrange(0, i as int);
        let span: &String = &spans[i];
        proof {
            assert(all_spans.subrange(0, i + 1).drop_last() =~= prefix);
            assert(all_spans.subrange(0, i + 1).last() == all_spans[i as int]);
            assert(span@ == all_spans[i as int]);
        }
        let cand: Option<UrlParts> = weblink::candidate_from_text(span.as_str());
        match cand {
            Some(u) => {
                cands.push(u);
                proof {
                    assert(cands.deep_view() =~= candidates_of(all_spans.subrange(0, i + 1)));
                }
            },
            None => {
                proof {
                    assert(cands.deep_view() =~= candidates_of(all_spans.subrange(0, i + 1)));
                }
            },
        }
        i = i + 1;
    }
    proof {
        assert(all_spans.subrange(0, all_spans.len() as int) =~= all_spans);
    }
    let mut out: Vec<UrlParts> = Vec::new();
    let mut k: usize = 0;
    while k < cands.len()
        invariant
            k <= cands@.len(),
            cands.deep_view() == candidates_of(link_spans_of(body@)),
            out.deep_view() == dedup_first(cands.deep_view().subrange(0, k as int)),
        decreases cands@.len() - k,
    {
        let ghost all_cands = cands.deep_view();
        let ghost prefix = all_cands.subrange(0, k as int);
        let mut seen: bool = false;
        let mut j: usize = 0;
        while j < k
            invariant
                j <= k < cands@.len(),
                all_cands == cands.deep_view(),
                prefix == all_cands.subrange(0, k as int),
                seen <==> exists|t: int| 0 <= t < j && all_cands[t] == all_cands[k as int],
            decreases k - j,
        {
            let eq: bool = weblink::url_eq(&cands[j], &cands[k]);
            proof {
                assert(all_cands[j as int] == cands@[j as int].deep_view());
                assert(all_cands[k as int] == cands@[k as int].deep_view());
            }
            if eq {
                seen = true;
                assert(all_cands[j as int] == all_cands[k as int]);
            }
            j = j + 1;
        }
        proof {
            assert(all_cands.subrange(0, k + 1).drop_last() =~= prefix);
            assert(all_cands.subrange(0, k + 1).last() == all_cands[k as int]);
            if seen {
                let t = choose|t: int| 0 <= t < k && all_cands[t] == all_cands[k as int];
                assert(prefix[t] == all_cands[k as int]);
                assert(prefix.contains(all_cands[k as int]));
            } else {
                if prefix.contains(all_cands[k as int]) {
                    let kk = k as int;
                    let t = choose|t: int| 0 <= t < prefix.len() && prefix[t] == all_cands[kk];
                    assert(all_cands[t] == all_cands[kk]);
                }
                assert(!prefix.contains(all_cands[k as int]));
            }
        }
        if !seen {
            out.push(cands[k].clone());
            proof {
                assert(out.deep_view() =~= dedup_first(all_cands.subrange(0, k + 1)));
            }
        } else {
            proof {
                assert(out.deep_view() =~= dedup_first(all_cands.subrange(0, k + 1)));
            }
        }
        k = k + 1;
    }
    proof {
        assert(cands.deep_view().subrange(0, cands.deep_view().len() as int) =~= cands.deep_view());
    }
    out
}

} // verus!
