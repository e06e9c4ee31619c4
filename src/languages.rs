use vstd::prelude::*;

use crate::classify::{entries_view, languages_of};
use crate::client::{bearer_of, list_query, list_query_of, pairs_view, DirectoryRequest, LANGUAGE_SAMPLE};
use crate::model::{unfiltered_view, ApiError, FetchParams, Instance, InstanceView};
use crate::text::{
    lemma_text_less_total, lemma_text_less_transitive, lower_of, lowercase, text_less, text_lt,
    trim, trimmed,
};
use crate::token::{require_token, AppState};

verus! {

/// A language as it is collected: lowercased, then trimmed.
pub open spec fn normalized(l: Seq<char>) -> Seq<char> {
    trimmed(lower_of(l))
}

/// Whether one of the first `n` languages of `langs` has `s` as normalized form.
pub open spec fn normalized_among(langs: Seq<Seq<char>>, n: int, s: Seq<char>) -> bool {
    exists|k: int| 0 <= k < n && s == normalized(#[trigger] langs[k])
}

/// Whether an entry lists a language whose normalized form is `s`.
pub open spec fn lists_language(e: InstanceView, s: Seq<char>) -> bool {
    normalized_among(languages_of(e), languages_of(e).len() as int, s)
}

/// Whether one of the first `n` entries lists a language whose normalized form is `s`.
pub open spec fn observed_among(es: Seq<InstanceView>, n: int, s: Seq<char>) -> bool {
    exists|i: int| 0 <= i < n && lists_language(#[trigger] es[i], s)
}

/// Whether some entry lists a language whose normalized form is `s`.
pub open spec fn observed_in(es: Seq<InstanceView>, s: Seq<char>) -> bool {
    observed_among(es, es.len() as int, s)
}

proof fn lemma_normalized_among_step(langs: Seq<Seq<char>>, n: int, s: Seq<char>)
    requires
        0 <= n < langs.len(),
    ensures
        normalized_among(langs, n + 1, s) <==> (normalized_among(langs, n, s) || s == normalized(
            langs[n],
        )),
{
    if normalized_among(langs, n + 1, s) {
        let k = choose|k: int| 0 <= k < n + 1 && s == normalized(#[trigger] langs[k]);
        if k < n {
            assert(normalized_among(langs, n, s));
        }
    }
    if normalized_among(langs, n, s) {
        let k = choose|k: int| 0 <= k < n && s == normalized(#[trigger] langs[k]);
        assert(0 <= k < n + 1 && s == normalized(langs[k]));
    }
    if s == normalized(langs[n]) {
        assert(0 <= n < n + 1 && s == normalized(langs[n]));
    }
}

proof fn lemma_observed_among_step(es: Seq<InstanceView>, n: int, s: Seq<char>)
    requires
        0 <= n < es.len(),
    ensures
        observed_among(es, n + 1, s) <==> (observed_among(es, n, s) || lists_language(es[n], s)),
{
    if observed_among(es, n + 1, s) {
        let i = choose|i: int| 0 <= i < n + 1 && lists_language(#[trigger] es[i], s);
        if i < n {
            assert(observed_among(es, n, s));
        }
    }
    if observed_among(es, n, s) {
        let i = choose|i: int| 0 <= i < n && lists_language(#[trigger] es[i], s);
        assert(0 <= i < n + 1 && lists_language(es[i], s));
    }
}

/// Ascending without repetition, in `String`'s order.
pub open spec fn strictly_sorted(v: Seq<Seq<char>>) -> bool {
    forall|a: int, b: int| 0 <= a < b < v.len() ==> text_less(#[trigger] v[a], #[trigger] v[b])
}

/// Adds `x` to a sorted list of distinct strings, unless it is there already.
pub fn insert_sorted(v: &mut Vec<String>, x: String)
    requires
        strictly_sorted(old(v).deep_view()),
    ensures
        strictly_sorted(final(v).deep_view()),
        forall|s: Seq<char>|
            #![auto]
            final(v).deep_view().contains(s) <==> (old(v).deep_view().contains(s) || s == x@),
{
    let ghost before = v.deep_view();
    let mut i: usize = 0;
    loop
        invariant
            i <= v.len(),
            v.deep_view() == before,
            strictly_sorted(before),
            forall|k: int| 0 <= k < i ==> text_less(#[trigger] before[k], x@),
        ensures
            i <= v.len(),
            v.deep_view() == before,
            forall|k: int| 0 <= k < i ==> text_less(#[trigger] before[k], x@),
            i < v.len() ==> !text_less(before[i as int], x@),
        decreases v.len() - i,
    {
        if i == v.len() {
            break;
        }
        assert(before[i as int] == v[i as int]@);
        if !text_lt(v[i].as_str(), x.as_str()) {
            break;
        }
        i = i + 1;
    }
    if i < v.len() {
        assert(before[i as int] == v[i as int]@);
        if v[i] == x {
            assert(before.contains(x@));
            return;
        }
        proof {
            lemma_text_less_total(before[i as int], x@);
        }
    }
    v.insert(i, x);
    let ghost after = v.deep_view();
    assert(after =~= before.insert(i as int, x@));
    assert forall|a: int, b: int| 0 <= a < b < after.len() implies text_less(
        #[trigger] after[a],
        #[trigger] after[b],
    ) by {
        if a < i && b == i {
        } else if a == i && b > i + 1 {
            lemma_text_less_transitive(x@, before[i as int], before[b - 1]);
        }
    }
    assert forall|s: Seq<char>| #![auto] after.contains(s) <==> (before.contains(s) || s == x@) by {
        if after.contains(s) {
            let k = choose|k: int| 0 <= k < after.len() && after[k] == s;
            if k < i {
                assert(before[k] == s);
            } else if k > i {
                assert(before[k - 1] == s);
            }
        }
        if before.contains(s) {
            let k = choose|k: int| 0 <= k < before.len() && before[k] == s;
            if k < i {
                assert(after[k] == s);
            } else {
                assert(after[k + 1] == s);
            }
        }
        if s == x@ {
            assert(after[i as int] == s);
        }
    }
}

/// Adds the normalized form of each language of `langs` that is not blank.
fn add_languages(out: &mut Vec<String>, langs: &Vec<String>)
    requires
        strictly_sorted(old(out).deep_view()),
    ensures
        strictly_sorted(final(out).deep_view()),
        forall|s: Seq<char>|
            #![auto]
            final(out).deep_view().contains(s) <==> (old(out).deep_view().contains(s) || (s.len()
                > 0 && normalized_among(langs.deep_view(), langs.len() as int, s))),
{
    let ghost start = out.deep_view();
    let ghost ls = langs.deep_view();
    let mut j: usize = 0;
    while j < langs.len()
        invariant
            j <= langs.len(),
            ls == langs.deep_view(),
            strictly_sorted(out.deep_view()),
            forall|s: Seq<char>|
                #![auto]
                out.deep_view().contains(s) <==> (start.contains(s) || (s.len() > 0
                    && normalized_among(ls, j as int, s))),
        decreases langs.len() - j,
    {
        let low = lowercase(langs[j].as_str());
        let t = trim(low.as_str());
        let ghost prev = out.deep_view();
        let ghost tv = t@;
        assert(tv == normalized(ls[j as int]));
        if t.unicode_len() > 0 {
            insert_sorted(out, t);
        }
        let ghost next: int = j + 1;
        assert forall|s: Seq<char>| #![auto] out.deep_view().contains(s) <==> (start.contains(s) || (
        s.len() > 0 && normalized_among(ls, next, s))) by {
            lemma_normalized_among_step(ls, j as int, s);
            assert(prev.contains(s) <==> (start.contains(s) || (s.len() > 0 && normalized_among(
                ls,
                j as int,
                s,
            ))));
        }
        j = j + 1;
        assert(next == j as int);
        assert forall|s: Seq<char>| #![auto] out.deep_view().contains(s) <==> (start.contains(s) || (
        s.len() > 0 && normalized_among(ls, j as int, s))) by {
            assert(out.deep_view().contains(s) <==> (start.contains(s) || (s.len() > 0
                && normalized_among(ls, next, s))));
        }
    }
}

/// The languages that a sample of entries lists: each lowercased and trimmed,
/// blank ones left out, distinct, in ascending order.
pub fn collect_languages(entries: &Vec<Instance>) -> (r: Vec<String>)
    ensures
        strictly_sorted(r.deep_view()),
        forall|s: Seq<char>|
            #![auto]
            r.deep_view().contains(s) <==> (s.len() > 0 && observed_in(entries_view(entries@), s)),
{
    let ghost es = entries_view(entries@);
    let mut out: Vec<String> = Vec::new();
    let mut i: usize = 0;
    assert(out.deep_view() =~= Seq::<Seq<char>>::empty());
    while i < entries.len()
        invariant
            i <= entries.len(),
            es == entries_view(entries@),
            strictly_sorted(out.deep_view()),
            forall|s: Seq<char>|
                #![auto]
                out.deep_view().contains(s) <==> (s.len() > 0 && observed_among(es, i as int, s)),
        decreases entries.len() - i,
    {
        let ghost prev = out.deep_view();
        let ghost e = es[i as int];
        assert(e == entries[i as int]@);
        match &entries[i].info {
            Some(info) => match &info.languages {
                Some(langs) => {
                    assert(langs.deep_view() == languages_of(e));
                    add_languages(&mut out, langs);
                },
                None => {},
            },
            None => {},
        }
        assert forall|s: Seq<char>| #![auto] out.deep_view().contains(s) <==> (s.len() > 0
            && observed_among(es, i + 1, s)) by {
            lemma_observed_among_step(es, i as int, s);
        }
        i = i + 1;
    }
    out
}

/// The listing that samples entries to discover languages: a fixed sample size and
/// no filter, authorized with the token that [`require_token`] finds.
pub fn fetch_languages<F: FnOnce() -> Option<String>>(state: &AppState, stored: F) -> (r: Result<
    DirectoryRequest,
    ApiError,
>)
    requires
        state@ is None ==> stored.requires(()),
    ensures
        state@ is Some ==> r is Ok,
        r matches Ok(req) ==> req.path@ == "instances/list"@ && pairs_view(req.query@)
            == list_query_of(unfiltered_view(), LANGUAGE_SAMPLE),
        state@ is Some ==> (r matches Ok(req) && req.authorization@ == bearer_of(state@->0)),
        state@ is None ==> match r {
            Ok(req) => exists|s: String|
                stored.ensures((), Some(s)) && req.authorization@ == bearer_of(s@),
            Err(e) => e is NoToken && stored.ensures((), None::<String>),
        },
{
    let token = match require_token(state, stored) {
        Ok(t) => t,
        Err(e) => return Err(e),
    };
    let query = list_query(&FetchParams::unfiltered(), LANGUAGE_SAMPLE);
    Ok(DirectoryRequest::list(token.as_str(), query))
}

} // verus!
