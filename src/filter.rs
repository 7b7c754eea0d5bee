use vstd::prelude::*;
use vstd::string::StringExecFns;

use crate::profile::{all_sun_signs, string_views, sun_signs, Profile};

verus! {

/// A query over two facets. An empty facet selects everything; a non-empty
/// one selects the profiles whose attribute equals one of its values.
pub struct Filters {
    pub industry: Vec<String>,
    pub sun_sign: Vec<String>,
}

/// The values of the parameters named `name`, in the order they came.
pub open spec fn values_named(pairs: Seq<(String, String)>, name: Seq<char>) -> Seq<String>
    decreases pairs.len(),
{
    if pairs.len() == 0 {
        Seq::empty()
    } else {
        let rest = values_named(pairs.drop_last(), name);
        if pairs.last().0@ == name {
            rest.push(pairs.last().1)
        } else {
            rest
        }
    }
}

fn collect_named(pairs: &Vec<(String, String)>, name: &str) -> (r: Vec<String>)
    ensures
        r@ == values_named(pairs@, name@),
{
    let wanted = String::from_str(name);
    let mut r: Vec<String> = Vec::new();
    let mut i: usize = 0;
    while i < pairs.len()
        invariant
            i <= pairs.len(),
            wanted@ == name@,
            r@ == values_named(pairs@.take(i as int), name@),
        decreases pairs.len() - i,
    {
        assert(pairs@.take(i + 1).drop_last() =~= pairs@.take(i as int));
        if pairs[i].0 == wanted {
            r.push(pairs[i].1.clone());
        }
        i = i + 1;
    }
    assert(pairs@.take(pairs.len() as int) =~= pairs@);
    r
}

impl Filters {
    /// The query of a request from its decoded parameters, in the order they
    /// came: every `industry` parameter gives an industry and every
    /// `sun_sign` parameter a sun sign, repeats kept; other names are ignored.
    pub fn from_query(pairs: &Vec<(String, String)>) -> (r: Filters)
        ensures
            r.industry@ == values_named(pairs@, "industry"@),
            r.sun_sign@ == values_named(pairs@, "sun_sign"@),
    {
        Filters { industry: collect_named(pairs, "industry"), sun_sign: collect_named(pairs, "sun_sign") }
    }
}

/// `value` is one of the selections of `facet`.
pub open spec fn selected(facet: Seq<String>, value: Seq<char>) -> bool {
    exists|i: int| 0 <= i < facet.len() && #[trigger] facet[i]@ == value
}

/// A facet admits a value when it selects nothing or selects that value.
pub open spec fn facet_admits(facet: Seq<String>, value: Seq<char>) -> bool {
    facet.len() == 0 || selected(facet, value)
}

/// A profile is kept when both facets admit it.
pub open spec fn profile_matches(industry: Seq<String>, sun_sign: Seq<String>, p: Profile) -> bool {
    facet_admits(industry, p.industry@) && facet_admits(sun_sign, p.sun_sign@)
}

/// The profiles of `s` that match the query, in the order of `s`.
pub open spec fn filtered(s: Seq<Profile>, industry: Seq<String>, sun_sign: Seq<String>) -> Seq<
    Profile,
>
    decreases s.len(),
{
    if s.len() == 0 {
        Seq::empty()
    } else {
        let rest = filtered(s.drop_last(), industry, sun_sign);
        if profile_matches(industry, sun_sign, s.last()) {
            rest.push(s.last())
        } else {
            rest
        }
    }
}

/// Whether `value` is one of the selections of `facet`.
pub fn facet_selects(facet: &Vec<String>, value: &String) -> (r: bool)
    ensures
        r == selected(facet@, value@),
{
    let mut i: usize = 0;
    while i < facet.len()
        invariant
            i <= facet.len(),
            forall|j: int| 0 <= j < i ==> facet@[j]@ != value@,
        decreases facet.len() - i,
    {
        if facet[i] == *value {
            return true;
        }
        i = i + 1;
    }
    false
}

/// Whether the profile passes both facets of the query.
pub fn matches_filters(filters: &Filters, p: &Profile) -> (r: bool)
    ensures
        r == profile_matches(filters.industry@, filters.sun_sign@, *p),
{
    let industry_ok = filters.industry.len() == 0 || facet_selects(&filters.industry, &p.industry);
    let sun_sign_ok = filters.sun_sign.len() == 0 || facet_selects(&filters.sun_sign, &p.sun_sign);
    industry_ok && sun_sign_ok
}

/// The profiles that the query selects, in store order.
pub fn evaluate(profiles: &Vec<Profile>, filters: &Filters) -> (r: Vec<Profile>)
    ensures
        r@ == filtered(profiles@, filters.industry@, filters.sun_sign@),
{
    let mut r: Vec<Profile> = Vec::new();
    let mut i: usize = 0;
    while i < profiles.len()
        invariant
            i <= profiles.len(),
            r@ == filtered(profiles@.take(i as int), filters.industry@, filters.sun_sign@),
        decreases profiles.len() - i,
    {
        assert(profiles@.take(i + 1).drop_last() =~= profiles@.take(i as int));
        if matches_filters(filters, &profiles[i]) {
            r.push(profiles[i].duplicate());
        }
        i = i + 1;
    }
    assert(profiles@.take(profiles.len() as int) =~= profiles@);
    r
}

/// `idx` places each element of `a` at a position of `b`, positions rising.
pub open spec fn embeds(idx: Seq<int>, a: Seq<Profile>, b: Seq<Profile>) -> bool {
    &&& idx.len() == a.len()
    &&& forall|i: int| 0 <= i < a.len() ==> 0 <= #[trigger] idx[i] < b.len() && a[i] == b[idx[i]]
    &&& forall|i: int, j: int| 0 <= i < j < a.len() ==> #[trigger] idx[i] < #[trigger] idx[j]
}

/// `a` is `b` with some elements left out, the rest in their order.
pub open spec fn is_subsequence(a: Seq<Profile>, b: Seq<Profile>) -> bool {
    exists|idx: Seq<int>| embeds(idx, a, b)
}

/// Every selection of `a` is also a selection of `b`.
pub open spec fn facet_within(a: Seq<String>, b: Seq<String>) -> bool {
    forall|i: int| 0 <= i < a.len() ==> selected(b, #[trigger] a[i]@)
}

/// Filtering with a query that admits more keeps more: when every profile of
/// `s` that the first query keeps is kept by the second one, the first result
/// is a subsequence of the second.
pub proof fn lemma_filtered_sub(
    s: Seq<Profile>,
    industry: Seq<String>,
    sun_sign: Seq<String>,
    industry2: Seq<String>,
    sun_sign2: Seq<String>,
)
    requires
        forall|i: int|
            0 <= i < s.len() && profile_matches(industry, sun_sign, #[trigger] s[i])
                ==> profile_matches(industry2, sun_sign2, s[i]),
    ensures
        is_subsequence(filtered(s, industry, sun_sign), filtered(s, industry2, sun_sign2)),
    decreases s.len(),
{
    let a = filtered(s, industry, sun_sign);
    let b = filtered(s, industry2, sun_sign2);
    if s.len() == 0 {
        assert(embeds(Seq::empty(), a, b));
    } else {
        let d = s.drop_last();
        assert forall|i: int|
            0 <= i < d.len() && profile_matches(industry, sun_sign, #[trigger] d[i]) implies profile_matches(
            industry2,
            sun_sign2,
            d[i],
        ) by {
            assert(d[i] == s[i]);
        }
        lemma_filtered_sub(d, industry, sun_sign, industry2, sun_sign2);
        let a0 = filtered(d, industry, sun_sign);
        let b0 = filtered(d, industry2, sun_sign2);
        let idx0 = choose|idx: Seq<int>| embeds(idx, a0, b0);
        let x = s.last();
        assert(s[s.len() - 1] == x);
        if profile_matches(industry, sun_sign, x) {
            let idx = idx0.push(b0.len() as int);
            assert(embeds(idx, a, b)) by {
                assert forall|i: int| 0 <= i < a.len() implies 0 <= #[trigger] idx[i] < b.len()
                    && a[i] == b[idx[i]] by {
                    if i < a0.len() {
                        assert(idx[i] == idx0[i]);
                    }
                }
                assert forall|i: int, j: int| 0 <= i < j < a.len() implies #[trigger] idx[i]
                    < #[trigger] idx[j] by {
                    if j < a0.len() {
                        assert(idx[i] == idx0[i] && idx[j] == idx0[j]);
                    } else {
                        assert(idx[i] == idx0[i]);
                    }
                }
            }
        } else if profile_matches(industry2, sun_sign2, x) {
            assert(embeds(idx0, a, b)) by {
                assert forall|i: int| 0 <= i < a.len() implies 0 <= #[trigger] idx0[i] < b.len()
                    && a[i] == b[idx0[i]] by {
                    assert(b[idx0[i]] == b0[idx0[i]]);
                }
            }
        } else {
            assert(embeds(idx0, a, b));
        }
    }
}

/// A query with both facets empty keeps the whole store, in order.
pub proof fn lemma_empty_query_identity(s: Seq<Profile>)
    ensures
        filtered(s, Seq::empty(), Seq::empty()) == s,
    decreases s.len(),
{
    if s.len() > 0 {
        lemma_empty_query_identity(s.drop_last());
        assert(s.drop_last().push(s.last()) =~= s);
    }
}

/// The result of a query is a subsequence of the store.
pub proof fn lemma_filtered_is_subsequence(
    s: Seq<Profile>,
    industry: Seq<String>,
    sun_sign: Seq<String>,
)
    ensures
        is_subsequence(filtered(s, industry, sun_sign), s),
{
    lemma_empty_query_identity(s);
    lemma_filtered_sub(s, industry, sun_sign, Seq::empty(), Seq::empty());
}

/// Widening each facet of a query keeps every earlier result: where each
/// selection of the first query is also made by the second, and a facet that
/// the first query leaves empty is empty in the second too, the first result
/// is a subsequence of the second.
pub proof fn lemma_widening_is_monotone(
    s: Seq<Profile>,
    industry: Seq<String>,
    sun_sign: Seq<String>,
    industry2: Seq<String>,
    sun_sign2: Seq<String>,
)
    requires
        facet_within(industry, industry2),
        facet_within(sun_sign, sun_sign2),
        industry.len() == 0 ==> industry2.len() == 0,
        sun_sign.len() == 0 ==> sun_sign2.len() == 0,
    ensures
        is_subsequence(filtered(s, industry, sun_sign), filtered(s, industry2, sun_sign2)),
{
    assert forall|i: int|
        0 <= i < s.len() && profile_matches(industry, sun_sign, #[trigger] s[i])
            implies profile_matches(industry2, sun_sign2, s[i]) by {
        let p = s[i];
        if industry.len() > 0 {
            let k = choose|k: int| 0 <= k < industry.len() && #[trigger] industry[k]@ == p.industry@;
            assert(selected(industry2, industry[k]@));
        }
        if sun_sign.len() > 0 {
            let k = choose|k: int| 0 <= k < sun_sign.len() && #[trigger] sun_sign[k]@ == p.sun_sign@;
            assert(selected(sun_sign2, sun_sign[k]@));
        }
    }
    lemma_filtered_sub(s, industry, sun_sign, industry2, sun_sign2);
}

/// What a query keeps: exactly the profiles of the store that match it.
pub proof fn lemma_filtered_members(
    s: Seq<Profile>,
    industry: Seq<String>,
    sun_sign: Seq<String>,
    p: Profile,
)
    ensures
        filtered(s, industry, sun_sign).contains(p) <==> (s.contains(p) && profile_matches(
            industry,
            sun_sign,
            p,
        )),
    decreases s.len(),
{
    if s.len() > 0 {
        let d = s.drop_last();
        let r0 = filtered(d, industry, sun_sign);
        lemma_filtered_members(d, industry, sun_sign, p);
        assert(s =~= d.push(s.last()));
        if s.contains(p) && !d.contains(p) {
            let k = choose|k: int| 0 <= k < s.len() && s[k] == p;
            if k < d.len() {
                assert(d[k] == p);
            }
        }
        if d.contains(p) {
            let k = choose|k: int| 0 <= k < d.len() && d[k] == p;
            assert(s[k] == p);
        }
        if profile_matches(industry, sun_sign, s.last()) {
            let r = r0.push(s.last());
            if r0.contains(p) {
                let k = choose|k: int| 0 <= k < r0.len() && r0[k] == p;
                assert(r[k] == p);
            }
            if r.contains(p) && !r0.contains(p) {
                let k = choose|k: int| 0 <= k < r.len() && r[k] == p;
                if k < r0.len() {
                    assert(r0[k] == p);
                }
            }
            assert(r[r0.len() as int] == s.last());
        }
    }
}

/// The facets are routed by name: a value selected under `industry` keeps
/// exactly the profiles of that industry, whatever their sun sign.
pub proof fn lemma_industry_routing(s: Seq<Profile>, value: String, p: Profile)
    ensures
        filtered(s, seq![value], Seq::empty()).contains(p) <==> (s.contains(p) && p.industry@
            == value@),
{
    lemma_filtered_members(s, seq![value], Seq::empty(), p);
    if p.industry@ == value@ {
        assert(seq![value][0]@ == p.industry@);
    }
}

/// The facets are routed by name: a value selected under `sun_sign` keeps
/// exactly the profiles of that sun sign, whatever their industry.
pub proof fn lemma_sun_sign_routing(s: Seq<Profile>, value: String, p: Profile)
    ensures
        filtered(s, Seq::empty(), seq![value]).contains(p) <==> (s.contains(p) && p.sun_sign@
            == value@),
{
    lemma_filtered_members(s, Seq::empty(), seq![value], p);
    if p.sun_sign@ == value@ {
        assert(seq![value][0]@ == p.sun_sign@);
    }
}

/// What the `filter` template is rendered with.
pub struct FilterContext {
    /// The profiles that the query selects, in store order.
    pub profiles: Vec<Profile>,
    /// The industries of the query, as received.
    pub checked_industries: Vec<String>,
    /// The sun signs of the query, as received.
    pub checked_sun_signs: Vec<String>,
    /// The twelve sun signs, in canonical order.
    pub all_sun_signs: Vec<String>,
}

/// `c` is the context for the query on the store `s`.
pub open spec fn is_filter_context(
    c: FilterContext,
    s: Seq<Profile>,
    industry: Seq<String>,
    sun_sign: Seq<String>,
) -> bool {
    &&& c.profiles@ == filtered(s, industry, sun_sign)
    &&& c.checked_industries@ == industry
    &&& c.checked_sun_signs@ == sun_sign
    &&& string_views(c.all_sun_signs@) == sun_signs()
}

/// The context for the profiles that a query matched: the query is echoed as
/// it came, with the canonical sun signs beside it.
pub fn build_filter_context(matching: Vec<Profile>, filters: Filters) -> (r: FilterContext)
    ensures
        r.profiles@ == matching@,
        r.checked_industries@ == filters.industry@,
        r.checked_sun_signs@ == filters.sun_sign@,
        string_views(r.all_sun_signs@) == sun_signs(),
{
    FilterContext {
        profiles: matching,
        checked_industries: filters.industry,
        checked_sun_signs: filters.sun_sign,
        all_sun_signs: all_sun_signs(),
    }
}

/// Filters a snapshot of the store and builds the context to render.
pub fn profiles_filter(profiles: &Vec<Profile>, filters: Filters) -> (r: FilterContext)
    ensures
        is_filter_context(r, profiles@, filters.industry@, filters.sun_sign@),
{
    let matching = evaluate(profiles, &filters);
    build_filter_context(matching, filters)
}

/// Asking twice is answering twice alike: two contexts for the same query on
/// the same store hold the same profiles, echoes and sun signs.
pub proof fn lemma_filter_repeatable(
    c1: FilterContext,
    c2: FilterContext,
    s: Seq<Profile>,
    industry: Seq<String>,
    sun_sign: Seq<String>,
)
    requires
        is_filter_context(c1, s, industry, sun_sign),
        is_filter_context(c2, s, industry, sun_sign),
    ensures
        c1.profiles@ == c2.profiles@,
        c1.checked_industries@ == c2.checked_industries@,
        c1.checked_sun_signs@ == c2.checked_sun_signs@,
        string_views(c1.all_sun_signs@) == string_views(c2.all_sun_signs@),
{
}

} // verus!
