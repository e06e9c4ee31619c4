use vstd::prelude::*;
use vstd::string::*;

use crate::model::{copy_texts, FetchParams, FetchParamsView, Instance, InstanceView, JsInstance, JsInstanceView, items_view};
use crate::text::{ends_with, has_suffix, lower_of, lowercase, parse_i64, decimal_i64_of};

verus! {

/// The size bucket of a user count: 1 up to 2000 users, 2 up to 10000, 3 above.
pub open spec fn bucket_of(users: int) -> u8 {
    if users <= 2000 {
        1
    } else if users <= 10000 {
        2
    } else {
        3
    }
}

/// Classifies a user count into its size bucket.
pub fn size_bucket(users: i64) -> (r: u8)
    ensures
        r == bucket_of(users as int),
        r == 1 <==> users <= 2000,
        r == 2 <==> 2000 < users <= 10000,
        r == 3 <==> users > 10000,
{
    if users <= 2000 {
        1
    } else if users <= 10000 {
        2
    } else {
        3
    }
}

/// The user count that an entry reports: its text read as an integer, 0 when unreadable.
pub open spec fn users_of(text: Seq<char>) -> int {
    match decimal_i64_of(text) {
        Some(v) => v as int,
        None => 0,
    }
}

/// Reads a user count; text that is not an integer counts as 0.
pub fn parse_users(text: &str) -> (r: i64)
    ensures
        r as int == users_of(text@),
{
    match parse_i64(text) {
        Some(v) => v,
        None => 0,
    }
}

pub open spec fn size_label_of(bucket: u8) -> Seq<char> {
    if bucket == 1 {
        "Small"@
    } else if bucket == 2 {
        "Medium"@
    } else {
        "Large"@
    }
}

/// The label shown for a size bucket.
pub fn size_label(bucket: u8) -> (r: String)
    ensures
        r@ == size_label_of(bucket),
{
    if bucket == 1 {
        String::from_str("Small")
    } else if bucket == 2 {
        String::from_str("Medium")
    } else {
        String::from_str("Large")
    }
}

/// The country-code suffixes that count as European.
pub open spec fn eu_suffixes() -> Seq<Seq<char>> {
    seq![
        ".eu"@, ".fr"@, ".de"@, ".it"@, ".es"@, ".pt"@, ".pl"@, ".nl"@, ".be"@, ".lu"@,
        ".ie"@, ".se"@, ".fi"@, ".dk"@, ".cz"@, ".sk"@, ".si"@, ".hr"@, ".gr"@, ".bg"@,
        ".ro"@, ".hu"@, ".lt"@, ".lv"@, ".ee"@, ".cy"@, ".mt"@, ".is"@, ".no"@,
    ]
}

pub open spec fn has_eu_suffix(d: Seq<char>) -> bool {
    exists|i: int| 0 <= i < eu_suffixes().len() && has_suffix(d, #[trigger] eu_suffixes()[i])
}

/// The region class of a lowercased domain.
pub open spec fn region_of_lower(d: Seq<char>) -> Seq<char> {
    if has_suffix(d, ".us"@) || has_suffix(d, ".ca"@) {
        "na"@
    } else if has_eu_suffix(d) {
        "eu"@
    } else {
        "other"@
    }
}

/// The region class of a domain, read from its lowercased form.
pub open spec fn region_of(domain: Seq<char>) -> Seq<char> {
    region_of_lower(lower_of(domain))
}

fn eu_suffix_list() -> (r: Vec<&'static str>)
    ensures
        r@.map_values(|s: &str| s@) == eu_suffixes(),
{
    let r = vec![
        ".eu", ".fr", ".de", ".it", ".es", ".pt", ".pl", ".nl", ".be", ".lu",
        ".ie", ".se", ".fi", ".dk", ".cz", ".sk", ".si", ".hr", ".gr", ".bg",
        ".ro", ".hu", ".lt", ".lv", ".ee", ".cy", ".mt", ".is", ".no",
    ];
    assert(r@.map_values(|s: &str| s@) =~= eu_suffixes());
    r
}

/// The region class of a domain that is already lowercase.
pub fn region_from_lowercase(d: &str) -> (r: String)
    ensures
        r@ == region_of_lower(d@),
{
    if ends_with(d, ".us") || ends_with(d, ".ca") {
        return String::from_str("na");
    }
    let tlds = eu_suffix_list();
    let mut i: usize = 0;
    while i < tlds.len()
        invariant
            i <= tlds.len(),
            tlds@.map_values(|s: &str| s@) == eu_suffixes(),
            !has_suffix(d@, ".us"@),
            !has_suffix(d@, ".ca"@),
            forall|k: int| 0 <= k < i ==> !has_suffix(d@, #[trigger] eu_suffixes()[k]),
        decreases tlds.len() - i,
    {
        assert(tlds@.map_values(|s: &str| s@)[i as int] == tlds[i as int]@);
        if ends_with(d, tlds[i]) {
            assert(has_suffix(d@, eu_suffixes()[i as int]));
            return String::from_str("eu");
        }
        i = i + 1;
    }
    String::from_str("other")
}

/// The region class of a domain: `"na"`, `"eu"` or `"other"`, by its lowercased suffix.
pub fn map_region_from_domain(domain: &str) -> (r: String)
    ensures
        r@ == region_of(domain@),
{
    let d = lowercase(domain);
    region_from_lowercase(d.as_str())
}

pub open spec fn signup_label_of(open: bool) -> Seq<char> {
    if open {
        "open"@
    } else {
        "approval"@
    }
}

/// The signup policy label: `"open"` or `"approval"`.
pub fn signup_label(open: bool) -> (r: String)
    ensures
        r@ == signup_label_of(open),
{
    if open {
        String::from_str("open")
    } else {
        String::from_str("approval")
    }
}

/// The availability estimate, in thousandths: 999 for an entry that is up, 400 otherwise.
pub open spec fn availability_of(up: bool) -> u16 {
    if up {
        999
    } else {
        400
    }
}

/// Whether a requested size class admits a bucket: `"small"` only bucket 1,
/// `"medium"` buckets 1 and 2, any other request only bucket 3.
pub open spec fn size_admits(requested: Seq<char>, bucket: u8) -> bool {
    if requested == "small"@ {
        bucket == 1
    } else if requested == "medium"@ {
        bucket == 1 || bucket == 2
    } else {
        bucket == 3
    }
}

pub fn size_filter_admits(requested: &String, bucket: u8) -> (r: bool)
    ensures
        r == size_admits(requested@, bucket),
{
    if *requested == String::from_str("small") {
        bucket == 1
    } else if *requested == String::from_str("medium") {
        bucket == 1 || bucket == 2
    } else {
        bucket == 3
    }
}

/// The languages an entry lists, none when it lists none.
pub open spec fn languages_of(e: InstanceView) -> Seq<Seq<char>> {
    match e.languages {
        Some(l) => l,
        None => Seq::empty(),
    }
}

pub open spec fn description_of(e: InstanceView) -> Seq<char> {
    match e.description {
        Some(d) => d,
        None => Seq::empty(),
    }
}

/// Whether an entry passes every filter that the request sets.
pub open spec fn passes_filters(e: InstanceView, p: FetchParamsView) -> bool {
    &&& (p.signups matches Some(s) ==> s == signup_label_of(e.open_registrations))
    &&& (p.region matches Some(g) ==> g == region_of(e.name))
    &&& (p.size matches Some(z) ==> size_admits(z, bucket_of(users_of(e.users))))
    &&& (p.language matches Some(l) ==> languages_of(e).contains(l))
}

/// The shown form of an entry.
pub open spec fn derived_of(e: InstanceView) -> JsInstanceView {
    let bucket = bucket_of(users_of(e.users));
    JsInstanceView {
        domain: e.name,
        description: description_of(e),
        languages: languages_of(e),
        signups: signup_label_of(e.open_registrations),
        size: bucket,
        size_label: size_label_of(bucket),
        region: region_of(e.name),
        availability_permille: availability_of(e.up),
    }
}

/// What the transformer makes of an entry: its shown form if it passes the filters.
pub open spec fn transformed(e: InstanceView, p: FetchParamsView) -> Option<JsInstanceView> {
    if passes_filters(e, p) {
        Some(derived_of(e))
    } else {
        None
    }
}

/// Whether `lang` is one of `langs`, compared exactly.
pub fn contains_text(langs: &Vec<String>, lang: &String) -> (r: bool)
    ensures
        r == langs.deep_view().contains(lang@),
{
    let mut i: usize = 0;
    while i < langs.len()
        invariant
            i <= langs.len(),
            forall|k: int| 0 <= k < i ==> langs.deep_view()[k] != lang@,
        decreases langs.len() - i,
    {
        if langs[i] == *lang {
            assert(langs.deep_view()[i as int] == lang@);
            return true;
        }
        i = i + 1;
    }
    false
}

fn info_languages(raw: &Instance) -> (r: Vec<String>)
    ensures
        r.deep_view() == languages_of(raw@),
{
    match &raw.info {
        Some(info) => match &info.languages {
            Some(l) => copy_texts(l),
            None => Vec::new(),
        },
        None => Vec::new(),
    }
}

fn info_description(raw: &Instance) -> (r: String)
    ensures
        r@ == description_of(raw@),
{
    match &raw.info {
        Some(info) => match &info.short_description {
            Some(d) => d.clone(),
            None => String::new(),
        },
        None => String::new(),
    }
}

/// Derives the shown form of a directory entry and applies the filters that the
/// request sets: `None` when the entry fails any of them.
pub fn transform(raw: &Instance, params: &FetchParams) -> (r: Option<JsInstance>)
    ensures
        r is Some <==> passes_filters(raw@, params@),
        r matches Some(j) ==> j@ == derived_of(raw@),
{
    let users = parse_users(raw.users.as_str());
    let size = size_bucket(users);
    let langs = info_languages(raw);
    let region = map_region_from_domain(raw.name.as_str());
    let signups = signup_label(raw.open_registrations);
    if let Some(sig) = &params.signups {
        if *sig != signups {
            return None;
        }
    }
    if let Some(reg) = &params.region {
        if *reg != region {
            return None;
        }
    }
    if let Some(sz) = &params.size {
        if !size_filter_admits(sz, size) {
            return None;
        }
    }
    if let Some(lang) = &params.language {
        if !contains_text(&langs, lang) {
            return None;
        }
    }
    Some(
        JsInstance {
            domain: raw.name.clone(),
            description: info_description(raw),
            languages: langs,
            signups,
            size,
            size_label: size_label(size),
            region,
            availability_permille: if raw.up {
                999
            } else {
                400
            },
        },
    )
}

/// The last three characters of `s`, or all of it when shorter.
pub open spec fn tail3(s: Seq<char>) -> Seq<char> {
    if s.len() >= 3 {
        s.subrange(s.len() - 3, s.len() as int)
    } else {
        s
    }
}

proof fn lemma_suffix3_by_tail(a: Seq<char>, b: Seq<char>, t: Seq<char>)
    requires
        t.len() == 3,
        tail3(a) == tail3(b),
    ensures
        has_suffix(a, t) == has_suffix(b, t),
{
}

/// The region of a domain depends only on the last three characters of its
/// lowercased form: two domains whose lowercased forms end alike get the same region.
pub proof fn lemma_region_by_lowercased_suffix(a: Seq<char>, b: Seq<char>)
    requires
        tail3(lower_of(a)) == tail3(lower_of(b)),
    ensures
        region_of(a) == region_of(b),
{
    let (x, y) = (lower_of(a), lower_of(b));
    reveal_strlit(".us");
    reveal_strlit(".ca");
    reveal_strlit(".eu");
    reveal_strlit(".fr");
    reveal_strlit(".de");
    reveal_strlit(".it");
    reveal_strlit(".es");
    reveal_strlit(".pt");
    reveal_strlit(".pl");
    reveal_strlit(".nl");
    reveal_strlit(".be");
    reveal_strlit(".lu");
    reveal_strlit(".ie");
    reveal_strlit(".se");
    reveal_strlit(".fi");
    reveal_strlit(".dk");
    reveal_strlit(".cz");
    reveal_strlit(".sk");
    reveal_strlit(".si");
    reveal_strlit(".hr");
    reveal_strlit(".gr");
    reveal_strlit(".bg");
    reveal_strlit(".ro");
    reveal_strlit(".hu");
    reveal_strlit(".lt");
    reveal_strlit(".lv");
    reveal_strlit(".ee");
    reveal_strlit(".cy");
    reveal_strlit(".mt");
    reveal_strlit(".is");
    reveal_strlit(".no");
    lemma_suffix3_by_tail(x, y, ".us"@);
    lemma_suffix3_by_tail(x, y, ".ca"@);
    assert forall|i: int| 0 <= i < eu_suffixes().len() implies has_suffix(
        x,
        #[trigger] eu_suffixes()[i],
    ) == has_suffix(y, eu_suffixes()[i]) by {
        lemma_suffix3_by_tail(x, y, eu_suffixes()[i]);
    }
    assert(has_eu_suffix(x) == has_eu_suffix(y));
}

/// A `"medium"` request admits buckets 1 and 2 and rejects bucket 3; a `"small"`
/// request admits bucket 1 alone, a `"large"` one bucket 3 alone.
pub proof fn lemma_size_near_match(bucket: u8)
    requires
        1 <= bucket <= 3,
    ensures
        size_admits("medium"@, bucket) <==> (bucket == 1 || bucket == 2),
        size_admits("small"@, bucket) <==> bucket == 1,
        size_admits("large"@, bucket) <==> bucket == 3,
{
    reveal_strlit("small");
    reveal_strlit("medium");
    reveal_strlit("large");
    assert("medium"@[0] != "small"@[0]);
    assert("large"@[0] != "small"@[0]);
    assert("large"@[0] != "medium"@[0]);
}

/// The language filter is exact membership: an entry passes a language request only
/// if it lists that very string, so a request for `"fr"` rejects an entry whose only
/// language is `"FR"`, and admits one whose only language is `"fr"` when no other
/// filter is set.
pub proof fn lemma_language_filter_exact(e: InstanceView, p: FetchParamsView)
    requires
        p.language is Some,
    ensures
        passes_filters(e, p) ==> languages_of(e).contains(p.language->0),
        p.language == Some("fr"@) && languages_of(e) == seq!["FR"@] ==> !passes_filters(e, p),
        p.language == Some("fr"@) && languages_of(e) == seq!["fr"@] && p.signups is None
            && p.region is None && p.size is None ==> passes_filters(e, p),
{
    reveal_strlit("fr");
    reveal_strlit("FR");
    if languages_of(e) == seq!["FR"@] {
        assert("FR"@[0] != "fr"@[0]);
        assert(languages_of(e)[0] != "fr"@);
    }
    if languages_of(e) == seq!["fr"@] {
        assert(languages_of(e)[0] == "fr"@);
    }
}

/// The entries that pass the filters, in their order, in shown form.
pub open spec fn transformed_all(entries: Seq<InstanceView>, p: FetchParamsView) -> Seq<
    JsInstanceView,
>
    decreases entries.len(),
{
    if entries.len() == 0 {
        Seq::empty()
    } else {
        let rest = transformed_all(entries.drop_last(), p);
        match transformed(entries.last(), p) {
            Some(j) => rest.push(j),
            None => rest,
        }
    }
}

pub open spec fn entries_view(v: Seq<Instance>) -> Seq<InstanceView> {
    v.map_values(|e: Instance| e@)
}

/// Transforms every entry, keeping the order and dropping those filtered out.
pub fn transform_all(entries: &Vec<Instance>, params: &FetchParams) -> (r: Vec<JsInstance>)
    ensures
        items_view(r@) == transformed_all(entries_view(entries@), params@),
{
    let mut r: Vec<JsInstance> = Vec::new();
    let mut i: usize = 0;
    while i < entries.len()
        invariant
            i <= entries.len(),
            items_view(r@) == transformed_all(entries_view(entries@).take(i as int), params@),
        decreases entries.len() - i,
    {
        let ghost before = r@;
        let t = transform(&entries[i], params);
        assert(entries_view(entries@).take(i + 1).drop_last() =~= entries_view(entries@).take(
            i as int,
        ));
        match t {
            Some(j) => {
                r.push(j);
                assert(items_view(r@) =~= items_view(before).push(j@));
            },
            None => {},
        }
        i = i + 1;
    }
    assert(entries_view(entries@).take(entries.len() as int) =~= entries_view(entries@));
    r
}

} // verus!
