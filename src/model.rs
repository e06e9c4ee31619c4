use vstd::prelude::*;

verus! {

/// A request to the directory. Every field is optional; a field left `None` is
/// neither sent nor used as a filter. Two requests are the same cache key exactly
/// when all fields are equal.
#[derive(Debug, Clone)]
pub struct FetchParams {
    pub language: Option<String>,
    pub include_closed: Option<bool>,
    pub include_down: Option<bool>,
    pub max: Option<usize>,
    /// `"open"` or `"approval"`.
    pub signups: Option<String>,
    /// `"eu"`, `"na"` or `"other"`.
    pub region: Option<String>,
    /// `"small"`, `"medium"` or `"large"`.
    pub size: Option<String>,
}

pub struct FetchParamsView {
    pub language: Option<Seq<char>>,
    pub include_closed: Option<bool>,
    pub include_down: Option<bool>,
    pub max: Option<usize>,
    pub signups: Option<Seq<char>>,
    pub region: Option<Seq<char>>,
    pub size: Option<Seq<char>>,
}

impl View for FetchParams {
    type V = FetchParamsView;

    open spec fn view(&self) -> FetchParamsView {
        FetchParamsView {
            language: self.language.deep_view(),
            include_closed: self.include_closed,
            include_down: self.include_down,
            max: self.max,
            signups: self.signups.deep_view(),
            region: self.region.deep_view(),
            size: self.size.deep_view(),
        }
    }
}

fn same_text(a: &Option<String>, b: &Option<String>) -> (r: bool)
    ensures
        r == (a.deep_view() == b.deep_view()),
{
    match a {
        Some(x) => match b {
            Some(y) => *x == *y,
            None => false,
        },
        None => b.is_none(),
    }
}

fn same_flag(a: Option<bool>, b: Option<bool>) -> (r: bool)
    ensures
        r == (a == b),
{
    match (a, b) {
        (Some(x), Some(y)) => x == y,
        (None, None) => true,
        _ => false,
    }
}

fn same_count(a: Option<usize>, b: Option<usize>) -> (r: bool)
    ensures
        r == (a == b),
{
    match (a, b) {
        (Some(x), Some(y)) => x == y,
        (None, None) => true,
        _ => false,
    }
}

impl PartialEq for FetchParams {
    fn eq(&self, other: &FetchParams) -> (r: bool) {
        same_text(&self.language, &other.language) && same_flag(
            self.include_closed,
            other.include_closed,
        ) && same_flag(self.include_down, other.include_down) && same_count(self.max, other.max)
            && same_text(&self.signups, &other.signups) && same_text(&self.region, &other.region)
            && same_text(&self.size, &other.size)
    }
}

impl vstd::std_specs::cmp::PartialEqSpecImpl for FetchParams {
    open spec fn obeys_eq_spec() -> bool {
        true
    }

    open spec fn eq_spec(&self, other: &FetchParams) -> bool {
        self@ == other@
    }
}

impl FetchParams {
    /// A request with no field set: no filter, no upstream option.
    pub fn unfiltered() -> (r: FetchParams)
        ensures
            r@ == unfiltered_view(),
    {
        FetchParams {
            language: None,
            include_closed: None,
            include_down: None,
            max: None,
            signups: None,
            region: None,
            size: None,
        }
    }

    /// A copy with the same fields.
    pub fn duplicate(&self) -> (r: FetchParams)
        ensures
            r@ == self@,
    {
        FetchParams {
            language: copy_text(&self.language),
            include_closed: self.include_closed,
            include_down: self.include_down,
            max: self.max,
            signups: copy_text(&self.signups),
            region: copy_text(&self.region),
            size: copy_text(&self.size),
        }
    }
}

pub open spec fn unfiltered_view() -> FetchParamsView {
    FetchParamsView {
        language: None,
        include_closed: None,
        include_down: None,
        max: None,
        signups: None,
        region: None,
        size: None,
    }
}

pub fn copy_text(a: &Option<String>) -> (r: Option<String>)
    ensures
        r.deep_view() == a.deep_view(),
{
    match a {
        Some(x) => Some(x.clone()),
        None => None,
    }
}

/// A copy of a list of strings.
pub fn copy_texts(v: &Vec<String>) -> (r: Vec<String>)
    ensures
        r.deep_view() == v.deep_view(),
{
    let mut r: Vec<String> = Vec::new();
    let mut i: usize = 0;
    while i < v.len()
        invariant
            i <= v.len(),
            r@ == v@.take(i as int),
        decreases v.len() - i,
    {
        r.push(v[i].clone());
        assert(r@ =~= v@.take(i + 1));
        i = i + 1;
    }
    assert(r@ =~= v@);
    assert(r.deep_view() =~= v.deep_view());
    r
}

/// The optional details of a directory entry.
#[derive(Debug, Clone)]
pub struct InstanceInfo {
    pub short_description: Option<String>,
    pub languages: Option<Vec<String>>,
}

/// A directory entry as the remote service lists it.
#[derive(Debug, Clone)]
pub struct Instance {
    pub name: String,
    pub up: bool,
    /// The user count, as text.
    pub users: String,
    pub open_registrations: bool,
    pub info: Option<InstanceInfo>,
}

pub struct InstanceView {
    pub name: Seq<char>,
    pub up: bool,
    pub users: Seq<char>,
    pub open_registrations: bool,
    pub description: Option<Seq<char>>,
    pub languages: Option<Seq<Seq<char>>>,
}

impl View for Instance {
    type V = InstanceView;

    open spec fn view(&self) -> InstanceView {
        InstanceView {
            name: self.name@,
            up: self.up,
            users: self.users@,
            open_registrations: self.open_registrations,
            description: match self.info {
                Some(info) => info.short_description.deep_view(),
                None => None,
            },
            languages: match self.info {
                Some(info) => info.languages.deep_view(),
                None => None,
            },
        }
    }
}

/// A directory entry as it is shown: derived from an [`Instance`].
#[derive(Debug, Clone, PartialEq)]
pub struct JsInstance {
    pub domain: String,
    pub description: String,
    pub languages: Vec<String>,
    /// `"open"` or `"approval"`.
    pub signups: String,
    /// The size bucket: 1, 2 or 3.
    pub size: u8,
    pub size_label: String,
    /// `"eu"`, `"na"` or `"other"`.
    pub region: String,
    /// The estimated availability, in thousandths.
    pub availability_permille: u16,
}

pub struct JsInstanceView {
    pub domain: Seq<char>,
    pub description: Seq<char>,
    pub languages: Seq<Seq<char>>,
    pub signups: Seq<char>,
    pub size: u8,
    pub size_label: Seq<char>,
    pub region: Seq<char>,
    pub availability_permille: u16,
}

impl View for JsInstance {
    type V = JsInstanceView;

    open spec fn view(&self) -> JsInstanceView {
        JsInstanceView {
            domain: self.domain@,
            description: self.description@,
            languages: self.languages.deep_view(),
            signups: self.signups@,
            size: self.size,
            size_label: self.size_label@,
            region: self.region@,
            availability_permille: self.availability_permille,
        }
    }
}

pub open spec fn items_view(v: Seq<JsInstance>) -> Seq<JsInstanceView> {
    v.map_values(|j: JsInstance| j@)
}

/// The cached result of one fetch: when it was saved (seconds since the Unix
/// epoch), for which request, and what it returned.
#[derive(Debug, Clone)]
pub struct CacheSnapshot {
    pub saved_at: u64,
    pub params: FetchParams,
    pub items: Vec<JsInstance>,
}

pub struct CacheSnapshotView {
    pub saved_at: u64,
    pub params: FetchParamsView,
    pub items: Seq<JsInstanceView>,
}

impl View for CacheSnapshot {
    type V = CacheSnapshotView;

    open spec fn view(&self) -> CacheSnapshotView {
        CacheSnapshotView {
            saved_at: self.saved_at,
            params: self.params@,
            items: items_view(self.items@),
        }
    }
}

/// The ways an operation can fail.
#[derive(Debug, Clone, PartialEq)]
pub enum ApiError {
    /// No credential in the session nor in durable storage.
    NoToken,
    /// The remote could not be reached.
    Network(String),
    /// The remote answered with a status other than success.
    Remote { status: u16, body: String },
    /// A response or a stored body could not be decoded.
    Serialization(String),
    /// Durable credential storage failed.
    Storage(String),
}

} // verus!
