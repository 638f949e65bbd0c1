//! The link-relevant part of an Android manifest, built from the decoded
//! element stream of `AndroidManifest.xml`.
//!
//! The stream is read by an explicit state machine: entering an activity
//! records its name, an `<intent-filter>` inside it opens a filter that its
//! `<action>`, `<category>` and `<data>` children fill, and closing the
//! filter keeps it if it is relevant for web links.

use vstd::prelude::*;
use crate::apk::{
    Authority, AuthorityView, IntentFilter, IntentFilterView, PathMatcher, PathMatcherView,
};
use crate::text::{opt_str, str_eq, strs};

verus! {

/// The kind of an attribute's decoded value, as far as link matching reads it.
#[derive(Debug, Clone, Copy, PartialEq, Eq, Structural)]
pub enum TypedValue {
    Boolean(bool),
    IntDecimal(i32),
    /// Any other kind: strings, references, colours and the like.
    Other,
}

/// One attribute of a manifest element. `text` is the value as text, with
/// resource references already resolved.
#[derive(Debug)]
pub struct Attribute {
    pub name: String,
    pub text: String,
    pub value: TypedValue,
}

/// One event of the decoded manifest element stream.
#[derive(Debug)]
pub enum ManifestEvent {
    ElementStart { name: String, attributes: Vec<Attribute> },
    ElementEnd { name: String },
}

/// The text of the first attribute at or after `i` named `name`.
pub open spec fn string_attribute_from(attrs: Seq<Attribute>, name: Seq<char>, i: int) -> Option<
    Seq<char>,
>
    decreases attrs.len() - i,
{
    if i < 0 || i >= attrs.len() {
        None
    } else if attrs[i].name@ == name {
        Some(attrs[i].text@)
    } else {
        string_attribute_from(attrs, name, i + 1)
    }
}

/// The text of the first attribute named `name`.
pub open spec fn string_attribute(attrs: Seq<Attribute>, name: Seq<char>) -> Option<Seq<char>> {
    string_attribute_from(attrs, name, 0)
}

/// The value of the first attribute at or after `i` named `name` that holds a decimal integer.
pub open spec fn int_attribute_from(attrs: Seq<Attribute>, name: Seq<char>, i: int) -> Option<i32>
    decreases attrs.len() - i,
{
    if i < 0 || i >= attrs.len() {
        None
    } else if attrs[i].name@ == name && attrs[i].value is IntDecimal {
        Some(attrs[i].value->IntDecimal_0)
    } else {
        int_attribute_from(attrs, name, i + 1)
    }
}

/// The value of the first attribute named `name` that holds a decimal integer.
pub open spec fn int_attribute(attrs: Seq<Attribute>, name: Seq<char>) -> Option<i32> {
    int_attribute_from(attrs, name, 0)
}

/// The first boolean `autoVerify` at or after `i`, or false.
pub open spec fn auto_verify_from(attrs: Seq<Attribute>, i: int) -> bool
    decreases attrs.len() - i,
{
    if i < 0 || i >= attrs.len() {
        false
    } else if attrs[i].name@ == "autoVerify"@ && attrs[i].value is Boolean {
        attrs[i].value->Boolean_0
    } else {
        auto_verify_from(attrs, i + 1)
    }
}

/// Whether an intent filter with these attributes asks for verification.
pub open spec fn auto_verify_attribute(attrs: Seq<Attribute>) -> bool {
    auto_verify_from(attrs, 0)
}

/// The text of the first attribute named `field_name`.
pub fn get_string_attribute(attributes: &Vec<Attribute>, field_name: &str) -> (r: Option<String>)
    ensures
        opt_str(r) == string_attribute(attributes@, field_name@),
{
    let mut i: usize = 0;
    while i < attributes.len()
        invariant
            i <= attributes@.len(),
            string_attribute_from(attributes@, field_name@, i as int) == string_attribute(
                attributes@,
                field_name@,
            ),
        decreases attributes@.len() - i,
    {
        if str_eq(attributes[i].name.as_str(), field_name) {
            return Some(attributes[i].text.clone());
        }
        i += 1;
    }
    None
}

/// The value of the first attribute named `field_name` that holds a decimal integer.
pub fn get_int_attribute(attributes: &Vec<Attribute>, field_name: &str) -> (r: Option<i32>)
    ensures
        r == int_attribute(attributes@, field_name@),
{
    let mut i: usize = 0;
    while i < attributes.len()
        invariant
            i <= attributes@.len(),
            int_attribute_from(attributes@, field_name@, i as int) == int_attribute(
                attributes@,
                field_name@,
            ),
        decreases attributes@.len() - i,
    {
        if str_eq(attributes[i].name.as_str(), field_name) {
            if let TypedValue::IntDecimal(d) = attributes[i].value {
                return Some(d);
            }
        }
        i += 1;
    }
    None
}

/// The first boolean `autoVerify` attribute, or false when there is none.
pub fn get_intent_filter_auto_verify(attributes: &Vec<Attribute>) -> (r: bool)
    ensures
        r == auto_verify_attribute(attributes@),
{
    let mut i: usize = 0;
    while i < attributes.len()
        invariant
            i <= attributes@.len(),
            auto_verify_from(attributes@, i as int) == auto_verify_attribute(attributes@),
        decreases attributes@.len() - i,
    {
        if str_eq(attributes[i].name.as_str(), "autoVerify") {
            if let TypedValue::Boolean(b) = attributes[i].value {
                return b;
            }
        }
        i += 1;
    }
    false
}

/// Every authority of every filter, in document order.
pub open spec fn authorities_of(fs: Seq<IntentFilterView>) -> Seq<AuthorityView>
    decreases fs.len(),
{
    if fs.len() == 0 {
        seq![]
    } else {
        authorities_of(fs.drop_last()) + fs.last().authorities
    }
}

/// `s` without repeats, each element kept where it first occurs.
pub open spec fn dedup(s: Seq<AuthorityView>) -> Seq<AuthorityView>
    decreases s.len(),
{
    if s.len() == 0 {
        seq![]
    } else {
        let d = dedup(s.drop_last());
        if d.contains(s.last()) {
            d
        } else {
            d.push(s.last())
        }
    }
}

/// Deduplication keeps every element and repeats none.
pub proof fn dedup_keeps_each_once(s: Seq<AuthorityView>)
    ensures
        forall|i: int, j: int|
            0 <= i < j < dedup(s).len() ==> #[trigger] dedup(s)[i] != #[trigger] dedup(s)[j],
        forall|x: AuthorityView| s.contains(x) <==> #[trigger] dedup(s).contains(x),
    decreases s.len(),
{
    if s.len() > 0 {
        let init = s.drop_last();
        dedup_keeps_each_once(init);
        let d = dedup(init);
        assert forall|x: AuthorityView| s.contains(x) <==> #[trigger] dedup(s).contains(x) by {
            if s.contains(x) {
                let k = choose|k: int| 0 <= k < s.len() && s[k] == x;
                if k < s.len() - 1 {
                    assert(init[k] == x);
                    assert(init.contains(x));
                }
                if !d.contains(s.last()) {
                    assert(d.push(s.last())[d.len() as int] == s.last());
                }
                if d.contains(x) && !d.contains(s.last()) {
                    let m = choose|m: int| 0 <= m < d.len() && d[m] == x;
                    assert(d.push(s.last())[m] == x);
                }
            }
            if dedup(s).contains(x) {
                let m = choose|m: int| 0 <= m < dedup(s).len() && dedup(s)[m] == x;
                if m < d.len() {
                    assert(d[m] == x);
                    assert(d.contains(x));
                    let k = choose|k: int| 0 <= k < init.len() && init[k] == x;
                    assert(s[k] == x);
                } else {
                    assert(s[s.len() - 1] == x);
                }
            }
        }
    }
}

/// The intent filters of an app that can verify web links, in document order.
#[derive(Debug)]
pub struct Manifest {
    intent_filters: Vec<IntentFilter>,
}

impl View for Manifest {
    type V = Seq<IntentFilterView>;

    closed spec fn view(&self) -> Seq<IntentFilterView> {
        self.intent_filters@.map_values(|f: IntentFilter| f@)
    }
}

impl Manifest {
    /// Only relevant filters are kept.
    pub open spec fn wf(&self) -> bool {
        forall|i: int| 0 <= i < self@.len() ==> (#[trigger] self@[i]).is_relevant()
    }

    pub fn new() -> (r: Manifest)
        ensures
            r@ == Seq::<IntentFilterView>::empty(),
            r.wf(),
    {
        let r = Manifest { intent_filters: Vec::new() };
        assert(r@ =~= Seq::<IntentFilterView>::empty());
        r
    }

    /// The retained filters.
    pub fn intent_filters(&self) -> (r: &Vec<IntentFilter>)
        ensures
            r@.map_values(|f: IntentFilter| f@) == self@,
    {
        &self.intent_filters
    }

    /// Whether any retained filter asks for verification.
    pub fn has_auto_verify(&self) -> (r: bool)
        ensures
            r == exists|i: int| 0 <= i < self@.len() && (#[trigger] self@[i]).auto_verify,
    {
        let mut i: usize = 0;
        while i < self.intent_filters.len()
            invariant
                i <= self.intent_filters@.len(),
                self@ == self.intent_filters@.map_values(|f: IntentFilter| f@),
                forall|j: int| 0 <= j < i ==> !(#[trigger] self@[j]).auto_verify,
            decreases self.intent_filters@.len() - i,
        {
            if self.intent_filters[i].auto_verify {
                assert(self@[i as int].auto_verify);
                return true;
            }
            i += 1;
        }
        false
    }

    /// The authorities of all retained filters, each once, in the order in
    /// which they first occur.
    pub fn unique_authorities(&self) -> (r: Vec<Authority>)
        ensures
            r@.map_values(|a: Authority| a@) == dedup(authorities_of(self@)),
    {
        let mut res: Vec<Authority> = Vec::new();
        let mut i: usize = 0;
        while i < self.intent_filters.len()
            invariant
                i <= self.intent_filters@.len(),
                self@ == self.intent_filters@.map_values(|f: IntentFilter| f@),
                res@.map_values(|a: Authority| a@) == dedup(authorities_of(self@.take(i as int))),
            decreases self.intent_filters@.len() - i,
        {
            let filter = &self.intent_filters[i];
            let ghost before = authorities_of(self@.take(i as int));
            let mut j: usize = 0;
            while j < filter.authorities.len()
                invariant
                    j <= filter.authorities@.len(),
                    filter@ == self@[i as int],
                    res@.map_values(|a: Authority| a@) == dedup(
                        before + filter@.authorities.take(j as int),
                    ),
                decreases filter.authorities@.len() - j,
            {
                let auth = &filter.authorities[j];
                let ghost prev = before + filter@.authorities.take(j as int);
                let ghost next = before + filter@.authorities.take(j + 1);
                assert(next.drop_last() =~= prev);
                assert(next.last() == auth@);
                let mut found = false;
                let mut k: usize = 0;
                while k < res.len()
                    invariant
                        k <= res@.len(),
                        found == exists|m: int| 0 <= m < k && #[trigger] res@[m]@ == auth@,
                    decreases res@.len() - k,
                {
                    if res[k] == *auth {
                        found = true;
                    }
                    k += 1;
                }
                let ghost seen = res@.map_values(|a: Authority| a@);
                if found {
                    let ghost m = choose|m: int| 0 <= m < res@.len() && #[trigger] res@[m]@ == auth@;
                    assert(seen[m] == auth@);
                } else {
                    assert(!seen.contains(auth@)) by {
                        if seen.contains(auth@) {
                            let m = choose|m: int| 0 <= m < seen.len() && seen[m] == auth@;
                            assert(res@[m]@ == auth@);
                        }
                    }
                    res.push(auth.clone());
                    assert(res@.map_values(|a: Authority| a@) =~= seen.push(auth@));
                }
                j += 1;
            }
            assert(filter@.authorities.take(filter@.authorities.len() as int)
                =~= filter@.authorities);
            assert(self@.take(i + 1).drop_last() =~= self@.take(i as int));
            i += 1;
        }
        assert(self@.take(self@.len() as int) =~= self@);
        res
    }
}

/// `s` with the element of `o` appended, if there is one.
pub open spec fn push_opt<A>(s: Seq<A>, o: Option<A>) -> Seq<A> {
    match o {
        Some(x) => s.push(x),
        None => s,
    }
}

/// The path rule of kind `kind` that an optional attribute text gives.
pub open spec fn path_rule(text: Option<Seq<char>>, kind: int) -> Option<PathMatcherView> {
    match text {
        Some(t) => Some(
            if kind == 0 {
                PathMatcherView::Literal(t)
            } else if kind == 1 {
                PathMatcherView::Prefix(t)
            } else {
                PathMatcherView::Pattern(t)
            },
        ),
        None => None,
    }
}

/// The port of a `<data>` element: its decimal `port` attribute, cut to 16 bits.
pub open spec fn data_port(attrs: Seq<Attribute>) -> Option<u16> {
    match int_attribute(attrs, "port"@) {
        Some(p) => Some(p as u16),
        None => None,
    }
}

/// What a `<data>` element adds to a filter: its scheme, its host with
/// port, and its `path`, `pathPrefix` and `pathPattern` rules, in that order.
pub open spec fn add_data(f: IntentFilterView, attrs: Seq<Attribute>) -> IntentFilterView {
    IntentFilterView {
        schemes: push_opt(f.schemes, string_attribute(attrs, "scheme"@)),
        authorities: match string_attribute(attrs, "host"@) {
            Some(h) => f.authorities.push((h, data_port(attrs))),
            None => f.authorities,
        },
        path_matchers: push_opt(
            push_opt(
                push_opt(f.path_matchers, path_rule(string_attribute(attrs, "path"@), 0)),
                path_rule(string_attribute(attrs, "pathPrefix"@), 1),
            ),
            path_rule(string_attribute(attrs, "pathPattern"@), 2),
        ),
        ..f
    }
}

/// Where the reading of the element stream stands.
pub struct ParseState {
    in_activity: bool,
    activity_name: Option<String>,
    current: Option<IntentFilter>,
    filters: Vec<IntentFilter>,
}

/// The view of a [`ParseState`].
pub struct ParseStateView {
    pub in_activity: bool,
    pub activity_name: Option<Seq<char>>,
    pub current: Option<IntentFilterView>,
    pub filters: Seq<IntentFilterView>,
}

impl View for ParseState {
    type V = ParseStateView;

    closed spec fn view(&self) -> ParseStateView {
        ParseStateView {
            in_activity: self.in_activity,
            activity_name: opt_str(self.activity_name),
            current: match self.current {
                Some(f) => Some(f@),
                None => None,
            },
            filters: self.filters@.map_values(|f: IntentFilter| f@),
        }
    }
}

/// The state before any event.
pub open spec fn initial_state() -> ParseStateView {
    ParseStateView { in_activity: false, activity_name: None, current: None, filters: seq![] }
}

/// The state after one event.
pub open spec fn step(st: ParseStateView, e: ManifestEvent) -> ParseStateView {
    match e {
        ManifestEvent::ElementStart { name, attributes } => {
            let attrs = attributes@;
            if name@ == "activity"@ || name@ == "activity-alias"@ {
                ParseStateView {
                    in_activity: true,
                    activity_name: string_attribute(attrs, "name"@),
                    ..st
                }
            } else if name@ == "intent-filter"@ {
                if st.in_activity && st.activity_name is Some {
                    ParseStateView {
                        current: Some(
                            IntentFilterView {
                                activity_name: st.activity_name->0,
                                action: seq![],
                                category: seq![],
                                auto_verify: auto_verify_attribute(attrs),
                                schemes: seq![],
                                authorities: seq![],
                                path_matchers: seq![],
                            },
                        ),
                        ..st
                    }
                } else {
                    st
                }
            } else if name@ == "action"@ {
                match (st.current, string_attribute(attrs, "name"@)) {
                    (Some(f), Some(a)) => ParseStateView {
                        current: Some(IntentFilterView { action: f.action.push(a), ..f }),
                        ..st
                    },
                    _ => st,
                }
            } else if name@ == "category"@ {
                match (st.current, string_attribute(attrs, "name"@)) {
                    (Some(f), Some(c)) => ParseStateView {
                        current: Some(IntentFilterView { category: f.category.push(c), ..f }),
                        ..st
                    },
                    _ => st,
                }
            } else if name@ == "data"@ {
                match st.current {
                    Some(f) => ParseStateView { current: Some(add_data(f, attrs)), ..st },
                    None => st,
                }
            } else {
                st
            }
        },
        ManifestEvent::ElementEnd { name } => {
            if name@ == "activity"@ || name@ == "activity-alias"@ {
                ParseStateView { in_activity: false, activity_name: None, ..st }
            } else if name@ == "intent-filter"@ {
                match st.current {
                    Some(f) => ParseStateView {
                        current: None,
                        filters: if f.is_relevant() {
                            st.filters.push(f)
                        } else {
                            st.filters
                        },
                        ..st
                    },
                    None => st,
                }
            } else {
                st
            }
        },
    }
}

/// The state after a sequence of events.
pub open spec fn run(events: Seq<ManifestEvent>) -> ParseStateView
    decreases events.len(),
{
    if events.len() == 0 {
        initial_state()
    } else {
        step(run(events.drop_last()), events.last())
    }
}

/// The filters a complete element stream yields.
pub open spec fn manifest_of(events: Seq<ManifestEvent>) -> Seq<IntentFilterView> {
    run(events).filters
}

/// Every filter in `fs` is relevant.
pub open spec fn all_relevant(fs: Seq<IntentFilterView>) -> bool {
    forall|i: int| 0 <= i < fs.len() ==> (#[trigger] fs[i]).is_relevant()
}

/// Applies the attributes of a `<data>` element to `f`.
fn add_data_element(f: &mut IntentFilter, attributes: &Vec<Attribute>)
    ensures
        final(f)@ == add_data(old(f)@, attributes@),
{
    let ghost f0 = f@;
    if let Some(scheme) = get_string_attribute(attributes, "scheme") {
        let ghost s0 = f.schemes@;
        f.schemes.push(scheme);
        assert(strs(f.schemes@) =~= strs(s0).push(scheme@));
    }
    let ghost f1 = f@;
    assert(f1.schemes == add_data(f0, attributes@).schemes);
    if let Some(host) = get_string_attribute(attributes, "host") {
        let port = match get_int_attribute(attributes, "port") {
            Some(p) => Some(#[verifier::truncate] (p as u16)),
            None => None,
        };
        let a = Authority::new(host, port);
        let ghost a0 = f.authorities@;
        f.authorities.push(a);
        assert(f.authorities@.map_values(|x: Authority| x@) =~= a0.map_values(|x: Authority| x@).push(
            a@,
        ));
    }
    let ghost f2 = f@;
    assert(f2.authorities == add_data(f0, attributes@).authorities);
    if let Some(p) = get_string_attribute(attributes, "path") {
        let ghost m0 = f.path_matchers@;
        let m = PathMatcher::Literal(p);
        f.path_matchers.push(m);
        assert(f.path_matchers@.map_values(|x: PathMatcher| x@) =~= m0.map_values(
            |x: PathMatcher| x@,
        ).push(m@));
    }
    if let Some(p) = get_string_attribute(attributes, "pathPrefix") {
        let ghost m0 = f.path_matchers@;
        let m = PathMatcher::Prefix(p);
        f.path_matchers.push(m);
        assert(f.path_matchers@.map_values(|x: PathMatcher| x@) =~= m0.map_values(
            |x: PathMatcher| x@,
        ).push(m@));
    }
    if let Some(p) = get_string_attribute(attributes, "pathPattern") {
        let ghost m0 = f.path_matchers@;
        let m = PathMatcher::Pattern(p);
        f.path_matchers.push(m);
        assert(f.path_matchers@.map_values(|x: PathMatcher| x@) =~= m0.map_values(
            |x: PathMatcher| x@,
        ).push(m@));
    }
}

impl ParseState {
    pub fn new() -> (r: ParseState)
        ensures
            r@ == initial_state(),
    {
        let r = ParseState {
            in_activity: false,
            activity_name: None,
            current: None,
            filters: Vec::new(),
        };
        assert(r@.filters =~= seq![]);
        r
    }

    /// Moves the state on by one event.
    pub fn apply(&mut self, e: &ManifestEvent)
        ensures
            final(self)@ == step(old(self)@, *e),
    {
        match e {
            ManifestEvent::ElementStart { name, attributes } => {
                if str_eq(name.as_str(), "activity") || str_eq(name.as_str(), "activity-alias") {
                    self.in_activity = true;
                    self.activity_name = get_string_attribute(attributes, "name");
                } else if str_eq(name.as_str(), "intent-filter") {
                    if self.in_activity {
                        if let Some(n) = &self.activity_name {
                            let auto_verify = get_intent_filter_auto_verify(attributes);
                            self.current = Some(IntentFilter::new(n.clone(), auto_verify));
                        }
                    }
                } else if str_eq(name.as_str(), "action") {
                    if self.current.is_some() {
                        if let Some(a) = get_string_attribute(attributes, "name") {
                            let mut f = self.current.take().unwrap();
                            let ghost v0 = f.action@;
                            f.action.push(a);
                            assert(strs(f.action@) =~= strs(v0).push(a@));
                            self.current = Some(f);
                        }
                    }
                } else if str_eq(name.as_str(), "category") {
                    if self.current.is_some() {
                        if let Some(c) = get_string_attribute(attributes, "name") {
                            let mut f = self.current.take().unwrap();
                            let ghost v0 = f.category@;
                            f.category.push(c);
                            assert(strs(f.category@) =~= strs(v0).push(c@));
                            self.current = Some(f);
                        }
                    }
                } else if str_eq(name.as_str(), "data") {
                    if self.current.is_some() {
                        let mut f = self.current.take().unwrap();
                        add_data_element(&mut f, attributes);
                        self.current = Some(f);
                    }
                }
            },
            ManifestEvent::ElementEnd { name } => {
                if str_eq(name.as_str(), "activity") || str_eq(name.as_str(), "activity-alias") {
                    self.in_activity = false;
                    self.activity_name = None;
                } else if str_eq(name.as_str(), "intent-filter") {
                    if let Some(f) = self.current.take() {
                        if f.is_relevant() {
                            let ghost fs0 = self.filters@;
                            self.filters.push(f);
                            assert(self.filters@.map_values(|x: IntentFilter| x@) =~= fs0.map_values(
                                |x: IntentFilter| x@,
                            ).push(f@));
                        }
                    }
                }
            },
        }
    }

    /// The filters kept so far.
    pub fn into_manifest(self) -> (r: Manifest)
        requires
            all_relevant(self@.filters),
        ensures
            r@ == self@.filters,
            r.wf(),
    {
        Manifest { intent_filters: self.filters }
    }
}

/// Only relevant filters are ever kept.
pub proof fn lemma_run_keeps_relevant(events: Seq<ManifestEvent>)
    ensures
        all_relevant(run(events).filters),
    decreases events.len(),
{
    if events.len() > 0 {
        lemma_run_keeps_relevant(events.drop_last());
        let st = run(events.drop_last());
        let next = step(st, events.last());
        assert forall|i: int| 0 <= i < next.filters.len() implies (
        #[trigger] next.filters[i]).is_relevant() by {
            if i < st.filters.len() {
                assert(st.filters[i].is_relevant());
            }
        }
    }
}

/// The relevant intent filters of a decoded manifest element stream, in
/// document order.
pub fn parse_manifest(events: &Vec<ManifestEvent>) -> (r: Manifest)
    ensures
        r@ == manifest_of(events@),
        r.wf(),
{
    let mut st = ParseState::new();
    let mut i: usize = 0;
    while i < events.len()
        invariant
            i <= events@.len(),
            st@ == run(events@.take(i as int)),
        decreases events@.len() - i,
    {
        st.apply(&events[i]);
        assert(events@.take(i + 1).drop_last() =~= events@.take(i as int));
        i += 1;
    }
    assert(events@.take(events@.len() as int) =~= events@);
    proof {
        lemma_run_keeps_relevant(events@);
    }
    st.into_manifest()
}

} // verus!
