//! Android intent filters: the model of an app's declared links and the
//! matching of URLs against it.

use vstd::prelude::*;
use crate::pattern::{match_pattern, pattern_matches};
use crate::text::{contains_str, seq_starts_with, starts_with, str_eq, strs};
use crate::url::Url;
use vstd::std_specs::cmp::PartialEqSpec;

verus! {

/// A host and optional port from an intent filter's `<data>` element.
#[derive(Debug)]
pub struct Authority {
    pub host: String,
    pub port: Option<u16>,
}

/// The view of an [`Authority`]: its host's characters and its port.
pub type AuthorityView = (Seq<char>, Option<u16>);

impl View for Authority {
    type V = AuthorityView;

    open spec fn view(&self) -> AuthorityView {
        (self.host@, self.port)
    }
}

impl PartialEq for Authority {
    fn eq(&self, other: &Authority) -> (r: bool) {
        str_eq(self.host.as_str(), other.host.as_str()) && self.port == other.port
    }
}

impl vstd::std_specs::cmp::PartialEqSpecImpl for Authority {
    open spec fn obeys_eq_spec() -> bool {
        true
    }

    open spec fn eq_spec(&self, other: &Authority) -> bool {
        self@ == other@
    }
}

impl Clone for Authority {
    fn clone(&self) -> (r: Authority)
        ensures
            r@ == self@,
    {
        Authority { host: self.host.clone(), port: self.port }
    }
}

impl Authority {
    pub fn new(host: String, port: Option<u16>) -> (r: Authority)
        ensures
            r.host == host,
            r.port == port,
    {
        Authority { host, port }
    }

    /// Exact host and exact optional port: both absent, or both equal.
    pub fn matches(&self, host: &str, port: Option<u16>) -> (r: bool)
        ensures
            r == (self@ == (host@, port)),
    {
        str_eq(self.host.as_str(), host) && self.port == port
    }
}

/// Equality of authorities is an equivalence: reflexive, symmetric and
/// transitive, comparing the host text and the optional port together.
pub proof fn authority_equality_is_equivalence(a: Authority, b: Authority, c: Authority)
    ensures
        a.eq_spec(&a),
        a.eq_spec(&b) == b.eq_spec(&a),
        a.eq_spec(&b) && b.eq_spec(&c) ==> a.eq_spec(&c),
        a.eq_spec(&b) == (a@ == (b.host@, b.port)),
{
}

/// One path rule of an intent filter.
#[derive(Debug)]
pub enum PathMatcher {
    /// `android:path`: the whole path.
    Literal(String),
    /// `android:pathPrefix`: a leading part of the path.
    Prefix(String),
    /// `android:pathPattern`: a simple glob, kept as written.
    Pattern(String),
}

/// The view of a [`PathMatcher`].
pub enum PathMatcherView {
    Literal(Seq<char>),
    Prefix(Seq<char>),
    Pattern(Seq<char>),
}

impl View for PathMatcher {
    type V = PathMatcherView;

    open spec fn view(&self) -> PathMatcherView {
        match self {
            PathMatcher::Literal(p) => PathMatcherView::Literal(p@),
            PathMatcher::Prefix(p) => PathMatcherView::Prefix(p@),
            PathMatcher::Pattern(p) => PathMatcherView::Pattern(p@),
        }
    }
}

impl PathMatcherView {
    pub open spec fn accepts(self, path: Seq<char>) -> bool {
        match self {
            PathMatcherView::Literal(p) => p == path,
            PathMatcherView::Prefix(p) => seq_starts_with(path, p),
            PathMatcherView::Pattern(p) => pattern_matches(p, path),
        }
    }
}

impl Clone for PathMatcher {
    fn clone(&self) -> (r: PathMatcher)
        ensures
            r@ == self@,
    {
        match self {
            PathMatcher::Literal(p) => PathMatcher::Literal(p.clone()),
            PathMatcher::Prefix(p) => PathMatcher::Prefix(p.clone()),
            PathMatcher::Pattern(p) => PathMatcher::Pattern(p.clone()),
        }
    }
}

impl PathMatcher {
    pub fn matches(&self, path: &str) -> (r: bool)
        ensures
            r == self@.accepts(path@),
    {
        match self {
            PathMatcher::Literal(p) => str_eq(p.as_str(), path),
            PathMatcher::Prefix(pre) => starts_with(path, pre.as_str()),
            PathMatcher::Pattern(pattern) => match_pattern(path, pattern.as_str()),
        }
    }
}

/// One `<intent-filter>` of an `<activity>` or `<activity-alias>`.
#[derive(Debug)]
pub struct IntentFilter {
    pub activity_name: String,
    pub action: Vec<String>,
    pub category: Vec<String>,
    pub auto_verify: bool,
    pub schemes: Vec<String>,
    pub authorities: Vec<Authority>,
    pub path_matchers: Vec<PathMatcher>,
}

/// The view of an [`IntentFilter`].
pub struct IntentFilterView {
    pub activity_name: Seq<char>,
    pub action: Seq<Seq<char>>,
    pub category: Seq<Seq<char>>,
    pub auto_verify: bool,
    pub schemes: Seq<Seq<char>>,
    pub authorities: Seq<AuthorityView>,
    pub path_matchers: Seq<PathMatcherView>,
}

impl View for IntentFilter {
    type V = IntentFilterView;

    open spec fn view(&self) -> IntentFilterView {
        IntentFilterView {
            activity_name: self.activity_name@,
            action: strs(self.action@),
            category: strs(self.category@),
            auto_verify: self.auto_verify,
            schemes: strs(self.schemes@),
            authorities: self.authorities@.map_values(|a: Authority| a@),
            path_matchers: self.path_matchers@.map_values(|m: PathMatcher| m@),
        }
    }
}

impl IntentFilterView {
    pub open spec fn contains_http_scheme(self) -> bool {
        self.schemes.contains("http"@) || self.schemes.contains("https"@)
    }

    pub open spec fn contains_non_http_scheme(self) -> bool {
        exists|i: int|
            0 <= i < self.schemes.len() && self.schemes[i] != "http"@ && self.schemes[i]
                != "https"@
    }

    /// A filter that can verify web links: an http(s) scheme, the VIEW
    /// action and the BROWSABLE category.
    pub open spec fn is_relevant(self) -> bool {
        &&& self.contains_http_scheme()
        &&& self.action.contains("android.intent.action.VIEW"@)
        &&& self.category.contains("android.intent.category.BROWSABLE"@)
    }

    pub open spec fn scheme_ok(self, scheme: Option<Seq<char>>) -> bool {
        match scheme {
            Some(s) => self.schemes.len() == 0 || self.schemes.contains(s),
            None => true,
        }
    }

    pub open spec fn authority_ok(self, host: Option<Seq<char>>, port: Option<u16>) -> bool {
        match host {
            Some(h) => self.authorities.len() == 0 || self.authorities.contains((h, port)),
            None => true,
        }
    }

    pub open spec fn path_ok(self, path: Seq<char>) -> bool {
        exists|i: int| 0 <= i < self.path_matchers.len() && self.path_matchers[i].accepts(path)
    }

    /// The scheme is declared (or none is), the authority is declared (or
    /// none is), and some path rule accepts the path.
    pub open spec fn accepts_url(self, url: crate::url::UrlView) -> bool {
        &&& self.scheme_ok(url.scheme)
        &&& self.authority_ok(url.host, url.port)
        &&& self.path_ok(url.path)
    }
}

/// A copy of a list of strings.
fn copy_strings(v: &Vec<String>) -> (r: Vec<String>)
    ensures
        strs(r@) == strs(v@),
{
    let mut r: Vec<String> = Vec::new();
    let mut i: usize = 0;
    while i < v.len()
        invariant
            i <= v@.len(),
            r@.len() == i,
            forall|k: int| 0 <= k < i ==> r@[k]@ == v@[k]@,
        decreases v@.len() - i,
    {
        r.push(v[i].clone());
        i += 1;
    }
    assert(strs(r@) =~= strs(v@));
    r
}

/// A copy of a list of authorities.
fn copy_authorities(v: &Vec<Authority>) -> (r: Vec<Authority>)
    ensures
        r@.map_values(|a: Authority| a@) == v@.map_values(|a: Authority| a@),
{
    let mut r: Vec<Authority> = Vec::new();
    let mut i: usize = 0;
    while i < v.len()
        invariant
            i <= v@.len(),
            r@.len() == i,
            forall|k: int| 0 <= k < i ==> r@[k]@ == v@[k]@,
        decreases v@.len() - i,
    {
        r.push(v[i].clone());
        i += 1;
    }
    assert(r@.map_values(|a: Authority| a@) =~= v@.map_values(|a: Authority| a@));
    r
}

/// A copy of a list of path rules.
fn copy_path_matchers(v: &Vec<PathMatcher>) -> (r: Vec<PathMatcher>)
    ensures
        r@.map_values(|m: PathMatcher| m@) == v@.map_values(|m: PathMatcher| m@),
{
    let mut r: Vec<PathMatcher> = Vec::new();
    let mut i: usize = 0;
    while i < v.len()
        invariant
            i <= v@.len(),
            r@.len() == i,
            forall|k: int| 0 <= k < i ==> r@[k]@ == v@[k]@,
        decreases v@.len() - i,
    {
        r.push(v[i].clone());
        i += 1;
    }
    assert(r@.map_values(|m: PathMatcher| m@) =~= v@.map_values(|m: PathMatcher| m@));
    r
}

impl Clone for IntentFilter {
    fn clone(&self) -> (r: IntentFilter)
        ensures
            r@ == self@,
    {
        IntentFilter {
            activity_name: self.activity_name.clone(),
            action: copy_strings(&self.action),
            category: copy_strings(&self.category),
            auto_verify: self.auto_verify,
            schemes: copy_strings(&self.schemes),
            authorities: copy_authorities(&self.authorities),
            path_matchers: copy_path_matchers(&self.path_matchers),
        }
    }
}

impl IntentFilter {
    /// An empty filter of the named activity.
    pub fn new(activity_name: String, auto_verify: bool) -> (r: IntentFilter)
        ensures
            r@ == (IntentFilterView {
                activity_name: activity_name@,
                action: seq![],
                category: seq![],
                auto_verify,
                schemes: seq![],
                authorities: seq![],
                path_matchers: seq![],
            }),
    {
        let r = IntentFilter {
            activity_name,
            action: Vec::new(),
            category: Vec::new(),
            auto_verify,
            schemes: Vec::new(),
            authorities: Vec::new(),
            path_matchers: Vec::new(),
        };
        assert(r@.action =~= seq![]);
        assert(r@.category =~= seq![]);
        assert(r@.schemes =~= seq![]);
        assert(r@.authorities =~= seq![]);
        assert(r@.path_matchers =~= seq![]);
        r
    }

    pub fn is_relevant(&self) -> (r: bool)
        ensures
            r == self@.is_relevant(),
    {
        self.contains_http_scheme() && contains_str(&self.action, "android.intent.action.VIEW")
            && contains_str(&self.category, "android.intent.category.BROWSABLE")
    }

    pub fn contains_http_scheme(&self) -> (r: bool)
        ensures
            r == self@.contains_http_scheme(),
    {
        contains_str(&self.schemes, "http") || contains_str(&self.schemes, "https")
    }

    /// Whether some declared scheme is neither `http` nor `https`. The hosts
    /// of such a filter are not verified by the platform.
    pub fn contains_non_http_scheme(&self) -> (r: bool)
        ensures
            r == self@.contains_non_http_scheme(),
    {
        let mut i: usize = 0;
        while i < self.schemes.len()
            invariant
                i <= self.schemes@.len(),
                forall|j: int|
                    0 <= j < i ==> #[trigger] self.schemes@[j]@ == "http"@ || self.schemes@[j]@
                        == "https"@,
            decreases self.schemes@.len() - i,
        {
            if !str_eq(self.schemes[i].as_str(), "http") && !str_eq(
                self.schemes[i].as_str(),
                "https",
            ) {
                assert(self@.schemes[i as int] == self.schemes@[i as int]@);
                return true;
            }
            i += 1;
        }
        assert(!self@.contains_non_http_scheme()) by {
            assert forall|j: int| 0 <= j < self@.schemes.len() implies self@.schemes[j] == "http"@
                || self@.schemes[j] == "https"@ by {
                assert(self@.schemes[j] == self.schemes@[j]@);
            }
        }
        false
    }

    /// Whether the platform would open `url` through this filter.
    pub fn matches_url(&self, url: &Url) -> (r: bool)
        ensures
            r == self@.accepts_url(url@),
    {
        if let Some(scheme) = &url.scheme {
            if self.schemes.len() > 0 && !contains_str(&self.schemes, scheme.as_str()) {
                return false;
            }
        }
        if let Some(host) = &url.host {
            if self.authorities.len() > 0 {
                let mut auth_matches = false;
                let mut i: usize = 0;
                while i < self.authorities.len()
                    invariant
                        i <= self.authorities@.len(),
                        auth_matches == exists|j: int|
                            0 <= j < i && #[trigger] self.authorities@[j]@ == (host@, url.port),
                    decreases self.authorities@.len() - i,
                {
                    if self.authorities[i].matches(host.as_str(), url.port) {
                        auth_matches = true;
                    }
                    i += 1;
                }
                if !auth_matches {
                    assert(!self@.authorities.contains((host@, url.port))) by {
                        if self@.authorities.contains((host@, url.port)) {
                            let k = choose|k: int|
                                0 <= k < self@.authorities.len() && self@.authorities[k] == (
                                    host@,
                                    url.port,
                                );
                            assert(self.authorities@[k]@ == (host@, url.port));
                        }
                    }
                    return false;
                }
                let ghost k = choose|j: int|
                    0 <= j < self.authorities@.len() && #[trigger] self.authorities@[j]@ == (
                        host@,
                        url.port,
                    );
                assert(self@.authorities[k] == (host@, url.port));
            }
        }
        let mut path_matches = false;
        let mut i: usize = 0;
        while i < self.path_matchers.len()
            invariant
                i <= self.path_matchers@.len(),
                path_matches == exists|j: int|
                    0 <= j < i && #[trigger] self.path_matchers@[j]@.accepts(url.path@),
            decreases self.path_matchers@.len() - i,
        {
            if self.path_matchers[i].matches(url.path.as_str()) {
                path_matches = true;
            }
            i += 1;
        }
        if path_matches {
            let ghost k = choose|j: int|
                0 <= j < self.path_matchers@.len() && #[trigger] self.path_matchers@[j]@.accepts(
                    url.path@,
                );
            assert(self@.path_matchers[k].accepts(url@.path));
        } else {
            assert(!self@.path_ok(url@.path)) by {
                if self@.path_ok(url@.path) {
                    let k = choose|k: int|
                        0 <= k < self@.path_matchers.len() && self@.path_matchers[k].accepts(
                            url@.path,
                        );
                    assert(self.path_matchers@[k]@.accepts(url.path@));
                }
            }
        }
        path_matches
    }
}

} // verus!
