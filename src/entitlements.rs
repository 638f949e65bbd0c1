//! The entitlements of a signed app binary: the app's identifier and its
//! associated domains, and where the code signature holds them.

use vstd::prelude::*;
use crate::text::{contains_str, same_bundle, matches_bundle_id, strs};

verus! {

/// The decoded entitlements of an app.
#[derive(Debug)]
pub struct Entitlements {
    pub application_identifier: Option<String>,
    pub associated_domains: Vec<String>,
}

/// A problem of an app's entitlements.
#[derive(Debug, PartialEq, Eq, Structural)]
pub enum Problem {
    DomainNotInApplinks,
    WrongBundleIdentifier,
}

impl Problem {
    /// The message shown for the problem.
    pub open spec fn message(self) -> Seq<char> {
        match self {
            Problem::DomainNotInApplinks => "The domain is not listed in the entitlements."@,
            Problem::WrongBundleIdentifier => "The bundle identifier in the entitlements does not match the one you supplied."@,
        }
    }

    pub fn to_string_human(&self) -> (r: String)
        ensures
            r@ == self.message(),
    {
        match self {
            Problem::DomainNotInApplinks => "The domain is not listed in the entitlements.".to_owned(),
            Problem::WrongBundleIdentifier => "The bundle identifier in the entitlements does not match the one you supplied.".to_owned(),
        }
    }
}

impl Entitlements {
    /// Whether the associated domains list `applinks:<domain>` exactly.
    pub open spec fn lists_applink_domain(&self, domain: Seq<char>) -> bool {
        strs(self.associated_domains@).contains("applinks:"@ + domain)
    }

    /// The problems of the entitlements for the bundle `app_id` and the
    /// host `domain`: an application identifier for another bundle, then a
    /// domain missing from the associated domains.
    pub open spec fn problems(&self, app_id: Seq<char>, domain: Seq<char>) -> Seq<Problem> {
        (match self.application_identifier {
            Some(id) => if !same_bundle(id@, app_id) {
                seq![Problem::WrongBundleIdentifier]
            } else {
                seq![]
            },
            None => seq![],
        }) + (if !self.lists_applink_domain(domain) {
            seq![Problem::DomainNotInApplinks]
        } else {
            seq![]
        })
    }

    /// No identifier and no domains.
    pub fn new() -> (r: Entitlements)
        ensures
            r.application_identifier is None,
            r.associated_domains@.len() == 0,
    {
        Entitlements { application_identifier: None, associated_domains: Vec::new() }
    }

    /// Whether `applinks:<domain>` is among the associated domains.
    pub fn matches_applink_domain(&self, domain: &str) -> (r: bool)
        ensures
            r == self.lists_applink_domain(domain@),
    {
        let mut wanted = "applinks:".to_owned();
        wanted.append(domain);
        contains_str(&self.associated_domains, wanted.as_str())
    }

    pub fn get_problems(&self, app_id: &str, domain: &str) -> (r: Vec<Problem>)
        ensures
            r@ == self.problems(app_id@, domain@),
    {
        let mut problems: Vec<Problem> = Vec::new();
        if let Some(id) = &self.application_identifier {
            if !matches_bundle_id(id.as_str(), app_id) {
                problems.push(Problem::WrongBundleIdentifier);
            }
        }
        if !self.matches_applink_domain(domain) {
            problems.push(Problem::DomainNotInApplinks);
        }
        assert(problems@ =~= self.problems(app_id@, domain@));
        problems
    }
}

/// Whether the four bytes at `o` are the magic of an embedded entitlements
/// blob, `fa de 71 71`.
pub open spec fn has_magic_at(b: Seq<u8>, o: int) -> bool {
    &&& 0 <= o
    &&& o + 4 <= b.len()
    &&& b[o] == 0xfa
    &&& b[o + 1] == 0xde
    &&& b[o + 2] == 0x71
    &&& b[o + 3] == 0x71
}

/// The first offset at or after `i` that holds the magic.
pub open spec fn first_magic_from(b: Seq<u8>, i: int) -> Option<int>
    decreases b.len() - i,
{
    if i < 0 || i + 4 > b.len() {
        None
    } else if has_magic_at(b, i) {
        Some(i)
    } else {
        first_magic_from(b, i + 1)
    }
}

/// A first magic found is a magic, at or after where the search began.
pub proof fn lemma_first_magic_is_magic(b: Seq<u8>, i: int)
    ensures
        first_magic_from(b, i) matches Some(o) ==> has_magic_at(b, o) && i <= o,
    decreases b.len() - i,
{
    if 0 <= i && i + 4 <= b.len() && !has_magic_at(b, i) {
        lemma_first_magic_is_magic(b, i + 1);
    }
}

/// The big-endian 32-bit number at `i`.
pub open spec fn be32(b: Seq<u8>, i: int) -> int {
    b[i] * 16777216 + b[i + 1] * 65536 + b[i + 2] * 256 + b[i + 3]
}

/// Where the entitlements plist lies in a code signature: its first byte
/// follows the 4 magic bytes and the 4 length bytes, and the length counts
/// those 8 bytes too. None if there is no magic, or the blob does not fit.
pub open spec fn plist_bounds(b: Seq<u8>) -> Option<(int, int)> {
    match first_magic_from(b, 0) {
        Some(o) => if o + 8 <= b.len() && be32(b, o + 4) >= 8 && o + be32(b, o + 4) <= b.len() {
            Some((o + 8, o + be32(b, o + 4)))
        } else {
            None
        },
        None => None,
    }
}

/// The offset of the first entitlements magic in `buf`.
pub fn find_codesign_magic_offset(buf: &[u8]) -> (r: Option<usize>)
    ensures
        match r {
            Some(o) => first_magic_from(buf@, 0) == Some(o as int),
            None => first_magic_from(buf@, 0) is None,
        },
{
    let n = buf.len();
    if n < 4 {
        return None;
    }
    let mut i: usize = 0;
    while i <= n - 4
        invariant
            n == buf@.len(),
            n >= 4,
            i <= n - 3,
            first_magic_from(buf@, i as int) == first_magic_from(buf@, 0),
        decreases n - i,
    {
        if buf[i] == 0xfa && buf[i + 1] == 0xde && buf[i + 2] == 0x71 && buf[i + 3] == 0x71 {
            return Some(i);
        }
        i += 1;
    }
    None
}

/// The offset just past the magic and length of the first entitlements
/// blob, and the length the blob declares (which counts those 8 bytes).
/// None if there is no magic, or no room for the length after it.
pub fn find_codesign_plist(buf: &[u8]) -> (r: Option<(usize, usize)>)
    ensures
        match r {
            Some((start, len)) => exists|o: int|
                first_magic_from(buf@, 0) == Some(o) && start == o + 8 && o + 8 <= buf@.len()
                    && len == be32(buf@, o + 4),
            None => match first_magic_from(buf@, 0) {
                Some(o) => o + 8 > buf@.len(),
                None => true,
            },
        },
{
    proof {
        lemma_first_magic_is_magic(buf@, 0);
    }
    match find_codesign_magic_offset(buf) {
        Some(offset) => {
            if buf.len() - offset < 8 {
                return None;
            }
            let idx = offset + 4;
            let b0 = buf[idx] as u32;
            let b1 = buf[idx + 1] as u32;
            let b2 = buf[idx + 2] as u32;
            let b3 = buf[idx + 3] as u32;
            let len = b0 * 16777216 + b1 * 65536 + b2 * 256 + b3;
            Some((idx + 4, len as usize))
        },
        None => None,
    }
}

/// The byte range `[start, end)` of the entitlements plist in a code
/// signature.
pub fn codesign_plist_bounds(data: &[u8]) -> (r: Option<(usize, usize)>)
    ensures
        match r {
            Some((start, end)) => plist_bounds(data@) == Some((start as int, end as int)),
            None => plist_bounds(data@) is None,
        },
{
    match find_codesign_plist(data) {
        Some((start, length)) => {
            if length < 8 || length - 8 > data.len() - start {
                return None;
            }
            Some((start, start + (length - 8)))
        },
        None => None,
    }
}

} // verus!
