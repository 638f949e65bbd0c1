//! Apple app site association documents: which app claims which path, and
//! the problems a fetched document has.

use vstd::prelude::*;
use crate::glob::{aasa_match_path, path_claimed};
use crate::report::{
    no_content_type_header_message, no_content_type_message, status_code_message, status_message,
    wrong_content_type_header_message, wrong_content_type_message,
};
use crate::text::{decimal, decimal_string, matches_bundle_id, opt_str, same_bundle, str_eq, strs};
use crate::url::Url;

verus! {

/// The largest association file Apple accepts, in bytes.
pub const MAX_AASA_SIZE: usize = 128000;

/// An association document: `{ "applinks": { "apps": [..], "details": [..] } }`.
#[derive(Debug)]
pub struct AppleAppSiteAssociation {
    pub applinks: AppLinks,
}

#[derive(Debug)]
pub struct AppLinks {
    pub apps: Vec<String>,
    pub details: Vec<AppLinkDetail>,
}

/// One app's claim: its identifier `TEAMID.bundle.id` and its path patterns,
/// in the order in which they are tried.
#[derive(Debug)]
pub struct AppLinkDetail {
    pub app_id: String,
    pub paths: Vec<String>,
}

/// An app that claims the requested path, and the pattern that claimed it.
#[derive(Debug)]
pub struct Match {
    pub bundle_id: String,
    pub pattern: String,
}

/// The first pattern at or after `i` that claims `path`.
pub open spec fn first_claim_from(patterns: Seq<Seq<char>>, path: Seq<char>, i: int) -> Option<
    Seq<char>,
>
    decreases patterns.len() - i,
{
    if i < 0 || i >= patterns.len() {
        None
    } else if path_claimed(patterns[i], path) {
        Some(patterns[i])
    } else {
        first_claim_from(patterns, path, i + 1)
    }
}

/// The first pattern, in document order, that claims `path`.
pub open spec fn first_claim(patterns: Seq<Seq<char>>, path: Seq<char>) -> Option<Seq<char>> {
    first_claim_from(patterns, path, 0)
}

/// The matches of the entries for `app_id` that claim `path`, in document order.
pub open spec fn matches_of(details: Seq<AppLinkDetail>, app_id: Seq<char>, path: Seq<char>) -> Seq<
    (Seq<char>, Seq<char>),
>
    decreases details.len(),
{
    if details.len() == 0 {
        seq![]
    } else {
        let before = matches_of(details.drop_last(), app_id, path);
        let d = details.last();
        match first_claim(strs(d.paths@), path) {
            Some(p) => if same_bundle(d.app_id@, app_id) {
                before.push((d.app_id@, p))
            } else {
                before
            },
            None => before,
        }
    }
}

/// The identifiers of the entries, for any app, with a pattern that claims `path`.
pub open spec fn claiming_app_ids(details: Seq<AppLinkDetail>, path: Seq<char>) -> Seq<Seq<char>>
    decreases details.len(),
{
    if details.len() == 0 {
        seq![]
    } else {
        let before = claiming_app_ids(details.drop_last(), path);
        let d = details.last();
        if first_claim(strs(d.paths@), path) is Some {
            before.push(d.app_id@)
        } else {
            before
        }
    }
}

impl View for Match {
    type V = (Seq<char>, Seq<char>);

    open spec fn view(&self) -> (Seq<char>, Seq<char>) {
        (self.bundle_id@, self.pattern@)
    }
}

impl AppLinkDetail {
    /// Whether this entry is for the app `app_id`: the entry's identifier
    /// without its team prefix equals it.
    pub fn matches(&self, app_id: &str) -> (r: bool)
        ensures
            r == same_bundle(self.app_id@, app_id@),
    {
        matches_bundle_id(self.app_id.as_str(), app_id)
    }
}

/// The first of the entry's patterns, in document order, that claims `path`.
pub fn aasa_match(app: &AppLinkDetail, path: &str) -> (r: Option<String>)
    ensures
        opt_str(r) == first_claim(strs(app.paths@), path@),
{
    let ghost pats = strs(app.paths@);
    let mut i: usize = 0;
    while i < app.paths.len()
        invariant
            i <= app.paths@.len(),
            pats == strs(app.paths@),
            first_claim_from(pats, path@, i as int) == first_claim(pats, path@),
        decreases app.paths@.len() - i,
    {
        if aasa_match_path(app.paths[i].as_str(), path) {
            return Some(app.paths[i].clone());
        }
        i += 1;
    }
    None
}

/// For each entry for `app_id` whose patterns claim `path`, the entry's
/// identifier and the first pattern that claims it.
pub fn find_matches(aasa: &AppleAppSiteAssociation, app_id: &str, path: &str) -> (r: Vec<Match>)
    ensures
        r@.map_values(|m: Match| m@) == matches_of(aasa.applinks.details@, app_id@, path@),
{
    let details = &aasa.applinks.details;
    let mut res: Vec<Match> = Vec::new();
    let mut i: usize = 0;
    while i < details.len()
        invariant
            i <= details@.len(),
            details == &aasa.applinks.details,
            res@.map_values(|m: Match| m@) == matches_of(details@.take(i as int), app_id@, path@),
        decreases details@.len() - i,
    {
        let d = &details[i];
        let ghost before = res@.map_values(|m: Match| m@);
        assert(details@.take(i + 1).drop_last() =~= details@.take(i as int));
        if let Some(pattern) = aasa_match(d, path) {
            if d.matches(app_id) {
                let m = Match { bundle_id: d.app_id.clone(), pattern };
                res.push(m);
                assert(res@.map_values(|m: Match| m@) =~= before.push(m@));
            }
        }
        i += 1;
    }
    assert(details@.take(details@.len() as int) =~= details@);
    res
}

/// A problem of a fetched association document.
#[derive(Debug)]
pub enum Problem {
    WrongStatusCode(u16),
    NoContentTypeHeader,
    WrongContentTypeHeader(String),
    ContentTooLarge(usize),
    InvalidFileFormat,
    NoMatch,
}

/// The view of a [`Problem`].
pub enum ProblemView {
    WrongStatusCode(u16),
    NoContentTypeHeader,
    WrongContentTypeHeader(Seq<char>),
    ContentTooLarge(usize),
    InvalidFileFormat,
    NoMatch,
}

impl View for Problem {
    type V = ProblemView;

    open spec fn view(&self) -> ProblemView {
        match self {
            Problem::WrongStatusCode(sc) => ProblemView::WrongStatusCode(*sc),
            Problem::NoContentTypeHeader => ProblemView::NoContentTypeHeader,
            Problem::WrongContentTypeHeader(ct) => ProblemView::WrongContentTypeHeader(ct@),
            Problem::ContentTooLarge(n) => ProblemView::ContentTooLarge(*n),
            Problem::InvalidFileFormat => ProblemView::InvalidFileFormat,
            Problem::NoMatch => ProblemView::NoMatch,
        }
    }
}

impl ProblemView {
    /// The message shown for the problem.
    pub open spec fn message(self) -> Seq<char> {
        match self {
            ProblemView::WrongStatusCode(sc) => status_message(sc),
            ProblemView::NoContentTypeHeader => no_content_type_message(),
            ProblemView::WrongContentTypeHeader(ct) => wrong_content_type_message(ct),
            ProblemView::ContentTooLarge(n) => "File too large "@ + decimal(n as nat)
                + " bytes (uncompressed). Maximum allowed is 128KB"@,
            ProblemView::InvalidFileFormat => "Failed to parse file."@,
            ProblemView::NoMatch => "No bundle id, path combination matches your request."@,
        }
    }
}

impl Problem {
    pub fn to_string_human(&self) -> (r: String)
        ensures
            r@ == self@.message(),
    {
        match self {
            Problem::WrongStatusCode(sc) => status_code_message(*sc),
            Problem::NoContentTypeHeader => no_content_type_header_message(),
            Problem::WrongContentTypeHeader(ct) => wrong_content_type_header_message(ct.as_str()),
            Problem::ContentTooLarge(n) => {
                let mut s = "File too large ".to_owned();
                let digits = decimal_string(*n as u64);
                s.append(digits.as_str());
                s.append(" bytes (uncompressed). Maximum allowed is 128KB");
                s
            },
            Problem::InvalidFileFormat => "Failed to parse file.".to_owned(),
            Problem::NoMatch => "No bundle id, path combination matches your request.".to_owned(),
        }
    }
}

/// What was learned from fetching one association document.
#[derive(Debug)]
pub struct CheckResult {
    pub uri: Url,
    pub path_to_check: String,
    pub app_id: String,
    pub status_code: Option<u16>,
    pub content_type: Option<String>,
    pub content: Option<Vec<u8>>,
    pub content_parsed: Option<AppleAppSiteAssociation>,
    pub matches: Option<Vec<Match>>,
}

/// A status other than 200.
pub open spec fn status_problems(sc: Option<u16>) -> Seq<ProblemView> {
    match sc {
        Some(c) => if c != 200 {
            seq![ProblemView::WrongStatusCode(c)]
        } else {
            seq![]
        },
        None => seq![],
    }
}

/// A missing `Content-Type`, or one other than `application/json`.
pub open spec fn content_type_problems(ct: Option<Seq<char>>) -> Seq<ProblemView> {
    match ct {
        Some(c) => if c != "application/json"@ {
            seq![ProblemView::WrongContentTypeHeader(c)]
        } else {
            seq![]
        },
        None => seq![ProblemView::NoContentTypeHeader],
    }
}

impl CheckResult {
    /// The problems of the document, each check independent of the others:
    /// status, content type, size, parse failure, and no match.
    pub open spec fn problems(&self) -> Seq<ProblemView> {
        status_problems(self.status_code) + content_type_problems(opt_str(self.content_type)) + (
        match self.content {
            Some(c) => if c@.len() > MAX_AASA_SIZE {
                seq![ProblemView::ContentTooLarge(c@.len() as usize)]
            } else {
                seq![]
            },
            None => seq![],
        }) + (if self.content is Some && self.content_parsed is None {
            seq![ProblemView::InvalidFileFormat]
        } else {
            seq![]
        }) + (match self.matches {
            Some(m) => if m@.len() == 0 {
                seq![ProblemView::NoMatch]
            } else {
                seq![]
            },
            None => seq![],
        })
    }

    /// A result for `uri` before anything was fetched.
    pub fn new(uri: Url, path_to_check: String, app_id: String) -> (r: CheckResult)
        ensures
            r.uri == uri,
            r.path_to_check == path_to_check,
            r.app_id == app_id,
            r.status_code is None,
            r.content_type is None,
            r.content is None,
            r.content_parsed is None,
            r.matches is None,
    {
        CheckResult {
            uri,
            path_to_check,
            app_id,
            status_code: None,
            content_type: None,
            content: None,
            content_parsed: None,
            matches: None,
        }
    }

    /// Every problem of the document, in a fixed order.
    pub fn get_problems(&self) -> (r: Vec<Problem>)
        ensures
            r@.map_values(|p: Problem| p@) == self.problems(),
    {
        let mut problems: Vec<Problem> = Vec::new();
        if let Some(sc) = self.status_code {
            if sc != 200 {
                problems.push(Problem::WrongStatusCode(sc));
            }
        }
        let ghost p1 = problems@.map_values(|p: Problem| p@);
        assert(p1 =~= status_problems(self.status_code));
        if let Some(ct) = &self.content_type {
            if !str_eq(ct.as_str(), "application/json") {
                problems.push(Problem::WrongContentTypeHeader(ct.clone()));
            }
        } else {
            problems.push(Problem::NoContentTypeHeader);
        }
        let ghost p2 = problems@.map_values(|p: Problem| p@);
        assert(p2 =~= p1 + content_type_problems(opt_str(self.content_type)));
        if let Some(content) = &self.content {
            if content.len() > MAX_AASA_SIZE {
                problems.push(Problem::ContentTooLarge(content.len()));
            }
        }
        let ghost p3 = problems@.map_values(|p: Problem| p@);
        if self.content.is_some() && self.content_parsed.is_none() {
            problems.push(Problem::InvalidFileFormat);
        }
        let ghost p4 = problems@.map_values(|p: Problem| p@);
        if let Some(matches) = &self.matches {
            if matches.len() == 0 {
                problems.push(Problem::NoMatch);
            }
        }
        assert(problems@.map_values(|p: Problem| p@) =~= self.problems());
        problems
    }
}

/// A document that fails several checks reports every one of them: a wrong
/// content type, an oversized body and a parse failure all appear, in that
/// order, whatever else holds.
pub proof fn all_failed_checks_reported(r: CheckResult)
    requires
        r.content_type is Some ==> r.content_type->0@ != "application/json"@,
        r.content is Some,
        r.content->0@.len() > MAX_AASA_SIZE,
        r.content_parsed is None,
    ensures
        ({
            let ps = r.problems();
            let ct = match r.content_type {
                Some(c) => ProblemView::WrongContentTypeHeader(c@),
                None => ProblemView::NoContentTypeHeader,
            };
            exists|i: int, j: int, k: int|
                0 <= i < j < k < ps.len() && ps[i] == ct && ps[j] == ProblemView::ContentTooLarge(
                    r.content->0@.len() as usize,
                ) && ps[k] == ProblemView::InvalidFileFormat
        }),
{
    let ps = r.problems();
    let s = status_problems(r.status_code);
    let c = content_type_problems(opt_str(r.content_type));
    let n = r.content->0@.len() as usize;
    let ct = match r.content_type {
        Some(t) => ProblemView::WrongContentTypeHeader(t@),
        None => ProblemView::NoContentTypeHeader,
    };
    assert(c =~= seq![ct]);
    let rest = seq![ProblemView::ContentTooLarge(n)] + seq![ProblemView::InvalidFileFormat];
    let m = match r.matches {
        Some(ms) => if ms@.len() == 0 {
            seq![ProblemView::NoMatch]
        } else {
            seq![]
        },
        None => seq![],
    };
    assert(ps =~= s + seq![ct] + rest + m);
    let i = s.len() as int;
    assert(ps[i] == ct);
    assert(ps[i + 1] == ProblemView::ContentTooLarge(n));
    assert(ps[i + 2] == ProblemView::InvalidFileFormat);
}

/// The outcome of a fetched association document: its status and content
/// type, and, when the status is 200, its body and what the body parsed to.
/// A parsed document is searched for the entries of `app_id` that claim
/// `path_to_check`.
pub fn check_response(
    uri: Url,
    path_to_check: &str,
    app_id: &str,
    status: u16,
    content_type: Option<String>,
    body: Vec<u8>,
    parsed: Option<AppleAppSiteAssociation>,
) -> (r: CheckResult)
    ensures
        r.uri == uri,
        r.path_to_check@ == path_to_check@,
        r.app_id@ == app_id@,
        r.status_code == Some(status),
        r.content_type == content_type,
        status != 200 ==> r.content is None && r.content_parsed is None && r.matches is None,
        status == 200 ==> r.content == Some(body),
        status == 200 ==> r.content_parsed == parsed,
        status == 200 ==> match parsed {
            Some(a) => r.matches is Some && r.matches->0@.map_values(|m: Match| m@) == matches_of(
                a.applinks.details@,
                app_id@,
                path_to_check@,
            ),
            None => r.matches is None,
        },
{
    let mut res = CheckResult::new(uri, path_to_check.to_owned(), app_id.to_owned());
    res.status_code = Some(status);
    res.content_type = content_type;
    if status != 200 {
        return res;
    }
    res.content = Some(body);
    if let Some(a) = parsed {
        res.matches = Some(find_matches(&a, app_id, path_to_check));
        res.content_parsed = Some(a);
    }
    res
}

/// Why an association document yields no app identifier.
#[derive(Debug)]
pub enum AppError {
    AASANotFound,
    ContentTypeNotSet,
    ContentTypeWrong(String),
    FileTooLarge(usize),
    InvalidFileFormat,
    NoMatchingPattern,
}

/// The view of an [`AppError`].
pub enum AppErrorView {
    AASANotFound,
    ContentTypeNotSet,
    ContentTypeWrong(Seq<char>),
    FileTooLarge(usize),
    InvalidFileFormat,
    NoMatchingPattern,
}

impl View for AppError {
    type V = AppErrorView;

    open spec fn view(&self) -> AppErrorView {
        match self {
            AppError::AASANotFound => AppErrorView::AASANotFound,
            AppError::ContentTypeNotSet => AppErrorView::ContentTypeNotSet,
            AppError::ContentTypeWrong(s) => AppErrorView::ContentTypeWrong(s@),
            AppError::FileTooLarge(n) => AppErrorView::FileTooLarge(*n),
            AppError::InvalidFileFormat => AppErrorView::InvalidFileFormat,
            AppError::NoMatchingPattern => AppErrorView::NoMatchingPattern,
        }
    }
}

/// The outcome of the first-failure check: the first check that fails, in
/// the order status, content type, size, parse, or else the identifiers of
/// the entries that claim `path`, unless there are none.
pub open spec fn first_failure(
    status: u16,
    content_type: Option<Seq<char>>,
    body_len: usize,
    parsed: Option<AppleAppSiteAssociation>,
    path: Seq<char>,
) -> Result<Seq<Seq<char>>, AppErrorView> {
    if status != 200 {
        Err(AppErrorView::AASANotFound)
    } else if content_type is None {
        Err(AppErrorView::ContentTypeNotSet)
    } else if content_type->0 != "application/json"@ {
        Err(AppErrorView::ContentTypeWrong(content_type->0))
    } else if body_len > MAX_AASA_SIZE {
        Err(AppErrorView::FileTooLarge(body_len))
    } else if parsed is None {
        Err(AppErrorView::InvalidFileFormat)
    } else {
        let ids = claiming_app_ids(parsed->0.applinks.details@, path);
        if ids.len() == 0 {
            Err(AppErrorView::NoMatchingPattern)
        } else {
            Ok(ids)
        }
    }
}

/// The identifiers of the apps whose entries claim `path`, or the first
/// check that the document fails.
pub fn matching_app_ids(
    status: u16,
    content_type: &Option<String>,
    body_len: usize,
    parsed: &Option<AppleAppSiteAssociation>,
    path: &str,
) -> (r: Result<Vec<String>, AppError>)
    ensures
        match r {
            Ok(ids) => first_failure(status, opt_str(*content_type), body_len, *parsed, path@)
                == Ok::<Seq<Seq<char>>, AppErrorView>(strs(ids@)),
            Err(e) => first_failure(status, opt_str(*content_type), body_len, *parsed, path@)
                == Err::<Seq<Seq<char>>, AppErrorView>(e@),
        },
{
    if status != 200 {
        return Err(AppError::AASANotFound);
    }
    match content_type {
        Some(s) => {
            if !str_eq(s.as_str(), "application/json") {
                return Err(AppError::ContentTypeWrong(s.clone()));
            }
        },
        None => {
            return Err(AppError::ContentTypeNotSet);
        },
    }
    if body_len > MAX_AASA_SIZE {
        return Err(AppError::FileTooLarge(body_len));
    }
    let aasa = match parsed {
        Some(a) => a,
        None => {
            return Err(AppError::InvalidFileFormat);
        },
    };
    let details = &aasa.applinks.details;
    let mut res: Vec<String> = Vec::new();
    let mut i: usize = 0;
    while i < details.len()
        invariant
            i <= details@.len(),
            details == &aasa.applinks.details,
            strs(res@) == claiming_app_ids(details@.take(i as int), path@),
        decreases details@.len() - i,
    {
        let ghost before = strs(res@);
        assert(details@.take(i + 1).drop_last() =~= details@.take(i as int));
        if aasa_match(&details[i], path).is_some() {
            res.push(details[i].app_id.clone());
            assert(strs(res@) =~= before.push(details@[i as int].app_id@));
        }
        i += 1;
    }
    assert(details@.take(details@.len() as int) =~= details@);
    if res.len() == 0 {
        return Err(AppError::NoMatchingPattern);
    }
    Ok(res)
}

} // verus!
