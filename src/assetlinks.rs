//! Digital Asset Links statements (`assetlinks.json`): whether a site
//! delegates the handling of its URLs to an Android app.

use vstd::prelude::*;
use crate::report::{
    no_content_type_header_message, no_content_type_message, status_code_message, status_message,
    wrong_content_type_header_message, wrong_content_type_message,
};
use crate::text::{contains_str, opt_str, str_eq, strs};
use crate::url::Url;

verus! {

/// The app a statement is about.
#[derive(Debug)]
pub struct AppTarget {
    pub namespace: String,
    pub package_name: String,
    pub sha256_cert_fingerprints: Vec<String>,
}

/// One statement: its relations and its target.
#[derive(Debug)]
pub struct Assetlink {
    pub relation: Vec<String>,
    pub target: AppTarget,
}

/// A problem of a fetched statement list.
#[derive(Debug)]
pub enum Problem {
    ForbiddenByRobotsTxt,
    WrongStatusCode(u16),
    NoContentTypeHeader,
    WrongContentTypeHeader(String),
    InvalidFileFormat,
    AppIdNotInAssetlinks,
    MissingHandleAllUrlsRelation,
}

/// The view of a [`Problem`].
pub enum ProblemView {
    ForbiddenByRobotsTxt,
    WrongStatusCode(u16),
    NoContentTypeHeader,
    WrongContentTypeHeader(Seq<char>),
    InvalidFileFormat,
    AppIdNotInAssetlinks,
    MissingHandleAllUrlsRelation,
}

impl View for Problem {
    type V = ProblemView;

    open spec fn view(&self) -> ProblemView {
        match self {
            Problem::ForbiddenByRobotsTxt => ProblemView::ForbiddenByRobotsTxt,
            Problem::WrongStatusCode(sc) => ProblemView::WrongStatusCode(*sc),
            Problem::NoContentTypeHeader => ProblemView::NoContentTypeHeader,
            Problem::WrongContentTypeHeader(ct) => ProblemView::WrongContentTypeHeader(ct@),
            Problem::InvalidFileFormat => ProblemView::InvalidFileFormat,
            Problem::AppIdNotInAssetlinks => ProblemView::AppIdNotInAssetlinks,
            Problem::MissingHandleAllUrlsRelation => ProblemView::MissingHandleAllUrlsRelation,
        }
    }
}

impl ProblemView {
    /// The message shown for the problem.
    pub open spec fn message(self) -> Seq<char> {
        match self {
            ProblemView::ForbiddenByRobotsTxt => "Access to assetlinks.json forbidden by robots.txt"@,
            ProblemView::WrongStatusCode(sc) => status_message(sc),
            ProblemView::NoContentTypeHeader => no_content_type_message(),
            ProblemView::WrongContentTypeHeader(ct) => wrong_content_type_message(ct),
            ProblemView::InvalidFileFormat => "Failed to parse file."@,
            ProblemView::AppIdNotInAssetlinks => "The app id you specified was not found in assetlinks.json."@,
            ProblemView::MissingHandleAllUrlsRelation => "The entry for the specified app id is missing the relation 'delegate_permission/common.handle_all_urls'."@,
        }
    }
}

impl Problem {
    pub fn to_string_human(&self) -> (r: String)
        ensures
            r@ == self@.message(),
    {
        match self {
            Problem::ForbiddenByRobotsTxt => "Access to assetlinks.json forbidden by robots.txt".to_owned(),
            Problem::WrongStatusCode(sc) => status_code_message(*sc),
            Problem::NoContentTypeHeader => no_content_type_header_message(),
            Problem::WrongContentTypeHeader(ct) => wrong_content_type_header_message(ct.as_str()),
            Problem::InvalidFileFormat => "Failed to parse file.".to_owned(),
            Problem::AppIdNotInAssetlinks => "The app id you specified was not found in assetlinks.json.".to_owned(),
            Problem::MissingHandleAllUrlsRelation => "The entry for the specified app id is missing the relation 'delegate_permission/common.handle_all_urls'.".to_owned(),
        }
    }
}

/// Whether some statement targets the package `app_id`.
pub open spec fn targets_app(links: Seq<Assetlink>, app_id: Seq<char>) -> bool {
    exists|i: int| 0 <= i < links.len() && (#[trigger] links[i]).target.package_name@ == app_id
}

/// Whether some statement targets the package `app_id` with the relation
/// that lets the app handle all URLs of the site.
pub open spec fn delegates_all_urls(links: Seq<Assetlink>, app_id: Seq<char>) -> bool {
    exists|i: int|
        0 <= i < links.len() && (#[trigger] links[i]).target.package_name@ == app_id && strs(
            links[i].relation@,
        ).contains("delegate_permission/common.handle_all_urls"@)
}

/// What was learned from fetching one statement list.
#[derive(Debug)]
pub struct CheckResult {
    pub uri: Url,
    pub app_id: String,
    pub status_code: Option<u16>,
    pub content_type: Option<String>,
    pub content: Option<Vec<u8>>,
    pub content_parsed: Option<Vec<Assetlink>>,
}

impl CheckResult {
    /// The problems of the statement list, each check independent of the
    /// others: status, content type, parse failure, and then whether the
    /// app is named and granted the handling of all URLs.
    pub open spec fn problems(&self) -> Seq<ProblemView> {
        (match self.status_code {
            Some(c) => if c != 200 {
                seq![ProblemView::WrongStatusCode(c)]
            } else {
                seq![]
            },
            None => seq![],
        }) + (match opt_str(self.content_type) {
            Some(c) => if c != "application/json"@ {
                seq![ProblemView::WrongContentTypeHeader(c)]
            } else {
                seq![]
            },
            None => seq![ProblemView::NoContentTypeHeader],
        }) + (if self.content is Some && self.content_parsed is None {
            seq![ProblemView::InvalidFileFormat]
        } else {
            seq![]
        }) + (match self.content_parsed {
            Some(links) => if !targets_app(links@, self.app_id@) {
                seq![ProblemView::AppIdNotInAssetlinks]
            } else if !delegates_all_urls(links@, self.app_id@) {
                seq![ProblemView::MissingHandleAllUrlsRelation]
            } else {
                seq![]
            },
            None => seq![],
        })
    }

    /// A result for `uri` before anything was fetched.
    pub fn new(uri: Url, app_id: String) -> (r: CheckResult)
        ensures
            r.uri == uri,
            r.app_id == app_id,
            r.status_code is None,
            r.content_type is None,
            r.content is None,
            r.content_parsed is None,
    {
        CheckResult {
            uri,
            app_id,
            status_code: None,
            content_type: None,
            content: None,
            content_parsed: None,
        }
    }

    /// Every problem of the statement list, in a fixed order.
    pub fn get_problems(&self) -> (r: Vec<Problem>)
        ensures
            r@.map_values(|p: Problem| p@) == self.problems(),
    {
        let mut problems: Vec<Problem> = Vec::new();
        if let Some(sc) = self.status_code {
            if sc != 200 {
                problems.push(Problem::WrongStatusCode(sc));
            }
        }
        let ghost p1 = problems@.map_values(|p: Problem| p@);
        if let Some(ct) = &self.content_type {
            if !str_eq(ct.as_str(), "application/json") {
                problems.push(Problem::WrongContentTypeHeader(ct.clone()));
            }
        } else {
            problems.push(Problem::NoContentTypeHeader);
        }
        let ghost p2 = problems@.map_values(|p: Problem| p@);
        if self.content.is_some() && self.content_parsed.is_none() {
            problems.push(Problem::InvalidFileFormat);
        }
        let ghost p3 = problems@.map_values(|p: Problem| p@);
        if let Some(links) = &self.content_parsed {
            let mut named = false;
            let mut granted = false;
            let mut i: usize = 0;
            while i < links.len()
                invariant
                    i <= links@.len(),
                    named == exists|j: int|
                        0 <= j < i && (#[trigger] links@[j]).target.package_name@ == self.app_id@,
                    granted == exists|j: int|
                        0 <= j < i && (#[trigger] links@[j]).target.package_name@ == self.app_id@
                            && strs(links@[j].relation@).contains(
                            "delegate_permission/common.handle_all_urls"@,
                        ),
                decreases links@.len() - i,
            {
                let link = &links[i];
                if str_eq(link.target.package_name.as_str(), self.app_id.as_str()) {
                    named = true;
                    if contains_str(&link.relation, "delegate_permission/common.handle_all_urls") {
                        granted = true;
                    }
                }
                i += 1;
            }
            if !named {
                problems.push(Problem::AppIdNotInAssetlinks);
            } else if !granted {
                problems.push(Problem::MissingHandleAllUrlsRelation);
            }
        }
        assert(problems@.map_values(|p: Problem| p@) =~= self.problems());
        problems
    }
}

/// The outcome of a fetched statement list: its status and content type,
/// and, when the status is 200, its body and what the body parsed to.
pub fn check_response(
    uri: Url,
    app_id: &str,
    status: u16,
    content_type: Option<String>,
    body: Vec<u8>,
    parsed: Option<Vec<Assetlink>>,
) -> (r: CheckResult)
    ensures
        r.uri == uri,
        r.app_id@ == app_id@,
        r.status_code == Some(status),
        r.content_type == content_type,
        status != 200 ==> r.content is None && r.content_parsed is None,
        status == 200 ==> r.content == Some(body) && r.content_parsed == parsed,
{
    let mut res = CheckResult::new(uri, app_id.to_owned());
    res.status_code = Some(status);
    res.content_type = content_type;
    if status != 200 {
        return res;
    }
    res.content = Some(body);
    res.content_parsed = parsed;
    res
}

} // verus!
