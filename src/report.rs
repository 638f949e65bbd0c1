//! Wording shared by the problem reports.

use vstd::prelude::*;
use crate::aasa;
use crate::entitlements;
use crate::text::{decimal, decimal_string, strs};

verus! {

/// The message for an HTTP status other than 200; redirects are named as such.
pub open spec fn status_message(sc: u16) -> Seq<char> {
    if sc == 301 || sc == 302 {
        "Invalid status code '"@ + decimal(sc as nat) + "'. Redirects are not allowed."@
    } else {
        "Invalid status code '"@ + decimal(sc as nat) + "'."@
    }
}

/// The message for a response without a `Content-Type` header.
pub open spec fn no_content_type_message() -> Seq<char> {
    "No 'Content-Type' HTTP header sent. Must be 'application/json'."@
}

/// The message for a response with the wrong `Content-Type` header.
pub open spec fn wrong_content_type_message(ct: Seq<char>) -> Seq<char> {
    "Wrong 'Content-Type' header sent: '"@ + ct + "'. Must be 'application/json'"@
}

pub fn status_code_message(sc: u16) -> (r: String)
    ensures
        r@ == status_message(sc),
{
    let mut s = "Invalid status code '".to_owned();
    let n = decimal_string(sc as u64);
    s.append(n.as_str());
    if sc == 301 || sc == 302 {
        s.append("'. Redirects are not allowed.");
    } else {
        s.append("'.");
    }
    s
}

pub fn no_content_type_header_message() -> (r: String)
    ensures
        r@ == no_content_type_message(),
{
    "No 'Content-Type' HTTP header sent. Must be 'application/json'.".to_owned()
}

pub fn wrong_content_type_header_message(ct: &str) -> (r: String)
    ensures
        r@ == wrong_content_type_message(ct@),
{
    let mut s = "Wrong 'Content-Type' header sent: '".to_owned();
    s.append(ct);
    s.append("'. Must be 'application/json'");
    s
}

/// The messages of a list of problems, in order.
pub open spec fn problem_messages(
    aasa_problems: Option<Vec<aasa::Problem>>,
    entitlement_problems: Option<Vec<entitlements::Problem>>,
) -> Seq<Seq<char>> {
    (match aasa_problems {
        Some(ps) => ps@.map_values(|p: aasa::Problem| p@.message()),
        None => seq![],
    }) + (match entitlement_problems {
        Some(ps) => ps@.map_values(|p: entitlements::Problem| p.message()),
        None => seq![],
    })
}

/// One line per problem: the association file's problems, then the
/// entitlements' problems.
pub fn report_problems_human(
    aasa_problems: Option<Vec<aasa::Problem>>,
    entitlement_problems: Option<Vec<entitlements::Problem>>,
) -> (r: Vec<String>)
    ensures
        strs(r@) == problem_messages(aasa_problems, entitlement_problems),
{
    let mut lines: Vec<String> = Vec::new();
    if let Some(ps) = &aasa_problems {
        let mut i: usize = 0;
        while i < ps.len()
            invariant
                i <= ps@.len(),
                strs(lines@) == ps@.take(i as int).map_values(|p: aasa::Problem| p@.message()),
            decreases ps@.len() - i,
        {
            let ghost before = strs(lines@);
            let line = ps[i].to_string_human();
            lines.push(line);
            assert(strs(lines@) =~= before.push(line@));
            assert(ps@.take(i + 1).map_values(|p: aasa::Problem| p@.message()) =~= ps@.take(
                i as int,
            ).map_values(|p: aasa::Problem| p@.message()).push(ps@[i as int]@.message()));
            i += 1;
        }
        assert(ps@.take(ps@.len() as int) =~= ps@);
    }
    let ghost head = strs(lines@);
    let mut j: usize = 0;
    if let Some(ps) = &entitlement_problems {
        while j < ps.len()
            invariant
                j <= ps@.len(),
                strs(lines@) == head + ps@.take(j as int).map_values(
                    |p: entitlements::Problem| p.message(),
                ),
            decreases ps@.len() - j,
        {
            let ghost before = strs(lines@);
            let line = ps[j].to_string_human();
            lines.push(line);
            assert(strs(lines@) =~= before.push(line@));
            assert(ps@.take(j + 1).map_values(|p: entitlements::Problem| p.message()) =~= ps@.take(
                j as int,
            ).map_values(|p: entitlements::Problem| p.message()).push(ps@[j as int].message()));
            j += 1;
        }
        assert(ps@.take(ps@.len() as int) =~= ps@);
    }
    assert(strs(lines@) =~= problem_messages(aasa_problems, entitlement_problems));
    lines
}

} // verus!
