use vstd::prelude::*;

use crate::infer::{infer_context, inferred_context};
use crate::paths::{opt_text, tilde_expanded};
use crate::repo_url::texts;
use crate::text::same_text;

verus! {

/// What the completion of repository names does in a given directory.
#[derive(Debug)]
pub enum ListingPlan {
    /// The directory lies outside `<workspace>/<host>/<organization>`.
    NoContext,
    /// The repositories of this host cannot be listed.
    UnsupportedHost(String),
    /// List the repositories of this organization.
    List(String),
}

/// The only host whose repositories can be listed.
pub open spec fn is_listing_host(host: Seq<char>) -> bool {
    host == "github.com"@
}

/// Whether the repositories of `host` can be listed.
pub fn listing_supported(host: &str) -> (r: bool)
    ensures
        r == is_listing_host(host@),
{
    same_text(host, "github.com")
}

/// What to do in `cwd`: list the organization inferred from it where its
/// host can be listed.
pub fn plan_listing(workspace: &str, home: Option<&str>, cwd: &str) -> (r: ListingPlan)
    ensures
        match inferred_context(tilde_expanded(workspace@, opt_text(home)), cwd@) {
            None => r is NoContext,
            Some((host, org)) => if is_listing_host(host) {
                r is List && r->List_0@ == org
            } else {
                r is UnsupportedHost && r->UnsupportedHost_0@ == host
            },
        },
{
    match infer_context(workspace, home, cwd) {
        None => ListingPlan::NoContext,
        Some((host, org)) => if listing_supported(host.as_str()) {
            ListingPlan::List(org)
        } else {
            ListingPlan::UnsupportedHost(host)
        },
    }
}

/// The command that lists up to 50 repositories of `org` as a JSON array
/// of objects with a `name` field: program first, then its arguments.
pub fn listing_command(org: &str) -> (r: Vec<String>)
    ensures
        texts(r@) == seq![
            "gh"@,
            "repo"@,
            "list"@,
            org@,
            "--limit"@,
            "50"@,
            "--json"@,
            "name"@,
        ],
{
    let r = vec![
        String::from_str("gh"),
        String::from_str("repo"),
        String::from_str("list"),
        String::from_str(org),
        String::from_str("--limit"),
        String::from_str("50"),
        String::from_str("--json"),
        String::from_str("name"),
    ];
    assert(texts(r@) =~= seq!["gh"@, "repo"@, "list"@, org@, "--limit"@, "50"@, "--json"@, "name"@]);
    r
}

/// The names that are present, in order.
pub open spec fn present_names(items: Seq<Option<String>>) -> Seq<Seq<char>>
    decreases items.len(),
{
    if items.len() == 0 {
        Seq::empty()
    } else {
        let p = present_names(items.drop_last());
        match items.last() {
            Some(n) => p.push(n@),
            None => p,
        }
    }
}

/// The repository names of a listing: the `name` field of each entry that
/// has one, in the order listed.
pub fn repo_names(items: &Vec<Option<String>>) -> (r: Vec<String>)
    ensures
        texts(r@) == present_names(items@),
{
    let mut r: Vec<String> = Vec::new();
    let mut i: usize = 0;
    while i < items.len()
        invariant
            i <= items@.len(),
            texts(r@) == present_names(items@.take(i as int)),
        decreases items@.len() - i,
    {
        assert(items@.take(i + 1).drop_last() =~= items@.take(i as int));
        match &items[i] {
            Some(n) => {
                let copy = n.clone();
                assert(texts(r@.push(copy)) =~= texts(r@).push(n@));
                r.push(copy);
            },
            None => {},
        }
        i = i + 1;
    }
    assert(items@.take(i as int) =~= items@);
    r
}

} // verus!
