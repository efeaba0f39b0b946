use vstd::prelude::*;

use crate::repo_url::{texts, CloneError, RepoUrl};
use crate::text::{clone_all, ends_with, same_text};

verus! {

pub open spec fn git_suffix() -> Seq<char> {
    seq!['.', 'g', 'i', 't']
}

pub open spec fn scm() -> Seq<char> {
    seq!['s', 'c', 'm']
}

/// `s` without a trailing `.git`, where it has one.
pub open spec fn strip_git(s: Seq<char>) -> Seq<char> {
    if ends_with(s, git_suffix()) {
        s.subrange(0, s.len() - 4)
    } else {
        s
    }
}

/// The host of the URL, or the empty text where it has none.
pub open spec fn host_of(u: RepoUrl) -> Seq<char> {
    match u.host_view() {
        Some(h) => h,
        None => Seq::empty(),
    }
}

/// Bitbucket server shape: `/scm/<project>/<repo>`.
pub open spec fn is_bitbucket_path(segs: Seq<Seq<char>>) -> bool {
    segs.len() >= 3 && segs[0] == scm()
}

/// The organization path: every segment but the last, and for the
/// Bitbucket shape without its leading `scm`.
pub open spec fn org_of_segments(segs: Seq<Seq<char>>) -> Seq<Seq<char>> {
    if is_bitbucket_path(segs) {
        segs.subrange(1, segs.len() - 1)
    } else if segs.len() == 0 {
        Seq::empty()
    } else {
        segs.subrange(0, segs.len() - 1)
    }
}

/// The repository name: the last segment without `.git`, empty where there
/// is no segment.
pub open spec fn repo_of_segments(segs: Seq<Seq<char>>) -> Seq<char> {
    if segs.len() == 0 {
        Seq::empty()
    } else {
        strip_git(segs.last())
    }
}

/// Host, organization path and repository name of a URL.
pub struct RepoLocation {
    pub host: String,
    pub organization: Vec<String>,
    pub name: String,
}

impl RepoLocation {
    pub open spec fn view_parts(&self) -> (Seq<char>, Seq<Seq<char>>, Seq<char>) {
        (self.host@, texts(self.organization@), self.name@)
    }
}

/// The whole decomposition of a URL, `None` where it has no path segments.
pub open spec fn decomposition(u: RepoUrl) -> Option<(Seq<char>, Seq<Seq<char>>, Seq<char>)> {
    match u.segments_view() {
        Some(segs) => Some((host_of(u), org_of_segments(segs), repo_of_segments(segs))),
        None => None,
    }
}

/// `s` without a trailing `.git`.
pub fn strip_git_suffix(s: &str) -> (r: String)
    ensures
        r@ == strip_git(s@),
{
    let n = s.unicode_len();
    if n >= 4 {
        let tail = s.substring_char(n - 4, n);
        proof {
            reveal_strlit(".git");
        }
        if same_text(tail, ".git") {
            assert(".git"@ =~= git_suffix());
            return String::from_str(s.substring_char(0, n - 4));
        }
        assert(".git"@ =~= git_suffix());
    }
    String::from_str(s)
}

/// The host portion of the URL, empty where it has none.
pub fn hostname_from_url(url: &RepoUrl) -> (r: String)
    ensures
        r@ == host_of(*url),
{
    match &url.host {
        Some(h) => h.clone(),
        None => String::new(),
    }
}

/// The repository name: the last path segment without `.git`.
pub fn repo_from_url(url: &RepoUrl) -> (r: Result<String, CloneError>)
    ensures
        r is Ok <==> url.segments is Some,
        r is Ok ==> r->Ok_0@ == repo_of_segments(url.segments_view().unwrap()),
        r is Err ==> r->Err_0 is NoPathSegments,
{
    match &url.segments {
        None => Err(CloneError::NoPathSegments),
        Some(segs) => {
            let n = segs.len();
            if n == 0 {
                Ok(String::new())
            } else {
                Ok(strip_git_suffix(segs[n - 1].as_str()))
            }
        },
    }
}

/// Whether the segments have the Bitbucket server shape.
fn is_bitbucket(segs: &Vec<String>) -> (r: bool)
    ensures
        r == is_bitbucket_path(texts(segs@)),
{
    proof {
        reveal_strlit("scm");
        assert("scm"@ =~= scm());
    }
    segs.len() >= 3 && same_text(segs[0].as_str(), "scm")
}

/// The organization path: the segments before the repository name.
pub fn org_from_url(url: &RepoUrl) -> (r: Result<Vec<String>, CloneError>)
    ensures
        r is Ok <==> url.segments is Some,
        r is Ok ==> texts(r->Ok_0@) == org_of_segments(url.segments_view().unwrap()),
        r is Err ==> r->Err_0 is NoPathSegments,
{
    match &url.segments {
        None => Err(CloneError::NoPathSegments),
        Some(segs) => {
            let n = segs.len();
            let r = if is_bitbucket(segs) {
                clone_all(&segs.as_slice()[1..n - 1])
            } else if n == 0 {
                Vec::new()
            } else {
                clone_all(&segs.as_slice()[0..n - 1])
            };
            assert(texts(r@) =~= org_of_segments(texts(segs@)));
            Ok(r)
        },
    }
}

/// Host, organization path and repository name of a URL.
pub fn decompose(url: &RepoUrl) -> (r: Result<RepoLocation, CloneError>)
    ensures
        r is Ok <==> decomposition(*url) is Some,
        r is Ok ==> decomposition(*url) == Some(r->Ok_0.view_parts()),
        r is Err ==> r->Err_0 is NoPathSegments,
{
    let organization = org_from_url(url)?;
    let name = repo_from_url(url)?;
    Ok(RepoLocation { host: hostname_from_url(url), organization, name })
}

/// A Bitbucket server URL `/scm/<project>/<name>.git` has the organization
/// `[<project>]` and the repository name `<name>`.
pub proof fn lemma_bitbucket_layout(u: RepoUrl, project: Seq<char>, name: Seq<char>)
    requires
        u.segments_view() == Some(seq![scm(), project, name + git_suffix()]),
    ensures
        decomposition(u) == Some((host_of(u), seq![project], name)),
{
    let segs = seq![scm(), project, name + git_suffix()];
    assert(segs.subrange(1, 2) =~= seq![project]);
    assert((name + git_suffix()).subrange(0, name.len() as int) =~= name);
    assert((name + git_suffix()).subrange(name.len() as int, name.len() + 4int) =~= git_suffix());
}

/// A URL `/<group>/<subgroup>/<name>` whose first segment is not `scm` has
/// the organization `[<group>, <subgroup>]` and the repository name `<name>`.
pub proof fn lemma_nested_group_layout(
    u: RepoUrl,
    group: Seq<char>,
    subgroup: Seq<char>,
    name: Seq<char>,
)
    requires
        u.segments_view() == Some(seq![group, subgroup, name]),
        group != scm(),
        !ends_with(name, git_suffix()),
    ensures
        decomposition(u) == Some((host_of(u), seq![group, subgroup], name)),
{
    let segs = seq![group, subgroup, name];
    assert(segs.subrange(0, 2) =~= seq![group, subgroup]);
}

/// Any URL of two or more segments that is not of the Bitbucket server shape
/// keeps every segment but the last as its organization path.
pub proof fn lemma_nested_groups_kept(u: RepoUrl)
    requires
        u.segments_view() is Some,
        u.segments_view().unwrap().len() >= 2,
        !is_bitbucket_path(u.segments_view().unwrap()),
    ensures
        decomposition(u) == Some(
            (
                host_of(u),
                u.segments_view().unwrap().drop_last(),
                strip_git(u.segments_view().unwrap().last()),
            ),
        ),
{
}

/// Decomposition depends on the URL alone: two URLs with the same parts
/// decompose alike, so decomposing one URL twice gives the same result.
pub proof fn lemma_decompose_deterministic(u1: RepoUrl, u2: RepoUrl)
    requires
        u1.parts() == u2.parts(),
    ensures
        decomposition(u1) == decomposition(u2),
{
}

} // verus!
