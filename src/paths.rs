use vstd::prelude::*;

use crate::decompose::{host_of, org_of_segments, repo_of_segments, org_from_url, repo_from_url, hostname_from_url};
use crate::repo_url::{texts, CloneError, RepoUrl};
use crate::text::concat;

verus! {

pub open spec fn opt_text(o: Option<&str>) -> Option<Seq<char>> {
    match o {
        Some(s) => Some(s@),
        None => None,
    }
}

/// Tilde expansion: a leading `~` that stands alone or before `/` becomes the
/// home directory, where one is known; any other text is kept as it is.
pub open spec fn tilde_expanded(s: Seq<char>, home: Option<Seq<char>>) -> Seq<char> {
    if s.len() > 0 && s[0] == '~' && (s.len() == 1 || s[1] == '/') && home is Some {
        home.unwrap() + s.drop_first()
    } else {
        s
    }
}

/// Relies on `shellexpand::tilde_with_context`, which puts the home directory
/// that its closure gives in place of a leading `~` followed by `/` or by
/// nothing, and returns any other input unchanged.
#[verifier::external_body]
fn expand_tilde(input: &str, home: Option<&str>) -> (r: String)
    ensures
        r@ == tilde_expanded(input@, opt_text(home)),
{
    shellexpand::tilde_with_context(input, || home).into_owned()
}

/// `base` with the path `comp` appended, as `PathBuf::push` does on Unix: an
/// absolute `comp` replaces `base`, and one `/` separates the two unless
/// `base` is empty or already ends with one.
pub open spec fn join(base: Seq<char>, comp: Seq<char>) -> Seq<char> {
    if comp.len() > 0 && comp[0] == '/' {
        comp
    } else if base.len() == 0 || base.last() == '/' {
        base + comp
    } else {
        base + seq!['/'] + comp
    }
}

/// `base` with each of `comps` appended in turn.
pub open spec fn join_all(base: Seq<char>, comps: Seq<Seq<char>>) -> Seq<char>
    decreases comps.len(),
{
    if comps.len() == 0 {
        base
    } else {
        join(join_all(base, comps.drop_last()), comps.last())
    }
}

/// The directory that holds the URL's repository:
/// `<expanded workspace>/<host>/<organization...>`.
pub open spec fn site_folder(workspace: Seq<char>, home: Option<Seq<char>>, u: RepoUrl) -> Seq<char> {
    join_all(
        join(tilde_expanded(workspace, home), host_of(u)),
        org_of_segments(u.segments_view().unwrap()),
    )
}

/// The directory the repository is cloned into: the site folder and the
/// repository name.
pub open spec fn clone_path(workspace: Seq<char>, home: Option<Seq<char>>, u: RepoUrl) -> Seq<char> {
    join(site_folder(workspace, home, u), repo_of_segments(u.segments_view().unwrap()))
}

/// The workspace path with a leading `~` replaced by `home`.
pub fn expand_workspace(workspace: &str, home: Option<&str>) -> (r: String)
    ensures
        r@ == tilde_expanded(workspace@, opt_text(home)),
{
    expand_tilde(workspace, home)
}

/// `base` with the path `comp` appended.
pub fn join_path(base: &str, comp: &str) -> (r: String)
    ensures
        r@ == join(base@, comp@),
{
    let m = comp.unicode_len();
    if m > 0 && comp.get_char(0) == '/' {
        return String::from_str(comp);
    }
    let n = base.unicode_len();
    if n == 0 || base.get_char(n - 1) == '/' {
        concat(base, comp)
    } else {
        proof {
            reveal_strlit("/");
            assert("/"@ =~= seq!['/']);
        }
        let with_sep = concat(base, "/");
        concat(with_sep.as_str(), comp)
    }
}

/// `base` with each of `comps` appended in turn.
pub fn join_paths(base: &str, comps: &Vec<String>) -> (r: String)
    ensures
        r@ == join_all(base@, texts(comps@)),
{
    let mut acc = String::from_str(base);
    let mut i: usize = 0;
    while i < comps.len()
        invariant
            i <= comps@.len(),
            acc@ == join_all(base@, texts(comps@).take(i as int)),
        decreases comps@.len() - i,
    {
        assert(texts(comps@).take(i + 1).drop_last() =~= texts(comps@).take(i as int));
        acc = join_path(acc.as_str(), comps[i].as_str());
        i = i + 1;
    }
    assert(texts(comps@).take(i as int) =~= texts(comps@));
    acc
}

/// The directory that holds the URL's repository:
/// `<expanded workspace>/<host>/<organization...>`.
pub fn get_site_root_folder(workspace: &str, home: Option<&str>, url: &RepoUrl) -> (r: Result<String, CloneError>)
    ensures
        r is Ok <==> url.segments is Some,
        r is Ok ==> r->Ok_0@ == site_folder(workspace@, opt_text(home), *url),
        r is Err ==> r->Err_0 is NoPathSegments,
{
    let org = org_from_url(url)?;
    let ws = expand_workspace(workspace, home);
    let host = hostname_from_url(url);
    let site = join_path(ws.as_str(), host.as_str());
    Ok(join_paths(site.as_str(), &org))
}

/// What a clone of one URL does: where, and from which address.
pub struct CloneTarget {
    /// The URL as text, handed to `git clone`.
    pub url: String,
    /// The directory that is created and that `git clone` runs in.
    pub folder: String,
    /// The directory the repository ends up in.
    pub path: String,
}

impl CloneTarget {
    /// The command that clones the repository, run in `folder`: program
    /// first, then its arguments.
    pub fn clone_command(&self) -> (r: Vec<String>)
        ensures
            texts(r@) == seq!["git"@, "clone"@, "--progress"@, self.url@],
    {
        let r = vec![
            String::from_str("git"),
            String::from_str("clone"),
            String::from_str("--progress"),
            self.url.clone(),
        ];
        assert(texts(r@) =~= seq!["git"@, "clone"@, "--progress"@, self.url@]);
        r
    }

    /// The line that announces the clone.
    pub fn cloning_message(&self) -> (r: String)
        ensures
            r@ == "» Cloning "@ + self.url@ + " → "@ + self.path@,
    {
        let t = concat("» Cloning ", self.url.as_str());
        let t = concat(t.as_str(), " → ");
        concat(t.as_str(), self.path.as_str())
    }

    /// The lines that a dry run prints in place of its actions.
    pub fn dry_run_messages(&self) -> (r: Vec<String>)
        ensures
            texts(r@) == seq![
                "» mkdir -p \""@ + self.folder@ + "\""@,
                "» git clone "@ + self.url@,
            ],
    {
        let t = concat("» mkdir -p \"", self.folder.as_str());
        let mkdir = concat(t.as_str(), "\"");
        let clone = concat("» git clone ", self.url.as_str());
        let r = vec![mkdir, clone];
        assert(texts(r@) =~= seq![
            "» mkdir -p \""@ + self.folder@ + "\""@,
            "» git clone "@ + self.url@,
        ]);
        r
    }

    /// The line that reports a finished clone.
    pub fn cloned_message(&self) -> (r: String)
        ensures
            r@ == "» Cloned to "@ + self.path@,
    {
        concat("» Cloned to ", self.path.as_str())
    }
}

/// Where the repository of `url` goes under `workspace`.
pub fn plan_clone(workspace: &str, home: Option<&str>, url: &RepoUrl) -> (r: Result<CloneTarget, CloneError>)
    ensures
        r is Ok <==> url.segments is Some,
        r is Ok ==> r->Ok_0.url@ == url.text@,
        r is Ok ==> r->Ok_0.folder@ == site_folder(workspace@, opt_text(home), *url),
        r is Ok ==> r->Ok_0.path@ == clone_path(workspace@, opt_text(home), *url),
        r is Err ==> r->Err_0 is NoPathSegments,
{
    let folder = get_site_root_folder(workspace, home, url)?;
    let name = repo_from_url(url)?;
    let path = join_path(folder.as_str(), name.as_str());
    Ok(CloneTarget { url: url.text.clone(), folder, path })
}

/// Joining onto a directory gives the same path whether or not the directory
/// is written with a trailing `/`.
pub proof fn lemma_join_trailing_slash(base: Seq<char>, comps: Seq<Seq<char>>)
    requires
        base.len() > 0,
        base.last() != '/',
    ensures
        comps.len() > 0 ==> join_all(base.push('/'), comps) == join_all(base, comps),
    decreases comps.len(),
{
    if comps.len() > 0 {
        let c = comps.last();
        let b1 = join_all(base.push('/'), comps.drop_last());
        let b2 = join_all(base, comps.drop_last());
        if comps.len() == 1 {
            assert(b1 == base.push('/'));
            assert(b2 == base);
            if !(c.len() > 0 && c[0] == '/') {
                assert(base.push('/') + c =~= base + seq!['/'] + c);
            }
        } else {
            lemma_join_trailing_slash(base, comps.drop_last());
        }
        assert(join(b1, c) == join(b2, c));
    }
}

/// The folder and clone path of a URL do not depend on a trailing `/` of the
/// workspace. Left out: an empty workspace (`/` is another directory), one
/// that already ends with `/`, and `~` with a home directory that is empty or
/// ends with `/`.
pub proof fn lemma_workspace_trailing_slash(workspace: Seq<char>, home: Option<Seq<char>>, u: RepoUrl)
    requires
        workspace.len() > 0,
        workspace.last() != '/',
        workspace == seq!['~'] && home is Some ==> home.unwrap().len() > 0 && home.unwrap().last() != '/',
        u.segments is Some,
    ensures
        site_folder(workspace.push('/'), home, u) == site_folder(workspace, home, u),
        clone_path(workspace.push('/'), home, u) == clone_path(workspace, home, u),
{
    let e1 = tilde_expanded(workspace.push('/'), home);
    let e2 = tilde_expanded(workspace, home);
    if workspace[0] == '~' && (workspace.len() == 1 || workspace[1] == '/') && home is Some {
        assert(workspace.push('/').drop_first() =~= workspace.drop_first().push('/'));
        assert(e1 =~= e2.push('/'));
        if workspace.len() == 1 {
            assert(workspace =~= seq!['~']);
            assert(e2 =~= home.unwrap());
        } else {
            assert(e2.last() == workspace.last());
        }
    } else {
        assert(workspace.push('/')[0] == workspace[0]);
        if workspace.len() > 1 {
            assert(workspace.push('/')[1] == workspace[1]);
        }
        assert(e1 == workspace.push('/'));
    }
    assert(e2.len() > 0);
    assert(e2.last() != '/');
    lemma_join_trailing_slash(e2, seq![host_of(u)]);
    assert(seq![host_of(u)].drop_last() =~= Seq::<Seq<char>>::empty());
    assert(join(e1, host_of(u)) == join(e2, host_of(u)));
}

} // verus!
