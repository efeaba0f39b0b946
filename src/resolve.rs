use vstd::prelude::*;

use crate::infer::{infer_context, inferred_context, split_on_slash, split_slash};
use crate::paths::{opt_text, tilde_expanded};
use crate::repo_url::{parse_url, url_parse_of, CloneError, RepoUrl};
use crate::text::{concat, same_text};

verus! {

pub open spec fn default_workspace() -> Seq<char> {
    seq!['~', '/', 'p', 'r', 'o', 'j', 'e', 'c', 't', 's']
}

/// The workspace in force: the one given on the command line, else the one
/// from the environment, else `~/projects`.
pub open spec fn chosen_workspace(flag: Option<Seq<char>>, env: Option<Seq<char>>) -> Seq<char> {
    match flag {
        Some(w) => w,
        None => match env {
            Some(w) => w,
            None => default_workspace(),
        },
    }
}

/// The workspace in force: `flag`, else `env`, else `~/projects`.
pub fn resolve_workspace(flag: Option<&str>, env: Option<&str>) -> (r: String)
    ensures
        r@ == chosen_workspace(opt_text(flag), opt_text(env)),
{
    match flag {
        Some(w) => String::from_str(w),
        None => match env {
            Some(w) => String::from_str(w),
            None => {
                proof {
                    reveal_strlit("~/projects");
                    assert("~/projects"@ =~= default_workspace());
                }
                String::from_str("~/projects")
            },
        },
    }
}

pub open spec fn https_prefix() -> Seq<char> {
    seq!['h', 't', 't', 'p', 's', ':', '/', '/']
}

/// The URL text that a bare name or an `org/repo` pair stands for, given the
/// host and organization of the current directory: `https://<host>/<org>/<name>`
/// for a name without `/`, `https://<host>/<org/repo>` for exactly one `/`.
pub open spec fn shorthand_text(raw: Seq<char>, ctx: Option<(Seq<char>, Seq<char>)>) -> Option<Seq<char>> {
    match ctx {
        Some((host, org)) => if split_slash(raw).len() == 1 {
            Some(https_prefix() + host + seq!['/'] + org + seq!['/'] + raw)
        } else if split_slash(raw).len() == 2 {
            Some(https_prefix() + host + seq!['/'] + raw)
        } else {
            None
        },
        None => None,
    }
}

/// The schemes a repository URL may be given in as it is.
pub open spec fn is_supported_scheme(s: Seq<char>) -> bool {
    s == seq!['h', 't', 't', 'p'] || s == seq!['h', 't', 't', 'p', 's'] || s == seq!['s', 's', 'h']
}

/// What a repository argument resolves to, as `url_parse_of` parts: the
/// argument itself where it is a URL of a supported scheme; else the
/// shorthand for the current directory's host and organization, where there
/// is one and it parses; else the argument parsed as it is, if it parses.
pub open spec fn resolution(
    raw: Seq<char>,
    ctx: Option<(Seq<char>, Seq<char>)>,
) -> Option<(Seq<char>, Option<Seq<char>>, Option<Seq<Seq<char>>>, Seq<char>)> {
    let direct = url_parse_of(raw);
    if direct is Some && is_supported_scheme(direct.unwrap().0) {
        direct
    } else if shorthand_text(raw, ctx) is Some && url_parse_of(shorthand_text(raw, ctx).unwrap()) is Some {
        url_parse_of(shorthand_text(raw, ctx).unwrap())
    } else {
        direct
    }
}

/// Whether `scheme` is `http`, `https` or `ssh`.
pub fn supported_scheme(scheme: &str) -> (r: bool)
    ensures
        r == is_supported_scheme(scheme@),
{
    proof {
        reveal_strlit("http");
        reveal_strlit("https");
        reveal_strlit("ssh");
        assert("http"@ =~= seq!['h', 't', 't', 'p']);
        assert("https"@ =~= seq!['h', 't', 't', 'p', 's']);
        assert("ssh"@ =~= seq!['s', 's', 'h']);
    }
    same_text(scheme, "http") || same_text(scheme, "https") || same_text(scheme, "ssh")
}

/// The URL text that `raw` stands for under the host and organization
/// `ctx`, `None` where there is no context or `raw` has two or more `/`.
pub fn shorthand_url(raw: &str, ctx: &Option<(String, String)>) -> (r: Option<String>)
    ensures
        match r {
            Some(t) => shorthand_text(raw@, ctx_view(ctx)) == Some(t@),
            None => shorthand_text(raw@, ctx_view(ctx)) is None,
        },
{
    match ctx {
        None => None,
        Some((host, org)) => {
            let pieces = split_on_slash(raw);
            proof {
                reveal_strlit("https://");
                reveal_strlit("/");
                assert("https://"@ =~= https_prefix());
                assert("/"@ =~= seq!['/']);
            }
            if pieces.len() == 1 {
                let t = concat("https://", host.as_str());
                let t = concat(t.as_str(), "/");
                let t = concat(t.as_str(), org.as_str());
                let t = concat(t.as_str(), "/");
                let t = concat(t.as_str(), raw);
                Some(t)
            } else if pieces.len() == 2 {
                let t = concat("https://", host.as_str());
                let t = concat(t.as_str(), "/");
                let t = concat(t.as_str(), raw);
                Some(t)
            } else {
                None
            }
        },
    }
}

pub open spec fn ctx_view(ctx: &Option<(String, String)>) -> Option<(Seq<char>, Seq<char>)> {
    match ctx {
        Some((h, o)) => Some((h@, o@)),
        None => None,
    }
}

/// Resolves a repository argument under the host and organization `ctx`
/// read from the current directory: a URL of a supported scheme is taken
/// as it is; else a bare name or `org/repo` is completed from `ctx`; else
/// the argument is parsed as it is, and its parse error is returned.
pub fn resolve_with_context(raw: &str, ctx: &Option<(String, String)>) -> (r: Result<RepoUrl, CloneError>)
    ensures
        match r {
            Ok(u) => resolution(raw@, ctx_view(ctx)) == Some(u.parts()),
            Err(e) => resolution(raw@, ctx_view(ctx)) is None && e is Parse,
        },
{
    let direct = parse_url(raw);
    if let Ok(u) = &direct {
        if supported_scheme(u.scheme.as_str()) {
            return direct;
        }
    }
    if let Some(t) = shorthand_url(raw, ctx) {
        let expanded = parse_url(t.as_str());
        if expanded.is_ok() {
            return expanded;
        }
    }
    direct
}

/// Resolves a repository argument given in the directory `cwd`, with the
/// host and organization inferred from where `cwd` lies below `workspace`
/// (see `resolve_with_context`).
pub fn resolve_repo_argument(raw: &str, workspace: &str, home: Option<&str>, cwd: &str) -> (r: Result<RepoUrl, CloneError>)
    ensures
        match r {
            Ok(u) => resolution(raw@, inferred_context(tilde_expanded(workspace@, opt_text(home)), cwd@)) == Some(u.parts()),
            Err(e) => resolution(raw@, inferred_context(tilde_expanded(workspace@, opt_text(home)), cwd@)) is None && e is Parse,
        },
{
    let ctx = infer_context(workspace, home, cwd);
    resolve_with_context(raw, &ctx)
}

} // verus!
