use cloner::decompose::{decompose, hostname_from_url, org_from_url, repo_from_url, strip_git_suffix};
use cloner::paths::{expand_workspace, get_site_root_folder, join_path, plan_clone};
use cloner::repo_url::{parse_url, CloneError};

fn url(s: &str) -> cloner::repo_url::RepoUrl {
    parse_url(s).unwrap()
}

#[test]
fn bitbucket_url_layout() {
    let u = url("https://bitbucket.example.com/scm/PROJ/repo.git");
    assert_eq!(org_from_url(&u).unwrap(), vec!["PROJ".to_string()]);
    assert_eq!(repo_from_url(&u).unwrap(), "repo");
    assert_eq!(hostname_from_url(&u), "bitbucket.example.com");
}

#[test]
fn gitlab_subgroup_layout() {
    let u = url("https://gitlab.com/group/subgroup/repo");
    assert_eq!(org_from_url(&u).unwrap(), vec!["group".to_string(), "subgroup".to_string()]);
    assert_eq!(repo_from_url(&u).unwrap(), "repo");
}

#[test]
fn short_scm_path_is_not_bitbucket() {
    let u = url("https://example.com/scm/repo");
    assert_eq!(org_from_url(&u).unwrap(), vec!["scm".to_string()]);
    assert_eq!(repo_from_url(&u).unwrap(), "repo");
}

#[test]
fn github_layout_and_git_suffix() {
    let u = url("https://github.com/acme/widget.git");
    let loc = decompose(&u).unwrap();
    assert_eq!(loc.host, "github.com");
    assert_eq!(loc.organization, vec!["acme".to_string()]);
    assert_eq!(loc.name, "widget");
}

#[test]
fn decompose_twice_gives_the_same() {
    let a = decompose(&url("ssh://git@github.com/acme/widget.git")).unwrap();
    let b = decompose(&url("ssh://git@github.com/acme/widget.git")).unwrap();
    assert_eq!(a.host, b.host);
    assert_eq!(a.organization, b.organization);
    assert_eq!(a.name, b.name);
}

#[test]
fn strip_suffix_only_at_end() {
    assert_eq!(strip_git_suffix("repo.git"), "repo");
    assert_eq!(strip_git_suffix("repo.github"), "repo.github");
    assert_eq!(strip_git_suffix(".git"), "");
    assert_eq!(strip_git_suffix("git"), "git");
}

#[test]
fn host_only_url() {
    let u = url("https://github.com");
    assert_eq!(org_from_url(&u).unwrap(), Vec::<String>::new());
    assert_eq!(repo_from_url(&u).unwrap(), "");
}

#[test]
fn cannot_be_a_base_url_has_no_segments() {
    let u = url("mailto:someone@example.com");
    assert!(matches!(org_from_url(&u), Err(CloneError::NoPathSegments)));
    assert!(matches!(repo_from_url(&u), Err(CloneError::NoPathSegments)));
    assert!(matches!(decompose(&u), Err(CloneError::NoPathSegments)));
    assert!(matches!(get_site_root_folder("~/projects", None, &u), Err(CloneError::NoPathSegments)));
}

#[test]
fn url_without_host() {
    let u = url("unix:/tmp/repo");
    assert_eq!(hostname_from_url(&u), "");
}

#[test]
fn parse_error_is_reported() {
    assert!(matches!(parse_url("not a url"), Err(CloneError::Parse(_))));
    assert!(matches!(parse_url("stm.aux"), Err(CloneError::Parse(url::ParseError::RelativeUrlWithoutBase))));
}

#[test]
fn parse_reads_url_parts() {
    let u = url("HTTPS://GitHub.com/Acme/Widget");
    assert_eq!(u.scheme, "https");
    assert_eq!(u.host.as_deref(), Some("github.com"));
    assert_eq!(u.segments, Some(vec!["Acme".to_string(), "Widget".to_string()]));
    assert_eq!(u.text, "https://github.com/Acme/Widget");
}

#[test]
fn tilde_expansion() {
    assert_eq!(expand_workspace("~/projects", Some("/home/u")), "/home/u/projects");
    assert_eq!(expand_workspace("~", Some("/home/u")), "/home/u");
    assert_eq!(expand_workspace("~other/x", Some("/home/u")), "~other/x");
    assert_eq!(expand_workspace("~/projects", None), "~/projects");
    assert_eq!(expand_workspace("/srv/~/x", Some("/home/u")), "/srv/~/x");
}

#[test]
fn join_like_pathbuf() {
    assert_eq!(join_path("a", "b"), "a/b");
    assert_eq!(join_path("a/", "b"), "a/b");
    assert_eq!(join_path("", "b"), "b");
    assert_eq!(join_path("a", "/b"), "/b");
    assert_eq!(join_path("a", ""), "a/");
}

#[test]
fn workspace_trailing_slash_ignored() {
    let u = url("https://gitlab.com/group/subgroup/repo.git");
    let a = get_site_root_folder("/srv/ws", None, &u).unwrap();
    let b = get_site_root_folder("/srv/ws/", None, &u).unwrap();
    assert_eq!(a, b);
    assert_eq!(a, "/srv/ws/gitlab.com/group/subgroup");
    let c = get_site_root_folder("~", Some("/home/u"), &u).unwrap();
    let d = get_site_root_folder("~/", Some("/home/u"), &u).unwrap();
    assert_eq!(c, d);
    assert_eq!(c, "/home/u/gitlab.com/group/subgroup");
}

#[test]
fn dry_run_plan() {
    let u = url("https://github.com/acme/widget.git");
    let t = plan_clone("~/projects", None, &u).unwrap();
    assert_eq!(t.path, "~/projects/github.com/acme/widget");
    assert_eq!(t.folder, "~/projects/github.com/acme");
    assert_eq!(
        t.cloning_message(),
        "» Cloning https://github.com/acme/widget.git → ~/projects/github.com/acme/widget"
    );
    assert_eq!(
        t.dry_run_messages(),
        vec![
            "» mkdir -p \"~/projects/github.com/acme\"".to_string(),
            "» git clone https://github.com/acme/widget.git".to_string(),
        ]
    );
    assert_eq!(t.clone_command(), vec!["git", "clone", "--progress", "https://github.com/acme/widget.git"]);
    assert_eq!(t.cloned_message(), "» Cloned to ~/projects/github.com/acme/widget");
}

#[test]
fn plan_with_home_expansion() {
    let u = url("https://github.com/acme/widget");
    let t = plan_clone("~/projects", Some("/home/u"), &u).unwrap();
    assert_eq!(t.path, "/home/u/projects/github.com/acme/widget");
}
