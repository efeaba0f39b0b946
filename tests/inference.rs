use cloner::infer::{infer_context, path_components, split_on_slash};
use cloner::listing::{listing_command, listing_supported, plan_listing, repo_names, ListingPlan};
use cloner::repo_url::CloneError;
use cloner::resolve::{resolve_repo_argument, resolve_with_context, resolve_workspace, shorthand_url, supported_scheme};

fn ctx(h: &str, o: &str) -> Option<(String, String)> {
    Some((h.to_string(), o.to_string()))
}

#[test]
fn infer_inside_workspace() {
    assert_eq!(infer_context("~/projects", None, "~/projects/github.com/acme/repo"), ctx("github.com", "acme"));
    assert_eq!(
        infer_context("~/projects", Some("/home/u"), "/home/u/projects/github.com/acme/repo"),
        ctx("github.com", "acme")
    );
}

#[test]
fn infer_outside_workspace() {
    assert_eq!(infer_context("~/projects", None, "/tmp/other"), None);
    assert_eq!(infer_context("~/projects", Some("/home/u"), "/tmp/other"), None);
    assert_eq!(infer_context("/home/u/projects", None, "/home/u/projectsx/a/b"), None);
}

#[test]
fn infer_needs_two_levels() {
    assert_eq!(infer_context("/w", None, "/w/github.com"), None);
    assert_eq!(infer_context("/w", None, "/w"), None);
    assert_eq!(infer_context("/w/", None, "/w//github.com/./acme/"), ctx("github.com", "acme"));
    assert_eq!(infer_context("/w", None, "w/github.com/acme"), None);
}

#[test]
fn splitting_paths() {
    assert_eq!(split_on_slash("a//b/"), vec!["a", "", "b", ""]);
    assert_eq!(split_on_slash(""), vec![""]);
    assert_eq!(path_components("/a//./b/"), vec!["a", "b"]);
}

#[test]
fn bare_name_resolves_in_org_dir() {
    let u = resolve_repo_argument("stm.aux", "~/projects", None, "~/projects/github.com/acme-org").unwrap();
    assert_eq!(u.text, "https://github.com/acme-org/stm.aux");
}

#[test]
fn org_repo_resolves_in_org_dir() {
    let u = resolve_repo_argument("other-org/repo", "~/projects", None, "~/projects/github.com/acme-org").unwrap();
    assert_eq!(u.text, "https://github.com/other-org/repo");
}

#[test]
fn full_url_is_kept() {
    let u = resolve_repo_argument("https://gitlab.com/a/b", "~/projects", None, "~/projects/github.com/acme-org").unwrap();
    assert_eq!(u.text, "https://gitlab.com/a/b");
}

#[test]
fn unresolvable_argument_fails() {
    let r = resolve_repo_argument("stm.aux", "~/projects", None, "/tmp");
    assert!(matches!(r, Err(CloneError::Parse(_))));
    let r = resolve_with_context("a/b/c", &ctx("github.com", "acme"));
    assert!(matches!(r, Err(CloneError::Parse(_))));
}

#[test]
fn other_scheme_prefers_shorthand() {
    let u = resolve_with_context("foo:bar", &ctx("github.com", "acme")).unwrap();
    assert_eq!(u.text, "https://github.com/acme/foo:bar");
    let u = resolve_with_context("foo:bar", &None).unwrap();
    assert_eq!(u.text, "foo:bar");
}

#[test]
fn shorthand_forms() {
    assert_eq!(shorthand_url("x", &ctx("h", "o")), Some("https://h/o/x".to_string()));
    assert_eq!(shorthand_url("x/y", &ctx("h", "o")), Some("https://h/x/y".to_string()));
    assert_eq!(shorthand_url("x/y/z", &ctx("h", "o")), None);
    assert_eq!(shorthand_url("x", &None), None);
}

#[test]
fn schemes() {
    assert!(supported_scheme("http"));
    assert!(supported_scheme("https"));
    assert!(supported_scheme("ssh"));
    assert!(!supported_scheme("git"));
}

#[test]
fn workspace_choice() {
    assert_eq!(resolve_workspace(Some("/a"), Some("/b")), "/a");
    assert_eq!(resolve_workspace(None, Some("/b")), "/b");
    assert_eq!(resolve_workspace(None, None), "~/projects");
}

#[test]
fn listing_plans() {
    assert!(matches!(plan_listing("/w", None, "/tmp"), ListingPlan::NoContext));
    match plan_listing("/w", None, "/w/github.com/acme/x") {
        ListingPlan::List(org) => assert_eq!(org, "acme"),
        other => panic!("unexpected {:?}", other),
    }
    match plan_listing("/w", None, "/w/gitlab.com/acme") {
        ListingPlan::UnsupportedHost(h) => assert_eq!(h, "gitlab.com"),
        other => panic!("unexpected {:?}", other),
    }
    assert!(listing_supported("github.com"));
    assert!(!listing_supported("github.co"));
}

#[test]
fn listing_command_and_names() {
    assert_eq!(listing_command("acme"), vec!["gh", "repo", "list", "acme", "--limit", "50", "--json", "name"]);
    let items = vec![Some("a".to_string()), None, Some("b".to_string())];
    assert_eq!(repo_names(&items), vec!["a", "b"]);
    assert_eq!(repo_names(&Vec::new()), Vec::<String>::new());
}
