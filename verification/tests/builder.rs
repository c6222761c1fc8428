use open_pr::builder::{azure_pr_url, bitbucket_pr_url, build_pr_url, github_pr_url, gitlab_pr_url};
use open_pr::error::FatalError;
use open_pr::service::{determine_service, GitService};

fn plain(service: GitService) -> Result<String, FatalError> {
    build_pr_url(service, "acme", "widget", "feature", "main", None, None, false)
}

#[test]
fn github_required_fields() {
    assert_eq!(
        plain(GitService::GitHub).unwrap(),
        "https://github.com/acme/widget/compare/main...feature?expand=1"
    );
}

#[test]
fn gitlab_required_fields() {
    assert_eq!(
        plain(GitService::GitLab).unwrap(),
        "https://gitlab.com/acme/widget/-/merge_requests/new?merge_request%5Bsource_branch%5D=feature&merge_request%5Btarget_branch%5D=main"
    );
}

#[test]
fn bitbucket_required_fields() {
    assert_eq!(
        plain(GitService::Bitbucket).unwrap(),
        "https://bitbucket.org/acme/widget/pull-requests/new?source=feature&dest=main"
    );
}

#[test]
fn azure_required_fields() {
    assert_eq!(
        plain(GitService::AzureDevOps).unwrap(),
        "https://dev.azure.com/acme/widget/_git/widget/pullrequestcreate?sourceRef=feature&targetRef=main"
    );
}

#[test]
fn github_all_fields() {
    let url = build_pr_url(
        GitService::GitHub,
        "acme",
        "widget",
        "feature",
        "main",
        Some("Add thing"),
        Some("a&b=c #1"),
        true,
    );
    assert_eq!(
        url.unwrap(),
        "https://github.com/acme/widget/compare/main...feature?expand=1&title=Add+thing&body=a%26b%3Dc+%231&draft=1"
    );
}

#[test]
fn gitlab_all_fields() {
    let url = build_pr_url(
        GitService::GitLab,
        "acme",
        "widget",
        "feature",
        "main",
        Some("Add thing"),
        Some("a&b"),
        true,
    );
    assert_eq!(
        url.unwrap(),
        "https://gitlab.com/acme/widget/-/merge_requests/new?merge_request%5Bsource_branch%5D=feature&merge_request%5Btarget_branch%5D=main&merge_request%5Btitle%5D=Add+thing&merge_request%5Bdescription%5D=a%26b&merge_request%5Bdraft%5D=true"
    );
}

#[test]
fn bitbucket_all_fields() {
    let url = build_pr_url(
        GitService::Bitbucket,
        "acme",
        "widget",
        "feature",
        "main",
        Some("Add thing"),
        Some("a&b"),
        false,
    );
    assert_eq!(
        url.unwrap(),
        "https://bitbucket.org/acme/widget/pull-requests/new?source=feature&dest=main&title=Add+thing&description=a%26b"
    );
}

#[test]
fn azure_all_fields() {
    let url = build_pr_url(
        GitService::AzureDevOps,
        "acme",
        "widget",
        "feature",
        "main",
        Some("Add thing"),
        Some("a&b"),
        true,
    );
    assert_eq!(
        url.unwrap(),
        "https://dev.azure.com/acme/widget/_git/widget/pullrequestcreate?sourceRef=feature&targetRef=main&title=Add+thing&description=a%26b&isDraft=true"
    );
}

#[test]
fn optional_fields_stand_alone() {
    let only_description =
        build_pr_url(GitService::GitHub, "o", "r", "s", "t", None, Some("d"), false).unwrap();
    assert_eq!(only_description, "https://github.com/o/r/compare/t...s?expand=1&body=d");
    let only_draft = build_pr_url(GitService::GitHub, "o", "r", "s", "t", None, None, true).unwrap();
    assert_eq!(only_draft, "https://github.com/o/r/compare/t...s?expand=1&draft=1");
    let empty_title =
        build_pr_url(GitService::GitHub, "o", "r", "s", "t", Some(""), None, false).unwrap();
    assert_eq!(empty_title, "https://github.com/o/r/compare/t...s?expand=1&title=");
}

#[test]
fn branch_names_are_not_encoded() {
    let url =
        build_pr_url(GitService::GitHub, "o", "r", "fix/a b", "rel#1", None, None, false).unwrap();
    assert_eq!(url, "https://github.com/o/r/compare/rel#1...fix/a b?expand=1");
}

#[test]
fn bitbucket_draft_changes_nothing() {
    let with = build_pr_url(
        GitService::Bitbucket,
        "acme",
        "widget",
        "feature",
        "main",
        Some("t"),
        Some("d"),
        true,
    );
    let without = build_pr_url(
        GitService::Bitbucket,
        "acme",
        "widget",
        "feature",
        "main",
        Some("t"),
        Some("d"),
        false,
    );
    assert_eq!(with, without);
    assert!(!with.unwrap().contains("draft"));
}

#[test]
fn unknown_provider_has_no_url() {
    let e = plain(GitService::Unknown).unwrap_err();
    assert_eq!(e, FatalError::UnknownService("acme".to_string(), "widget".to_string()));
    assert_eq!(e.message(), "Unknown git service for acme/widget");
}

#[test]
fn unrecognized_host_cannot_be_built_for() {
    let service = determine_service("https://example.com/x/y.git");
    assert_eq!(service, GitService::Unknown);
    let r = build_pr_url(service, "x", "y", "feature", "main", Some("t"), None, true);
    assert_eq!(r, Err(FatalError::UnknownService("x".to_string(), "y".to_string())));
}

#[test]
fn azure_without_owner_cannot_be_read_back() {
    let r = build_pr_url(GitService::AzureDevOps, "", "widget", "s", "t", None, None, false);
    assert_eq!(
        r,
        Err(FatalError::AzureUrlUnparseable("https://dev.azure.com//widget".to_string()))
    );
}

#[test]
fn azure_reads_organization_and_project_from_its_address() {
    let url =
        build_pr_url(GitService::AzureDevOps, "acme/proj", "widget", "s", "t", None, None, false);
    assert_eq!(
        url.unwrap(),
        "https://dev.azure.com/acme/proj/_git/widget/pullrequestcreate?sourceRef=s&targetRef=t"
    );
    let url =
        build_pr_url(GitService::AzureDevOps, "acme", "tools/widget", "s", "t", None, None, false);
    assert_eq!(
        url.unwrap(),
        "https://dev.azure.com/acme/tools/_git/tools/widget/pullrequestcreate?sourceRef=s&targetRef=t"
    );
}

#[test]
fn provider_functions_agree_with_the_dispatch() {
    assert_eq!(
        github_pr_url("acme", "widget", "feature", "main", Some("x y"), None, true),
        build_pr_url(GitService::GitHub, "acme", "widget", "feature", "main", Some("x y"), None, true)
            .unwrap()
    );
    assert_eq!(
        gitlab_pr_url("acme", "widget", "feature", "main", None, Some("x y"), false),
        "https://gitlab.com/acme/widget/-/merge_requests/new?merge_request%5Bsource_branch%5D=feature&merge_request%5Btarget_branch%5D=main&merge_request%5Bdescription%5D=x+y"
    );
    assert_eq!(
        bitbucket_pr_url("acme", "widget", "feature", "main", None, None),
        "https://bitbucket.org/acme/widget/pull-requests/new?source=feature&dest=main"
    );
    assert_eq!(
        azure_pr_url("org", "proj", "widget", "feature", "main", None, None, true),
        "https://dev.azure.com/org/proj/_git/widget/pullrequestcreate?sourceRef=feature&targetRef=main&isDraft=true"
    );
}
