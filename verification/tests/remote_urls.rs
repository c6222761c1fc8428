use open_pr::error::FatalError;
use open_pr::pattern::take_first_two_groups;
use open_pr::remote::{owner_and_repo_from, parse_azure_url, parse_git_url, require_named};

fn pair(owner: &str, repo: &str) -> (String, String) {
    (owner.to_string(), repo.to_string())
}

fn groups(texts: &[Option<&str>]) -> Option<Vec<Option<String>>> {
    Some(texts.iter().map(|t| t.map(|s| s.to_string())).collect())
}

#[test]
fn ssh_and_https_forms_give_the_same_pair() {
    let by_ssh = parse_git_url("git@github.com:acme/widget.git");
    let by_https = parse_git_url("https://github.com/acme/widget.git");
    assert_eq!(by_ssh, Ok(pair("acme", "widget")));
    assert_eq!(by_https, Ok(pair("acme", "widget")));
    assert_eq!(by_ssh, by_https);
}

#[test]
fn ssh_form_accepts_any_user() {
    assert_eq!(parse_git_url("deploy@github.com:acme/widget.git"), Ok(pair("acme", "widget")));
    assert_eq!(parse_git_url("org-1234@github.com:acme/widget"), Ok(pair("acme", "widget")));
    assert_eq!(parse_git_url("j.doe@gitlab.com/acme/widget.git"), Ok(pair("acme", "widget")));
    assert_eq!(
        parse_git_url("deploy@github.com:acme/widget.git"),
        parse_git_url("git@github.com:acme/widget.git")
    );
}

#[test]
fn ssh_form_needs_a_user_at_the_start() {
    let url = "@github.com:acme/widget.git";
    assert_eq!(parse_git_url(url), Err(FatalError::UrlUnparseable(url.to_string())));
    let url = "host:git@github.com:acme/widget.git";
    assert_eq!(parse_git_url(url), Err(FatalError::UrlUnparseable(url.to_string())));
    let url = "github.com:acme/widget.git";
    assert_eq!(parse_git_url(url), Err(FatalError::UrlUnparseable(url.to_string())));
}

#[test]
fn https_url_with_a_user_is_read_by_the_https_form() {
    assert_eq!(
        parse_git_url("https://deploy@github.com/acme/tools/widget.git"),
        Ok(pair("tools", "widget"))
    );
    assert_eq!(
        parse_git_url("https://github.com/acme/widget@v2.git"),
        Ok(pair("acme", "widget@v2"))
    );
}

#[test]
fn git_suffix_is_optional() {
    assert_eq!(parse_git_url("https://github.com/acme/widget"), Ok(pair("acme", "widget")));
    assert_eq!(parse_git_url("git@gitlab.com:acme/widget"), Ok(pair("acme", "widget")));
}

#[test]
fn ssh_form_accepts_a_slash_after_the_host() {
    assert_eq!(parse_git_url("git@bitbucket.org/acme/widget.git"), Ok(pair("acme", "widget")));
}

#[test]
fn ssh_form_keeps_the_rest_of_the_path_as_repository() {
    assert_eq!(
        parse_git_url("git@gitlab.com:acme/tools/widget.git"),
        Ok(pair("acme", "tools/widget"))
    );
}

#[test]
fn https_form_takes_the_last_two_segments() {
    assert_eq!(
        parse_git_url("https://dev.azure.com/acme/proj/_git/widget"),
        Ok(pair("_git", "widget"))
    );
}

#[test]
fn repeated_git_suffixes_are_all_removed() {
    assert_eq!(
        parse_git_url("https://github.com/acme/widget.git.git"),
        Ok(pair("acme", "widget"))
    );
}

#[test]
fn https_form_is_tried_when_the_ssh_form_finds_nothing() {
    assert_eq!(parse_git_url("git@\nhttps://host/acme/widget"), Ok(pair("acme", "widget")));
}

#[test]
fn other_schemes_are_unparseable() {
    let url = "ssh://git@github.com/acme/widget.git";
    assert_eq!(parse_git_url(url), Err(FatalError::UrlUnparseable(url.to_string())));
    let url = "http://github.com/acme/widget";
    assert_eq!(parse_git_url(url), Err(FatalError::UrlUnparseable(url.to_string())));
    assert_eq!(parse_git_url(""), Err(FatalError::UrlUnparseable(String::new())));
}

#[test]
fn https_form_needs_owner_and_repository() {
    let url = "https://github.com/widget";
    assert_eq!(parse_git_url(url), Err(FatalError::UrlUnparseable(url.to_string())));
}

#[test]
fn an_empty_owner_is_unparseable() {
    let url = "git@github.com:/widget.git";
    assert_eq!(parse_git_url(url), Err(FatalError::UrlUnparseable(url.to_string())));
}

#[test]
fn an_empty_repository_is_unparseable() {
    let url = "https://github.com/acme/.git";
    assert_eq!(parse_git_url(url), Err(FatalError::UrlUnparseable(url.to_string())));
    let url = "git@github.com:acme/";
    assert_eq!(parse_git_url(url), Err(FatalError::UrlUnparseable(url.to_string())));
}

#[test]
fn unparseable_url_is_named_in_the_diagnostic() {
    let e = parse_git_url("not a remote").unwrap_err();
    assert_eq!(e.message(), "Could not parse git URL: not a remote");
}

#[test]
fn azure_address_gives_organization_and_project() {
    assert_eq!(parse_azure_url("https://dev.azure.com/acme/proj"), Ok(pair("acme", "proj")));
    assert_eq!(
        parse_azure_url("https://dev.azure.com/acme/proj/_git/widget"),
        Ok(pair("acme", "proj"))
    );
}

#[test]
fn older_azure_address_gives_organization_and_project() {
    assert_eq!(
        parse_azure_url("https://acme.visualstudio.com/proj/_git/widget"),
        Ok(pair("acme", "proj"))
    );
}

#[test]
fn other_addresses_are_no_azure_addresses() {
    let url = "https://example.com/acme/proj";
    let e = parse_azure_url(url).unwrap_err();
    assert_eq!(e, FatalError::AzureUrlUnparseable(url.to_string()));
    assert_eq!(e.message(), "Could not parse Azure DevOps URL: https://example.com/acme/proj");
    let url = "https://dev.azure.com/acme";
    assert_eq!(parse_azure_url(url), Err(FatalError::AzureUrlUnparseable(url.to_string())));
}

#[test]
fn groups_one_and_two_are_picked() {
    let found = groups(&[Some("whole"), Some("one"), Some("two"), Some("three")]);
    assert_eq!(take_first_two_groups(&found), Some(pair("one", "two")));
}

#[test]
fn missing_groups_give_no_pair() {
    assert_eq!(take_first_two_groups(&None), None);
    assert_eq!(take_first_two_groups(&groups(&[])), None);
    assert_eq!(take_first_two_groups(&groups(&[Some("whole"), Some("one")])), None);
    assert_eq!(take_first_two_groups(&groups(&[Some("whole"), None, Some("two")])), None);
    assert_eq!(take_first_two_groups(&groups(&[Some("whole"), Some("one"), None])), None);
}

#[test]
fn repository_group_loses_its_git_suffix() {
    let found = groups(&[Some("x"), Some("acme"), Some("widget.git")]);
    assert_eq!(owner_and_repo_from(&found), Some(pair("acme", "widget")));
    let found = groups(&[Some("x"), Some("acme.git"), Some("widget")]);
    assert_eq!(owner_and_repo_from(&found), Some(pair("acme.git", "widget")));
    assert_eq!(owner_and_repo_from(&None), None);
}

#[test]
fn only_a_full_pair_is_accepted() {
    assert_eq!(require_named("u", Some(pair("acme", "widget"))), Ok(pair("acme", "widget")));
    let refused = Err(FatalError::UrlUnparseable("u".to_string()));
    assert_eq!(require_named("u", Some(pair("", "widget"))), refused);
    assert_eq!(require_named("u", Some(pair("acme", ""))), refused);
    assert_eq!(require_named("u", None), refused);
}
