use open_pr::error::FatalError;
use open_pr::request::pull_request_url;
use open_pr::service::Service;

#[test]
fn remote_and_branches_give_the_url() {
    let url = pull_request_url(
        "git@github.com:acme/widget.git",
        "feature",
        None,
        None,
        &vec![false, true, false, false],
        None,
        None,
        false,
    );
    assert_eq!(url.unwrap(), "https://github.com/acme/widget/compare/master...feature?expand=1");
}

#[test]
fn asked_target_and_service_override_what_was_found() {
    let url = pull_request_url(
        "https://github.com/acme/widget",
        "feature",
        Some(Service::Bitbucket),
        Some("release".to_string()),
        &vec![true, true, true, true],
        Some("T 1"),
        None,
        true,
    );
    assert_eq!(
        url.unwrap(),
        "https://bitbucket.org/acme/widget/pull-requests/new?source=feature&dest=release&title=T+1"
    );
}

#[test]
fn target_defaults_to_main() {
    let url = pull_request_url(
        "https://gitlab.com/acme/widget.git",
        "feature",
        None,
        None,
        &vec![false, false, false, false],
        None,
        None,
        false,
    );
    assert_eq!(
        url.unwrap(),
        "https://gitlab.com/acme/widget/-/merge_requests/new?merge_request%5Bsource_branch%5D=feature&merge_request%5Btarget_branch%5D=main"
    );
}

#[test]
fn unparseable_remote_stops_before_building() {
    let r = pull_request_url(
        "github.com",
        "feature",
        Some(Service::Github),
        None,
        &vec![],
        None,
        None,
        false,
    );
    assert_eq!(r, Err(FatalError::UrlUnparseable("github.com".to_string())));
}

#[test]
fn unknown_host_stops_the_request() {
    let r = pull_request_url(
        "https://example.com/x/y.git",
        "feature",
        None,
        None,
        &vec![true],
        None,
        None,
        false,
    );
    assert_eq!(r, Err(FatalError::UnknownService("x".to_string(), "y".to_string())));
}

#[test]
fn azure_remote_is_built_from_its_last_two_segments() {
    let url = pull_request_url(
        "https://dev.azure.com/acme/proj/_git/widget",
        "feature",
        None,
        None,
        &vec![true],
        None,
        None,
        false,
    );
    assert_eq!(
        url.unwrap(),
        "https://dev.azure.com/_git/widget/_git/widget/pullrequestcreate?sourceRef=feature&targetRef=main"
    );
}
