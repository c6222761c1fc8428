use crate::builder::{build_pr_url, pr_url, text_of};
use crate::error::{FatalError, FatalErrorView};
use crate::inspect::{
    chars_of_option, get_default_branch, probed_default, resolve_target, resolved_target,
};
use crate::remote::{git_url_parse, parse_git_url};
use crate::service::{resolve_service, resolved_service, Service};
use vstd::prelude::*;
use vstd::string::*;

verus! {

/// The URL for a request from `branch` of the repository behind `remote_url`. Owner and
/// repository come from the remote URL, the provider from the choice or the remote URL, the
/// target from what was asked for or what probing found.
pub open spec fn planned_url(
    remote_url: Seq<char>,
    branch: Seq<char>,
    choice: Option<Service>,
    target: Option<Seq<char>>,
    present: Seq<bool>,
    title: Option<Seq<char>>,
    description: Option<Seq<char>>,
    draft: bool,
) -> Result<Seq<char>, FatalErrorView> {
    match git_url_parse(remote_url) {
        Ok((owner, repo)) => pr_url(
            resolved_service(choice, remote_url),
            owner,
            repo,
            branch,
            resolved_target(target, probed_default(present)),
            title,
            description,
            draft,
        ),
        Err(e) => Err(e),
    }
}

/// Goes from what was read in the repository to the finished URL: parses the remote URL,
/// settles provider and target branch, and builds. `present` says for each default-branch
/// candidate whether its remote-tracking branch exists.
pub fn pull_request_url(
    remote_url: &str,
    branch_name: &str,
    service: Option<Service>,
    target: Option<String>,
    present: &Vec<bool>,
    title: Option<&str>,
    description: Option<&str>,
    draft: bool,
) -> (r: Result<String, FatalError>)
    ensures
        match r {
            Ok(url) => planned_url(
                remote_url@,
                branch_name@,
                service,
                chars_of_option(target),
                present@,
                text_of(title),
                text_of(description),
                draft,
            ) == Ok::<Seq<char>, FatalErrorView>(url@),
            Err(e) => planned_url(
                remote_url@,
                branch_name@,
                service,
                chars_of_option(target),
                present@,
                text_of(title),
                text_of(description),
                draft,
            ) == Err::<Seq<char>, FatalErrorView>(e@),
        },
{
    match parse_git_url(remote_url) {
        Ok((owner, repo_name)) => {
            let provider = resolve_service(service, remote_url);
            let target_branch = resolve_target(target, get_default_branch(present));
            build_pr_url(
                provider,
                owner.as_str(),
                repo_name.as_str(),
                branch_name,
                target_branch.as_str(),
                title,
                description,
                draft,
            )
        },
        Err(e) => Err(e),
    }
}

} // verus!
