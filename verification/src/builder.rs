use crate::encode::{encode_query_value, query_value};
use crate::error::{FatalError, FatalErrorView};
use crate::remote::{azure_url_parse, parse_azure_url};
use crate::service::{classified, unknown_iff_no_known_host, GitService};
use crate::text::has_substring;
use vstd::prelude::*;
use vstd::string::*;

verus! {

/// An optional text as a character sequence.
pub open spec fn text_of(value: Option<&str>) -> Option<Seq<char>> {
    match value {
        Some(v) => Some(v@),
        None => None,
    }
}

/// A query parameter for a free text: `key`, which ends in `=`, and the encoded text; nothing
/// where there is no text.
pub open spec fn text_param(key: Seq<char>, value: Option<Seq<char>>) -> Seq<char> {
    match value {
        Some(v) => key + query_value(v),
        None => Seq::empty(),
    }
}

/// A query parameter that is present or not.
pub open spec fn flag_param(on: bool, param: Seq<char>) -> Seq<char> {
    if on {
        param
    } else {
        Seq::empty()
    }
}

/// GitHub's compare page for `source` against `target`.
pub open spec fn github_url(
    owner: Seq<char>,
    repo: Seq<char>,
    source: Seq<char>,
    target: Seq<char>,
    title: Option<Seq<char>>,
    description: Option<Seq<char>>,
    draft: bool,
) -> Seq<char> {
    "https://github.com/"@ + owner + "/"@ + repo + "/compare/"@ + target + "..."@ + source
        + "?expand=1"@ + text_param("&title="@, title) + text_param("&body="@, description)
        + flag_param(draft, "&draft=1"@)
}

/// GitLab's new-merge-request page.
pub open spec fn gitlab_url(
    owner: Seq<char>,
    repo: Seq<char>,
    source: Seq<char>,
    target: Seq<char>,
    title: Option<Seq<char>>,
    description: Option<Seq<char>>,
    draft: bool,
) -> Seq<char> {
    "https://gitlab.com/"@ + owner + "/"@ + repo
        + "/-/merge_requests/new?merge_request%5Bsource_branch%5D="@ + source
        + "&merge_request%5Btarget_branch%5D="@ + target + text_param(
        "&merge_request%5Btitle%5D="@,
        title,
    ) + text_param("&merge_request%5Bdescription%5D="@, description) + flag_param(
        draft,
        "&merge_request%5Bdraft%5D=true"@,
    )
}

/// Bitbucket's new-pull-request page. Bitbucket has no parameter for a draft.
pub open spec fn bitbucket_url(
    owner: Seq<char>,
    repo: Seq<char>,
    source: Seq<char>,
    target: Seq<char>,
    title: Option<Seq<char>>,
    description: Option<Seq<char>>,
) -> Seq<char> {
    "https://bitbucket.org/"@ + owner + "/"@ + repo + "/pull-requests/new?source="@ + source
        + "&dest="@ + target + text_param("&title="@, title) + text_param(
        "&description="@,
        description,
    )
}

/// Azure DevOps' pull-request-create page of `repo` in `project` of `organization`.
pub open spec fn azure_url(
    organization: Seq<char>,
    project: Seq<char>,
    repo: Seq<char>,
    source: Seq<char>,
    target: Seq<char>,
    title: Option<Seq<char>>,
    description: Option<Seq<char>>,
    draft: bool,
) -> Seq<char> {
    "https://dev.azure.com/"@ + organization + "/"@ + project + "/_git/"@ + repo
        + "/pullrequestcreate?sourceRef="@ + source + "&targetRef="@ + target + text_param(
        "&title="@,
        title,
    ) + text_param("&description="@, description) + flag_param(draft, "&isDraft=true"@)
}

/// The Azure DevOps address from which organization and project are read back.
pub open spec fn azure_address(owner: Seq<char>, repo: Seq<char>) -> Seq<char> {
    "https://dev.azure.com/"@ + owner + "/"@ + repo
}

/// The URL for a request, or why there is none: an unknown provider has no URL, and Azure
/// DevOps has one only where organization and project can be read back from its address.
pub open spec fn pr_url(
    service: GitService,
    owner: Seq<char>,
    repo: Seq<char>,
    source: Seq<char>,
    target: Seq<char>,
    title: Option<Seq<char>>,
    description: Option<Seq<char>>,
    draft: bool,
) -> Result<Seq<char>, FatalErrorView> {
    match service {
        GitService::GitHub => Ok(github_url(owner, repo, source, target, title, description, draft)),
        GitService::GitLab => Ok(gitlab_url(owner, repo, source, target, title, description, draft)),
        GitService::Bitbucket => Ok(bitbucket_url(owner, repo, source, target, title, description)),
        GitService::AzureDevOps => match azure_url_parse(azure_address(owner, repo)) {
            Ok((organization, project)) => Ok(
                azure_url(organization, project, repo, source, target, title, description, draft),
            ),
            Err(e) => Err(e),
        },
        GitService::Unknown => Err(FatalErrorView::UnknownService(owner, repo)),
    }
}

/// Appends the parameter for a free text, if there is one.
fn with_text_param(url: String, key: &str, value: Option<&str>) -> (r: String)
    ensures
        r@ == url@ + text_param(key@, text_of(value)),
{
    match value {
        Some(v) => {
            let encoded = encode_query_value(v);
            let r = url.concat(key).concat(encoded.as_str());
            assert(r@ =~= url@ + (key@ + query_value(v@)));
            r
        },
        None => {
            assert(url@ + Seq::<char>::empty() =~= url@);
            url
        },
    }
}

/// Appends a parameter if `on` is set.
fn with_flag_param(url: String, on: bool, param: &str) -> (r: String)
    ensures
        r@ == url@ + flag_param(on, param@),
{
    if on {
        url.concat(param)
    } else {
        assert(url@ + Seq::<char>::empty() =~= url@);
        url
    }
}

/// Builds the URL of GitHub's compare page.
pub fn github_pr_url(
    owner: &str,
    repo_name: &str,
    branch_name: &str,
    target_branch: &str,
    title: Option<&str>,
    description: Option<&str>,
    draft: bool,
) -> (r: String)
    ensures
        r@ == github_url(
            owner@,
            repo_name@,
            branch_name@,
            target_branch@,
            text_of(title),
            text_of(description),
            draft,
        ),
{
    let base = String::from_str("https://github.com/").concat(owner).concat("/").concat(
        repo_name,
    ).concat("/compare/").concat(target_branch).concat("...").concat(branch_name).concat(
        "?expand=1",
    );
    let titled = with_text_param(base, "&title=", title);
    let described = with_text_param(titled, "&body=", description);
    with_flag_param(described, draft, "&draft=1")
}

/// Builds the URL of GitLab's new-merge-request page.
pub fn gitlab_pr_url(
    owner: &str,
    repo_name: &str,
    branch_name: &str,
    target_branch: &str,
    title: Option<&str>,
    description: Option<&str>,
    draft: bool,
) -> (r: String)
    ensures
        r@ == gitlab_url(
            owner@,
            repo_name@,
            branch_name@,
            target_branch@,
            text_of(title),
            text_of(description),
            draft,
        ),
{
    let base = String::from_str("https://gitlab.com/").concat(owner).concat("/").concat(
        repo_name,
    ).concat("/-/merge_requests/new?merge_request%5Bsource_branch%5D=").concat(branch_name).concat(
        "&merge_request%5Btarget_branch%5D=",
    ).concat(target_branch);
    let titled = with_text_param(base, "&merge_request%5Btitle%5D=", title);
    let described = with_text_param(titled, "&merge_request%5Bdescription%5D=", description);
    with_flag_param(described, draft, "&merge_request%5Bdraft%5D=true")
}

/// Builds the URL of Bitbucket's new-pull-request page.
pub fn bitbucket_pr_url(
    owner: &str,
    repo_name: &str,
    branch_name: &str,
    target_branch: &str,
    title: Option<&str>,
    description: Option<&str>,
) -> (r: String)
    ensures
        r@ == bitbucket_url(
            owner@,
            repo_name@,
            branch_name@,
            target_branch@,
            text_of(title),
            text_of(description),
        ),
{
    let base = String::from_str("https://bitbucket.org/").concat(owner).concat("/").concat(
        repo_name,
    ).concat("/pull-requests/new?source=").concat(branch_name).concat("&dest=").concat(
        target_branch,
    );
    let titled = with_text_param(base, "&title=", title);
    with_text_param(titled, "&description=", description)
}

/// Builds the URL of Azure DevOps' pull-request-create page.
pub fn azure_pr_url(
    organization: &str,
    project: &str,
    repo_name: &str,
    branch_name: &str,
    target_branch: &str,
    title: Option<&str>,
    description: Option<&str>,
    draft: bool,
) -> (r: String)
    ensures
        r@ == azure_url(
            organization@,
            project@,
            repo_name@,
            branch_name@,
            target_branch@,
            text_of(title),
            text_of(description),
            draft,
        ),
{
    let base = String::from_str("https://dev.azure.com/").concat(organization).concat("/").concat(
        project,
    ).concat("/_git/").concat(repo_name).concat("/pullrequestcreate?sourceRef=").concat(
        branch_name,
    ).concat("&targetRef=").concat(target_branch);
    let titled = with_text_param(base, "&title=", title);
    let described = with_text_param(titled, "&description=", description);
    with_flag_param(described, draft, "&isDraft=true")
}

/// Builds the URL on which the provider's own form for a new pull or merge request opens.
pub fn build_pr_url(
    service: GitService,
    owner: &str,
    repo_name: &str,
    branch_name: &str,
    target_branch: &str,
    title: Option<&str>,
    description: Option<&str>,
    draft: bool,
) -> (r: Result<String, FatalError>)
    ensures
        match r {
            Ok(url) => pr_url(
                service,
                owner@,
                repo_name@,
                branch_name@,
                target_branch@,
                text_of(title),
                text_of(description),
                draft,
            ) == Ok::<Seq<char>, FatalErrorView>(url@),
            Err(e) => pr_url(
                service,
                owner@,
                repo_name@,
                branch_name@,
                target_branch@,
                text_of(title),
                text_of(description),
                draft,
            ) == Err::<Seq<char>, FatalErrorView>(e@),
        },
        service == GitService::Unknown ==> r is Err,
        service != GitService::Unknown && service != GitService::AzureDevOps ==> r is Ok,
{
    match service {
        GitService::GitHub => Ok(
            github_pr_url(owner, repo_name, branch_name, target_branch, title, description, draft),
        ),
        GitService::GitLab => Ok(
            gitlab_pr_url(owner, repo_name, branch_name, target_branch, title, description, draft),
        ),
        GitService::Bitbucket => Ok(
            bitbucket_pr_url(owner, repo_name, branch_name, target_branch, title, description),
        ),
        GitService::AzureDevOps => {
            let address = String::from_str("https://dev.azure.com/").concat(owner).concat(
                "/",
            ).concat(repo_name);
            match parse_azure_url(address.as_str()) {
                Ok((organization, project)) => Ok(
                    azure_pr_url(
                        organization.as_str(),
                        project.as_str(),
                        repo_name,
                        branch_name,
                        target_branch,
                        title,
                        description,
                        draft,
                    ),
                ),
                Err(e) => Err(e),
            }
        },
        GitService::Unknown => Err(
            FatalError::UnknownService(String::from_str(owner), String::from_str(repo_name)),
        ),
    }
}

/// With the required fields alone, each provider's URL is its fixed frame with owner,
/// repository and the two branches in their places and nothing else. For Azure DevOps the
/// places of organization and project hold what its address gave back.
pub proof fn required_fields_only(
    service: GitService,
    owner: Seq<char>,
    repo: Seq<char>,
    source: Seq<char>,
    target: Seq<char>,
)
    ensures
        service == GitService::GitHub ==> pr_url(
            service,
            owner,
            repo,
            source,
            target,
            None,
            None,
            false,
        ) == Ok::<Seq<char>, FatalErrorView>(
            "https://github.com/"@ + owner + "/"@ + repo + "/compare/"@ + target + "..."@ + source
                + "?expand=1"@,
        ),
        service == GitService::GitLab ==> pr_url(
            service,
            owner,
            repo,
            source,
            target,
            None,
            None,
            false,
        ) == Ok::<Seq<char>, FatalErrorView>(
            "https://gitlab.com/"@ + owner + "/"@ + repo
                + "/-/merge_requests/new?merge_request%5Bsource_branch%5D="@ + source
                + "&merge_request%5Btarget_branch%5D="@ + target,
        ),
        service == GitService::Bitbucket ==> pr_url(
            service,
            owner,
            repo,
            source,
            target,
            None,
            None,
            false,
        ) == Ok::<Seq<char>, FatalErrorView>(
            "https://bitbucket.org/"@ + owner + "/"@ + repo + "/pull-requests/new?source="@
                + source + "&dest="@ + target,
        ),
        service == GitService::AzureDevOps ==> (azure_url_parse(
            azure_address(owner, repo),
        ) matches Ok((organization, project)) ==> pr_url(
            service,
            owner,
            repo,
            source,
            target,
            None,
            None,
            false,
        ) == Ok::<Seq<char>, FatalErrorView>(
            "https://dev.azure.com/"@ + organization + "/"@ + project + "/_git/"@ + repo
                + "/pullrequestcreate?sourceRef="@ + source + "&targetRef="@ + target,
        )),
{
    let none = Seq::<char>::empty();
    assert forall|s: Seq<char>| #[trigger] (s + none) =~= s by {}
}

/// Where a provider has a draft parameter, the draft flag adds it at the very end and changes
/// nothing before it.
pub proof fn draft_comes_last(
    owner: Seq<char>,
    repo: Seq<char>,
    source: Seq<char>,
    target: Seq<char>,
    title: Option<Seq<char>>,
    description: Option<Seq<char>>,
)
    ensures
        github_url(owner, repo, source, target, title, description, true) == github_url(
            owner,
            repo,
            source,
            target,
            title,
            description,
            false,
        ) + "&draft=1"@,
        gitlab_url(owner, repo, source, target, title, description, true) == gitlab_url(
            owner,
            repo,
            source,
            target,
            title,
            description,
            false,
        ) + "&merge_request%5Bdraft%5D=true"@,
        forall|organization: Seq<char>, project: Seq<char>|
            #[trigger] azure_url(
                organization,
                project,
                repo,
                source,
                target,
                title,
                description,
                true,
            ) == azure_url(organization, project, repo, source, target, title, description, false)
                + "&isDraft=true"@,
{
    let none = Seq::<char>::empty();
    assert forall|s: Seq<char>| #[trigger] (s + none) =~= s by {}
}

/// On Bitbucket the draft flag changes nothing.
pub proof fn bitbucket_ignores_draft(
    owner: Seq<char>,
    repo: Seq<char>,
    source: Seq<char>,
    target: Seq<char>,
    title: Option<Seq<char>>,
    description: Option<Seq<char>>,
)
    ensures
        pr_url(GitService::Bitbucket, owner, repo, source, target, title, description, true)
            == pr_url(
            GitService::Bitbucket,
            owner,
            repo,
            source,
            target,
            title,
            description,
            false,
        ),
{
}

/// A remote with none of the known host names in it has no URL to build: its provider is
/// unknown, and for an unknown provider building fails, naming owner and repository.
pub proof fn unknown_host_has_no_url(
    remote: Seq<char>,
    owner: Seq<char>,
    repo: Seq<char>,
    source: Seq<char>,
    target: Seq<char>,
    title: Option<Seq<char>>,
    description: Option<Seq<char>>,
    draft: bool,
)
    requires
        !has_substring(remote, "github.com"@),
        !has_substring(remote, "gitlab.com"@),
        !has_substring(remote, "bitbucket.org"@),
        !has_substring(remote, "dev.azure.com"@),
        !has_substring(remote, "visualstudio.com"@),
    ensures
        pr_url(classified(remote), owner, repo, source, target, title, description, draft) == Err::<
            Seq<char>,
            FatalErrorView,
        >(FatalErrorView::UnknownService(owner, repo)),
{
    unknown_iff_no_known_host(remote);
}

} // verus!
