use crate::text::{contains, has_substring, occurs_at};
use vstd::prelude::*;
use vstd::string::*;

verus! {

/// A hosting provider as the caller may name it explicitly.
#[derive(Copy, Clone, PartialEq, Eq, Structural, Debug)]
pub enum Service {
    Github,
    Gitlab,
    Bitbucket,
    Azure,
}

/// The hosting provider of a remote, or `Unknown` where none is recognized.
#[derive(Copy, Clone, PartialEq, Eq, Structural, Debug)]
pub enum GitService {
    GitHub,
    GitLab,
    Bitbucket,
    AzureDevOps,
    Unknown,
}

/// The provider that a remote URL points to: the first of the known host names that occurs
/// anywhere in it decides.
pub open spec fn classified(url: Seq<char>) -> GitService {
    if has_substring(url, "github.com"@) {
        GitService::GitHub
    } else if has_substring(url, "gitlab.com"@) {
        GitService::GitLab
    } else if has_substring(url, "bitbucket.org"@) {
        GitService::Bitbucket
    } else if has_substring(url, "dev.azure.com"@) || has_substring(url, "visualstudio.com"@) {
        GitService::AzureDevOps
    } else {
        GitService::Unknown
    }
}

/// The provider that an explicit choice stands for.
pub open spec fn chosen(choice: Service) -> GitService {
    match choice {
        Service::Github => GitService::GitHub,
        Service::Gitlab => GitService::GitLab,
        Service::Bitbucket => GitService::Bitbucket,
        Service::Azure => GitService::AzureDevOps,
    }
}

/// The provider to build for: an explicit choice wins, else the remote URL decides.
pub open spec fn resolved_service(choice: Option<Service>, url: Seq<char>) -> GitService {
    match choice {
        Some(c) => chosen(c),
        None => classified(url),
    }
}

/// Classifies a remote URL by the host name it contains.
pub fn determine_service(url: &str) -> (r: GitService)
    ensures
        r == classified(url@),
{
    if contains(url, "github.com") {
        GitService::GitHub
    } else if contains(url, "gitlab.com") {
        GitService::GitLab
    } else if contains(url, "bitbucket.org") {
        GitService::Bitbucket
    } else if contains(url, "dev.azure.com") || contains(url, "visualstudio.com") {
        GitService::AzureDevOps
    } else {
        GitService::Unknown
    }
}

/// Settles the provider to build for.
pub fn resolve_service(choice: Option<Service>, url: &str) -> (r: GitService)
    ensures
        r == resolved_service(choice, url@),
{
    match choice {
        Some(Service::Github) => GitService::GitHub,
        Some(Service::Gitlab) => GitService::GitLab,
        Some(Service::Bitbucket) => GitService::Bitbucket,
        Some(Service::Azure) => GitService::AzureDevOps,
        None => determine_service(url),
    }
}

/// A substring stays one when text is put before and after.
pub proof fn lemma_substring_in_context(
    inner: Seq<char>,
    needle: Seq<char>,
    before: Seq<char>,
    after: Seq<char>,
)
    requires
        has_substring(inner, needle),
    ensures
        has_substring(before + inner + after, needle),
{
    let at = choose|at: int| occurs_at(inner, needle, at);
    let whole = before + inner + after;
    assert(whole.subrange(before.len() + at, before.len() + at + needle.len()) =~= inner.subrange(
        at,
        at + needle.len(),
    ));
    assert(occurs_at(whole, needle, before.len() + at));
}

/// Classification looks only for the host name, not at where it stands: a URL that holds
/// `github.com` is GitHub's whatever is written before or after it, such as a scheme in front
/// or a path and a `.git` ending behind.
pub proof fn github_wherever_it_stands(before: Seq<char>, after: Seq<char>)
    ensures
        classified(before + "github.com"@ + after) == GitService::GitHub,
{
    let host = "github.com"@;
    assert(host.subrange(0, host.len() as int) =~= host);
    assert(occurs_at(host, host, 0));
    lemma_substring_in_context(host, host, before, after);
}

/// Classification rests on which of the known host names occur, and on nothing else of the
/// URL: two URLs that hold the same host names have the same provider.
pub proof fn same_hosts_same_provider(a: Seq<char>, b: Seq<char>)
    requires
        has_substring(a, "github.com"@) == has_substring(b, "github.com"@),
        has_substring(a, "gitlab.com"@) == has_substring(b, "gitlab.com"@),
        has_substring(a, "bitbucket.org"@) == has_substring(b, "bitbucket.org"@),
        has_substring(a, "dev.azure.com"@) == has_substring(b, "dev.azure.com"@),
        has_substring(a, "visualstudio.com"@) == has_substring(b, "visualstudio.com"@),
    ensures
        classified(a) == classified(b),
{
}

/// A URL that holds none of the known host names is classified as unknown, and only such a URL
/// is.
pub proof fn unknown_iff_no_known_host(url: Seq<char>)
    ensures
        classified(url) == GitService::Unknown <==> {
            &&& !has_substring(url, "github.com"@)
            &&& !has_substring(url, "gitlab.com"@)
            &&& !has_substring(url, "bitbucket.org"@)
            &&& !has_substring(url, "dev.azure.com"@)
            &&& !has_substring(url, "visualstudio.com"@)
        },
{
}

} // verus!
