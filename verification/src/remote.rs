use crate::error::{FatalError, FatalErrorView};
use crate::pattern::{
    first_two_groups, pattern_accepted, pattern_captures, search, take_first_two_groups,
};
use crate::text::{has_suffix, lemma_trimmed_has_no_suffix, trim_trailing, without_trailing};
use vstd::prelude::*;
use vstd::string::*;

verus! {

/// The SSH form of a remote: `user@host:owner/repo`, for any user, with `/` allowed for `:` and
/// an optional `.git` at the end. The user stands at the very start and holds no `@`, `:` or
/// `/`, so that a URL with a scheme in front is not taken for this form.
pub const SSH_FORM: &'static str = "^[^@:/]+@(?:.*?)[:/](.*?)/(.*?)(?:\\.git)?$";

/// The HTTPS form of a remote: `https://host/owner/repo`, with an optional `.git` at the end.
pub const HTTPS_FORM: &'static str = "https://(?:.*?)/([^/]+)/([^/]+?)(?:\\.git)?$";

/// An Azure DevOps address: `https://dev.azure.com/organization/project`.
pub const AZURE_FORM: &'static str = "https://dev\\.azure\\.com/([^/]+)/([^/]+)";

/// An Azure DevOps address of the older kind: `https://organization.visualstudio.com/project`.
pub const VISUAL_STUDIO_FORM: &'static str = "https://([^.]+)\\.visualstudio\\.com/([^/]+)";

/// Owner and repository as a search result gives them: groups 1 and 2, the second without any
/// trailing `.git`.
pub open spec fn owner_and_repo(found: Option<Seq<Option<Seq<char>>>>) -> Option<
    (Seq<char>, Seq<char>),
> {
    match first_two_groups(found) {
        Some((owner, repo)) => Some((owner, without_trailing(repo, ".git"@))),
        None => None,
    }
}

/// A pair counts only where it names both an owner and a repository; anything else makes `url`
/// unparseable.
pub open spec fn named_pair(url: Seq<char>, pair: Option<(Seq<char>, Seq<char>)>) -> Result<
    (Seq<char>, Seq<char>),
    FatalErrorView,
> {
    match pair {
        Some((owner, repo)) => if owner.len() > 0 && repo.len() > 0 {
            Ok((owner, repo))
        } else {
            Err(FatalErrorView::UrlUnparseable(url))
        },
        None => Err(FatalErrorView::UrlUnparseable(url)),
    }
}

/// What parsing a remote URL gives. The SSH form is tried first, on every URL; where it finds
/// nothing the HTTPS form is tried.
pub open spec fn git_url_parse(url: Seq<char>) -> Result<(Seq<char>, Seq<char>), FatalErrorView> {
    let by_ssh = owner_and_repo(pattern_captures(SSH_FORM@, url));
    if !pattern_accepted(SSH_FORM@) {
        Err(FatalErrorView::PatternRejected(SSH_FORM@))
    } else if by_ssh is Some {
        named_pair(url, by_ssh)
    } else if !pattern_accepted(HTTPS_FORM@) {
        Err(FatalErrorView::PatternRejected(HTTPS_FORM@))
    } else {
        named_pair(url, owner_and_repo(pattern_captures(HTTPS_FORM@, url)))
    }
}

/// What parsing an Azure DevOps URL gives: organization and project by the current form, else
/// by the older one.
pub open spec fn azure_url_parse(url: Seq<char>) -> Result<
    (Seq<char>, Seq<char>),
    FatalErrorView,
> {
    let current = first_two_groups(pattern_captures(AZURE_FORM@, url));
    let older = first_two_groups(pattern_captures(VISUAL_STUDIO_FORM@, url));
    if !pattern_accepted(AZURE_FORM@) {
        Err(FatalErrorView::PatternRejected(AZURE_FORM@))
    } else if current is Some {
        Ok(current->0)
    } else if !pattern_accepted(VISUAL_STUDIO_FORM@) {
        Err(FatalErrorView::PatternRejected(VISUAL_STUDIO_FORM@))
    } else if older is Some {
        Ok(older->0)
    } else {
        Err(FatalErrorView::AzureUrlUnparseable(url))
    }
}

/// Whether a parse result is the one that `expected` describes.
pub open spec fn same_outcome(
    r: Result<(String, String), FatalError>,
    expected: Result<(Seq<char>, Seq<char>), FatalErrorView>,
) -> bool {
    match r {
        Ok(pair) => expected == Ok::<(Seq<char>, Seq<char>), FatalErrorView>(pair.deep_view()),
        Err(e) => expected == Err::<(Seq<char>, Seq<char>), FatalErrorView>(e@),
    }
}

/// A pair that parsing yields names an owner and a repository, and the repository's name does
/// not end in `.git`.
pub proof fn parsed_pair_is_named(url: Seq<char>)
    ensures
        git_url_parse(url) matches Ok((owner, repo)) ==> owner.len() > 0 && repo.len() > 0
            && !has_suffix(repo, ".git"@),
{
    reveal_strlit(".git");
    let by_ssh = first_two_groups(pattern_captures(SSH_FORM@, url));
    let by_https = first_two_groups(pattern_captures(HTTPS_FORM@, url));
    if let Some((_, repo)) = by_ssh {
        lemma_trimmed_has_no_suffix(repo, ".git"@);
    }
    if let Some((_, repo)) = by_https {
        lemma_trimmed_has_no_suffix(repo, ".git"@);
    }
}

/// The two forms lead to the same pair. Where the SSH form finds owner and repository in one
/// URL and the HTTPS form finds them in another, and the two agree on the owner and, but for a
/// trailing `.git`, on the repository, both URLs parse to that one pair.
pub proof fn forms_agree(
    ssh_url: Seq<char>,
    https_url: Seq<char>,
    owner: Seq<char>,
    ssh_repo: Seq<char>,
    https_repo: Seq<char>,
)
    ensures
        ({
            &&& pattern_accepted(SSH_FORM@)
            &&& pattern_accepted(HTTPS_FORM@)
            &&& first_two_groups(pattern_captures(SSH_FORM@, ssh_url)) == Some((owner, ssh_repo))
            &&& first_two_groups(pattern_captures(SSH_FORM@, https_url)) is None
            &&& first_two_groups(pattern_captures(HTTPS_FORM@, https_url)) == Some(
                (owner, https_repo),
            )
            &&& without_trailing(ssh_repo, ".git"@) == without_trailing(https_repo, ".git"@)
            &&& owner.len() > 0
            &&& without_trailing(ssh_repo, ".git"@).len() > 0
        }) ==> {
            &&& git_url_parse(ssh_url) == git_url_parse(https_url)
            &&& git_url_parse(ssh_url) == Ok::<(Seq<char>, Seq<char>), FatalErrorView>(
                (owner, without_trailing(ssh_repo, ".git"@)),
            )
        },
{
}

/// Reads owner and repository out of a search result, dropping a trailing `.git` from the
/// repository.
pub fn owner_and_repo_from(found: &Option<Vec<Option<String>>>) -> (r: Option<(String, String)>)
    ensures
        r.deep_view() == owner_and_repo(found.deep_view()),
{
    match take_first_two_groups(found) {
        Some((owner, repo)) => Some((owner, trim_trailing(repo.as_str(), ".git"))),
        None => None,
    }
}

/// Accepts a pair that names both an owner and a repository; reports `url` as unparseable
/// otherwise.
pub fn require_named(url: &str, pair: Option<(String, String)>) -> (r: Result<
    (String, String),
    FatalError,
>)
    ensures
        same_outcome(r, named_pair(url@, pair.deep_view())),
{
    match pair {
        Some((owner, repo)) => {
            if owner.as_str().unicode_len() > 0 && repo.as_str().unicode_len() > 0 {
                Ok((owner, repo))
            } else {
                Err(FatalError::UrlUnparseable(String::from_str(url)))
            }
        },
        None => Err(FatalError::UrlUnparseable(String::from_str(url))),
    }
}

/// Extracts owner and repository from a remote URL in SSH or HTTPS form.
pub fn parse_git_url(url: &str) -> (r: Result<(String, String), FatalError>)
    ensures
        same_outcome(r, git_url_parse(url@)),
{
    match search(SSH_FORM, url) {
        Ok(found) => {
            let pair = owner_and_repo_from(&found);
            if pair.is_some() {
                return require_named(url, pair);
            }
        },
        Err(_) => {
            return Err(FatalError::PatternRejected(String::from_str(SSH_FORM)));
        },
    }
    match search(HTTPS_FORM, url) {
        Ok(found) => require_named(url, owner_and_repo_from(&found)),
        Err(_) => Err(FatalError::PatternRejected(String::from_str(HTTPS_FORM))),
    }
}

/// Extracts organization and project from an Azure DevOps URL of either form.
pub fn parse_azure_url(url: &str) -> (r: Result<(String, String), FatalError>)
    ensures
        same_outcome(r, azure_url_parse(url@)),
{
    match search(AZURE_FORM, url) {
        Ok(found) => {
            let pair = take_first_two_groups(&found);
            if let Some(p) = pair {
                return Ok(p);
            }
        },
        Err(_) => {
            return Err(FatalError::PatternRejected(String::from_str(AZURE_FORM)));
        },
    }
    match search(VISUAL_STUDIO_FORM, url) {
        Ok(found) => {
            match take_first_two_groups(&found) {
                Some(p) => Ok(p),
                None => Err(FatalError::AzureUrlUnparseable(String::from_str(url))),
            }
        },
        Err(_) => Err(FatalError::PatternRejected(String::from_str(VISUAL_STUDIO_FORM))),
    }
}

} // verus!
