use vstd::prelude::*;
use vstd::string::*;

verus! {

/// Why a run cannot go on. Each value names the input that caused it.
#[derive(Debug, PartialEq, Eq)]
pub enum FatalError {
    /// No repository could be opened; holds what the repository layer reported.
    RepositoryNotFound(String),
    /// The current branch cannot be named; holds what the repository layer reported, if it
    /// reported anything.
    HeadUnresolvable(Option<String>),
    /// No remote of this name is configured.
    RemoteNotFound(String),
    /// The remote URL has neither of the two accepted forms, or names no owner or repository.
    UrlUnparseable(String),
    /// The Azure DevOps URL names no organization and project.
    AzureUrlUnparseable(String),
    /// No hosting provider is known for this owner and repository.
    UnknownService(String, String),
    /// No program could be started to show the URL; holds the reason.
    LaunchFailed(String),
    /// The expression engine refused this pattern.
    PatternRejected(String),
}

/// A `FatalError` with its texts as character sequences.
pub enum FatalErrorView {
    RepositoryNotFound(Seq<char>),
    HeadUnresolvable(Option<Seq<char>>),
    RemoteNotFound(Seq<char>),
    UrlUnparseable(Seq<char>),
    AzureUrlUnparseable(Seq<char>),
    UnknownService(Seq<char>, Seq<char>),
    LaunchFailed(Seq<char>),
    PatternRejected(Seq<char>),
}

impl View for FatalError {
    type V = FatalErrorView;

    open spec fn view(&self) -> FatalErrorView {
        match self {
            FatalError::RepositoryNotFound(detail) => FatalErrorView::RepositoryNotFound(detail@),
            FatalError::HeadUnresolvable(Some(detail)) => FatalErrorView::HeadUnresolvable(
                Some(detail@),
            ),
            FatalError::HeadUnresolvable(None) => FatalErrorView::HeadUnresolvable(None),
            FatalError::RemoteNotFound(name) => FatalErrorView::RemoteNotFound(name@),
            FatalError::UrlUnparseable(url) => FatalErrorView::UrlUnparseable(url@),
            FatalError::AzureUrlUnparseable(url) => FatalErrorView::AzureUrlUnparseable(url@),
            FatalError::UnknownService(owner, repo) => FatalErrorView::UnknownService(
                owner@,
                repo@,
            ),
            FatalError::LaunchFailed(reason) => FatalErrorView::LaunchFailed(reason@),
            FatalError::PatternRejected(pattern) => FatalErrorView::PatternRejected(pattern@),
        }
    }
}

/// The one-line diagnostic for an error.
pub open spec fn diagnostic(e: FatalErrorView) -> Seq<char> {
    match e {
        FatalErrorView::RepositoryNotFound(detail) => "Error opening git repository: "@ + detail,
        FatalErrorView::HeadUnresolvable(Some(detail)) => "Error getting HEAD: "@ + detail,
        FatalErrorView::HeadUnresolvable(None) => "Could not determine current branch name"@,
        FatalErrorView::RemoteNotFound(name) => "Remote '"@ + name + "' not found"@,
        FatalErrorView::UrlUnparseable(url) => "Could not parse git URL: "@ + url,
        FatalErrorView::AzureUrlUnparseable(url) => "Could not parse Azure DevOps URL: "@ + url,
        FatalErrorView::UnknownService(owner, repo) => "Unknown git service for "@ + owner + "/"@
            + repo,
        FatalErrorView::LaunchFailed(reason) => "Failed to open browser: "@ + reason,
        FatalErrorView::PatternRejected(pattern) => "Invalid pattern: "@ + pattern,
    }
}

impl FatalError {
    /// The one-line diagnostic to print for this error.
    pub fn message(&self) -> (r: String)
        ensures
            r@ == diagnostic(self@),
    {
        match self {
            FatalError::RepositoryNotFound(detail) => String::from_str(
                "Error opening git repository: ",
            ).concat(detail.as_str()),
            FatalError::HeadUnresolvable(Some(detail)) => String::from_str(
                "Error getting HEAD: ",
            ).concat(detail.as_str()),
            FatalError::HeadUnresolvable(None) => String::from_str(
                "Could not determine current branch name",
            ),
            FatalError::RemoteNotFound(name) => String::from_str("Remote '").concat(
                name.as_str(),
            ).concat("' not found"),
            FatalError::UrlUnparseable(url) => String::from_str(
                "Could not parse git URL: ",
            ).concat(url.as_str()),
            FatalError::AzureUrlUnparseable(url) => String::from_str(
                "Could not parse Azure DevOps URL: ",
            ).concat(url.as_str()),
            FatalError::UnknownService(owner, repo) => String::from_str(
                "Unknown git service for ",
            ).concat(owner.as_str()).concat("/").concat(repo.as_str()),
            FatalError::LaunchFailed(reason) => String::from_str(
                "Failed to open browser: ",
            ).concat(reason.as_str()),
            FatalError::PatternRejected(pattern) => String::from_str("Invalid pattern: ").concat(
                pattern.as_str(),
            ),
        }
    }
}

} // verus!
