use crate::error::{FatalError, FatalErrorView};
use vstd::prelude::*;
use vstd::string::*;

verus! {

/// An optional owned text as a character sequence.
pub open spec fn chars_of_option(value: Option<String>) -> Option<Seq<char>> {
    match value {
        Some(v) => Some(v@),
        None => None,
    }
}

/// The branch to request from: the one asked for, else the short name of the current HEAD.
/// `head` is what reading HEAD gave: its short name, none where it has none, or the report of
/// the failed read.
pub open spec fn resolved_branch(
    asked: Option<Seq<char>>,
    head: Result<Option<Seq<char>>, Seq<char>>,
) -> Result<Seq<char>, FatalErrorView> {
    match asked {
        Some(branch) => Ok(branch),
        None => match head {
            Ok(Some(name)) => Ok(name),
            Ok(None) => Err(FatalErrorView::HeadUnresolvable(None)),
            Err(report) => Err(FatalErrorView::HeadUnresolvable(Some(report))),
        },
    }
}

/// The remote to use: the one asked for; else `upstream` where it is configured and the
/// default is not forced; else `origin`.
pub open spec fn selected_remote(
    asked: Option<Seq<char>>,
    force_default: bool,
    upstream_configured: bool,
) -> Seq<char> {
    match asked {
        Some(remote) => remote,
        None => if !force_default && upstream_configured {
            "upstream"@
        } else {
            "origin"@
        },
    }
}

/// The names tried for a default branch, in order of preference.
pub open spec fn default_branch_candidates() -> Seq<Seq<char>> {
    seq!["main"@, "master"@, "develop"@, "trunk"@]
}

/// The first candidate whose remote-tracking branch exists. `present[i]` says whether the
/// branch of candidate `i` exists; a candidate with no entry counts as absent.
pub open spec fn probed_default(present: Seq<bool>) -> Option<Seq<char>> {
    if present.len() > 0 && present[0] {
        Some("main"@)
    } else if present.len() > 1 && present[1] {
        Some("master"@)
    } else if present.len() > 2 && present[2] {
        Some("develop"@)
    } else if present.len() > 3 && present[3] {
        Some("trunk"@)
    } else {
        None
    }
}

/// The candidate to look up next while probing for a default branch, if any. `present` holds
/// what the lookups so far found, in the candidates' order. Nothing is looked up where a target
/// was asked for, once a candidate was found, or when all candidates have been tried.
pub open spec fn next_probe(target_asked: bool, present: Seq<bool>) -> Option<Seq<char>> {
    if target_asked || probed_default(present) is Some || present.len()
        >= default_branch_candidates().len() {
        None
    } else {
        Some(default_branch_candidates()[present.len() as int])
    }
}

/// The branch to merge into: the one asked for, else the probed default, else `main`.
pub open spec fn resolved_target(asked: Option<Seq<char>>, probed: Option<Seq<char>>) -> Seq<
    char,
> {
    match asked {
        Some(target) => target,
        None => match probed {
            Some(branch) => branch,
            None => "main"@,
        },
    }
}

/// Whether HEAD has to be read: only where no branch was asked for.
pub fn reads_head(asked: &Option<String>) -> (r: bool)
    ensures
        r == (asked is None),
{
    asked.is_none()
}

/// Whether the remote `upstream` has to be looked up: only where no remote was asked for and
/// the default is not forced.
pub fn consults_upstream(asked: &Option<String>, force_default: bool) -> (r: bool)
    ensures
        r == (asked is None && !force_default),
{
    asked.is_none() && !force_default
}

/// Settles the branch to request from.
pub fn resolve_branch(asked: Option<String>, head: Result<Option<String>, String>) -> (r: Result<
    String,
    FatalError,
>)
    ensures
        match r {
            Ok(branch) => resolved_branch(
                chars_of_option(asked),
                match head {
                    Ok(name) => Ok(chars_of_option(name)),
                    Err(report) => Err(report@),
                },
            ) == Ok::<Seq<char>, FatalErrorView>(branch@),
            Err(e) => resolved_branch(
                chars_of_option(asked),
                match head {
                    Ok(name) => Ok(chars_of_option(name)),
                    Err(report) => Err(report@),
                },
            ) == Err::<Seq<char>, FatalErrorView>(e@),
        },
{
    match asked {
        Some(branch) => Ok(branch),
        None => match head {
            Ok(Some(name)) => Ok(name),
            Ok(None) => Err(FatalError::HeadUnresolvable(None)),
            Err(report) => Err(FatalError::HeadUnresolvable(Some(report))),
        },
    }
}

/// Settles the remote to use.
pub fn select_remote(asked: Option<String>, force_default: bool, upstream_configured: bool) -> (r:
    String)
    ensures
        r@ == selected_remote(chars_of_option(asked), force_default, upstream_configured),
{
    match asked {
        Some(remote) => remote,
        None => {
            if !force_default && upstream_configured {
                String::from_str("upstream")
            } else {
                String::from_str("origin")
            }
        },
    }
}

/// The URL of the chosen remote, which must be configured.
pub fn require_remote(name: &str, url: Option<String>) -> (r: Result<String, FatalError>)
    ensures
        match url {
            Some(u) => r == Ok::<String, FatalError>(u),
            None => r matches Err(e) && e@ == FatalErrorView::RemoteNotFound(name@),
        },
{
    match url {
        Some(u) => Ok(u),
        None => Err(FatalError::RemoteNotFound(String::from_str(name))),
    }
}

/// The names to try for a default branch, in order of preference.
pub fn default_branch_names() -> (r: Vec<String>)
    ensures
        r.deep_view() == default_branch_candidates(),
{
    let mut names: Vec<String> = Vec::new();
    names.push(String::from_str("main"));
    names.push(String::from_str("master"));
    names.push(String::from_str("develop"));
    names.push(String::from_str("trunk"));
    assert(names.deep_view() =~= default_branch_candidates());
    names
}

/// The name of the remote-tracking branch of `branch` on `remote`.
pub fn tracking_branch(remote: &str, branch: &str) -> (r: String)
    ensures
        r@ == remote@ + "/"@ + branch@,
{
    String::from_str(remote).concat("/").concat(branch)
}

/// Picks the default branch from what probing found: the first candidate whose
/// remote-tracking branch exists.
pub fn get_default_branch(present: &Vec<bool>) -> (r: Option<String>)
    ensures
        chars_of_option(r) == probed_default(present@),
{
    if present.len() > 0 && present[0] {
        Some(String::from_str("main"))
    } else if present.len() > 1 && present[1] {
        Some(String::from_str("master"))
    } else if present.len() > 2 && present[2] {
        Some(String::from_str("develop"))
    } else if present.len() > 3 && present[3] {
        Some(String::from_str("trunk"))
    } else {
        None
    }
}

/// Names the candidate whose remote-tracking branch is to be looked up next, after the lookups
/// recorded in `present`; `None` when probing is over.
pub fn next_default_probe(asked: &Option<String>, present: &Vec<bool>) -> (r: Option<String>)
    ensures
        chars_of_option(r) == next_probe(asked is Some, present@),
{
    if asked.is_some() || get_default_branch(present).is_some() {
        return None;
    }
    let names = default_branch_names();
    let n = present.len();
    if n < names.len() {
        assert(names.deep_view()[n as int] == names@[n as int]@);
        Some(names[n].clone())
    } else {
        None
    }
}

/// Settles the branch to merge into.
pub fn resolve_target(asked: Option<String>, probed: Option<String>) -> (r: String)
    ensures
        r@ == resolved_target(chars_of_option(asked), chars_of_option(probed)),
{
    match asked {
        Some(target) => target,
        None => match probed {
            Some(branch) => branch,
            None => String::from_str("main"),
        },
    }
}

/// Probing prefers candidates in their order: whatever else exists, `main` wins if it is
/// present, and a candidate is chosen only if no earlier one is present.
pub proof fn probing_keeps_order(present: Seq<bool>, i: int)
    requires
        0 <= i < 4,
        i < present.len(),
        present[i],
        forall|j: int| 0 <= j < i ==> !present[j],
    ensures
        probed_default(present) == Some(default_branch_candidates()[i]),
{
}

/// Probing stops: each lookup that `next_probe` asks for leaves fewer to come, and after the
/// fourth none is asked for.
pub proof fn probing_stops(target_asked: bool, present: Seq<bool>, found: bool)
    requires
        next_probe(target_asked, present) is Some,
    ensures
        present.len() < 4,
        found ==> next_probe(target_asked, present.push(found)) is None,
        present.len() == 3 ==> next_probe(target_asked, present.push(found)) is None,
        probed_default(present) is None,
{
}

/// With no target asked for and no candidate present, the target is `main`.
pub proof fn target_falls_back_to_main(present: Seq<bool>)
    requires
        forall|j: int| 0 <= j < present.len() ==> !present[j],
    ensures
        resolved_target(None, probed_default(present)) == "main"@,
{
}

} // verus!
