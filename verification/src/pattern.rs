use vstd::prelude::*;
use vstd::string::*;

verus! {

/// The error of `regex::Regex::new`, carried through unread.
#[verifier::external_type_specification]
#[verifier::external_body]
pub struct ExPatternError(regex::Error);

/// Whether `regex::Regex::new` accepts `pattern` as a regular expression.
pub uninterp spec fn pattern_accepted(pattern: Seq<char>) -> bool;

/// What `regex::Regex::captures` finds for the accepted expression `pattern` in `text`: `None`
/// where nothing matches, else the groups of the leftmost match by their index, group 0 being
/// the whole match, each with the text it matched or `None` where it took no part.
pub uninterp spec fn pattern_captures(pattern: Seq<char>, text: Seq<char>) -> Option<
    Seq<Option<Seq<char>>>,
>;

/// Compiles `pattern` with `regex::Regex::new` and searches `text` with `Regex::captures`,
/// copying out the text of every group. Nothing is claimed of the expressions' meaning: the
/// contract only ties the outcome to `pattern_accepted` and `pattern_captures`, which stand for
/// what the engine does with these two texts.
#[verifier::external_body]
pub(crate) fn search(pattern: &str, text: &str) -> (r: Result<
    Option<Vec<Option<String>>>,
    regex::Error,
>)
    ensures
        r is Ok <==> pattern_accepted(pattern@),
        r matches Ok(found) ==> found.deep_view() == pattern_captures(pattern@, text@),
{
    let expression = regex::Regex::new(pattern)?;
    let found = expression.captures(text);
    Ok(found.map(|groups| groups.iter().map(|m| m.map(|m| m.as_str().to_string())).collect()))
}

/// The texts of groups 1 and 2 of a search result, where there is a match in which both took
/// part.
pub open spec fn first_two_groups(found: Option<Seq<Option<Seq<char>>>>) -> Option<
    (Seq<char>, Seq<char>),
> {
    match found {
        Some(groups) => if groups.len() >= 3 && groups[1] is Some && groups[2] is Some {
            Some((groups[1]->0, groups[2]->0))
        } else {
            None
        },
        None => None,
    }
}

/// Picks groups 1 and 2 out of a search result.
pub fn take_first_two_groups(found: &Option<Vec<Option<String>>>) -> (r: Option<(String, String)>)
    ensures
        r.deep_view() == first_two_groups(found.deep_view()),
{
    match found {
        Some(groups) => {
            if groups.len() >= 3 {
                match (&groups[1], &groups[2]) {
                    (Some(a), Some(b)) => Some((a.clone(), b.clone())),
                    _ => None,
                }
            } else {
                None
            }
        },
        None => None,
    }
}

} // verus!
