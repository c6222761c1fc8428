use vstd::prelude::*;
use vstd::string::*;

verus! {

/// Whether `needle` occurs in `hay` starting at position `at`.
pub open spec fn occurs_at(hay: Seq<char>, needle: Seq<char>, at: int) -> bool {
    &&& 0 <= at
    &&& at + needle.len() <= hay.len()
    &&& hay.subrange(at, at + needle.len()) == needle
}

/// Whether `needle` occurs somewhere in `hay` as a contiguous run of characters.
pub open spec fn has_substring(hay: Seq<char>, needle: Seq<char>) -> bool {
    exists|at: int| occurs_at(hay, needle, at)
}

/// Whether `s` ends with `suffix`.
pub open spec fn has_suffix(s: Seq<char>, suffix: Seq<char>) -> bool {
    occurs_at(s, suffix, s.len() - suffix.len())
}

/// `s` with every trailing repetition of `suffix` removed. An empty `suffix` removes nothing.
pub open spec fn without_trailing(s: Seq<char>, suffix: Seq<char>) -> Seq<char>
    decreases s.len(),
{
    if suffix.len() > 0 && has_suffix(s, suffix) {
        without_trailing(s.take(s.len() - suffix.len()), suffix)
    } else {
        s
    }
}

/// What is left after trimming does not end with the suffix any more.
pub proof fn lemma_trimmed_has_no_suffix(s: Seq<char>, suffix: Seq<char>)
    requires
        suffix.len() > 0,
    ensures
        !has_suffix(without_trailing(s, suffix), suffix),
    decreases s.len(),
{
    if has_suffix(s, suffix) {
        lemma_trimmed_has_no_suffix(s.take(s.len() - suffix.len()), suffix);
    }
}

/// The characters of `s`, in order.
pub fn chars_of(s: &str) -> (v: Vec<char>)
    ensures
        v@ == s@,
{
    let mut v: Vec<char> = Vec::new();
    for c in it: s.chars()
        invariant
            v@ == it.seq().take(it.index()),
            it.seq() == s@,
    {
        v.push(c);
    }
    v
}

/// Compares `needle` with the characters of `hay` that start at `at`.
pub fn matches_at(hay: &Vec<char>, needle: &Vec<char>, at: usize) -> (r: bool)
    ensures
        r == occurs_at(hay@, needle@, at as int),
{
    if needle.len() > hay.len() || at > hay.len() - needle.len() {
        return false;
    }
    let mut k: usize = 0;
    while k < needle.len()
        invariant
            k <= needle.len(),
            at + needle.len() <= hay.len(),
            forall|j: int| 0 <= j < k ==> hay@[at + j] == needle@[j],
        decreases needle.len() - k,
    {
        if hay[at + k] != needle[k] {
            assert(hay@.subrange(at as int, at + needle.len())[k as int] != needle@[k as int]);
            return false;
        }
        k += 1;
    }
    assert(hay@.subrange(at as int, at + needle.len()) =~= needle@);
    true
}

/// Substring test: whether `needle` occurs anywhere in `hay`.
pub fn contains(hay: &str, needle: &str) -> (r: bool)
    ensures
        r == has_substring(hay@, needle@),
{
    let h = chars_of(hay);
    let n = chars_of(needle);
    if n.len() > h.len() {
        assert(forall|at: int| !occurs_at(h@, n@, at));
        return false;
    }
    let last: usize = h.len() - n.len();
    let mut i: usize = 0;
    while i < last
        invariant
            i <= last,
            h@ == hay@,
            n@ == needle@,
            forall|at: int| 0 <= at < i ==> !occurs_at(h@, n@, at),
        decreases last - i,
    {
        if matches_at(&h, &n, i) {
            return true;
        }
        i += 1;
    }
    let r = matches_at(&h, &n, last);
    assert(!r ==> forall|at: int| !occurs_at(h@, n@, at));
    r
}

/// Whether the first `end` characters of `hay` end with `needle`.
fn ends_at(hay: &Vec<char>, needle: &Vec<char>, end: usize) -> (r: bool)
    requires
        needle.len() <= end <= hay.len(),
    ensures
        r == has_suffix(hay@.take(end as int), needle@),
{
    let r = matches_at(hay, needle, end - needle.len());
    proof {
        let at = end - needle.len();
        assert(hay@.take(end as int).subrange(at, at + needle.len()) =~= hay@.subrange(
            at,
            at + needle.len(),
        ));
    }
    r
}

/// Removes every trailing repetition of `suffix` from `s`.
pub fn trim_trailing(s: &str, suffix: &str) -> (r: String)
    ensures
        r@ == without_trailing(s@, suffix@),
{
    let h = chars_of(s);
    let n = chars_of(suffix);
    let mut end: usize = h.len();
    assert(h@.take(h.len() as int) =~= h@);
    if n.len() > 0 {
        while end >= n.len() && ends_at(&h, &n, end)
            invariant
                end <= h.len(),
                n.len() > 0,
                h@ == s@,
                n@ == suffix@,
                without_trailing(h@.take(end as int), n@) == without_trailing(h@, n@),
            decreases end,
        {
            assert(h@.take(end as int).take(end - n.len()) =~= h@.take(end - n.len()));
            end -= n.len();
        }
    }
    s.substring_char(0, end).to_owned()
}

} // verus!
