use vstd::prelude::*;

verus! {

broadcast use vstd::string::axiom_spec_iter, vstd::string::next_postcondition;

/// Collects the characters of a string, in order.
pub fn chars_of(s: &str) -> (r: Vec<char>)
    ensures
        r@ == s@,
{
    let mut it = s.chars();
    let mut v: Vec<char> = Vec::new();
    loop
        invariant
            vstd::std_specs::iter::IteratorSpec::obeys_prophetic_iter_laws(&it),
            vstd::std_specs::iter::IteratorSpec::decrease(&it) is Some,
            v@ + vstd::std_specs::iter::IteratorSpec::remaining(&it) == s@,
        decreases vstd::std_specs::iter::IteratorSpec::decrease(&it)->Some_0,
    {
        match it.next() {
            Some(c) => {
                v.push(c);
                assert(v@ + vstd::std_specs::iter::IteratorSpec::remaining(&it) =~= s@);
            },
            None => {
                assert(v@ =~= s@);
                return v;
            },
        }
    }
}

/// `sub` occurs in `s` starting at position `i`.
pub open spec fn spec_contains_at(s: Seq<char>, sub: Seq<char>, i: int) -> bool {
    0 <= i && i + sub.len() <= s.len() && s.subrange(i, i + sub.len()) == sub
}

/// `sub` occurs somewhere in `s`.
pub open spec fn spec_contains(s: Seq<char>, sub: Seq<char>) -> bool {
    exists|i: int| spec_contains_at(s, sub, i)
}

/// `needle` matches `hay` at position `i` exactly.
fn match_at(hay: &Vec<char>, needle: &Vec<char>, i: usize) -> (r: bool)
    requires
        i + needle@.len() <= hay@.len(),
    ensures
        r == spec_contains_at(hay@, needle@, i as int),
{
    let n = needle.len();
    let total = hay.len();
    let mut j: usize = 0;
    while j < n
        invariant
            n == needle@.len(),
            total == hay@.len(),
            i + n <= hay@.len(),
            j <= n,
            forall|k: int| 0 <= k < j ==> hay@[i + k] == needle@[k],
        decreases n - j,
    {
        if hay[i + j] != needle[j] {
            proof {
                if spec_contains_at(hay@, needle@, i as int) {
                    assert(hay@.subrange(i as int, i + n)[j as int] == needle@[j as int]);
                }
            }
            return false;
        }
        j = j + 1;
    }
    assert(hay@.subrange(i as int, i + n) =~= needle@);
    true
}

/// Whether `needle` occurs in `hay`, scanning candidate positions left to
/// right.
pub fn contains_chars(hay: &Vec<char>, needle: &Vec<char>) -> (r: bool)
    ensures
        r == spec_contains(hay@, needle@),
{
    let n = needle.len();
    if n > hay.len() {
        assert(!spec_contains(hay@, needle@));
        return false;
    }
    if n == 0 {
        assert(hay@.subrange(0, 0) =~= needle@);
        assert(spec_contains_at(hay@, needle@, 0));
        return true;
    }
    let last = hay.len() - n;
    let mut i: usize = 0;
    while i <= last
        invariant
            n == needle@.len(),
            1 <= n <= hay@.len(),
            hay@.len() <= usize::MAX,
            last == hay@.len() - n,
            i <= last + 1,
            forall|k: int| 0 <= k < i ==> !spec_contains_at(hay@, needle@, k),
        decreases last + 1 - i,
    {
        if match_at(hay, needle, i) {
            return true;
        }
        i = i + 1;
    }
    assert(forall|k: int| spec_contains_at(hay@, needle@, k) ==> 0 <= k <= last);
    false
}

/// Whether the name "systemd" occurs in a report of what backs the first
/// process: the init-system detection rule.
pub fn mentions_systemd(out: &str) -> (r: bool)
    ensures
        r == spec_contains(out@, "systemd"@),
{
    let hay = chars_of(out);
    let needle = chars_of("systemd");
    contains_chars(&hay, &needle)
}

} // verus!
