//! Class-attribute string manipulation.
//!
//! A class list is a single whitespace-delimited attribute string. Membership
//! is a plain substring check, adding appends a space and the name, and
//! removal deletes the first occurrence of the name prefixed by a space.
//! Removal therefore misses a class that stands first in the attribute with
//! no leading space; toggling inherits that asymmetry.

use vstd::prelude::*;

verus! {

/// `p` occurs in `s` as a substring starting at index `i`.
pub open spec fn occurs_at(s: Seq<char>, p: Seq<char>, i: int) -> bool {
    0 <= i && i + p.len() <= s.len() && s.subrange(i, i + p.len()) == p
}

/// `p` occurs somewhere in `s` as a substring.
pub open spec fn contains_sub(s: Seq<char>, p: Seq<char>) -> bool {
    exists|i: int| occurs_at(s, p, i)
}

/// The pattern that removal looks for: a single space followed by the name.
pub open spec fn spaced(name: Seq<char>) -> Seq<char> {
    seq![' '] + name
}

/// The class attribute after an add: the old attribute, a space, the name.
pub open spec fn after_add(attr: Seq<char>, name: Seq<char>) -> Seq<char> {
    attr + spaced(name)
}

/// `i` is the leftmost index at which `p` occurs in `s`.
pub open spec fn is_first_occurrence(s: Seq<char>, p: Seq<char>, i: int) -> bool {
    occurs_at(s, p, i) && (forall|j: int| 0 <= j < i ==> !occurs_at(s, p, j))
}

/// `s` with the first occurrence of `p` deleted; `s` itself when `p` does not
/// occur.
pub open spec fn remove_first(s: Seq<char>, p: Seq<char>) -> Seq<char> {
    if contains_sub(s, p) {
        let i = choose|i: int| is_first_occurrence(s, p, i);
        s.subrange(0, i) + s.subrange(i + p.len(), s.len() as int)
    } else {
        s
    }
}

/// The class attribute after a remove: the first occurrence of the spaced
/// name deleted, or the attribute unchanged when that pattern is absent.
pub open spec fn after_remove(attr: Seq<char>, name: Seq<char>) -> Seq<char> {
    remove_first(attr, spaced(name))
}

/// The class attribute after a toggle: removed when the bare name occurs as a
/// substring, appended otherwise. The membership test and the removal pattern
/// differ, so a toggle on a present class may leave the attribute unchanged.
pub open spec fn after_toggle(attr: Seq<char>, name: Seq<char>) -> Seq<char> {
    if contains_sub(attr, name) {
        after_remove(attr, name)
    } else {
        after_add(attr, name)
    }
}

/// `remove_first` deletes exactly the occurrence at the leftmost index.
pub proof fn lemma_remove_first_characterized(s: Seq<char>, p: Seq<char>, i: int)
    requires
        is_first_occurrence(s, p, i),
    ensures
        remove_first(s, p) == s.subrange(0, i) + s.subrange(i + p.len(), s.len() as int),
{
    assert(contains_sub(s, p));
    let k = choose|k: int| is_first_occurrence(s, p, k);
    if k < i {
        assert(occurs_at(s, p, k));
        assert(false);
    }
    if i < k {
        assert(occurs_at(s, p, i));
        assert(false);
    }
    assert(k == i);
}

fn match_at(s: &str, p: &str, i: usize) -> (b: bool)
    requires
        i + p@.len() <= s@.len(),
    ensures
        b == occurs_at(s@, p@, i as int),
{
    let m = p.unicode_len();
    let n = s.unicode_len();
    let mut k: usize = 0;
    while k < m
        invariant
            m == p@.len(),
            n == s@.len(),
            i + m <= n,
            0 <= k <= m,
            forall|t: int| 0 <= t <= k - 1 ==> s@[i + t] == p@[t],
        decreases m - k,
    {
        if s.get_char(i + k) != p.get_char(k) {
            proof {
                if occurs_at(s@, p@, i as int) {
                    assert(s@.subrange(i as int, i + p@.len())[k as int] == p@[k as int]);
                }
            }
            return false;
        }
        k += 1;
    }
    proof {
        assert(s@.subrange(i as int, i + p@.len()) =~= p@);
    }
    true
}

/// The leftmost index at which `p` occurs in `s`, or `None` when it does not
/// occur at all.
pub fn find_first(s: &str, p: &str) -> (r: Option<usize>)
    ensures
        r matches Some(i) ==> is_first_occurrence(s@, p@, i as int),
        r is None ==> !contains_sub(s@, p@),
{
    let n = s.unicode_len();
    let m = p.unicode_len();
    if m > n {
        proof {
            assert forall|j: int| !occurs_at(s@, p@, j) by {}
        }
        return None;
    }
    let end = n - m;
    let mut i: usize = 0;
    loop
        invariant
            n == s@.len(),
            m == p@.len(),
            m <= n,
            end == n - m,
            0 <= i <= end,
            forall|j: int| 0 <= j <= i - 1 ==> !occurs_at(s@, p@, j),
        decreases end + 1 - i,
    {
        if match_at(s, p, i) {
            return Some(i);
        }
        if i == end {
            proof {
                assert forall|j: int| !occurs_at(s@, p@, j) by {}
            }
            return None;
        }
        i += 1;
    }
}

/// True when the class attribute `attr` contains `name` as a substring. This
/// is the membership test of `has_class`: it is not tokenized, so a name can
/// match across token boundaries, and the empty name matches any attribute.
pub fn class_contains(attr: &str, name: &str) -> (b: bool)
    ensures
        b == contains_sub(attr@, name@),
{
    match find_first(attr, name) {
        Some(_) => true,
        None => false,
    }
}

/// The class attribute after adding `name`: a space and the name are appended
/// unconditionally, with no duplicate check.
pub fn class_add(attr: &str, name: &str) -> (r: String)
    ensures
        r@ == after_add(attr@, name@),
{
    let r = String::from_str(attr).concat(" ").concat(name);
    proof {
        reveal_strlit(" ");
        assert(r@ =~= after_add(attr@, name@));
    }
    r
}

/// The class attribute after removing `name`: the first occurrence of a space
/// followed by the name is deleted; when that pattern is absent (for example
/// when the name stands first with no leading space) the attribute comes back
/// unchanged.
pub fn class_remove(attr: &str, name: &str) -> (r: String)
    ensures
        r@ == after_remove(attr@, name@),
{
    let pat = String::from_str(" ").concat(name);
    proof {
        reveal_strlit(" ");
        assert(pat@ =~= spaced(name@));
    }
    match find_first(attr, pat.as_str()) {
        Some(i) => {
            let n = attr.unicode_len();
            let plen = pat.as_str().unicode_len();
            let left = attr.substring_char(0, i);
            let right = attr.substring_char(i + plen, n);
            let r = String::from_str(left).concat(right);
            proof {
                lemma_remove_first_characterized(attr@, spaced(name@), i as int);
            }
            r
        },
        None => String::from_str(attr),
    }
}

/// The class attribute after a toggle: removed when present in the substring
/// sense, appended otherwise.
pub fn class_toggle(attr: &str, name: &str) -> (r: String)
    ensures
        r@ == after_toggle(attr@, name@),
{
    if class_contains(attr, name) {
        class_remove(attr, name)
    } else {
        class_add(attr, name)
    }
}

/// The empty name occurs in every class attribute: membership is a substring
/// test and the empty string is a substring of everything.
pub proof fn lemma_empty_name_matches(s: Seq<char>)
    ensures
        contains_sub(s, Seq::<char>::empty()),
{
    assert(s.subrange(0, 0) =~= Seq::<char>::empty());
    assert(occurs_at(s, Seq::<char>::empty(), 0));
}

/// After an add the name is present: the spaced pattern stands at the end of
/// the attribute, and the bare name right after the added space.
pub proof fn lemma_add_makes_present(attr: Seq<char>, name: Seq<char>)
    ensures
        occurs_at(after_add(attr, name), spaced(name), attr.len() as int),
        contains_sub(after_add(attr, name), name),
{
    let t = after_add(attr, name);
    assert(t.subrange(attr.len() as int, attr.len() + spaced(name).len() as int) =~= spaced(
        name,
    ));
    assert(t.subrange(attr.len() + 1 as int, attr.len() + 1 as int + name.len() as int) =~= name);
    assert(occurs_at(t, name, attr.len() + 1 as int));
}

/// Adding the same name twice leaves two separate occurrences of the spaced
/// name in the attribute, one per add.
pub proof fn lemma_add_twice_two_occurrences(attr: Seq<char>, name: Seq<char>)
    ensures
        occurs_at(after_add(after_add(attr, name), name), spaced(name), attr.len() as int),
        occurs_at(
            after_add(after_add(attr, name), name),
            spaced(name),
            attr.len() + spaced(name).len() as int,
        ),
{
    let once = after_add(attr, name);
    let twice = after_add(once, name);
    assert(twice.subrange(attr.len() as int, attr.len() + spaced(name).len() as int) =~= spaced(
        name,
    ));
    assert(twice.subrange(once.len() as int, once.len() + spaced(name).len() as int) =~= spaced(
        name,
    ));
}

/// A remove whose spaced pattern is absent changes nothing: in particular an
/// attribute that is exactly the bare name, with no leading space, keeps it.
pub proof fn lemma_remove_absent_is_noop(attr: Seq<char>, name: Seq<char>)
    requires
        !contains_sub(attr, spaced(name)),
    ensures
        after_remove(attr, name) == attr,
{
}

proof fn lemma_no_early_occurrence(attr: Seq<char>, name: Seq<char>, j: int)
    requires
        !contains_sub(attr, name),
        forall|i: int| 0 <= i < name.len() ==> name[i] != ' ',
        0 <= j < attr.len(),
    ensures
        !occurs_at(after_add(attr, name), spaced(name), j),
{
    let t = after_add(attr, name);
    let p = spaced(name);
    if occurs_at(t, p, j) {
        if j + p.len() <= attr.len() {
            assert(attr.subrange(j + 1, j + p.len()) =~= name) by {
                assert forall|x: int| 0 <= x < name.len() implies attr[j + 1 + x] == name[x] by {
                    assert(t.subrange(j, j + p.len())[x + 1] == p[x + 1]);
                }
            }
            assert(occurs_at(attr, name, j + 1));
        } else {
            let x = attr.len() - j;
            assert(t.subrange(j, j + p.len())[x] == p[x]);
            assert(t[j + x] == ' ');
            assert(p[x] == name[x - 1]);
        }
    }
}

/// A toggle pair restores the attribute when the name holds no space and is
/// absent: the first toggle appends the spaced name, whose only occurrence
/// then stands at the end, and the second toggle deletes exactly it. The
/// toggle asymmetry that leaves an attribute stuck shows up only when the
/// membership test sees the name where the removal pattern does not stand.
pub proof fn lemma_toggle_twice_restores_absent(attr: Seq<char>, name: Seq<char>)
    requires
        !contains_sub(attr, name),
        forall|i: int| 0 <= i < name.len() ==> name[i] != ' ',
    ensures
        after_toggle(after_toggle(attr, name), name) == attr,
{
    let t = after_add(attr, name);
    let p = spaced(name);
    assert(after_toggle(attr, name) == t);
    lemma_add_makes_present(attr, name);
    assert(contains_sub(t, name));
    assert(after_toggle(t, name) == remove_first(t, p));
    assert forall|j: int| 0 <= j < attr.len() implies !occurs_at(t, p, j) by {
        lemma_no_early_occurrence(attr, name, j);
    }
    assert(is_first_occurrence(t, p, attr.len() as int));
    lemma_remove_first_characterized(t, p, attr.len() as int);
    assert(remove_first(t, p) =~= attr);
}

} // verus!
