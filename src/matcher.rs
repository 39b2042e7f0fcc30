//! The profile matcher: finds the first rule, in list order, whose key names a
//! process, comparing ASCII letters without regard to case, against the full
//! process name and then against its stem.

use vstd::prelude::*;

verus! {

/// The code of `c` with ASCII upper-case letters mapped to lower case.
pub open spec fn ascii_fold(c: char) -> u32 {
    if 65 <= c as u32 && c as u32 <= 90 {
        (c as u32 + 32) as u32
    } else {
        c as u32
    }
}

/// `a` and `b` are equal up to the case of ASCII letters.
pub open spec fn eq_ignore_ascii_case(a: Seq<char>, b: Seq<char>) -> bool {
    &&& a.len() == b.len()
    &&& forall|i: int| 0 <= i < a.len() ==> ascii_fold(#[trigger] a[i]) == ascii_fold(b[i])
}

/// `i` is the position of the dot that starts the extension of `name`: the
/// last dot, provided it is not the first character.
pub open spec fn is_extension_dot(name: Seq<char>, i: int) -> bool {
    &&& 1 <= i < name.len()
    &&& name[i] == '.'
    &&& forall|j: int| i < j < name.len() ==> name[j] != '.'
}

/// The file-name stem of `name`: the name without its extension.
pub open spec fn stem(name: Seq<char>) -> Seq<char> {
    if exists|i: int| is_extension_dot(name, i) {
        name.subrange(0, choose|i: int| is_extension_dot(name, i))
    } else {
        name
    }
}

/// A rule keyed by `key` applies to the process `name`.
pub open spec fn key_matches(key: Seq<char>, name: Seq<char>) -> bool {
    eq_ignore_ascii_case(key, name) || eq_ignore_ascii_case(key, stem(name))
}

/// Position of the first key, from position `from` on, that applies to `name`.
pub open spec fn first_match_from(keys: Seq<Seq<char>>, name: Seq<char>, from: int) -> Option<int>
    decreases keys.len() - from,
{
    if from < 0 || from >= keys.len() {
        None
    } else if key_matches(keys[from], name) {
        Some(from)
    } else {
        first_match_from(keys, name, from + 1)
    }
}

/// Position of the first key that applies to `name`, if any.
pub open spec fn first_match(keys: Seq<Seq<char>>, name: Seq<char>) -> Option<int> {
    first_match_from(keys, name, 0)
}

/// A rule that names the process it is for.
pub trait Keyed {
    /// The key as characters.
    spec fn key_view(&self) -> Seq<char>;

    /// The key.
    fn key(&self) -> (r: &str)
        ensures
            r@ == self.key_view(),
    ;
}

/// The keys of `rules`, in order.
pub open spec fn keys_of<R: Keyed>(rules: Seq<R>) -> Seq<Seq<char>> {
    rules.map_values(|r: R| r.key_view())
}

/// ASCII case-insensitive equality of `a` and the first `len` characters of `b`.
fn eq_prefix_ignore_ascii_case(a: &str, b: &str, len: usize) -> (r: bool)
    requires
        len <= b@.len(),
    ensures
        r == eq_ignore_ascii_case(a@, b@.subrange(0, len as int)),
{
    let n = a.unicode_len();
    if n != len {
        return false;
    }
    let mut i: usize = 0;
    while i < n
        invariant
            n == a@.len() == len,
            len <= b@.len(),
            i <= n,
            forall|j: int| 0 <= j < i ==> ascii_fold(#[trigger] a@[j]) == ascii_fold(b@[j]),
        decreases n - i,
    {
        let x = fold_char(a.get_char(i));
        let y = fold_char(b.get_char(i));
        if x != y {
            return false;
        }
        i = i + 1;
    }
    true
}

/// Executable form of `ascii_fold`.
fn fold_char(c: char) -> (r: u32)
    ensures
        r == ascii_fold(c),
{
    let v = c as u32;
    if 65 <= v && v <= 90 {
        v + 32
    } else {
        v
    }
}

/// Length of the stem of `name` (see `stem`).
pub fn stem_len(name: &str) -> (r: usize)
    ensures
        r <= name@.len(),
        name@.subrange(0, r as int) == stem(name@),
{
    let n = name.unicode_len();
    let mut i: usize = n;
    while i > 1
        invariant
            n == name@.len(),
            i <= n,
            forall|j: int| i <= j < n ==> name@[j] != '.',
        decreases i,
    {
        if name.get_char(i - 1) == '.' {
            assert(is_extension_dot(name@, i - 1));
            let ghost k = choose|k: int| is_extension_dot(name@, k);
            assert(k == i - 1) by {
                if k < i - 1 {
                    assert(name@[i - 1] != '.');
                } else if k > i - 1 {
                    assert(name@[k] != '.');
                }
            }
            return i - 1;
        }
        i = i - 1;
    }
    assert(!exists|k: int| is_extension_dot(name@, k));
    assert(name@.subrange(0, n as int) == name@);
    n
}

/// Whether a rule keyed by `key` applies to the process `name`.
pub fn matches_key(key: &str, name: &str) -> (r: bool)
    ensures
        r == key_matches(key@, name@),
{
    let n = name.unicode_len();
    assert(name@.subrange(0, n as int) == name@);
    if eq_prefix_ignore_ascii_case(key, name, n) {
        return true;
    }
    let s = stem_len(name);
    eq_prefix_ignore_ascii_case(key, name, s)
}

/// Position of the first rule of `rules`, in list order, that applies to the
/// process `name`, or `None` when no rule does.
pub fn find_rule<R: Keyed>(rules: &Vec<R>, name: &str) -> (r: Option<usize>)
    ensures
        match r {
            Some(i) => i < rules@.len() && first_match(keys_of(rules@), name@) == Some(i as int),
            None => first_match(keys_of(rules@), name@) == None::<int>,
        },
{
    let ghost keys = keys_of(rules@);
    let mut i: usize = 0;
    while i < rules.len()
        invariant
            keys == keys_of(rules@),
            i <= rules@.len(),
            first_match_from(keys, name@, 0) == first_match_from(keys, name@, i as int),
        decreases rules.len() - i,
    {
        if matches_key(rules[i].key(), name) {
            return Some(i);
        }
        i = i + 1;
    }
    None
}

} // verus!
