use vstd::prelude::*;
use vstd::std_specs::iter::IteratorSpec;
use vstd::string::*;

verus! {

/// Whether two string slices hold the same characters.
///
/// Trusted: `str`'s `PartialEq::eq` compares the two slices byte for byte, and
/// two valid UTF-8 slices have the same bytes exactly when they have the same
/// characters.
#[verifier::external_body]
pub(crate) fn str_eq(a: &str, b: &str) -> (same: bool)
    ensures
        same == (a@ == b@),
{
    a.eq(b)
}

/// The characters of `s`, in order.
pub fn chars_of(s: &str) -> (chars: Vec<char>)
    ensures
        chars@ == s@,
{
    broadcast use vstd::string::group_string_axioms;

    let mut rest = s.chars();
    let mut chars: Vec<char> = Vec::new();
    assert(chars@ + rest.remaining() =~= s@);
    loop
        invariant
            chars@ + rest.remaining() == s@,
            rest.obeys_prophetic_iter_laws(),
            rest.decrease() is Some,
        decreases rest.decrease()->0,
    {
        let ghost before = rest.remaining();
        match rest.next() {
            Some(c) => {
                chars.push(c);
                assert(chars@ + rest.remaining() =~= s@) by {
                    assert(before =~= seq![before[0]] + before.drop_first());
                }
            },
            None => {
                assert(chars@ + before =~= chars@);
                return chars;
            },
        }
    }
}

/// Position of the first `c` in `s`, or the length of `s` where there is none.
pub open spec fn first_index(s: Seq<char>, c: char) -> int
    decreases s.len(),
{
    if s.len() == 0 || s[0] == c {
        0
    } else {
        1 + first_index(s.skip(1), c)
    }
}

/// `first_index` is the only position that holds `c` after none that does.
pub proof fn lemma_first_index(s: Seq<char>, c: char, i: int)
    requires
        0 <= i <= s.len(),
        forall|j: int| 0 <= j < i ==> s[j] != c,
        i < s.len() ==> s[i] == c,
    ensures
        first_index(s, c) == i,
    decreases s.len(),
{
    if s.len() > 0 && s[0] != c {
        let rest = s.skip(1);
        assert forall|j: int| 0 <= j < i - 1 implies rest[j] != c by {
            assert(rest[j] == s[j + 1]);
        }
        lemma_first_index(rest, c, i - 1);
    }
}

/// Finds the first occurrence of `c` among `chars`, counted in characters.
pub fn find_char(chars: &Vec<char>, c: char) -> (found: Option<usize>)
    ensures
        match found {
            Some(i) => i < chars@.len() && i == first_index(chars@, c),
            None => first_index(chars@, c) == chars@.len(),
        },
        found matches Some(i) ==> chars@[i as int] == c,
        forall|j: int| 0 <= j < first_index(chars@, c) ==> chars@[j] != c,
{
    let mut i: usize = 0;
    while i < chars.len()
        invariant
            i <= chars@.len(),
            forall|j: int| 0 <= j < i ==> chars@[j] != c,
        decreases chars@.len() - i,
    {
        if chars[i] == c {
            proof {
                lemma_first_index(chars@, c, i as int);
            }
            return Some(i);
        }
        i = i + 1;
    }
    proof {
        lemma_first_index(chars@, c, chars@.len() as int);
    }
    None
}

/// Whether `s` begins with `prefix`.
pub open spec fn has_prefix(s: Seq<char>, prefix: Seq<char>) -> bool {
    prefix.len() <= s.len() && s.subrange(0, prefix.len() as int) == prefix
}

/// Whether `s` ends with `suffix`.
pub open spec fn has_suffix(s: Seq<char>, suffix: Seq<char>) -> bool {
    suffix.len() <= s.len() && s.subrange(s.len() - suffix.len(), s.len() as int) == suffix
}

/// Whether `chars`, read from `at`, continues with `pattern`.
pub fn matches_at(chars: &Vec<char>, at: usize, pattern: &Vec<char>) -> (hit: bool)
    requires
        at <= chars@.len(),
    ensures
        hit == has_prefix(chars@.skip(at as int), pattern@),
{
    if pattern.len() > chars.len() - at {
        return false;
    }
    let mut k: usize = 0;
    while k < pattern.len()
        invariant
            at <= chars@.len() <= usize::MAX,
            pattern@.len() <= chars@.len() - at,
            k <= pattern@.len(),
            forall|j: int| 0 <= j < k ==> chars@[at + j] == pattern@[j],
        decreases pattern@.len() - k,
    {
        if chars[at + k] != pattern[k] {
            assert(chars@.skip(at as int).subrange(0, pattern@.len() as int)[k as int]
                != pattern@[k as int]);
            return false;
        }
        k = k + 1;
    }
    assert(chars@.skip(at as int).subrange(0, pattern@.len() as int) =~= pattern@);
    true
}

/// Whether `s` begins with `prefix`.
pub fn starts_with(s: &str, prefix: &str) -> (hit: bool)
    ensures
        hit == has_prefix(s@, prefix@),
{
    let chars = chars_of(s);
    let pattern = chars_of(prefix);
    assert(chars@.skip(0) =~= chars@);
    matches_at(&chars, 0, &pattern)
}

/// Whether `s` ends with `suffix`.
pub fn ends_with(s: &str, suffix: &str) -> (hit: bool)
    ensures
        hit == has_suffix(s@, suffix@),
{
    let chars = chars_of(s);
    let pattern = chars_of(suffix);
    if pattern.len() > chars.len() {
        return false;
    }
    let at = chars.len() - pattern.len();
    let hit = matches_at(&chars, at, &pattern);
    assert(chars@.skip(at as int).subrange(0, pattern@.len() as int) =~= chars@.subrange(
        chars@.len() - pattern@.len(),
        chars@.len() as int,
    ));
    hit
}

/// `s` with every occurrence of `from` replaced by `to`, read from the left
/// and without overlap. An empty `from` occurs nowhere.
pub open spec fn replace_all(s: Seq<char>, from: Seq<char>, to: Seq<char>) -> Seq<char>
    decreases s.len(),
{
    if from.len() == 0 || s.len() == 0 {
        s
    } else if has_prefix(s, from) {
        to + replace_all(s.skip(from.len() as int), from, to)
    } else {
        seq![s[0]] + replace_all(s.skip(1), from, to)
    }
}

/// `s` with every occurrence of `from` replaced by `to`.
pub fn replace_str(s: &str, from: &str, to: &str) -> (replaced: String)
    requires
        from@.len() > 0,
    ensures
        replaced@ == replace_all(s@, from@, to@),
{
    let chars = chars_of(s);
    let pattern = chars_of(from);
    let n = chars.len();
    let mut replaced = String::new();
    let mut i: usize = 0;
    assert(s@.skip(0) =~= s@);
    assert(replaced@ + replace_all(s@, from@, to@) =~= replace_all(s@, from@, to@));
    while i < n
        invariant
            n == chars@.len(),
            chars@ == s@,
            pattern@ == from@,
            pattern@.len() > 0,
            i <= n,
            replaced@ + replace_all(s@.skip(i as int), from@, to@) == replace_all(s@, from@, to@),
        decreases n - i,
    {
        let ghost rest = s@.skip(i as int);
        let ghost before = replaced@;
        if matches_at(&chars, i, &pattern) {
            replaced.append(to);
            assert(rest.skip(pattern@.len() as int) =~= s@.skip(i + pattern@.len()));
            assert(replaced@ + replace_all(s@.skip(i + pattern@.len()), from@, to@) =~= before
                + replace_all(rest, from@, to@));
            i = i + pattern.len();
        } else {
            let piece = s.substring_char(i, i + 1);
            replaced.append(piece);
            assert(piece@ =~= seq![rest[0]]);
            assert(rest.skip(1) =~= s@.skip(i + 1));
            assert(replaced@ + replace_all(s@.skip(i + 1), from@, to@) =~= before + replace_all(
                rest,
                from@,
                to@,
            ));
            i = i + 1;
        }
    }
    assert(s@.skip(n as int).len() == 0);
    assert(replaced@ + Seq::<char>::empty() =~= replaced@);
    replaced
}

} // verus!
