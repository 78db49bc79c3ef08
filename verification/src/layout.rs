//! How a cache key is written as a file name.

use vstd::prelude::*;
use vstd::string::*;
use crate::digits::{
    decimal, digit_char, hex, is_decimal_digit, lemma_decimal_digits, lemma_decimal_injective,
    lemma_hex_injective,
};

verus! {

/// Position of the first `.` in `name`, or its length where it has none.
pub open spec fn first_dot(name: Seq<char>) -> nat
    decreases name.len(),
{
    if name.len() == 0 || name[0] == '.' {
        0
    } else {
        1 + first_dot(name.drop_first())
    }
}

/// The significant part of an artifact name: what stands before its first
/// `.`.
pub open spec fn stem_of(name: Seq<char>) -> Seq<char> {
    name.take(first_dot(name) as int)
}

/// Whether `c` cannot stand in the name of a file: it parts a path into
/// components, or ends a path's text.
pub open spec fn is_separator(c: char) -> bool {
    c == '/' || c == '\\' || c == '\0'
}

/// Whether `text` holds no separator, so that as a file's name it names a
/// file in the directory it is joined to and nowhere else.
pub open spec fn no_separator(text: Seq<char>) -> bool {
    forall|i: int| 0 <= i < text.len() ==> !is_separator(#[trigger] text[i])
}

/// Whether `stem` can be part of a file's name: it holds no `/`, no `\`
/// and no NUL.
pub open spec fn valid_stem(stem: Seq<char>) -> bool {
    no_separator(stem)
}

/// The file name of the entry for a digest, a stem and a format generation.
pub open spec fn entry_name(digest: Seq<u8>, stem: Seq<char>, generation: nat) -> Seq<char> {
    hex(digest) + seq!['-'] + stem + seq!['-'] + decimal(generation) + seq!['.', 'f', 'm', 't']
}

/// The file name of the marker that belongs to the entry `file_name`.
pub open spec fn marker_name(file_name: Seq<char>) -> Seq<char> {
    file_name + seq!['.', 'o', 'k']
}

/// `first_dot` is the one position that has no `.` before it and either a
/// `.` at it or the end of the name.
pub proof fn lemma_first_dot(name: Seq<char>, i: int)
    requires
        0 <= i <= name.len(),
        forall|j: int| 0 <= j < i ==> name[j] != '.',
        i == name.len() || name[i] == '.',
    ensures
        first_dot(name) == i,
    decreases i,
{
    if i > 0 {
        let rest = name.drop_first();
        assert(name[0] != '.');
        assert forall|j: int| 0 <= j < i - 1 implies rest[j] != '.' by {
            assert(rest[j] == name[j + 1]);
        }
        lemma_first_dot(rest, i - 1);
    }
}

/// The stem of a name is the name up to its first `.` and holds none.
pub proof fn lemma_stem_of(name: Seq<char>)
    ensures
        first_dot(name) <= name.len(),
        forall|j: int| 0 <= j < first_dot(name) ==> name[j] != '.',
        first_dot(name) == name.len() || name[first_dot(name) as int] == '.',
    decreases name.len(),
{
    if name.len() == 0 || name[0] == '.' {
    } else {
        let rest = name.drop_first();
        lemma_stem_of(rest);
        assert forall|j: int| 0 <= j < first_dot(name) implies name[j] != '.' by {
            if j > 0 {
                assert(rest[j - 1] == name[j]);
            }
        }
        if first_dot(name) < name.len() {
            assert(rest[first_dot(rest) as int] == name[first_dot(name) as int]);
        }
    }
}

/// A stem followed by `-` and a decimal numeral can be split again in one
/// way only.
pub proof fn lemma_stem_and_generation(s: Seq<char>, g: nat, t: Seq<char>, h: nat)
    requires
        s + seq!['-'] + decimal(g) == t + seq!['-'] + decimal(h),
    ensures
        s == t,
        g == h,
{
    let a = s + seq!['-'] + decimal(g);
    let b = t + seq!['-'] + decimal(h);
    lemma_decimal_digits(g);
    lemma_decimal_digits(h);
    assert(a.len() == s.len() + 1 + decimal(g).len());
    assert(b.len() == t.len() + 1 + decimal(h).len());
    if s.len() < t.len() {
        let k = t.len() as int;
        assert(b[k] == '-');
        assert(a[k] == decimal(g)[k - s.len() - 1]);
        assert(is_decimal_digit(decimal(g)[k - s.len() - 1]));
        assert(false);
    }
    if t.len() < s.len() {
        let k = s.len() as int;
        assert(a[k] == '-');
        assert(b[k] == decimal(h)[k - t.len() - 1]);
        assert(is_decimal_digit(decimal(h)[k - t.len() - 1]));
        assert(false);
    }
    assert(s =~= a.take(s.len() as int));
    assert(t =~= b.take(t.len() as int));
    assert(decimal(g) =~= a.skip(s.len() as int + 1));
    assert(decimal(h) =~= b.skip(t.len() as int + 1));
    lemma_decimal_injective(g, h);
}

/// Digests of one length, stems and generations that give the same file
/// name are the same.
pub proof fn lemma_entry_name_injective(
    d: Seq<u8>,
    s: Seq<char>,
    g: nat,
    e: Seq<u8>,
    t: Seq<char>,
    h: nat,
)
    requires
        d.len() == e.len(),
        entry_name(d, s, g) == entry_name(e, t, h),
    ensures
        d == e,
        s == t,
        g == h,
{
    let a = entry_name(d, s, g);
    let b = entry_name(e, t, h);
    let n = hex(d).len() as int;
    assert(hex(e).len() == n);
    let x = s + seq!['-'] + decimal(g);
    let y = t + seq!['-'] + decimal(h);
    assert(a.len() == n + 1 + x.len() + 4);
    assert(b.len() == n + 1 + y.len() + 4);
    assert(hex(d) =~= a.take(n));
    assert(hex(e) =~= b.take(n));
    lemma_hex_injective(d, e);
    assert(x =~= a.subrange(n + 1, a.len() - 4));
    assert(y =~= b.subrange(n + 1, b.len() - 4));
    lemma_stem_and_generation(s, g, t, h);
}

/// The file name of an entry with a valid stem, and that of its marker,
/// hold no separator: each is one path component.
pub proof fn law_entry_name_is_one_component(digest: Seq<u8>, stem: Seq<char>, generation: nat)
    requires
        valid_stem(stem),
    ensures
        no_separator(entry_name(digest, stem, generation)),
        no_separator(marker_name(entry_name(digest, stem, generation))),
{
    let name = entry_name(digest, stem, generation);
    let h = hex(digest);
    let d = decimal(generation);
    lemma_decimal_digits(generation);
    assert forall|i: int| 0 <= i < name.len() implies !is_separator(#[trigger] name[i]) by {
        let a = h.len() as int;
        let b = a + 1 + stem.len();
        if i < a {
            assert(name[i] == h[i]);
        } else if i == a {
            assert(name[i] == '-');
        } else if i < b {
            assert(name[i] == stem[i - a - 1]);
        } else if i == b {
            assert(name[i] == '-');
        } else if i < b + 1 + d.len() {
            assert(name[i] == d[i - b - 1]);
            assert(is_decimal_digit(d[i - b - 1]));
        } else {
            let k = i - b - 1 - d.len();
            assert(name[i] == seq!['.', 'f', 'm', 't'][k]);
        }
    }
    lemma_marker_name_is_one_component(name);
}

/// Appending `.ok` to a name without separator gives one without.
pub proof fn lemma_marker_name_is_one_component(file_name: Seq<char>)
    requires
        no_separator(file_name),
    ensures
        no_separator(marker_name(file_name)),
{
    let m = marker_name(file_name);
    assert forall|i: int| 0 <= i < m.len() implies !is_separator(#[trigger] m[i]) by {
        if i < file_name.len() {
            assert(m[i] == file_name[i]);
        } else {
            assert(m[i] == seq!['.', 'o', 'k'][i - file_name.len()]);
        }
    }
}

/// Whether `stem` holds no `/`, no `\` and no NUL.
pub fn is_valid_stem(stem: &str) -> (r: bool)
    ensures
        r == valid_stem(stem@),
{
    let n: usize = stem.unicode_len();
    let mut i: usize = 0;
    while i < n
        invariant
            0 <= i <= n,
            n == stem@.len(),
            forall|j: int| 0 <= j < i ==> !is_separator(#[trigger] stem@[j]),
        decreases n - i,
    {
        let c = stem.get_char(i);
        if c == '/' || c == '\\' || c == '\0' {
            assert(is_separator(stem@[i as int]));
            return false;
        }
        i += 1;
    }
    true
}

/// The part of `name` before its first `.`: all of it where it has none,
/// nothing where it begins with one.
pub fn stem(name: &str) -> (r: &str)
    ensures
        r@ == stem_of(name@),
        r@.len() <= name@.len(),
        forall|j: int| 0 <= j < r@.len() ==> r@[j] != '.',
{
    let n: usize = name.unicode_len();
    let mut i: usize = 0;
    while i < n
        invariant
            0 <= i <= n,
            n == name@.len(),
            forall|j: int| 0 <= j < i ==> name@[j] != '.',
        ensures
            0 <= i <= n,
            forall|j: int| 0 <= j < i ==> name@[j] != '.',
            i == n || name@[i as int] == '.',
        decreases n - i,
    {
        if name.get_char(i) == '.' {
            break ;
        }
        i += 1;
    }
    proof {
        lemma_first_dot(name@, i as int);
        lemma_stem_of(name@);
    }
    name.substring_char(0, i)
}

} // verus!
