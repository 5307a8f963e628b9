//! Small text operations the stored rows and wire messages need: ordering
//! record keys, comparing text, and trimming it.
use vstd::prelude::*;

verus! {

/// Strict lexicographic order on text, character by character. On valid
/// UTF-8 this is the order `String`'s own `Ord` gives, since UTF-8 preserves
/// the order of scalar values.
pub open spec fn text_lt(a: Seq<char>, b: Seq<char>) -> bool
    decreases a.len(),
{
    if a.len() == 0 {
        b.len() > 0
    } else if b.len() == 0 {
        false
    } else if (a[0] as int) < (b[0] as int) {
        true
    } else if a[0] == b[0] {
        text_lt(a.drop_first(), b.drop_first())
    } else {
        false
    }
}

pub proof fn lemma_text_lt_irreflexive(a: Seq<char>)
    ensures
        !text_lt(a, a),
    decreases a.len(),
{
    if a.len() > 0 {
        lemma_text_lt_irreflexive(a.drop_first());
    }
}

pub proof fn lemma_text_lt_total(a: Seq<char>, b: Seq<char>)
    ensures
        text_lt(a, b) || text_lt(b, a) || a == b,
    decreases a.len(),
{
    if a.len() > 0 && b.len() > 0 && a[0] == b[0] {
        lemma_text_lt_total(a.drop_first(), b.drop_first());
        if a.drop_first() == b.drop_first() {
            assert(a =~= seq![a[0]] + a.drop_first());
            assert(b =~= seq![b[0]] + b.drop_first());
        }
    } else if a.len() == 0 && b.len() == 0 {
        assert(a =~= b);
    } else if a.len() > 0 && b.len() > 0 {
        assert((a[0] as int) != (b[0] as int));
    }
}

pub proof fn lemma_text_lt_asymmetric(a: Seq<char>, b: Seq<char>)
    ensures
        text_lt(a, b) ==> !text_lt(b, a),
    decreases a.len(),
{
    if a.len() > 0 && b.len() > 0 && a[0] == b[0] {
        lemma_text_lt_asymmetric(a.drop_first(), b.drop_first());
    }
}

pub proof fn lemma_text_lt_transitive(a: Seq<char>, b: Seq<char>, c: Seq<char>)
    requires
        text_lt(a, b),
        text_lt(b, c),
    ensures
        text_lt(a, c),
    decreases a.len(),
{
    if a.len() > 0 && b.len() > 0 && c.len() > 0 && a[0] == b[0] && b[0] == c[0] {
        lemma_text_lt_transitive(a.drop_first(), b.drop_first(), c.drop_first());
    }
}

/// `a` sorts strictly before `b`.
pub fn text_less(a: &str, b: &str) -> (r: bool)
    ensures
        r == text_lt(a@, b@),
{
    let la = a.unicode_len();
    let lb = b.unicode_len();
    let mut i: usize = 0;
    assert(a@.skip(0) =~= a@);
    assert(b@.skip(0) =~= b@);
    while i < la && i < lb
        invariant
            la == a@.len(),
            lb == b@.len(),
            i <= la,
            i <= lb,
            forall|k: int| 0 <= k < i ==> a@[k] == b@[k],
            text_lt(a@, b@) == text_lt(a@.skip(i as int), b@.skip(i as int)),
        decreases la - i,
    {
        let ca = a.get_char(i);
        let cb = b.get_char(i);
        proof {
            assert(a@.skip(i as int)[0] == ca);
            assert(b@.skip(i as int)[0] == cb);
            assert(a@.skip(i as int).drop_first() =~= a@.skip(i + 1));
            assert(b@.skip(i as int).drop_first() =~= b@.skip(i + 1));
        }
        if (ca as u32) < (cb as u32) {
            return true;
        }
        if ca != cb {
            return false;
        }
        i = i + 1;
    }
    i < lb
}

/// `a` and `b` hold the same text.
pub fn text_eq(a: &str, b: &str) -> (r: bool)
    ensures
        r == (a@ == b@),
{
    let la = a.unicode_len();
    let lb = b.unicode_len();
    if la != lb {
        return false;
    }
    let mut i: usize = 0;
    while i < la
        invariant
            la == a@.len(),
            lb == b@.len(),
            la == lb,
            i <= la,
            forall|k: int| 0 <= k < i ==> a@[k] == b@[k],
        decreases la - i,
    {
        if a.get_char(i) != b.get_char(i) {
            return false;
        }
        i = i + 1;
    }
    assert(a@ =~= b@);
    true
}

/// Whether `c` has the Unicode `White_Space` property, the set `char::is_whitespace`
/// and `str::trim` go by.
pub open spec fn white_space(c: char) -> bool {
    let u = c as u32;
    ||| 0x9 <= u <= 0xd
    ||| u == 0x20
    ||| u == 0x85
    ||| u == 0xa0
    ||| u == 0x1680
    ||| 0x2000 <= u <= 0x200a
    ||| u == 0x2028
    ||| u == 0x2029
    ||| u == 0x202f
    ||| u == 0x205f
    ||| u == 0x3000
}

/// What a trim removes: white space, or one given character.
#[derive(Debug, Clone, Copy, PartialEq, Eq, Structural)]
pub enum Strip {
    WhiteSpace,
    Char(char),
}

pub open spec fn strips(k: Strip, c: char) -> bool {
    match k {
        Strip::WhiteSpace => white_space(c),
        Strip::Char(d) => c == d,
    }
}

fn is_stripped(k: Strip, c: char) -> (r: bool)
    ensures
        r == strips(k, c),
{
    match k {
        Strip::WhiteSpace => {
            let u = c as u32;
            (0x9 <= u && u <= 0xd) || u == 0x20 || u == 0x85 || u == 0xa0 || u == 0x1680 || (
            0x2000 <= u && u <= 0x200a) || u == 0x2028 || u == 0x2029 || u == 0x202f || u
                == 0x205f || u == 0x3000
        },
        Strip::Char(d) => c == d,
    }
}

/// `s` without the characters `k` strips at its front.
pub open spec fn front_trimmed(s: Seq<char>, k: Strip) -> Seq<char>
    decreases s.len(),
{
    if s.len() > 0 && strips(k, s[0]) {
        front_trimmed(s.drop_first(), k)
    } else {
        s
    }
}

/// `s` without the characters `k` strips at its back.
pub open spec fn back_trimmed(s: Seq<char>, k: Strip) -> Seq<char>
    decreases s.len(),
{
    if s.len() > 0 && strips(k, s.last()) {
        back_trimmed(s.drop_last(), k)
    } else {
        s
    }
}

/// `s` without the characters `k` strips at either end: `str::trim` for white
/// space, `str::trim_matches` for a character.
pub open spec fn trimmed(s: Seq<char>, k: Strip) -> Seq<char> {
    back_trimmed(front_trimmed(s, k), k)
}

/// `str::trim_start_matches`, `str::trim_start` for white space.
pub fn trim_front(s: &str, k: Strip) -> (r: &str)
    ensures
        r@ == front_trimmed(s@, k),
{
    let n = s.unicode_len();
    let mut i: usize = 0;
    assert(s@.skip(0) =~= s@);
    while i < n && is_stripped(k, s.get_char(i))
        invariant
            n == s@.len(),
            i <= n,
            front_trimmed(s@, k) == front_trimmed(s@.skip(i as int), k),
        decreases n - i,
    {
        proof {
            assert(s@.skip(i as int)[0] == s@[i as int]);
            assert(s@.skip(i as int).drop_first() =~= s@.skip(i + 1));
        }
        i = i + 1;
    }
    let r = s.substring_char(i, n);
    proof {
        assert(r@ =~= s@.skip(i as int));
        if i < n {
            assert(s@.skip(i as int)[0] == s@[i as int]);
        }
    }
    r
}

/// `str::trim_end_matches`, `str::trim_end` for white space.
pub fn trim_back(s: &str, k: Strip) -> (r: &str)
    ensures
        r@ == back_trimmed(s@, k),
{
    let n = s.unicode_len();
    let mut j: usize = n;
    assert(s@.take(n as int) =~= s@);
    while j > 0 && is_stripped(k, s.get_char(j - 1))
        invariant
            n == s@.len(),
            j <= n,
            back_trimmed(s@, k) == back_trimmed(s@.take(j as int), k),
        decreases j,
    {
        proof {
            assert(s@.take(j as int).last() == s@[j - 1]);
            assert(s@.take(j as int).drop_last() =~= s@.take(j - 1));
        }
        j = j - 1;
    }
    let r = s.substring_char(0, j);
    proof {
        assert(r@ =~= s@.take(j as int));
        if j > 0 {
            assert(s@.take(j as int).last() == s@[j - 1]);
        }
    }
    r
}

/// `str::trim_matches`, `str::trim` for white space.
pub fn trim(s: &str, k: Strip) -> (r: &str)
    ensures
        r@ == trimmed(s@, k),
{
    trim_back(trim_front(s, k), k)
}

/// `c` with an ASCII capital letter lowered, as `to_ascii_lowercase` does.
pub open spec fn ascii_lower(c: char) -> char {
    if 65 <= (c as u32) <= 90 {
        (((c as u32) + 32) as u8) as char
    } else {
        c
    }
}

/// `s` with its ASCII capitals lowered; every other character is kept.
pub open spec fn ascii_lowered(s: Seq<char>) -> Seq<char> {
    s.map_values(|c: char| ascii_lower(c))
}

/// Whether `s`, with its ASCII capitals lowered, is `lower`.
pub fn lowers_to(s: &str, lower: &str) -> (r: bool)
    ensures
        r == (ascii_lowered(s@) == lower@),
{
    let n = s.unicode_len();
    if n != lower.unicode_len() {
        proof {
            assert(ascii_lowered(s@).len() != lower@.len());
        }
        return false;
    }
    let mut i: usize = 0;
    while i < n
        invariant
            n == s@.len(),
            n == lower@.len(),
            i <= n,
            forall|k: int| 0 <= k < i ==> ascii_lower(#[trigger] s@[k]) == lower@[k],
        decreases n - i,
    {
        let c = s.get_char(i);
        let u: u32 = c as u32;
        let l = if 65 <= u && u <= 90 {
            ((u + 32) as u8) as char
        } else {
            c
        };
        if l != lower.get_char(i) {
            proof {
                assert(ascii_lowered(s@)[i as int] != lower@[i as int]);
            }
            return false;
        }
        i = i + 1;
    }
    assert(ascii_lowered(s@) =~= lower@);
    true
}

} // verus!
