use vstd::prelude::*;

verus! {

/// Whether two string slices hold the same characters.
pub fn same_text(a: &str, b: &str) -> (r: bool)
    ensures
        r == (a@ == b@),
{
    let n = a.unicode_len();
    if n != b.unicode_len() {
        return false;
    }
    let mut i: usize = 0;
    while i < n
        invariant
            n == a@.len(),
            n == b@.len(),
            i <= n,
            a@.subrange(0, i as int) == b@.subrange(0, i as int),
        decreases n - i,
    {
        if a.get_char(i) != b.get_char(i) {
            return false;
        }
        assert(a@.subrange(0, i + 1) == a@.subrange(0, i as int).push(a@[i as int]));
        assert(b@.subrange(0, i + 1) == b@.subrange(0, i as int).push(b@[i as int]));
        i = i + 1;
    }
    assert(a@ == a@.subrange(0, n as int));
    assert(b@ == b@.subrange(0, n as int));
    true
}


/// Whether `s` begins with `prefix`.
pub fn starts_with(s: &str, prefix: &str) -> (r: bool)
    ensures
        r == prefix@.is_prefix_of(s@),
{
    let n = prefix.unicode_len();
    if n > s.unicode_len() {
        return false;
    }
    same_text(s.substring_char(0, n), prefix)
}

/// Separators between the words of a console line: the characters with the Unicode
/// White_Space property.
pub open spec fn is_space(c: char) -> bool {
    ('\t' <= c && c <= '\r') || c == ' ' || c == '\u{85}' || c == '\u{A0}' || c == '\u{1680}'
        || ('\u{2000}' <= c && c <= '\u{200A}') || c == '\u{2028}' || c == '\u{2029}'
        || c == '\u{202F}' || c == '\u{205F}' || c == '\u{3000}'
}

/// The words of `s` from position `i` on, where the word being read began at `start`.
pub open spec fn words_from(s: Seq<char>, i: int, start: int) -> Seq<Seq<char>>
    decreases s.len() - i,
{
    if i >= s.len() {
        if start < s.len() {
            seq![s.subrange(start, s.len() as int)]
        } else {
            Seq::empty()
        }
    } else if is_space(s[i]) {
        (if start < i {
            seq![s.subrange(start, i)]
        } else {
            Seq::empty()
        }) + words_from(s, i + 1, i + 1)
    } else {
        words_from(s, i + 1, start)
    }
}

/// The maximal runs of non-separator characters of `s`, in order.
pub open spec fn words(s: Seq<char>) -> Seq<Seq<char>> {
    words_from(s, 0, 0)
}

/// The character sequences held by a sequence of strings.
pub open spec fn texts(v: Seq<String>) -> Seq<Seq<char>> {
    v.map_values(|w: String| w@)
}

/// Splits `line` into its words: maximal runs of characters that are not whitespace.
pub fn split_words(line: &str) -> (r: Vec<String>)
    ensures
        texts(r@) == words(line@),
{
    let n = line.unicode_len();
    let mut out: Vec<String> = Vec::new();
    let mut start: usize = 0;
    let mut i: usize = 0;
    while i < n
        invariant
            n == line@.len(),
            start <= i <= n,
            texts(out@) + words_from(line@, i as int, start as int) == words(line@),
        decreases n - i,
    {
        let c = line.get_char(i);
        if is_space_char(c) {
            if start < i {
                let w = String::from_str(line.substring_char(start, i));
                proof {
                    assert(texts(out@.push(w)) == texts(out@).push(w@));
                    assert(texts(out@).push(w@) + words_from(line@, i + 1, i + 1)
                        == texts(out@) + (seq![w@] + words_from(line@, i + 1, i + 1)));
                }
                out.push(w);
            } else {
                assert(Seq::<Seq<char>>::empty() + words_from(line@, i + 1, i + 1)
                    == words_from(line@, i + 1, i + 1));
            }
            start = i + 1;
        }
        i = i + 1;
    }
    if start < n {
        let w = String::from_str(line.substring_char(start, n));
        proof {
            assert(texts(out@.push(w)) == texts(out@).push(w@));
        }
        out.push(w);
    } else {
        assert(texts(out@) + Seq::<Seq<char>>::empty() == texts(out@));
    }
    out
}

/// Whether `c` separates words.
pub fn is_space_char(c: char) -> (r: bool)
    ensures
        r == is_space(c),
{
    ('\t' <= c && c <= '\r') || c == ' ' || c == '\u{85}' || c == '\u{A0}' || c == '\u{1680}'
        || ('\u{2000}' <= c && c <= '\u{200A}') || c == '\u{2028}' || c == '\u{2029}'
        || c == '\u{202F}' || c == '\u{205F}' || c == '\u{3000}'
}

pub open spec fn is_digit(c: char) -> bool {
    '0' <= c && c <= '9'
}

pub open spec fn digit_value(c: char) -> int {
    c as int - '0' as int
}

/// The number written by the decimal digits `d`, most significant first.
pub open spec fn digits_value(d: Seq<char>) -> int
    decreases d.len(),
{
    if d.len() == 0 {
        0
    } else {
        digits_value(d.drop_last()) * 10 + digit_value(d.last())
    }
}

/// The digits of an unsigned decimal: the text without one leading `+`.
pub open spec fn unsigned_digits(s: Seq<char>) -> Seq<char> {
    if s.len() > 0 && s[0] == '+' {
        s.drop_first()
    } else {
        s
    }
}

/// The value of `s` read as an unsigned decimal (an optional `+`, then one or more
/// digits), if it is one.
pub open spec fn decimal_value(s: Seq<char>) -> Option<nat> {
    let d = unsigned_digits(s);
    if d.len() > 0 && forall|i: int| 0 <= i < d.len() ==> is_digit(#[trigger] d[i]) {
        Some(digits_value(d) as nat)
    } else {
        None
    }
}

proof fn lemma_digits_value_grows(d: Seq<char>, k: int)
    requires
        0 <= k <= d.len(),
        forall|i: int| 0 <= i < d.len() ==> is_digit(#[trigger] d[i]),
    ensures
        0 <= digits_value(d.subrange(0, k)) <= digits_value(d),
    decreases d.len(),
{
    if d.len() > 0 {
        let p = d.drop_last();
        lemma_digits_value_grows(p, if k == d.len() { p.len() as int } else { k });
        assert(p.subrange(0, p.len() as int) == p);
        if k == d.len() {
            assert(d.subrange(0, k) == d);
        } else {
            assert(p.subrange(0, k) == d.subrange(0, k));
        }
        assert(is_digit(d[d.len() - 1]));
    } else {
        assert(d.subrange(0, k) == d);
    }
}

/// Reads `s` as an unsigned decimal that fits in 64 bits: an optional `+` and one or
/// more digits, nothing else.
pub fn parse_u64(s: &str) -> (r: Option<u64>)
    ensures
        r == (match decimal_value(s@) {
            Some(v) => if v <= u64::MAX {
                Some(v as u64)
            } else {
                None::<u64>
            },
            None => None,
        }),
{
    let n = s.unicode_len();
    let mut i: usize = 0;
    if n > 0 && s.get_char(0) == '+' {
        i = 1;
    }
    let ghost first = i as int;
    let ghost d = unsigned_digits(s@);
    assert(d == s@.subrange(first, n as int));
    if i == n {
        return None;
    }
    let mut acc: u64 = 0;
    while i < n
        invariant
            n == s@.len(),
            0 <= first <= i <= n,
            d == s@.subrange(first, n as int),
            d == unsigned_digits(s@),
            forall|j: int| 0 <= j < i - first ==> is_digit(#[trigger] d[j]),
            acc as int == digits_value(d.subrange(0, i - first)),
        decreases n - i,
    {
        let c = s.get_char(i);
        if !('0' <= c && c <= '9') {
            assert(!is_digit(d[i - first]));
            return None;
        }
        let v = (c as u32 - '0' as u32) as u64;
        assert(d.subrange(0, i - first + 1).drop_last() == d.subrange(0, i - first));
        match acc.checked_mul(10) {
            None => {
                proof {
                    if forall|j: int| 0 <= j < d.len() ==> is_digit(#[trigger] d[j]) {
                        lemma_digits_value_grows(d, i - first + 1);
                    }
                }
                return None;
            },
            Some(m) => match m.checked_add(v) {
                None => {
                    proof {
                        if forall|j: int| 0 <= j < d.len() ==> is_digit(#[trigger] d[j]) {
                            lemma_digits_value_grows(d, i - first + 1);
                        }
                    }
                    return None;
                },
                Some(a) => {
                    acc = a;
                },
            },
        }
        i = i + 1;
    }
    assert(d.subrange(0, n - first) == d);
    proof {
        lemma_digits_value_grows(d, 0);
    }
    Some(acc)
}

} // verus!
