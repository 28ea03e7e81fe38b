use vstd::prelude::*;
use vstd::std_specs::iter::IteratorSpec;

verus! {

/// Whether `c` is an ASCII letter.
pub open spec fn is_alphabetic(c: char) -> bool {
    ('a' <= c && c <= 'z') || ('A' <= c && c <= 'Z')
}

/// Whether `c` is an ASCII letter or digit.
pub open spec fn is_alphanumeric(c: char) -> bool {
    is_alphabetic(c) || ('0' <= c && c <= '9')
}

/// The least index at or after `start` at which `s` holds `c`, or the length
/// of `s` where there is none.
pub open spec fn find_from(s: Seq<char>, c: char, start: int) -> int
    decreases s.len() - start,
{
    if start >= s.len() {
        s.len() as int
    } else if s[start] == c {
        start
    } else {
        find_from(s, c, start + 1)
    }
}

/// `find_from` returns the first occurrence: nothing before it is `c`, and
/// it is `c` itself unless the end was reached.
pub proof fn lemma_find_from(s: Seq<char>, c: char, start: int)
    requires
        0 <= start <= s.len(),
    ensures
        start <= find_from(s, c, start) <= s.len(),
        find_from(s, c, start) < s.len() ==> s[find_from(s, c, start)] == c,
        forall|k: int| start <= k < find_from(s, c, start) ==> s[k] != c,
    decreases s.len() - start,
{
    if start < s.len() && s[start] != c {
        lemma_find_from(s, c, start + 1);
    }
}

/// Tests a character for being an ASCII letter.
pub fn char_is_alphabetic(c: char) -> (res: bool)
    ensures
        res == is_alphabetic(c),
{
    (c >= 'a' && c <= 'z') || (c >= 'A' && c <= 'Z')
}

/// Tests a character for being an ASCII letter or digit.
pub fn char_is_alphanumeric(c: char) -> (res: bool)
    ensures
        res == is_alphanumeric(c),
{
    char_is_alphabetic(c) || (c >= '0' && c <= '9')
}

/// The characters of `s`, in order.
pub fn chars_of(s: &str) -> (res: Vec<char>)
    ensures
        res@ == s@,
{
    broadcast use vstd::string::group_string_axioms;

    let mut out: Vec<char> = Vec::new();
    let mut it = s.chars();
    loop
        invariant
            it.obeys_prophetic_iter_laws(),
            it.decrease() is Some,
            out@ + it.remaining() == s@,
        ensures
            out@ == s@,
        decreases it.decrease()->0,
    {
        match it.next() {
            Some(c) => {
                out.push(c);
            },
            None => {
                assert(out@ + it.remaining() =~= out@);
                break;
            },
        }
    }
    out
}

/// The first position at or after `start` that holds `c`, or the length
/// where none does.
pub fn find_char(cs: &Vec<char>, c: char, start: usize) -> (idx: usize)
    requires
        start <= cs.len(),
    ensures
        idx == find_from(cs@, c, start as int),
        start <= idx <= cs.len(),
{
    let mut i: usize = start;
    while i < cs.len() && cs[i] != c
        invariant
            start <= i <= cs.len(),
            find_from(cs@, c, start as int) == find_from(cs@, c, i as int),
        decreases cs.len() - i,
    {
        i += 1;
    }
    i
}

/// `pattern` stands somewhere in `text`.
pub open spec fn has_infix(text: Seq<char>, pattern: Seq<char>) -> bool {
    exists|i: int|
        0 <= i && i + pattern.len() <= text.len() && #[trigger] text.subrange(
            i,
            i + pattern.len(),
        ) == pattern
}

/// Whether `pattern` stands in `text` at position `at`.
fn matches_at(text: &Vec<char>, pattern: &Vec<char>, at: usize) -> (res: bool)
    requires
        at + pattern.len() <= text.len(),
    ensures
        res == (text@.subrange(at as int, at + pattern.len()) == pattern@),
{
    let ghost part = text@.subrange(at as int, at + pattern.len());
    let mut j: usize = 0;
    while j < pattern.len()
        invariant
            j <= pattern.len(),
            at + pattern.len() <= text.len(),
            part == text@.subrange(at as int, at + pattern.len()),
            forall|k: int| 0 <= k < j ==> part[k] == pattern@[k],
        decreases pattern.len() - j,
    {
        if text[at + j] != pattern[j] {
            assert(part[j as int] != pattern@[j as int]);
            return false;
        }
        j += 1;
    }
    assert(part =~= pattern@);
    true
}

/// Whether `pattern` stands somewhere in `text`.
pub fn contains_text(text: &Vec<char>, pattern: &Vec<char>) -> (res: bool)
    ensures
        res == has_infix(text@, pattern@),
{
    if pattern.len() > text.len() {
        return false;
    }
    let last = text.len() - pattern.len();
    let mut i: usize = 0;
    loop
        invariant
            i <= last,
            last == text.len() - pattern.len(),
            forall|k: int|
                0 <= k < i ==> #[trigger] text@.subrange(k, k + pattern.len()) != pattern@,
        decreases last - i,
    {
        if matches_at(text, pattern, i) {
            return true;
        }
        if i == last {
            return false;
        }
        i += 1;
    }
}

/// The decimal digit for `d`.
pub open spec fn digit_char(d: nat) -> char {
    if d == 0 {
        '0'
    } else if d == 1 {
        '1'
    } else if d == 2 {
        '2'
    } else if d == 3 {
        '3'
    } else if d == 4 {
        '4'
    } else if d == 5 {
        '5'
    } else if d == 6 {
        '6'
    } else if d == 7 {
        '7'
    } else if d == 8 {
        '8'
    } else {
        '9'
    }
}

/// `n` in decimal notation, without leading zeros.
pub open spec fn decimal_of(n: nat) -> Seq<char>
    decreases n,
{
    if n < 10 {
        seq![digit_char(n)]
    } else {
        decimal_of(n / 10).push(digit_char(n % 10))
    }
}

/// The text of one decimal digit.
fn digit_text(d: usize) -> (res: &'static str)
    requires
        d < 10,
    ensures
        res@ == seq![digit_char(d as nat)],
{
    proof {
        reveal_strlit("0");
        reveal_strlit("1");
        reveal_strlit("2");
        reveal_strlit("3");
        reveal_strlit("4");
        reveal_strlit("5");
        reveal_strlit("6");
        reveal_strlit("7");
        reveal_strlit("8");
        reveal_strlit("9");
    }
    let res = if d == 0 {
        "0"
    } else if d == 1 {
        "1"
    } else if d == 2 {
        "2"
    } else if d == 3 {
        "3"
    } else if d == 4 {
        "4"
    } else if d == 5 {
        "5"
    } else if d == 6 {
        "6"
    } else if d == 7 {
        "7"
    } else if d == 8 {
        "8"
    } else {
        "9"
    };
    assert(res@ =~= seq![digit_char(d as nat)]);
    res
}

/// Writes `n` in decimal notation.
pub fn decimal(n: usize) -> (res: String)
    ensures
        res@ == decimal_of(n as nat),
    decreases n,
{
    if n < 10 {
        String::from_str(digit_text(n))
    } else {
        let mut out = decimal(n / 10);
        out.append(digit_text(n % 10));
        assert(out@ =~= decimal_of((n / 10) as nat).push(digit_char((n % 10) as nat)));
        out
    }
}

/// `items` one after the other, with `separator` between each two.
pub open spec fn joined(items: Seq<Seq<char>>, separator: Seq<char>) -> Seq<char>
    decreases items.len(),
{
    if items.len() == 0 {
        Seq::empty()
    } else if items.len() == 1 {
        items[0]
    } else {
        joined(items.drop_last(), separator) + separator + items.last()
    }
}

/// Writes `items` one after the other, with `separator` between each two.
pub fn join(items: &Vec<String>, separator: &str) -> (res: String)
    ensures
        res@ == joined(items.deep_view(), separator@),
{
    let ghost all = items.deep_view();
    let mut out = String::new();
    let mut i: usize = 0;
    assert(all.take(0) =~= Seq::empty());
    while i < items.len()
        invariant
            i <= items.len(),
            all == items.deep_view(),
            out@ == joined(all.take(i as int), separator@),
        decreases items.len() - i,
    {
        assert(all.take(i + 1).drop_last() =~= all.take(i as int));
        assert(all.take(i + 1).last() == items[i as int]@);
        if i > 0 {
            out.append(separator);
        } else {
            assert(all.take(1)[0] == items[0]@);
            assert(Seq::<char>::empty() + items[0]@ =~= items[0]@);
        }
        out.append(items[i].as_str());
        i += 1;
    }
    assert(all.take(i as int) =~= all);
    out
}

} // verus!
