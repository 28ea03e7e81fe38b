use vstd::prelude::*;
use vstd::string::StrSliceExecFns;
use crate::text::{
    char_is_alphabetic, char_is_alphanumeric, chars_of, find_char, find_from, is_alphabetic,
    is_alphanumeric,
};

verus! {

/// A character that may stand inside a label name.
pub open spec fn is_name_char(c: char) -> bool {
    is_alphanumeric(c) || c == '-' || c == '_' || c == '.'
}

/// A character that may stand inside one part of a DNS subdomain.
pub open spec fn is_dns_char(c: char) -> bool {
    is_alphanumeric(c) || c == '-'
}

/// A label name: 1 to 63 characters, a letter or digit at either end, and
/// letters, digits, `-`, `_` and `.` between.
pub open spec fn label_name(s: Seq<char>) -> bool {
    &&& 1 <= s.len() <= 63
    &&& is_alphanumeric(s[0])
    &&& is_alphanumeric(s[s.len() - 1])
    &&& forall|i: int| 0 <= i < s.len() ==> is_name_char(#[trigger] s[i])
}

/// One part of a DNS subdomain: 1 to 63 characters, a letter first, a letter
/// or digit last, and letters, digits and `-` between.
pub open spec fn dns_part(s: Seq<char>) -> bool {
    &&& 1 <= s.len() <= 63
    &&& is_alphabetic(s[0])
    &&& is_alphanumeric(s[s.len() - 1])
    &&& forall|i: int| 0 <= i < s.len() ==> is_dns_char(#[trigger] s[i])
}

/// Every dot-separated part of `s` from position `start` on is a `dns_part`.
/// The part that begins at `start` ends before the next dot, or at the end.
pub open spec fn dns_parts_from(s: Seq<char>, start: int) -> bool
    decreases s.len() - start,
{
    let end = find_from(s, '.', start);
    if 0 <= start <= end <= s.len() {
        &&& dns_part(s.subrange(start, end))
        &&& end < s.len() ==> dns_parts_from(s, end + 1)
    } else {
        false
    }
}

/// A DNS subdomain: 1 to 253 characters, made of `dns_part`s joined by dots.
pub open spec fn dns_subdomain(s: Seq<char>) -> bool {
    1 <= s.len() <= 253 && dns_parts_from(s, 0)
}

/// A label key: a `label_name`, or a `dns_subdomain`, a slash, and a
/// `label_name`. The first slash divides the two.
pub open spec fn oam_label_key(key: Seq<char>) -> bool {
    let slash = find_from(key, '/', 0);
    if 0 <= slash < key.len() {
        dns_subdomain(key.subrange(0, slash)) && label_name(
            key.subrange(slash + 1, key.len() as int),
        )
    } else {
        label_name(key)
    }
}

/// Tests `name` against the grammar of label names.
pub fn is_valid_label_name(name: &str) -> (ok: bool)
    ensures
        ok == label_name(name@),
{
    let cs = chars_of(name);
    let n = cs.len();
    if n == 0 || n > 63 {
        return false;
    }
    if !char_is_alphanumeric(cs[0]) || !char_is_alphanumeric(cs[n - 1]) {
        return false;
    }
    let mut i: usize = 0;
    while i < n
        invariant
            i <= n,
            n == cs.len(),
            cs@ == name@,
            1 <= n <= 63,
            is_alphanumeric(cs@[0]),
            is_alphanumeric(cs@[n - 1]),
            forall|k: int| 0 <= k < i ==> is_name_char(#[trigger] cs@[k]),
        decreases n - i,
    {
        let c = cs[i];
        if !(char_is_alphanumeric(c) || c == '-' || c == '_' || c == '.') {
            return false;
        }
        i += 1;
    }
    true
}

/// Tests the characters of `cs` in `start..end` against `dns_part`.
fn is_dns_part(cs: &Vec<char>, start: usize, end: usize) -> (ok: bool)
    requires
        start <= end <= cs.len(),
    ensures
        ok == dns_part(cs@.subrange(start as int, end as int)),
{
    let ghost part = cs@.subrange(start as int, end as int);
    if end == start || end - start > 63 {
        return false;
    }
    assert(part[0] == cs@[start as int]);
    assert(part[part.len() - 1] == cs@[end - 1]);
    if !char_is_alphabetic(cs[start]) || !char_is_alphanumeric(cs[end - 1]) {
        return false;
    }
    let mut i: usize = start;
    while i < end
        invariant
            start <= i <= end <= cs.len(),
            part == cs@.subrange(start as int, end as int),
            forall|k: int| 0 <= k < i - start ==> is_dns_char(#[trigger] part[k]),
        decreases end - i,
    {
        let c = cs[i];
        assert(part[i - start] == c);
        if !(char_is_alphanumeric(c) || c == '-') {
            return false;
        }
        i += 1;
    }
    true
}

/// Tests `s` against the grammar of DNS subdomains.
pub fn is_valid_dns_subdomain(s: &str) -> (ok: bool)
    ensures
        ok == dns_subdomain(s@),
{
    let cs = chars_of(s);
    let n = cs.len();
    if n == 0 || n > 253 {
        return false;
    }
    let mut start: usize = 0;
    loop
        invariant
            start <= n,
            n == cs.len(),
            cs@ == s@,
            1 <= n <= 253,
            dns_parts_from(cs@, 0) == dns_parts_from(cs@, start as int),
        decreases n - start,
    {
        let end = find_char(&cs, '.', start);
        if !is_dns_part(&cs, start, end) {
            return false;
        }
        if end == n {
            return true;
        }
        start = end + 1;
    }
}

/// Tests the key of a label against the grammar of label keys. The value may
/// be any string.
pub fn valid_oam_label(label: (&String, &String)) -> (ok: bool)
    ensures
        ok == oam_label_key(label.0@),
{
    let key = label.0.as_str();
    let cs = chars_of(key);
    let n = cs.len();
    let slash = find_char(&cs, '/', 0);
    if slash < n {
        let prefix = key.substring_char(0, slash);
        let name = key.substring_char(slash + 1, n);
        is_valid_dns_subdomain(prefix) && is_valid_label_name(name)
    } else {
        is_valid_label_name(key)
    }
}

} // verus!
