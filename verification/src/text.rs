//! Character-level string helpers with exact specifications.
//!
//! Strings are reasoned about through their views as `Seq<char>`.
use vstd::prelude::*;

verus! {

/// ASCII lower-casing of one character; every other character is kept.
pub open spec fn ascii_lower(c: char) -> char {
    if 'A' <= c && c <= 'Z' {
        ((c as u32) + 32) as char
    } else {
        c
    }
}

/// Whether `c` is an ASCII decimal digit.
pub open spec fn is_ascii_digit(c: char) -> bool {
    '0' <= c && c <= '9'
}

/// ASCII case-insensitive equality of two character sequences.
pub open spec fn eq_ignore_ascii_case_spec(a: Seq<char>, b: Seq<char>) -> bool {
    &&& a.len() == b.len()
    &&& forall|i: int| 0 <= i < a.len() ==> #[trigger] ascii_lower(a[i]) == ascii_lower(b[i])
}

/// Whether `p` is a prefix of `s`.
pub open spec fn has_prefix(s: Seq<char>, p: Seq<char>) -> bool {
    p.len() <= s.len() && s.subrange(0, p.len() as int) == p
}

/// Whether `p` is a suffix of `s`.
pub open spec fn has_suffix(s: Seq<char>, p: Seq<char>) -> bool {
    p.len() <= s.len() && s.subrange(s.len() - p.len(), s.len() as int) == p
}

/// Whether `c` occurs in `s`.
pub open spec fn has_char(s: Seq<char>, c: char) -> bool {
    exists|i: int| 0 <= i < s.len() && s[i] == c
}

/// Index of the first occurrence of `c` in `s`, if any.
pub open spec fn first_index_of(s: Seq<char>, c: char) -> Option<int>
    decreases s.len(),
{
    if s.len() == 0 {
        None
    } else if s[0] == c {
        Some(0)
    } else {
        match first_index_of(s.drop_first(), c) {
            Some(i) => Some(i + 1),
            None => None,
        }
    }
}

/// Number of bytes that one character takes in UTF-8.
pub open spec fn utf8_width(c: char) -> nat {
    if (c as u32) < 0x80 {
        1
    } else if (c as u32) < 0x800 {
        2
    } else if (c as u32) < 0x10000 {
        3
    } else {
        4
    }
}

/// Number of bytes that a character sequence takes in UTF-8.
pub open spec fn utf8_len(s: Seq<char>) -> nat
    decreases s.len(),
{
    if s.len() == 0 {
        0
    } else {
        utf8_len(s.drop_last()) + utf8_width(s.last())
    }
}

/// ASCII upper-casing of one character; every other character is kept.
pub open spec fn ascii_upper(c: char) -> char {
    if 'a' <= c && c <= 'z' {
        ((c as u32) - 32) as char
    } else {
        c
    }
}

/// Whether every character of `s` is ASCII.
pub open spec fn is_ascii_text(s: Seq<char>) -> bool {
    forall|i: int| 0 <= i < s.len() ==> (#[trigger] s[i] as u32) < 0x80
}

/// The result of Unicode lower-casing, as `str::to_lowercase` computes it.
pub uninterp spec fn lowercase(s: Seq<char>) -> Seq<char>;

/// The result of Unicode upper-casing, as `str::to_uppercase` computes it.
pub uninterp spec fn uppercase(s: Seq<char>) -> Seq<char>;

/// Lower-casing as `str::to_lowercase` does it: on ASCII text, each letter 'A'..'Z'
/// becomes 'a'..'z' and every other character is kept; other text maps as `lowercase`
/// names it.
pub open spec fn lower_text(s: Seq<char>) -> Seq<char> {
    if is_ascii_text(s) {
        s.map_values(|c: char| ascii_lower(c))
    } else {
        lowercase(s)
    }
}

/// Upper-casing as `str::to_uppercase` does it: on ASCII text, each letter 'a'..'z'
/// becomes 'A'..'Z' and every other character is kept; other text maps as `uppercase`
/// names it.
pub open spec fn upper_text(s: Seq<char>) -> Seq<char> {
    if is_ascii_text(s) {
        s.map_values(|c: char| ascii_upper(c))
    } else {
        uppercase(s)
    }
}

/// Calls `str::to_lowercase`; the result is named `lowercase` of the argument. Unicode
/// lower-cases the ASCII letters 'A'..'Z' to 'a'..'z' and keeps the other ASCII
/// characters, so ASCII text maps character by character.
#[verifier::external_body]
pub fn to_lowercase(s: &str) -> (r: String)
    ensures
        r@ == lowercase(s@),
        is_ascii_text(s@) ==> r@ == s@.map_values(|c: char| ascii_lower(c)),
{
    s.to_lowercase()
}

/// Calls `str::to_uppercase`; the result is named `uppercase` of the argument. Unicode
/// upper-cases the ASCII letters 'a'..'z' to 'A'..'Z' and keeps the other ASCII
/// characters, so ASCII text maps character by character.
#[verifier::external_body]
pub fn to_uppercase(s: &str) -> (r: String)
    ensures
        r@ == uppercase(s@),
        is_ascii_text(s@) ==> r@ == s@.map_values(|c: char| ascii_upper(c)),
{
    s.to_uppercase()
}

/// Calls `String::push`, which appends one character.
#[verifier::external_body]
pub fn push_char(s: &mut String, c: char)
    ensures
        final(s)@ == old(s)@.push(c),
{
    s.push(c);
}

/// The characters of `s`, collected into a vector.
pub fn chars_of(s: &str) -> (v: Vec<char>)
    ensures
        v@ == s@,
{
    let mut v: Vec<char> = Vec::new();
    for c in it: s.chars()
        invariant
            v@ == it.seq().take(it.index() as int),
    {
        v.push(c);
    }
    v
}

/// A string holding exactly the given characters.
pub fn string_from_chars(v: &Vec<char>) -> (s: String)
    ensures
        s@ == v@,
{
    let mut s = String::new();
    let n = v.len();
    for i in 0..n
        invariant
            n == v@.len(),
            s@ == v@.subrange(0, i as int),
    {
        push_char(&mut s, v[i]);
        assert(v@.subrange(0, i + 1) == v@.subrange(0, i as int).push(v@[i as int]));
    }
    assert(v@.subrange(0, n as int) == v@);
    s
}

/// An owned copy of `s`.
pub fn owned(s: &str) -> (r: String)
    ensures
        r@ == s@,
{
    String::from_str(s)
}

/// An owned copy of `s`.
pub fn copy_string(s: &String) -> (r: String)
    ensures
        r@ == s@,
{
    String::from_str(s.as_str())
}

/// The concatenation of two strings.
pub fn concat2(a: &str, b: &str) -> (r: String)
    ensures
        r@ == a@ + b@,
{
    let mut r = String::from_str(a);
    r.append(b);
    r
}

/// The concatenation of three strings.
pub fn concat3(a: &str, b: &str, c: &str) -> (r: String)
    ensures
        r@ == a@ + b@ + c@,
{
    let mut r = String::from_str(a);
    r.append(b);
    r.append(c);
    r
}

/// The concatenation of four strings.
pub fn concat4(a: &str, b: &str, c: &str, d: &str) -> (r: String)
    ensures
        r@ == a@ + b@ + c@ + d@,
{
    let mut r = String::from_str(a);
    r.append(b);
    r.append(c);
    r.append(d);
    r
}

/// ASCII lower-casing of one character.
pub fn char_ascii_lower(c: char) -> (r: char)
    ensures
        r == ascii_lower(c),
{
    if 'A' <= c && c <= 'Z' {
        let b: u8 = ((c as u32) + 32) as u8;
        let r = b as char;
        assert(r == ((c as u32) + 32) as char);
        r
    } else {
        c
    }
}

/// Equality of two character sequences.
pub fn vec_chars_eq(a: &Vec<char>, b: &Vec<char>) -> (r: bool)
    ensures
        r == (a@ == b@),
{
    if a.len() != b.len() {
        return false;
    }
    let n = a.len();
    for i in 0..n
        invariant
            n == a@.len(),
            n == b@.len(),
            forall|j: int| 0 <= j < i ==> a@[j] == b@[j],
    {
        if a[i] != b[i] {
            return false;
        }
    }
    assert(a@ =~= b@);
    true
}

/// Equality of two strings.
pub fn str_eq(a: &str, b: &str) -> (r: bool)
    ensures
        r == (a@ == b@),
{
    let va = chars_of(a);
    let vb = chars_of(b);
    vec_chars_eq(&va, &vb)
}

/// ASCII case-insensitive equality, as `str::eq_ignore_ascii_case` defines it.
pub fn eq_ignore_ascii_case(a: &str, b: &str) -> (r: bool)
    ensures
        r == eq_ignore_ascii_case_spec(a@, b@),
{
    let va = chars_of(a);
    let vb = chars_of(b);
    if va.len() != vb.len() {
        return false;
    }
    let n = va.len();
    for i in 0..n
        invariant
            n == va@.len(),
            n == vb@.len(),
            va@ == a@,
            vb@ == b@,
            forall|j: int| 0 <= j < i ==> #[trigger] ascii_lower(va@[j]) == ascii_lower(vb@[j]),
    {
        if char_ascii_lower(va[i]) != char_ascii_lower(vb[i]) {
            return false;
        }
    }
    true
}

/// Whether `s` starts with `p`.
pub fn starts_with(s: &str, p: &str) -> (r: bool)
    ensures
        r == has_prefix(s@, p@),
{
    let vs = chars_of(s);
    let vp = chars_of(p);
    if vp.len() > vs.len() {
        return false;
    }
    let n = vp.len();
    for i in 0..n
        invariant
            n == vp@.len(),
            n <= vs@.len(),
            vs@ == s@,
            vp@ == p@,
            forall|j: int| 0 <= j < i ==> vs@[j] == vp@[j],
    {
        if vs[i] != vp[i] {
            return false;
        }
    }
    assert(s@.subrange(0, p@.len() as int) =~= p@);
    true
}

/// Whether `s` ends with `p`.
pub fn ends_with(s: &str, p: &str) -> (r: bool)
    ensures
        r == has_suffix(s@, p@),
{
    let vs = chars_of(s);
    let vp = chars_of(p);
    if vp.len() > vs.len() {
        return false;
    }
    let n = vp.len();
    let off = vs.len() - n;
    for i in 0..n
        invariant
            n == vp@.len(),
            off + n == vs@.len(),
            vs@.len() <= usize::MAX,
            vs@ == s@,
            vp@ == p@,
            forall|j: int| 0 <= j < i ==> vs@[off + j] == vp@[j],
    {
        if vs[off + i] != vp[i] {
            return false;
        }
    }
    assert(s@.subrange(s@.len() - p@.len(), s@.len() as int) =~= p@);
    true
}

/// Index of the first occurrence of `c` among the characters `v`.
pub fn find_char(v: &Vec<char>, c: char) -> (r: Option<usize>)
    ensures
        match first_index_of(v@, c) {
            Some(i) => r == Some(i as usize),
            None => r is None,
        },
        r matches Some(i) ==> i < v@.len() && v@[i as int] == c,
{
    let n = v.len();
    for i in 0..n
        invariant
            n == v@.len(),
            forall|j: int| 0 <= j < i ==> v@[j] != c,
    {
        if v[i] == c {
            proof {
                lemma_first_index_of_found(v@, c, i as int);
            }
            return Some(i);
        }
    }
    proof {
        lemma_first_index_of_absent(v@, c);
    }
    None
}

/// When `s[i] == c` and no earlier position holds `c`, the first index of `c` is `i`.
pub proof fn lemma_first_index_of_found(s: Seq<char>, c: char, i: int)
    requires
        0 <= i < s.len(),
        s[i] == c,
        forall|j: int| 0 <= j < i ==> s[j] != c,
    ensures
        first_index_of(s, c) == Some(i),
    decreases s.len(),
{
    if i > 0 {
        lemma_first_index_of_found(s.drop_first(), c, i - 1);
    }
}

/// When no position holds `c`, there is no first index of `c`.
pub proof fn lemma_first_index_of_absent(s: Seq<char>, c: char)
    requires
        forall|j: int| 0 <= j < s.len() ==> s[j] != c,
    ensures
        first_index_of(s, c) is None,
    decreases s.len(),
{
    if s.len() > 0 {
        lemma_first_index_of_absent(s.drop_first(), c);
    }
}

/// The first index of `c`, when there is one, holds `c`, and no earlier index does.
pub proof fn lemma_first_index_of_props(s: Seq<char>, c: char)
    ensures
        match first_index_of(s, c) {
            Some(i) => 0 <= i < s.len() && s[i] == c && forall|j: int| 0 <= j < i ==> s[j] != c,
            None => forall|j: int| 0 <= j < s.len() ==> s[j] != c,
        },
    decreases s.len(),
{
    if s.len() > 0 {
        lemma_first_index_of_props(s.drop_first(), c);
        if s[0] != c {
            match first_index_of(s.drop_first(), c) {
                Some(i) => {
                    assert forall|j: int| 0 <= j < i + 1 implies s[j] != c by {
                        if j > 0 {
                            assert(s[j] == s.drop_first()[j - 1]);
                        }
                    }
                },
                None => {
                    assert forall|j: int| 0 <= j < s.len() implies s[j] != c by {
                        if j > 0 {
                            assert(s[j] == s.drop_first()[j - 1]);
                        }
                    }
                },
            }
        }
    }
}

/// The part of `s` from character index `from` to `to`.
pub fn substring(s: &str, from: usize, to: usize) -> (r: &str)
    requires
        from <= to <= s@.len(),
    ensures
        r@ == s@.subrange(from as int, to as int),
{
    s.substring_char(from, to)
}

/// `s` without the prefix `p`, when `s` starts with `p`.
pub open spec fn strip_prefix_spec(s: Seq<char>, p: Seq<char>) -> Option<Seq<char>> {
    if has_prefix(s, p) {
        Some(s.subrange(p.len() as int, s.len() as int))
    } else {
        None
    }
}

/// `s` without the prefix `p`, as `str::strip_prefix` gives it; `None` when `s` does not
/// start with `p`.
pub fn strip_prefix<'a>(s: &'a str, p: &str) -> (r: Option<&'a str>)
    ensures
        match r {
            Some(t) => strip_prefix_spec(s@, p@) == Some(t@),
            None => strip_prefix_spec(s@, p@) is None,
        },
{
    if starts_with(s, p) {
        let n = chars_of(s).len();
        let k = chars_of(p).len();
        Some(substring(s, k, n))
    } else {
        None
    }
}

/// `s` with its first character upper-cased.
pub open spec fn capitalize_spec(s: Seq<char>) -> Seq<char> {
    if s.len() == 0 {
        Seq::empty()
    } else {
        upper_text(seq![s[0]]) + s.drop_first()
    }
}

/// `s` with its first character upper-cased. The first character is upper-cased with
/// `str::to_uppercase` on the string of that one character, which maps it as
/// `char::to_uppercase` does.
pub fn capitalize(s: &str) -> (r: String)
    ensures
        r@ == capitalize_spec(s@),
{
    let v = chars_of(s);
    if v.len() == 0 {
        return String::new();
    }
    let mut first = String::new();
    push_char(&mut first, v[0]);
    assert(first@ =~= seq![s@[0]]);
    let mut r = to_uppercase(first.as_str());
    let rest = substring(s, 1, v.len());
    r.append(rest);
    assert(rest@ =~= s@.drop_first());
    r
}

/// The value of ASCII decimal digits, most significant first.
pub open spec fn digits_value(d: Seq<char>) -> nat
    decreases d.len(),
{
    if d.len() == 0 {
        0
    } else {
        digits_value(d.drop_last()) * 10 + ((d.last() as u32) - 48) as nat
    }
}

/// `s` without a leading "+".
pub open spec fn unsigned_digits(s: Seq<char>) -> Seq<char> {
    if s.len() > 0 && s[0] == '+' {
        s.drop_first()
    } else {
        s
    }
}

/// Whether every character of `d` is an ASCII digit.
pub open spec fn all_ascii_digits(d: Seq<char>) -> bool {
    forall|i: int| 0 <= i < d.len() ==> #[trigger] is_ascii_digit(d[i])
}

/// The number that `str::parse::<u64>` reads from `s`: an optional "+" followed by at
/// least one ASCII digit, of value at most `u64::MAX`; `None` otherwise.
pub open spec fn parse_u64_spec(s: Seq<char>) -> Option<u64> {
    let d = unsigned_digits(s);
    if d.len() > 0 && all_ascii_digits(d) && digits_value(d) <= u64::MAX {
        Some(digits_value(d) as u64)
    } else {
        None
    }
}

/// Reads an unsigned number as `str::parse::<u64>` does.
pub fn parse_u64(s: &str) -> (r: Option<u64>)
    ensures
        r == parse_u64_spec(s@),
{
    let v = chars_of(s);
    let start: usize = if v.len() > 0 && v[0] == '+' { 1 } else { 0 };
    let ghost d = unsigned_digits(s@);
    assert(d =~= s@.subrange(start as int, s@.len() as int));
    if start >= v.len() {
        return None;
    }
    let mut value: u64 = 0;
    let mut i: usize = start;
    while i < v.len()
        invariant
            v@ == s@,
            start <= i <= v@.len(),
            d == s@.subrange(start as int, s@.len() as int),
            d == unsigned_digits(s@),
            forall|j: int| start <= j < i ==> is_ascii_digit(#[trigger] v@[j]),
            value as nat == digits_value(d.take(i - start)),
        decreases v@.len() - i,
    {
        let c = v[i];
        if !('0' <= c && c <= '9') {
            assert(d[i - start] == c);
            assert(!is_ascii_digit(d[i - start]));
            assert(!all_ascii_digits(d));
            return None;
        }
        assert(d.take(i + 1 - start).drop_last() =~= d.take(i - start));
        assert(d.take(i + 1 - start).last() == c);
        let digit = (c as u32 - 48) as u64;
        if value > (u64::MAX - digit) / 10 {
            proof {
                assert(digits_value(d.take(i + 1 - start)) == value * 10 + digit);
                assert(value * 10 + digit > u64::MAX) by (nonlinear_arith)
                    requires
                        value > (u64::MAX - digit) / 10,
                        digit <= 9,
                ;
                lemma_digits_value_prefix_le(d, i + 1 - start);
            }
            return None;
        }
        assert(value * 10 + digit <= u64::MAX) by (nonlinear_arith)
            requires
                value <= (u64::MAX - digit) / 10,
                digit <= 9,
        ;
        value = value * 10 + digit;
        i = i + 1;
    }
    assert(d.take(i - start) =~= d);
    Some(value)
}

/// A longer prefix of digits has at least the value of a shorter one.
proof fn lemma_digits_value_prefix_le(d: Seq<char>, k: int)
    requires
        0 <= k <= d.len(),
        forall|j: int| 0 <= j < d.len() ==> #[trigger] is_ascii_digit(d[j]) || j >= k,
    ensures
        digits_value(d.take(k)) <= digits_value(d) || !all_ascii_digits(d),
    decreases d.len() - k,
{
    if k < d.len() {
        if all_ascii_digits(d) {
            lemma_digits_value_prefix_le(d, k + 1);
            assert(d.take(k + 1).drop_last() =~= d.take(k));
        }
    } else {
        assert(d.take(k) =~= d);
    }
}

/// Number of bytes that `c` takes in UTF-8.
pub fn char_utf8_width(c: char) -> (r: usize)
    ensures
        r == utf8_width(c),
{
    let u = c as u32;
    if u < 0x80 {
        1
    } else if u < 0x800 {
        2
    } else if u < 0x10000 {
        3
    } else {
        4
    }
}

/// The UTF-8 length of `s` in bytes, saturated at `cap`.
pub fn utf8_len_capped(v: &Vec<char>, cap: usize) -> (r: usize)
    ensures
        r == if utf8_len(v@) < cap { utf8_len(v@) } else { cap as nat },
{
    let mut total: usize = 0;
    let n = v.len();
    for i in 0..n
        invariant
            n == v@.len(),
            total <= cap,
            total == if utf8_len(v@.subrange(0, i as int)) < cap {
                utf8_len(v@.subrange(0, i as int))
            } else {
                cap as nat
            },
            utf8_len(v@.subrange(0, i as int)) >= cap ==> total == cap,
    {
        let w = char_utf8_width(v[i]);
        proof {
            let pre = v@.subrange(0, i as int);
            let next = v@.subrange(0, i + 1);
            assert(next.drop_last() == pre);
            assert(next.last() == v@[i as int]);
        }
        if total < cap {
            if cap - total > w {
                total = total + w;
            } else {
                total = cap;
            }
        }
    }
    assert(v@.subrange(0, n as int) == v@);
    total
}

} // verus!

verus! {

/// `s` with every non-overlapping occurrence of the non-empty `p`, scanned from the
/// left, replaced by `r`.
pub open spec fn replace_all(s: Seq<char>, p: Seq<char>, r: Seq<char>) -> Seq<char>
    decreases s.len(),
{
    if p.len() == 0 || s.len() == 0 {
        s
    } else if has_prefix(s, p) {
        r + replace_all(s.skip(p.len() as int), p, r)
    } else {
        seq![s[0]] + replace_all(s.skip(1), p, r)
    }
}

/// Where `p` occurs nowhere in `s`, replacing it changes nothing.
pub proof fn lemma_replace_all_absent(s: Seq<char>, p: Seq<char>, r: Seq<char>)
    requires
        p.len() > 0,
        forall|i: int| 0 <= i < s.len() ==> !has_prefix(#[trigger] s.skip(i), p),
    ensures
        replace_all(s, p, r) == s,
    decreases s.len(),
{
    if s.len() > 0 {
        assert(s.skip(0) =~= s);
        let t = s.skip(1);
        assert forall|i: int| 0 <= i < t.len() implies !has_prefix(#[trigger] t.skip(i), p) by {
            assert(t.skip(i) =~= s.skip(i + 1));
        }
        lemma_replace_all_absent(t, p, r);
        assert(seq![s[0]] + t =~= s);
    }
}

/// Replacing a whole string by `r` gives `r`.
pub proof fn lemma_replace_all_whole(p: Seq<char>, r: Seq<char>)
    requires
        p.len() > 0,
    ensures
        replace_all(p, p, r) == r,
{
    assert(p.subrange(0, p.len() as int) =~= p);
    assert(has_prefix(p, p));
    let rest = p.skip(p.len() as int);
    assert(rest =~= Seq::<char>::empty());
    assert(replace_all(rest, p, r) == rest);
    assert(replace_all(p, p, r) == r + replace_all(rest, p, r));
    assert(r + rest =~= r);
}

/// Replaces every occurrence of `p` in `s` by `r`, as `str::replace` does for a
/// non-empty pattern.
pub fn replace_all_str(s: &str, p: &str, r: &str) -> (out: String)
    requires
        p@.len() > 0,
    ensures
        out@ == replace_all(s@, p@, r@),
{
    let vs = chars_of(s);
    let vp = chars_of(p);
    let mut out = String::new();
    let n = vs.len();
    let m = vp.len();
    let mut i: usize = 0;
    assert(s@.skip(0) =~= s@);
    while i < n
        invariant
            n == vs@.len(),
            m == vp@.len(),
            m > 0,
            vs@ == s@,
            vp@ == p@,
            i <= n,
            out@ + replace_all(s@.skip(i as int), p@, r@) == replace_all(s@, p@, r@),
        decreases n - i,
    {
        let ghost rest = s@.skip(i as int);
        let mut matched = m <= n - i;
        let mut k: usize = 0;
        while matched && k < m
            invariant
                n == vs@.len(),
                m == vp@.len(),
                i <= n,
                k <= m,
                matched ==> m <= n - i,
                matched ==> forall|j: int| 0 <= j < k ==> vs@[i + j] == vp@[j],
                !matched ==> !has_prefix(s@.skip(i as int), p@),
                vs@ == s@,
                vp@ == p@,
            decreases m - k,
        {
            if vs[i + k] != vp[k] {
                matched = false;
                proof {
                    let rest = s@.skip(i as int);
                    let kk = k as int;
                    assert(rest[kk] == vs@[i + kk]);
                    if has_prefix(rest, p@) {
                        assert(rest.subrange(0, p@.len() as int)[kk] == p@[kk]);
                    }
                }
                k = m;
            } else {
                k = k + 1;
            }
        }
        if matched {
            proof {
                assert(rest.subrange(0, p@.len() as int) =~= p@);
                assert(rest.skip(p@.len() as int) =~= s@.skip(i + m));
            }
            out.append(r);
            i = i + m;
        } else {
            proof {
                if m > n - i {
                    assert(!has_prefix(rest, p@));
                }
                assert(rest.skip(1) =~= s@.skip(i + 1));
                assert(rest[0] == vs@[i as int]);
            }
            push_char(&mut out, vs[i]);
            i = i + 1;
        }
    }
    proof {
        assert(s@.skip(n as int) =~= Seq::<char>::empty());
    }
    out
}

/// The words of `ws` joined by single spaces.
pub open spec fn join_spaces(ws: Seq<Seq<char>>) -> Seq<char>
    decreases ws.len(),
{
    if ws.len() == 0 {
        Seq::empty()
    } else if ws.len() == 1 {
        ws[0]
    } else {
        join_spaces(ws.drop_last()) + " "@ + ws.last()
    }
}

/// The views of a sequence of strings.
pub open spec fn views_of(v: Seq<String>) -> Seq<Seq<char>> {
    v.map_values(|s: String| s@)
}

/// Joins strings with single spaces, as `[String]::join(" ")` does.
pub fn join_with_spaces(v: &Vec<String>) -> (r: String)
    ensures
        r@ == join_spaces(views_of(v@)),
{
    let mut r = String::new();
    let n = v.len();
    for i in 0..n
        invariant
            n == v@.len(),
            r@ == join_spaces(views_of(v@).take(i as int)),
    {
        proof {
            let w = views_of(v@).take(i + 1);
            assert(w.drop_last() =~= views_of(v@).take(i as int));
            assert(w.last() == v@[i as int]@);
        }
        if i > 0 {
            r.append(" ");
        } else {
            assert(views_of(v@).take(1) =~= seq![v@[0]@]);
        }
        r.append(v[i].as_str());
    }
    assert(views_of(v@).take(n as int) =~= views_of(v@));
    r
}

/// The decimal digits of `n`.
pub open spec fn decimal(n: nat) -> Seq<char>
    decreases n,
{
    if n < 10 {
        seq![digit_char(n)]
    } else {
        decimal(n / 10) + seq![digit_char(n % 10)]
    }
}

/// The character of a decimal digit.
pub open spec fn digit_char(d: nat) -> char {
    if d == 0 { '0' }
    else if d == 1 { '1' }
    else if d == 2 { '2' }
    else if d == 3 { '3' }
    else if d == 4 { '4' }
    else if d == 5 { '5' }
    else if d == 6 { '6' }
    else if d == 7 { '7' }
    else if d == 8 { '8' }
    else { '9' }
}

fn digit_to_char(d: usize) -> (c: char)
    requires
        d < 10,
    ensures
        c == digit_char(d as nat),
{
    if d == 0 { '0' }
    else if d == 1 { '1' }
    else if d == 2 { '2' }
    else if d == 3 { '3' }
    else if d == 4 { '4' }
    else if d == 5 { '5' }
    else if d == 6 { '6' }
    else if d == 7 { '7' }
    else if d == 8 { '8' }
    else { '9' }
}

/// The decimal representation of `n`, as `usize::to_string` gives it.
pub fn usize_to_decimal(n: usize) -> (r: String)
    ensures
        r@ == decimal(n as nat),
    decreases n,
{
    if n < 10 {
        let mut r = String::new();
        push_char(&mut r, digit_to_char(n));
        assert(r@ =~= seq![digit_char(n as nat)]);
        r
    } else {
        let mut r = usize_to_decimal(n / 10);
        push_char(&mut r, digit_to_char(n % 10));
        assert(r@ =~= decimal((n / 10) as nat) + seq![digit_char((n % 10) as nat)]);
        r
    }
}

} // verus!

verus! {

/// `s` with every leading copy of the non-empty `p` removed.
pub open spec fn trim_start_all(s: Seq<char>, p: Seq<char>) -> Seq<char>
    decreases s.len(),
{
    if p.len() > 0 && has_prefix(s, p) {
        trim_start_all(s.skip(p.len() as int), p)
    } else {
        s
    }
}

/// `s` with every trailing `c` removed.
pub open spec fn trim_end_all(s: Seq<char>, c: char) -> Seq<char>
    decreases s.len(),
{
    if s.len() > 0 && s.last() == c {
        trim_end_all(s.drop_last(), c)
    } else {
        s
    }
}

/// Removes leading copies of `p` and trailing copies of `c`, as
/// `trim_start_matches(p).trim_end_matches(c)` does.
pub fn trim_start_end(s: &str, p: &str, c: char) -> (r: String)
    requires
        p@.len() > 0,
    ensures
        r@ == trim_end_all(trim_start_all(s@, p@), c),
{
    let vs = chars_of(s);
    let vp = chars_of(p);
    let n = vs.len();
    let m = vp.len();
    let mut start: usize = 0;
    assert(s@.skip(0) =~= s@);
    loop
        invariant
            n == vs@.len(),
            m == vp@.len(),
            m > 0,
            vs@ == s@,
            vp@ == p@,
            start <= n,
            trim_start_all(s@.skip(start as int), p@) == trim_start_all(s@, p@),
        ensures
            start <= n,
            trim_start_all(s@.skip(start as int), p@) == trim_start_all(s@, p@),
            !has_prefix(s@.skip(start as int), p@),
        decreases n - start,
    {
        let ghost rest = s@.skip(start as int);
        if m > n - start {
            assert(!has_prefix(rest, p@));
            break;
        }
        let mut k: usize = 0;
        let mut matched = true;
        while k < m
            invariant
                n == vs@.len(),
                m == vp@.len(),
                start + m <= n,
                k <= m,
                vs@ == s@,
                vp@ == p@,
                rest == s@.skip(start as int),
                matched ==> forall|j: int| 0 <= j < k ==> vs@[start + j] == vp@[j],
                !matched ==> !has_prefix(rest, p@),
            decreases m - k,
        {
            if vs[start + k] != vp[k] {
                matched = false;
                proof {
                    let kk = k as int;
                    assert(rest[kk] == vs@[start + kk]);
                    if has_prefix(rest, p@) {
                        assert(rest.subrange(0, p@.len() as int)[kk] == p@[kk]);
                    }
                }
                k = m;
            } else {
                k = k + 1;
            }
        }
        if !matched {
            break;
        }
        proof {
            assert(rest.subrange(0, p@.len() as int) =~= p@);
            assert(rest.skip(p@.len() as int) =~= s@.skip(start + m));
        }
        start = start + m;
    }
    let ghost mid = s@.skip(start as int);
    assert(trim_start_all(mid, p@) == mid);
    let mut end: usize = n;
    loop
        invariant
            n == vs@.len(),
            vs@ == s@,
            start <= end <= n,
            mid == s@.skip(start as int),
            trim_end_all(s@.subrange(start as int, end as int), c) == trim_end_all(mid, c),
        ensures
            start <= end <= n,
            trim_end_all(s@.subrange(start as int, end as int), c) == trim_end_all(mid, c),
            trim_end_all(s@.subrange(start as int, end as int), c) == s@.subrange(start as int, end as int),
        decreases end - start,
    {
        let ghost cur = s@.subrange(start as int, end as int);
        if end == start || vs[end - 1] != c {
            break;
        }
        assert(cur.drop_last() =~= s@.subrange(start as int, end - 1));
        end = end - 1;
    }
    proof {
        assert(mid =~= s@.subrange(start as int, n as int));
    }
    let mut r = String::new();
    for i in start..end
        invariant
            n == vs@.len(),
            vs@ == s@,
            start <= end <= n,
            r@ == s@.subrange(start as int, i as int),
    {
        push_char(&mut r, vs[i]);
        assert(s@.subrange(start as int, i + 1) =~= s@.subrange(start as int, i as int).push(vs@[i as int]));
    }
    r
}

/// Whether `c` is a Unicode White_Space character, as `char::is_whitespace` decides.
pub open spec fn is_white_space(c: char) -> bool {
    let u = c as u32;
    (0x9 <= u && u <= 0xD) || u == 0x20 || u == 0x85 || u == 0xA0 || u == 0x1680
        || (0x2000 <= u && u <= 0x200A) || u == 0x2028 || u == 0x2029 || u == 0x202F
        || u == 0x205F || u == 0x3000
}

/// Whether `c` is a Unicode White_Space character.
pub fn char_is_white_space(c: char) -> (r: bool)
    ensures
        r == is_white_space(c),
{
    let u = c as u32;
    (0x9 <= u && u <= 0xD) || u == 0x20 || u == 0x85 || u == 0xA0 || u == 0x1680
        || (0x2000 <= u && u <= 0x200A) || u == 0x2028 || u == 0x2029 || u == 0x202F
        || u == 0x205F || u == 0x3000
}

/// The words found so far and the word being read, after the first `n` characters.
pub open spec fn split_state(s: Seq<char>, n: nat) -> (Seq<Seq<char>>, Seq<char>)
    decreases n,
{
    if n == 0 {
        (Seq::empty(), Seq::empty())
    } else {
        let (done, cur) = split_state(s, (n - 1) as nat);
        let c = s[n - 1];
        if is_white_space(c) {
            if cur.len() > 0 {
                (done.push(cur), Seq::empty())
            } else {
                (done, cur)
            }
        } else {
            (done, cur.push(c))
        }
    }
}

/// The non-empty whitespace-separated words of `s`, as `str::split_whitespace` yields them.
pub open spec fn words(s: Seq<char>) -> Seq<Seq<char>> {
    let (done, cur) = split_state(s, s.len());
    if cur.len() > 0 {
        done.push(cur)
    } else {
        done
    }
}

/// The whitespace-separated words of `s`.
pub fn split_whitespace(s: &str) -> (r: Vec<String>)
    ensures
        views_of(r@) == words(s@),
{
    let v = chars_of(s);
    let n = v.len();
    let mut done: Vec<String> = Vec::new();
    let mut cur = String::new();
    for i in 0..n
        invariant
            n == v@.len(),
            v@ == s@,
            (views_of(done@), cur@) == split_state(s@, i as nat),
    {
        let c = v[i];
        if char_is_white_space(c) {
            if cur.as_str().is_empty() == false {
                let word = cur;
                proof {
                    assert(views_of(done@.push(word)) =~= views_of(done@).push(word@));
                }
                done.push(word);
                cur = String::new();
            }
        } else {
            push_char(&mut cur, c);
        }
    }
    if cur.as_str().is_empty() == false {
        proof {
            assert(views_of(done@.push(cur)) =~= views_of(done@).push(cur@));
        }
        done.push(cur);
    }
    done
}

} // verus!
