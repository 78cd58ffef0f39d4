//! Verified text utilities: decimal rendering, substring search, case
//! folding, trimming and numeral parsing over `Seq<char>` models.

use vstd::prelude::*;

verus! {

// ---------------------------------------------------------------------------
// Decimal rendering
// ---------------------------------------------------------------------------

/// The character for a single decimal digit.
pub open spec fn digit_char(d: nat) -> char {
    if d == 0 {
        '0'
    } else if d == 1 {
        '1'
    } else if d == 2 {
        '2'
    } else if d == 3 {
        '3'
    } else if d == 4 {
        '4'
    } else if d == 5 {
        '5'
    } else if d == 6 {
        '6'
    } else if d == 7 {
        '7'
    } else if d == 8 {
        '8'
    } else {
        '9'
    }
}

/// Decimal numeral of `n`, most significant digit first, no leading zeros
/// (except for `n == 0` itself).
pub open spec fn dec_str(n: nat) -> Seq<char>
    decreases n,
{
    if n < 10 {
        seq![digit_char(n)]
    } else {
        dec_str(n / 10) + seq![digit_char(n % 10)]
    }
}

fn digit_literal(d: u8) -> (r: &'static str)
    requires
        d < 10,
    ensures
        r@ == seq![digit_char(d as nat)],
{
    proof {
        reveal_strlit("0");
        reveal_strlit("1");
        reveal_strlit("2");
        reveal_strlit("3");
        reveal_strlit("4");
        reveal_strlit("5");
        reveal_strlit("6");
        reveal_strlit("7");
        reveal_strlit("8");
        reveal_strlit("9");
        assert("0"@ =~= seq!['0']);
        assert("1"@ =~= seq!['1']);
        assert("2"@ =~= seq!['2']);
        assert("3"@ =~= seq!['3']);
        assert("4"@ =~= seq!['4']);
        assert("5"@ =~= seq!['5']);
        assert("6"@ =~= seq!['6']);
        assert("7"@ =~= seq!['7']);
        assert("8"@ =~= seq!['8']);
        assert("9"@ =~= seq!['9']);
    }
    match d {
        0 => "0",
        1 => "1",
        2 => "2",
        3 => "3",
        4 => "4",
        5 => "5",
        6 => "6",
        7 => "7",
        8 => "8",
        _ => "9",
    }
}

/// Renders `n` as its decimal numeral.
pub fn u16_to_string(n: u16) -> (r: String)
    ensures
        r@ == dec_str(n as nat),
    decreases n,
{
    if n < 10 {
        String::from_str(digit_literal(n as u8))
    } else {
        let mut s = u16_to_string(n / 10);
        s.append(digit_literal((n % 10) as u8));
        s
    }
}

// ---------------------------------------------------------------------------
// Equality and substring search
// ---------------------------------------------------------------------------

/// Character-wise equality of two string slices.
pub fn str_eq(a: &str, b: &str) -> (r: bool)
    ensures
        r == (a@ == b@),
{
    let alen = a.unicode_len();
    let blen = b.unicode_len();
    if alen != blen {
        return false;
    }
    let mut i: usize = 0;
    while i < alen
        invariant
            alen == a@.len(),
            blen == b@.len(),
            alen == blen,
            i <= alen,
            forall|k: int| 0 <= k < i ==> a@[k] == b@[k],
        decreases alen - i,
    {
        if a.get_char(i) != b.get_char(i) {
            return false;
        }
        i += 1;
    }
    proof {
        assert(a@ =~= b@);
    }
    true
}

/// `needle` occurs as a contiguous run inside `haystack`.
pub open spec fn seq_contains_sub(haystack: Seq<char>, needle: Seq<char>) -> bool {
    exists|i: int|
        0 <= i && i + needle.len() <= haystack.len() && #[trigger] haystack.subrange(
            i,
            i + needle.len(),
        ) == needle
}

/// `needle` matches `haystack` at position `at`.
fn match_at(haystack: &str, needle: &str, at: usize) -> (r: bool)
    requires
        at + needle@.len() <= haystack@.len(),
    ensures
        r == (haystack@.subrange(at as int, at + needle@.len()) == needle@),
{
    let hlen = haystack.unicode_len();
    let nlen = needle.unicode_len();
    let mut j: usize = 0;
    while j < nlen
        invariant
            hlen == haystack@.len(),
            nlen == needle@.len(),
            at + nlen <= hlen,
            j <= nlen,
            forall|k: int| 0 <= k < j ==> haystack@[at + k] == needle@[k],
        decreases nlen - j,
    {
        if haystack.get_char(at + j) != needle.get_char(j) {
            proof {
                assert(haystack@.subrange(at as int, at + nlen as int)[j as int] != needle@[
                    j as int
                ]);
            }
            return false;
        }
        j += 1;
    }
    proof {
        assert(haystack@.subrange(at as int, at + nlen as int) =~= needle@);
    }
    true
}

/// Substring search; reports whether `needle` occurs anywhere in `haystack`.
pub fn str_contains(haystack: &str, needle: &str) -> (r: bool)
    ensures
        r == seq_contains_sub(haystack@, needle@),
{
    let hlen = haystack.unicode_len();
    let nlen = needle.unicode_len();
    if nlen > hlen {
        return false;
    }
    if nlen == 0 {
        proof {
            assert(haystack@.subrange(0, 0 + needle@.len() as int) =~= needle@);
        }
        return true;
    }
    let mut i: usize = 0;
    while i <= hlen - nlen
        invariant
            hlen == haystack@.len(),
            nlen == needle@.len(),
            0 < nlen <= hlen,
            i <= hlen - nlen + 1,
            forall|t: int|
                0 <= t < i ==> #[trigger] haystack@.subrange(t, t + needle@.len())
                    != needle@,
        decreases hlen - nlen - i + 1,
    {
        if match_at(haystack, needle, i) {
            return true;
        }
        i += 1;
    }
    false
}

// ---------------------------------------------------------------------------
// ASCII case folding
// ---------------------------------------------------------------------------

/// ASCII lower-casing of one character; other characters are unchanged.
pub open spec fn lower_char(c: char) -> char {
    if 65 <= c as u32 && c as u32 <= 90 {
        (((c as u8) + 32) as char)
    } else {
        c
    }
}

/// ASCII lower-casing of a character sequence.
pub open spec fn lower_seq(s: Seq<char>) -> Seq<char> {
    s.map_values(|c: char| lower_char(c))
}

fn lower_char_exec(c: char) -> (r: char)
    ensures
        r == lower_char(c),
{
    if 65 <= c as u32 && c as u32 <= 90 {
        ((c as u8) + 32) as char
    } else {
        c
    }
}

/// The lowered form of `needle` matches the lowered form of `haystack` at
/// position `at`.
fn match_at_ignore_case(haystack: &str, needle: &str, at: usize) -> (r: bool)
    requires
        at + needle@.len() <= haystack@.len(),
    ensures
        r == (lower_seq(haystack@).subrange(at as int, at + needle@.len()) == lower_seq(
            needle@,
        )),
{
    let hlen = haystack.unicode_len();
    let nlen = needle.unicode_len();
    let mut j: usize = 0;
    while j < nlen
        invariant
            hlen == haystack@.len(),
            nlen == needle@.len(),
            at + nlen <= hlen,
            j <= nlen,
            forall|k: int|
                0 <= k < j ==> lower_char(haystack@[at + k]) == lower_char(needle@[k]),
        decreases nlen - j,
    {
        if lower_char_exec(haystack.get_char(at + j)) != lower_char_exec(needle.get_char(j)) {
            proof {
                assert(lower_seq(haystack@).subrange(at as int, at + nlen as int)[j as int]
                    != lower_seq(needle@)[j as int]);
            }
            return false;
        }
        j += 1;
    }
    proof {
        assert(lower_seq(haystack@).subrange(at as int, at + nlen as int) =~= lower_seq(
            needle@,
        ));
    }
    true
}

/// Case-insensitive (ASCII) substring search.
pub fn str_contains_ignore_case(haystack: &str, needle: &str) -> (r: bool)
    ensures
        r == seq_contains_sub(lower_seq(haystack@), lower_seq(needle@)),
{
    let hlen = haystack.unicode_len();
    let nlen = needle.unicode_len();
    if nlen > hlen {
        return false;
    }
    if nlen == 0 {
        proof {
            assert(lower_seq(haystack@).subrange(0, 0 + lower_seq(needle@).len() as int) =~= lower_seq(
                needle@,
            ));
        }
        return true;
    }
    let mut i: usize = 0;
    while i <= hlen - nlen
        invariant
            hlen == haystack@.len(),
            nlen == needle@.len(),
            0 < nlen <= hlen,
            i <= hlen - nlen + 1,
            forall|t: int|
                0 <= t < i ==> #[trigger] lower_seq(haystack@).subrange(
                    t,
                    t + lower_seq(needle@).len(),
                ) != lower_seq(needle@),
        decreases hlen - nlen - i + 1,
    {
        if match_at_ignore_case(haystack, needle, i) {
            proof {
                assert(lower_seq(haystack@).subrange(i as int, i + lower_seq(needle@).len() as int)
                    == lower_seq(needle@));
            }
            return true;
        }
        i += 1;
    }
    false
}

// ---------------------------------------------------------------------------
// Trimming
// ---------------------------------------------------------------------------

/// ASCII whitespace, the kind produced at line ends by the tool output this
/// library consumes.
pub open spec fn is_ws(c: char) -> bool {
    c == ' ' || c == '\t' || c == '\n' || c == '\r'
}

fn is_ws_exec(c: char) -> (r: bool)
    ensures
        r == is_ws(c),
{
    c == ' ' || c == '\t' || c == '\n' || c == '\r'
}

/// `s` without its trailing whitespace.
pub open spec fn trim_end_spec(s: Seq<char>) -> Seq<char>
    decreases s.len(),
{
    if s.len() == 0 {
        s
    } else if is_ws(s.last()) {
        trim_end_spec(s.drop_last())
    } else {
        s
    }
}

/// `s` without its leading whitespace.
pub open spec fn trim_start_spec(s: Seq<char>) -> Seq<char>
    decreases s.len(),
{
    if s.len() == 0 {
        s
    } else if is_ws(s.first()) {
        trim_start_spec(s.drop_first())
    } else {
        s
    }
}

/// `s` without leading and trailing whitespace.
pub open spec fn trim_spec(s: Seq<char>) -> Seq<char> {
    trim_start_spec(trim_end_spec(s))
}

/// The slice of `s` left after removing trailing whitespace.
pub fn trim_end_str<'a>(s: &'a str) -> (r: &'a str)
    ensures
        r@ == trim_end_spec(s@),
{
    let len = s.unicode_len();
    proof {
        assert(s@.subrange(0, len as int) =~= s@);
    }
    let mut end = len;
    while end > 0 && is_ws_exec(s.get_char(end - 1))
        invariant
            len == s@.len(),
            end <= len,
            trim_end_spec(s@) == trim_end_spec(s@.subrange(0, end as int)),
        decreases end,
    {
        proof {
            assert(s@.subrange(0, end as int).drop_last() =~= s@.subrange(0, end - 1));
        }
        end -= 1;
    }
    proof {
        if end > 0 {
            assert(trim_end_spec(s@.subrange(0, end as int)) == s@.subrange(0, end as int));
        } else {
            assert(trim_end_spec(s@.subrange(0, 0)) =~= s@.subrange(0, 0));
        }
    }
    s.substring_char(0, end)
}

/// The slice of `s` left after removing leading whitespace.
pub fn trim_start_str<'a>(s: &'a str) -> (r: &'a str)
    ensures
        r@ == trim_start_spec(s@),
{
    let len = s.unicode_len();
    proof {
        assert(s@.subrange(0, len as int) =~= s@);
    }
    let mut start: usize = 0;
    while start < len && is_ws_exec(s.get_char(start))
        invariant
            len == s@.len(),
            start <= len,
            trim_start_spec(s@) == trim_start_spec(s@.subrange(start as int, len as int)),
        decreases len - start,
    {
        proof {
            assert(s@.subrange(start as int, len as int).drop_first() =~= s@.subrange(
                start + 1,
                len as int,
            ));
        }
        start += 1;
    }
    proof {
        assert(trim_start_spec(s@.subrange(start as int, len as int)) == s@.subrange(
            start as int,
            len as int,
        ));
    }
    s.substring_char(start, len)
}

/// The slice of `s` left after removing leading and trailing whitespace.
pub fn trim_str<'a>(s: &'a str) -> (r: &'a str)
    ensures
        r@ == trim_spec(s@),
{
    trim_start_str(trim_end_str(s))
}

// ---------------------------------------------------------------------------
// Decimal parsing
// ---------------------------------------------------------------------------

/// A decimal digit.
pub open spec fn is_digit(c: char) -> bool {
    48 <= c as u32 && c as u32 <= 57
}

/// A non-empty run of decimal digits.
pub open spec fn is_dec_numeral(s: Seq<char>) -> bool {
    s.len() > 0 && forall|i: int| 0 <= i < s.len() ==> is_digit(#[trigger] s[i])
}

/// Numeric value of one digit character.
pub open spec fn digit_val(c: char) -> nat {
    (c as u32 - 48) as nat
}

/// Value of a digit run, most significant digit first.
pub open spec fn dec_value(s: Seq<char>) -> nat
    decreases s.len(),
{
    if s.len() == 0 {
        0
    } else {
        dec_value(s.drop_last()) * 10 + digit_val(s.last())
    }
}

proof fn lemma_dec_value_prefix(s: Seq<char>, j: int)
    requires
        0 <= j <= s.len(),
    ensures
        dec_value(s.subrange(0, j)) <= dec_value(s),
    decreases s.len(),
{
    if j < s.len() {
        assert(s.drop_last() =~= s.subrange(0, s.len() - 1));
        lemma_dec_value_prefix(s.subrange(0, s.len() - 1), j);
        assert(s.subrange(0, s.len() - 1).subrange(0, j) =~= s.subrange(0, j));
    } else {
        assert(s.subrange(0, j) =~= s);
    }
}

/// Parses a decimal numeral. Returns the value exactly when `s` is a
/// non-empty run of digits whose value fits in a `u16`.
pub fn parse_u16(s: &str) -> (r: Option<u16>)
    ensures
        match r {
            Some(v) => is_dec_numeral(s@) && v as nat == dec_value(s@),
            None => !(is_dec_numeral(s@) && dec_value(s@) <= u16::MAX),
        },
{
    let len = s.unicode_len();
    if len == 0 {
        return None;
    }
    let mut acc: u32 = 0;
    let mut i: usize = 0;
    while i < len
        invariant
            len == s@.len(),
            0 < len,
            i <= len,
            forall|k: int| 0 <= k < i ==> is_digit(#[trigger] s@[k]),
            acc as nat == dec_value(s@.subrange(0, i as int)),
            acc <= u16::MAX,
        decreases len - i,
    {
        let c = s.get_char(i);
        let cu = c as u32;
        if cu < 48 || cu > 57 {
            return None;
        }
        let d = cu - 48;
        let next: u32 = acc * 10 + d;
        proof {
            assert(s@.subrange(0, i + 1).drop_last() =~= s@.subrange(0, i as int));
            assert(dec_value(s@.subrange(0, i + 1)) == acc as nat * 10 + digit_val(c));
        }
        if next > 65535 {
            proof {
                lemma_dec_value_prefix(s@, i + 1);
            }
            return None;
        }
        acc = next;
        i += 1;
    }
    proof {
        assert(s@.subrange(0, len as int) =~= s@);
    }
    Some(acc as u16)
}

// ---------------------------------------------------------------------------
// Joining
// ---------------------------------------------------------------------------

/// The items joined with `sep` between neighbours.
pub open spec fn joined_with(items: Seq<Seq<char>>, sep: Seq<char>) -> Seq<char>
    decreases items.len(),
{
    if items.len() == 0 {
        Seq::empty()
    } else if items.len() == 1 {
        items[0]
    } else {
        items[0] + sep + joined_with(items.drop_first(), sep)
    }
}

proof fn lemma_joined_push(items: Seq<Seq<char>>, sep: Seq<char>, x: Seq<char>)
    ensures
        items.len() == 0 ==> joined_with(items.push(x), sep) == x,
        items.len() > 0 ==> joined_with(items.push(x), sep) == joined_with(items, sep) + sep
            + x,
    decreases items.len(),
{
    if items.len() == 0 {
        assert(items.push(x)[0] == x);
    } else if items.len() == 1 {
        assert(items.push(x).drop_first() =~= seq![x]);
        assert(items.push(x)[0] == items[0]);
        assert(joined_with(seq![x], sep) == x);
        assert(joined_with(items.push(x), sep) == items[0] + sep + x);
    } else {
        lemma_joined_push(items.drop_first(), sep, x);
        assert(items.push(x).drop_first() =~= items.drop_first().push(x));
    }
}

/// The views of a vector of strings.
pub open spec fn views_of(v: Seq<String>) -> Seq<Seq<char>> {
    v.map_values(|s: String| s@)
}

/// Joins the strings with `sep` between neighbours.
pub fn join_with(items: &Vec<String>, sep: &str) -> (r: String)
    ensures
        r@ == joined_with(views_of(items@), sep@),
{
    let mut out = String::new();
    let mut i: usize = 0;
    while i < items.len()
        invariant
            i <= items@.len(),
            out@ == joined_with(views_of(items@).subrange(0, i as int), sep@),
        decreases items@.len() - i,
    {
        if i > 0 {
            out.append(sep);
        }
        out.append(items[i].as_str());
        proof {
            let prefix = views_of(items@).subrange(0, i as int);
            lemma_joined_push(prefix, sep@, items@[i as int]@);
            assert(prefix.push(items@[i as int]@) =~= views_of(items@).subrange(0, i + 1));
        }
        i += 1;
    }
    proof {
        assert(views_of(items@).subrange(0, items@.len() as int) =~= views_of(items@));
    }
    out
}

// ---------------------------------------------------------------------------
// Splitting
// ---------------------------------------------------------------------------

/// `prefix` starts `s`.
pub open spec fn seq_starts_with(s: Seq<char>, prefix: Seq<char>) -> bool {
    prefix.len() <= s.len() && s.subrange(0, prefix.len() as int) == prefix
}

/// Reports whether `s` starts with `prefix`.
pub fn str_starts_with(s: &str, prefix: &str) -> (r: bool)
    ensures
        r == seq_starts_with(s@, prefix@),
{
    let slen = s.unicode_len();
    let plen = prefix.unicode_len();
    if plen > slen {
        return false;
    }
    match_at(s, prefix, 0)
}

/// `suffix` ends `s`.
pub open spec fn seq_ends_with(s: Seq<char>, suffix: Seq<char>) -> bool {
    suffix.len() <= s.len() && s.subrange(s.len() - suffix.len(), s.len() as int) == suffix
}

/// Reports whether `s` ends with `suffix`.
pub fn str_ends_with(s: &str, suffix: &str) -> (r: bool)
    ensures
        r == seq_ends_with(s@, suffix@),
{
    let slen = s.unicode_len();
    let xlen = suffix.unicode_len();
    if xlen > slen {
        return false;
    }
    match_at(s, suffix, slen - xlen)
}

/// The position of the first occurrence of `c` in `s`, or `s.len()` when
/// `c` does not occur.
pub open spec fn char_index(s: Seq<char>, c: char) -> int
    decreases s.len(),
{
    if s.len() == 0 {
        0
    } else if s[0] == c {
        0
    } else {
        1 + char_index(s.drop_first(), c)
    }
}

pub proof fn lemma_char_index_bounds(s: Seq<char>, c: char)
    ensures
        0 <= char_index(s, c) <= s.len(),
    decreases s.len(),
{
    if s.len() > 0 && s[0] != c {
        lemma_char_index_bounds(s.drop_first(), c);
    }
}

/// Finds the first occurrence of `c`, reporting `s`'s length when there is
/// none.
pub fn find_char(s: &str, c: char) -> (r: usize)
    ensures
        r == char_index(s@, c),
{
    let len = s.unicode_len();
    proof {
        assert(s@.skip(0) =~= s@);
    }
    let mut i: usize = 0;
    while i < len
        invariant
            len == s@.len(),
            i <= len,
            char_index(s@, c) == i + char_index(s@.skip(i as int), c),
        decreases len - i,
    {
        proof {
            assert(s@.skip(i as int).drop_first() =~= s@.skip(i + 1));
            assert(s@.skip(i as int)[0] == s@[i as int]);
            lemma_char_index_bounds(s@.skip(i + 1), c);
        }
        if s.get_char(i) == c {
            return i;
        }
        i += 1;
    }
    proof {
        assert(s@.skip(len as int) =~= Seq::<char>::empty());
    }
    len
}

/// `parts` with `p` prefixed to its first component.
pub open spec fn prepend_first(p: Seq<char>, parts: Seq<Seq<char>>) -> Seq<Seq<char>> {
    seq![p + parts[0]] + parts.drop_first()
}

/// The components of `s` between occurrences of `c`; always at least one
/// component, and empty components are kept.
pub open spec fn split_char_spec(s: Seq<char>, c: char) -> Seq<Seq<char>>
    decreases s.len(),
{
    if s.len() == 0 {
        seq![Seq::<char>::empty()]
    } else if s[0] == c {
        seq![Seq::<char>::empty()] + split_char_spec(s.drop_first(), c)
    } else {
        prepend_first(seq![s[0]], split_char_spec(s.drop_first(), c))
    }
}

proof fn lemma_split_char_nonempty(s: Seq<char>, c: char)
    ensures
        split_char_spec(s, c).len() >= 1,
    decreases s.len(),
{
    if s.len() > 0 {
        lemma_split_char_nonempty(s.drop_first(), c);
    }
}

/// Splits `s` at every occurrence of `c`, keeping empty components.
pub fn split_str(s: &str, c: char) -> (r: Vec<String>)
    ensures
        views_of(r@) == split_char_spec(s@, c),
{
    let len = s.unicode_len();
    let mut out: Vec<String> = Vec::new();
    proof {
        assert(s@.skip(0) =~= s@);
        assert(s@.subrange(0, 0) =~= Seq::<char>::empty());
        lemma_split_char_nonempty(s@, c);
        assert(Seq::<char>::empty() + split_char_spec(s@, c)[0] =~= split_char_spec(s@, c)[0]);
        assert(prepend_first(Seq::<char>::empty(), split_char_spec(s@, c)) =~~= split_char_spec(
            s@,
            c,
        ));
    }
    let mut start: usize = 0;
    let mut i: usize = 0;
    while i < len
        invariant
            len == s@.len(),
            start <= i <= len,
            split_char_spec(s@, c) =~~= views_of(out@) + prepend_first(
                s@.subrange(start as int, i as int),
                split_char_spec(s@.skip(i as int), c),
            ),
        decreases len - i,
    {
        proof {
            assert(s@.skip(i as int).drop_first() =~= s@.skip(i + 1));
            assert(s@.skip(i as int)[0] == s@[i as int]);
            lemma_split_char_nonempty(s@.skip(i + 1), c);
        }
        let ghost cur = s@.subrange(start as int, i as int);
        let ghost parts = split_char_spec(s@.skip(i + 1), c);
        if s.get_char(i) == c {
            let ghost prev = views_of(out@);
            out.push(String::from_str(s.substring_char(start, i)));
            proof {
                assert(cur + Seq::<char>::empty() =~= cur);
                assert(prepend_first(cur, seq![Seq::<char>::empty()] + parts) =~~= seq![cur]
                    + parts);
                assert(views_of(out@) =~= prev + seq![cur]);
                assert((prev + seq![cur]) + prepend_first(Seq::<char>::empty(), parts) =~~= prev
                    + (seq![cur] + prepend_first(Seq::<char>::empty(), parts)));
                assert(Seq::<char>::empty() + parts[0] =~= parts[0]);
                assert(prepend_first(Seq::<char>::empty(), parts) =~~= parts);
                assert(s@.subrange(i + 1, i + 1) =~= Seq::<char>::empty());
            }
            start = i + 1;
        } else {
            proof {
                assert(s@.subrange(start as int, i + 1) =~= cur + seq![s@[i as int]]);
                assert(cur + (seq![s@[i as int]] + parts[0]) =~= (cur + seq![s@[i as int]])
                    + parts[0]);
                assert(prepend_first(cur, prepend_first(seq![s@[i as int]], parts))
                    =~~= prepend_first(cur + seq![s@[i as int]], parts));
            }
        }
        i += 1;
    }
    proof {
        assert(s@.skip(len as int) =~= Seq::<char>::empty());
    }
    let ghost prev = views_of(out@);
    out.push(String::from_str(s.substring_char(start, len)));
    proof {
        let cur = s@.subrange(start as int, len as int);
        assert(views_of(out@) =~= prev + seq![cur]);
        assert(prepend_first(cur, seq![Seq::<char>::empty()]) =~~= seq![cur]);
        assert(views_of(out@) =~~= split_char_spec(s@, c));
    }
    out
}

/// A line with one trailing carriage return removed.
pub open spec fn strip_cr(l: Seq<char>) -> Seq<char> {
    if l.len() > 0 && l.last() == '\r' {
        l.drop_last()
    } else {
        l
    }
}

/// The lines of `s`: components between newlines, one optional final line
/// ending dropped, and one trailing carriage return removed per line. The
/// empty string has no lines.
pub open spec fn lines_spec(s: Seq<char>) -> Seq<Seq<char>> {
    if s.len() == 0 {
        Seq::empty()
    } else {
        let body = if s.last() == '\n' {
            s.drop_last()
        } else {
            s
        };
        split_char_spec(body, '\n').map_values(|l: Seq<char>| strip_cr(l))
    }
}

/// Splits `s` into lines.
pub fn str_lines(s: &str) -> (r: Vec<String>)
    ensures
        views_of(r@) == lines_spec(s@),
{
    let len = s.unicode_len();
    if len == 0 {
        let r: Vec<String> = Vec::new();
        proof {
            assert(views_of(r@) =~= lines_spec(s@));
        }
        return r;
    }
    let body = if s.get_char(len - 1) == '\n' {
        s.substring_char(0, len - 1)
    } else {
        s
    };
    let parts = split_str(body, '\n');
    let mut out: Vec<String> = Vec::new();
    let mut i: usize = 0;
    while i < parts.len()
        invariant
            body@ == (if s@.len() > 0 && s@.last() == '\n' {
                s@.drop_last()
            } else {
                s@
            }),
            s@.len() > 0,
            views_of(parts@) == split_char_spec(body@, '\n'),
            i <= parts@.len(),
            out@.len() == i,
            forall|k: int| 0 <= k < i ==> (#[trigger] out@[k])@ == strip_cr(parts@[k]@),
        decreases parts@.len() - i,
    {
        let part: &String = &parts[i];
        let plen = part.as_str().unicode_len();
        if plen > 0 && part.as_str().get_char(plen - 1) == '\r' {
            out.push(String::from_str(part.as_str().substring_char(0, plen - 1)));
            proof {
                assert(out@[i as int]@ =~= strip_cr(parts@[i as int]@));
            }
        } else {
            out.push(part.clone());
        }
        i += 1;
    }
    proof {
        assert(views_of(out@) =~~= lines_spec(s@));
    }
    out
}

// ---------------------------------------------------------------------------
// Case-insensitive ordering
// ---------------------------------------------------------------------------

/// Lexicographic order on character sequences, by code point; a prefix
/// precedes every extension of itself.
pub open spec fn lex_le(a: Seq<char>, b: Seq<char>) -> bool
    decreases a.len(),
{
    if a.len() == 0 {
        true
    } else if b.len() == 0 {
        false
    } else if (a[0] as u32) < (b[0] as u32) {
        true
    } else if (a[0] as u32) > (b[0] as u32) {
        false
    } else {
        lex_le(a.drop_first(), b.drop_first())
    }
}

/// The lexicographic order is total: of any two sequences, one precedes
/// the other.
pub proof fn lemma_lex_le_total(a: Seq<char>, b: Seq<char>)
    ensures
        lex_le(a, b) || lex_le(b, a),
    decreases a.len(),
{
    if a.len() > 0 && b.len() > 0 && (a[0] as u32) == (b[0] as u32) {
        lemma_lex_le_total(a.drop_first(), b.drop_first());
    }
}

/// The lexicographic order is transitive.
pub proof fn lemma_lex_le_trans(a: Seq<char>, b: Seq<char>, c: Seq<char>)
    requires
        lex_le(a, b),
        lex_le(b, c),
    ensures
        lex_le(a, c),
    decreases a.len(),
{
    if a.len() > 0 && b.len() > 0 && c.len() > 0 && (a[0] as u32) == (b[0] as u32) && (
    b[0] as u32) == (c[0] as u32) {
        lemma_lex_le_trans(a.drop_first(), b.drop_first(), c.drop_first());
    }
}

/// Compares two strings lexicographically, ignoring ASCII case.
pub fn str_le_ignore_case(a: &str, b: &str) -> (r: bool)
    ensures
        r == lex_le(lower_seq(a@), lower_seq(b@)),
{
    let alen = a.unicode_len();
    let blen = b.unicode_len();
    proof {
        assert(lower_seq(a@).skip(0) =~= lower_seq(a@));
        assert(lower_seq(b@).skip(0) =~= lower_seq(b@));
    }
    let mut i: usize = 0;
    while i < alen && i < blen
        invariant
            alen == a@.len(),
            blen == b@.len(),
            i <= alen && i <= blen,
            lex_le(lower_seq(a@), lower_seq(b@)) == lex_le(
                lower_seq(a@).skip(i as int),
                lower_seq(b@).skip(i as int),
            ),
        decreases alen - i,
    {
        proof {
            assert(lower_seq(a@).skip(i as int).drop_first() =~= lower_seq(a@).skip(i + 1));
            assert(lower_seq(b@).skip(i as int).drop_first() =~= lower_seq(b@).skip(i + 1));
            assert(lower_seq(a@).skip(i as int)[0] == lower_seq(a@)[i as int]);
            assert(lower_seq(b@).skip(i as int)[0] == lower_seq(b@)[i as int]);
        }
        let ca = lower_char_exec(a.get_char(i));
        let cb = lower_char_exec(b.get_char(i));
        if (ca as u32) < (cb as u32) {
            return true;
        }
        if (ca as u32) > (cb as u32) {
            return false;
        }
        i += 1;
    }
    proof {
        if i == alen {
            assert(lower_seq(a@).skip(i as int) =~= Seq::<char>::empty());
        } else {
            assert(lower_seq(b@).skip(i as int) =~= Seq::<char>::empty());
            assert(lower_seq(a@).skip(i as int).len() > 0);
        }
    }
    alen <= blen
}

/// Case-insensitive (ASCII) equality.
pub fn str_eq_ignore_case(a: &str, b: &str) -> (r: bool)
    ensures
        r == (lower_seq(a@) == lower_seq(b@)),
{
    let alen = a.unicode_len();
    let blen = b.unicode_len();
    if alen != blen {
        proof {
            assert(lower_seq(a@).len() != lower_seq(b@).len());
        }
        return false;
    }
    let mut i: usize = 0;
    while i < alen
        invariant
            alen == a@.len(),
            blen == b@.len(),
            alen == blen,
            i <= alen,
            forall|k: int| 0 <= k < i ==> lower_char(a@[k]) == lower_char(b@[k]),
        decreases alen - i,
    {
        if lower_char_exec(a.get_char(i)) != lower_char_exec(b.get_char(i)) {
            proof {
                assert(lower_seq(a@)[i as int] != lower_seq(b@)[i as int]);
            }
            return false;
        }
        i += 1;
    }
    proof {
        assert(lower_seq(a@) =~= lower_seq(b@));
    }
    true
}

} // verus!
