//! Intrinsics of the device bridge's text protocol: validated package
//! identifiers, package-listing flags, user records, and output decoding.

use vstd::prelude::*;
use vstd::utf8::{decode_utf8, valid_utf8};
use crate::text::{
    char_index, dec_value, find_char, is_dec_numeral, is_digit, lines_spec, parse_u16,
    seq_ends_with, seq_starts_with, str_ends_with, str_lines, str_starts_with, trim_end_spec,
    trim_end_str, trim_spec, trim_start_spec, trim_start_str, trim_str, views_of,
};
use crate::utils::{is_w, is_w_spec};

verus! {

/// Decodes raw tool output and strips trailing whitespace. The output is
/// expected to be valid UTF-8 (in practice ASCII); bytes that are not are
/// reported as `None` rather than decoded lossily.
pub fn to_trimmed_utf8(v: Vec<u8>) -> (r: Option<String>)
    ensures
        (match r {
            Option::Some(s) => valid_utf8(v@) && s@ == trim_end_spec(decode_utf8(v@)),
            Option::None => !valid_utf8(v@),
        }),
{
    match string_from_utf8(v) {
        Option::Some(s) => Option::Some(String::from_str(trim_end_str(s.as_str()))),
        Option::None => Option::None,
    }
}

/// The failure text of a non-success invocation: standard output when it
/// carries anything (some tool variants print failures there rather than
/// to the error stream), the error stream otherwise.
pub fn pick_error_output(stdout: String, stderr: String) -> (r: String)
    ensures
        stdout@.len() > 0 ==> r@ == stdout@,
        stdout@.len() == 0 ==> r@ == stderr@,
{
    if stdout.as_str().unicode_len() == 0 {
        stderr
    } else {
        stdout
    }
}

/// Relies on `String::from_utf8`: it succeeds exactly on valid UTF-8 input
/// and decodes those bytes into the corresponding characters.
#[verifier::external_body]
fn string_from_utf8(v: Vec<u8>) -> (r: Option<String>)
    ensures
        (match r {
            Option::Some(s) => valid_utf8(v@) && s@ == decode_utf8(v@),
            Option::None => !valid_utf8(v@),
        }),
{
    String::from_utf8(v).ok()
}

/// Counts how often `c` occurs in `s`.
pub open spec fn count_char(s: Seq<char>, c: char) -> nat
    decreases s.len(),
{
    if s.len() == 0 {
        0
    } else {
        count_char(s.drop_last(), c) + if s.last() == c {
            1nat
        } else {
            0nat
        }
    }
}

/// A version triple: three dot-separated runs of digits (each possibly
/// empty), so exactly two dots and nothing but digits elsewhere.
pub open spec fn is_version_triple_spec(s: Seq<char>) -> bool {
    count_char(s, '.') == 2 && forall|i: int|
        0 <= i < s.len() && s[i] != '.' ==> is_digit(#[trigger] s[i])
}

/// Reports whether `s` has the shape of a three-component version number.
pub fn is_version_triple(s: &str) -> (r: bool)
    ensures
        r == is_version_triple_spec(s@),
{
    let len = s.unicode_len();
    let mut dots: usize = 0;
    let mut i: usize = 0;
    while i < len
        invariant
            len == s@.len(),
            i <= len,
            dots == count_char(s@.subrange(0, i as int), '.'),
            dots <= i,
            forall|k: int| 0 <= k < i && s@[k] != '.' ==> is_digit(#[trigger] s@[k]),
        decreases len - i,
    {
        let c = s.get_char(i);
        proof {
            assert(s@.subrange(0, i + 1).drop_last() =~= s@.subrange(0, i as int));
        }
        if c == '.' {
            dots += 1;
        } else if !(48 <= c as u32 && c as u32 <= 57) {
            proof {
                lemma_count_char_prefix_chars(s@, i as int);
            }
            return false;
        }
        i += 1;
    }
    proof {
        assert(s@.subrange(0, len as int) =~= s@);
    }
    dots == 2
}

proof fn lemma_count_char_prefix_chars(s: Seq<char>, i: int)
    requires
        0 <= i < s.len(),
        !is_digit(s[i]),
        s[i] != '.',
    ensures
        !is_version_triple_spec(s),
{
}

/// A package-name component: starts with an ASCII letter, and any further
/// characters are word characters (letters, digits, underscore).
pub open spec fn is_pkg_component_spec(s: Seq<u8>) -> bool {
    s.len() > 0 && is_alpha_spec(s[0]) && forall|i: int|
        1 <= i < s.len() ==> is_w_spec(#[trigger] s[i])
}

/// An ASCII letter.
pub open spec fn is_alpha_spec(c: u8) -> bool {
    (65 <= c && c <= 90) || (97 <= c && c <= 122)
}

/// Reports whether `s` is a valid package-name component.
pub fn is_pkg_component(s: &[u8]) -> (r: bool)
    ensures
        r == is_pkg_component_spec(s@),
{
    if s.len() == 0 {
        return false;
    }
    let c0 = s[0];
    if !((65 <= c0 && c0 <= 90) || (97 <= c0 && c0 <= 122)) {
        return false;
    }
    if s.len() > 1 {
        is_all_w_c_from(s, 1)
    } else {
        true
    }
}

fn is_all_w_c_from(s: &[u8], from: usize) -> (r: bool)
    requires
        from <= s@.len(),
    ensures
        r == forall|i: int| from <= i < s@.len() ==> is_w_spec(#[trigger] s@[i]),
{
    let len = s.len();
    let mut i = from;
    while i < len
        invariant
            len == s@.len(),
            from <= i <= len,
            forall|k: int| from <= k < i ==> is_w_spec(#[trigger] s@[k]),
        decreases len - i,
    {
        if !is_w(s[i]) {
            return false;
        }
        i += 1;
    }
    true
}

/// A valid package identifier: at least two dot-separated components, each
/// starting with an ASCII letter and continuing with word characters. All
/// characters are therefore dots or word characters, every component start
/// (position 0 and each position after a dot) is a letter, and the name
/// neither ends with a dot nor contains an empty component.
pub open spec fn valid_package_id(s: Seq<char>) -> bool {
    &&& s.len() > 0
    &&& s.last() != '.'
    &&& exists|i: int| 0 <= i < s.len() && s[i] == '.'
    &&& forall|i: int| 0 <= i < s.len() ==> (#[trigger] s[i]) == '.' || is_w_char(s[i])
    &&& is_alpha_char(s[0])
    &&& chars_after_dots_alpha(s)
}

/// Every character that follows a dot is an ASCII letter.
pub open spec fn chars_after_dots_alpha(s: Seq<char>) -> bool
    decreases s.len(),
{
    if s.len() <= 1 {
        true
    } else {
        (s[0] == '.' ==> is_alpha_char(s[1])) && chars_after_dots_alpha(s.drop_first())
    }
}

/// An ASCII letter, as a character.
pub open spec fn is_alpha_char(c: char) -> bool {
    (65 <= c as u32 && c as u32 <= 90) || (97 <= c as u32 && c as u32 <= 122)
}

/// A word character (letter, digit or underscore), as a character.
pub open spec fn is_w_char(c: char) -> bool {
    c == '_' || is_alpha_char(c) || is_digit(c)
}

fn is_alpha_char_exec(c: char) -> (r: bool)
    ensures
        r == is_alpha_char(c),
{
    (65 <= c as u32 && c as u32 <= 90) || (97 <= c as u32 && c as u32 <= 122)
}

fn is_w_char_exec(c: char) -> (r: bool)
    ensures
        r == is_w_char(c),
{
    c == '_' || is_alpha_char_exec(c) || (48 <= c as u32 && c as u32 <= 57)
}

/// A string with the invariant of being a valid package name.
#[derive(Debug, Clone, PartialEq, Eq, Hash)]
pub struct PackageId(pub String);

fn all_dot_or_w(s: &str) -> (r: bool)
    ensures
        r == forall|i: int| 0 <= i < s@.len() ==> (#[trigger] s@[i]) == '.' || is_w_char(s@[i]),
{
    let len = s.unicode_len();
    let mut i: usize = 0;
    while i < len
        invariant
            len == s@.len(),
            i <= len,
            forall|k: int| 0 <= k < i ==> (#[trigger] s@[k]) == '.' || is_w_char(s@[k]),
        decreases len - i,
    {
        let c = s.get_char(i);
        if !(c == '.' || is_w_char_exec(c)) {
            return false;
        }
        i += 1;
    }
    true
}

fn contains_dot(s: &str) -> (r: bool)
    ensures
        r == exists|i: int| 0 <= i < s@.len() && (#[trigger] s@[i]) == '.',
{
    let len = s.unicode_len();
    let mut i: usize = 0;
    while i < len
        invariant
            len == s@.len(),
            i <= len,
            forall|k: int| 0 <= k < i ==> (#[trigger] s@[k]) != '.',
        decreases len - i,
    {
        if s.get_char(i) == '.' {
            return true;
        }
        i += 1;
    }
    false
}

fn chars_after_dots_alpha_exec(s: &str) -> (r: bool)
    ensures
        r == chars_after_dots_alpha(s@),
{
    let len = s.unicode_len();
    if len <= 1 {
        return true;
    }
    proof {
        assert(s@.skip(0) =~= s@);
    }
    let mut i: usize = 0;
    while i + 1 < len
        invariant
            len == s@.len(),
            i + 1 <= len,
            chars_after_dots_alpha(s@) == chars_after_dots_alpha(s@.skip(i as int)),
        decreases len - i,
    {
        proof {
            assert(s@.skip(i as int).drop_first() =~= s@.skip(i + 1));
            assert(s@.skip(i as int)[0] == s@[i as int]);
            assert(s@.skip(i as int)[1] == s@[i + 1]);
        }
        if s.get_char(i) == '.' && !is_alpha_char_exec(s.get_char(i + 1)) {
            return false;
        }
        i += 1;
    }
    proof {
        assert(s@.skip(i as int).len() <= 1);
    }
    true
}

impl PackageId {
    /// Creates a package identifier when the name is valid: at least two
    /// dot-separated components, each a letter followed by word characters.
    pub fn new(p_id: String) -> (r: Option<Self>)
        ensures
            valid_package_id(p_id@) ==> (r matches Some(p) && p.0@ == p_id@),
            !valid_package_id(p_id@) ==> r is None,
    {
        let s = p_id.as_str();
        let len = s.unicode_len();
        if len == 0 {
            return Option::None;
        }
        if s.get_char(len - 1) == '.' {
            return Option::None;
        }
        if !all_dot_or_w(s) {
            return Option::None;
        }
        if !contains_dot(s) {
            return Option::None;
        }
        if !is_alpha_char_exec(s.get_char(0)) {
            return Option::None;
        }
        if !chars_after_dots_alpha_exec(s) {
            return Option::None;
        }
        Option::Some(PackageId(p_id))
    }
}

/// Flag selecting which packages a listing reports.
#[derive(Debug, Clone, Copy, PartialEq, Eq, Structural)]
pub enum PmListPacksFlag {
    /// `-u`; includes uninstalled packages.
    IncludeUninstalled,
    /// `-e`; only enabled packages.
    OnlyEnabled,
    /// `-d`; only disabled packages.
    OnlyDisabled,
}

impl PmListPacksFlag {
    /// The flag as passed on the package-manager command line.
    pub fn to_str(self) -> (r: &'static str)
        ensures
            self == PmListPacksFlag::IncludeUninstalled ==> r@ == "-u"@,
            self == PmListPacksFlag::OnlyEnabled ==> r@ == "-e"@,
            self == PmListPacksFlag::OnlyDisabled ==> r@ == "-d"@,
    {
        match self {
            PmListPacksFlag::IncludeUninstalled => "-u",
            PmListPacksFlag::OnlyEnabled => "-e",
            PmListPacksFlag::OnlyDisabled => "-d",
        }
    }
}

/// One parsed record of the user listing.
#[derive(Debug, Clone, Copy, PartialEq, Eq, Structural)]
pub struct UserInfo {
    pub id: u16,
}

impl UserInfo {
    /// The OS-level numeric user id.
    pub fn get_id(&self) -> (r: u16)
        ensures
            r == self.id,
    {
        self.id
    }
}


/// `s` without `prefix`, when it starts with it; `s` itself otherwise.
pub open spec fn strip_prefix_spec(s: Seq<char>, prefix: Seq<char>) -> Seq<char> {
    if seq_starts_with(s, prefix) {
        s.skip(prefix.len() as int)
    } else {
        s
    }
}

fn strip_prefix_str<'a>(s: &'a str, prefix: &str) -> (r: &'a str)
    ensures
        r@ == strip_prefix_spec(s@, prefix@),
{
    if str_starts_with(s, prefix) {
        let r = s.substring_char(prefix.unicode_len(), s.unicode_len());
        proof {
            assert(r@ =~= s@.skip(prefix@.len() as int));
        }
        r
    } else {
        s
    }
}

/// `s` without `suffix`, when it ends with it; `s` itself otherwise.
pub open spec fn strip_suffix_spec(s: Seq<char>, suffix: Seq<char>) -> Seq<char> {
    if seq_ends_with(s, suffix) {
        s.take(s.len() - suffix.len())
    } else {
        s
    }
}

fn strip_suffix_str<'a>(s: &'a str, suffix: &str) -> (r: &'a str)
    ensures
        r@ == strip_suffix_spec(s@, suffix@),
{
    if str_ends_with(s, suffix) {
        let r = s.substring_char(0, s.unicode_len() - suffix.unicode_len());
        proof {
            assert(r@ =~= s@.take(s@.len() - suffix@.len()));
        }
        r
    } else {
        s
    }
}

/// A package-listing line with the `package:` marker removed.
pub open spec fn strip_pkg_marker(l: Seq<char>) -> Seq<char> {
    strip_prefix_spec(l, "package:"@)
}

/// The names reported by a package listing: one per line, the `package:`
/// marker removed. The listing is not sorted, need not be duplicate-free,
/// and may contain names that are not valid package identifiers.
pub open spec fn package_list_spec(out: Seq<char>) -> Seq<Seq<char>> {
    lines_spec(out).map_values(|l: Seq<char>| strip_pkg_marker(l))
}

/// Parses the output of a package listing.
pub fn parse_package_list(out: &str) -> (r: Vec<String>)
    ensures
        views_of(r@) == package_list_spec(out@),
{
    let lines = str_lines(out);
    let mut result: Vec<String> = Vec::new();
    let mut i: usize = 0;
    while i < lines.len()
        invariant
            views_of(lines@) == lines_spec(out@),
            i <= lines@.len(),
            result@.len() == i,
            forall|k: int|
                0 <= k < i ==> (#[trigger] result@[k])@ == strip_pkg_marker(lines@[k]@),
        decreases lines@.len() - i,
    {
        result.push(String::from_str(strip_prefix_str(lines[i].as_str(), "package:")));
        i += 1;
    }
    proof {
        assert(views_of(result@) =~~= package_list_spec(out@));
    }
    result
}

/// The serial and status pairs of the remaining device-listing lines:
/// each line split at its first tab; lines without a tab are tolerated and
/// skipped.
pub open spec fn device_entries(lines: Seq<Seq<char>>) -> Seq<(Seq<char>, Seq<char>)>
    decreases lines.len(),
{
    if lines.len() == 0 {
        Seq::empty()
    } else {
        let rest = device_entries(lines.drop_first());
        let l = lines[0];
        let t = char_index(l, '\t');
        if t < l.len() {
            seq![(l.subrange(0, t), l.subrange(t + 1, l.len() as int))] + rest
        } else {
            rest
        }
    }
}

/// The device table of a device listing: the header line skipped, each
/// further line split at its first tab into serial and status.
pub open spec fn device_list_spec(out: Seq<char>) -> Seq<(Seq<char>, Seq<char>)> {
    if lines_spec(out).len() == 0 {
        Seq::empty()
    } else {
        device_entries(lines_spec(out).skip(1))
    }
}

/// The views of parsed device entries.
pub open spec fn pair_views(v: Seq<(String, String)>) -> Seq<(Seq<char>, Seq<char>)> {
    v.map_values(|p: (String, String)| (p.0@, p.1@))
}

/// Parses the output of the device listing into serial and status pairs.
pub fn parse_device_list(out: &str) -> (r: Vec<(String, String)>)
    ensures
        pair_views(r@) == device_list_spec(out@),
{
    let lines = str_lines(out);
    let mut result: Vec<(String, String)> = Vec::new();
    if lines.len() == 0 {
        proof {
            assert(pair_views(result@) =~= device_list_spec(out@));
        }
        return result;
    }
    let ghost line_views = views_of(lines@);
    proof {
        assert(line_views.skip(1).skip(0) =~= line_views.skip(1));
    }
    let mut i: usize = 1;
    while i < lines.len()
        invariant
            line_views == views_of(lines@),
            line_views == lines_spec(out@),
            1 <= i <= lines@.len(),
            pair_views(result@) + device_entries(line_views.skip(i as int)) == device_entries(
                line_views.skip(1),
            ),
        decreases lines@.len() - i,
    {
        proof {
            assert(line_views.skip(i as int).drop_first() =~= line_views.skip(i + 1));
            assert(line_views.skip(i as int)[0] == line_views[i as int]);
        }
        let line: &String = &lines[i];
        let llen = line.as_str().unicode_len();
        let t = find_char(line.as_str(), '\t');
        let ghost prev = pair_views(result@);
        let ghost rest = device_entries(line_views.skip(i + 1));
        if t < llen {
            let serial = String::from_str(line.as_str().substring_char(0, t));
            let status = String::from_str(line.as_str().substring_char(t + 1, llen));
            let ghost entry = (line_views[i as int].subrange(0, t as int), line_views[
                i as int
            ].subrange(t + 1, line_views[i as int].len() as int));
            result.push((serial, status));
            proof {
                assert(pair_views(result@) =~~= prev + seq![entry]);
                assert((prev + seq![entry]) + rest =~~= prev + (seq![entry] + rest));
            }
        }
        i += 1;
    }
    proof {
        assert(line_views.skip(lines@.len() as int) =~= Seq::<Seq<char>>::empty());
        assert(pair_views(result@) + Seq::<(Seq<char>, Seq<char>)>::empty() =~= pair_views(
            result@,
        ));
    }
    result
}

/// The numeric id recorded in one user-listing line, if the line carries
/// one: the line is unwrapped from its `UserInfo { ... }` framing and an
/// optional `running` marker, and the first `:`-separated component must
/// be a numeral fitting in a user id.
pub open spec fn user_line_id(l: Seq<char>) -> Option<u16> {
    let l1 = trim_start_spec(l);
    let l2 = trim_start_spec(strip_prefix_spec(l1, "UserInfo"@));
    let l3 = trim_spec(strip_prefix_spec(l2, "{"@));
    let l4 = if seq_ends_with(l3, "running"@) {
        trim_end_spec(l3.take(l3.len() - "running"@.len()))
    } else {
        l3
    };
    let l5 = trim_end_spec(strip_suffix_spec(l4, "}"@));
    let first = l5.subrange(0, char_index(l5, ':'));
    if is_dec_numeral(first) && dec_value(first) <= u16::MAX {
        Option::Some(dec_value(first) as u16)
    } else {
        Option::None
    }
}

fn parse_user_line(line: &str) -> (r: Option<u16>)
    ensures
        r == user_line_id(line@),
{
    let l1 = trim_start_str(line);
    let l2 = trim_start_str(strip_prefix_str(l1, "UserInfo"));
    let l3 = trim_str(strip_prefix_str(l2, "{"));
    let l4 = if str_ends_with(l3, "running") {
        let shorter = l3.substring_char(0, l3.unicode_len() - "running".unicode_len());
        proof {
            assert(shorter@ =~= l3@.take(l3@.len() - "running"@.len()));
        }
        trim_end_str(shorter)
    } else {
        l3
    };
    let l5 = trim_end_str(strip_suffix_str(l4, "}"));
    let t = find_char(l5, ':');
    proof {
        crate::text::lemma_char_index_bounds(l5@, ':');
    }
    let first = l5.substring_char(0, t);
    parse_u16(first)
}

/// The user ids of a user listing: the header line skipped, one id per
/// remaining line that carries one; malformed lines are tolerated and
/// skipped.
pub open spec fn user_ids_of_lines(lines: Seq<Seq<char>>) -> Seq<u16>
    decreases lines.len(),
{
    if lines.len() == 0 {
        Seq::empty()
    } else {
        let rest = user_ids_of_lines(lines.drop_first());
        match user_line_id(lines[0]) {
            Option::Some(id) => seq![id] + rest,
            Option::None => rest,
        }
    }
}

/// The user ids of a whole user listing.
pub open spec fn user_list_spec(out: Seq<char>) -> Seq<u16> {
    if lines_spec(out).len() == 0 {
        Seq::empty()
    } else {
        user_ids_of_lines(lines_spec(out).skip(1))
    }
}

/// Parses the output of the user listing.
pub fn parse_user_list(out: &str) -> (r: Vec<UserInfo>)
    ensures
        r@.map_values(|u: UserInfo| u.id) == user_list_spec(out@),
{
    let lines = str_lines(out);
    let mut result: Vec<UserInfo> = Vec::new();
    if lines.len() == 0 {
        proof {
            assert(result@.map_values(|u: UserInfo| u.id) =~= user_list_spec(out@));
        }
        return result;
    }
    let ghost line_views = views_of(lines@);
    proof {
        assert(line_views.skip(1).skip(0) =~= line_views.skip(1));
    }
    let mut i: usize = 1;
    while i < lines.len()
        invariant
            line_views == views_of(lines@),
            line_views == lines_spec(out@),
            1 <= i <= lines@.len(),
            result@.map_values(|u: UserInfo| u.id) + user_ids_of_lines(
                line_views.skip(i as int),
            ) == user_ids_of_lines(line_views.skip(1)),
        decreases lines@.len() - i,
    {
        proof {
            assert(line_views.skip(i as int).drop_first() =~= line_views.skip(i + 1));
            assert(line_views.skip(i as int)[0] == line_views[i as int]);
        }
        let ghost prev = result@.map_values(|u: UserInfo| u.id);
        let ghost rest = user_ids_of_lines(line_views.skip(i + 1));
        match parse_user_line(lines[i].as_str()) {
            Option::Some(id) => {
                result.push(UserInfo { id });
                proof {
                    assert(result@.map_values(|u: UserInfo| u.id) =~= prev + seq![id]);
                    assert((prev + seq![id]) + rest =~= prev + (seq![id] + rest));
                }
            },
            Option::None => {},
        }
        i += 1;
    }
    proof {
        assert(line_views.skip(lines@.len() as int) =~= Seq::<Seq<char>>::empty());
        assert(result@.map_values(|u: UserInfo| u.id) + Seq::<u16>::empty() =~= result@.map_values(
            |u: UserInfo| u.id,
        ));
    }
    result
}

} // verus!
