//! Small helpers: character classes, search matching, description
//! truncation, backup file naming and package-row assembly.

use vstd::prelude::*;
use crate::sync::{clone_core_package, listing_has, CorePackage};
use crate::text::{
    dec_str, lemma_lex_le_total, lemma_lex_le_trans, lex_le, lower_seq, seq_contains_sub,
    str_contains_ignore_case, str_le_ignore_case, u16_to_string,
};
use crate::theme::Theme;
use crate::uad_lists::{Package, PackageHashMap, PackageState, Removal, UadList};

verus! {

/// A word character: an underscore, letter or digit (the regex `\w`).
pub open spec fn is_w_spec(c: u8) -> bool {
    c == 95 || (48 <= c && c <= 57) || (65 <= c && c <= 90) || (97 <= c && c <= 122)
}

/// Reports whether `c` is a word character.
pub fn is_w(c: u8) -> (r: bool)
    ensures
        r == is_w_spec(c),
{
    c == 95 || (48 <= c && c <= 57) || (65 <= c && c <= 90) || (97 <= c && c <= 122)
}

/// Reports whether every byte of `s` is a word character (the regex
/// `^\w*$`; the empty slice passes).
pub fn is_all_w_c(s: &[u8]) -> (r: bool)
    ensures
        r == forall|i: int| 0 <= i < s@.len() ==> is_w_spec(#[trigger] s@[i]),
{
    let len = s.len();
    let mut i: usize = 0;
    while i < len
        invariant
            len == s@.len(),
            i <= len,
            forall|k: int| 0 <= k < i ==> is_w_spec(#[trigger] s@[k]),
        decreases len - i,
    {
        if !is_w(s[i]) {
            return false;
        }
        i += 1;
    }
    true
}

/// A calendar date, as plain values; callers supply it from whatever clock
/// they use.
#[derive(Debug, Clone, Copy, PartialEq, Eq, Structural)]
pub struct Date {
    pub year: u16,
    pub month: u8,
    pub day: u8,
}

/// A number zero-padded to at least four digits.
pub open spec fn pad4(n: nat) -> Seq<char> {
    if n < 10 {
        "000"@ + dec_str(n)
    } else if n < 100 {
        "00"@ + dec_str(n)
    } else if n < 1000 {
        "0"@ + dec_str(n)
    } else {
        dec_str(n)
    }
}

/// A number zero-padded to at least two digits.
pub open spec fn pad2(n: nat) -> Seq<char> {
    if n < 10 {
        "0"@ + dec_str(n)
    } else {
        dec_str(n)
    }
}

/// The name of a backup file for this date:
/// `uninstalled_packages_<year><month><day>.csv`, the year four digits and
/// month and day two, zero-padded.
pub open spec fn backup_name_spec(d: Date) -> Seq<char> {
    "uninstalled_packages_"@ + pad4(d.year as nat) + pad2(d.month as nat) + pad2(
        d.day as nat,
    ) + ".csv"@
}

fn pad4_string(n: u16) -> (r: String)
    ensures
        r@ == pad4(n as nat),
{
    let digits = u16_to_string(n);
    if n < 10 {
        String::from_str("000").concat(digits.as_str())
    } else if n < 100 {
        String::from_str("00").concat(digits.as_str())
    } else if n < 1000 {
        String::from_str("0").concat(digits.as_str())
    } else {
        digits
    }
}

fn pad2_string(n: u16) -> (r: String)
    ensures
        r@ == pad2(n as nat),
{
    let digits = u16_to_string(n);
    if n < 10 {
        String::from_str("0").concat(digits.as_str())
    } else {
        digits
    }
}

/// Builds the dated backup file name. The date is a parameter, for purity
/// and testability; callers pass today's date.
pub fn generate_backup_name(t: Date) -> (r: String)
    ensures
        r@ == backup_name_spec(t),
{
    let mut s = String::from_str("uninstalled_packages_");
    s.append(pad4_string(t.year).as_str());
    s.append(pad2_string(t.month as u16).as_str());
    s.append(pad2_string(t.day as u16).as_str());
    s.append(".csv");
    s
}

/// A search term matches a package when it occurs, ASCII
/// case-insensitively, in the package name or in its description.
pub open spec fn matches_search_spec(
    name: Seq<char>,
    term: Seq<char>,
    description: Option<Seq<char>>,
) -> bool {
    seq_contains_sub(lower_seq(name), lower_seq(term)) || (description matches Some(d)
        && seq_contains_sub(lower_seq(d), lower_seq(term)))
}

/// Reports whether the search term matches the package name or its
/// description, ignoring ASCII case.
pub fn matches_search(pkg_name: &str, search_term: &str, description: Option<&str>) -> (r:
    bool)
    ensures
        r == matches_search_spec(
            pkg_name@,
            search_term@,
            (match description {
                Option::Some(d) => Option::Some(d@),
                Option::None => Option::None,
            }),
        ),
{
    if str_contains_ignore_case(pkg_name, search_term) {
        return true;
    }
    match description {
        Option::Some(d) => str_contains_ignore_case(d, search_term),
        Option::None => false,
    }
}

/// The description shortened for single-line display: unchanged when it has
/// at most `max` characters, otherwise its first `max` characters followed
/// by `...`.
pub open spec fn truncated_spec(s: Seq<char>, max: nat) -> Seq<char> {
    if s.len() <= max {
        s
    } else {
        s.subrange(0, max as int) + "..."@
    }
}

/// Shortens a description for single-line display.
pub fn truncate_description(description: &str, max: usize) -> (r: String)
    ensures
        r@ == truncated_spec(description@, max as nat),
{
    let len = description.unicode_len();
    if len <= max {
        String::from_str(description)
    } else {
        String::from_str(description.substring_char(0, max)).concat("...")
    }
}

/// The theme stored under this name; unknown names fall back to the
/// default. `Auto` has no canonical representation, so any name starting
/// with `Auto` selects it.
pub fn string_to_theme(theme: &str) -> (r: Theme)
    ensures
        theme@ == "Dark"@ ==> r == Theme::Dark,
        theme@ == "Light"@ ==> r == Theme::Light,
        theme@ == "Lupin"@ ==> r == Theme::Lupin,
        !(theme@ == "Dark"@ || theme@ == "Light"@ || theme@ == "Lupin"@) ==> r == Theme::Auto,
{
    proof {
        reveal_strlit("Dark");
        reveal_strlit("Light");
        reveal_strlit("Lupin");
        assert("Dark"@.len() == 4);
        assert("Light"@.len() == 5);
        assert("Lupin"@.len() == 5);
        assert("Light"@[1] == 'i');
        assert("Lupin"@[1] == 'u');
    }
    if crate::text::str_eq(theme, "Dark") {
        Theme::Dark
    } else if crate::text::str_eq(theme, "Light") {
        Theme::Light
    } else if crate::text::str_eq(theme, "Lupin") {
        Theme::Lupin
    } else {
        Theme::Auto
    }
}

/// Failures of the folder chooser.
#[derive(Debug, Clone, Copy)]
pub enum Error {
    DialogClosed,
}

/// The state assigned to a fetched package: enabled and disabled listings
/// take precedence, anything else in the full listing is uninstalled.
pub open spec fn fetched_state(
    name: Seq<char>,
    enabled: Seq<String>,
    disabled: Seq<String>,
) -> PackageState {
    if listing_has(enabled, name) {
        PackageState::Enabled
    } else if listing_has(disabled, name) {
        PackageState::Disabled
    } else {
        PackageState::Uninstalled
    }
}

/// The description shown for a fetched package: the curated one when known
/// and non-empty, a placeholder otherwise.
pub open spec fn fetched_description(
    lists: Map<Seq<char>, Package>,
    name: Seq<char>,
) -> Seq<char> {
    if lists.contains_key(name) && lists[name].description@.len() > 0 {
        lists[name].description@
    } else {
        "[No description]: CONTRIBUTION WELCOMED"@
    }
}

/// The curated list recorded for a fetched package; unknown packages are
/// unlisted.
pub open spec fn fetched_list(lists: Map<Seq<char>, Package>, name: Seq<char>) -> UadList {
    if lists.contains_key(name) {
        lists[name].list
    } else {
        UadList::Unlisted
    }
}

/// The removal class recorded for a fetched package; unknown packages are
/// unlisted.
pub open spec fn fetched_removal(lists: Map<Seq<char>, Package>, name: Seq<char>) -> Removal {
    if lists.contains_key(name) {
        lists[name].removal
    } else {
        Removal::Unlisted
    }
}

/// The plain content of one package row: name, description, removal class,
/// state and curated list.
pub open spec fn row_model(p: CorePackage) -> (
    Seq<char>,
    Seq<char>,
    Removal,
    PackageState,
    UadList,
) {
    (p.name@, p.description@, p.removal, p.state, p.list)
}

/// The contents of a row sequence.
pub open spec fn row_models(s: Seq<CorePackage>) -> Seq<
    (Seq<char>, Seq<char>, Removal, PackageState, UadList),
> {
    s.map_values(|p: CorePackage| row_model(p))
}

/// The row built for one listed name: its state decided by the enabled and
/// disabled listings, its metadata from the curated lists or the unlisted
/// defaults.
pub open spec fn built_row(
    lists: Map<Seq<char>, Package>,
    enabled: Seq<String>,
    disabled: Seq<String>,
    name: Seq<char>,
) -> (Seq<char>, Seq<char>, Removal, PackageState, UadList) {
    (
        name,
        fetched_description(lists, name),
        fetched_removal(lists, name),
        fetched_state(name, enabled, disabled),
        fetched_list(lists, name),
    )
}

/// The rows built for a whole listing, in listing order.
pub open spec fn built_rows(
    lists: Map<Seq<char>, Package>,
    all: Seq<String>,
    enabled: Seq<String>,
    disabled: Seq<String>,
) -> Seq<(Seq<char>, Seq<char>, Removal, PackageState, UadList)> {
    all.map_values(|n: String| built_row(lists, enabled, disabled, n@))
}

/// The rows are in ascending order of their lowercase package names.
pub open spec fn sorted_by_name(s: Seq<CorePackage>) -> bool {
    forall|a: int, b: int|
        0 <= a <= b < s.len() ==> lex_le(
            lower_seq((#[trigger] s[a]).name@),
            lower_seq((#[trigger] s[b]).name@),
        )
}

proof fn lemma_to_multiset_insert<A>(s: Seq<A>, p: int, x: A)
    requires
        0 <= p <= s.len(),
    ensures
        s.insert(p, x).to_multiset() =~= s.to_multiset().insert(x),
{
    broadcast use vstd::seq_lib::group_to_multiset_ensures;
    broadcast use vstd::multiset::group_multiset_axioms;

    let t = s.insert(p, x);
    s.insert_ensures(p, x);
    t.remove_ensures(p);
    assert(t.remove(p) =~= s);
    assert(t[p] == x);
    assert(t.remove(p).to_multiset() =~= t.to_multiset().remove(x));
    assert(t.contains(x));
    assert(t.to_multiset().count(x) > 0);
    assert(t.to_multiset() =~= t.to_multiset().remove(x).insert(x));
}

/// Builds the package rows for one user from the three listings (full,
/// only-enabled, only-disabled) and the curated metadata: one row per
/// listed name, sorted ascending by lowercase package name. The result is a
/// permutation of the rows built in listing order; the state of each is
/// decided by the enabled and disabled listings.
pub fn fetch_packages(
    uad_lists: &PackageHashMap,
    all_sys_packs: &Vec<String>,
    enabled_sys_packs: &Vec<String>,
    disabled_sys_packs: &Vec<String>,
) -> (r: Vec<CorePackage>)
    ensures
        r@.len() == all_sys_packs@.len(),
        sorted_by_name(r@),
        row_models(r@).to_multiset() == built_rows(
            uad_lists@,
            all_sys_packs@,
            enabled_sys_packs@,
            disabled_sys_packs@,
        ).to_multiset(),
{
    let mut rows: Vec<CorePackage> = Vec::new();
    let mut i: usize = 0;
    while i < all_sys_packs.len()
        invariant
            i <= all_sys_packs@.len(),
            rows@.len() == i,
            forall|k: int|
                0 <= k < i ==> #[trigger] row_model(rows@[k]) == built_row(
                    uad_lists@,
                    enabled_sys_packs@,
                    disabled_sys_packs@,
                    all_sys_packs@[k]@,
                ),
        decreases all_sys_packs@.len() - i,
    {
        let pack_name: &String = &all_sys_packs[i];
        let mut description = String::from_str("[No description]: CONTRIBUTION WELCOMED");
        let mut uad_list = UadList::Unlisted;
        let mut removal = Removal::Unlisted;

        match uad_lists.get(pack_name.as_str()) {
            Option::Some(package) => {
                if package.description.as_str().unicode_len() > 0 {
                    description = package.description.clone();
                }
                uad_list = package.list;
                removal = package.removal;
            },
            Option::None => {},
        }

        let state = if crate::sync::listing_contains(enabled_sys_packs, pack_name.as_str()) {
            PackageState::Enabled
        } else if crate::sync::listing_contains(disabled_sys_packs, pack_name.as_str()) {
            PackageState::Disabled
        } else {
            PackageState::Uninstalled
        };

        rows.push(
            CorePackage {
                name: pack_name.clone(),
                description,
                removal,
                state,
                list: uad_list,
            },
        );
        i += 1;
    }
    proof {
        assert(row_models(rows@) =~~= built_rows(
            uad_lists@,
            all_sys_packs@,
            enabled_sys_packs@,
            disabled_sys_packs@,
        ));
        assert(rows@.subrange(0, 0) =~= Seq::<CorePackage>::empty());
        assert(row_models(Seq::<CorePackage>::empty()) =~= row_models(rows@.subrange(0, 0)));
    }

    let mut sorted_rows: Vec<CorePackage> = Vec::new();
    let mut j: usize = 0;
    while j < rows.len()
        invariant
            j <= rows@.len(),
            sorted_rows@.len() == j,
            sorted_by_name(sorted_rows@),
            row_models(sorted_rows@).to_multiset() == row_models(
                rows@.subrange(0, j as int),
            ).to_multiset(),
        decreases rows@.len() - j,
    {
        let row = clone_core_package(&rows[j]);
        let ghost x = row_model(row);
        let mut p: usize = 0;
        while p < sorted_rows.len() && str_le_ignore_case(
            sorted_rows[p].name.as_str(),
            row.name.as_str(),
        )
            invariant
                p <= sorted_rows@.len(),
                forall|k: int|
                    0 <= k < p ==> lex_le(
                        lower_seq((#[trigger] sorted_rows@[k]).name@),
                        lower_seq(row.name@),
                    ),
            decreases sorted_rows@.len() - p,
        {
            p += 1;
        }
        let ghost old_sorted = sorted_rows@;
        sorted_rows.insert(p, row);
        proof {
            broadcast use vstd::seq_lib::group_to_multiset_ensures;

            old_sorted.insert_ensures(p as int, row);
            let ns = sorted_rows@;
            let pi = p as int;
            assert forall|a: int, b: int| 0 <= a <= b < ns.len() implies lex_le(
                lower_seq((ns[a]).name@),
                lower_seq((ns[b]).name@),
            ) by {
                if a == b {
                    lemma_lex_le_total(lower_seq(ns[a].name@), lower_seq(ns[a].name@));
                } else if b < pi {
                    assert(ns[a] == old_sorted[a] && ns[b] == old_sorted[b]);
                } else if a < pi && b == pi {
                    assert(ns[a] == old_sorted[a] && ns[b] == row);
                } else if a < pi && b > pi {
                    assert(ns[a] == old_sorted[a] && ns[b] == old_sorted[b - 1]);
                } else if a == pi && b > pi {
                    assert(ns[a] == row && ns[b] == old_sorted[b - 1]);
                    assert(!lex_le(lower_seq(old_sorted[pi].name@), lower_seq(row.name@)));
                    lemma_lex_le_total(lower_seq(old_sorted[pi].name@), lower_seq(row.name@));
                    assert(lex_le(
                        lower_seq(old_sorted[pi].name@),
                        lower_seq(old_sorted[b - 1].name@),
                    ));
                    lemma_lex_le_trans(
                        lower_seq(row.name@),
                        lower_seq(old_sorted[pi].name@),
                        lower_seq(old_sorted[b - 1].name@),
                    );
                } else {
                    assert(ns[a] == old_sorted[a - 1] && ns[b] == old_sorted[b - 1]);
                }
            }
            row_models(old_sorted).insert_ensures(pi, x);
            assert(row_models(ns) =~~= row_models(old_sorted).insert(pi, x));
            lemma_to_multiset_insert(row_models(old_sorted), pi, x);
            assert(row_models(rows@.subrange(0, j + 1)) =~~= row_models(
                rows@.subrange(0, j as int),
            ).push(x));
        }
        j += 1;
    }
    proof {
        assert(rows@.subrange(0, rows@.len() as int) =~= rows@);
    }
    sorted_rows
}

} // verus!
