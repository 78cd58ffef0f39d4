//! Assembling filtered package listings for display, and picking the
//! target user of an operation.

use vstd::prelude::*;
use crate::filters::{
    list_filter_passes, removal_filter_passes, state_filter_matches, ListFilter,
    RemovalFilter, StateFilter,
};
use crate::sync::{Phone, User};
use crate::text::views_of;
use crate::uad_lists::{
    removal_name, state_name, Package, PackageHashMap, PackageState,
};
use crate::utils::{fetched_state, matches_search_spec, truncated_spec};

verus! {

/// The filters and search term of one listing request.
pub struct PackageListContext {
    pub state_filter: Option<StateFilter>,
    pub removal_filter: Option<RemovalFilter>,
    pub list_filter: Option<ListFilter>,
    pub search: Option<String>,
}

/// What an entry line shows, derived from the active filters.
#[derive(Debug, Clone, Copy, PartialEq, Eq, Structural)]
pub struct DisplayConfig {
    pub show_state: bool,
    pub show_removal: bool,
}

/// The description of a package, if its metadata is known.
pub open spec fn description_of(info: Option<Package>) -> Option<Seq<char>> {
    match info {
        Option::Some(p) => Option::Some(p.description@),
        Option::None => Option::None,
    }
}

/// Whether a package passes every active filter of the context.
pub open spec fn filter_spec(
    ctx: PackageListContext,
    name: Seq<char>,
    info: Option<Package>,
    state: PackageState,
) -> bool {
    &&& (ctx.removal_filter matches Some(f) ==> removal_filter_passes(f, info))
    &&& (ctx.state_filter matches Some(f) ==> state_filter_matches(f, state))
    &&& (ctx.list_filter matches Some(f) ==> list_filter_passes(f, info))
    &&& (ctx.search matches Some(t) ==> matches_search_spec(name, t@, description_of(info)))
}

/// The display configuration derived from a context: a column is shown
/// unless the corresponding filter already pins it to one value.
pub open spec fn display_config_spec(ctx: PackageListContext) -> DisplayConfig {
    (DisplayConfig {
        show_state: (ctx.state_filter matches Some(f) ==> f == StateFilter::All),
        show_removal: (ctx.removal_filter matches Some(f) ==> f == RemovalFilter::All),
    })
}

impl PackageListContext {
    /// Checks whether the package passes all active filters: removal
    /// class, state, curated list, and the search term.
    pub fn filter_package(
        &self,
        pkg_name: &str,
        pkg_info: Option<&Package>,
        pkg_state: PackageState,
    ) -> (r: bool)
        ensures
            r == filter_spec(
                *self,
                pkg_name@,
                (match pkg_info {
                    Option::Some(p) => Option::Some(*p),
                    Option::None => Option::None,
                }),
                pkg_state,
            ),
    {
        if let Option::Some(removal) = self.removal_filter {
            if !removal.matches(pkg_info) {
                return false;
            }
        }
        if let Option::Some(state) = self.state_filter {
            if !state.matches(pkg_state) {
                return false;
            }
        }
        if let Option::Some(list) = self.list_filter {
            if !list.matches(pkg_info) {
                return false;
            }
        }
        if let Option::Some(search_term) = &self.search {
            let description = match pkg_info {
                Option::Some(p) => Option::Some(p.description.as_str()),
                Option::None => Option::None,
            };
            if !crate::utils::matches_search(pkg_name, search_term.as_str(), description) {
                return false;
            }
        }
        true
    }

    /// Determines what an entry line shows, given the active filters.
    pub fn display_config(&self) -> (r: DisplayConfig)
        ensures
            r == display_config_spec(*self),
    {
        let show_state = match self.state_filter {
            Option::Some(f) => !f.is_specific(),
            Option::None => true,
        };
        let show_removal = match self.removal_filter {
            Option::Some(f) => !f.is_specific(),
            Option::None => true,
        };
        DisplayConfig { show_state, show_removal }
    }
}

/// The bracketed head of an entry line: removal class and state, as far as
/// they are shown.
pub open spec fn entry_head(
    info: Option<Package>,
    state: PackageState,
    config: DisplayConfig,
) -> Seq<char> {
    "["@ + (if config.show_removal {
        (match info {
            Option::Some(p) => removal_name(p.removal),
            Option::None => "Unlisted"@,
        }) + (if config.show_state {
            " - "@
        } else {
            Seq::empty()
        })
    } else {
        Seq::empty()
    }) + (if config.show_state {
        state_name(state)
    } else {
        Seq::empty()
    }) + "] "@
}

/// One full entry line: the bracketed head, the package name, and — for a
/// known package with a description — the description shortened to eighty
/// characters.
pub open spec fn entry_line(
    info: Option<Package>,
    name: Seq<char>,
    state: PackageState,
    config: DisplayConfig,
) -> Seq<char> {
    entry_head(info, state, config) + name + (match info {
        Option::Some(p) => if p.description@.len() > 0 {
            " - "@ + truncated_spec(p.description@, 80)
        } else {
            Seq::empty()
        },
        Option::None => Seq::empty(),
    })
}

/// Renders one package entry as a display line.
pub fn display_package_entry(
    pkg_name: &str,
    pkg_info: Option<&Package>,
    pkg_state: PackageState,
    config: &DisplayConfig,
) -> (r: String)
    ensures
        r@ == entry_line(
            (match pkg_info {
                Option::Some(p) => Option::Some(*p),
                Option::None => Option::None,
            }),
            pkg_name@,
            pkg_state,
            *config,
        ),
{
    let mut line = String::from_str("[");
    if config.show_removal {
        match pkg_info {
            Option::Some(info) => line.append(info.removal.as_str()),
            Option::None => line.append("Unlisted"),
        }
        if config.show_state {
            line.append(" - ");
        }
    }
    if config.show_state {
        line.append(pkg_state.as_str());
    }
    line.append("] ");
    line.append(pkg_name);
    if let Option::Some(info) = pkg_info {
        if info.description.as_str().unicode_len() > 0 {
            line.append(" - ");
            line.append(crate::utils::truncate_description(info.description.as_str(), 80).as_str());
        }
    }
    proof {
        assert(line@ =~= entry_line(
            (match pkg_info {
                Option::Some(p) => Option::Some(*p),
                Option::None => Option::None,
            }),
            pkg_name@,
            pkg_state,
            *config,
        ));
    }
    line
}

/// The metadata recorded for a name, as an optional value.
pub open spec fn info_of(lists: Map<Seq<char>, Package>, name: Seq<char>) -> Option<Package> {
    if lists.contains_key(name) {
        Option::Some(lists[name])
    } else {
        Option::None
    }
}

/// The entry lines of a filtered listing, in listing order: each package
/// whose derived state and metadata pass the context's filters contributes
/// one line.
pub open spec fn display_lines(
    packages: Seq<String>,
    lists: Map<Seq<char>, Package>,
    enabled: Seq<String>,
    disabled: Seq<String>,
    ctx: PackageListContext,
) -> Seq<Seq<char>>
    decreases packages.len(),
{
    if packages.len() == 0 {
        Seq::empty()
    } else {
        let name = packages[0]@;
        let state = fetched_state(name, enabled, disabled);
        let info = info_of(lists, name);
        let rest = display_lines(packages.drop_first(), lists, enabled, disabled, ctx);
        if filter_spec(ctx, name, info, state) {
            seq![entry_line(info, name, state, display_config_spec(ctx))] + rest
        } else {
            rest
        }
    }
}

/// Renders the display lines for a package listing: the state of each
/// package is decided by the enabled and disabled listings, unknown
/// packages count as unlisted, and only packages passing the context's
/// filters appear. The number of displayed entries is the length of the
/// result.
pub fn display_package_list(
    packages: &Vec<String>,
    uad_lists: &PackageHashMap,
    enabled: &Vec<String>,
    disabled: &Vec<String>,
    context: &PackageListContext,
) -> (r: Vec<String>)
    ensures
        views_of(r@) == display_lines(packages@, uad_lists@, enabled@, disabled@, *context),
{
    let config = context.display_config();
    let mut out: Vec<String> = Vec::new();
    proof {
        assert(packages@.skip(0) =~= packages@);
    }
    let mut i: usize = 0;
    while i < packages.len()
        invariant
            i <= packages@.len(),
            config == display_config_spec(*context),
            views_of(out@) + display_lines(
                packages@.skip(i as int),
                uad_lists@,
                enabled@,
                disabled@,
                *context,
            ) == display_lines(packages@, uad_lists@, enabled@, disabled@, *context),
        decreases packages@.len() - i,
    {
        proof {
            assert(packages@.skip(i as int).drop_first() =~= packages@.skip(i + 1));
            assert(packages@.skip(i as int)[0] == packages@[i as int]);
        }
        let pkg_name: &String = &packages[i];
        let pkg_info = uad_lists.get(pkg_name.as_str());
        let pkg_state = if crate::sync::listing_contains(enabled, pkg_name.as_str()) {
            PackageState::Enabled
        } else if crate::sync::listing_contains(disabled, pkg_name.as_str()) {
            PackageState::Disabled
        } else {
            PackageState::Uninstalled
        };
        let ghost prev = views_of(out@);
        let ghost rest = display_lines(
            packages@.skip(i + 1),
            uad_lists@,
            enabled@,
            disabled@,
            *context,
        );
        if context.filter_package(pkg_name.as_str(), pkg_info, pkg_state) {
            let line = display_package_entry(pkg_name.as_str(), pkg_info, pkg_state, &config);
            out.push(line);
            proof {
                assert(views_of(out@) =~= prev + seq![entry_line(
                    info_of(uad_lists@, packages@[i as int]@),
                    packages@[i as int]@,
                    pkg_state,
                    display_config_spec(*context),
                )]);
                assert((prev + seq![entry_line(
                    info_of(uad_lists@, packages@[i as int]@),
                    packages@[i as int]@,
                    pkg_state,
                    display_config_spec(*context),
                )]) + rest =~= prev + (seq![entry_line(
                    info_of(uad_lists@, packages@[i as int]@),
                    packages@[i as int]@,
                    pkg_state,
                    display_config_spec(*context),
                )] + rest));
            }
        }
        i += 1;
    }
    proof {
        assert(packages@.skip(packages@.len() as int) =~= Seq::<String>::empty());
        assert(views_of(out@) + Seq::<Seq<char>>::empty() =~= views_of(out@));
    }
    out
}

/// The first user of the device's list with this id.
pub open spec fn find_user(users: Seq<User>, uid: u16) -> Option<User>
    decreases users.len(),
{
    if users.len() == 0 {
        Option::None
    } else if users[0].id == uid {
        Option::Some(users[0])
    } else {
        find_user(users.drop_first(), uid)
    }
}

/// Picks the target user: the device's record of the requested id (default
/// 0), or a plain unprotected stand-in when the device does not list it.
pub fn get_user(device: &Phone, user_id: Option<u16>) -> (r: User)
    ensures
        ({
            let uid = (match user_id {
                Option::Some(u) => u,
                Option::None => 0,
            });
            match find_user(device.user_list@, uid) {
                Option::Some(u) => r == u,
                Option::None => r.id == uid && r.index == 0 && !r.protected,
            }
        }),
{
    let uid = match user_id {
        Option::Some(u) => u,
        Option::None => 0,
    };
    let users = &device.user_list;
    proof {
        assert(users@.skip(0) =~= users@);
    }
    let mut i: usize = 0;
    while i < users.len()
        invariant
            i <= users@.len(),
            users@ == device.user_list@,
            uid == (match user_id {
                Option::Some(u) => u,
                Option::None => 0u16,
            }),
            find_user(users@, uid) == find_user(users@.skip(i as int), uid),
        decreases users@.len() - i,
    {
        proof {
            assert(users@.skip(i as int).drop_first() =~= users@.skip(i + 1));
            assert(users@.skip(i as int)[0] == users@[i as int]);
        }
        if users[i].id == uid {
            proof {
                assert(find_user(users@.skip(i as int), uid) == Option::Some(users@[
                    i as int
                ]));
            }
            return users[i];
        }
        i += 1;
    }
    proof {
        assert(users@.skip(users@.len() as int) =~= Seq::<User>::empty());
    }
    User { id: uid, index: 0, protected: false }
}

} // verus!
