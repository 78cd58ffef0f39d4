//! Filters applied when listing packages: by state, removal class and
//! curated list.

use vstd::prelude::*;
use crate::adb::PmListPacksFlag;
use crate::uad_lists::{Package, PackageState, Removal, UadList};

verus! {

/// Filter on the package-manager lifecycle state.
#[derive(Debug, Clone, Copy, PartialEq, Eq, Structural)]
pub enum StateFilter {
    /// Show all packages regardless of state.
    All,
    /// Show only enabled packages.
    Enabled,
    /// Show only disabled packages.
    Disabled,
    /// Show only uninstalled packages.
    Uninstalled,
}

/// Whether a package state passes a state filter.
pub open spec fn state_filter_matches(f: StateFilter, s: PackageState) -> bool {
    match f {
        StateFilter::All => true,
        StateFilter::Enabled => s == PackageState::Enabled,
        StateFilter::Disabled => s == PackageState::Disabled,
        StateFilter::Uninstalled => s == PackageState::Uninstalled,
    }
}

impl StateFilter {
    /// The listing flag that narrows the device query for this filter. A
    /// specific state narrows to that state; `Uninstalled` and `All` must
    /// include uninstalled packages.
    pub fn to_pm_flag(self) -> (r: Option<PmListPacksFlag>)
        ensures
            self == StateFilter::Enabled ==> r == Some(PmListPacksFlag::OnlyEnabled),
            self == StateFilter::Disabled ==> r == Some(PmListPacksFlag::OnlyDisabled),
            self == StateFilter::Uninstalled || self == StateFilter::All ==> r == Some(
                PmListPacksFlag::IncludeUninstalled,
            ),
    {
        match self {
            StateFilter::Enabled => Option::Some(PmListPacksFlag::OnlyEnabled),
            StateFilter::Disabled => Option::Some(PmListPacksFlag::OnlyDisabled),
            StateFilter::Uninstalled | StateFilter::All => Option::Some(
                PmListPacksFlag::IncludeUninstalled,
            ),
        }
    }

    /// Whether this package state passes the filter.
    pub fn matches(self, pkg_state: PackageState) -> (r: bool)
        ensures
            r == state_filter_matches(self, pkg_state),
    {
        match self {
            StateFilter::All => true,
            StateFilter::Enabled => pkg_state == PackageState::Enabled,
            StateFilter::Disabled => pkg_state == PackageState::Disabled,
            StateFilter::Uninstalled => pkg_state == PackageState::Uninstalled,
        }
    }

    /// Whether the filter names one specific state.
    pub fn is_specific(self) -> (r: bool)
        ensures
            r == (self != StateFilter::All),
    {
        match self {
            StateFilter::Enabled | StateFilter::Disabled | StateFilter::Uninstalled => true,
            StateFilter::All => false,
        }
    }
}

/// Filter on the removal class of the curated metadata.
#[derive(Debug, Clone, Copy, PartialEq, Eq, Structural)]
pub enum RemovalFilter {
    All,
    Recommended,
    Advanced,
    Expert,
    Unsafe,
    Unlisted,
}

/// Whether a removal class passes a removal filter.
pub open spec fn removal_filter_matches(f: RemovalFilter, r: Removal) -> bool {
    match f {
        RemovalFilter::All => true,
        RemovalFilter::Recommended => r == Removal::Recommended,
        RemovalFilter::Advanced => r == Removal::Advanced,
        RemovalFilter::Expert => r == Removal::Expert,
        RemovalFilter::Unsafe => r == Removal::Unsafe,
        RemovalFilter::Unlisted => r == Removal::Unlisted,
    }
}

/// Whether a package, possibly without curated metadata, passes a removal
/// filter; unknown packages pass only the `All` and `Unlisted` filters.
pub open spec fn removal_filter_passes(f: RemovalFilter, info: Option<Package>) -> bool {
    match info {
        Option::Some(p) => removal_filter_matches(f, p.removal),
        Option::None => f == RemovalFilter::All || f == RemovalFilter::Unlisted,
    }
}

impl RemovalFilter {
    /// Whether the package with this metadata passes the filter.
    pub fn matches(self, pkg_info: Option<&Package>) -> (r: bool)
        ensures
            r == removal_filter_passes(
                self,
                (match pkg_info {
                    Option::Some(p) => Option::Some(*p),
                    Option::None => Option::None,
                }),
            ),
    {
        match pkg_info {
            Option::Some(info) => match self {
                RemovalFilter::All => true,
                RemovalFilter::Recommended => info.removal == Removal::Recommended,
                RemovalFilter::Advanced => info.removal == Removal::Advanced,
                RemovalFilter::Expert => info.removal == Removal::Expert,
                RemovalFilter::Unsafe => info.removal == Removal::Unsafe,
                RemovalFilter::Unlisted => info.removal == Removal::Unlisted,
            },
            Option::None => match self {
                RemovalFilter::All | RemovalFilter::Unlisted => true,
                _ => false,
            },
        }
    }

    /// Whether the filter names one specific removal class.
    pub fn is_specific(self) -> (r: bool)
        ensures
            r == (self != RemovalFilter::All),
    {
        match self {
            RemovalFilter::All => false,
            _ => true,
        }
    }
}

/// Filter on the curated list the metadata came from.
#[derive(Debug, Clone, Copy, PartialEq, Eq, Structural)]
pub enum ListFilter {
    All,
    Aosp,
    Carrier,
    Google,
    Misc,
    Oem,
    Pending,
    Unlisted,
}

/// Whether a curated list passes a list filter.
pub open spec fn list_filter_matches(f: ListFilter, l: UadList) -> bool {
    match f {
        ListFilter::All => true,
        ListFilter::Aosp => l == UadList::Aosp,
        ListFilter::Carrier => l == UadList::Carrier,
        ListFilter::Google => l == UadList::Google,
        ListFilter::Misc => l == UadList::Misc,
        ListFilter::Oem => l == UadList::Oem,
        ListFilter::Pending => l == UadList::Pending,
        ListFilter::Unlisted => l == UadList::Unlisted,
    }
}

/// Whether a package, possibly without curated metadata, passes a list
/// filter; unknown packages pass only the `All` and `Unlisted` filters.
pub open spec fn list_filter_passes(f: ListFilter, info: Option<Package>) -> bool {
    match info {
        Option::Some(p) => list_filter_matches(f, p.list),
        Option::None => f == ListFilter::All || f == ListFilter::Unlisted,
    }
}

impl ListFilter {
    /// Whether the package with this metadata passes the filter.
    pub fn matches(self, pkg_info: Option<&Package>) -> (r: bool)
        ensures
            r == list_filter_passes(
                self,
                (match pkg_info {
                    Option::Some(p) => Option::Some(*p),
                    Option::None => Option::None,
                }),
            ),
    {
        match pkg_info {
            Option::Some(info) => match self {
                ListFilter::All => true,
                ListFilter::Aosp => info.list == UadList::Aosp,
                ListFilter::Carrier => info.list == UadList::Carrier,
                ListFilter::Google => info.list == UadList::Google,
                ListFilter::Misc => info.list == UadList::Misc,
                ListFilter::Oem => info.list == UadList::Oem,
                ListFilter::Pending => info.list == UadList::Pending,
                ListFilter::Unlisted => info.list == UadList::Unlisted,
            },
            Option::None => match self {
                ListFilter::All | ListFilter::Unlisted => true,
                _ => false,
            },
        }
    }
}

} // verus!
