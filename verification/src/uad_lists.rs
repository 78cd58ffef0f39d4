//! Package metadata: lifecycle state, curated-list origin and removal class.

use vstd::prelude::*;
use vstd::hash_map::StringHashMap;

verus! {

/// Which curated list a package's metadata came from.
#[derive(Debug, Clone, Copy, PartialEq, Eq, Structural)]
pub enum UadList {
    All,
    Aosp,
    Carrier,
    Google,
    Misc,
    Oem,
    Pending,
    Unlisted,
}

impl Default for UadList {
    fn default() -> (r: Self)
        ensures
            r == UadList::All,
    {
        UadList::All
    }
}

/// Display name of a curated list.
pub open spec fn uad_list_name(l: UadList) -> Seq<char> {
    match l {
        UadList::All => "All lists"@,
        UadList::Aosp => "aosp"@,
        UadList::Carrier => "carrier"@,
        UadList::Google => "google"@,
        UadList::Misc => "misc"@,
        UadList::Oem => "oem"@,
        UadList::Pending => "pending"@,
        UadList::Unlisted => "unlisted"@,
    }
}

impl UadList {
    /// Short display name of the list.
    pub fn as_str(self) -> (r: &'static str)
        ensures
            r@ == uad_list_name(self),
    {
        match self {
            UadList::All => "All lists",
            UadList::Aosp => "aosp",
            UadList::Carrier => "carrier",
            UadList::Google => "google",
            UadList::Misc => "misc",
            UadList::Oem => "oem",
            UadList::Pending => "pending",
            UadList::Unlisted => "unlisted",
        }
    }
}

/// Progress of the curated-list download.
#[derive(Debug, Clone, Copy, PartialEq, Eq, Structural)]
pub enum UadListState {
    Downloading,
    Done,
    Failed,
}

impl Default for UadListState {
    fn default() -> (r: Self)
        ensures
            r == UadListState::Downloading,
    {
        UadListState::Downloading
    }
}

/// Lifecycle status of a package for one user, as the device's package
/// manager reports it. `All` is a query-only wildcard, never a real state.
#[derive(Debug, Clone, Copy, PartialEq, Eq, Structural)]
pub enum PackageState {
    All,
    Enabled,
    Uninstalled,
    Disabled,
}

impl Default for PackageState {
    fn default() -> (r: Self)
        ensures
            r == PackageState::Enabled,
    {
        PackageState::Enabled
    }
}

/// Name of the state, as shown to the user (and as the debug form prints it).
pub open spec fn state_name(s: PackageState) -> Seq<char> {
    match s {
        PackageState::All => "All states"@,
        PackageState::Enabled => "Enabled"@,
        PackageState::Uninstalled => "Uninstalled"@,
        PackageState::Disabled => "Disabled"@,
    }
}

/// Variant name of the state, as the derived debug form prints it.
pub open spec fn state_debug(s: PackageState) -> Seq<char> {
    match s {
        PackageState::All => "All"@,
        PackageState::Enabled => "Enabled"@,
        PackageState::Uninstalled => "Uninstalled"@,
        PackageState::Disabled => "Disabled"@,
    }
}

impl PackageState {
    /// Variant name of the state.
    pub fn debug_str(self) -> (r: &'static str)
        ensures
            r@ == state_debug(self),
    {
        match self {
            PackageState::All => "All",
            PackageState::Enabled => "Enabled",
            PackageState::Uninstalled => "Uninstalled",
            PackageState::Disabled => "Disabled",
        }
    }

    /// Display name of the state.
    pub fn as_str(self) -> (r: &'static str)
        ensures
            r@ == state_name(self),
    {
        match self {
            PackageState::All => "All states",
            PackageState::Enabled => "Enabled",
            PackageState::Uninstalled => "Uninstalled",
            PackageState::Disabled => "Disabled",
        }
    }
}

/// The state a toggle action moves a package to.
pub trait Opposite {
    fn opposite(&self, disable: bool) -> PackageState;
}

impl Opposite for PackageState {
    /// Enabled packages are taken to `Disabled` when disable mode is
    /// preferred, otherwise to `Uninstalled`; removed or disabled packages
    /// are taken back to `Enabled`.
    fn opposite(&self, disable: bool) -> (r: PackageState)
        ensures
            *self == PackageState::Enabled && disable ==> r == PackageState::Disabled,
            *self == PackageState::Enabled && !disable ==> r == PackageState::Uninstalled,
            *self == PackageState::Uninstalled || *self == PackageState::Disabled ==> r
                == PackageState::Enabled,
            *self == PackageState::All ==> r == PackageState::All,
    {
        match self {
            PackageState::Enabled => {
                if disable {
                    PackageState::Disabled
                } else {
                    PackageState::Uninstalled
                }
            },
            PackageState::Uninstalled | PackageState::Disabled => PackageState::Enabled,
            PackageState::All => PackageState::All,
        }
    }
}

/// How safe removing a package is considered to be.
#[derive(Debug, Clone, Copy, PartialEq, Eq, Structural)]
pub enum Removal {
    Recommended,
    Advanced,
    Expert,
    Unsafe,
    Unlisted,
    All,
}

impl Default for Removal {
    fn default() -> (r: Self)
        ensures
            r == Removal::Recommended,
    {
        Removal::Recommended
    }
}

/// Display name of a removal class.
pub open spec fn removal_name(r: Removal) -> Seq<char> {
    match r {
        Removal::All => "All removals"@,
        Removal::Recommended => "Recommended"@,
        Removal::Advanced => "Advanced"@,
        Removal::Expert => "Expert"@,
        Removal::Unsafe => "Unsafe"@,
        Removal::Unlisted => "Unlisted"@,
    }
}

impl Removal {
    /// Display name of the removal class.
    pub fn as_str(self) -> (r: &'static str)
        ensures
            r@ == removal_name(self),
    {
        match self {
            Removal::All => "All removals",
            Removal::Recommended => "Recommended",
            Removal::Advanced => "Advanced",
            Removal::Expert => "Expert",
            Removal::Unsafe => "Unsafe",
            Removal::Unlisted => "Unlisted",
        }
    }
}

/// Curated metadata for one package.
#[derive(Debug, Clone)]
pub struct Package {
    pub list: UadList,
    pub description: String,
    pub dependencies: Vec<String>,
    pub needed_by: Vec<String>,
    pub labels: Vec<String>,
    pub removal: Removal,
}

impl Package {
    /// A metadata record without dependency or label information.
    pub fn new(list: UadList, description: String, removal: Removal) -> (r: Self)
        ensures
            r.list == list,
            r.description == description,
            r.removal == removal,
    {
        Package { list, description, dependencies: Vec::new(), needed_by: Vec::new(), labels: Vec::new(), removal }
    }
}

/// Curated metadata keyed by package name.
pub type PackageHashMap = StringHashMap<Package>;

} // verus!
