//! Device model and the command planner: which shell commands realise a
//! requested package-state transition, given the device's SDK version and
//! multi-user support. All functions here are pure; running the produced
//! commands is a caller concern.

use vstd::prelude::*;
use crate::text::{
    dec_str, views_of, u16_to_string, str_contains, str_eq, seq_contains_sub, trim_spec,
    trim_str, is_dec_numeral, dec_value, parse_u16,
};
use crate::uad_lists::{PackageState, Removal, UadList};

verus! {

/// An Android device, typically a phone.
#[derive(Debug, Clone)]
pub struct Phone {
    /// Non-market name.
    pub model: String,
    /// Android API level version; `0` means unknown or unreachable.
    pub android_sdk: u8,
    /// User profiles in device-enumeration order.
    pub user_list: Vec<User>,
    /// Unique serial identifier; empty lets the tool pick the default device.
    pub adb_id: String,
}

impl Default for Phone {
    /// Placeholder value shown while discovery is still running.
    fn default() -> (r: Self)
        ensures
            r.model@ == "fetching devices..."@,
            r.android_sdk == 0,
            r.user_list@.len() == 0,
            r.adb_id@ == Seq::<char>::empty(),
    {
        Phone {
            model: String::from_str("fetching devices..."),
            android_sdk: 0,
            user_list: Vec::new(),
            adb_id: String::new(),
        }
    }
}

/// One OS user profile on a device.
#[derive(Debug, Clone, Copy, PartialEq, Eq, Structural)]
pub struct User {
    /// OS-level numeric user id; not necessarily 0-based or contiguous.
    pub id: u16,
    /// Position within `Phone::user_list`.
    pub index: usize,
    /// True when the package query probe failed for this user; protected
    /// users are never an execution target for state-change commands.
    pub protected: bool,
}

impl Default for User {
    fn default() -> (r: Self)
        ensures
            r.id == 0 && r.index == 0 && !r.protected,
    {
        User { id: 0, index: 0, protected: false }
    }
}

/// Errors yielded by the device bridge.
#[derive(Debug, Clone)]
pub enum AdbError {
    Generic(String),
}

/// Minimum information for processing device commands.
#[derive(Debug, Clone)]
pub struct CorePackage {
    pub name: String,
    pub description: String,
    pub removal: Removal,
    /// The package's current state, as last queried from the device.
    pub state: PackageState,
    pub list: UadList,
}

/// Minimum inclusive Android SDK version that supports multi-user mode
/// (Lollipop 5.0).
pub const MULTI_USER_SDK: u8 = 21;

/// Whether the device might support multi-user mode, judged from the SDK
/// version alone. `true` is not reliable; only `false` can be trusted.
pub fn supports_multi_user(dev: &Phone) -> (r: bool)
    ensures
        r == (dev.android_sdk >= MULTI_USER_SDK),
{
    dev.android_sdk >= MULTI_USER_SDK
}

/// The ` --user <id>` suffix appended to commands on multi-user devices;
/// empty when no user is selected.
pub open spec fn user_flag_spec(user: Option<User>) -> Seq<char> {
    match user {
        Option::None => Seq::empty(),
        Option::Some(u) => " --user "@ + dec_str(u.id as nat),
    }
}

/// If `None`, returns an empty string, not ` --user 0`.
pub fn user_flag(user_id: Option<User>) -> (r: String)
    ensures
        r@ == user_flag_spec(user_id),
{
    match user_id {
        Option::None => String::new(),
        Option::Some(user) => {
            let mut s = String::from_str(" --user ");
            s.append(u16_to_string(user.id).as_str());
            s
        },
    }
}

/// One full shell line: the state-changing command, the optional user flag,
/// one space, and the package name.
pub open spec fn command_line(cmd: Seq<char>, user: Option<User>, package: Seq<char>) -> Seq<
    char,
> {
    cmd + user_flag_spec(user) + " "@ + package
}

/// Builds a command request to be sent to a device: each base command is
/// completed with the user flag and the package name.
pub fn request_builder(commands: &Vec<String>, package: &str, user: Option<User>) -> (r: Vec<
    String,
>)
    ensures
        r@.len() == commands@.len(),
        forall|i: int|
            0 <= i < r@.len() ==> (#[trigger] r@[i])@ == command_line(
                commands@[i]@,
                user,
                package@,
            ),
{
    let maybe_user_flag = user_flag(user);
    let mut out: Vec<String> = Vec::new();
    let mut i: usize = 0;
    while i < commands.len()
        invariant
            i <= commands@.len(),
            out@.len() == i,
            maybe_user_flag@ == user_flag_spec(user),
            forall|k: int|
                0 <= k < i ==> (#[trigger] out@[k])@ == command_line(
                    commands@[k]@,
                    user,
                    package@,
                ),
        decreases commands@.len() - i,
    {
        let cmd: &String = &commands[i];
        let mut line = cmd.clone();
        line.append(maybe_user_flag.as_str());
        line.append(" ");
        line.append(package);
        proof {
            assert(line@ =~= command_line(commands@[i as int]@, user, package@));
        }
        out.push(line);
        i += 1;
    }
    out
}

/// The decision table of the command planner: base commands (package name
/// and user flag not yet attached), gated by the SDK version. The first
/// command is always the one that actually changes state; later commands are
/// best-effort cleanup.
pub open spec fn base_commands(
    wanted: PackageState,
    current: PackageState,
    sdk: u8,
) -> Seq<Seq<char>> {
    match wanted {
        PackageState::Enabled => match current {
            PackageState::Disabled => seq!["pm enable"@],
            PackageState::Uninstalled => if sdk >= 23 {
                seq!["cmd package install-existing"@]
            } else if sdk == 21 || sdk == 22 {
                seq!["pm unhide"@]
            } else if sdk == 19 || sdk == 20 {
                seq!["pm unblock"@, "pm clear"@]
            } else {
                Seq::empty()
            },
            _ => Seq::empty(),
        },
        PackageState::Disabled => match current {
            PackageState::Uninstalled | PackageState::Enabled => if sdk >= 23 {
                seq!["pm disable-user"@, "am force-stop"@, "pm clear"@]
            } else {
                Seq::empty()
            },
            _ => Seq::empty(),
        },
        PackageState::Uninstalled => match current {
            PackageState::Enabled | PackageState::Disabled => if sdk >= 23 {
                seq!["pm uninstall"@]
            } else if sdk == 21 || sdk == 22 {
                seq!["pm hide"@, "pm clear"@]
            } else {
                seq!["pm block"@, "pm clear"@]
            },
            _ => Seq::empty(),
        },
        PackageState::All => Seq::empty(),
    }
}

fn base_command_strings(wanted: PackageState, current: PackageState, sdk: u8) -> (r: Vec<
    String,
>)
    ensures
        views_of(r@) == base_commands(wanted, current, sdk),
{
    let mut out: Vec<String> = Vec::new();
    match wanted {
        PackageState::Enabled => match current {
            PackageState::Disabled => {
                out.push(String::from_str("pm enable"));
            },
            PackageState::Uninstalled => {
                if sdk >= 23 {
                    out.push(String::from_str("cmd package install-existing"));
                } else if sdk == 21 || sdk == 22 {
                    out.push(String::from_str("pm unhide"));
                } else if sdk == 19 || sdk == 20 {
                    out.push(String::from_str("pm unblock"));
                    out.push(String::from_str("pm clear"));
                }
            },
            _ => {},
        },
        PackageState::Disabled => match current {
            PackageState::Uninstalled | PackageState::Enabled => {
                if sdk >= 23 {
                    out.push(String::from_str("pm disable-user"));
                    out.push(String::from_str("am force-stop"));
                    out.push(String::from_str("pm clear"));
                }
            },
            _ => {},
        },
        PackageState::Uninstalled => match current {
            PackageState::Enabled | PackageState::Disabled => {
                if sdk >= 23 {
                    out.push(String::from_str("pm uninstall"));
                } else if sdk == 21 || sdk == 22 {
                    out.push(String::from_str("pm hide"));
                    out.push(String::from_str("pm clear"));
                } else {
                    out.push(String::from_str("pm block"));
                    out.push(String::from_str("pm clear"));
                }
            },
            _ => {},
        },
        PackageState::All => {},
    }
    proof {
        assert(views_of(out@) =~= base_commands(wanted, current, sdk));
    }
    out
}

/// The user selected for a plan: the chosen user on multi-user devices,
/// none otherwise.
pub open spec fn selected_user_spec(user: User, phone: Phone) -> Option<User> {
    if phone.android_sdk >= MULTI_USER_SDK {
        Option::Some(user)
    } else {
        Option::None
    }
}

/// The full plan for taking `package` from its current state to `wanted`:
/// every base command of the decision table, completed with the user flag
/// and the package name. An empty result means the transition is
/// unsupported on this device (or already holds).
pub open spec fn plan_commands(
    package: CorePackage,
    wanted: PackageState,
    user: User,
    phone: Phone,
) -> Seq<Seq<char>> {
    base_commands(wanted, package.state, phone.android_sdk).map_values(
        |c: Seq<char>| command_line(c, selected_user_spec(user, phone), package.name@),
    )
}

/// Produces the ordered shell commands that take `package` to
/// `wanted_state`. The first command is the one that changes state; later
/// commands are best-effort cleanup. If the device does not support
/// multi-user mode, no user flag is attached regardless of `selected_user`.
/// Protected users are never an execution target, so none may be selected.
pub fn apply_pkg_state_commands(
    package: &CorePackage,
    wanted_state: PackageState,
    selected_user: User,
    phone: &Phone,
) -> (r: Vec<String>)
    requires
        !selected_user.protected,
    ensures
        views_of(r@) == plan_commands(*package, wanted_state, selected_user, *phone),
{
    let base = base_command_strings(wanted_state, package.state, phone.android_sdk);
    let user = if supports_multi_user(phone) {
        Option::Some(selected_user)
    } else {
        Option::None
    };
    let r = request_builder(&base, package.name.as_str(), user);
    proof {
        assert(views_of(r@) =~= plan_commands(*package, wanted_state, selected_user, *phone));
    }
    r
}

/// What an `apply` request amounts to, before any command is run.
pub enum ApplyDecision {
    /// The package is already in the wanted state; nothing must be run and
    /// the operation reports success.
    NoOp,
    /// The transition is not supported on this device's SDK version; the
    /// operation reports failure without any device traffic.
    Unsupported,
    /// The commands to run, in order.
    Execute(Vec<String>),
}

/// Decides an `apply` request: a no-op when the package is already in the
/// wanted state, an explicit unsupported signal when the planner has no
/// commands for the transition, and the planned commands otherwise.
pub fn plan_apply(
    package: &CorePackage,
    wanted_state: PackageState,
    selected_user: User,
    phone: &Phone,
) -> (r: ApplyDecision)
    requires
        !selected_user.protected,
    ensures
        package.state == wanted_state ==> r is NoOp,
        package.state != wanted_state && plan_commands(
            *package,
            wanted_state,
            selected_user,
            *phone,
        ).len() == 0 ==> r is Unsupported,
        package.state != wanted_state && plan_commands(
            *package,
            wanted_state,
            selected_user,
            *phone,
        ).len() > 0 ==> (r matches ApplyDecision::Execute(cmds) && views_of(cmds@)
            == plan_commands(*package, wanted_state, selected_user, *phone)),
{
    if package.state == wanted_state {
        return ApplyDecision::NoOp;
    }
    let commands = apply_pkg_state_commands(package, wanted_state, selected_user, phone);
    if commands.len() == 0 {
        ApplyDecision::Unsupported
    } else {
        ApplyDecision::Execute(commands)
    }
}

/// An exact copy of a package row.
pub(crate) fn clone_core_package(p: &CorePackage) -> (r: CorePackage)
    ensures
        r == *p,
{
    CorePackage {
        name: p.name.clone(),
        description: p.description.clone(),
        removal: p.removal,
        state: p.state,
        list: p.list,
    }
}

/// A copy of `package` whose state is `state`, other fields unchanged.
pub fn package_with_state(package: &CorePackage, state: PackageState) -> (r: CorePackage)
    ensures
        r.name == package.name,
        r.description == package.description,
        r.removal == package.removal,
        r.list == package.list,
        r.state == state,
{
    CorePackage {
        name: package.name.clone(),
        description: package.description.clone(),
        removal: package.removal,
        state,
        list: package.list,
    }
}

/// The users an action fans out to, in enumeration order: non-protected
/// users whose row is selected, plus — under multi-user mode — the
/// initiating user. `selected` is parallel to `users`.
pub open spec fn fan_out_spec(
    users: Seq<User>,
    selected: Seq<bool>,
    multi_user_mode: bool,
    initiating_index: int,
) -> Seq<User>
    decreases users.len(),
{
    if users.len() == 0 || selected.len() == 0 {
        Seq::empty()
    } else {
        let rest = fan_out_spec(
            users.drop_first(),
            selected.drop_first(),
            multi_user_mode,
            initiating_index,
        );
        if !users[0].protected && (selected[0] || (multi_user_mode && users[0].index
            == initiating_index)) {
            seq![users[0]] + rest
        } else {
            rest
        }
    }
}

/// Every user the fan-out selects is non-protected.
pub proof fn lemma_fan_out_unprotected(
    users: Seq<User>,
    selected: Seq<bool>,
    multi_user_mode: bool,
    initiating_index: int,
)
    ensures
        forall|i: int|
            0 <= i < fan_out_spec(users, selected, multi_user_mode, initiating_index).len()
                ==> !(#[trigger] fan_out_spec(
                users,
                selected,
                multi_user_mode,
                initiating_index,
            )[i]).protected,
    decreases users.len(),
{
    if users.len() > 0 && selected.len() > 0 {
        lemma_fan_out_unprotected(
            users.drop_first(),
            selected.drop_first(),
            multi_user_mode,
            initiating_index,
        );
        let whole = fan_out_spec(users, selected, multi_user_mode, initiating_index);
        let rest = fan_out_spec(
            users.drop_first(),
            selected.drop_first(),
            multi_user_mode,
            initiating_index,
        );
        assert forall|i: int| 0 <= i < whole.len() implies !(#[trigger] whole[i]).protected by {
            if whole.len() == rest.len() + 1 && i > 0 {
                assert(whole[i] == rest[i - 1]);
            } else if whole.len() == rest.len() {
                assert(whole[i] == rest[i]);
            }
        }
    }
}

/// Selects the users a state-change action targets: the non-protected
/// users whose row is selected for this package, and — under multi-user
/// mode — also the non-protected initiating user. Protected users are
/// never selected, so every returned user is a permitted execution target.
pub fn fan_out_users(
    users: &Vec<User>,
    selected: &Vec<bool>,
    multi_user_mode: bool,
    initiating_index: usize,
) -> (r: Vec<User>)
    requires
        selected@.len() == users@.len(),
    ensures
        r@ == fan_out_spec(users@, selected@, multi_user_mode, initiating_index as int),
        forall|i: int| 0 <= i < r@.len() ==> !(#[trigger] r@[i]).protected,
{
    proof {
        assert(users@.skip(0) =~= users@);
        assert(selected@.skip(0) =~= selected@);
    }
    let mut out: Vec<User> = Vec::new();
    let mut i: usize = 0;
    while i < users.len()
        invariant
            selected@.len() == users@.len(),
            i <= users@.len(),
            forall|k: int| 0 <= k < out@.len() ==> !(#[trigger] out@[k]).protected,
            out@ + fan_out_spec(
                users@.skip(i as int),
                selected@.skip(i as int),
                multi_user_mode,
                initiating_index as int,
            ) == fan_out_spec(users@, selected@, multi_user_mode, initiating_index as int),
        decreases users@.len() - i,
    {
        proof {
            assert(users@.skip(i as int).drop_first() =~= users@.skip(i + 1));
            assert(selected@.skip(i as int).drop_first() =~= selected@.skip(i + 1));
            assert(users@.skip(i as int)[0] == users@[i as int]);
            assert(selected@.skip(i as int)[0] == selected@[i as int]);
        }
        let u = users[i];
        let ghost prev = out@;
        let ghost rest = fan_out_spec(
            users@.skip(i + 1),
            selected@.skip(i + 1),
            multi_user_mode,
            initiating_index as int,
        );
        if !u.protected && (selected[i] || (multi_user_mode && u.index == initiating_index)) {
            out.push(u);
            proof {
                assert(out@ =~= prev + seq![u]);
                assert((prev + seq![u]) + rest =~= prev + (seq![u] + rest));
            }
        }
        i += 1;
    }
    proof {
        assert(users@.skip(users@.len() as int) =~= Seq::<User>::empty());
        assert(out@ + Seq::<User>::empty() =~= out@);
    }
    out
}

// ---------------------------------------------------------------------------
// Execution and verification decisions
// ---------------------------------------------------------------------------

/// The user-facing explanation attached to common vendor-specific failure
/// texts; the raw output is always kept, only augmented.
pub open spec fn friendly_message(e: Seq<char>, action: Seq<char>) -> Seq<char> {
    if seq_contains_sub(e, "DELETE_FAILED_USER_RESTRICTED"@) {
        "Cannot uninstall: This package is restricted by the device manufacturer (Samsung Knox or similar).\nError: "@
            + e
            + "\nTip: Try disabling the package instead, or check device settings for Knox/security restrictions."@
    } else if seq_contains_sub(e, "NOT_INSTALLED_FOR_USER"@) {
        "Package is not installed for the current user.\nError: "@ + e
            + "\nTip: The package may be installed for a different user profile or work profile."@
    } else if seq_contains_sub(e, "Shell cannot change component state for null"@) {
        "Invalid package: Empty package name detected.\nError: "@ + e
            + "\nTip: Please refresh the package list and try again."@
    } else if seq_contains_sub(e, "Permission denied"@) || seq_contains_sub(
        e,
        "INSTALL_FAILED_PERMISSION_MODEL_DOWNGRADE"@,
    ) {
        "Permission denied: Insufficient privileges to perform this action.\nError: "@ + e
            + "\nTip: This may require root access or the package is protected by the system."@
    } else if seq_contains_sub(e, "DELETE_FAILED_DEVICE_POLICY_MANAGER"@) {
        "Cannot modify: Package is managed by device policy (MDM/EMM).\nError: "@ + e
            + "\nTip: Contact your IT administrator if this is a work device."@
    } else {
        action + " -> "@ + e
    }
}

/// Converts common vendor-specific failure messages into user-friendly
/// explanations, appending a short remediation tip; unrecognised output is
/// reported with the attempted action in front.
pub fn make_friendly_error_message(error_output: &str, action: &str) -> (r: String)
    ensures
        r@ == friendly_message(error_output@, action@),
{
    if str_contains(error_output, "DELETE_FAILED_USER_RESTRICTED") {
        String::from_str(
            "Cannot uninstall: This package is restricted by the device manufacturer (Samsung Knox or similar).\nError: ",
        ).concat(error_output).concat(
            "\nTip: Try disabling the package instead, or check device settings for Knox/security restrictions.",
        )
    } else if str_contains(error_output, "NOT_INSTALLED_FOR_USER") {
        String::from_str("Package is not installed for the current user.\nError: ").concat(
            error_output,
        ).concat(
            "\nTip: The package may be installed for a different user profile or work profile.",
        )
    } else if str_contains(error_output, "Shell cannot change component state for null") {
        String::from_str("Invalid package: Empty package name detected.\nError: ").concat(
            error_output,
        ).concat("\nTip: Please refresh the package list and try again.")
    } else if str_contains(error_output, "Permission denied") || str_contains(
        error_output,
        "INSTALL_FAILED_PERMISSION_MODEL_DOWNGRADE",
    ) {
        String::from_str(
            "Permission denied: Insufficient privileges to perform this action.\nError: ",
        ).concat(error_output).concat(
            "\nTip: This may require root access or the package is protected by the system.",
        )
    } else if str_contains(error_output, "DELETE_FAILED_DEVICE_POLICY_MANAGER") {
        String::from_str("Cannot modify: Package is managed by device policy (MDM/EMM).\nError: ").concat(
            error_output,
        ).concat("\nTip: Contact your IT administrator if this is a work device.")
    } else {
        String::from_str(action).concat(" -> ").concat(error_output)
    }
}

/// Classifies the outcome of one shell action. A zero-exit output that
/// carries the literal `Error` or `Failure` is reclassified as a failure:
/// older devices do not propagate failures through exit codes. Failure text
/// is passed through `friendly_message`, except the `[not installed for`
/// report, which is already clear.
pub fn run_adb_shell_action(action: &str, outcome: Result<String, String>) -> (r: Result<
    String,
    AdbError,
>)
    ensures
        (match outcome {
            Result::Ok(o) => {
                if seq_contains_sub(o@, "Error"@) || seq_contains_sub(o@, "Failure"@) {
                    r matches Err(AdbError::Generic(m)) && m@ == friendly_message(o@, action@)
                } else {
                    r matches Ok(s) && s@ == o@
                }
            },
            Result::Err(e) => {
                if !seq_contains_sub(e@, "[not installed for"@) {
                    r matches Err(AdbError::Generic(m)) && m@ == friendly_message(e@, action@)
                } else {
                    r matches Err(AdbError::Generic(m)) && m@ == e@
                }
            },
        }),
{
    match outcome {
        Result::Ok(o) => {
            if str_contains(o.as_str(), "Error") || str_contains(o.as_str(), "Failure") {
                let friendly_msg = make_friendly_error_message(o.as_str(), action);
                Result::Err(AdbError::Generic(friendly_msg))
            } else {
                Result::Ok(o)
            }
        },
        Result::Err(err) => {
            if !str_contains(err.as_str(), "[not installed for") {
                let friendly_msg = make_friendly_error_message(err.as_str(), action);
                Result::Err(AdbError::Generic(friendly_msg))
            } else {
                Result::Err(AdbError::Generic(err))
            }
        },
    }
}

/// The device brand derived from a `ro.product.brand` property lookup:
/// the reported value trimmed of surrounding whitespace, or empty when the
/// lookup failed.
pub fn get_device_brand(prop: Result<String, String>) -> (r: String)
    ensures
        (match prop {
            Result::Ok(s) => r@ == trim_spec(s@),
            Result::Err(_) => r@ == Seq::<char>::empty(),
        }),
{
    match prop {
        Result::Ok(s) => String::from_str(trim_str(s.as_str())),
        Result::Err(_) => String::new(),
    }
}

/// The SDK version derived from a `ro.build.version.sdk` property lookup.
/// A failed lookup, or a value that is not a decimal numeral fitting in
/// `u8`, degrades to `0` ("unknown").
pub fn get_android_sdk(prop: Result<String, String>) -> (r: u8)
    ensures
        (match prop {
            Result::Ok(s) => {
                if is_dec_numeral(s@) && dec_value(s@) <= u8::MAX {
                    r as nat == dec_value(s@)
                } else {
                    r == 0
                }
            },
            Result::Err(_) => r == 0,
        }),
{
    match prop {
        Result::Ok(s) => {
            match parse_u16(s.as_str()) {
                Option::Some(v) => {
                    if v <= 255 {
                        v as u8
                    } else {
                        0
                    }
                },
                Option::None => 0,
            }
        },
        Result::Err(_) => 0,
    }
}

/// A user is protected exactly when the probe that listed its packages
/// failed; such users are excluded as targets of state-change commands.
pub fn is_protected_user(probe: &Result<Vec<String>, String>) -> (r: bool)
    ensures
        r == (probe matches Err(_)),
{
    match probe {
        Result::Ok(_) => false,
        Result::Err(_) => true,
    }
}

/// Whether the device bridge answered the initial device listing at all.
pub fn initial_load(devices: &Result<Vec<(String, String)>, String>) -> (r: bool)
    ensures
        r == (devices matches Ok(_)),
{
    match devices {
        Result::Ok(_) => true,
        Result::Err(_) => false,
    }
}

/// Some attached device reports the authorization status `device` (as
/// opposed to `unauthorized` or absent): discovery may stop polling.
pub fn has_authorized_device(devices: &Vec<(String, String)>) -> (r: bool)
    ensures
        r == exists|i: int|
            0 <= i < devices@.len() && (#[trigger] devices@[i]).1@ == "device"@,
{
    let mut i: usize = 0;
    while i < devices.len()
        invariant
            i <= devices@.len(),
            forall|k: int| 0 <= k < i ==> (#[trigger] devices@[k]).1@ != "device"@,
        decreases devices@.len() - i,
    {
        if str_eq(devices[i].1.as_str(), "device") {
            return true;
        }
        i += 1;
    }
    false
}

/// Builds the user list from the parsed user ids and the protection probe
/// results, in enumeration order; `index` is the position in the list.
pub fn list_users_idx_prot(ids: &Vec<u16>, protection: &Vec<bool>) -> (r: Vec<User>)
    requires
        ids@.len() == protection@.len(),
    ensures
        r@.len() == ids@.len(),
        forall|i: int|
            0 <= i < r@.len() ==> (#[trigger] r@[i]).id == ids@[i] && r@[i].index == i && r@[
                i
            ].protected == protection@[i],
{
    let mut out: Vec<User> = Vec::new();
    let mut i: usize = 0;
    while i < ids.len()
        invariant
            ids@.len() == protection@.len(),
            i <= ids@.len(),
            out@.len() == i,
            forall|k: int|
                0 <= k < i ==> (#[trigger] out@[k]).id == ids@[k] && out@[k].index == k && out@[
                    k
                ].protected == protection@[k],
        decreases ids@.len() - i,
    {
        out.push(User { id: ids[i], index: i, protected: protection[i] });
        i += 1;
    }
    out
}

/// Membership of a name in a listing.
pub open spec fn listing_has(v: Seq<String>, name: Seq<char>) -> bool {
    exists|i: int| 0 <= i < v.len() && (#[trigger] v[i])@ == name
}

/// A successful package listing that contains `name`.
pub open spec fn query_has(r: Result<Vec<String>, String>, name: Seq<char>) -> bool {
    match r {
        Result::Ok(v) => listing_has(v@, name),
        Result::Err(_) => false,
    }
}

/// Reports membership of `name` in a package listing.
pub fn listing_contains(v: &Vec<String>, name: &str) -> (r: bool)
    ensures
        r == listing_has(v@, name@),
{
    let mut i: usize = 0;
    while i < v.len()
        invariant
            i <= v@.len(),
            forall|k: int| 0 <= k < i ==> (#[trigger] v@[k])@ != name@,
        decreases v@.len() - i,
    {
        if str_eq(v[i].as_str(), name) {
            return true;
        }
        i += 1;
    }
    false
}

/// The state derived from the three package queries, in query order:
/// enabled first, then disabled, then the listing that includes
/// uninstalled packages; `None` means the package does not exist for that
/// user at all — a distinct condition from "exists but uninstalled".
pub open spec fn state_of_queries(
    name: Seq<char>,
    enabled: Result<Vec<String>, String>,
    disabled: Result<Vec<String>, String>,
    with_uninstalled: Result<Vec<String>, String>,
) -> Option<PackageState> {
    if query_has(enabled, name) {
        Option::Some(PackageState::Enabled)
    } else if query_has(disabled, name) {
        Option::Some(PackageState::Disabled)
    } else if query_has(with_uninstalled, name) {
        Option::Some(PackageState::Uninstalled)
    } else {
        Option::None
    }
}

/// The current state of a package, decided from the results of the three
/// listings (only-enabled, only-disabled, include-uninstalled) for the
/// target user. A listing that failed counts as not containing the package.
pub fn get_package_state(
    package_name: &str,
    enabled: &Result<Vec<String>, String>,
    disabled: &Result<Vec<String>, String>,
    with_uninstalled: &Result<Vec<String>, String>,
) -> (r: Option<PackageState>)
    ensures
        r == state_of_queries(package_name@, *enabled, *disabled, *with_uninstalled),
{
    if let Result::Ok(v) = enabled {
        if listing_contains(v, package_name) {
            return Option::Some(PackageState::Enabled);
        }
    }
    if let Result::Ok(v) = disabled {
        if listing_contains(v, package_name) {
            return Option::Some(PackageState::Disabled);
        }
    }
    if let Result::Ok(v) = with_uninstalled {
        if listing_contains(v, package_name) {
            return Option::Some(PackageState::Uninstalled);
        }
    }
    Option::None
}

/// Verifies the state of a package after an operation; the same decision as
/// `get_package_state`, from a fresh set of queries.
pub fn verify_package_state(
    package_name: &str,
    enabled: &Result<Vec<String>, String>,
    disabled: &Result<Vec<String>, String>,
    with_uninstalled: &Result<Vec<String>, String>,
) -> (r: Option<PackageState>)
    ensures
        r == state_of_queries(package_name@, *enabled, *disabled, *with_uninstalled),
{
    get_package_state(package_name, enabled, disabled, with_uninstalled)
}

// ---------------------------------------------------------------------------
// Laws of the planner
// ---------------------------------------------------------------------------

/// When the wanted state equals the package's current state, the plan is
/// empty for any device and any user: requesting the state a package is
/// already in runs nothing, and `plan_apply` answers such a request with
/// the no-op success before any device traffic.
pub proof fn lemma_plan_same_state_empty(package: CorePackage, user: User, phone: Phone)
    ensures
        plan_commands(package, package.state, user, phone).len() == 0,
{
}

/// On devices below SDK 19, restoring an uninstalled package is not
/// supported: the plan is empty, and `plan_apply` answers with the explicit
/// `Unsupported` signal rather than a silent no-op, so the outcome can never
/// be mistaken for success.
pub proof fn lemma_restore_unsupported_below_19(package: CorePackage, user: User, phone: Phone)
    requires
        phone.android_sdk < 19,
        package.state == PackageState::Uninstalled,
    ensures
        plan_commands(package, PackageState::Enabled, user, phone).len() == 0,
{
}

/// On a device without multi-user support no user flag is attached: every
/// planned line is the base command followed by one space and the package
/// name, whatever user was selected.
pub proof fn lemma_no_user_flag_without_multi_user(
    package: CorePackage,
    wanted: PackageState,
    user: User,
    phone: Phone,
)
    requires
        phone.android_sdk < MULTI_USER_SDK,
    ensures
        plan_commands(package, wanted, user, phone).len() == base_commands(
            wanted,
            package.state,
            phone.android_sdk,
        ).len(),
        forall|i: int|
            0 <= i < plan_commands(package, wanted, user, phone).len()
                ==> #[trigger] plan_commands(package, wanted, user, phone)[i] == base_commands(
                wanted,
                package.state,
                phone.android_sdk,
            )[i] + " "@ + package.name@,
{
    let base = base_commands(wanted, package.state, phone.android_sdk);
    assert forall|i: int| 0 <= i < plan_commands(package, wanted, user, phone).len() implies
        #[trigger] plan_commands(package, wanted, user, phone)[i] == base[i] + " "@
        + package.name@ by {
        assert(base[i] + Seq::<char>::empty() =~= base[i]);
    }
}

/// In every non-empty plan the first command is the one that actually
/// changes the package's state: the best-effort cleanup commands
/// (`pm clear`, `am force-stop`) never stand first.
pub proof fn lemma_state_change_first(wanted: PackageState, current: PackageState, sdk: u8)
    requires
        base_commands(wanted, current, sdk).len() > 0,
    ensures
        base_commands(wanted, current, sdk)[0] != "pm clear"@,
        base_commands(wanted, current, sdk)[0] != "am force-stop"@,
{
    reveal_strlit("pm enable");
    reveal_strlit("cmd package install-existing");
    reveal_strlit("pm unhide");
    reveal_strlit("pm unblock");
    reveal_strlit("pm disable-user");
    reveal_strlit("pm uninstall");
    reveal_strlit("pm hide");
    reveal_strlit("pm block");
    reveal_strlit("pm clear");
    reveal_strlit("am force-stop");
    assert("pm enable"@.len() == 9);
    assert("cmd package install-existing"@.len() == 28);
    assert("pm unhide"@.len() == 9);
    assert("pm unblock"@.len() == 10);
    assert("pm disable-user"@.len() == 15);
    assert("pm uninstall"@.len() == 12);
    assert("pm hide"@.len() == 7);
    assert("pm block"@.len() == 8);
    assert("pm clear"@.len() == 8);
    assert("am force-stop"@.len() == 13);
    assert("pm block"@[3] != "pm clear"@[3]);
}

/// On a device of SDK at least 23 the uninstall/restore round trip is
/// supported end to end: uninstalling an enabled package plans exactly the
/// one state-changing uninstall command, and restoring the then
/// uninstalled package plans exactly the one install-existing command —
/// neither direction degenerates to an empty plan. Whether the device
/// afterwards reports the package `Enabled` is decided by the device
/// itself; callers re-query it and check with `verify_package_state`.
pub proof fn lemma_round_trip_supported(p: CorePackage, q: CorePackage, user: User, phone: Phone)
    requires
        phone.android_sdk >= 23,
        p.state == PackageState::Enabled,
        q.state == PackageState::Uninstalled,
        q.name@ == p.name@,
    ensures
        plan_commands(p, PackageState::Uninstalled, user, phone) == seq![
            command_line("pm uninstall"@, selected_user_spec(user, phone), p.name@),
        ],
        plan_commands(q, PackageState::Enabled, user, phone) == seq![
            command_line(
                "cmd package install-existing"@,
                selected_user_spec(user, phone),
                p.name@,
            ),
        ],
{
    assert(plan_commands(p, PackageState::Uninstalled, user, phone) =~= seq![
        command_line("pm uninstall"@, selected_user_spec(user, phone), p.name@),
    ]);
    assert(plan_commands(q, PackageState::Enabled, user, phone) =~= seq![
        command_line(
            "cmd package install-existing"@,
            selected_user_spec(user, phone),
            p.name@,
        ),
    ]);
}

/// The planner is a pure function: its output depends only on the package's
/// current state and name, the wanted state, the selected user and the
/// device's SDK version — two calls that agree on those agree on every
/// command, in the same order.
pub proof fn lemma_plan_pure(
    p1: CorePackage,
    p2: CorePackage,
    wanted: PackageState,
    user: User,
    ph1: Phone,
    ph2: Phone,
)
    requires
        p1.state == p2.state,
        p1.name@ == p2.name@,
        ph1.android_sdk == ph2.android_sdk,
    ensures
        plan_commands(p1, wanted, user, ph1) == plan_commands(p2, wanted, user, ph2),
{
    assert(plan_commands(p1, wanted, user, ph1) =~= plan_commands(p2, wanted, user, ph2));
}

} // verus!
