//! The cross-user detector: compares package-state snapshots across
//! non-target users taken before and after an operation, to flag
//! vendor-specific propagation behavior. Its notifications are advisory
//! only; they never alter the reported outcome of the primary operation.

use vstd::prelude::*;
use crate::sync::{Phone, User};
use crate::text::{dec_str, joined_with, join_with, u16_to_string, views_of};
use crate::uad_lists::{state_debug, PackageState};

verus! {

/// The snapshot taken over a user list: one entry per non-protected user
/// other than the target whose report shows the package in some state;
/// when `keep_uninstalled` is false, entries in the `Uninstalled` state are
/// dropped as well.
pub open spec fn snapshot_spec(
    users: Seq<User>,
    reports: Seq<Option<PackageState>>,
    target: u16,
    keep_uninstalled: bool,
) -> Seq<(u16, PackageState)>
    decreases users.len(),
{
    if users.len() == 0 || reports.len() == 0 {
        Seq::empty()
    } else {
        let rest = snapshot_spec(users.drop_first(), reports.drop_first(), target, keep_uninstalled);
        match reports[0] {
            Option::Some(st) => if !users[0].protected && users[0].id != target && (
            keep_uninstalled || st != PackageState::Uninstalled) {
                seq![(users[0].id, st)] + rest
            } else {
                rest
            },
            Option::None => rest,
        }
    }
}

fn snapshot(
    target_user_id: u16,
    phone: &Phone,
    reports: &Vec<Option<PackageState>>,
    keep_uninstalled: bool,
) -> (r: Vec<(u16, PackageState)>)
    requires
        reports@.len() == phone.user_list@.len(),
    ensures
        r@ == snapshot_spec(phone.user_list@, reports@, target_user_id, keep_uninstalled),
{
    let users = &phone.user_list;
    proof {
        assert(users@.skip(0) =~= users@);
        assert(reports@.skip(0) =~= reports@);
    }
    let mut out: Vec<(u16, PackageState)> = Vec::new();
    let mut i: usize = 0;
    while i < users.len()
        invariant
            reports@.len() == users@.len(),
            i <= users@.len(),
            out@ + snapshot_spec(
                users@.skip(i as int),
                reports@.skip(i as int),
                target_user_id,
                keep_uninstalled,
            ) == snapshot_spec(users@, reports@, target_user_id, keep_uninstalled),
        decreases users@.len() - i,
    {
        proof {
            assert(users@.skip(i as int).drop_first() =~= users@.skip(i + 1));
            assert(reports@.skip(i as int).drop_first() =~= reports@.skip(i + 1));
            assert(users@.skip(i as int)[0] == users@[i as int]);
            assert(reports@.skip(i as int)[0] == reports@[i as int]);
        }
        let u = users[i];
        let ghost prev = out@;
        let ghost rest = snapshot_spec(
            users@.skip(i + 1),
            reports@.skip(i + 1),
            target_user_id,
            keep_uninstalled,
        );
        match reports[i] {
            Option::Some(st) => {
                if !u.protected && u.id != target_user_id && (keep_uninstalled || st
                    != PackageState::Uninstalled) {
                    out.push((u.id, st));
                    proof {
                        assert(out@ =~= prev + seq![(u.id, st)]);
                        assert((prev + seq![(u.id, st)]) + rest =~= prev + (seq![(u.id, st)]
                            + rest));
                    }
                }
            },
            Option::None => {},
        }
        i += 1;
    }
    proof {
        assert(users@.skip(users@.len() as int) =~= Seq::<User>::empty());
        assert(out@ + Seq::<(u16, PackageState)>::empty() =~= out@);
    }
    out
}

/// Captures the current state of a package across all non-protected users
/// other than the target, keeping every user where the package exists in
/// some state. `reports` holds, for each user of `phone.user_list` in
/// order, the state the package query reported for that user (`None` when
/// the package does not exist there at all).
pub fn capture_cross_user_states(
    target_user_id: u16,
    phone: &Phone,
    reports: &Vec<Option<PackageState>>,
) -> (r: Vec<(u16, PackageState)>)
    requires
        reports@.len() == phone.user_list@.len(),
    ensures
        r@ == snapshot_spec(phone.user_list@, reports@, target_user_id, true),
{
    snapshot(target_user_id, phone, reports, true)
}

/// Reports on which other users the package exists in a non-uninstalled
/// state, from the same kind of per-user reports as
/// `capture_cross_user_states`.
pub fn check_cross_user_package_existence(
    target_user_id: u16,
    phone: &Phone,
    reports: &Vec<Option<PackageState>>,
) -> (r: Vec<(u16, PackageState)>)
    requires
        reports@.len() == phone.user_list@.len(),
    ensures
        r@ == snapshot_spec(phone.user_list@, reports@, target_user_id, false),
{
    snapshot(target_user_id, phone, reports, false)
}

/// Some entry carries this user id.
pub open spec fn has_uid(states: Seq<(u16, PackageState)>, uid: u16) -> bool {
    exists|i: int| 0 <= i < states.len() && (#[trigger] states[i]).0 == uid
}

fn has_uid_exec(states: &Vec<(u16, PackageState)>, uid: u16) -> (r: bool)
    ensures
        r == has_uid(states@, uid),
{
    let mut i: usize = 0;
    while i < states.len()
        invariant
            i <= states@.len(),
            forall|k: int| 0 <= k < i ==> (#[trigger] states@[k]).0 != uid,
        decreases states@.len() - i,
    {
        if states[i].0 == uid {
            return true;
        }
        i += 1;
    }
    false
}

/// The state recorded for a user in a snapshot: the first entry with this
/// id, if any.
pub open spec fn lookup_state(states: Seq<(u16, PackageState)>, uid: u16) -> Option<
    PackageState,
>
    decreases states.len(),
{
    if states.len() == 0 {
        Option::None
    } else if states[0].0 == uid {
        Option::Some(states[0].1)
    } else {
        lookup_state(states.drop_first(), uid)
    }
}

/// The package did not usably exist for this user before the operation: it
/// was not tracked at all, or was tracked as `Uninstalled`.
pub open spec fn absent_before(before: Seq<(u16, PackageState)>, uid: u16) -> bool {
    match lookup_state(before, uid) {
        Option::None => true,
        Option::Some(st) => st == PackageState::Uninstalled,
    }
}

fn absent_before_exec(before: &Vec<(u16, PackageState)>, uid: u16) -> (r: bool)
    ensures
        r == absent_before(before@, uid),
{
    proof {
        assert(before@.skip(0) =~= before@);
    }
    let mut i: usize = 0;
    while i < before.len()
        invariant
            i <= before@.len(),
            lookup_state(before@, uid) == lookup_state(before@.skip(i as int), uid),
        decreases before@.len() - i,
    {
        proof {
            assert(before@.skip(i as int).drop_first() =~= before@.skip(i + 1));
            assert(before@.skip(i as int)[0] == before@[i as int]);
        }
        if before[i].0 == uid {
            return before[i].1 == PackageState::Uninstalled;
        }
        i += 1;
    }
    proof {
        assert(before@.skip(before@.len() as int) =~= Seq::<(u16, PackageState)>::empty());
    }
    true
}

/// The users flagged by a cross-user uninstall: those that had the package
/// in a usable state before, and do not appear in the after snapshot.
pub open spec fn affected_users(
    before: Seq<(u16, PackageState)>,
    after: Seq<(u16, PackageState)>,
) -> Seq<(u16, PackageState)>
    decreases before.len(),
{
    if before.len() == 0 {
        Seq::empty()
    } else {
        let rest = affected_users(before.drop_first(), after);
        if before[0].1 != PackageState::Uninstalled && !has_uid(after, before[0].0) {
            seq![before[0]] + rest
        } else {
            rest
        }
    }
}

fn affected_users_exec(
    before: &Vec<(u16, PackageState)>,
    after: &Vec<(u16, PackageState)>,
) -> (r: Vec<(u16, PackageState)>)
    ensures
        r@ == affected_users(before@, after@),
{
    proof {
        assert(before@.skip(0) =~= before@);
    }
    let mut out: Vec<(u16, PackageState)> = Vec::new();
    let mut i: usize = 0;
    while i < before.len()
        invariant
            i <= before@.len(),
            out@ + affected_users(before@.skip(i as int), after@) == affected_users(
                before@,
                after@,
            ),
        decreases before@.len() - i,
    {
        proof {
            assert(before@.skip(i as int).drop_first() =~= before@.skip(i + 1));
            assert(before@.skip(i as int)[0] == before@[i as int]);
        }
        let entry = before[i];
        let ghost prev = out@;
        let ghost rest = affected_users(before@.skip(i + 1), after@);
        if entry.1 != PackageState::Uninstalled && !has_uid_exec(after, entry.0) {
            out.push(entry);
            proof {
                assert(out@ =~= prev + seq![entry]);
                assert((prev + seq![entry]) + rest =~= prev + (seq![entry] + rest));
            }
        }
        i += 1;
    }
    proof {
        assert(before@.skip(before@.len() as int) =~= Seq::<(u16, PackageState)>::empty());
        assert(out@ + Seq::<(u16, PackageState)>::empty() =~= out@);
    }
    out
}

/// The users on which the package newly appears: entries of the after
/// snapshot whose user did not usably have the package before.
pub open spec fn newly_appeared(
    before: Seq<(u16, PackageState)>,
    after: Seq<(u16, PackageState)>,
) -> Seq<(u16, PackageState)>
    decreases after.len(),
{
    if after.len() == 0 {
        Seq::empty()
    } else {
        let rest = newly_appeared(before, after.drop_first());
        if absent_before(before, after[0].0) {
            seq![after[0]] + rest
        } else {
            rest
        }
    }
}

fn newly_appeared_exec(
    before: &Vec<(u16, PackageState)>,
    after: &Vec<(u16, PackageState)>,
) -> (r: Vec<(u16, PackageState)>)
    ensures
        r@ == newly_appeared(before@, after@),
{
    proof {
        assert(after@.skip(0) =~= after@);
    }
    let mut out: Vec<(u16, PackageState)> = Vec::new();
    let mut i: usize = 0;
    while i < after.len()
        invariant
            i <= after@.len(),
            out@ + newly_appeared(before@, after@.skip(i as int)) == newly_appeared(
                before@,
                after@,
            ),
        decreases after@.len() - i,
    {
        proof {
            assert(after@.skip(i as int).drop_first() =~= after@.skip(i + 1));
            assert(after@.skip(i as int)[0] == after@[i as int]);
        }
        let entry = after[i];
        let ghost prev = out@;
        let ghost rest = newly_appeared(before@, after@.skip(i + 1));
        if absent_before_exec(before, entry.0) {
            out.push(entry);
            proof {
                assert(out@ =~= prev + seq![entry]);
                assert((prev + seq![entry]) + rest =~= prev + (seq![entry] + rest));
            }
        }
        i += 1;
    }
    proof {
        assert(after@.skip(after@.len() as int) =~= Seq::<(u16, PackageState)>::empty());
        assert(out@ + Seq::<(u16, PackageState)>::empty() =~= out@);
    }
    out
}

/// `user <id>`.
pub open spec fn user_tag(uid: u16) -> Seq<char> {
    "user "@ + dec_str(uid as nat)
}

/// `user <id> (<State>)`.
pub open spec fn user_state_tag(uid: u16, st: PackageState) -> Seq<char> {
    "user "@ + dec_str(uid as nat) + " ("@ + state_debug(st) + ")"@
}

/// The ids of a snapshot, written `user <id>` and joined with commas.
pub open spec fn users_joined(states: Seq<(u16, PackageState)>) -> Seq<char> {
    joined_with(states.map_values(|p: (u16, PackageState)| user_tag(p.0)), ", "@)
}

/// The entries of a snapshot, written `user <id> (<State>)` and joined
/// with commas.
pub open spec fn user_states_joined(states: Seq<(u16, PackageState)>) -> Seq<char> {
    joined_with(states.map_values(|p: (u16, PackageState)| user_state_tag(p.0, p.1)), ", "@)
}

fn user_tags(states: &Vec<(u16, PackageState)>) -> (r: Vec<String>)
    ensures
        views_of(r@) == states@.map_values(|p: (u16, PackageState)| user_tag(p.0)),
{
    let mut out: Vec<String> = Vec::new();
    let mut i: usize = 0;
    while i < states.len()
        invariant
            i <= states@.len(),
            out@.len() == i,
            forall|k: int| 0 <= k < i ==> (#[trigger] out@[k])@ == user_tag(states@[k].0),
        decreases states@.len() - i,
    {
        let mut tag = String::from_str("user ");
        tag.append(u16_to_string(states[i].0).as_str());
        out.push(tag);
        i += 1;
    }
    proof {
        assert(views_of(out@) =~= states@.map_values(|p: (u16, PackageState)| user_tag(p.0)));
    }
    out
}

fn user_state_tags(states: &Vec<(u16, PackageState)>) -> (r: Vec<String>)
    ensures
        views_of(r@) == states@.map_values(
            |p: (u16, PackageState)| user_state_tag(p.0, p.1),
        ),
{
    let mut out: Vec<String> = Vec::new();
    let mut i: usize = 0;
    while i < states.len()
        invariant
            i <= states@.len(),
            out@.len() == i,
            forall|k: int|
                0 <= k < i ==> (#[trigger] out@[k])@ == user_state_tag(
                    states@[k].0,
                    states@[k].1,
                ),
        decreases states@.len() - i,
    {
        let mut tag = String::from_str("user ");
        tag.append(u16_to_string(states[i].0).as_str());
        tag.append(" (");
        tag.append(states[i].1.debug_str());
        tag.append(")");
        out.push(tag);
        i += 1;
    }
    proof {
        assert(views_of(out@) =~= states@.map_values(
            |p: (u16, PackageState)| user_state_tag(p.0, p.1),
        ));
    }
    out
}

/// The notification the detector emits, if any, given the wanted and
/// verified states on the target user, the device, and the before and after
/// snapshots over the other users. Nothing is emitted when the target-user
/// operation did not succeed, on single-user devices, or when the
/// snapshots show no propagation.
pub open spec fn detect_spec(
    target: u16,
    wanted: PackageState,
    actual: PackageState,
    phone: Phone,
    before: Seq<(u16, PackageState)>,
    after: Seq<(u16, PackageState)>,
) -> Option<Seq<char>> {
    if actual != wanted {
        Option::None
    } else if phone.user_list@.len() < 2 {
        Option::None
    } else {
        match wanted {
            PackageState::Uninstalled => {
                if after.len() == 0 {
                    if affected_users(before, after).len() == 0 {
                        Option::None
                    } else {
                        Option::Some(
                            "Detected cross-user uninstall: package was also uninstalled from "@
                                + users_joined(affected_users(before, after))
                                + " after uninstalling from user "@ + dec_str(target as nat),
                        )
                    }
                } else {
                    Option::Some(
                        "Detected cross-user restoration: package exists on "@
                            + user_states_joined(after) + " after uninstalling from user "@
                            + dec_str(target as nat),
                    )
                }
            },
            PackageState::Enabled | PackageState::Disabled => {
                if newly_appeared(before, after).len() == 0 {
                    Option::None
                } else {
                    Option::Some(
                        "Detected cross-user restoration: package exists on "@
                            + user_states_joined(newly_appeared(before, after)) + " after "@
                            + (if wanted == PackageState::Enabled {
                            "enabling"@
                        } else {
                            "disabling"@
                        }) + " from user "@ + dec_str(target as nat),
                    )
                }
            },
            PackageState::All => Option::None,
        }
    }
}

/// Detects cross-user behavior after a successful target-user operation
/// and returns the notification message, if any: a cross-user uninstall
/// (the package also vanished from users that had it), or a cross-user
/// restoration (the package exists, or newly appears, on other users).
pub fn detect_cross_user_behavior(
    target_user_id: u16,
    wanted_state: PackageState,
    actual_state: PackageState,
    phone: &Phone,
    before_states: &Vec<(u16, PackageState)>,
    after_states: &Vec<(u16, PackageState)>,
) -> (r: Option<String>)
    ensures
        (match r {
            Option::Some(s) => detect_spec(
                target_user_id,
                wanted_state,
                actual_state,
                *phone,
                before_states@,
                after_states@,
            ) == Option::Some(s@),
            Option::None => detect_spec(
                target_user_id,
                wanted_state,
                actual_state,
                *phone,
                before_states@,
                after_states@,
            ) is None,
        }),
{
    if actual_state != wanted_state {
        return Option::None;
    }
    if phone.user_list.len() < 2 {
        return Option::None;
    }
    match wanted_state {
        PackageState::Uninstalled => {
            if after_states.len() == 0 {
                let affected = affected_users_exec(before_states, after_states);
                if affected.len() == 0 {
                    Option::None
                } else {
                    let user_list = join_with(&user_tags(&affected), ", ");
                    let mut msg = String::from_str(
                        "Detected cross-user uninstall: package was also uninstalled from ",
                    );
                    msg.append(user_list.as_str());
                    msg.append(" after uninstalling from user ");
                    msg.append(u16_to_string(target_user_id).as_str());
                    Option::Some(msg)
                }
            } else {
                let user_list = join_with(&user_state_tags(after_states), ", ");
                let mut msg = String::from_str(
                    "Detected cross-user restoration: package exists on ",
                );
                msg.append(user_list.as_str());
                msg.append(" after uninstalling from user ");
                msg.append(u16_to_string(target_user_id).as_str());
                Option::Some(msg)
            }
        },
        PackageState::Enabled | PackageState::Disabled => {
            let newly = newly_appeared_exec(before_states, after_states);
            if newly.len() == 0 {
                Option::None
            } else {
                let user_list = join_with(&user_state_tags(&newly), ", ");
                let mut msg = String::from_str(
                    "Detected cross-user restoration: package exists on ",
                );
                msg.append(user_list.as_str());
                msg.append(" after ");
                if wanted_state == PackageState::Enabled {
                    msg.append("enabling");
                } else {
                    msg.append("disabling");
                }
                msg.append(" from user ");
                msg.append(u16_to_string(target_user_id).as_str());
                Option::Some(msg)
            }
        },
        PackageState::All => Option::None,
    }
}

/// On a single-user device the detector never emits a notification,
/// whatever the operation's outcome or the snapshots.
pub proof fn lemma_single_user_no_notification(
    target: u16,
    wanted: PackageState,
    actual: PackageState,
    phone: Phone,
    before: Seq<(u16, PackageState)>,
    after: Seq<(u16, PackageState)>,
)
    requires
        phone.user_list@.len() < 2,
    ensures
        detect_spec(target, wanted, actual, phone, before, after) is None,
{
}

} // verus!
