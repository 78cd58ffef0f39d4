//! Backup and restore planning: assembling a device backup from queried
//! package rows, and turning a parsed backup back into per-package command
//! plans. Reading and writing backup files is a caller concern.

use vstd::prelude::*;
use crate::commands::find_user;
use crate::sync::{clone_core_package, plan_commands, CorePackage, Phone, User};
use crate::text::{dec_str, u16_to_string, views_of};

verus! {

/// A whole-device backup: per user, the recorded package rows.
#[derive(Debug, Clone)]
pub struct PhoneBackup {
    pub device_id: String,
    pub users: Vec<UserBackup>,
}

/// The recorded package rows of one user.
#[derive(Debug, Clone)]
pub struct UserBackup {
    pub id: u16,
    pub packages: Vec<CorePackage>,
}

/// The restore plan for one recorded package: where it sits in the
/// per-user package table, and the commands that restore its state.
#[derive(Debug)]
pub struct BackupPackage {
    pub i_user: usize,
    pub index: usize,
    pub commands: Vec<String>,
}

/// The outcome of restore planning: the per-package plans, and how many
/// recorded packages were skipped because the device no longer lists them.
#[derive(Debug)]
pub struct RestoreResult {
    pub packages: Vec<BackupPackage>,
    pub skipped_count: usize,
}

/// Assembles the backup value for a device: one record per user, holding
/// that user's package rows.
pub fn backup_phone(
    users: &Vec<User>,
    device_id: String,
    phone_packages: &Vec<Vec<CorePackage>>,
) -> (r: PhoneBackup)
    requires
        forall|i: int|
            0 <= i < users@.len() ==> (#[trigger] users@[i]).index < phone_packages@.len(),
    ensures
        r.device_id@ == device_id@,
        r.users@.len() == users@.len(),
        forall|i: int|
            0 <= i < users@.len() ==> (#[trigger] r.users@[i]).id == users@[i].id && r.users@[
                i
            ].packages@ == phone_packages@[users@[i].index as int]@,
{
    let mut user_backups: Vec<UserBackup> = Vec::new();
    let mut i: usize = 0;
    while i < users.len()
        invariant
            i <= users@.len(),
            user_backups@.len() == i,
            forall|k: int|
                0 <= k < users@.len() ==> (#[trigger] users@[k]).index < phone_packages@.len(),
            forall|k: int|
                0 <= k < i ==> (#[trigger] user_backups@[k]).id == users@[k].id
                    && user_backups@[k].packages@ == phone_packages@[users@[k].index as int]@,
        decreases users@.len() - i,
    {
        let u = users[i];
        let source: &Vec<CorePackage> = &phone_packages[u.index];
        let mut packages: Vec<CorePackage> = Vec::new();
        let mut j: usize = 0;
        while j < source.len()
            invariant
                j <= source@.len(),
                packages@ =~= source@.subrange(0, j as int),
            decreases source@.len() - j,
        {
            packages.push(clone_core_package(&source[j]));
            proof {
                assert(packages@ =~= source@.subrange(0, j + 1));
            }
            j += 1;
        }
        proof {
            assert(packages@ =~= source@);
        }
        user_backups.push(UserBackup { id: u.id, packages });
        i += 1;
    }
    PhoneBackup { device_id: String::from_str(device_id.as_str()), users: user_backups }
}

/// The first recorded row with this package name.
pub open spec fn find_core(avail: Seq<CorePackage>, name: Seq<char>) -> Option<CorePackage>
    decreases avail.len(),
{
    if avail.len() == 0 {
        Option::None
    } else if avail[0].name@ == name {
        Option::Some(avail[0])
    } else {
        find_core(avail.drop_first(), name)
    }
}

/// The restore-plan entries contributed by one user's recorded packages,
/// as plain models `(user table index, package index, command views)`:
/// recorded packages the device still lists, whose plan is non-empty.
pub open spec fn user_entries(
    avail: Seq<CorePackage>,
    upkgs: Seq<CorePackage>,
    base: int,
    i_user: int,
    su: User,
    phone: Phone,
) -> Seq<(int, int, Seq<Seq<char>>)>
    decreases upkgs.len(),
{
    if upkgs.len() == 0 {
        Seq::empty()
    } else {
        let rest = user_entries(avail, upkgs.drop_first(), base + 1, i_user, su, phone);
        match find_core(avail, upkgs[0].name@) {
            Option::None => rest,
            Option::Some(p) => {
                let cmds = plan_commands(p, upkgs[0].state, su, phone);
                if cmds.len() > 0 {
                    seq![(i_user, base, cmds)] + rest
                } else {
                    rest
                }
            },
        }
    }
}

/// How many of one user's recorded packages the device no longer lists.
pub open spec fn user_skipped(avail: Seq<CorePackage>, upkgs: Seq<CorePackage>) -> nat
    decreases upkgs.len(),
{
    if upkgs.len() == 0 {
        0
    } else {
        user_skipped(avail, upkgs.drop_first()) + (match find_core(avail, upkgs[0].name@) {
            Option::None => 1nat,
            Option::Some(_) => 0nat,
        })
    }
}

/// The model of one restore-plan entry.
pub open spec fn entry_model(b: BackupPackage) -> (int, int, Seq<Seq<char>>) {
    (b.i_user as int, b.index as int, views_of(b.commands@))
}

/// The models of the restore-plan entries.
pub open spec fn entries_model(v: Seq<BackupPackage>) -> Seq<(int, int, Seq<Seq<char>>)> {
    v.map_values(|b: BackupPackage| entry_model(b))
}

/// The planned entries and skip count over a backup's users, processed in
/// order; the first recorded user the device does not list aborts planning
/// with an error naming that user.
pub open spec fn restore_spec(
    device: Phone,
    users: Seq<UserBackup>,
    packages: Seq<Vec<CorePackage>>,
    su: User,
) -> Result<(Seq<(int, int, Seq<Seq<char>>)>, nat), Seq<char>>
    decreases users.len(),
{
    if users.len() == 0 {
        Result::Ok((Seq::empty(), 0))
    } else {
        match find_user(device.user_list@, users[0].id) {
            Option::None => Result::Err(
                "user "@ + dec_str(users[0].id as nat) + " doesn't exist"@,
            ),
            Option::Some(u) => {
                match restore_spec(device, users.drop_first(), packages, su) {
                    Result::Err(e) => Result::Err(e),
                    Result::Ok((es, sk)) => Result::Ok(
                        (
                            user_entries(
                                packages[u.index as int]@,
                                users[0].packages@,
                                0,
                                u.index as int,
                                su,
                                device,
                            ) + es,
                            user_skipped(packages[u.index as int]@, users[0].packages@) + sk,
                        ),
                    ),
                }
            },
        }
    }
}

/// The total number of recorded packages in a backup.
pub open spec fn total_packages(users: Seq<UserBackup>) -> nat
    decreases users.len(),
{
    if users.len() == 0 {
        0
    } else {
        users[0].packages@.len() + total_packages(users.drop_first())
    }
}

proof fn lemma_total_packages_step(users: Seq<UserBackup>, i: int)
    requires
        0 <= i < users.len(),
    ensures
        total_packages(users.subrange(0, i + 1)) == total_packages(users.subrange(0, i))
            + users[i].packages@.len(),
    decreases i,
{
    if i == 0 {
        assert(users.subrange(0, 1).drop_first() =~= users.subrange(0, 0));
        assert(users.subrange(0, 1)[0] == users[0]);
    } else {
        lemma_total_packages_step(users.drop_first(), i - 1);
        assert(users.subrange(0, i + 1).drop_first() =~= users.drop_first().subrange(0, i));
        assert(users.subrange(0, i).drop_first() =~= users.drop_first().subrange(0, i - 1));
        assert(users.subrange(0, i + 1)[0] == users[0]);
        assert(users.subrange(0, i)[0] == users[0]);
        assert(users.drop_first()[i - 1] == users[i]);
    }
}

proof fn lemma_total_packages_prefix_le(users: Seq<UserBackup>, i: int)
    requires
        0 <= i <= users.len(),
    ensures
        total_packages(users.subrange(0, i)) <= total_packages(users),
    decreases users.len() - i,
{
    if i < users.len() {
        lemma_total_packages_step(users, i);
        lemma_total_packages_prefix_le(users, i + 1);
    } else {
        assert(users.subrange(0, i) =~= users);
    }
}

proof fn lemma_find_user_in_list(users: Seq<User>, uid: u16)
    ensures
        (find_user(users, uid) matches Some(u) ==> exists|k: int|
            0 <= k < users.len() && users[k] == u),
    decreases users.len(),
{
    if users.len() > 0 && users[0].id != uid {
        lemma_find_user_in_list(users.drop_first(), uid);
        match find_user(users.drop_first(), uid) {
            Option::Some(u) => {
                let k = choose|k: int|
                    0 <= k < users.drop_first().len() && users.drop_first()[k] == u;
                assert(users[k + 1] == u);
            },
            Option::None => {},
        }
    }
}

fn find_user_opt(users: &Vec<User>, uid: u16) -> (r: Option<User>)
    ensures
        r == find_user(users@, uid),
{
    proof {
        assert(users@.skip(0) =~= users@);
    }
    let mut i: usize = 0;
    while i < users.len()
        invariant
            i <= users@.len(),
            find_user(users@, uid) == find_user(users@.skip(i as int), uid),
        decreases users@.len() - i,
    {
        proof {
            assert(users@.skip(i as int).drop_first() =~= users@.skip(i + 1));
            assert(users@.skip(i as int)[0] == users@[i as int]);
        }
        if users[i].id == uid {
            proof {
                assert(find_user(users@.skip(i as int), uid) == Option::Some(users@[
                    i as int
                ]));
            }
            return Option::Some(users[i]);
        }
        i += 1;
    }
    proof {
        assert(users@.skip(users@.len() as int) =~= Seq::<User>::empty());
    }
    Option::None
}

fn find_core_index(avail: &Vec<CorePackage>, name: &str) -> (r: Option<usize>)
    ensures
        (match r {
            Option::Some(ix) => ix < avail@.len() && find_core(avail@, name@)
                == Option::Some(avail@[ix as int]),
            Option::None => find_core(avail@, name@) is None,
        }),
{
    proof {
        assert(avail@.skip(0) =~= avail@);
    }
    let mut i: usize = 0;
    while i < avail.len()
        invariant
            i <= avail@.len(),
            find_core(avail@, name@) == find_core(avail@.skip(i as int), name@),
        decreases avail@.len() - i,
    {
        proof {
            assert(avail@.skip(i as int).drop_first() =~= avail@.skip(i + 1));
            assert(avail@.skip(i as int)[0] == avail@[i as int]);
        }
        if crate::text::str_eq(avail[i].name.as_str(), name) {
            proof {
                assert(find_core(avail@.skip(i as int), name@) == Option::Some(avail@[
                    i as int
                ]));
            }
            return Option::Some(i);
        }
        i += 1;
    }
    proof {
        assert(avail@.skip(avail@.len() as int) =~= Seq::<CorePackage>::empty());
    }
    Option::None
}

/// Plans a restore: for each recorded user (which must still exist on the
/// device) and each of its recorded packages that the device still lists,
/// the commands that bring the package back to its recorded state; rows
/// with an empty plan contribute nothing, and a trailing marker entry
/// (user and index zero, no commands) closes a non-empty plan. Recorded
/// packages the device no longer lists are only counted.
pub fn restore_backup(
    selected_device: &Phone,
    backup: &PhoneBackup,
    packages: &Vec<Vec<CorePackage>>,
    selected_user: User,
) -> (r: Result<RestoreResult, String>)
    requires
        !selected_user.protected,
        forall|i: int|
            0 <= i < selected_device.user_list@.len() ==> (#[trigger] selected_device.user_list@[
                i
            ]).index < packages@.len(),
        total_packages(backup.users@) <= usize::MAX,
    ensures
        (match restore_spec(*selected_device, backup.users@, packages@, selected_user) {
            Result::Err(m) => r matches Err(s) && s@ == m,
            Result::Ok((es, sk)) => r matches Ok(rr) && rr.skipped_count as nat == sk && (
            if es.len() == 0 {
                entries_model(rr.packages@) == es
            } else {
                entries_model(rr.packages@) == es + seq![
                    (0int, 0int, Seq::<Seq<char>>::empty()),
                ]
            }),
        }),
{
    let ghost total = restore_spec(*selected_device, backup.users@, packages@, selected_user);
    let mut commands: Vec<BackupPackage> = Vec::new();
    let mut skipped: usize = 0;
    proof {
        assert(backup.users@.skip(0) =~= backup.users@);
        assert(backup.users@.subrange(0, 0) =~= Seq::<UserBackup>::empty());
    }
    let mut i: usize = 0;
    while i < backup.users.len()
        invariant
            !selected_user.protected,
            i <= backup.users@.len(),
            forall|k: int|
                0 <= k < selected_device.user_list@.len() ==> (
                #[trigger] selected_device.user_list@[k]).index < packages@.len(),
            total_packages(backup.users@) <= usize::MAX,
            total == restore_spec(*selected_device, backup.users@, packages@, selected_user),
            skipped as nat <= total_packages(backup.users@.subrange(0, i as int)),
            (match restore_spec(
                *selected_device,
                backup.users@.skip(i as int),
                packages@,
                selected_user,
            ) {
                Result::Ok((es, sk)) => total == Result::<
                    (Seq<(int, int, Seq<Seq<char>>)>, nat),
                    Seq<char>,
                >::Ok((entries_model(commands@) + es, skipped as nat + sk)),
                Result::Err(e) => total == Result::<
                    (Seq<(int, int, Seq<Seq<char>>)>, nat),
                    Seq<char>,
                >::Err(e),
            }),
        decreases backup.users@.len() - i,
    {
        proof {
            assert(backup.users@.skip(i as int).drop_first() =~= backup.users@.skip(i + 1));
            assert(backup.users@.skip(i as int)[0] == backup.users@[i as int]);
        }
        let u_backup: &UserBackup = &backup.users[i];
        match find_user_opt(&selected_device.user_list, u_backup.id) {
            Option::None => {
                let mut msg = String::from_str("user ");
                msg.append(u16_to_string(u_backup.id).as_str());
                msg.append(" doesn't exist");
                return Result::Err(msg);
            },
            Option::Some(device_user) => {
                proof {
                    lemma_find_user_in_list(selected_device.user_list@, u_backup.id);
                }
                let i_user = device_user.index;
                let avail: &Vec<CorePackage> = &packages[i_user];
                let ghost outer_entries = entries_model(commands@);
                let ghost outer_skipped = skipped as nat;
                proof {
                    assert(u_backup.packages@.skip(0) =~= u_backup.packages@);
                    lemma_total_packages_step(backup.users@, i as int);
                    lemma_total_packages_prefix_le(backup.users@, i + 1);
                }
                let mut j: usize = 0;
                while j < u_backup.packages.len()
                    invariant
                        !selected_user.protected,
                        j <= u_backup.packages@.len(),
                        avail@ == packages@[i_user as int]@,
                        i_user < packages@.len(),
                        skipped as nat <= outer_skipped + j,
                        outer_skipped <= total_packages(backup.users@.subrange(0, i as int)),
                        total_packages(backup.users@.subrange(0, i + 1)) == total_packages(
                            backup.users@.subrange(0, i as int),
                        ) + u_backup.packages@.len(),
                        total_packages(backup.users@.subrange(0, i + 1)) <= total_packages(
                            backup.users@,
                        ),
                        total_packages(backup.users@) <= usize::MAX,
                        entries_model(commands@) + user_entries(
                            avail@,
                            u_backup.packages@.skip(j as int),
                            j as int,
                            i_user as int,
                            selected_user,
                            *selected_device,
                        ) == outer_entries + user_entries(
                            avail@,
                            u_backup.packages@,
                            0,
                            i_user as int,
                            selected_user,
                            *selected_device,
                        ),
                        skipped as nat + user_skipped(
                            avail@,
                            u_backup.packages@.skip(j as int),
                        ) == outer_skipped + user_skipped(avail@, u_backup.packages@),
                    decreases u_backup.packages@.len() - j,
                {
                    proof {
                        assert(u_backup.packages@.skip(j as int).drop_first()
                            =~= u_backup.packages@.skip(j + 1));
                        assert(u_backup.packages@.skip(j as int)[0] == u_backup.packages@[
                            j as int
                        ]);
                    }
                    let backup_package: &CorePackage = &u_backup.packages[j];
                    match find_core_index(avail, backup_package.name.as_str()) {
                        Option::None => {
                            proof {
                                assert((skipped as nat) < outer_skipped
                                    + u_backup.packages@.len());
                                assert(outer_skipped + u_backup.packages@.len()
                                    <= total_packages(backup.users@.subrange(0, i + 1)));
                            }
                            skipped += 1;
                        },
                        Option::Some(ix) => {
                            let package: &CorePackage = &avail[ix];
                            let p_commands = crate::sync::apply_pkg_state_commands(
                                package,
                                backup_package.state,
                                selected_user,
                                selected_device,
                            );
                            if p_commands.len() > 0 {
                                let ghost prev = entries_model(commands@);
                                let ghost cmds_model = views_of(p_commands@);
                                let ghost rest = user_entries(
                                    avail@,
                                    u_backup.packages@.skip(j + 1),
                                    j + 1,
                                    i_user as int,
                                    selected_user,
                                    *selected_device,
                                );
                                commands.push(
                                    BackupPackage { i_user, index: j, commands: p_commands },
                                );
                                proof {
                                    assert(entries_model(commands@) =~= prev + seq![
                                        (i_user as int, j as int, cmds_model),
                                    ]);
                                    assert((prev + seq![(i_user as int, j as int, cmds_model)])
                                        + rest =~= prev + (seq![
                                        (i_user as int, j as int, cmds_model),
                                    ] + rest));
                                }
                            }
                        },
                    }
                    j += 1;
                }
                proof {
                    assert(u_backup.packages@.skip(u_backup.packages@.len() as int)
                        =~= Seq::<CorePackage>::empty());
                    assert(entries_model(commands@) + Seq::<
                        (int, int, Seq<Seq<char>>),
                    >::empty() =~= entries_model(commands@));
                    let ue = user_entries(
                        avail@,
                        u_backup.packages@,
                        0,
                        i_user as int,
                        selected_user,
                        *selected_device,
                    );
                    match restore_spec(
                        *selected_device,
                        backup.users@.skip(i + 1),
                        packages@,
                        selected_user,
                    ) {
                        Result::Ok((es2, sk2)) => {
                            assert((outer_entries + ue) + es2 =~= outer_entries + (ue
                                + es2));
                        },
                        Result::Err(_) => {},
                    }
                }
            },
        }
        i += 1;
    }
    proof {
        assert(backup.users@.skip(backup.users@.len() as int) =~= Seq::<UserBackup>::empty());
        assert(entries_model(commands@) + Seq::<(int, int, Seq<Seq<char>>)>::empty()
            =~= entries_model(commands@));
    }
    if commands.len() > 0 {
        let ghost prev = entries_model(commands@);
        commands.push(BackupPackage { i_user: 0, index: 0, commands: Vec::new() });
        proof {
            assert(entries_model(commands@) =~~= prev + seq![
                (0int, 0int, Seq::<Seq<char>>::empty()),
            ]);
        }
    }
    Result::Ok(RestoreResult { packages: commands, skipped_count: skipped })
}

} // verus!
