//! The decisions of an installation. Nothing is replaced before everything was verified, and
//! an installed application is never lost.

use crate::config;
use crate::json::{Json, JsonView};
use crate::text;
use crate::text_map;
use vstd::prelude::*;

verus! {

broadcast use vstd::seq_lib::group_seq_properties;

/// The signature that an application must have.
pub const IDENTITY: &'static str = "=anchor apple generic and identifier \"dev.mbuvarp.gopher\" and certificate leaf[subject.OU] = \"DZ4XZQXHZ7\"";

/// The identifier that an application must have.
pub const BUNDLE: &'static str = "dev.mbuvarp.gopher";

/// How many milliseconds an application has to quit.
pub const QUIT_MILLISECONDS: u64 = 150_000;

// ---------------------------------------------------------------- versions

/// A version: three numbers.
#[derive(Clone, Copy, Debug, PartialEq, Eq, Structural, PartialOrd, Ord)]
pub struct Version {
    pub major: u32,
    pub minor: u32,
    pub patch: u32,
}

/// Whether a version comes before another one.
pub open spec fn is_older(a: Version, b: Version) -> bool {
    a.major < b.major || (a.major == b.major && (a.minor < b.minor || (a.minor == b.minor && a.patch < b.patch)))
}

/// Whether a text writes a number without a sign and without needless zeros.
pub open spec fn plain_number(part: Seq<char>) -> bool {
    &&& part.len() > 0
    &&& forall|i: int| 0 <= i < part.len() ==> text::digit(#[trigger] part[i])
    &&& part.len() == 1 || part[0] != '0'
}

/// The number that a part of a version writes.
pub open spec fn part_number(part: Seq<char>) -> Option<u32> {
    match text::number_of(part) {
        Some(n) => if n <= u32::MAX {
            Some(n as u32)
        } else {
            None
        },
        None => None,
    }
}

/// The version that a text writes.
pub open spec fn version_of(value: Seq<char>) -> Result<Version, Seq<char>> {
    let parts = text::split_on(value, '.');
    if parts.len() != 3 || !plain_number(parts[0]) || !plain_number(parts[1]) || !plain_number(parts[2]) {
        Err("Unsupported installed version: "@ + value)
    } else {
        match (part_number(parts[0]), part_number(parts[1]), part_number(parts[2])) {
            (Some(major), Some(minor), Some(patch)) => Ok(Version { major, minor, patch }),
            _ => Err("number too large to fit in target type"@),
        }
    }
}

/// Whether a text writes a number without a sign and without needless zeros.
fn is_plain(part: &str) -> (r: bool)
    ensures
        r == plain_number(part@),
{
    let letters = text::chars(part);
    if letters.len() == 0 {
        return false;
    }
    let mut i: usize = 0;
    while i < letters.len()
        invariant
            letters@ == part@,
            i <= letters@.len(),
            forall|k: int| 0 <= k < i ==> text::digit(#[trigger] part@[k]),
        decreases letters.len() - i,
    {
        if !text::is_digit(letters[i]) {
            assert(!text::digit(part@[i as int]));
            return false;
        }
        i += 1;
    }
    letters.len() == 1 || letters[0] != '0'
}

/// The number that a part of a version writes.
fn read_part(part: &str) -> (r: Option<u32>)
    ensures
        r == part_number(part@),
{
    match text::parse_u64(part) {
        Some(n) => if n <= u32::MAX as u64 {
            Some(n as u32)
        } else {
            None
        },
        None => None,
    }
}

/// The version that a text writes.
pub fn version(value: &str) -> (r: Result<Version, String>)
    ensures
        match r {
            Ok(version) => version_of(value@) == Ok::<Version, Seq<char>>(version),
            Err(message) => version_of(value@) == Err::<Version, Seq<char>>(message@),
        },
{
    let parts = text::split(value, '.');
    let ghost v = parts.deep_view();
    if parts.len() != 3 {
        return Err(text::concat("Unsupported installed version: ", value));
    }
    assert(v[0] == parts@[0]@ && v[1] == parts@[1]@ && v[2] == parts@[2]@);
    if !is_plain(&parts[0]) || !is_plain(&parts[1]) || !is_plain(&parts[2]) {
        return Err(text::concat("Unsupported installed version: ", value));
    }
    match (read_part(&parts[0]), read_part(&parts[1]), read_part(&parts[2])) {
        (Some(major), Some(minor), Some(patch)) => Ok(Version { major, minor, patch }),
        _ => Err("number too large to fit in target type".to_owned()),
    }
}

/// What an installation does.
#[derive(Clone, Copy, Debug, PartialEq, Eq, Structural)]
pub enum Plan {
    Install,
    AlreadyCurrent,
}

/// What an installation does, given the version that is installed, if one is, and its own.
pub open spec fn planned(installed: Option<Seq<char>>, own: Seq<char>) -> Result<Plan, Seq<char>> {
    match installed {
        None => Ok(Plan::Install),
        Some(installed) => match version_of(installed) {
            Err(message) => Err(message),
            Ok(there) => match version_of(own) {
                Err(message) => Err(message),
                Ok(here) => if there == here {
                    Ok(Plan::AlreadyCurrent)
                } else if is_older(here, there) {
                    Err("Installed Gopher is newer; refusing to downgrade"@)
                } else {
                    Ok(Plan::Install)
                },
            },
        },
    }
}

/// What an installation does.
pub fn plan(installed: Option<&str>, own: &str) -> (r: Result<Plan, String>)
    ensures
        match r {
            Ok(plan) => planned(crate::github::exchange::account_view(installed), own@) == Ok::<Plan, Seq<char>>(plan),
            Err(message) => planned(crate::github::exchange::account_view(installed), own@) == Err::<Plan, Seq<char>>(
                message@,
            ),
        },
{
    let installed = match installed {
        Some(installed) => installed,
        None => {
            return Ok(Plan::Install);
        },
    };
    let there = match version(installed) {
        Ok(there) => there,
        Err(message) => {
            return Err(message);
        },
    };
    let here = match version(own) {
        Ok(here) => here,
        Err(message) => {
            return Err(message);
        },
    };
    if there == here {
        return Ok(Plan::AlreadyCurrent);
    }
    let newer = here.major < there.major || (here.major == there.major && (here.minor < there.minor || (here.minor
        == there.minor && here.patch < there.patch)));
    if newer {
        return Err("Installed Gopher is newer; refusing to downgrade".to_owned());
    }
    Ok(Plan::Install)
}

// ---------------------------------------------------------------- what is checked before

/// Checks that the user is not the superuser.
pub fn check_user(uid: &str) -> (r: Result<(), String>)
    ensures
        match r {
            Ok(_) => uid@ != "0"@,
            Err(message) => uid@ == "0"@ && message@ == "Run the installer as your normal user, without sudo"@,
        },
{
    if text::same(uid, "0") {
        return Err("Run the installer as your normal user, without sudo".to_owned());
    }
    Ok(())
}

/// Checks the identifier of an application whose signature was verified.
pub fn check_identity(bundle: &str) -> (r: Result<(), String>)
    ensures
        match r {
            Ok(_) => bundle@ == BUNDLE@,
            Err(message) => bundle@ != BUNDLE@ && message@ == "Unexpected application identity"@,
        },
{
    if text::same(bundle, BUNDLE) {
        Ok(())
    } else {
        Err("Unexpected application identity".to_owned())
    }
}

/// Checks that the downloaded application is the one that this executable belongs to, and
/// that it is not the installed one.
pub fn check_source(bundle_version: &str, own: &str, source: &str, target: &str) -> (r: Result<(), String>)
    ensures
        match r {
            Ok(_) => bundle_version@ == own@ && source@ != target@,
            Err(message) => if bundle_version@ != own@ {
                message@ == "Downloaded version does not match its executable"@
            } else {
                source@ == target@ && message@
                    == "Installer must run from the downloaded archive, not the installed app"@
            },
        },
{
    if !text::same(bundle_version, own) {
        return Err("Downloaded version does not match its executable".to_owned());
    }
    if text::same(source, target) {
        return Err("Installer must run from the downloaded archive, not the installed app".to_owned());
    }
    Ok(())
}

/// What there is at a path, without following it.
#[derive(Clone, Copy, Debug, PartialEq, Eq, Structural)]
pub enum PathKind {
    Missing,
    Directory,
    Link,
    Other,
}

/// Whether the directory for applications has to be made, or why it may not be used.
pub fn use_applications(kind: PathKind, path: &str) -> (r: Result<bool, String>)
    ensures
        match r {
            Ok(made) => (kind == PathKind::Missing || kind == PathKind::Directory) && made == (kind == PathKind::Missing),
            Err(message) => (kind == PathKind::Link || kind == PathKind::Other) && message@
                == "Refusing a symlink or non-directory at "@ + path@,
        },
{
    match kind {
        PathKind::Missing => Ok(true),
        PathKind::Directory => Ok(false),
        _ => Err(text::concat("Refusing a symlink or non-directory at ", path)),
    }
}

/// Checks that a lock is not a link to something else.
pub fn check_lock(kind: PathKind, path: &str) -> (r: Result<(), String>)
    ensures
        match r {
            Ok(_) => kind != PathKind::Link,
            Err(message) => kind == PathKind::Link && message@ == "Refusing a symlink at "@ + path@,
        },
{
    if kind == PathKind::Link {
        return Err(text::concat("Refusing a symlink at ", path));
    }
    Ok(())
}

/// Checks that an installed application is not a link to something else.
pub fn check_target(kind: PathKind, path: &str) -> (r: Result<(), String>)
    ensures
        match r {
            Ok(_) => kind != PathKind::Link,
            Err(message) => kind == PathKind::Link && message@ == "Refusing to replace a symlink at "@ + path@,
        },
{
    if kind == PathKind::Link {
        return Err(text::concat("Refusing to replace a symlink at ", path));
    }
    Ok(())
}

// ---------------------------------------------------------------- running processes

/// The place of the first white space of a text.
pub open spec fn first_space(t: Seq<char>) -> Option<int>
    decreases t.len(),
{
    if t.len() == 0 {
        None
    } else if text::is_space(t[0]) {
        Some(0)
    } else {
        match first_space(t.drop_first()) {
            Some(i) => Some(i + 1),
            None => None,
        }
    }
}

/// The owner and the executable that a line of a list of processes names.
pub open spec fn process_of(line: Seq<char>) -> Option<(Seq<char>, Seq<char>)> {
    let t = text::trimmed(line);
    match first_space(t) {
        Some(i) => Some((t.take(i), text::trimmed(t.skip(i + 1)))),
        None => None,
    }
}

/// The owner and the executable that a line of a list of processes names.
fn read_process(line: &str) -> (r: Option<(String, String)>)
    ensures
        r.deep_view() == process_of(line@),
{
    let t = text::trim(line);
    let letters = text::chars(&t);
    let ghost v = letters@;
    let mut i: usize = 0;
    assert(v.skip(0) =~= v);
    while i < letters.len() && !text::is_whitespace(letters[i])
        invariant
            v == letters@,
            v == t@,
            i <= letters@.len(),
            first_space(v) == (match first_space(v.skip(i as int)) {
                Some(k) => Some(k + i),
                None => None,
            }),
        decreases letters.len() - i,
    {
        assert(v.skip(i as int)[0] == v[i as int]);
        assert(v.skip(i as int).drop_first() =~= v.skip(i + 1));
        i += 1;
    }
    if i >= letters.len() {
        assert(v.skip(i as int).len() == 0);
        return None;
    }
    assert(v.skip(i as int)[0] == v[i as int]);
    assert(first_space(v) == Some(i as int));
    let owner = text::slice(&letters, 0, i);
    let rest = text::slice(&letters, i + 1, letters.len());
    assert(owner@ =~= v.take(i as int));
    assert(rest@ =~= v.skip(i + 1));
    Some((owner, text::trim(&rest)))
}

/// Whether a process is the installed application of a user.
pub open spec fn is_application(line: Seq<char>, uid: Seq<char>, target: Seq<char>) -> bool {
    process_of(line) == Some((uid, config::path_below(target, "Contents/MacOS/gopher"@)))
}

/// Whether a process is the installed application of a user.
pub fn matching_process(line: &str, uid: &str, target: &str) -> (r: bool)
    ensures
        r == is_application(line@, uid@, target@),
{
    let executable = config::join_path(target, "Contents/MacOS/gopher");
    match read_process(line) {
        Some((owner, path)) => text::same(&owner, uid) && text::same(&path, &executable),
        None => false,
    }
}

/// Where the updater of an application is.
pub open spec fn updater_of(target: Seq<char>) -> Seq<char> {
    config::path_below(target, "Contents/Frameworks/Sparkle.framework/Versions/B/Autoupdate"@)
}

/// The parts of a path that count, out of those between separators: all but the empty ones, and
/// those that stand for the directory itself behind the first.
pub open spec fn named_parts(parts: Seq<Seq<char>>) -> Seq<Seq<char>>
    decreases parts.len(),
{
    if parts.len() == 0 {
        Seq::empty()
    } else if parts.last() == Seq::<char>::empty() || parts.len() > 1 && parts.last() == "."@ {
        named_parts(parts.drop_last())
    } else {
        named_parts(parts.drop_last()).push(parts.last())
    }
}

/// Whether two paths name the same place, however often a separator is repeated.
pub open spec fn same_place(a: Seq<char>, b: Seq<char>) -> bool {
    &&& "/"@.is_prefix_of(a) == "/"@.is_prefix_of(b)
    &&& named_parts(text::split_on(a, '/')) == named_parts(text::split_on(b, '/'))
}

/// Whether a line of a list of processes names the updater of a user's application.
pub open spec fn is_updater(line: Seq<char>, uid: Seq<char>, target: Seq<char>) -> bool {
    match process_of(line) {
        Some((owner, path)) => owner == uid && same_place(path, updater_of(target)),
        None => false,
    }
}

/// Whether one of some processes is the updater of a user's application.
pub open spec fn updater_runs(lines: Seq<Seq<char>>, uid: Seq<char>, target: Seq<char>) -> bool {
    exists|i: int| 0 <= i < lines.len() && is_updater(#[trigger] lines[i], uid, target)
}

/// The parts of a path that count.
fn path_parts(path: &str) -> (r: Vec<String>)
    ensures
        r.deep_view() == named_parts(text::split_on(path@, '/')),
{
    let parts = text::split(path, '/');
    let ghost v = parts.deep_view();
    let mut r: Vec<String> = Vec::new();
    let mut i: usize = 0;
    assert(v.take(0) =~= Seq::empty());
    assert(r.deep_view() =~= Seq::empty());
    while i < parts.len()
        invariant
            v == parts.deep_view(),
            i <= parts@.len(),
            r.deep_view() == named_parts(v.take(i as int)),
        decreases parts.len() - i,
    {
        assert(v.take(i + 1).drop_last() =~= v.take(i as int));
        assert(v.take(i + 1).last() == parts@[i as int]@);
        let part = &parts[i];
        assert(part@.len() == 0 <==> part@ == Seq::<char>::empty());
        if !part.as_str().is_empty() && !(i > 0 && text::same(part, ".")) {
            let ghost before = r.deep_view();
            r.push(part.clone());
            assert(r.deep_view() =~= before.push(v[i as int]));
        }
        i += 1;
    }
    assert(v.take(i as int) =~= v);
    r
}

/// Whether a list of processes has the updater of a user's application.
pub fn has_update_installer(processes: &str, uid: &str, target: &str) -> (r: bool)
    ensures
        r == updater_runs(text::lines_of(processes@), uid@, target@),
{
    let executable = config::join_path(target, "Contents/Frameworks/Sparkle.framework/Versions/B/Autoupdate");
    let rooted = text::starts_with(&executable, "/");
    let wanted = path_parts(&executable);
    let lines = text::lines(processes);
    let ghost v = lines.deep_view();
    let mut i: usize = 0;
    while i < lines.len()
        invariant
            v == lines.deep_view(),
            v == text::lines_of(processes@),
            executable@ == updater_of(target@),
            rooted == "/"@.is_prefix_of(executable@),
            wanted.deep_view() == named_parts(text::split_on(executable@, '/')),
            i <= lines@.len(),
            forall|k: int| 0 <= k < i ==> !is_updater(#[trigger] v[k], uid@, target@),
        decreases lines.len() - i,
    {
        assert(v[i as int] == lines@[i as int]@);
        let found = match read_process(&lines[i]) {
            Some((owner, path)) => text::same(&owner, uid) && text::starts_with(&path, "/") == rooted && text_map::same_list(
                &path_parts(&path),
                &wanted,
            ),
            None => false,
        };
        assert(found == is_updater(v[i as int], uid@, target@));
        if found {
            return true;
        }
        i += 1;
    }
    false
}

/// Checks that no updater is running.
pub fn ensure_no_update_installer(processes: &str, uid: &str, target: &str) -> (r: Result<(), String>)
    ensures
        match r {
            Ok(_) => !updater_runs(text::lines_of(processes@), uid@, target@),
            Err(message) => updater_runs(text::lines_of(processes@), uid@, target@) && message@
                == "Gopher's in-app updater is running. Let it finish, then rerun the installer"@,
        },
{
    if has_update_installer(processes, uid, target) {
        return Err("Gopher's in-app updater is running. Let it finish, then rerun the installer".to_owned());
    }
    Ok(())
}

/// The process that the record of a run names.
pub open spec fn recorded_pid(session: JsonView) -> Option<u32> {
    match session.at("pid"@).whole() {
        Some(pid) => if 1 < pid <= u32::MAX {
            Some(pid as u32)
        } else {
            None
        },
        None => None,
    }
}

/// The process that holds the lock of the application, by the record of its run.
pub fn running_pid(session: &Json) -> (r: Result<u32, String>)
    ensures
        match r {
            Ok(pid) => recorded_pid(session@) == Some(pid),
            Err(message) => recorded_pid(session@) is None && message@
                == "Cannot identify running Gopher; quit it and rerun the installer"@,
        },
{
    match session.at("pid").as_u64() {
        Some(pid) => if 1 < pid && pid <= u32::MAX as u64 {
            Ok(pid as u32)
        } else {
            Err("Cannot identify running Gopher; quit it and rerun the installer".to_owned())
        },
        None => Err("Cannot identify running Gopher; quit it and rerun the installer".to_owned()),
    }
}

/// Checks that a running application may be asked to quit: its run is open, the process is
/// the installed application, and it finishes what it has begun before it quits.
pub fn check_running(session: &Json, matching: bool, protocol: Option<&str>) -> (r: Result<(), String>)
    ensures
        ({
            let open = session@.at("ended_at"@) is Null && matching;
            let waits = crate::github::exchange::account_view(protocol) == Some("1"@);
            match r {
                Ok(_) => open && waits,
                Err(message) => if !open {
                    message@ == "Another Gopher instance is running; quit it and rerun the installer"@
                } else {
                    !waits && message@
                        == "This older Gopher cannot wait for active PR actions. Quit Gopher manually and rerun the installer"@
                },
            }
        }),
{
    if !session.at("ended_at").is_null() || !matching {
        return Err("Another Gopher instance is running; quit it and rerun the installer".to_owned());
    }
    let waits = match protocol {
        Some(protocol) => text::same(protocol, "1"),
        None => false,
    };
    if !waits {
        return Err(
            "This older Gopher cannot wait for active PR actions. Quit Gopher manually and rerun the installer".to_owned(),
        );
    }
    Ok(())
}

/// How a wait for an application to quit goes on.
#[derive(Clone, Copy, Debug, PartialEq, Eq, Structural)]
pub enum Wait {
    /// It has quit, and its lock is held.
    Done,
    Again,
    /// It took too long. Nothing was changed, and nothing was forced to quit.
    GiveUp,
}

/// How a wait goes on, given whether the lock could be had, whether the process is still
/// there, and how long the wait has taken.
pub fn wait_for_quit(locked: bool, running: bool, milliseconds: u64) -> (r: Wait)
    ensures
        r == if locked && !running {
            Wait::Done
        } else if milliseconds < QUIT_MILLISECONDS {
            Wait::Again
        } else {
            Wait::GiveUp
        },
{
    if locked && !running {
        Wait::Done
    } else if milliseconds < QUIT_MILLISECONDS {
        Wait::Again
    } else {
        Wait::GiveUp
    }
}

// ---------------------------------------------------------------- replacing

/// How far a replacement has come.
#[derive(Clone, Copy, Debug, PartialEq, Eq, Structural)]
pub enum Stage {
    /// The installed application is moved aside.
    Backup,
    /// The new one is moved to its place.
    Install,
    /// The old one is moved back.
    Rollback,
    Done,
    /// The old application, if there was one, is at its place.
    Failed,
    /// The old application is aside.
    Stranded,
}

/// The stage that follows, given whether what was tried succeeded.
pub open spec fn next_stage(stage: Stage, existed: bool, succeeded: bool) -> Stage {
    match stage {
        Stage::Backup => if succeeded {
            Stage::Install
        } else {
            Stage::Failed
        },
        Stage::Install => if succeeded {
            Stage::Done
        } else if existed {
            Stage::Rollback
        } else {
            Stage::Failed
        },
        Stage::Rollback => if succeeded {
            Stage::Failed
        } else {
            Stage::Stranded
        },
        _ => stage,
    }
}

/// The first stage of a replacement.
pub fn first_stage(existed: bool) -> (r: Stage)
    ensures
        r == if existed {
            Stage::Backup
        } else {
            Stage::Install
        },
{
    if existed {
        Stage::Backup
    } else {
        Stage::Install
    }
}

/// The stage that follows.
pub fn replace(stage: Stage, existed: bool, succeeded: bool) -> (r: Stage)
    ensures
        r == next_stage(stage, existed, succeeded),
{
    match stage {
        Stage::Backup => if succeeded {
            Stage::Install
        } else {
            Stage::Failed
        },
        Stage::Install => if succeeded {
            Stage::Done
        } else if existed {
            Stage::Rollback
        } else {
            Stage::Failed
        },
        Stage::Rollback => if succeeded {
            Stage::Failed
        } else {
            Stage::Stranded
        },
        _ => stage,
    }
}

/// Whether the application is launched after an installation: where it was running or is new,
/// unless the user does not want that.
pub fn launches(no_launch: bool, existed: bool, was_running: bool) -> (r: bool)
    ensures
        r == (!no_launch && (!existed || was_running)),
{
    !no_launch && (!existed || was_running)
}

/// Whether the old application is launched again after an installation that failed.
pub fn relaunches(no_launch: bool, was_running: bool, there: bool) -> (r: bool)
    ensures
        r == (was_running && !no_launch && there),
{
    was_running && !no_launch && there
}

// ---------------------------------------------------------------- laws

/// Where the installed application is, at each stage: at its place, aside, or both.
pub open spec fn old_is_safe(stage: Stage, existed: bool, at_place: bool, aside: bool) -> bool {
    match stage {
        Stage::Backup => existed && at_place,
        Stage::Install => existed ==> aside,
        Stage::Rollback => existed && aside,
        Stage::Done => existed ==> aside,
        Stage::Failed => existed ==> at_place,
        Stage::Stranded => existed && aside,
    }
}

/// The installed application is never lost: whatever fails, it is at its place or aside.
pub proof fn old_application_is_never_lost(stage: Stage, existed: bool, at_place: bool, aside: bool, succeeded: bool)
    requires
        old_is_safe(stage, existed, at_place, aside),
    ensures
        ({
            let next = next_stage(stage, existed, succeeded);
            let place = if stage == Stage::Backup && succeeded {
                false
            } else if stage == Stage::Rollback && succeeded {
                true
            } else {
                at_place
            };
            let beside = if stage == Stage::Backup && succeeded {
                true
            } else if stage == Stage::Rollback && succeeded {
                false
            } else {
                aside
            };
            old_is_safe(next, existed, place, beside)
        }),
{
}

/// Nothing is installed over the same version or a newer one.
pub proof fn versions_never_go_back(installed: Seq<char>, own: Seq<char>)
    requires
        planned(Some(installed), own) == Ok::<Plan, Seq<char>>(Plan::Install),
    ensures
        version_of(installed) is Ok,
        version_of(own) is Ok,
        is_older(version_of(installed)->Ok_0, version_of(own)->Ok_0),
{
}

/// The updater of another user, or of another application, does not count.
pub proof fn other_updaters_do_not_count(lines: Seq<Seq<char>>, uid: Seq<char>, target: Seq<char>)
    requires
        forall|i: int|
            0 <= i < lines.len() ==> match process_of(#[trigger] lines[i]) {
                Some((owner, path)) => owner != uid || !same_place(path, updater_of(target)),
                None => true,
            },
    ensures
        !updater_runs(lines, uid, target),
{
}

} // verus!
