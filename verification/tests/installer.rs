use gopher::installer::{
    check_identity, check_target, check_user, first_stage, has_update_installer, launches, plan, relaunches, replace,
    use_applications, version, wait_for_quit, PathKind, Plan, Stage, Wait, BUNDLE,
};

#[test]
fn update_installer_detection_matches_owner_and_exact_bundle_path() {
    let target = "/Users/test/Applications/Gopher.app";
    let helper =
        "/Users/test/Applications/Gopher.app/Contents/Frameworks/Sparkle.framework/Versions/B/Autoupdate";
    assert!(has_update_installer(&format!(" 501 {helper}\n"), "501", target));
    assert!(!has_update_installer(&format!(" 502 {helper}\n"), "501", target));
    assert!(!has_update_installer(&format!(" 501 {helper}-other\n"), "501", target));
    assert!(!has_update_installer("501 /other/Gopher.app/Autoupdate", "501", target));
}

#[test]
fn update_installer_paths_are_compared_part_by_part() {
    let rest = "Contents/Frameworks/Sparkle.framework/Versions/B/Autoupdate";
    let runs = |path: String, target: &str| has_update_installer(&format!("501 {path}"), "501", target);
    assert!(runs(format!("/a//b/./{rest}"), "/a/b"));
    assert!(runs(format!("/./a/b/{rest}/."), "/a/b"));
    assert!(runs(format!("a/{rest}"), "a/."));
    assert!(!runs(format!("./a/{rest}"), "a"));
    assert!(!runs(format!("a/{rest}"), "./a"));
    assert!(runs(format!("././a/{rest}"), "./a"));
    assert!(!runs(format!("/a/{rest}"), "a"));
    assert!(!runs(format!("/a/b/../{rest}"), "/a"));
}

#[test]
fn versions_are_numeric_and_reject_ambiguous_inputs() {
    assert!(version("0.10.0").unwrap() > version("0.9.9").unwrap());
    for value in ["1", "1.2", "01.2.3", "1.2.3-beta", "1.2.-3", "1.2.3.4"] {
        assert!(version(value).is_err(), "{value}");
    }
}

#[test]
fn applications_directory_rejects_symlinks_without_touching_the_target() {
    assert!(use_applications(PathKind::Link, "/home/Applications").is_err());
    assert!(use_applications(PathKind::Missing, "/home/Applications").unwrap());
    assert!(!use_applications(PathKind::Directory, "/home/Applications").unwrap());
    assert!(check_target(PathKind::Link, "/home/Applications/Gopher.app").is_err());
}

/// Performs a replacement of which one step fails, and says whether the old installation,
/// the backup and the new one are in place at the end.
fn replacement(existed: bool, failing: usize) -> (bool, bool, bool) {
    let mut target = if existed { Some("old") } else { None };
    let mut backup: Option<&str> = None;
    let mut stage = first_stage(existed);
    let mut step = 0;
    loop {
        let succeeded = step != failing;
        match stage {
            Stage::Backup => {
                if succeeded {
                    backup = target.take();
                }
            }
            Stage::Install => {
                if succeeded {
                    target = Some("new");
                }
            }
            Stage::Rollback => {
                if succeeded {
                    target = backup.take();
                }
            }
            _ => break,
        }
        stage = replace(stage, existed, succeeded);
        step += 1;
        assert!(step < 10);
    }
    (target == Some("old"), backup == Some("old"), target == Some("new"))
}

#[test]
fn replacement_failure_restores_old_installation() {
    assert_eq!(replacement(true, 1), (true, false, false));
    assert_eq!(replacement(true, 0), (true, false, false));
    assert_eq!(replacement(false, 0), (false, false, false));
}

#[test]
fn replacement_keeps_backup_and_does_not_merge_old_resources() {
    assert_eq!(replacement(true, 99), (false, true, true));
    assert_eq!(replacement(false, 99), (false, false, true));
}

#[test]
fn versions_never_go_back() {
    assert!(plan(Some("9.0.0"), "1.0.0").is_err());
    assert!(matches!(plan(None, "1.0.0"), Ok(Plan::Install)));
    assert!(plan(Some("1.0.0"), "1.0.1").is_ok());
}

#[test]
fn only_the_right_user_and_bundle_are_served() {
    assert!(check_user("0").is_err());
    assert!(check_user("501").is_ok());
    assert!(check_identity(BUNDLE).is_ok());
    assert!(check_identity("other.bundle").is_err());
}

#[test]
fn waiting_for_the_application_to_quit_is_bounded() {
    assert_eq!(wait_for_quit(true, false, 0), Wait::Done);
    assert_eq!(wait_for_quit(false, true, 0), Wait::Again);
    assert_eq!(wait_for_quit(false, true, 200_000), Wait::GiveUp);
    assert!(launches(false, false, false));
    assert!(!launches(true, true, true));
    assert!(!relaunches(true, true, true));
}
