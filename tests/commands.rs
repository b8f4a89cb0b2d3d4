use pi_installer_backend::copier::finish_copy;
use pi_installer_backend::copier::plan_copy;
use pi_installer_backend::copier::CopyPlan;
use pi_installer_backend::paths::join_segment;
use pi_installer_backend::paths::screenshots_dir;
use pi_installer_backend::resolver::finish_screenshots_dir;
use pi_installer_backend::resolver::plan_screenshots_dir;

fn s(t: &str) -> String {
    t.to_string()
}

#[test]
fn join_adds_one_separator() {
    assert_eq!(join_segment("/home/pi", "docs"), "/home/pi/docs");
    assert_eq!(join_segment("/home/pi/", "docs"), "/home/pi/docs");
    assert_eq!(join_segment("", "docs"), "docs");
    assert_eq!(join_segment("/", "docs"), "/docs");
}

#[test]
fn screenshots_dir_has_fixed_layout() {
    assert_eq!(
        screenshots_dir("/home/pi/Documents"),
        "/home/pi/Documents/PI-Installer/docs/screenshots"
    );
    assert_eq!(
        screenshots_dir("/home/pi/Documents/"),
        "/home/pi/Documents/PI-Installer/docs/screenshots"
    );
    assert_eq!(screenshots_dir(""), "PI-Installer/docs/screenshots");
}

#[test]
fn resolution_plans_the_screenshot_dir() {
    assert_eq!(
        plan_screenshots_dir(Ok(s("/home/pi/Documents"))),
        Ok(s("/home/pi/Documents/PI-Installer/docs/screenshots"))
    );
}

#[test]
fn resolution_without_document_dir_fails_with_its_message() {
    assert_eq!(
        plan_screenshots_dir(Err(s("unknown path"))),
        Err(s("unknown path"))
    );
}

#[test]
fn resolution_reports_creation_failure() {
    assert_eq!(
        finish_screenshots_dir(s("/root/x"), Err(s("Permission denied (os error 13)"))),
        Err(s("Permission denied (os error 13)"))
    );
}

#[test]
fn resolution_twice_gives_the_same_dir() {
    let first = plan_screenshots_dir(Ok(s("/home/pi/Documents"))).unwrap();
    let second = plan_screenshots_dir(Ok(s("/home/pi/Documents"))).unwrap();
    assert_eq!(first, second);
    let r1 = finish_screenshots_dir(first.clone(), Ok(()));
    let r2 = finish_screenshots_dir(second, Ok(()));
    assert_eq!(r1, r2);
    assert_eq!(r1, Ok(first));
}

#[test]
fn missing_source_is_rejected_naming_it() {
    match plan_copy(s("/tmp/missing.png"), s("/tmp/out/b.png"), false) {
        CopyPlan::Reject(m) => {
            assert_eq!(m, "Quelldatei nicht gefunden: /tmp/missing.png");
            assert!(m.contains("/tmp/missing.png"));
        }
        other => panic!("expected a rejection, got {:?}", other),
    }
}

#[test]
fn existing_source_copies_after_making_parent() {
    assert_eq!(
        plan_copy(s("/tmp/a.png"), s("/tmp/out/b.png"), true),
        CopyPlan::Copy {
            make_dir: Some(s("/tmp/out")),
            source: s("/tmp/a.png"),
            target: s("/tmp/out/b.png"),
        }
    );
}

#[test]
fn bare_file_name_has_empty_parent() {
    assert_eq!(
        plan_copy(s("a.png"), s("b.png"), true),
        CopyPlan::Copy {
            make_dir: Some(s("")),
            source: s("a.png"),
            target: s("b.png"),
        }
    );
}

#[test]
fn root_and_empty_targets_have_no_parent() {
    for t in ["/", ""] {
        assert_eq!(
            plan_copy(s("/tmp/a.png"), s(t), true),
            CopyPlan::Copy {
                make_dir: None,
                source: s("/tmp/a.png"),
                target: s(t),
            }
        );
    }
}

#[test]
fn successful_copy_returns_target_unchanged() {
    assert_eq!(
        finish_copy(s("/tmp/out/../out/b.png"), Ok(())),
        Ok(s("/tmp/out/../out/b.png"))
    );
}

#[test]
fn failed_copy_wraps_the_message() {
    assert_eq!(
        finish_copy(s("/tmp/out/b.png"), Err(s("No such file or directory (os error 2)"))),
        Err(s("Kopieren fehlgeschlagen: No such file or directory (os error 2)"))
    );
}

#[test]
fn copy_into_missing_directory_scenario() {
    let plan = plan_copy(s("/tmp/a.png"), s("/tmp/out/b.png"), true);
    let (make_dir, target) = match plan {
        CopyPlan::Copy { make_dir, target, .. } => (make_dir, target),
        other => panic!("expected a copy, got {:?}", other),
    };
    assert_eq!(make_dir, Some(s("/tmp/out")));
    assert_eq!(finish_copy(target, Ok(())), Ok(s("/tmp/out/b.png")));
}
