use tenzin::config::StudentConfig;
use tenzin::error::Failure;
use tenzin::student::{
    check_student_email, judge_address, marker_file_name, read_marker, registered_address, shutdown_student_worker,
    spin_up_student_worker, walk_student_dir, HomeEntry, MarkerFile, Registry, WalkDefect,
    WalkerAction, WalkerEvent, WalkerPhase,
};

fn home(name: &str, marker: MarkerFile) -> HomeEntry {
    HomeEntry { name: name.to_string(), marker }
}

fn content(text: &str) -> MarkerFile {
    MarkerFile::Content(text.to_string())
}

#[test]
fn walk_keeps_only_the_registered() {
    let entries = vec![
        home("2021000001", content("student@bupt.edu.cn\n")),
        home("2021000002", MarkerFile::Missing),
        home("2021000003", content("not an address")),
    ];
    let report = walk_student_dir(&entries);
    assert_eq!(report.registry.len(), 1);
    assert_eq!(report.registry.lookup("2021000001").as_deref(), Some("student@bupt.edu.cn"));
    assert_eq!(report.registry.lookup("2021000002"), None);
    assert_eq!(report.registry.lookup("2021000003"), None);
    assert_eq!(report.skipped.len(), 2);
    assert_eq!(report.skipped[0].name, "2021000002");
    assert_eq!(report.skipped[0].defect, WalkDefect::MissingMarker);
    assert_eq!(report.skipped[1].name, "2021000003");
    assert_eq!(report.skipped[1].defect, WalkDefect::InvalidEmail);
}

#[test]
fn unreadable_marker_does_not_end_the_walk() {
    let entries = vec![
        home("a", MarkerFile::Unreadable),
        home("b", content("b@bupt.edu.cn")),
        home("c", MarkerFile::Unreadable),
        home("d", content("  d@bupt.edu.cn  ")),
    ];
    let report = walk_student_dir(&entries);
    assert_eq!(report.registry.len(), 2);
    assert_eq!(report.registry.lookup("b").as_deref(), Some("b@bupt.edu.cn"));
    assert_eq!(report.registry.lookup("d").as_deref(), Some("d@bupt.edu.cn"));
    assert_eq!(report.skipped.len(), 2);
    assert_eq!(report.skipped[0].name, "a");
    assert_eq!(report.skipped[0].defect, WalkDefect::UnreadableMarker);
    assert_eq!(report.skipped[1].name, "c");
}

#[test]
fn walk_over_nothing_gives_an_empty_registry() {
    let report = walk_student_dir(&vec![]);
    assert_eq!(report.registry.len(), 0);
    assert!(report.skipped.is_empty());
    assert_eq!(report.registry.lookup(""), None);
}

#[test]
fn each_walk_starts_afresh() {
    let first = walk_student_dir(&vec![
        home("a", content("a@bupt.edu.cn")),
        home("b", content("b@bupt.edu.cn")),
    ]);
    assert_eq!(first.registry.len(), 2);
    let second = walk_student_dir(&vec![
        home("a", content("broken")),
        home("c", content("c@bupt.edu.cn")),
    ]);
    assert_eq!(second.registry.len(), 1);
    assert_eq!(second.registry.lookup("a"), None);
    assert_eq!(second.registry.lookup("b"), None);
    assert_eq!(second.registry.lookup("c").as_deref(), Some("c@bupt.edu.cn"));
}

#[test]
fn of_two_directories_with_one_name_the_later_counts() {
    let report = walk_student_dir(&vec![
        home("a", content("first@bupt.edu.cn")),
        home("b", content("b@bupt.edu.cn")),
        home("a", content("second@bupt.edu.cn")),
        home("b", MarkerFile::Missing),
    ]);
    assert_eq!(report.registry.len(), 2);
    assert_eq!(report.registry.lookup("a").as_deref(), Some("second@bupt.edu.cn"));
    assert_eq!(report.registry.lookup("b").as_deref(), Some("b@bupt.edu.cn"));
    assert_eq!(report.skipped.len(), 1);
    assert_eq!(report.skipped[0].name, "b");
}

#[test]
fn marker_is_trimmed_and_validated() {
    assert_eq!(registered_address(" a@b.cn \r\n").ok().as_deref(), Some("a@b.cn"));
    assert_eq!(registered_address("abc@bar").ok().as_deref(), Some("abc@bar"));
    assert_eq!(registered_address("email@[127.0.0.1]").ok().as_deref(), Some("email@[127.0.0.1]"));
    for bad in ["", " ", "abc", "abc@", "@bar", "a b@c.d", "a@b.c\nd@e.f", "\"test@test\"@example.com"] {
        assert_eq!(registered_address(bad), Err(WalkDefect::InvalidEmail), "{:?}", bad);
    }
    assert_eq!(read_marker(&MarkerFile::Missing), Err(WalkDefect::MissingMarker));
    assert_eq!(read_marker(&MarkerFile::Unreadable), Err(WalkDefect::UnreadableMarker));
    assert_eq!(read_marker(&content("x")), Err(WalkDefect::InvalidEmail));
    assert_eq!(read_marker(&content("\tx@y.z\n")).ok().as_deref(), Some("x@y.z"));
}

#[test]
fn address_is_judged_by_its_validation() {
    assert_eq!(judge_address("anything".to_string(), true).ok().as_deref(), Some("anything"));
    assert_eq!(judge_address("a@b.c".to_string(), false), Err(WalkDefect::InvalidEmail));
}

#[test]
fn registry_maps_identifiers_to_addresses() {
    let registry = Registry::new();
    assert_eq!(registry.len(), 0);
    let registry = registry.insert("a".to_string(), "a@x".to_string());
    let registry = registry.insert("b".to_string(), "b@x".to_string());
    assert_eq!(registry.len(), 2);
    let registry = registry.insert("a".to_string(), "a@y".to_string());
    assert_eq!(registry.len(), 2);
    assert_eq!(registry.lookup("a").as_deref(), Some("a@y"));
    assert_eq!(registry.lookup("b").as_deref(), Some("b@x"));
    assert_eq!(registry.lookup("c"), None);
    assert_eq!(registry.lookup("A"), None);
}

#[test]
fn sender_must_be_the_registered_address_exactly() {
    let registry = Registry::new()
        .insert("2021000001".to_string(), "student@bupt.edu.cn".to_string());
    assert!(check_student_email(&registry, "2021000001", "student@bupt.edu.cn"));
    assert!(!check_student_email(&registry, "2021000001", "other@bupt.edu.cn"));
    assert!(!check_student_email(&registry, "2021000001", "Student@bupt.edu.cn"));
    assert!(!check_student_email(&registry, "2021000001", "student@bupt.edu.cn "));
    assert!(!check_student_email(&registry, "2021000001", ""));
    assert!(!check_student_email(&registry, "2021000002", "student@bupt.edu.cn"));
    assert!(!check_student_email(&registry, "", "student@bupt.edu.cn"));
    assert!(!check_student_email(&Registry::new(), "2021000001", "student@bupt.edu.cn"));
}

fn config(seconds: u64) -> StudentConfig {
    StudentConfig { home_prefix: "/home".to_string(), walk_duration: seconds }
}

#[test]
fn worker_walks_first_and_then_sleeps_and_walks() {
    let (worker, action) = spin_up_student_worker(&config(30));
    assert_eq!(worker.phase, WalkerPhase::Starting);
    assert!(!worker.stop_requested);
    assert_eq!(action, WalkerAction::Walk);
    let (worker, action) = worker.advance(WalkerEvent::Walked(true));
    assert_eq!(action, WalkerAction::Wait(30));
    let (worker, action) = worker.advance(WalkerEvent::Waited);
    assert_eq!(action, WalkerAction::Walk);
    let (worker, action) = worker.advance(WalkerEvent::Walked(true));
    assert_eq!(action, WalkerAction::Wait(30));
    let (worker, action) = worker.advance(WalkerEvent::Waited);
    assert_eq!(action, WalkerAction::Walk);
    let (worker, action) = worker.advance(WalkerEvent::Walked(false));
    assert_eq!(action, WalkerAction::Wait(30));
    assert_eq!(worker.phase, WalkerPhase::Resting);
}

#[test]
fn worker_that_cannot_walk_at_first_fails() {
    let (worker, _) = spin_up_student_worker(&config(30));
    let (worker, action) = worker.advance(WalkerEvent::Walked(false));
    assert_eq!(action, WalkerAction::Fail(Failure::FilesystemWalkError));
    assert_eq!(worker.phase, WalkerPhase::Failed);
    let (worker, action) = worker.advance(WalkerEvent::Waited);
    assert_eq!(action, WalkerAction::Fail(Failure::FilesystemWalkError));
    assert_eq!(worker.phase, WalkerPhase::Failed);
}

#[test]
fn worker_stops_only_when_a_walk_has_ended() {
    let (worker, _) = spin_up_student_worker(&config(5));
    let (mut worker, _) = worker.advance(WalkerEvent::Walked(true));
    shutdown_student_worker(&mut worker);
    assert!(worker.stop_requested);
    assert_eq!(worker.phase, WalkerPhase::Resting);
    let (worker, action) = worker.advance(WalkerEvent::Waited);
    assert_eq!(action, WalkerAction::Walk);
    let (worker, action) = worker.advance(WalkerEvent::Walked(true));
    assert_eq!(action, WalkerAction::Stop);
    assert_eq!(worker.phase, WalkerPhase::Stopped);
    let (worker, action) = worker.advance(WalkerEvent::Waited);
    assert_eq!(action, WalkerAction::Stop);
    assert_eq!(worker.phase, WalkerPhase::Stopped);
}

#[test]
fn stop_asked_during_the_first_walk_waits_for_the_next() {
    let (mut worker, _) = spin_up_student_worker(&config(5));
    shutdown_student_worker(&mut worker);
    shutdown_student_worker(&mut worker);
    let (worker, action) = worker.advance(WalkerEvent::Walked(true));
    assert_eq!(action, WalkerAction::Wait(5));
    let (worker, action) = worker.advance(WalkerEvent::Waited);
    assert_eq!(action, WalkerAction::Walk);
    let (_, action) = worker.advance(WalkerEvent::Walked(false));
    assert_eq!(action, WalkerAction::Stop);
}

#[test]
fn worker_passes_over_what_it_did_not_wait_for() {
    let (worker, _) = spin_up_student_worker(&config(5));
    let (worker, action) = worker.advance(WalkerEvent::Waited);
    assert_eq!(worker.phase, WalkerPhase::Starting);
    assert_eq!(action, WalkerAction::Walk);
    let (worker, _) = worker.advance(WalkerEvent::Walked(true));
    let (worker, action) = worker.advance(WalkerEvent::Walked(true));
    assert_eq!(worker.phase, WalkerPhase::Resting);
    assert_eq!(action, WalkerAction::Wait(5));
}

#[test]
fn marker_file_has_a_fixed_name() {
    assert_eq!(marker_file_name(), ".tenzin");
}
