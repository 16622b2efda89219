use crows_note_md::listing::{
    list_files, startup_action, DirectoryStatus, EntryKind, StartupAction, WalkStep,
};

fn entry(path: &str, kind: EntryKind) -> WalkStep {
    WalkStep::Entry { path: String::from(path), kind }
}

#[test]
fn every_regular_file_is_listed_once_in_walk_order() {
    let steps = vec![
        entry("src/notes", EntryKind::Directory),
        entry("src/notes/b.md", EntryKind::File),
        entry("src/notes/sub", EntryKind::Directory),
        entry("src/notes/sub/a.md", EntryKind::File),
        entry("src/notes/sub/c.txt", EntryKind::File),
    ];
    let files = list_files(&steps);
    assert_eq!(files, vec!["src/notes/b.md", "src/notes/sub/a.md", "src/notes/sub/c.txt"]);
}

#[test]
fn as_many_paths_as_regular_files() {
    let mut steps = vec![entry("src/notes", EntryKind::Directory)];
    for i in 0..25 {
        steps.push(entry(&format!("src/notes/dir{}", i), EntryKind::Directory));
        steps.push(entry(&format!("src/notes/dir{}/note.md", i), EntryKind::File));
        steps.push(WalkStep::Failed);
    }
    let files = list_files(&steps);
    assert_eq!(files.len(), 25);
    for i in 0..25 {
        assert_eq!(files[i], format!("src/notes/dir{}/note.md", i));
    }
    for i in 0..files.len() {
        for j in 0..files.len() {
            assert!(i == j || files[i] != files[j]);
        }
    }
}

#[test]
fn a_directory_that_was_just_created_lists_nothing() {
    let steps = vec![entry("src/notes", EntryKind::Directory)];
    assert_eq!(list_files(&steps), Vec::<String>::new());
}

#[test]
fn an_empty_walk_lists_nothing() {
    assert_eq!(list_files(&Vec::new()), Vec::<String>::new());
}

#[test]
fn links_and_other_entries_are_passed_over() {
    let steps = vec![
        entry("src/notes", EntryKind::Directory),
        entry("src/notes/link.md", EntryKind::Symlink),
        entry("src/notes/pipe", EntryKind::Other),
        entry("src/notes/real.md", EntryKind::File),
    ];
    assert_eq!(list_files(&steps), vec!["src/notes/real.md"]);
}

#[test]
fn failed_steps_are_passed_over() {
    let steps = vec![
        WalkStep::Failed,
        entry("src/notes/a.md", EntryKind::File),
        WalkStep::Failed,
        WalkStep::Failed,
        entry("src/notes/b.md", EntryKind::File),
        WalkStep::Failed,
    ];
    assert_eq!(list_files(&steps), vec!["src/notes/a.md", "src/notes/b.md"]);
}

#[test]
fn files_of_any_extension_are_listed() {
    let steps = vec![
        entry("src/notes/picture.png", EntryKind::File),
        entry("src/notes/no_extension", EntryKind::File),
        entry("src/notes/.hidden", EntryKind::File),
    ];
    assert_eq!(
        list_files(&steps),
        vec!["src/notes/picture.png", "src/notes/no_extension", "src/notes/.hidden"]
    );
}

#[test]
fn the_walk_is_left_as_it_was() {
    let steps = vec![entry("src/notes/a.md", EntryKind::File), WalkStep::Failed];
    let before = vec![entry("src/notes/a.md", EntryKind::File), WalkStep::Failed];
    let _ = list_files(&steps);
    assert_eq!(steps, before);
}

#[test]
fn a_directory_that_is_there_is_walked() {
    assert_eq!(startup_action(DirectoryStatus::Present), StartupAction::WalkDirectory);
}

#[test]
fn a_missing_directory_is_created_and_then_walked() {
    assert_eq!(startup_action(DirectoryStatus::Missing), StartupAction::CreateDirectory);
    assert_eq!(startup_action(DirectoryStatus::Created), StartupAction::WalkDirectory);
    let fresh = vec![entry("src/notes", EntryKind::Directory)];
    assert!(list_files(&fresh).is_empty());
}

#[test]
fn a_directory_that_cannot_be_created_ends_the_start() {
    assert_eq!(startup_action(DirectoryStatus::CreationFailed), StartupAction::Abort);
}
