use crows_note_md::editor::{Event, MarkdownEditorApp};
use crows_note_md::listing::{EntryKind, WalkStep};

fn two_files() -> MarkdownEditorApp {
    MarkdownEditorApp::new(vec![String::from("src/notes\\a.md"), String::from("src/notes\\b.md")])
}

fn click(index: usize, read: Option<&str>) -> Event {
    Event::FileClicked { index, read: read.map(String::from) }
}

fn edit(text: &str) -> Event {
    Event::TextEdited { text: String::from(text) }
}

#[test]
fn the_editor_starts_with_nothing_selected_in_raw_mode() {
    let app = two_files();
    assert_eq!(app.files(), &vec![String::from("src/notes\\a.md"), String::from("src/notes\\b.md")]);
    assert_eq!(app.selected_file(), &None);
    assert_eq!(app.file_content(), "");
    assert!(!app.is_markdown_mode());
}

#[test]
fn the_editor_lists_the_files_of_a_walk() {
    let steps = vec![
        WalkStep::Entry { path: String::from("src/notes"), kind: EntryKind::Directory },
        WalkStep::Entry { path: String::from("src/notes/a.md"), kind: EntryKind::File },
        WalkStep::Failed,
        WalkStep::Entry { path: String::from("src/notes/l.md"), kind: EntryKind::Symlink },
        WalkStep::Entry { path: String::from("src/notes/b.md"), kind: EntryKind::File },
    ];
    let app = MarkdownEditorApp::from_walk(&steps);
    assert_eq!(app.files(), &vec![String::from("src/notes/a.md"), String::from("src/notes/b.md")]);
    assert_eq!(app.selected_file(), &None);
    assert_eq!(app.file_content(), "");
    assert!(!app.is_markdown_mode());
}

#[test]
fn selecting_a_file_loads_what_was_read() {
    let mut app = two_files();
    app.update(click(1, Some("# B\n")));
    assert_eq!(app.selected_file(), &Some(String::from("src/notes\\b.md")));
    assert_eq!(app.file_content(), "# B\n");
    assert!(!app.is_markdown_mode());
    assert_eq!(app.files().len(), 2);
}

#[test]
fn selecting_a_file_that_cannot_be_read_gives_an_empty_buffer() {
    let mut app = two_files();
    app.update(click(0, Some("text of a")));
    app.update(click(1, None));
    assert_eq!(app.selected_file(), &Some(String::from("src/notes\\b.md")));
    assert_eq!(app.file_content(), "");
}

#[test]
fn selecting_another_file_discards_unsaved_edits() {
    let mut app = two_files();
    app.update(click(0, Some("text of a")));
    app.update(edit("text of a, changed and never saved"));
    assert_eq!(app.file_content(), "text of a, changed and never saved");
    app.update(click(1, Some("text of b")));
    assert_eq!(app.selected_file(), &Some(String::from("src/notes\\b.md")));
    assert_eq!(app.file_content(), "text of b");
    app.update(click(0, Some("text of a")));
    assert_eq!(app.file_content(), "text of a");
}

#[test]
fn selecting_leaves_the_mode_as_it_is() {
    let mut app = two_files();
    app.update(click(0, Some("a")));
    app.update(Event::ToggleClicked);
    app.update(click(1, Some("b")));
    assert!(app.is_markdown_mode());
    assert_eq!(app.file_content(), "b");
}

#[test]
fn a_click_beyond_the_list_does_nothing() {
    let mut app = two_files();
    app.update(click(2, Some("stray")));
    assert_eq!(app.selected_file(), &None);
    assert_eq!(app.file_content(), "");
    app.update(click(0, Some("a")));
    app.update(click(usize::MAX, Some("stray")));
    assert_eq!(app.selected_file(), &Some(String::from("src/notes\\a.md")));
    assert_eq!(app.file_content(), "a");
}

#[test]
fn toggling_flips_the_mode_and_keeps_the_content() {
    let mut app = two_files();
    app.update(click(0, Some("# A")));
    app.update(edit("# A, edited"));
    app.update(Event::ToggleClicked);
    assert!(app.is_markdown_mode());
    assert_eq!(app.file_content(), "# A, edited");
    assert_eq!(app.selected_file(), &Some(String::from("src/notes\\a.md")));
}

#[test]
fn toggling_twice_returns_to_where_it_was() {
    let mut app = two_files();
    app.update(click(0, Some("# A")));
    app.update(edit("# A, edited"));
    let panel = app.main_panel();
    app.update(Event::ToggleClicked);
    app.update(Event::ToggleClicked);
    assert!(!app.is_markdown_mode());
    assert_eq!(app.file_content(), "# A, edited");
    assert_eq!(app.selected_file(), &Some(String::from("src/notes\\a.md")));
    assert_eq!(app.main_panel(), panel);
}

#[test]
fn toggling_with_nothing_selected_does_nothing() {
    let mut app = two_files();
    app.update(Event::ToggleClicked);
    assert!(!app.is_markdown_mode());
    assert_eq!(app.selected_file(), &None);
    assert_eq!(app.file_content(), "");
}

#[test]
fn edits_replace_the_buffer_in_raw_mode() {
    let mut app = two_files();
    app.update(click(0, Some("one")));
    app.update(edit("one two"));
    assert_eq!(app.file_content(), "one two");
    app.update(edit(""));
    assert_eq!(app.file_content(), "");
}

#[test]
fn edits_are_ignored_while_the_preview_is_shown() {
    let mut app = two_files();
    app.update(click(0, Some("one")));
    app.update(Event::ToggleClicked);
    app.update(edit("typed into nothing"));
    assert_eq!(app.file_content(), "one");
    app.update(Event::ToggleClicked);
    app.update(edit("typed"));
    assert_eq!(app.file_content(), "typed");
}

#[test]
fn edits_are_ignored_while_nothing_is_selected() {
    let mut app = two_files();
    app.update(edit("typed into nothing"));
    assert_eq!(app.file_content(), "");
    assert_eq!(app.selected_file(), &None);
}

#[test]
fn an_editor_without_files_stays_empty() {
    let mut app = MarkdownEditorApp::new(Vec::new());
    app.update(click(0, Some("stray")));
    app.update(Event::ToggleClicked);
    app.update(edit("stray"));
    assert!(app.files().is_empty());
    assert_eq!(app.selected_file(), &None);
    assert_eq!(app.file_content(), "");
    assert!(!app.is_markdown_mode());
}

#[test]
fn the_walk_of_a_fresh_directory_gives_an_editor_without_files() {
    let steps = vec![WalkStep::Entry { path: String::from("src/notes"), kind: EntryKind::Directory }];
    let app = MarkdownEditorApp::from_walk(&steps);
    assert!(app.files().is_empty());
    assert!(app.file_buttons().is_empty());
}
