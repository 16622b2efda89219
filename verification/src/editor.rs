//! The editor's state and its transitions.

use vstd::prelude::*;
use crate::listing::{list_files, listed_paths, WalkStep};
use crate::store::{loaded_content, loaded_text};

verus! {

/// The editor's state as a mathematical value.
pub struct EditorModel {
    /// The listed files, by path, in listing order.
    pub files: Seq<Seq<char>>,
    /// The path of the selected file, if one is selected.
    pub selected: Option<Seq<char>>,
    /// The text in the editing buffer.
    pub content: Seq<char>,
    /// Whether the rendered preview is shown in place of the raw text.
    pub rendered: bool,
}

impl EditorModel {
    /// The state right after the files were listed: nothing selected, an
    /// empty buffer, raw mode.
    pub open spec fn initial(files: Seq<Seq<char>>) -> EditorModel {
        EditorModel { files, selected: None, content: Seq::empty(), rendered: false }
    }

    /// What holds of every state that the editor can reach: a selected file
    /// is one of the listed files, and while nothing is selected the buffer
    /// is empty and the mode is raw.
    pub open spec fn well_formed(self) -> bool {
        match self.selected {
            Some(path) => self.files.contains(path),
            None => self.content =~= Seq::empty() && !self.rendered,
        }
    }

    /// Whether the window shows the button for the file at `index`.
    pub open spec fn shows_file_button(self, index: int) -> bool {
        0 <= index < self.files.len()
    }

    /// Whether the window shows the button that switches the mode.
    pub open spec fn shows_toggle(self) -> bool {
        self.selected is Some
    }

    /// Whether the window shows the editable text area.
    pub open spec fn shows_text_area(self) -> bool {
        self.selected is Some && !self.rendered
    }

    /// The state after `event`. An event of a widget that the window does not
    /// show in this state leaves the state as it is.
    pub open spec fn step(self, event: EventModel) -> EditorModel {
        match event {
            EventModel::FileClicked { index, read } => {
                if self.shows_file_button(index) {
                    EditorModel {
                        selected: Some(self.files[index]),
                        content: loaded_text(read),
                        ..self
                    }
                } else {
                    self
                }
            },
            EventModel::ToggleClicked => {
                if self.shows_toggle() {
                    EditorModel { rendered: !self.rendered, ..self }
                } else {
                    self
                }
            },
            EventModel::TextEdited { text } => {
                if self.shows_text_area() {
                    EditorModel { content: text, ..self }
                } else {
                    self
                }
            },
        }
    }

    /// The state after a run of events, applied in order.
    pub open spec fn after(self, events: Seq<EventModel>) -> EditorModel
        decreases events.len(),
    {
        if events.len() == 0 {
            self
        } else {
            self.after(events.drop_last()).step(events.last())
        }
    }
}

/// Something the user did, together with what the program around the library
/// found out for it.
#[derive(Debug)]
pub enum Event {
    /// The button of the file at `index` in the list was clicked; `read` is
    /// the outcome of reading that file as text, `None` for a failed read.
    FileClicked { index: usize, read: Option<String> },
    /// The button that switches between raw text and preview was clicked.
    ToggleClicked,
    /// The text area now holds `text`.
    TextEdited { text: String },
}

/// An event as a mathematical value.
pub enum EventModel {
    FileClicked { index: int, read: Option<Seq<char>> },
    ToggleClicked,
    TextEdited { text: Seq<char> },
}

impl View for Event {
    type V = EventModel;

    open spec fn view(&self) -> EventModel {
        match *self {
            Event::FileClicked { index, read } => EventModel::FileClicked {
                index: index as int,
                read: read.deep_view(),
            },
            Event::ToggleClicked => EventModel::ToggleClicked,
            Event::TextEdited { text } => EventModel::TextEdited { text: text@ },
        }
    }
}

/// The editor: the listed files, the selection, the editing buffer and the
/// view mode.
#[derive(Debug)]
pub struct MarkdownEditorApp {
    files: Vec<String>,
    selected_file: Option<String>,
    file_content: String,
    is_markdown_mode: bool,
}

impl View for MarkdownEditorApp {
    type V = EditorModel;

    closed spec fn view(&self) -> EditorModel {
        EditorModel {
            files: self.files.deep_view(),
            selected: self.selected_file.deep_view(),
            content: self.file_content@,
            rendered: self.is_markdown_mode,
        }
    }
}

impl MarkdownEditorApp {
    /// Every editor that exists is in a well-formed state.
    #[verifier::type_invariant]
    spec fn always_well_formed(self) -> bool {
        self@.well_formed()
    }

    /// The editor as it starts, over the files that were listed.
    pub fn new(files: Vec<String>) -> (app: MarkdownEditorApp)
        ensures
            app@ == EditorModel::initial(files.deep_view()),
            app@.well_formed(),
    {
        MarkdownEditorApp {
            files,
            selected_file: None,
            file_content: String::new(),
            is_markdown_mode: false,
        }
    }

    /// The editor as it starts after a walk through the notes directory: it
    /// lists the regular files that the walk met.
    pub fn from_walk(steps: &Vec<WalkStep>) -> (app: MarkdownEditorApp)
        ensures
            app@ == EditorModel::initial(listed_paths(steps@)),
            app@.well_formed(),
    {
        MarkdownEditorApp::new(list_files(steps))
    }

    /// The listed files, by path, in listing order.
    pub fn files(&self) -> (files: &Vec<String>)
        ensures
            files.deep_view() == self@.files,
    {
        &self.files
    }

    /// The path of the selected file, if one is selected.
    pub fn selected_file(&self) -> (selected: &Option<String>)
        ensures
            selected.deep_view() == self@.selected,
    {
        &self.selected_file
    }

    /// The text in the editing buffer.
    pub fn file_content(&self) -> (content: &String)
        ensures
            content@ == self@.content,
    {
        &self.file_content
    }

    /// Whether the rendered preview is shown in place of the raw text.
    pub fn is_markdown_mode(&self) -> (rendered: bool)
        ensures
            rendered == self@.rendered,
    {
        self.is_markdown_mode
    }

    /// Applies one event to the state.
    pub fn update(&mut self, event: Event)
        ensures
            final(self)@ == old(self)@.step(event@),
            final(self)@.well_formed(),
    {
        proof {
            use_type_invariant(&*self);
        }
        match event {
            Event::FileClicked { index, read } => {
                if index < self.files.len() {
                    self.selected_file = Some(self.files[index].clone());
                    self.file_content = loaded_content(read);
                }
            },
            Event::ToggleClicked => {
                if self.selected_file.is_some() {
                    self.is_markdown_mode = !self.is_markdown_mode;
                }
            },
            Event::TextEdited { text } => {
                if self.selected_file.is_some() && !self.is_markdown_mode {
                    self.file_content = text;
                }
            },
        }
    }
}

/// Every transition keeps a well-formed state well-formed.
pub proof fn lemma_step_preserves_well_formed(state: EditorModel, event: EventModel)
    requires
        state.well_formed(),
    ensures
        state.step(event).well_formed(),
{
}

/// Whatever the user does after the start, the state stays well-formed and
/// the list stays what the walk at the start gave.
pub proof fn lemma_reachable_states_are_well_formed(
    files: Seq<Seq<char>>,
    events: Seq<EventModel>,
)
    ensures
        EditorModel::initial(files).after(events).well_formed(),
        EditorModel::initial(files).after(events).files == files,
    decreases events.len(),
{
    if events.len() > 0 {
        lemma_reachable_states_are_well_formed(files, events.drop_last());
    }
}

/// Selecting a file replaces the buffer by what was read from that file.
/// Whatever was typed since an earlier selection is gone: nothing of it is
/// kept, merged or written anywhere, and the rest of the state is untouched.
pub proof fn lemma_selection_discards_edits(
    state: EditorModel,
    first: int,
    first_read: Option<Seq<char>>,
    text: Seq<char>,
    second: int,
    second_read: Option<Seq<char>>,
)
    requires
        state.shows_file_button(first),
        state.shows_file_button(second),
    ensures
        ({
            let edited = state.step(EventModel::FileClicked { index: first, read: first_read }).step(
                EventModel::TextEdited { text },
            );
            let after = edited.step(EventModel::FileClicked { index: second, read: second_read });
            &&& after.content == loaded_text(second_read)
            &&& after.selected == Some(state.files[second])
            &&& after.files == state.files
            &&& after.rendered == state.rendered
        }),
{
}

/// Switching the mode touches neither the buffer nor the selection nor the
/// list.
pub proof fn lemma_toggle_keeps_content(state: EditorModel)
    ensures
        state.step(EventModel::ToggleClicked).content == state.content,
        state.step(EventModel::ToggleClicked).selected == state.selected,
        state.step(EventModel::ToggleClicked).files == state.files,
{
}

/// Switching the mode twice gives back the state one started from.
pub proof fn lemma_toggle_twice_restores(state: EditorModel)
    ensures
        state.step(EventModel::ToggleClicked).step(EventModel::ToggleClicked) == state,
{
}

} // verus!
