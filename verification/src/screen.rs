//! What the window shows for a state of the editor.

use vstd::prelude::*;
use crate::editor::{lemma_toggle_twice_restores, EditorModel, EventModel, MarkdownEditorApp};
use crate::render::{markdown_html, render_markdown};
use crate::text::{display_name, display_name_of};

verus! {

/// What the main panel holds.
#[derive(Debug, PartialEq, Eq)]
pub enum MainPanel {
    /// No file is selected: a single line of text.
    Placeholder { message: String },
    /// A file is selected and shown as raw text in an editable area.
    Editor { title: String, toggle_label: String, text: String },
    /// A file is selected and the HTML of its text is shown, read-only.
    Preview { title: String, toggle_label: String, html: String },
}

/// A main panel as a mathematical value.
pub enum MainPanelModel {
    Placeholder { message: Seq<char> },
    Editor { title: Seq<char>, toggle_label: Seq<char>, text: Seq<char> },
    Preview { title: Seq<char>, toggle_label: Seq<char>, html: Seq<char> },
}

impl View for MainPanel {
    type V = MainPanelModel;

    open spec fn view(&self) -> MainPanelModel {
        match *self {
            MainPanel::Placeholder { message } => MainPanelModel::Placeholder { message: message@ },
            MainPanel::Editor { title, toggle_label, text } => MainPanelModel::Editor {
                title: title@,
                toggle_label: toggle_label@,
                text: text@,
            },
            MainPanel::Preview { title, toggle_label, html } => MainPanelModel::Preview {
                title: title@,
                toggle_label: toggle_label@,
                html: html@,
            },
        }
    }
}

/// The line shown while no file is selected.
pub open spec fn placeholder_text() -> Seq<char> {
    "Select a file to edit"@
}

/// The heading above the text of the file at `path`.
pub open spec fn heading_of(path: Seq<char>) -> Seq<char> {
    "Editing: "@ + display_name_of(path)
}

/// The label of the button that switches the mode: it names the mode that a
/// click leads to.
pub open spec fn toggle_label_of(rendered: bool) -> Seq<char> {
    if rendered {
        "Switch to Edit View"@
    } else {
        "Switch to Markdown View"@
    }
}

/// The labels of the side panel's buttons: one per listed file, in listing
/// order.
pub open spec fn file_buttons_of(state: EditorModel) -> Seq<Seq<char>> {
    state.files.map_values(|path: Seq<char>| display_name_of(path))
}

/// The main panel for `state`, where `preview` is the text to show in
/// rendered mode. Outside rendered mode `preview` plays no part.
pub open spec fn main_panel_of(state: EditorModel, preview: Seq<char>) -> MainPanelModel {
    match state.selected {
        None => MainPanelModel::Placeholder { message: placeholder_text() },
        Some(path) => {
            if state.rendered {
                MainPanelModel::Preview {
                    title: heading_of(path),
                    toggle_label: toggle_label_of(true),
                    html: preview,
                }
            } else {
                MainPanelModel::Editor {
                    title: heading_of(path),
                    toggle_label: toggle_label_of(false),
                    text: state.content,
                }
            }
        },
    }
}

/// The heading above the text of the file at `path`.
pub fn heading(path: &str) -> (title: String)
    ensures
        title@ == heading_of(path@),
{
    let mut title = "Editing: ".to_owned();
    title.append(display_name(path));
    title
}

/// The label of the button that switches the mode.
pub fn toggle_label(is_markdown_mode: bool) -> (label: &'static str)
    ensures
        label@ == toggle_label_of(is_markdown_mode),
{
    if is_markdown_mode {
        "Switch to Edit View"
    } else {
        "Switch to Markdown View"
    }
}

impl MarkdownEditorApp {
    /// The labels of the side panel's buttons, one per listed file.
    pub fn file_buttons(&self) -> (labels: Vec<String>)
        ensures
            labels.deep_view() == file_buttons_of(self@),
    {
        let files = self.files();
        let mut labels: Vec<String> = Vec::new();
        let mut i: usize = 0;
        while i < files.len()
            invariant
                i <= files.len(),
                labels.len() == i,
                forall|j: int| 0 <= j < i ==> labels@[j]@ == display_name_of(#[trigger] files@[j]@),
            decreases files.len() - i,
        {
            labels.push(display_name(files[i].as_str()).to_owned());
            i = i + 1;
        }
        labels
    }

    /// The main panel, with `preview` as the text to show in rendered mode.
    pub fn main_panel_with_preview(&self, preview: String) -> (panel: MainPanel)
        ensures
            panel@ == main_panel_of(self@, preview@),
    {
        match self.selected_file() {
            None => MainPanel::Placeholder { message: "Select a file to edit".to_owned() },
            Some(path) => {
                let title = heading(path.as_str());
                let toggle_label = toggle_label(self.is_markdown_mode()).to_owned();
                if self.is_markdown_mode() {
                    MainPanel::Preview { title, toggle_label, html: preview }
                } else {
                    MainPanel::Editor { title, toggle_label, text: self.file_content().clone() }
                }
            },
        }
    }

    /// The main panel. In rendered mode it holds the HTML that the buffer
    /// renders to; how that HTML is put on screen is the window's affair.
    pub fn main_panel(&self) -> (panel: MainPanel)
        ensures
            panel@ == main_panel_of(self@, markdown_html(self@.content)),
    {
        if self.is_markdown_mode() {
            let html = render_markdown(self.file_content().as_str());
            self.main_panel_with_preview(html)
        } else {
            self.main_panel_with_preview(String::new())
        }
    }
}

/// The window shows a widget exactly in the states in which the transition
/// function listens to it.
pub proof fn lemma_screen_matches_transitions(state: EditorModel, preview: Seq<char>, index: int)
    ensures
        state.shows_file_button(index) <==> 0 <= index < file_buttons_of(state).len(),
        state.shows_toggle() <==> !(main_panel_of(state, preview) is Placeholder),
        state.shows_text_area() <==> main_panel_of(state, preview) is Editor,
{
}

/// Switching the mode twice puts the same window on screen again.
pub proof fn lemma_toggle_twice_restores_screen(state: EditorModel)
    ensures
        ({
            let back = state.step(EventModel::ToggleClicked).step(EventModel::ToggleClicked);
            &&& file_buttons_of(back) == file_buttons_of(state)
            &&& main_panel_of(back, markdown_html(back.content)) == main_panel_of(
                state,
                markdown_html(state.content),
            )
        }),
{
    lemma_toggle_twice_restores(state);
}

} // verus!
