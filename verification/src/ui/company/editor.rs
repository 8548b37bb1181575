//! Editing the Vehicle Keeper Mark.

use vstd::prelude::*;
use vstd::string::StrSliceExecFns;

use super::recovery::{panel_heading, section_heading};
use crate::model::identity::{is_keeper_mark, VehicleKeeperMark};
use crate::model::state::GameState;
use crate::text::{part, upper, upper_char};
use crate::ui::keys::KeyCode;
use crate::ui::style::{blank_line, line_of, plain, Page, Style, StyledLine, Tone};

verus! {

/// A mark that is being written, and what is wrong with it.
#[derive(Clone, Debug, PartialEq, Eq)]
pub struct VkmEditor {
    pub draft: String,
    pub error: Option<String>,
}

/// An editor as it reads.
#[verifier::ext_equal]
pub ghost struct EditorView {
    pub draft: Seq<char>,
    pub error: Option<Seq<char>>,
}

impl View for VkmEditor {
    type V = EditorView;

    open spec fn view(&self) -> EditorView {
        EditorView {
            draft: self.draft@,
            error: match self.error {
                Some(error) => Some(error@),
                None => None,
            },
        }
    }
}

/// What a key does to the editor.
#[derive(Clone, Debug, PartialEq, Eq)]
pub enum VkmEditorAction {
    Continue,
    Cancel,
    Confirm(VehicleKeeperMark),
}

/// An action as it reads.
#[verifier::ext_equal]
pub ghost enum EditorOutcome {
    Continue,
    Cancel,
    Confirm(Seq<char>),
}

impl View for VkmEditorAction {
    type V = EditorOutcome;

    open spec fn view(&self) -> EditorOutcome {
        match self {
            VkmEditorAction::Continue => EditorOutcome::Continue,
            VkmEditorAction::Cancel => EditorOutcome::Cancel,
            VkmEditorAction::Confirm(mark) => EditorOutcome::Confirm(mark.mark@),
        }
    }
}

pub open spec fn ascii_letter(character: char) -> bool {
    'a' <= character <= 'z' || 'A' <= character <= 'Z'
}

/// What a mark may be.
pub open spec fn mark_rule() -> Seq<char> {
    "VKM accepts 2–5 letters A-Z only."@
}

/// The editor after a key, and what the key does.
pub open spec fn edited(editor: EditorView, key: KeyCode) -> (EditorView, EditorOutcome) {
    let refused = EditorView { error: Some(mark_rule()), ..editor };
    match key {
        KeyCode::Esc => (editor, EditorOutcome::Cancel),
        KeyCode::Enter => if is_keeper_mark(editor.draft) {
            (editor, EditorOutcome::Confirm(editor.draft))
        } else {
            (refused, EditorOutcome::Continue)
        },
        KeyCode::Backspace => (
            EditorView {
                draft: if editor.draft.len() > 0 {
                    editor.draft.drop_last()
                } else {
                    editor.draft
                },
                error: None,
            },
            EditorOutcome::Continue,
        ),
        KeyCode::Char(character) => if ascii_letter(character) && editor.draft.len() < 5 {
            (
                EditorView { draft: editor.draft.push(upper(character)), error: None },
                EditorOutcome::Continue,
            )
        } else {
            (refused, EditorOutcome::Continue)
        },
        _ => (editor, EditorOutcome::Continue),
    }
}

impl VkmEditor {
    /// Begins with the mark that the Company has.
    pub fn start(state: &GameState) -> (result: Self)
        ensures
            result@ == (EditorView {
                draft: state.player_company.vehicle_keeper_mark.mark@,
                error: None,
            }),
    {
        VkmEditor { draft: state.player_company.vehicle_keeper_mark.mark.clone(), error: None }
    }

    /// Reacts to a key; the Company keeps its mark.
    pub fn handle_key(&mut self, key: KeyCode) -> (result: VkmEditorAction)
        ensures
            (final(self)@, result@) == edited(old(self)@, key),
    {
        let ghost expected = edited(self@, key);
        match key {
            KeyCode::Esc => VkmEditorAction::Cancel,
            KeyCode::Enter => match VehicleKeeperMark::parse(self.draft.as_str()) {
                Ok(mark) => {
                    assert(self@ =~= expected.0);
                    VkmEditorAction::Confirm(mark)
                },
                Err(_) => {
                    self.error = Some("VKM accepts 2–5 letters A-Z only.".to_owned());
                    assert(self@ =~= expected.0);
                    VkmEditorAction::Continue
                },
            },
            KeyCode::Backspace => {
                let length: usize = self.draft.as_str().unicode_len();
                if length > 0 {
                    let shorter = part(self.draft.as_str(), 0, length - 1);
                    assert(shorter@ =~= self.draft@.drop_last());
                    self.draft = shorter;
                }
                self.error = None;
                assert(self@ =~= expected.0);
                VkmEditorAction::Continue
            },
            KeyCode::Char(character) => {
                let letter = ('a' <= character && character <= 'z') || ('A' <= character
                    && character <= 'Z');
                if letter && self.draft.as_str().unicode_len() < 5 {
                    self.draft.push(upper_char(character));
                    self.error = None;
                } else {
                    self.error = Some("VKM accepts 2–5 letters A-Z only.".to_owned());
                }
                assert(self@ =~= expected.0);
                VkmEditorAction::Continue
            },
            _ => VkmEditorAction::Continue,
        }
    }

    pub fn draft(&self) -> (result: &str)
        ensures
            result@ == self@.draft,
    {
        self.draft.as_str()
    }

    pub fn error(&self) -> (result: Option<&str>)
        ensures
            match result {
                Some(error) => self@.error == Some(error@),
                None => self@.error is None,
            },
    {
        match &self.error {
            Some(error) => Some(error.as_str()),
            None => None,
        }
    }
}

/// Only a valid mark leaves the editor, and no key makes a draft longer than a mark may be.
pub proof fn only_valid_marks_are_confirmed(editor: EditorView, key: KeyCode)
    requires
        editor.draft.len() <= 5,
    ensures
        edited(editor, key).1 matches EditorOutcome::Confirm(mark) ==> is_keeper_mark(mark),
        edited(editor, key).0.draft.len() <= 5,
{
}

/// The editor's lines.
pub open spec fn editor_page(editor: EditorView, company: Seq<char>) -> Seq<
    Seq<(Seq<char>, Style)>,
> {
    let lines = seq![
        seq![
            ("Company       "@, plain(Tone::Secondary)),
            (company, plain(Tone::Title)),
        ],
        blank_line(),
        panel_heading("VEHICLE KEEPER MARK"@),
        seq![
            ("VKM           "@, plain(Tone::Secondary)),
            (editor.draft, plain(Tone::FocusedTitle)),
            ("▏"@, plain(Tone::FocusedTitle)),
        ],
        blank_line(),
        line_of(
            "2–5 letters A–Z. The keeper mark changes; the numeric EVN does not."@,
            plain(Tone::Secondary),
        ),
    ];
    match editor.error {
        Some(error) => lines.push(blank_line()).push(line_of(error, plain(Tone::Error))),
        None => lines,
    }
}

pub fn vkm_editor_lines(editor: &VkmEditor, company: &str) -> (result: Page)
    ensures
        result@ == editor_page(editor@, company@),
{
    let mut page = Page::new();
    page.push(
        StyledLine::pair(
            "Company       ",
            Style::plain(Tone::Secondary),
            company,
            Style::plain(Tone::Title),
        ),
    );
    page.push_blank();
    page.push(section_heading("VEHICLE KEEPER MARK"));
    page.push(
        StyledLine::triple(
            "VKM           ",
            Style::plain(Tone::Secondary),
            editor.draft(),
            Style::plain(Tone::FocusedTitle),
            "▏",
            Style::plain(Tone::FocusedTitle),
        ),
    );
    page.push_blank();
    page.push_styled(
        "2–5 letters A–Z. The keeper mark changes; the numeric EVN does not.",
        Style::plain(Tone::Secondary),
    );
    if let Some(error) = editor.error() {
        page.push_blank();
        page.push_styled(error, Style::plain(Tone::Error));
    }
    page
}

} // verus!
