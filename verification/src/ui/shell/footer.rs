//! The footer: feedback and the shortcuts that matter at the moment.

use vstd::prelude::*;
use vstd::string::StrSliceExecFns;
use vstd::string::StringExecFns;

use super::view::{footer_of, footer_source, FooterSource, ShellState, Utilities};
use crate::text::same_text;
use crate::ui::components::at_most_usize;
use crate::ui::geometry::Rect;
use crate::ui::style::{line_of, plain, Style, StyledLine, Tone};

verus! {

/// A key, what it does, and whether it does it now.
#[derive(Clone, Debug, PartialEq, Eq)]
pub struct FooterShortcut {
    pub key: String,
    pub action: String,
    pub enabled: bool,
}

/// A shortcut as it reads.
pub type ShortcutView = (Seq<char>, Seq<char>, bool);

impl View for FooterShortcut {
    type V = ShortcutView;

    open spec fn view(&self) -> ShortcutView {
        (self.key@, self.action@, self.enabled)
    }
}

/// Shortcuts as they read.
pub open spec fn shortcut_views(items: Seq<FooterShortcut>) -> Seq<ShortcutView> {
    Seq::new(items.len(), |i: int| items[i]@)
}

impl FooterShortcut {
    pub fn new(key: &str, action: &str, enabled: bool) -> (result: Self)
        ensures
            result@ == (key@, action@, enabled),
    {
        FooterShortcut { key: key.to_owned(), action: action.to_owned(), enabled }
    }

    fn copy(&self) -> (result: Self)
        ensures
            result@ == self@,
    {
        FooterShortcut::new(self.key.as_str(), self.action.as_str(), self.enabled)
    }
}

fn push_shortcut(items: &mut Vec<FooterShortcut>, key: &str, action: &str)
    ensures
        shortcut_views(final(items)@) == shortcut_views(old(items)@).push((key@, action@, true)),
{
    items.push(FooterShortcut::new(key, action, true));
    assert(shortcut_views(items@) =~= shortcut_views(old(items)@).push((key@, action@, true)));
}

/// The columns that a shortcut takes: its key in brackets, a space and its action.
pub open spec fn width_of(shortcut: ShortcutView) -> int {
    shortcut.0.len() as int + shortcut.1.len() as int + 3
}

pub fn shortcut_width(shortcut: &FooterShortcut) -> (result: usize)
    ensures
        result == at_most_usize(width_of(shortcut@)),
{
    shortcut.key.as_str().unicode_len().saturating_add(
        shortcut.action.as_str().unicode_len(),
    ).saturating_add(3)
}

/// The columns of shortcuts without the gaps between them.
pub open spec fn widths(shortcuts: Seq<ShortcutView>) -> int
    decreases shortcuts.len(),
{
    if shortcuts.len() == 0 {
        0
    } else {
        widths(shortcuts.drop_last()) + width_of(shortcuts.last())
    }
}

/// The columns of shortcuts with one between each two.
pub open spec fn line_width(shortcuts: Seq<ShortcutView>) -> int {
    if shortcuts.len() == 0 {
        0
    } else {
        widths(shortcuts) + shortcuts.len() - 1
    }
}

proof fn lemma_widths(shortcuts: Seq<ShortcutView>)
    ensures
        widths(shortcuts) >= 0,
    decreases shortcuts.len(),
{
    if shortcuts.len() > 0 {
        lemma_widths(shortcuts.drop_last());
    }
}

pub fn shortcut_line_width(shortcuts: &Vec<FooterShortcut>) -> (result: usize)
    ensures
        result == at_most_usize(line_width(shortcut_views(shortcuts@))),
{
    let ghost all = shortcut_views(shortcuts@);
    let mut total: usize = 0;
    let mut i: usize = 0;
    assert(all.take(0) =~= Seq::<ShortcutView>::empty());
    while i < shortcuts.len()
        invariant
            i <= shortcuts@.len(),
            all == shortcut_views(shortcuts@),
            total == at_most_usize(widths(all.take(i as int))),
        decreases shortcuts.len() - i,
    {
        proof {
            assert(all.take(i + 1).drop_last() =~= all.take(i as int));
            lemma_widths(all.take(i as int));
        }
        total = total.saturating_add(shortcut_width(&shortcuts[i]));
        i += 1;
    }
    proof {
        assert(all.take(i as int) =~= all);
        lemma_widths(all);
    }
    if shortcuts.len() > 0 {
        total.saturating_add(shortcuts.len() - 1)
    } else {
        total
    }
}

/// Shortcuts with one more, unless it makes them too wide.
pub open spec fn pushed_if_fits(
    shortcuts: Seq<ShortcutView>,
    shortcut: ShortcutView,
    width: u16,
) -> Seq<ShortcutView> {
    if line_width(shortcuts.push(shortcut)) <= width {
        shortcuts.push(shortcut)
    } else {
        shortcuts
    }
}

pub fn push_shortcut_if_fits(
    shortcuts: &mut Vec<FooterShortcut>,
    shortcut: FooterShortcut,
    width: u16,
)
    ensures
        shortcut_views(final(shortcuts)@) == pushed_if_fits(
            shortcut_views(old(shortcuts)@),
            shortcut@,
            width,
        ),
{
    let ghost before = shortcut_views(shortcuts@);
    let gap: usize = if shortcuts.len() == 0 {
        0
    } else {
        1
    };
    let next: usize = shortcut_line_width(shortcuts).saturating_add(gap).saturating_add(
        shortcut_width(&shortcut),
    );
    proof {
        lemma_widths(before);
        assert(before.push(shortcut@).drop_last() =~= before);
    }
    if next <= width as usize {
        shortcuts.push(shortcut);
        assert(shortcut_views(shortcuts@) =~= before.push(shortcut@));
    }
}

/// Help and quitting.
pub open spec fn help_shortcut() -> ShortcutView {
    ("?"@, "Help"@, true)
}

pub open spec fn quit_shortcut() -> ShortcutView {
    ("Q"@, "Quit"@, true)
}

/// The shortcuts of the footer, where the workspace that speaks provides its own.
pub open spec fn controls(
    source: FooterSource,
    provided: Seq<ShortcutView>,
    width: u16,
) -> Seq<ShortcutView> {
    match source {
        FooterSource::HelpPage => seq![
            (
                if width <= 78 {
                    "↑↓"@
                } else {
                    "↑↓/JK"@
                },
                "Scroll"@,
                true,
            ),
            ("PgUp/PgDn"@, "Page"@, true),
            ("?/Esc"@, "Close"@, true),
            quit_shortcut(),
        ],
        FooterSource::OutcomeDetails => seq![("i"@, "Close"@, true), ("Esc"@, "Close"@, true)],
        FooterSource::RestartReview => seq![
            ("Enter"@, "Restart"@, true),
            ("Esc"@, "Cancel"@, true),
            quit_shortcut(),
        ],
        FooterSource::Bankruptcy => seq![
            ("R"@, "Safe restart"@, true),
            help_shortcut(),
            quit_shortcut(),
        ],
        FooterSource::Workspace { utilities, .. } => match utilities {
            Utilities::Absent => provided,
            Utilities::Always => provided.push(help_shortcut()).push(quit_shortcut()),
            Utilities::WhereTheyFit => pushed_if_fits(
                pushed_if_fits(provided, help_shortcut(), width),
                quit_shortcut(),
                width,
            ),
        },
    }
}

fn copied(shortcuts: &Vec<FooterShortcut>) -> (result: Vec<FooterShortcut>)
    ensures
        shortcut_views(result@) == shortcut_views(shortcuts@),
{
    let mut items: Vec<FooterShortcut> = Vec::new();
    let mut i: usize = 0;
    while i < shortcuts.len()
        invariant
            i <= shortcuts@.len(),
            items@.len() == i,
            forall|j: int| 0 <= j < i ==> (#[trigger] items@[j])@ == shortcuts@[j]@,
        decreases shortcuts.len() - i,
    {
        items.push(shortcuts[i].copy());
        i += 1;
    }
    assert(shortcut_views(items@) =~= shortcut_views(shortcuts@));
    items
}

/// The shortcuts of the footer. The workspace that the shell's state lets speak has provided
/// its own for the same width.
pub fn contextual_controls(shell: &ShellState, provided: &Vec<FooterShortcut>, width: u16) -> (result:
    Vec<FooterShortcut>)
    ensures
        shortcut_views(result@) == controls(
            footer_of(*shell),
            shortcut_views(provided@),
            width,
        ),
{
    let mut actions: Vec<FooterShortcut> = Vec::new();
    assert(shortcut_views(actions@) =~= Seq::<ShortcutView>::empty());
    match footer_source(shell) {
        FooterSource::HelpPage => {
            push_shortcut(
                &mut actions,
                if width <= 78 {
                    "↑↓"
                } else {
                    "↑↓/JK"
                },
                "Scroll",
            );
            push_shortcut(&mut actions, "PgUp/PgDn", "Page");
            push_shortcut(&mut actions, "?/Esc", "Close");
            push_shortcut(&mut actions, "Q", "Quit");
        },
        FooterSource::OutcomeDetails => {
            push_shortcut(&mut actions, "i", "Close");
            push_shortcut(&mut actions, "Esc", "Close");
        },
        FooterSource::RestartReview => {
            push_shortcut(&mut actions, "Enter", "Restart");
            push_shortcut(&mut actions, "Esc", "Cancel");
            push_shortcut(&mut actions, "Q", "Quit");
        },
        FooterSource::Bankruptcy => {
            push_shortcut(&mut actions, "R", "Safe restart");
            push_shortcut(&mut actions, "?", "Help");
            push_shortcut(&mut actions, "Q", "Quit");
        },
        FooterSource::Workspace { utilities, .. } => {
            actions = copied(provided);
            match utilities {
                Utilities::Absent => {},
                Utilities::Always => {
                    push_shortcut(&mut actions, "?", "Help");
                    push_shortcut(&mut actions, "Q", "Quit");
                },
                Utilities::WhereTheyFit => {
                    push_shortcut_if_fits(
                        &mut actions,
                        FooterShortcut::new("?", "Help", true),
                        width,
                    );
                    push_shortcut_if_fits(
                        &mut actions,
                        FooterShortcut::new("Q", "Quit", true),
                        width,
                    );
                },
            }
        },
    }
    actions
}

/// Help and quitting never push a workspace's own shortcuts out of the footer: they stand
/// behind them, and only where all fit.
pub proof fn utilities_never_crowd_out_shortcuts(provided: Seq<ShortcutView>, width: u16)
    ensures
        ({
            let first = pushed_if_fits(provided, help_shortcut(), width);
            let all = pushed_if_fits(first, quit_shortcut(), width);
            &&& all.len() >= provided.len()
            &&& all.take(provided.len() as int) =~= provided
            &&& all.len() > provided.len() ==> line_width(all) <= width
        }),
{
}

/// Whether a footer that is this narrow or wide abbreviates or shows more.
pub fn footer_mode(width: u16) -> (result: (bool, bool))
    ensures
        result == (width <= 78, width >= 104),
{
    (width <= 78, width >= 104)
}

/// The rows of the footer: one more where there is feedback.
pub fn footer_height(outcome: bool, notice: bool) -> (result: u16)
    ensures
        result == (if outcome || notice {
            3u16
        } else {
            2
        }),
{
    if outcome || notice {
        3
    } else {
        2
    }
}

/// The feedback: the outcome of an action before a notice.
pub open spec fn feedback_line(outcome: Option<Seq<char>>, notice: Option<Seq<char>>) -> Option<
    Seq<(Seq<char>, Style)>,
> {
    match outcome {
        Some(summary) => Some(line_of("✓ "@ + summary, plain(Tone::Success))),
        None => match notice {
            Some(text) => Some(line_of(text, plain(Tone::Warning))),
            None => None,
        },
    }
}

pub open spec fn optional_view(text: Option<&str>) -> Option<Seq<char>> {
    match text {
        Some(text) => Some(text@),
        None => None,
    }
}

pub fn feedback(outcome: Option<&str>, notice: Option<&str>) -> (result: Option<StyledLine>)
    ensures
        match result {
            Some(line) => feedback_line(optional_view(outcome), optional_view(notice)) == Some(
                line@,
            ),
            None => feedback_line(optional_view(outcome), optional_view(notice)) is None,
        },
{
    match outcome {
        Some(summary) => {
            let text = "✓ ".to_owned().concat(summary);
            Some(StyledLine::styled(text.as_str(), Style::plain(Tone::Success)))
        },
        None => match notice {
            Some(text) => Some(StyledLine::styled(text, Style::plain(Tone::Warning))),
            None => None,
        },
    }
}

/// Whether a shortcut is help or quitting by its key.
pub open spec fn utility(shortcut: ShortcutView) -> bool {
    shortcut.0 == "?"@ || shortcut.0 == "Q"@
}

pub fn is_utility_shortcut(shortcut: &FooterShortcut) -> (result: bool)
    ensures
        result == utility(shortcut@),
{
    same_text(shortcut.key.as_str(), "?") || same_text(shortcut.key.as_str(), "Q")
}

/// The shortcuts that are utilities, or those that are not, in order.
pub open spec fn chosen(shortcuts: Seq<ShortcutView>, utilities: bool) -> Seq<ShortcutView>
    decreases shortcuts.len(),
{
    if shortcuts.len() == 0 {
        Seq::empty()
    } else if utility(shortcuts.last()) == utilities {
        chosen(shortcuts.drop_last(), utilities).push(shortcuts.last())
    } else {
        chosen(shortcuts.drop_last(), utilities)
    }
}

/// Parts the workspace's shortcuts from the utilities.
pub fn partition_shortcuts(shortcuts: &Vec<FooterShortcut>) -> (result: (
    Vec<FooterShortcut>,
    Vec<FooterShortcut>,
))
    ensures
        shortcut_views(result.0@) == chosen(shortcut_views(shortcuts@), false),
        shortcut_views(result.1@) == chosen(shortcut_views(shortcuts@), true),
{
    let ghost all = shortcut_views(shortcuts@);
    let mut contextual: Vec<FooterShortcut> = Vec::new();
    let mut global: Vec<FooterShortcut> = Vec::new();
    let mut i: usize = 0;
    assert(all.take(0) =~= Seq::<ShortcutView>::empty());
    assert(shortcut_views(contextual@) =~= Seq::<ShortcutView>::empty());
    while i < shortcuts.len()
        invariant
            i <= shortcuts@.len(),
            all == shortcut_views(shortcuts@),
            shortcut_views(contextual@) == chosen(all.take(i as int), false),
            shortcut_views(global@) == chosen(all.take(i as int), true),
        decreases shortcuts.len() - i,
    {
        assert(all.take(i + 1).drop_last() =~= all.take(i as int));
        assert(all.take(i + 1).last() == shortcuts@[i as int]@);
        let ghost first = shortcut_views(contextual@);
        let ghost second = shortcut_views(global@);
        let item = shortcuts[i].copy();
        if is_utility_shortcut(&item) {
            global.push(item);
            assert(shortcut_views(global@) =~= second.push(item@));
        } else {
            contextual.push(item);
            assert(shortcut_views(contextual@) =~= first.push(item@));
        }
        i += 1;
    }
    assert(all.take(i as int) =~= all);
    (contextual, global)
}

/// The pieces of a shortcut.
pub open spec fn shortcut_spans(shortcut: ShortcutView) -> Seq<(Seq<char>, Style)> {
    seq![
        (
            "["@ + shortcut.0 + "]"@,
            if shortcut.2 {
                plain(Tone::ShortcutKey)
            } else {
                plain(Tone::ShortcutDisabled)
            },
        ),
        (
            " "@ + shortcut.1,
            if shortcut.2 {
                plain(Tone::ShortcutAction)
            } else {
                plain(Tone::ShortcutDisabled)
            },
        ),
    ]
}

/// Shortcuts in one line.
pub open spec fn shortcut_pieces(shortcuts: Seq<ShortcutView>) -> Seq<(Seq<char>, Style)>
    decreases shortcuts.len(),
{
    if shortcuts.len() == 0 {
        Seq::empty()
    } else if shortcuts.len() == 1 {
        shortcut_spans(shortcuts[0])
    } else {
        shortcut_pieces(shortcuts.drop_last()).push((" "@, plain(Tone::ShortcutAction)))
            + shortcut_spans(shortcuts.last())
    }
}

pub(crate) fn push_shortcut_spans(line: &mut StyledLine, key: &str, action: &str, enabled: bool)
    ensures
        final(line)@ == old(line)@ + shortcut_spans((key@, action@, enabled)),
{
    let keycap = "[".to_owned().concat(key).concat("]");
    let label = " ".to_owned().concat(action);
    if enabled {
        line.push(keycap.as_str(), Style::plain(Tone::ShortcutKey));
        line.push(label.as_str(), Style::plain(Tone::ShortcutAction));
    } else {
        line.push(keycap.as_str(), Style::plain(Tone::ShortcutDisabled));
        line.push(label.as_str(), Style::plain(Tone::ShortcutDisabled));
    }
    assert(line@ =~= old(line)@ + shortcut_spans((key@, action@, enabled)));
}

pub fn shortcut_line(shortcuts: &Vec<FooterShortcut>) -> (result: StyledLine)
    ensures
        result@ == shortcut_pieces(shortcut_views(shortcuts@)),
{
    let ghost all = shortcut_views(shortcuts@);
    let mut line = StyledLine::new();
    let mut i: usize = 0;
    assert(all.take(0) =~= Seq::<ShortcutView>::empty());
    while i < shortcuts.len()
        invariant
            i <= shortcuts@.len(),
            all == shortcut_views(shortcuts@),
            line@ == shortcut_pieces(all.take(i as int)),
        decreases shortcuts.len() - i,
    {
        let ghost next = all.take(i + 1);
        assert(next.drop_last() =~= all.take(i as int));
        assert(next.last() == shortcuts@[i as int]@);
        if i > 0 {
            line.push(" ", Style::plain(Tone::ShortcutAction));
        }
        let shortcut = &shortcuts[i];
        push_shortcut_spans(
            &mut line,
            shortcut.key.as_str(),
            shortcut.action.as_str(),
            shortcut.enabled,
        );
        i += 1;
        assert(line@ =~= shortcut_pieces(next));
    }
    assert(all.take(i as int) =~= all);
    line
}

/// Where the two parts of the action strip stand.
#[derive(Clone, Copy, Debug, PartialEq, Eq, Structural)]
pub struct ActionStrip {
    pub contextual: Option<Rect>,
    pub global: Option<Rect>,
}

pub open spec fn clamp_u16(value: int) -> int {
    if value > u16::MAX {
        u16::MAX as int
    } else if value < 0 {
        0
    } else {
        value
    }
}

/// The columns that the utilities get: as many as they take, but no more than there are.
pub open spec fn global_columns(area: Rect, global: Seq<ShortcutView>) -> int {
    if line_width(global) < area.width {
        line_width(global)
    } else {
        area.width as int
    }
}

/// The utilities keep to the right; the workspace's shortcuts get what is left of them, with
/// a gap between.
pub open spec fn strip(
    area: Rect,
    contextual: Seq<ShortcutView>,
    global: Seq<ShortcutView>,
) -> ActionStrip {
    let right = global_columns(area, global);
    let left = if global.len() == 0 {
        area.width as int
    } else {
        clamp_u16(area.width - clamp_u16(right + 1))
    };
    ActionStrip {
        contextual: if left > 0 && contextual.len() > 0 {
            Some(Rect { x: area.x, y: area.y, width: left as u16, height: 1 })
        } else {
            None
        },
        global: if right > 0 && global.len() > 0 {
            Some(
                Rect {
                    x: clamp_u16(area.x + area.width - right) as u16,
                    y: area.y,
                    width: right as u16,
                    height: 1,
                },
            )
        } else {
            None
        },
    }
}

pub fn action_strip(
    area: Rect,
    contextual: &Vec<FooterShortcut>,
    global: &Vec<FooterShortcut>,
) -> (result: ActionStrip)
    ensures
        result == strip(area, shortcut_views(contextual@), shortcut_views(global@)),
{
    proof {
        lemma_widths(shortcut_views(global@));
    }
    let taken: usize = shortcut_line_width(global);
    let right: u16 = if taken < area.width as usize {
        taken as u16
    } else {
        area.width
    };
    let left: u16 = if global.len() == 0 {
        area.width
    } else {
        area.width.saturating_sub(right.saturating_add(1))
    };
    ActionStrip {
        contextual: if left > 0 && contextual.len() > 0 {
            Some(Rect { x: area.x, y: area.y, width: left, height: 1 })
        } else {
            None
        },
        global: if right > 0 && global.len() > 0 {
            Some(
                Rect {
                    x: area.x.saturating_add(area.width - right),
                    y: area.y,
                    width: right,
                    height: 1,
                },
            )
        } else {
            None
        },
    }
}

/// The two parts of the action strip never overlap.
pub proof fn action_strip_parts_do_not_overlap(
    area: Rect,
    contextual: Seq<ShortcutView>,
    global: Seq<ShortcutView>,
)
    requires
        area.x + area.width <= u16::MAX,
    ensures
        ({
            let parts = strip(area, contextual, global);
            parts.contextual is Some && parts.global is Some ==> parts.contextual.unwrap().x
                + parts.contextual.unwrap().width < parts.global.unwrap().x
                && parts.global.unwrap().x + parts.global.unwrap().width == area.x + area.width
        }),
{
    lemma_widths(global);
}

/// The shortcut that opens an outcome's details, while they are closed.
pub fn outcome_shortcut(outcome: bool, details_open: bool) -> (result: Option<FooterShortcut>)
    ensures
        match result {
            Some(shortcut) => outcome && !details_open && shortcut@ == ("i"@, "Details"@, true),
            None => !outcome || details_open,
        },
{
    if outcome && !details_open {
        Some(FooterShortcut::new("i", "Details", true))
    } else {
        None
    }
}

/// All shortcuts of the footer: an outcome's details come first, and the others make room.
pub open spec fn footer_items(
    shell: ShellState,
    outcome: bool,
    provided: Seq<ShortcutView>,
    width: u16,
) -> Seq<ShortcutView> {
    if outcome && !shell.outcome_details_open {
        let details = ("i"@, "Details"@, true);
        seq![details] + controls(
            footer_of(shell),
            provided,
            clamp_u16(width - clamp_u16(width_of(details) + 1)) as u16,
        )
    } else {
        controls(footer_of(shell), provided, width)
    }
}

/// The width that is left for the shortcuts of a workspace.
pub fn contextual_width(width: u16, outcome: bool, details_open: bool) -> (result: u16)
    ensures
        result == (if outcome && !details_open {
            clamp_u16(width - clamp_u16(width_of(("i"@, "Details"@, true)) + 1))
        } else {
            width as int
        }),
{
    match outcome_shortcut(outcome, details_open) {
        None => width,
        Some(shortcut) => {
            proof {
                reveal_strlit("i");
                reveal_strlit("Details");
            }
            let reserved: usize = shortcut_width(&shortcut).saturating_add(1);
            width.saturating_sub(reserved as u16)
        },
    }
}

pub fn footer_shortcuts(
    shell: &ShellState,
    outcome: bool,
    provided: &Vec<FooterShortcut>,
    width: u16,
) -> (result: Vec<FooterShortcut>)
    ensures
        shortcut_views(result@) == footer_items(
            *shell,
            outcome,
            shortcut_views(provided@),
            width,
        ),
{
    let left: u16 = contextual_width(width, outcome, shell.outcome_details_open);
    let mut items = contextual_controls(shell, provided, left);
    if let Some(shortcut) = outcome_shortcut(outcome, shell.outcome_details_open) {
        let ghost before = shortcut_views(items@);
        items.insert(0, shortcut);
        assert(shortcut_views(items@) =~= seq![shortcut@] + before);
    }
    items
}

} // verus!
