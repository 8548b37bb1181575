//! What the shell shows around the workspaces, whatever the game holds.

use vstd::prelude::*;

use super::footer::{feedback_line, shortcut_spans, width_of, ShortcutView};
use super::help::{scrolled, visible_help, HelpText};
use super::status::{
    arrival, eta_text, gap, next_arrival, ready_trains, shortened, travelling_trains,
};
use super::view::{
    footer_of, help_of, tab_text, workspace_of, FooterSource, HelpSource, PrimaryView, ShellState,
    Workspace,
};
use crate::model::company::{Journey, Train};
use crate::model::units::UtcSeconds;
use crate::text::decimal;
use crate::ui::format::compact_text;
use crate::ui::style::{line_of, plain, Tone};

verus! {

proof fn lemma_counts(trains: Seq<Train>, train: Train, count: int)
    requires
        0 <= count <= trains.len(),
    ensures
        ready_trains(trains.push(train), count) == ready_trains(trains, count),
        travelling_trains(trains.push(train), count) == travelling_trains(trains, count),
    decreases count,
{
    if count > 0 {
        lemma_counts(trains, train, count - 1);
        assert(trains.push(train)[count - 1] == trains[count - 1]);
    }
}

/// Every Train is ready or travelling, and counts as the one or the other.
pub proof fn trains_are_ready_or_travelling(trains: Seq<Train>, train: Train)
    ensures
        ready_trains(Seq::empty(), 0) == 0,
        travelling_trains(Seq::empty(), 0) == 0,
        train.status is Ready ==> ready_trains(trains.push(train), (trains.len() + 1) as int)
            == ready_trains(trains, trains.len() as int) + 1 && travelling_trains(
            trains.push(train),
            (trains.len() + 1) as int,
        ) == travelling_trains(trains, trains.len() as int),
        train.status is Travelling ==> travelling_trains(
            trains.push(train),
            (trains.len() + 1) as int,
        ) == travelling_trains(trains, trains.len() as int) + 1 && ready_trains(
            trains.push(train),
            (trains.len() + 1) as int,
        ) == ready_trains(trains, trains.len() as int),
{
    lemma_counts(trains, train, trains.len() as int);
    assert(trains.push(train)[trains.len() as int] == train);
}

proof fn lemma_next(journeys: Seq<Journey>, now: UtcSeconds, count: int)
    requires
        0 <= count <= journeys.len(),
    ensures
        count > 0 <==> next_arrival(journeys, now, count) is Some,
        forall|i: int|
            0 <= i < count ==> next_arrival(journeys, now, count)->0 <= arrival(
                #[trigger] journeys[i],
                now,
            ),
        count > 0 ==> exists|i: int|
            0 <= i < count && next_arrival(journeys, now, count)->0 == arrival(
                #[trigger] journeys[i],
                now,
            ),
    decreases count,
{
    if count > 0 {
        lemma_next(journeys, now, count - 1);
        let last = arrival(journeys[count - 1], now);
        if count > 1 && next_arrival(journeys, now, count - 1)->0 <= last {
            let i = choose|i: int|
                0 <= i < count - 1 && next_arrival(journeys, now, count - 1)->0 == arrival(
                    #[trigger] journeys[i],
                    now,
                );
            assert(next_arrival(journeys, now, count)->0 == arrival(journeys[i], now));
        } else {
            assert(next_arrival(journeys, now, count)->0 == arrival(journeys[count - 1], now));
        }
    }
}

/// The next arrival is that of the Journey that arrives first, from now on; there is none
/// without Journeys.
pub proof fn the_next_arrival_is_the_first(journeys: Seq<Journey>, now: UtcSeconds, i: int)
    requires
        0 <= i < journeys.len(),
        now.seconds <= journeys[i].arrives_at.seconds,
        journeys[i].arrives_at.seconds - now.seconds <= i64::MAX,
        forall|j: int|
            0 <= j < journeys.len() ==> journeys[i].arrives_at.seconds <= (
            #[trigger] journeys[j]).arrives_at.seconds,
    ensures
        eta_text(journeys, now) == compact_text(
            (journeys[i].arrives_at.seconds - now.seconds) as nat,
        ),
        eta_text(Seq::empty(), now) == "—"@,
{
    lemma_next(journeys, now, journeys.len() as int);
    let least = next_arrival(journeys, now, journeys.len() as int)->0;
    let k = choose|k: int|
        0 <= k < journeys.len() && least == arrival(#[trigger] journeys[k], now);
    assert(journeys[i].arrives_at.seconds <= journeys[k].arrives_at.seconds);
    assert(least <= arrival(journeys[i], now));
}

/// A Journey that is due arrives now.
pub proof fn due_journeys_arrive_now(journey: Journey, now: UtcSeconds)
    ensures
        journey.arrives_at.seconds <= now.seconds ==> arrival(journey, now) == 0,
        arrival(journey, now) >= 0,
{
}

/// A name is shortened only where it is too long, and then to its start.
pub proof fn names_are_shortened_at_the_end(text: Seq<char>, most: int)
    requires
        0 <= most,
    ensures
        text.len() <= most ==> shortened(text, most) == text,
        text.len() > most ==> shortened(text, most) == text.take(most) + "…"@,
{
}

/// The figures stand at the right end of the line, at least two columns from the name.
pub proof fn figures_stand_at_the_right(left: int, right: int, width: u16)
    ensures
        left + right + 2 <= width ==> left + gap(left, right, width) + right == width,
        left + right + 2 > width ==> gap(left, right, width) == 2,
{
}

/// A tab is named after its workspace and its key, and the Bulletin's tells what is unread.
pub proof fn tabs_tell_their_key(view: PrimaryView, unread: u64)
    ensures
        tab_text(PrimaryView::RegionMap, false, unread) == "1"@ + " "@ + "Map"@,
        tab_text(PrimaryView::Trains, false, unread) == "2"@ + " "@ + "Fleet"@,
        tab_text(PrimaryView::BuyTrains, false, unread) == "3"@ + " "@ + "Market"@,
        tab_text(PrimaryView::Company, false, unread) == "4"@ + " "@ + "Company"@,
        tab_text(PrimaryView::Authority, false, unread) == "5"@ + " "@ + "Authority"@,
        tab_text(PrimaryView::Bulletin, false, 0) == "6"@ + " "@ + "Bulletin"@,
        1 <= unread <= 9 ==> tab_text(PrimaryView::Bulletin, false, unread) == "6"@ + " "@
            + "Bulletin"@ + " ["@ + decimal(unread as nat) + "]"@,
        unread >= 10 ==> tab_text(PrimaryView::Bulletin, false, unread) == "6"@ + " "@ + "Bulletin"@
            + " [9+]"@,
        !(view is Bulletin) ==> tab_text(view, true, unread) == tab_text(view, true, 0),
{
}

/// Help covers the footer of everything else, and a bankrupt Company's footer offers only the
/// restart.
pub proof fn footers_follow_what_is_open(shell: ShellState)
    ensures
        shell.help_visible ==> footer_of(shell) is HelpPage,
        !shell.help_visible && !shell.world_details_visible && !shell.nickname_editor_open
            && shell.outcome_details_open ==> footer_of(shell) is OutcomeDetails,
        !shell.help_visible && !shell.world_details_visible && !shell.nickname_editor_open
            && !shell.outcome_details_open && !shell.company_modal_open && shell.bankrupt ==> (
        footer_of(shell) is RestartReview <==> shell.restart_confirmation) && (footer_of(shell)
            is Bankruptcy <==> !shell.restart_confirmation),
        !shell.help_visible && !shell.world_details_visible && !shell.nickname_editor_open
            && !shell.outcome_details_open && !shell.company_modal_open && !shell.bankrupt
            && !shell.dispatch_open && !shell.services_open ==> (
        footer_of(shell) matches FooterSource::Workspace { workspace, .. } && workspace
            == workspace_of(shell.active_view)),
{
}

/// Help is that of the open workspace, and a bankrupt Company's is about the restart.
pub proof fn help_follows_what_is_open(shell: ShellState)
    ensures
        !shell.company_modal_open && shell.bankrupt ==> help_of(shell) is Bankruptcy,
        !shell.company_modal_open && !shell.bankrupt && !shell.world_details_visible
            && shell.dispatch_open ==> help_of(shell) == (HelpSource::Workspace {
            workspace: Workspace::Dispatch,
        }),
        !shell.company_modal_open && !shell.bankrupt && !shell.world_details_visible
            && !shell.dispatch_open && !shell.services_open && !(shell.active_view is BuyTrains)
            ==> help_of(shell) == (HelpSource::Workspace {
            workspace: workspace_of(shell.active_view),
        }),
        workspace_of(PrimaryView::RegionMap) is RegionMap,
        workspace_of(PrimaryView::Trains) is Fleet,
        workspace_of(PrimaryView::BuyTrains) is Market,
        workspace_of(PrimaryView::Company) is Company,
        workspace_of(PrimaryView::Authority) is Authority,
        workspace_of(PrimaryView::Bulletin) is Bulletin,
{
}

/// An outcome is reported before a notice.
pub proof fn outcomes_come_before_notices(outcome: Seq<char>, notice: Option<Seq<char>>, text: Seq<char>)
    ensures
        feedback_line(Some(outcome), notice) == Some(
            line_of("✓ "@ + outcome, plain(Tone::Success)),
        ),
        feedback_line(None, Some(text)) == Some(line_of(text, plain(Tone::Warning))),
        feedback_line(None, None) is None,
{
}

/// A shortcut reads as its key in brackets and its action, and is dimmed where it is not
/// available.
pub proof fn shortcuts_show_key_and_action(shortcut: ShortcutView)
    ensures
        shortcut_spans(shortcut).len() == 2,
        shortcut_spans(shortcut)[0].0 == "["@ + shortcut.0 + "]"@,
        shortcut_spans(shortcut)[1].0 == " "@ + shortcut.1,
        shortcut.2 ==> shortcut_spans(shortcut)[0].1 == plain(Tone::ShortcutKey),
        !shortcut.2 ==> shortcut_spans(shortcut)[0].1 == plain(Tone::ShortcutDisabled)
            && shortcut_spans(shortcut)[1].1 == plain(Tone::ShortcutDisabled),
        width_of(shortcut) == shortcut_spans(shortcut)[0].0.len() + shortcut_spans(
            shortcut,
        )[1].0.len(),
{
    reveal_strlit("[");
    reveal_strlit("]");
    reveal_strlit(" ");
}

/// Help scrolls as far as its last line and no further.
pub proof fn help_scrolls_to_its_end(lines: Seq<HelpText>, visible: int, offset: int)
    requires
        1 <= visible,
        0 <= offset,
    ensures
        0 <= scrolled(lines.len() as int, visible, offset),
        lines.len() <= visible ==> scrolled(lines.len() as int, visible, offset) == 0
            && visible_help(lines, visible, offset).len() == lines.len(),
        lines.len() > visible ==> scrolled(lines.len() as int, visible, offset) + visible
            <= lines.len() && visible_help(lines, visible, offset).len() == visible,
        offset + visible <= lines.len() ==> scrolled(lines.len() as int, visible, offset) == offset,
{
}

} // verus!
