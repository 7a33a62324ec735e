//! What the engine does with an event while the user searches history:
//! the decision, apart from the history and the terminal it acts on.
use vstd::prelude::*;

use crate::enums::{
    events_view, lemma_events_view_len, EditCommand, EventStatus, EventView, MouseButton,
    ReedlineEvent, Signal,
};

verus! {

/// What the engine does with one event during a history search.
#[derive(Debug, PartialEq, Eq)]
pub enum SearchStep {
    /// Leave the search, forget the undo history and end the session
    /// with Ctrl-D.
    ExitOnCtrlD,
    /// Leave the search and end the session with Ctrl-C.
    ExitOnCtrlC,
    /// Hand the terminal to the host for this command.
    HostCommand(String),
    /// Run the commands on the search line.
    RunCommands(Vec<EditCommand>),
    ClearScreen,
    ClearScrollback,
    /// Put the entry found into the line and leave the search.
    Accept,
    /// Move the cursor to the clicked cell.
    Click { column: u16, row: u16 },
    Resize(u16, u16),
    /// Nothing to do but paint again.
    Repaint,
    /// Go to an older match.
    Older,
    /// Go to a newer match, staying put when there is none.
    Newer,
    /// Leave the search and go back to editing.
    Leave,
    /// The event means nothing during a search.
    Inapplicable,
}

/// The mathematical value of a [`SearchStep`].
pub enum SearchStepView {
    ExitOnCtrlD,
    ExitOnCtrlC,
    HostCommand(Seq<char>),
    RunCommands(Seq<EditCommand>),
    ClearScreen,
    ClearScrollback,
    Accept,
    Click { column: u16, row: u16 },
    Resize(u16, u16),
    Repaint,
    Older,
    Newer,
    Leave,
    Inapplicable,
}

impl View for SearchStep {
    type V = SearchStepView;

    open spec fn view(&self) -> SearchStepView {
        match self {
            SearchStep::ExitOnCtrlD => SearchStepView::ExitOnCtrlD,
            SearchStep::ExitOnCtrlC => SearchStepView::ExitOnCtrlC,
            SearchStep::HostCommand(s) => SearchStepView::HostCommand(s@),
            SearchStep::RunCommands(v) => SearchStepView::RunCommands(v@),
            SearchStep::ClearScreen => SearchStepView::ClearScreen,
            SearchStep::ClearScrollback => SearchStepView::ClearScrollback,
            SearchStep::Accept => SearchStepView::Accept,
            SearchStep::Click { column, row } => SearchStepView::Click { column: *column, row: *row },
            SearchStep::Resize(w, h) => SearchStepView::Resize(*w, *h),
            SearchStep::Repaint => SearchStepView::Repaint,
            SearchStep::Older => SearchStepView::Older,
            SearchStep::Newer => SearchStepView::Newer,
            SearchStep::Leave => SearchStepView::Leave,
            SearchStep::Inapplicable => SearchStepView::Inapplicable,
        }
    }
}

/// What the event `e` does during a history search, with `line_empty`
/// telling whether the search line is empty. Of the events tried in
/// turn, the first that means something is taken.
pub open spec fn search_step(e: EventView, line_empty: bool) -> SearchStepView
    decreases e,
{
    match e {
        EventView::UntilFound(es) => first_applicable(es, line_empty),
        EventView::CtrlD => if line_empty {
            SearchStepView::ExitOnCtrlD
        } else {
            SearchStepView::RunCommands(seq![EditCommand::Delete])
        },
        EventView::CtrlC => SearchStepView::ExitOnCtrlC,
        EventView::ClearScreen => SearchStepView::ClearScreen,
        EventView::ClearScrollback => SearchStepView::ClearScrollback,
        EventView::Enter | EventView::HistoryHintComplete | EventView::Submit
        | EventView::SubmitOrNewline => SearchStepView::Accept,
        EventView::ExecuteHostCommand(s) => SearchStepView::HostCommand(s),
        EventView::Edit(c) => SearchStepView::RunCommands(c),
        EventView::Mouse { column, row, button } => if button == MouseButton::Left {
            SearchStepView::Click { column, row }
        } else {
            SearchStepView::Repaint
        },
        EventView::Resize(w, h) => SearchStepView::Resize(w, h),
        EventView::Repaint => SearchStepView::Repaint,
        EventView::PreviousHistory | EventView::Up | EventView::SearchHistory => SearchStepView::Older,
        EventView::NextHistory | EventView::Down => SearchStepView::Newer,
        EventView::Esc => SearchStepView::Leave,
        _ => SearchStepView::Inapplicable,
    }
}

/// The step of the first of `es` that means something during a search.
pub open spec fn first_applicable(es: Seq<EventView>, line_empty: bool) -> SearchStepView
    decreases es,
{
    if es.len() == 0 {
        SearchStepView::Inapplicable
    } else {
        let first = search_step(es[0], line_empty);
        if first != SearchStepView::Inapplicable {
            first
        } else {
            first_applicable(es.drop_first(), line_empty)
        }
    }
}

/// Decides what `event` does while history is searched.
pub fn history_search_step(event: &ReedlineEvent, line_empty: bool) -> (r: SearchStep)
    ensures
        r@ == search_step(event@, line_empty),
    decreases event,
{
    match event {
        ReedlineEvent::UntilFound(events) => {
            let mut i: usize = 0;
            proof {
                lemma_events_view_len(events@);
                assert(events_view(events@).skip(0) == events_view(events@));
            }
            while i < events.len()
                invariant
                    *event == ReedlineEvent::UntilFound(*events),
                    event@ == EventView::UntilFound(events_view(events@)),
                    i <= events@.len(),
                    events_view(events@).len() == events@.len(),
                    forall|j: int|
                        0 <= j < events@.len() ==> #[trigger] events_view(events@)[j]
                            == events@[j]@,
                    first_applicable(events_view(events@).skip(i as int), line_empty)
                        == search_step(event@, line_empty),
                decreases events.len() - i,
            {
                proof {
                    assert(decreases_to!(event => events@[i as int]));
                }
                let step = history_search_step(&events[i], line_empty);
                let ghost rest = events_view(events@).skip(i as int);
                proof {
                    assert(rest[0] == events@[i as int]@);
                    assert(rest.drop_first() == events_view(events@).skip(i + 1));
                }
                if !matches!(step, SearchStep::Inapplicable) {
                    return step;
                }
                i = i + 1;
            }
            SearchStep::Inapplicable
        },
        ReedlineEvent::CtrlD => if line_empty {
            SearchStep::ExitOnCtrlD
        } else {
            let v = vec![EditCommand::Delete];
            proof {
                assert(v@ == seq![EditCommand::Delete]);
            }
            SearchStep::RunCommands(v)
        },
        ReedlineEvent::CtrlC => SearchStep::ExitOnCtrlC,
        ReedlineEvent::ClearScreen => SearchStep::ClearScreen,
        ReedlineEvent::ClearScrollback => SearchStep::ClearScrollback,
        ReedlineEvent::Enter | ReedlineEvent::HistoryHintComplete | ReedlineEvent::Submit
        | ReedlineEvent::SubmitOrNewline => SearchStep::Accept,
        ReedlineEvent::ExecuteHostCommand(s) => SearchStep::HostCommand(s.clone()),
        ReedlineEvent::Edit(v) => {
            let mut w: Vec<EditCommand> = Vec::new();
            let mut i: usize = 0;
            while i < v.len()
                invariant
                    i <= v.len(),
                    w@ == v@.take(i as int),
                decreases v.len() - i,
            {
                w.push(v[i].duplicate());
                proof {
                    assert(v@.take(i + 1) == v@.take(i as int).push(v@[i as int]));
                }
                i = i + 1;
            }
            proof {
                assert(v@.take(v.len() as int) == v@);
            }
            SearchStep::RunCommands(w)
        },
        ReedlineEvent::Mouse { column, row, button } => if *button == MouseButton::Left {
            SearchStep::Click { column: *column, row: *row }
        } else {
            SearchStep::Repaint
        },
        ReedlineEvent::Resize(w, h) => SearchStep::Resize(*w, *h),
        ReedlineEvent::Repaint => SearchStep::Repaint,
        ReedlineEvent::PreviousHistory | ReedlineEvent::Up | ReedlineEvent::SearchHistory => SearchStep::Older,
        ReedlineEvent::NextHistory | ReedlineEvent::Down => SearchStep::Newer,
        ReedlineEvent::Esc => SearchStep::Leave,
        _ => SearchStep::Inapplicable,
    }
}

impl SearchStep {
    /// How the engine reports the step: an exit ends the session, a step
    /// that does nothing is inapplicable, and any other was handled.
    pub fn status(&self) -> (r: EventStatus)
        ensures
            match self@ {
                SearchStepView::ExitOnCtrlD => r == EventStatus::Exits(Signal::CtrlD),
                SearchStepView::ExitOnCtrlC => r == EventStatus::Exits(Signal::CtrlC),
                SearchStepView::HostCommand(c) => r matches EventStatus::Exits(Signal::HostCommand(s))
                    && s@ == c,
                SearchStepView::Inapplicable => r == EventStatus::Inapplicable,
                _ => r == EventStatus::Handled,
            },
    {
        match self {
            SearchStep::ExitOnCtrlD => EventStatus::Exits(Signal::CtrlD),
            SearchStep::ExitOnCtrlC => EventStatus::Exits(Signal::CtrlC),
            SearchStep::HostCommand(c) => EventStatus::Exits(Signal::HostCommand(c.clone())),
            SearchStep::Inapplicable => EventStatus::Inapplicable,
            _ => EventStatus::Handled,
        }
    }
}

/// During a history search the arrows and history keys walk the matches
/// in two opposite directions, whether or not the search line is empty:
/// `Up`, `PreviousHistory` and `SearchHistory` go to an older match,
/// `Down` and `NextHistory` to a newer one.
pub proof fn search_directions(line_empty: bool)
    ensures
        search_step(EventView::Up, line_empty) == SearchStepView::Older,
        search_step(EventView::PreviousHistory, line_empty) == SearchStepView::Older,
        search_step(EventView::SearchHistory, line_empty) == SearchStepView::Older,
        search_step(EventView::Down, line_empty) == SearchStepView::Newer,
        search_step(EventView::NextHistory, line_empty) == SearchStepView::Newer,
        search_step(EventView::Up, line_empty) != search_step(EventView::Down, line_empty),
        search_step(EventView::PreviousHistory, line_empty) != search_step(
            EventView::NextHistory,
            line_empty,
        ),
{
}

/// Trying `a` then `b` takes the first of `a` that applies, else the
/// first of `b`.
proof fn lemma_first_applicable_append(a: Seq<EventView>, b: Seq<EventView>, line_empty: bool)
    ensures
        first_applicable(a + b, line_empty) == (if first_applicable(a, line_empty)
            != SearchStepView::Inapplicable {
            first_applicable(a, line_empty)
        } else {
            first_applicable(b, line_empty)
        }),
    decreases a.len(),
{
    if a.len() == 0 {
        assert(a + b =~= b);
    } else {
        assert((a + b)[0] == a[0]);
        assert((a + b).drop_first() =~= a.drop_first() + b);
        lemma_first_applicable_append(a.drop_first(), b, line_empty);
    }
}

/// A group of alternatives none of which applies during a search
/// reports that, so an enclosing group goes on trying: nesting a group
/// first among the alternatives is the same as listing its events in
/// its place.
pub proof fn nested_alternatives_flatten(a: Seq<EventView>, b: Seq<EventView>, line_empty: bool)
    ensures
        search_step(EventView::UntilFound(seq![EventView::UntilFound(a)] + b), line_empty)
            == search_step(EventView::UntilFound(a + b), line_empty),
{
    let outer = seq![EventView::UntilFound(a)] + b;
    assert(outer[0] == EventView::UntilFound(a));
    assert(outer.drop_first() =~= b);
    lemma_first_applicable_append(a, b, line_empty);
    assert(search_step(EventView::UntilFound(a), line_empty) == first_applicable(a, line_empty));
    assert(search_step(EventView::UntilFound(outer), line_empty) == first_applicable(outer, line_empty));
    assert(search_step(EventView::UntilFound(a + b), line_empty) == first_applicable(a + b, line_empty));
    assert(first_applicable(outer, line_empty) == (if first_applicable(a, line_empty)
        != SearchStepView::Inapplicable {
        first_applicable(a, line_empty)
    } else {
        first_applicable(b, line_empty)
    }));
}

} // verus!
