//! The ingestion loop, one turn at a time.
//!
//! The loop has a single state, reading. Whatever happens around it comes in
//! as an [`Event`], and each event is answered with the [`Action`] to take
//! next. Only the end of the input stream ends the loop: a line that holds
//! no message, a read that fails and a record that the store refuses are
//! each reported, and the loop reads on.

use crate::error::{ErrorView, IngestError};
use crate::message::{message_of_line, MessageView, UplinkMessage};
use vstd::prelude::*;

verus! {

/// What happened around the loop.
#[derive(Clone, Debug, PartialEq, Eq)]
pub enum Event {
    /// The input stream gave its next line; the text is the line without its
    /// line ending.
    Line(String),
    /// Reading the input stream failed; the text is the stream's own report.
    ReadFailed(String),
    /// The input stream has ended.
    EndOfInput,
    /// The store took the record that was handed to it.
    Stored,
    /// The store refused the record that was handed to it; the text is the
    /// store's own report.
    StoreFailed(String),
}

/// An [`Event`] as a mathematical value.
pub enum EventView {
    Line(Seq<char>),
    ReadFailed(Seq<char>),
    EndOfInput,
    Stored,
    StoreFailed(Seq<char>),
}

impl View for Event {
    type V = EventView;

    open spec fn view(&self) -> EventView {
        match self {
            Event::Line(line) => EventView::Line(line@),
            Event::ReadFailed(report) => EventView::ReadFailed(report@),
            Event::EndOfInput => EventView::EndOfInput,
            Event::Stored => EventView::Stored,
            Event::StoreFailed(report) => EventView::StoreFailed(report@),
        }
    }
}

/// What the loop is to do next.
#[derive(Clone, Debug, PartialEq, Eq)]
pub enum Action {
    /// Log the message, then hand it to the store, and come back with
    /// [`Event::Stored`] or [`Event::StoreFailed`].
    Persist(UplinkMessage),
    /// Report the error, then read the input stream.
    Report(IngestError),
    /// Read the input stream.
    Read,
    /// Leave the loop.
    Stop,
}

/// An [`Action`] as a mathematical value.
pub enum ActionView {
    Persist(MessageView),
    Report(ErrorView),
    Read,
    Stop,
}

impl View for Action {
    type V = ActionView;

    open spec fn view(&self) -> ActionView {
        match self {
            Action::Persist(message) => ActionView::Persist(message@),
            Action::Report(error) => ActionView::Report(error@),
            Action::Read => ActionView::Read,
            Action::Stop => ActionView::Stop,
        }
    }
}

/// What taking in the line `line` gives: its message, or the reason why it
/// holds none.
pub open spec fn line_outcome(line: Seq<char>) -> Result<MessageView, ErrorView> {
    match message_of_line(line) {
        Ok(message) => Ok(message),
        Err(error) => Err(ErrorView::Format(error)),
    }
}

/// The action that answers `event`.
pub open spec fn action_for(event: EventView) -> ActionView {
    match event {
        EventView::Line(line) => match line_outcome(line) {
            Ok(message) => ActionView::Persist(message),
            Err(error) => ActionView::Report(error),
        },
        EventView::ReadFailed(report) => ActionView::Report(ErrorView::Io(report)),
        EventView::EndOfInput => ActionView::Stop,
        EventView::Stored => ActionView::Read,
        EventView::StoreFailed(report) => ActionView::Report(ErrorView::Store(report)),
    }
}

/// The actions that the loop takes on `events`, in order: one for each event
/// up to and including the first end of the input stream.
pub open spec fn actions_for(events: Seq<EventView>) -> Seq<ActionView>
    decreases events.len(),
{
    if events.len() == 0 {
        Seq::empty()
    } else if events[0] is EndOfInput {
        seq![ActionView::Stop]
    } else {
        seq![action_for(events[0])] + actions_for(events.drop_first())
    }
}

/// Reads the uplink message of one line.
///
/// The caller logs the message and then hands it to the store; a line that
/// holds no message gives nothing to log and nothing to store.
pub fn process_line(line: &str) -> (outcome: Result<UplinkMessage, IngestError>)
    ensures
        match line_outcome(line@) {
            Ok(message) => outcome is Ok && outcome->Ok_0@ == message,
            Err(error) => outcome is Err && outcome->Err_0@ == error,
        },
{
    match UplinkMessage::from_line(line) {
        Ok(message) => Ok(message),
        Err(error) => Err(IngestError::from(error)),
    }
}

/// Decides one turn of the loop.
pub fn next_action(event: Event) -> (action: Action)
    ensures
        action@ == action_for(event@),
{
    match event {
        Event::Line(line) => match process_line(line.as_str()) {
            Ok(message) => Action::Persist(message),
            Err(error) => Action::Report(error),
        },
        Event::ReadFailed(report) => Action::Report(IngestError::Io(report)),
        Event::EndOfInput => Action::Stop,
        Event::Stored => Action::Read,
        Event::StoreFailed(report) => Action::Report(IngestError::Store(report)),
    }
}

/// Only the end of the input stream ends the loop.
pub proof fn stops_only_at_the_end(event: EventView)
    ensures
        action_for(event) is Stop <==> event is EndOfInput,
{
}

/// A line is logged and stored exactly where it holds a message, and reported
/// exactly where it holds none.
pub proof fn a_line_is_persisted_or_reported(line: Seq<char>)
    ensures
        message_of_line(line) is Ok <==> action_for(EventView::Line(line)) is Persist,
        message_of_line(line) is Err <==> action_for(EventView::Line(line)) is Report,
{
}

/// The loop takes no more actions than it was given events, and exactly as
/// many where the input stream does not end among them.
pub proof fn one_action_for_each_event(events: Seq<EventView>)
    ensures
        actions_for(events).len() <= events.len(),
        (forall|at: int| 0 <= at < events.len() ==> !(events[at] is EndOfInput)) ==> actions_for(
            events,
        ).len() == events.len(),
    decreases events.len(),
{
    if events.len() > 0 && !(events[0] is EndOfInput) {
        let rest = events.drop_first();
        one_action_for_each_event(rest);
        if forall|at: int| 0 <= at < events.len() ==> !(events[at] is EndOfInput) {
            assert forall|at: int| 0 <= at < rest.len() implies !(rest[at] is EndOfInput) by {
                assert(rest[at] == events[at + 1]);
            }
        }
    }
}

/// Each event up to the end of the input stream is answered by its own
/// action, and that action depends on this event alone: what came before it
/// or comes after it changes nothing.
pub proof fn each_event_is_answered_alone(events: Seq<EventView>, at: int)
    requires
        0 <= at < events.len(),
        forall|before: int| 0 <= before < at ==> !(events[before] is EndOfInput),
    ensures
        at < actions_for(events).len(),
        actions_for(events)[at] == action_for(events[at]),
    decreases events.len(),
{
    if at > 0 {
        let rest = events.drop_first();
        assert(!(events[0] is EndOfInput));
        assert forall|before: int| 0 <= before < at - 1 implies !(rest[before] is EndOfInput) by {
            assert(rest[before] == events[before + 1]);
        }
        each_event_is_answered_alone(rest, at - 1);
        assert(rest[at - 1] == events[at]);
    }
}

/// A line that holds no message, between two that hold one, costs neither of
/// them: the loop persists the first message, reports the one error, and
/// persists the second message.
pub proof fn a_malformed_line_is_isolated(first: Seq<char>, bad: Seq<char>, last: Seq<char>)
    requires
        message_of_line(first) is Ok,
        message_of_line(bad) is Err,
        message_of_line(last) is Ok,
    ensures
        actions_for(
            seq![
                EventView::Line(first),
                EventView::Stored,
                EventView::Line(bad),
                EventView::Line(last),
                EventView::Stored,
                EventView::EndOfInput,
            ],
        ) == seq![
            ActionView::Persist(message_of_line(first)->Ok_0),
            ActionView::Read,
            ActionView::Report(ErrorView::Format(message_of_line(bad)->Err_0)),
            ActionView::Persist(message_of_line(last)->Ok_0),
            ActionView::Read,
            ActionView::Stop,
        ],
{
    let events = seq![
        EventView::Line(first),
        EventView::Stored,
        EventView::Line(bad),
        EventView::Line(last),
        EventView::Stored,
        EventView::EndOfInput,
    ];
    one_action_for_each_event(events);
    each_event_is_answered_alone(events, 0);
    each_event_is_answered_alone(events, 1);
    each_event_is_answered_alone(events, 2);
    each_event_is_answered_alone(events, 3);
    each_event_is_answered_alone(events, 4);
    each_event_is_answered_alone(events, 5);
    assert(actions_for(events) =~= seq![
        ActionView::Persist(message_of_line(first)->Ok_0),
        ActionView::Read,
        ActionView::Report(ErrorView::Format(message_of_line(bad)->Err_0)),
        ActionView::Persist(message_of_line(last)->Ok_0),
        ActionView::Read,
        ActionView::Stop,
    ]);
}

} // verus!
