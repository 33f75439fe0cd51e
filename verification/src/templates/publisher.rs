//! The publisher: the linear machine that takes one template from nothing to
//! an image that is built, pushed and removed locally again.
//!
//! The machine decides; its caller performs. The caller asks which action is
//! due, performs it against the build engine, and reports what happened as an
//! event. A failure in any phase is final: no later phase is attempted.
use vstd::prelude::*;
use vstd::string::StringExecFns;

verus! {

/// What is reported when the engine removed nothing.
pub const REMOVAL_FAILED: &'static str = "Failed to remove image";

/// What is reported when an event arrives that the current phase cannot take.
pub const UNEXPECTED_EVENT: &'static str = "Unexpected event";

/// Where a publication stands.
#[derive(Debug)]
pub enum State {
    Idle,
    ContextBuilt,
    Building,
    Built,
    Pushing,
    Pushed,
    Cleaned,
    Failed(String),
}

/// A state as plain mathematical values.
pub enum StateView {
    Idle,
    ContextBuilt,
    Building,
    Built,
    Pushing,
    Pushed,
    Cleaned,
    Failed(Seq<char>),
}

impl View for State {
    type V = StateView;

    open spec fn view(&self) -> StateView {
        match self {
            State::Idle => StateView::Idle,
            State::ContextBuilt => StateView::ContextBuilt,
            State::Building => StateView::Building,
            State::Built => StateView::Built,
            State::Pushing => StateView::Pushing,
            State::Pushed => StateView::Pushed,
            State::Cleaned => StateView::Cleaned,
            State::Failed(reason) => StateView::Failed(reason@),
        }
    }
}

/// What the caller reports back to the machine.
#[derive(Debug)]
pub enum Event {
    /// The build context was assembled.
    ContextReady,
    /// The engine took the submission and its event stream is open.
    Started,
    /// One event of the open stream, with the error it carries, if any.
    Progress(Option<String>),
    /// The open stream is exhausted.
    Finished,
    /// The engine answered the removal with this many removed items.
    Removed(usize),
    /// The action could not be performed, or the stream broke.
    Fault(String),
}

/// An event as plain mathematical values.
pub enum EventView {
    ContextReady,
    Started,
    Progress(Option<Seq<char>>),
    Finished,
    Removed(usize),
    Fault(Seq<char>),
}

impl EventView {
    /// Whether this event reports a failure: a fault, an event of a stream
    /// that carries an error, or a removal that removed nothing.
    pub open spec fn is_failure(self) -> bool {
        match self {
            EventView::Fault(_) => true,
            EventView::Progress(error) => error is Some,
            EventView::Removed(count) => count == 0,
            _ => false,
        }
    }
}

impl View for Event {
    type V = EventView;

    open spec fn view(&self) -> EventView {
        match self {
            Event::ContextReady => EventView::ContextReady,
            Event::Started => EventView::Started,
            Event::Progress(error) => EventView::Progress(
                match error {
                    Some(message) => Some(message@),
                    None => None,
                },
            ),
            Event::Finished => EventView::Finished,
            Event::Removed(count) => EventView::Removed(*count),
            Event::Fault(message) => EventView::Fault(message@),
        }
    }
}

/// What the caller has to do next.
#[derive(Clone, Copy, Debug, PartialEq, Eq, Structural)]
pub enum Action {
    /// Assemble the build context.
    BuildContext,
    /// Submit the build context to the build engine.
    SubmitBuild,
    /// Take the next event from the open stream.
    Poll,
    /// Submit the image to the push engine.
    SubmitPush,
    /// Ask the engine to remove the local image.
    RemoveImage,
    /// Nothing: the publication is over.
    Stop,
}

impl Action {
    /// Whether this action calls the build, push or remove engine.
    pub open spec fn calls_engine(self) -> bool {
        self != Action::BuildContext && self != Action::Stop
    }
}

impl StateView {
    /// Whether the publication is over in this state.
    pub open spec fn is_terminal(self) -> bool {
        self is Cleaned || self is Failed
    }

    /// The state that the reason `UNEXPECTED_EVENT` fails into.
    pub open spec fn unexpected() -> StateView {
        StateView::Failed(UNEXPECTED_EVENT@)
    }

    /// The state after `event` was reported in this state.
    ///
    /// A terminal state takes no event. A fault fails the publication with its
    /// message. An event of a stream that carries an error fails it with that
    /// error. A removal that removed nothing fails it. An event that the
    /// phase does not expect fails it.
    pub open spec fn after(self, event: EventView) -> StateView {
        if self.is_terminal() {
            self
        } else {
            match event {
                EventView::Fault(message) => StateView::Failed(message),
                EventView::ContextReady => if self is Idle {
                    StateView::ContextBuilt
                } else {
                    Self::unexpected()
                },
                EventView::Started => match self {
                    StateView::ContextBuilt => StateView::Building,
                    StateView::Built => StateView::Pushing,
                    _ => Self::unexpected(),
                },
                EventView::Progress(error) => if self is Building || self is Pushing {
                    match error {
                        Some(message) => StateView::Failed(message),
                        None => self,
                    }
                } else {
                    Self::unexpected()
                },
                EventView::Finished => match self {
                    StateView::Building => StateView::Built,
                    StateView::Pushing => StateView::Pushed,
                    _ => Self::unexpected(),
                },
                EventView::Removed(count) => if self is Pushed {
                    if count == 0 {
                        StateView::Failed(REMOVAL_FAILED@)
                    } else {
                        StateView::Cleaned
                    }
                } else {
                    Self::unexpected()
                },
            }
        }
    }

    /// The state after all of `events` were reported, first to last.
    pub open spec fn after_all(self, events: Seq<EventView>) -> StateView
        decreases events.len(),
    {
        if events.len() == 0 {
            self
        } else {
            self.after(events[0]).after_all(events.drop_first())
        }
    }

    /// The action that is due in this state.
    pub open spec fn action(self) -> Action {
        match self {
            StateView::Idle => Action::BuildContext,
            StateView::ContextBuilt => Action::SubmitBuild,
            StateView::Building => Action::Poll,
            StateView::Built => Action::SubmitPush,
            StateView::Pushing => Action::Poll,
            StateView::Pushed => Action::RemoveImage,
            StateView::Cleaned => Action::Stop,
            StateView::Failed(_) => Action::Stop,
        }
    }
}

/// The machine of one publication.
#[derive(Debug)]
pub struct Publisher {
    pub state: State,
}

impl Publisher {
    /// A publication that has not begun.
    pub fn new() -> (publisher: Publisher)
        ensures
            publisher.state@ == StateView::Idle,
    {
        Publisher { state: State::Idle }
    }

    /// Whether the publication is over.
    pub fn is_terminal(&self) -> (over: bool)
        ensures
            over == self.state@.is_terminal(),
    {
        matches!(self.state, State::Cleaned) || matches!(self.state, State::Failed(_))
    }

    /// The action that the caller has to perform now.
    pub fn action(&self) -> (action: Action)
        ensures
            action == self.state@.action(),
    {
        match &self.state {
            State::Idle => Action::BuildContext,
            State::ContextBuilt => Action::SubmitBuild,
            State::Building => Action::Poll,
            State::Built => Action::SubmitPush,
            State::Pushing => Action::Poll,
            State::Pushed => Action::RemoveImage,
            State::Cleaned => Action::Stop,
            State::Failed(_) => Action::Stop,
        }
    }

    /// Takes what the caller reports and moves to the next state.
    pub fn step(&mut self, event: Event)
        ensures
            final(self).state@ == old(self).state@.after(event@),
    {
        if self.is_terminal() {
            return ;
        }
        let next = match event {
            Event::Fault(message) => State::Failed(message),
            Event::ContextReady => {
                if matches!(self.state, State::Idle) {
                    State::ContextBuilt
                } else {
                    State::Failed(String::from_str(UNEXPECTED_EVENT))
                }
            },
            Event::Started => {
                if matches!(self.state, State::ContextBuilt) {
                    State::Building
                } else if matches!(self.state, State::Built) {
                    State::Pushing
                } else {
                    State::Failed(String::from_str(UNEXPECTED_EVENT))
                }
            },
            Event::Progress(error) => {
                let building = matches!(self.state, State::Building);
                let pushing = matches!(self.state, State::Pushing);
                if building || pushing {
                    match error {
                        Some(message) => State::Failed(message),
                        None => if building {
                            State::Building
                        } else {
                            State::Pushing
                        },
                    }
                } else {
                    State::Failed(String::from_str(UNEXPECTED_EVENT))
                }
            },
            Event::Finished => {
                if matches!(self.state, State::Building) {
                    State::Built
                } else if matches!(self.state, State::Pushing) {
                    State::Pushed
                } else {
                    State::Failed(String::from_str(UNEXPECTED_EVENT))
                }
            },
            Event::Removed(count) => {
                if matches!(self.state, State::Pushed) {
                    if count == 0 {
                        State::Failed(String::from_str(REMOVAL_FAILED))
                    } else {
                        State::Cleaned
                    }
                } else {
                    State::Failed(String::from_str(UNEXPECTED_EVENT))
                }
            },
        };
        self.state = next;
    }

    /// How the publication ended: `None` while it is under way, `Ok` when the
    /// image was built, pushed and removed, and the reason when it failed.
    pub fn outcome(&self) -> (outcome: Option<Result<(), String>>)
        ensures
            !self.state@.is_terminal() ==> outcome is None,
            self.state@ is Cleaned ==> outcome == Some(Ok::<(), String>(())),
            self.state@ matches StateView::Failed(reason) ==> (outcome matches Some(Err(text))
                && text@ == reason),
    {
        match &self.state {
            State::Cleaned => Some(Ok(())),
            State::Failed(reason) => Some(Err(reason.clone())),
            _ => None,
        }
    }
}

/// A terminal state takes no event: whatever is reported afterwards, the
/// state stays, and the action that is due is `Stop`.
pub proof fn lemma_terminal_is_final(state: StateView, events: Seq<EventView>)
    requires
        state.is_terminal(),
    ensures
        state.after_all(events) == state,
        state.after_all(events).action() == Action::Stop,
    decreases events.len(),
{
    if events.len() > 0 {
        lemma_terminal_is_final(state, events.drop_first());
    }
}

/// Reporting `first` and then `rest` is reporting them one after the other.
pub proof fn lemma_after_all_concat(state: StateView, first: Seq<EventView>, rest: Seq<EventView>)
    ensures
        state.after_all(first + rest) == state.after_all(first).after_all(rest),
    decreases first.len(),
{
    if first.len() == 0 {
        assert(first + rest =~= rest);
    } else {
        assert((first + rest).drop_first() =~= first.drop_first() + rest);
        lemma_after_all_concat(state.after(first[0]), first.drop_first(), rest);
    }
}

/// An error in a stream halts the publication. Let `before` lead from the
/// start to a state in which a stream is open (building or pushing), and let
/// the next event of that stream carry the error `message`. Then the machine
/// has failed with `message`, and however many of the events `later` are
/// still reported, it stays so and asks for no call of any engine.
pub proof fn lemma_stream_error_halts(
    before: Seq<EventView>,
    message: Seq<char>,
    later: Seq<EventView>,
    reported: int,
)
    requires
        StateView::Idle.after_all(before) is Building || StateView::Idle.after_all(before)
            is Pushing,
        0 <= reported <= later.len(),
    ensures
        StateView::Idle.after_all(
            before + seq![EventView::Progress(Some(message))] + later.take(reported),
        ) == StateView::Failed(message),
        !StateView::Idle.after_all(
            before + seq![EventView::Progress(Some(message))] + later.take(reported),
        ).action().calls_engine(),
{
    let error = seq![EventView::Progress(Some(message))];
    let open = StateView::Idle.after_all(before);
    lemma_after_all_concat(StateView::Idle, before + error, later.take(reported));
    lemma_after_all_concat(StateView::Idle, before, error);
    assert(error.drop_first() =~= Seq::<EventView>::empty());
    assert(open.after_all(error) == open.after(error[0]).after_all(error.drop_first()));
    assert(open.after_all(error) == StateView::Failed(message));
    lemma_terminal_is_final(StateView::Failed(message), later.take(reported));
}

/// A failure at any position ends the publication. If any of the events
/// that were reported is a failure, then the machine is in a terminal state
/// after them, whatever state it began in, and asks for no call of any
/// engine. So a state in which a push or a removal is due is reached only
/// where no event before it was a failure.
pub proof fn lemma_failure_is_terminal(state: StateView, events: Seq<EventView>, at: int)
    requires
        0 <= at < events.len(),
        events[at].is_failure(),
    ensures
        state.after_all(events).is_terminal(),
        !state.after_all(events).action().calls_engine(),
    decreases events.len(),
{
    if at == 0 {
        lemma_terminal_is_final(state.after(events[0]), events.drop_first());
    } else {
        lemma_failure_is_terminal(state.after(events[0]), events.drop_first(), at - 1);
    }
}

/// A failure reported while the publication is under way makes it fail: the
/// state after it is `Failed`, never `Cleaned`.
pub proof fn lemma_failure_fails(state: StateView, event: EventView)
    requires
        !state.is_terminal(),
        event.is_failure(),
    ensures
        state.after(event) is Failed,
{
}

/// A removal that removed nothing is a failure: from the state in which the
/// image is pushed, it leads to `Failed` with the reason `REMOVAL_FAILED`,
/// never to `Cleaned`.
pub proof fn lemma_empty_removal_fails()
    ensures
        StateView::Pushed.after(EventView::Removed(0)) == StateView::Failed(REMOVAL_FAILED@),
        forall|count: usize|
            count > 0 ==> #[trigger] StateView::Pushed.after(EventView::Removed(count))
                == StateView::Cleaned,
{
}

/// The publication ends in `Cleaned` only through the removal of at least
/// one item in the state `Pushed`: one step reaches `Cleaned` from no other
/// state and on no other event.
pub proof fn lemma_cleaned_only_after_removal(state: StateView, event: EventView)
    requires
        !(state is Cleaned),
        state.after(event) is Cleaned,
    ensures
        state is Pushed,
        event matches EventView::Removed(count) && count > 0,
{
}

/// Without a fault, an error or a misplaced event the machine walks its
/// phases in order and ends in `Cleaned`.
pub proof fn lemma_clean_run(removed: usize)
    requires
        removed > 0,
    ensures
        StateView::Idle.after_all(
            seq![
                EventView::ContextReady,
                EventView::Started,
                EventView::Progress(None),
                EventView::Finished,
                EventView::Started,
                EventView::Progress(None),
                EventView::Finished,
                EventView::Removed(removed),
            ],
        ) == StateView::Cleaned,
{
    reveal_with_fuel(StateView::after_all, 10);
    let events = seq![
        EventView::ContextReady,
        EventView::Started,
        EventView::Progress(None),
        EventView::Finished,
        EventView::Started,
        EventView::Progress(None),
        EventView::Finished,
        EventView::Removed(removed),
    ];
    let e1 = events.drop_first();
    let e2 = e1.drop_first();
    let e3 = e2.drop_first();
    let e4 = e3.drop_first();
    let e5 = e4.drop_first();
    let e6 = e5.drop_first();
    let e7 = e6.drop_first();
    let e8 = e7.drop_first();
    assert(e8.len() == 0);
}

} // verus!
