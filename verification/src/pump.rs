use vstd::prelude::*;

verus! {

/// The two states of the event pump.
#[derive(Debug, Clone, Copy, PartialEq, Eq, Structural)]
pub enum PumpState {
    WaitForEvent,
    DrainPending,
}

/// Until when the pump asks the native layer for the next event.
#[derive(Debug, Clone, Copy, PartialEq, Eq, Structural)]
pub enum Deadline {
    /// Wait for as long as it takes.
    DistantFuture,
    /// Take only what is already there.
    DistantPast,
}

/// What the pump does with the answer of the native layer.
#[derive(Debug, Clone, Copy, PartialEq, Eq, Structural)]
pub enum PumpAction {
    /// Nothing came; ask again.
    Nothing,
    /// Tell the window of the event that the event loop rose.
    NotifyWindow,
    /// Hand the event to the standard native dispatch.
    SendEvent,
    /// Update the windows, then call the callback once.
    FinishIteration,
}

/// What the pump reads of a native event.
#[derive(Debug, Clone, Copy, PartialEq, Eq, Structural)]
pub struct NativeEvent {
    pub event_type: u64,
    pub subtype: i16,
}

/// Event type of the events that the application defines for itself.
pub const APPLICATION_DEFINED: u64 = 15;

/// Subtype of the application-defined event that reports an activation.
pub const APPLICATION_ACTIVATED: i16 = 1;

/// Whether the event is the application-defined report of an activation.
pub open spec fn is_activation(event: NativeEvent) -> bool {
    event.event_type == APPLICATION_DEFINED && event.subtype == APPLICATION_ACTIVATED
}

/// Whether the subtype of an event of this type is read at all.
pub open spec fn carries_subtype(event_type: u64) -> bool {
    event_type == APPLICATION_DEFINED
}

impl NativeEvent {
    /// Says whether an event of this type has a subtype worth reading: only
    /// application-defined events do. For any other event the subtype is
    /// never looked at and may be given as zero.
    pub fn reads_subtype(event_type: u64) -> (r: bool)
        ensures
            r == carries_subtype(event_type),
            !r ==> forall|a: i16, b: i16|
                is_activation(NativeEvent { event_type, subtype: a }) == is_activation(
                    NativeEvent { event_type, subtype: b },
                ),
    {
        event_type == APPLICATION_DEFINED
    }
}

/// One step of the pump: from its state and what the native layer delivered
/// to its next state and what to do.
pub open spec fn pump_step(state: PumpState, delivered: Option<NativeEvent>) -> (
    PumpState,
    PumpAction,
) {
    match (state, delivered) {
        (PumpState::WaitForEvent, None) => (PumpState::WaitForEvent, PumpAction::Nothing),
        (PumpState::WaitForEvent, Some(event)) => if is_activation(event) {
            (PumpState::DrainPending, PumpAction::NotifyWindow)
        } else {
            (PumpState::DrainPending, PumpAction::SendEvent)
        },
        (PumpState::DrainPending, Some(_)) => (PumpState::DrainPending, PumpAction::SendEvent),
        (PumpState::DrainPending, None) => (PumpState::WaitForEvent, PumpAction::FinishIteration),
    }
}

/// The deadline that goes with a pump state.
pub open spec fn deadline_of(state: PumpState) -> Deadline {
    match state {
        PumpState::WaitForEvent => Deadline::DistantFuture,
        PumpState::DrainPending => Deadline::DistantPast,
    }
}

/// The event pump of a running application.
pub struct EventPump {
    state: PumpState,
}

impl EventPump {
    /// A pump that waits for its first event.
    pub fn new() -> (r: EventPump)
        ensures
            r.state() == PumpState::WaitForEvent,
    {
        EventPump { state: PumpState::WaitForEvent }
    }

    /// The state the pump is in.
    pub closed spec fn state(&self) -> PumpState {
        self.state
    }

    /// The state the pump is in.
    pub fn current_state(&self) -> (r: PumpState)
        ensures
            r == self.state(),
    {
        self.state
    }

    /// Until when the next request for a native event may wait: without end
    /// while waiting for an event, not at all while draining.
    pub fn deadline(&self) -> (r: Deadline)
        ensures
            r == deadline_of(self.state()),
    {
        match self.state {
            PumpState::WaitForEvent => Deadline::DistantFuture,
            PumpState::DrainPending => Deadline::DistantPast,
        }
    }

    /// Takes what the native layer delivered, `None` where it had nothing,
    /// moves to the next state and says what to do with the event.
    pub fn on_event(&mut self, delivered: Option<NativeEvent>) -> (r: PumpAction)
        ensures
            (final(self).state(), r) == pump_step(old(self).state(), delivered),
    {
        match self.state {
            PumpState::WaitForEvent => match delivered {
                None => PumpAction::Nothing,
                Some(event) => {
                    self.state = PumpState::DrainPending;
                    if event.event_type == APPLICATION_DEFINED && event.subtype
                        == APPLICATION_ACTIVATED {
                        PumpAction::NotifyWindow
                    } else {
                        PumpAction::SendEvent
                    }
                },
            },
            PumpState::DrainPending => match delivered {
                Some(_) => PumpAction::SendEvent,
                None => {
                    self.state = PumpState::WaitForEvent;
                    PumpAction::FinishIteration
                },
            },
        }
    }
}

/// The state and the actions after the pump has taken each of `delivered`
/// in turn, the first one first.
pub open spec fn pump_run(state: PumpState, delivered: Seq<Option<NativeEvent>>) -> (
    PumpState,
    Seq<PumpAction>,
)
    decreases delivered.len(),
{
    if delivered.len() == 0 {
        (state, Seq::empty())
    } else {
        let (before, actions) = pump_run(state, delivered.drop_last());
        let (after, action) = pump_step(before, delivered.last());
        (after, actions.push(action))
    }
}

/// What the pump does with the event that ended its wait.
pub open spec fn first_action(event: NativeEvent) -> PumpAction {
    if is_activation(event) {
        PumpAction::NotifyWindow
    } else {
        PumpAction::SendEvent
    }
}

/// What the native layer delivers in one round: the event that ends the
/// wait, the events that were pending behind it, and then nothing.
pub open spec fn round_deliveries(first: NativeEvent, pending: Seq<NativeEvent>) -> Seq<
    Option<NativeEvent>,
> {
    seq![Some(first)] + pending.map_values(|e: NativeEvent| Some(e)) + seq![None]
}

/// What the pump does in one round: it handles the first event, sends every
/// pending event on, and finishes the round once.
pub open spec fn round_actions(first: NativeEvent, pending: Seq<NativeEvent>) -> Seq<PumpAction> {
    seq![first_action(first)] + Seq::new(pending.len(), |i: int| PumpAction::SendEvent)
        + seq![PumpAction::FinishIteration]
}

/// After the event that ended the wait and any number of pending events the
/// pump is draining, and it has sent every pending event on.
proof fn lemma_drain(first: NativeEvent, pending: Seq<NativeEvent>)
    ensures
        pump_run(
            PumpState::WaitForEvent,
            seq![Some(first)] + pending.map_values(|e: NativeEvent| Some(e)),
        ) == (
            PumpState::DrainPending,
            seq![first_action(first)] + Seq::new(pending.len(), |i: int| PumpAction::SendEvent),
        ),
    decreases pending.len(),
{
    let delivered = seq![Some(first)] + pending.map_values(|e: NativeEvent| Some(e));
    let actions = seq![first_action(first)] + Seq::new(
        pending.len(),
        |i: int| PumpAction::SendEvent,
    );
    if pending.len() == 0 {
        assert(delivered.drop_last() =~= Seq::<Option<NativeEvent>>::empty());
        assert(pump_run(PumpState::WaitForEvent, delivered.drop_last()) == (
            PumpState::WaitForEvent,
            Seq::<PumpAction>::empty(),
        ));
        assert(delivered.last() == Some(first));
        assert(Seq::<PumpAction>::empty().push(first_action(first)) =~= actions);
    } else {
        let shorter = pending.drop_last();
        lemma_drain(first, shorter);
        assert(delivered.drop_last() =~= seq![Some(first)] + shorter.map_values(
            |e: NativeEvent| Some(e),
        ));
        assert(delivered.last() == Some(pending.last()));
        assert((seq![first_action(first)] + Seq::new(
            shorter.len(),
            |i: int| PumpAction::SendEvent,
        )).push(PumpAction::SendEvent) =~= actions);
    }
}

/// One round of the pump, from the event that ends its wait to the moment
/// nothing is pending any more, handles the first event, sends each pending
/// event on in order, finishes the round exactly once, at its end, and
/// leaves the pump waiting again.
pub proof fn lemma_round_finishes_once(first: NativeEvent, pending: Seq<NativeEvent>)
    ensures
        pump_run(PumpState::WaitForEvent, round_deliveries(first, pending)) == (
            PumpState::WaitForEvent,
            round_actions(first, pending),
        ),
        forall|i: int|
            0 <= i < round_actions(first, pending).len() ==> (round_actions(first, pending)[i]
                == PumpAction::FinishIteration <==> i == pending.len() + 1),
{
    lemma_drain(first, pending);
    let delivered = round_deliveries(first, pending);
    assert(delivered.drop_last() =~= seq![Some(first)] + pending.map_values(
        |e: NativeEvent| Some(e),
    ));
    assert(delivered.last() == None::<NativeEvent>);
    assert((seq![first_action(first)] + Seq::new(
        pending.len(),
        |i: int| PumpAction::SendEvent,
    )).push(PumpAction::FinishIteration) =~= round_actions(first, pending));
}

} // verus!
