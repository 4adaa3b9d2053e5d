use vstd::prelude::*;

verus! {

/// A menu command the user asked for.
#[derive(Debug, Clone, Copy, PartialEq, Eq, Structural)]
pub enum Command {
    ClearHistory,
    ToggleDarkTheme,
}

/// What the application layer is told about.
#[derive(Debug, Clone, Copy, PartialEq, Eq, Structural)]
pub enum AppEvent {
    DidFinishLaunching,
    WillTerminate,
    DidChangeScreenParameters,
    DoCommand(Command),
}

/// The queue after each event of `events` has been appended to `queue`, the
/// first one first.
pub open spec fn after_pushes(queue: Seq<AppEvent>, events: Seq<AppEvent>) -> Seq<AppEvent>
    decreases events.len(),
{
    if events.len() == 0 {
        queue
    } else {
        after_pushes(queue, events.drop_last()).push(events.last())
    }
}

/// What one drain of `queue` hands out.
pub open spec fn drained(queue: Seq<AppEvent>) -> Seq<AppEvent> {
    queue
}

/// What one drain of `queue` leaves behind.
pub open spec fn after_drain(queue: Seq<AppEvent>) -> Seq<AppEvent> {
    Seq::empty()
}

/// Events waiting for the application layer, oldest first.
pub struct EventQueue {
    events: Vec<AppEvent>,
}

impl View for EventQueue {
    type V = Seq<AppEvent>;

    closed spec fn view(&self) -> Seq<AppEvent> {
        self.events@
    }
}

impl EventQueue {
    /// A queue with nothing in it.
    pub fn new() -> (r: EventQueue)
        ensures
            r@ == Seq::<AppEvent>::empty(),
    {
        EventQueue { events: Vec::new() }
    }

    /// Number of events waiting.
    pub fn len(&self) -> (r: usize)
        ensures
            r == self@.len(),
    {
        self.events.len()
    }

    /// Whether nothing is waiting.
    pub fn is_empty(&self) -> (r: bool)
        ensures
            r == (self@.len() == 0),
    {
        self.events.len() == 0
    }

    /// Appends `event` behind everything already waiting.
    pub fn push(&mut self, event: AppEvent)
        ensures
            final(self)@ == old(self)@.push(event),
    {
        self.events.push(event);
    }

    /// Takes every waiting event out, oldest first, and leaves the queue
    /// empty. With nothing waiting it returns an empty vector at once.
    pub fn drain(&mut self) -> (r: Vec<AppEvent>)
        ensures
            r@ == drained(old(self)@),
            final(self)@ == after_drain(old(self)@),
            old(self)@.len() == 0 ==> r@.len() == 0,
    {
        let mut out: Vec<AppEvent> = Vec::new();
        core::mem::swap(&mut self.events, &mut out);
        out
    }
}

/// Appending events one after another is concatenation.
pub proof fn lemma_after_pushes(queue: Seq<AppEvent>, events: Seq<AppEvent>)
    ensures
        after_pushes(queue, events) == queue + events,
    decreases events.len(),
{
    if events.len() == 0 {
        assert(queue + events =~= queue);
    } else {
        lemma_after_pushes(queue, events.drop_last());
        assert((queue + events.drop_last()).push(events.last()) =~= queue + events);
    }
}

/// Any number of events appended to an empty queue come out of one drain
/// exactly as they went in, in the same order, and the drain after that
/// hands out nothing.
pub proof fn lemma_drain_returns_pushes_in_order(events: Seq<AppEvent>)
    ensures
        drained(after_pushes(Seq::empty(), events)) == events,
        drained(after_drain(after_pushes(Seq::empty(), events))) == Seq::<AppEvent>::empty(),
{
    lemma_after_pushes(Seq::empty(), events);
    assert(Seq::<AppEvent>::empty() + events =~= events);
}

/// One thing done to the queue.
pub enum QueueOp {
    /// An event is appended.
    Push(AppEvent),
    /// Everything waiting is taken out.
    Drain,
}

/// The queue after `ops` were done, in order, to an empty queue.
pub open spec fn queue_after(ops: Seq<QueueOp>) -> Seq<AppEvent>
    decreases ops.len(),
{
    if ops.len() == 0 {
        Seq::empty()
    } else {
        match ops.last() {
            QueueOp::Push(event) => queue_after(ops.drop_last()).push(event),
            QueueOp::Drain => after_drain(queue_after(ops.drop_last())),
        }
    }
}

/// Everything that the drains among `ops` handed out, one drain after the
/// other.
pub open spec fn handed_out(ops: Seq<QueueOp>) -> Seq<AppEvent>
    decreases ops.len(),
{
    if ops.len() == 0 {
        Seq::empty()
    } else {
        match ops.last() {
            QueueOp::Push(_) => handed_out(ops.drop_last()),
            QueueOp::Drain => handed_out(ops.drop_last()) + drained(queue_after(ops.drop_last())),
        }
    }
}

/// The events that `ops` appended, in order.
pub open spec fn pushed(ops: Seq<QueueOp>) -> Seq<AppEvent>
    decreases ops.len(),
{
    if ops.len() == 0 {
        Seq::empty()
    } else {
        match ops.last() {
            QueueOp::Push(event) => pushed(ops.drop_last()).push(event),
            QueueOp::Drain => pushed(ops.drop_last()),
        }
    }
}

/// However appends and drains follow one another, no event is lost, doubled
/// or reordered: what the drains handed out, followed by what still waits,
/// is what was appended, in order. After one more drain the drains together
/// have handed out everything.
pub proof fn lemma_drains_return_all_pushes_in_order(ops: Seq<QueueOp>)
    ensures
        handed_out(ops) + queue_after(ops) == pushed(ops),
        handed_out(ops.push(QueueOp::Drain)) == pushed(ops),
        queue_after(ops.push(QueueOp::Drain)) == Seq::<AppEvent>::empty(),
    decreases ops.len(),
{
    if ops.len() == 0 {
        assert(handed_out(ops) + queue_after(ops) =~= pushed(ops));
    } else {
        let before = ops.drop_last();
        lemma_drains_return_all_pushes_in_order(before);
        match ops.last() {
            QueueOp::Push(event) => {
                assert(handed_out(before) + queue_after(before).push(event) =~= (handed_out(before)
                    + queue_after(before)).push(event));
            },
            QueueOp::Drain => {
                assert((handed_out(before) + queue_after(before)) + Seq::<AppEvent>::empty()
                    =~= handed_out(before) + queue_after(before));
            },
        }
    }
    assert(ops.push(QueueOp::Drain).drop_last() =~= ops);
}

} // verus!
