//! The cyclic work list of the background loop.

use crate::message_handler::Message;
use crossbeam_queue::SegQueue;
use vstd::prelude::*;

verus! {

/// `crossbeam_queue::SegQueue`, the unbounded queue that the work list is
/// kept in. Nothing is known of what is inside one but through [`waiting`].
#[verifier::external_type_specification]
#[verifier::external_body]
#[verifier::reject_recursive_types(T)]
pub struct ExSegQueue<T>(SegQueue<T>);

/// The messages that wait in a `SegQueue`, the head first. What the queue's
/// `new`, `push` and `pop` do to them is stated with each below.
pub uninterp spec fn waiting(queue: SegQueue<Message>) -> Seq<Message>;

/// `SegQueue::new`: the queue it creates holds nothing.
#[verifier::external_body]
fn queue_new() -> (queue: SegQueue<Message>)
    ensures
        waiting(queue) == Seq::<Message>::empty(),
{
    SegQueue::new()
}

/// `SegQueue::push`: the element goes to the tail, behind all that waited.
/// The exclusive borrow keeps every other user of the queue away for the call.
#[verifier::external_body]
fn queue_push(queue: &mut SegQueue<Message>, message: Message)
    ensures
        waiting(*final(queue)) == waiting(*old(queue)).push(message),
{
    queue.push(message)
}

/// `SegQueue::pop`: the head leaves the queue and is returned; an empty queue
/// gives `None` and stays empty. The exclusive borrow keeps every other user
/// of the queue away for the call.
#[verifier::external_body]
fn queue_pop(queue: &mut SegQueue<Message>) -> (head: Option<Message>)
    ensures
        head == (if waiting(*old(queue)).len() > 0 {
            Some(waiting(*old(queue))[0])
        } else {
            None
        }),
        waiting(*final(queue)) == (if waiting(*old(queue)).len() > 0 {
            waiting(*old(queue)).drop_first()
        } else {
            waiting(*old(queue))
        }),
{
    queue.pop()
}

/// What an [`OperationQueue`] stands for: the kinds that wait, head first, and
/// the kind that is being executed, if any.
pub struct OperationQueueView {
    pub waiting: Seq<Message>,
    pub executing: Option<Message>,
}

impl OperationQueueView {
    /// The whole round: the waiting kinds, and behind them the one that is
    /// being executed, which returns to the tail when it is done.
    pub open spec fn round(self) -> Seq<Message> {
        match self.executing {
            Some(kind) => self.waiting.push(kind),
            None => self.waiting,
        }
    }

    /// The round holds the four kinds, each followed by its successor.
    pub open spec fn wf(self) -> bool {
        let round = self.round();
        &&& round.len() == 4
        &&& round[1] == round[0].successor()
        &&& round[2] == round[1].successor()
        &&& round[3] == round[2].successor()
    }

    /// The kinds that are away from the queue: those that do not wait in it.
    pub open spec fn away(self) -> Set<Message> {
        Set::new(|kind: Message| !self.waiting.contains(kind))
    }
}

/// The round after one turn: the head has gone to the tail.
pub open spec fn rotate(round: Seq<Message>) -> Seq<Message> {
    round.drop_first().push(round[0])
}

/// The round after a number of turns.
pub open spec fn after_turns(round: Seq<Message>, turns: nat) -> Seq<Message>
    decreases turns,
{
    if turns == 0 {
        round
    } else {
        rotate(after_turns(round, (turns - 1) as nat))
    }
}

/// The kind that is executed in the turn with the given number, the next
/// turn being number 0.
pub open spec fn turn_kind(round: Seq<Message>, turn: nat) -> Message {
    after_turns(round, turn)[0]
}

/// A round in which each kind is followed by its successor.
pub open spec fn in_order(round: Seq<Message>) -> bool {
    (OperationQueueView { waiting: round, executing: None }).wf()
}

/// A round that is in order holds every kind, and each at one place only.
pub proof fn lemma_round_holds_every_kind_once(round: Seq<Message>, kind: Message)
    requires
        in_order(round),
    ensures
        exists|i: int|
            0 <= i < 4 && #[trigger] round[i] == kind && forall|j: int|
                0 <= j < 4 && #[trigger] round[j] == kind ==> j == i,
{
    assert(round[0] == kind || round[1] == kind || round[2] == kind || round[3] == kind);
}

/// A turn keeps the round in order, and so does any number of turns.
pub proof fn lemma_turns_keep_order(round: Seq<Message>, turns: nat)
    requires
        in_order(round),
    ensures
        in_order(after_turns(round, turns)),
    decreases turns,
{
    if turns > 0 {
        lemma_turns_keep_order(round, (turns - 1) as nat);
    }
}

/// Mutual exclusion: at every instant at most one operation kind is away
/// from the queue, and a kind is away exactly while it is being executed.
pub proof fn lemma_mutual_exclusion(queue: OperationQueueView)
    requires
        queue.wf(),
    ensures
        forall|kind: Message| queue.away().contains(kind) <==> queue.executing == Some(kind),
        queue.away().finite(),
        queue.away().len() <= 1,
{
    let round = queue.round();
    assert forall|kind: Message| queue.away().contains(kind) <==> queue.executing == Some(
        kind,
    ) by {
        assert(round[0] == kind || round[1] == kind || round[2] == kind || round[3] == kind);
    }
    match queue.executing {
        Some(current) => {
            assert(queue.away() =~= set![current]);
        },
        None => {
            assert(queue.away() =~= Set::<Message>::empty());
        },
    }
}

/// Round-robin fairness: in any four turns that follow each other, each
/// operation kind is executed in exactly one.
pub proof fn lemma_fairness(round: Seq<Message>, first: nat, kind: Message)
    requires
        in_order(round),
    ensures
        exists|turn: nat|
            first <= turn < first + 4 && turn_kind(round, turn) == kind && forall|other: nat|
                first <= other < first + 4 && #[trigger] turn_kind(round, other) == kind
                    ==> other == turn,
{
    let start = after_turns(round, first);
    lemma_turns_keep_order(round, first);
    let one = after_turns(round, first + 1);
    let two = after_turns(round, first + 2);
    let three = after_turns(round, first + 3);
    assert(one == rotate(start));
    assert(two == rotate(one));
    assert(three == rotate(two));
    assert(turn_kind(round, first) == start[0]);
    assert(turn_kind(round, first + 1) == start[1]);
    assert(turn_kind(round, first + 2) == start[2]);
    assert(turn_kind(round, first + 3) == start[3]);
    let turn: nat = if start[0] == kind {
        first
    } else if start[1] == kind {
        first + 1
    } else if start[2] == kind {
        first + 2
    } else {
        first + 3
    };
    assert(turn_kind(round, turn) == kind);
    assert forall|other: nat|
        first <= other < first + 4 && #[trigger] turn_kind(round, other) == kind implies other
        == turn by {
        assert(other == first || other == first + 1 || other == first + 2 || other == first + 3);
    }
}

/// The four operation kinds, visited one at a time and for ever in the same
/// order.
pub struct OperationQueue {
    queue: SegQueue<Message>,
    executing: Option<Message>,
}

impl View for OperationQueue {
    type V = OperationQueueView;

    closed spec fn view(&self) -> OperationQueueView {
        OperationQueueView { waiting: waiting(self.queue), executing: self.executing }
    }
}

impl OperationQueue {
    /// The invariant of the queue: see [`OperationQueueView::wf`].
    pub open spec fn wf(&self) -> bool {
        self@.wf()
    }

    /// A queue seeded with one instance of each kind, nothing being executed.
    pub fn new() -> (queue: OperationQueue)
        ensures
            queue.wf(),
            queue@.waiting == Message::every(),
            queue@.executing is None,
    {
        let mut queue = queue_new();
        let kinds = Message::all();
        let mut i: usize = 0;
        while i < kinds.len()
            invariant
                i <= kinds.len(),
                kinds@ == Message::every(),
                waiting(queue) == kinds@.take(i as int),
            decreases kinds.len() - i,
        {
            queue_push(&mut queue, kinds[i]);
            i = i + 1;
        }
        OperationQueue { queue, executing: None }
    }

    /// The kind that is being executed, if any.
    pub fn executing(&self) -> (kind: Option<Message>)
        ensures
            kind == self@.executing,
    {
        self.executing
    }

    /// Takes the head of the queue for execution. While a kind is being
    /// executed nothing else starts: the call then returns `None` and changes
    /// nothing.
    pub fn begin(&mut self) -> (started: Option<Message>)
        requires
            old(self).wf(),
        ensures
            final(self).wf(),
            old(self)@.executing is Some ==> started is None && final(self)@ == old(self)@,
            old(self)@.executing is None ==> {
                &&& started == Some(old(self)@.waiting[0])
                &&& final(self)@.executing == started
                &&& final(self)@.waiting == old(self)@.waiting.drop_first()
                &&& final(self)@.round() == rotate(old(self)@.waiting)
            },
    {
        if self.executing.is_some() {
            return None;
        }
        let head = queue_pop(&mut self.queue);
        self.executing = head;
        head
    }

    /// Ends the execution of the kind that [`OperationQueue::begin`] handed
    /// out, whatever its outcome: the kind returns to the tail of the queue.
    /// With nothing being executed the call changes nothing.
    pub fn finish(&mut self)
        requires
            old(self).wf(),
        ensures
            final(self).wf(),
            final(self)@.executing is None,
            final(self)@.waiting == old(self)@.round(),
    {
        match self.executing {
            Some(kind) => {
                queue_push(&mut self.queue, kind);
                self.executing = None;
            },
            None => {},
        }
    }
}

} // verus!
