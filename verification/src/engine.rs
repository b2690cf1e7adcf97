//! The synchronisation engine: it drives the operation queue and the handler
//! through one turn after the other, and leaves to its caller only the
//! requests themselves and the pause between two turns.

use crate::app::{AppData, AppDataView};
use crate::message_handler::{
    requests_for, Message, MessageHandler, Reply, ReplyView, Request,
};
use crate::models::views;
use crate::operation_queue::{OperationQueue, OperationQueueView};
use crate::text::{handling, handling_line};
use vstd::prelude::*;

verus! {

/// The engine of the background loop. A turn starts with
/// [`Engine::start`], which says what to ask of the remote side, and ends
/// with [`Engine::complete`], which takes the answers.
pub struct Engine {
    queue: OperationQueue,
}

impl View for Engine {
    type V = OperationQueueView;

    closed spec fn view(&self) -> OperationQueueView {
        self.queue@
    }
}

impl Engine {
    /// The invariant of the engine: that of its queue.
    pub open spec fn wf(&self) -> bool {
        self@.wf()
    }

    /// An engine before its first turn: every kind waits, in the order of
    /// declaration.
    pub fn new() -> (engine: Engine)
        ensures
            engine.wf(),
            engine@.waiting == Message::every(),
            engine@.executing is None,
    {
        Engine { queue: OperationQueue::new() }
    }

    /// The kind whose turn is under way, if any.
    pub fn executing(&self) -> (kind: Option<Message>)
        ensures
            kind == self@.executing,
    {
        self.queue.executing()
    }

    /// Starts the turn of the kind at the head of the queue: the log gets the
    /// line that opens the turn, and the result holds the requests that the
    /// turn makes, in their order. While a turn is under way no other
    /// starts: the result is `None` and nothing changes.
    pub fn start(&mut self, data: &mut AppData) -> (requests: Option<Vec<Request>>)
        requires
            old(self).wf(),
        ensures
            final(self).wf(),
            match old(self)@.executing {
                Some(_) => {
                    &&& requests is None
                    &&& final(self)@ == old(self)@
                    &&& final(data)@ == old(data)@
                },
                None => {
                    let kind = old(self)@.waiting[0];
                    &&& requests is Some
                    &&& views(requests.unwrap()@) == requests_for(kind, old(data)@)
                    &&& final(self)@.executing == Some(kind)
                    &&& final(self)@.waiting == old(self)@.waiting.drop_first()
                    &&& final(data)@ == old(data)@.logged(handling_line(kind))
                },
            },
    {
        match self.queue.begin() {
            Some(kind) => {
                let requests = MessageHandler.requests(&kind, data);
                data.log_line(handling(kind));
                Some(requests)
            },
            None => None,
        }
    }

    /// Completes the turn that is under way, `replies` answering its
    /// requests in their order: the handler writes the outcome to the store,
    /// and the kind returns to the tail of the queue, whatever the outcome.
    /// Says whether a turn was under way; where none was, nothing changes.
    pub fn complete(&mut self, data: &mut AppData, replies: Vec<Reply>) -> (done: bool)
        requires
            old(self).wf(),
        ensures
            final(self).wf(),
            done == old(self)@.executing is Some,
            final(self)@.executing is None,
            final(self)@.waiting == old(self)@.round(),
            match old(self)@.executing {
                Some(kind) => final(data)@ == old(data)@.after_fetch(kind, views(replies@)),
                None => final(data)@ == old(data)@,
            },
    {
        match self.queue.executing() {
            Some(kind) => {
                MessageHandler.handle_replies(&kind, data, replies);
                self.queue.finish();
                true
            },
            None => false,
        }
    }
}

/// A turn whose store nothing else writes to between its start and its end
/// does to the store what the handler does with the kind and the answers in
/// one call.
pub proof fn lemma_turn_is_one_message(
    store: AppDataView,
    kind: Message,
    replies: Seq<ReplyView>,
)
    ensures
        store.logged(handling_line(kind)).after_fetch(kind, replies) == store.after_message(
            kind,
            replies,
        ),
        requests_for(kind, store.logged(handling_line(kind))) == requests_for(kind, store),
{
}

} // verus!
