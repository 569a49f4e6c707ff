//! The single worker that owns storage: messages queue up in arrival order and are
//! started one at a time, each only after the previous one has finished.
use std::collections::VecDeque;
use vstd::prelude::*;

verus! {

/// An ordered queue of messages with at most one of them in flight.
pub struct Coordinator<M> {
    queue: VecDeque<M>,
    busy: bool,
    submitted: Ghost<Seq<M>>,
    started: Ghost<Seq<M>>,
}

impl<M> Coordinator<M> {
    /// The messages that wait, oldest first.
    pub closed spec fn pending(&self) -> Seq<M> {
        self.queue@
    }

    /// Whether a message has been started and not yet finished.
    pub closed spec fn busy(&self) -> bool {
        self.busy
    }

    /// Every message ever submitted, in the order of submission.
    pub closed spec fn submitted(&self) -> Seq<M> {
        self.submitted@
    }

    /// Every message ever started, in the order in which storage saw them.
    pub closed spec fn started(&self) -> Seq<M> {
        self.started@
    }

    /// What was submitted is what was started followed by what waits: nothing is
    /// lost, repeated or reordered.
    pub closed spec fn wf(&self) -> bool {
        self.started@ + self.queue@ == self.submitted@
    }

    pub fn new() -> (r: Coordinator<M>)
        ensures
            r.wf(),
            !r.busy(),
            r.pending() == Seq::<M>::empty(),
            r.submitted() == Seq::<M>::empty(),
            r.started() == Seq::<M>::empty(),
    {
        let r = Coordinator {
            queue: VecDeque::new(),
            busy: false,
            submitted: Ghost(Seq::empty()),
            started: Ghost(Seq::empty()),
        };
        proof {
            assert(r.started@ + r.queue@ =~= r.submitted@);
        }
        r
    }

    /// Enqueues `m` behind everything already waiting.
    pub fn submit(&mut self, m: M)
        requires
            old(self).wf(),
        ensures
            final(self).wf(),
            final(self).pending() == old(self).pending().push(m),
            final(self).submitted() == old(self).submitted().push(m),
            final(self).started() == old(self).started(),
            final(self).busy() == old(self).busy(),
    {
        self.submitted = Ghost(self.submitted@.push(m));
        self.queue.push_back(m);
        proof {
            assert(self.started@ + self.queue@ =~= self.submitted@);
        }
    }

    /// Starts the oldest waiting message, if any; none can start while another is
    /// in flight.
    pub fn start(&mut self) -> (r: Option<M>)
        requires
            old(self).wf(),
            !old(self).busy(),
        ensures
            final(self).wf(),
            final(self).submitted() == old(self).submitted(),
            match r {
                Some(m) => {
                    &&& old(self).pending().len() > 0
                    &&& m == old(self).pending()[0]
                    &&& final(self).pending() == old(self).pending().drop_first()
                    &&& final(self).started() == old(self).started().push(m)
                    &&& final(self).busy()
                },
                None => {
                    &&& old(self).pending().len() == 0
                    &&& final(self).pending() == old(self).pending()
                    &&& final(self).started() == old(self).started()
                    &&& !final(self).busy()
                },
            },
    {
        match self.queue.pop_front() {
            Some(m) => {
                self.started = Ghost(self.started@.push(m));
                self.busy = true;
                proof {
                    assert(self.started@ + self.queue@ =~= self.submitted@);
                }
                Some(m)
            },
            None => None,
        }
    }

    /// Marks the message in flight as done: its reply has been written.
    pub fn finish(&mut self)
        requires
            old(self).wf(),
            old(self).busy(),
        ensures
            final(self).wf(),
            !final(self).busy(),
            final(self).pending() == old(self).pending(),
            final(self).submitted() == old(self).submitted(),
            final(self).started() == old(self).started(),
    {
        self.busy = false;
    }
}

/// Storage sees the submitted messages one at a time, each exactly once, in the
/// order of submission: the started messages are a prefix of the submitted ones,
/// and once the queue has drained they are all of them.
pub proof fn lemma_serial_exactly_once<M>(c: Coordinator<M>)
    requires
        c.wf(),
    ensures
        c.started().len() + c.pending().len() == c.submitted().len(),
        forall|i: int| 0 <= i < c.started().len() ==> #[trigger] c.started()[i] == c.submitted()[i],
        c.pending().len() == 0 ==> c.started() == c.submitted(),
{
    reveal(Coordinator::wf);
    assert forall|i: int| 0 <= i < c.started().len() implies #[trigger] c.started()[i]
        == c.submitted()[i] by {
        assert(c.submitted()[i] == (c.started() + c.pending())[i]);
    }
    if c.pending().len() == 0 {
        assert(c.started() =~= c.submitted());
    }
}

} // verus!
