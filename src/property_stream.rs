//! The property change stream: one eager read of a property's current value,
//! followed by a fresh read for every change notification, as one ordered
//! sequence that drops nothing.
//!
//! The stream decides; its caller does the bus work. The caller reads the
//! property once, creates the stream with that result, and then installs
//! its subscription. A pull either hands out a value or asks the caller to
//! wait for the next notification, read the property again, and report the
//! result as an event. A change that lands between the initial read and the
//! subscription may be seen twice; equal values are not filtered.

use vstd::prelude::*;

verus! {

/// What the subscription delivered.
#[derive(Debug)]
pub enum StreamEvent<T, E> {
    /// A change notification arrived, and re-reading the property gave this.
    Changed(core::result::Result<T, E>),
    /// The subscription ended.
    Closed,
}

/// The answer to a pull.
#[derive(Debug)]
pub enum Pull<T, E> {
    /// The next value of the stream.
    Item(core::result::Result<T, E>),
    /// No value is ready: wait for the next change notification.
    Wait,
    /// The stream is over.
    End,
}

/// A forward-only cursor over one property's values.
pub struct PropertyStream<T, E> {
    pending: Option<core::result::Result<T, E>>,
    finished: bool,
    initial: Ghost<core::result::Result<T, E>>,
    reads: Ghost<Seq<core::result::Result<T, E>>>,
    delivered: Ghost<Seq<core::result::Result<T, E>>>,
}

impl<T, E> PropertyStream<T, E> {
    /// The eager read made before the subscription was installed.
    pub closed spec fn initial(&self) -> core::result::Result<T, E> {
        self.initial@
    }

    /// The results of every read, in the order in which they were made.
    pub closed spec fn reads(&self) -> Seq<core::result::Result<T, E>> {
        self.reads@
    }

    /// The values handed out so far, in order.
    pub closed spec fn delivered(&self) -> Seq<core::result::Result<T, E>> {
        self.delivered@
    }

    /// The stream is over: it handed out an error, or the subscription ended.
    pub closed spec fn is_finished(&self) -> bool {
        self.finished
    }

    pub closed spec fn wf(&self) -> bool {
        &&& self.reads@.len() >= 1
        &&& self.reads@[0] == self.initial@
        &&& self.pending is Some <==> self.delivered@.len() == 0
        &&& self.pending matches Some(x) ==> x == self.initial@ && self.reads@ == seq![x]
            && !self.finished
        &&& self.pending is None ==> self.delivered@ == self.reads@
    }

    /// A stream that first hands out `initial`, the value read before
    /// subscribing.
    pub fn new(initial: core::result::Result<T, E>) -> (r: PropertyStream<T, E>)
        ensures
            r.wf(),
            r.initial() == initial,
            r.reads() == seq![initial],
            r.delivered().len() == 0,
            !r.is_finished(),
    {
        let ghost first = initial;
        let ghost reads = seq![first];
        let ghost delivered = Seq::<core::result::Result<T, E>>::empty();
        PropertyStream {
            pending: Some(initial),
            finished: false,
            initial: Ghost(first),
            reads: Ghost(reads),
            delivered: Ghost(delivered),
        }
    }

    /// Asks for the next value. The initial read comes first, always; after
    /// it the caller waits for notifications, until the stream is over. An
    /// error ends the stream once it has been handed out.
    pub fn pull(&mut self) -> (r: Pull<T, E>)
        requires
            old(self).wf(),
        ensures
            final(self).wf(),
            final(self).initial() == old(self).initial(),
            final(self).reads() == old(self).reads(),
            old(self).delivered().len() == 0 ==> {
                &&& r == Pull::<T, E>::Item(old(self).initial())
                &&& final(self).delivered() == seq![old(self).initial()]
                &&& final(self).is_finished() == old(self).initial() is Err
            },
            old(self).delivered().len() > 0 ==> {
                &&& final(self).delivered() == old(self).delivered()
                &&& final(self).is_finished() == old(self).is_finished()
                &&& if old(self).is_finished() {
                    r is End
                } else {
                    r is Wait
                }
            },
    {
        match self.pending.take() {
            Some(x) => {
                self.finished = x.is_err();
                proof {
                    self.delivered@ = seq![x];
                }
                Pull::Item(x)
            },
            None => {
                if self.finished {
                    Pull::End
                } else {
                    Pull::Wait
                }
            },
        }
    }

    /// Reports what the subscription delivered while the caller waited. A
    /// re-read value is handed out at once.
    pub fn on_event(&mut self, event: StreamEvent<T, E>) -> (r: Pull<T, E>)
        requires
            old(self).wf(),
            old(self).delivered().len() > 0,
            !old(self).is_finished(),
        ensures
            final(self).wf(),
            final(self).initial() == old(self).initial(),
            final(self).delivered().len() > 0,
            match event {
                StreamEvent::Changed(x) => {
                    &&& r == Pull::<T, E>::Item(x)
                    &&& final(self).reads() == old(self).reads().push(x)
                    &&& final(self).delivered() == old(self).delivered().push(x)
                    &&& final(self).is_finished() == x is Err
                },
                StreamEvent::Closed => {
                    &&& r is End
                    &&& final(self).reads() == old(self).reads()
                    &&& final(self).delivered() == old(self).delivered()
                    &&& final(self).is_finished()
                },
            },
    {
        match event {
            StreamEvent::Changed(x) => {
                self.finished = x.is_err();
                proof {
                    self.reads@ = self.reads@.push(x);
                    self.delivered@ = self.delivered@.push(x);
                }
                Pull::Item(x)
            },
            StreamEvent::Closed => {
                self.finished = true;
                Pull::End
            },
        }
    }
}

/// The values of a stream come out in the order in which they were read:
/// the first is the eager initial read, and the k-th value handed out is the
/// k-th read, so that no value is older than one handed out before it and
/// none is dropped.
pub proof fn lemma_delivered_in_read_order<T, E>(s: &PropertyStream<T, E>)
    requires
        s.wf(),
    ensures
        s.reads()[0] == s.initial(),
        s.delivered().len() > 0 ==> s.delivered()[0] == s.initial(),
        s.delivered().len() <= s.reads().len(),
        forall|k: int| 0 <= k < s.delivered().len() ==> #[trigger] s.delivered()[k] == s.reads()[k],
{
}

} // verus!
