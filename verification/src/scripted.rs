//! A transport that follows a script of expected sends and canned receives,
//! for driving the node through scenarios without a network.
//!
//! Receiving may have to wait (a scripted delay, or a send the script expects
//! first); [`ScriptedTransport::poll_recv`] says how long, and the runtime
//! sleeps and polls again.

use vstd::prelude::*;

use std::collections::VecDeque;

use crate::error::ProtocolError;

verus! {

/// Decides whether a sent frame is the one a script step expects.
pub trait SendMatcher {
    /// Whether `data` is acceptable.
    closed spec fn spec_accepts(&self, data: Seq<u8>) -> bool {
        arbitrary()
    }

    fn accepts(&self, data: &[u8]) -> (r: bool)
        ensures
            r == self.spec_accepts(data@),
    ;
}

/// Expects exactly these bytes.
pub struct ExactBytes(pub Vec<u8>);

impl SendMatcher for ExactBytes {
    open spec fn spec_accepts(&self, data: Seq<u8>) -> bool {
        data == self.0@
    }

    fn accepts(&self, data: &[u8]) -> (r: bool) {
        crate::bytes::bytes_eq(data, self.0.as_slice())
    }
}

/// One step of a script.
pub enum Step<M> {
    /// The next send must satisfy the matcher.
    ExpectSend(M),
    /// Bytes the next receives deliver.
    Recv(Vec<u8>),
    /// A pause before the next receive completes, in milliseconds.
    DelayMs(u64),
    /// The transport closes: the receive fails.
    Close,
}

/// A step as plain values.
pub enum StepView<M> {
    ExpectSend(M),
    Recv(Seq<u8>),
    DelayMs(u64),
    Close,
}

pub open spec fn step_view<M>(s: Step<M>) -> StepView<M> {
    match s {
        Step::ExpectSend(m) => StepView::ExpectSend(m),
        Step::Recv(d) => StepView::Recv(d@),
        Step::DelayMs(ms) => StepView::DelayMs(ms),
        Step::Close => StepView::Close,
    }
}

/// What a receive poll came to.
#[derive(Debug, Clone, Copy, PartialEq, Eq, Structural)]
pub enum RecvPoll {
    /// This many bytes were delivered into the buffer.
    Data(usize),
    /// Nothing yet: sleep this many milliseconds and poll again.
    Sleep(u64),
}

/// A scripted transport.
pub struct ScriptedTransport<M> {
    steps: VecDeque<Step<M>>,
    sent_data: Vec<Vec<u8>>,
}

impl<M> ScriptedTransport<M> {
    /// The steps still to come.
    pub closed spec fn pending(&self) -> Seq<StepView<M>> {
        self.steps@.map_values(|s: Step<M>| step_view(s))
    }

    /// Every frame sent so far, in order.
    pub closed spec fn sent(&self) -> Seq<Seq<u8>> {
        self.sent_data@.map_values(|v: Vec<u8>| v@)
    }

    /// A transport following `steps`.
    pub fn new(steps: Vec<Step<M>>) -> (t: Self)
        ensures
            t.pending() == steps@.map_values(|s: Step<M>| step_view(s)),
            t.sent() == Seq::<Seq<u8>>::empty(),
    {
        let mut steps = steps;
        let ghost all = steps@;
        let mut queue: VecDeque<Step<M>> = VecDeque::new();
        while steps.len() > 0
            invariant
                all == steps@ + queue@,
            decreases steps.len(),
        {
            let s = steps.pop().unwrap();
            queue.push_front(s);
            assert(all =~= steps@ + queue@);
        }
        assert(queue@ =~= all);
        ScriptedTransport { steps: queue, sent_data: Vec::new() }
    }

    /// A transport whose first receive delivers `data`.
    pub fn recv_bytes(data: &[u8]) -> (t: Self)
        ensures
            t.pending() == seq![StepView::<M>::Recv(data@)],
            t.sent() == Seq::<Seq<u8>>::empty(),
    {
        let mut steps = Vec::new();
        steps.push(Step::Recv(vstd::slice::slice_to_vec(data)));
        let t = Self::new(steps);
        proof {
            assert(t.pending() =~= seq![StepView::<M>::Recv(data@)]);
        }
        t
    }

    /// A transport with an empty script.
    pub fn empty() -> (t: Self)
        ensures
            t.pending() == Seq::<StepView<M>>::empty(),
            t.sent() == Seq::<Seq<u8>>::empty(),
    {
        let t = Self::new(Vec::new());
        proof {
            assert(t.pending() =~= Seq::<StepView<M>>::empty());
        }
        t
    }

    /// Every frame sent so far.
    pub fn sent_data(&self) -> (r: &[Vec<u8>])
        ensures
            r@.map_values(|v: Vec<u8>| v@) == self.sent(),
    {
        self.sent_data.as_slice()
    }

    /// Every frame sent, handing the transport over.
    pub fn into_sent_data(self) -> (r: Vec<Vec<u8>>)
        ensures
            r@.map_values(|v: Vec<u8>| v@) == self.sent(),
    {
        self.sent_data
    }

    /// The transport is always ready.
    pub fn wait_ready(&mut self) -> (r: Result<(), ProtocolError>)
        ensures
            r is Ok,
            final(self).pending() == old(self).pending(),
            final(self).sent() == old(self).sent(),
    {
        Ok(())
    }
}

/// The script and the outcome after a receive poll into a buffer of
/// `buf_len` bytes, with the bytes delivered.
pub open spec fn spec_poll_recv<M>(steps: Seq<StepView<M>>, buf_len: nat) -> (
    Seq<StepView<M>>,
    Result<RecvPoll, ProtocolError>,
    Seq<u8>,
) {
    if steps.len() == 0 {
        (steps, Ok(RecvPoll::Sleep(1)), Seq::empty())
    } else {
        match steps[0] {
            StepView::Recv(d) => {
                let n = if d.len() <= buf_len {
                    d.len()
                } else {
                    buf_len
                };
                (
                    if n < d.len() {
                        seq![StepView::Recv(d.skip(n as int))] + steps.drop_first()
                    } else {
                        steps.drop_first()
                    },
                    Ok(RecvPoll::Data(n as usize)),
                    d.take(n as int),
                )
            },
            StepView::DelayMs(ms) => (steps.drop_first(), Ok(RecvPoll::Sleep(ms)), Seq::empty()),
            StepView::Close => (steps.drop_first(), Err(ProtocolError::Disconnected), Seq::empty()),
            StepView::ExpectSend(_) => (steps, Ok(RecvPoll::Sleep(1)), Seq::empty()),
        }
    }
}

/// The script and the result after sending `data`: a send the script
/// expects consumes that step and fails when the matcher refuses it.
pub open spec fn spec_send<M: SendMatcher>(steps: Seq<StepView<M>>, data: Seq<u8>) -> (
    Seq<StepView<M>>,
    Result<(), ProtocolError>,
) {
    if steps.len() > 0 && steps[0] is ExpectSend {
        (
            steps.drop_first(),
            if steps[0]->ExpectSend_0.spec_accepts(data) {
                Ok(())
            } else {
                Err(ProtocolError::InvalidMessage)
            },
        )
    } else {
        (steps, Ok(()))
    }
}

impl<M: SendMatcher> ScriptedTransport<M> {
    /// Records a sent frame and checks it against an expected send.
    pub fn send(&mut self, data: &[u8]) -> (r: Result<(), ProtocolError>)
        ensures
            (final(self).pending(), r) == spec_send(old(self).pending(), data@),
            final(self).sent() == old(self).sent().push(data@),
    {
        self.sent_data.push(vstd::slice::slice_to_vec(data));
        proof {
            assert(self.sent() =~= old(self).sent().push(data@));
        }
        if self.steps.len() > 0 {
            let expect = match &self.steps[0] {
                Step::ExpectSend(_) => true,
                _ => false,
            };
            if expect {
                let step = self.steps.pop_front();
                proof {
                    assert(self.pending() =~= old(self).pending().drop_first());
                }
                if let Some(Step::ExpectSend(m)) = step {
                    if !m.accepts(data) {
                        return Err(ProtocolError::InvalidMessage);
                    }
                }
            }
        }
        Ok(())
    }

    /// One attempt at receiving into `buf`.
    pub fn poll_recv(&mut self, buf: &mut [u8]) -> (r: Result<RecvPoll, ProtocolError>)
        ensures
            ({
                let (steps, res, delivered) = spec_poll_recv(old(self).pending(), old(buf)@.len());
                &&& final(self).pending() == steps
                &&& r == res
                &&& final(buf)@ == delivered + old(buf)@.skip(delivered.len() as int)
            }),
            final(self).sent() == old(self).sent(),
    {
        if self.steps.len() == 0 {
            proof {
                assert(buf@ =~= Seq::<u8>::empty() + buf@.skip(0));
            }
            return Ok(RecvPoll::Sleep(1));
        }
        let kind: u8 = match &self.steps[0] {
            Step::Recv(_) => 0,
            Step::DelayMs(_) => 1,
            Step::Close => 2,
            Step::ExpectSend(_) => 3,
        };
        if kind == 3 {
            proof {
                assert(buf@ =~= Seq::<u8>::empty() + buf@.skip(0));
            }
            return Ok(RecvPoll::Sleep(1));
        }
        let step = self.steps.pop_front();
        proof {
            assert(self.pending() =~= old(self).pending().drop_first());
        }
        match step {
            Some(Step::Recv(mut data)) => {
                let n = if data.len() <= buf.len() {
                    data.len()
                } else {
                    buf.len()
                };
                let mut i: usize = 0;
                while i < n
                    invariant
                        0 <= i <= n,
                        n <= data@.len(),
                        n <= buf@.len(),
                        buf@.len() == old(buf)@.len(),
                        forall|k: int| 0 <= k < i ==> buf@[k] == data@[k],
                        forall|k: int| i <= k < buf@.len() ==> buf@[k] == old(buf)@[k],
                    decreases n - i,
                {
                    buf[i] = data[i];
                    i = i + 1;
                }
                let ghost d = data@;
                proof {
                    assert(buf@ =~= d.take(n as int) + old(buf)@.skip(n as int));
                }
                if n < data.len() {
                    let rest = data.split_off(n);
                    self.steps.push_front(Step::Recv(rest));
                    proof {
                        assert(self.pending() =~= seq![StepView::<M>::Recv(d.skip(n as int))] + old(
                            self,
                        ).pending().drop_first());
                    }
                }
                Ok(RecvPoll::Data(n))
            },
            Some(Step::DelayMs(ms)) => {
                proof {
                    assert(buf@ =~= Seq::<u8>::empty() + buf@.skip(0));
                }
                Ok(RecvPoll::Sleep(ms))
            },
            _ => {
                proof {
                    assert(buf@ =~= Seq::<u8>::empty() + buf@.skip(0));
                }
                Err(ProtocolError::Disconnected)
            },
        }
    }
}

} // verus!
