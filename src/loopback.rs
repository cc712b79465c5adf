//! An in-memory encoder component that follows the exchange protocol: each
//! picture becomes one packet, held back behind a fixed lookahead until
//! later pictures arrive or end of input is signalled. It lets sessions and
//! drain loops be exercised without a native library.
use vstd::prelude::*;

use crate::encoder::Encoder;
use crate::error::{Result, NO_ERROR_EMPTY_QUEUE};
use crate::session::Phase;

verus! {

/// The component's queues, as values.
pub struct LoopbackState {
    /// Packets that a poll can return now, oldest first.
    pub ready: Seq<usize>,
    /// Packets held back by the lookahead, oldest first.
    pub delayed: Seq<usize>,
    /// Whether the end-of-stream buffer has been received.
    pub eos: bool,
}

/// One poll: once end of stream has been received and the poll says end of
/// input, everything held back becomes ready; then the oldest ready packet
/// is handed out, or nothing when none is ready.
pub open spec fn poll(s: LoopbackState, end_of_input: bool) -> (LoopbackState, Option<usize>) {
    let t = if end_of_input && s.eos {
        LoopbackState { ready: s.ready + s.delayed, delayed: Seq::empty(), eos: s.eos }
    } else {
        s
    };
    if t.ready.len() > 0 {
        (LoopbackState { ready: t.ready.drop_first(), ..t }, Some(t.ready[0]))
    } else {
        (t, None)
    }
}

/// The packets that polling with `end_of_input` again and again returns
/// before the first empty poll.
pub open spec fn drain(s: LoopbackState, end_of_input: bool) -> Seq<usize>
    decreases s.ready.len() + s.delayed.len(),
{
    let (t, p) = poll(s, end_of_input);
    if p is Some && t.ready.len() + t.delayed.len() < s.ready.len() + s.delayed.len() {
        seq![p->0] + drain(t, end_of_input)
    } else {
        Seq::empty()
    }
}

/// The state reached after draining.
pub open spec fn drained(s: LoopbackState, end_of_input: bool) -> LoopbackState
    decreases s.ready.len() + s.delayed.len(),
{
    let (t, p) = poll(s, end_of_input);
    if p is Some && t.ready.len() + t.delayed.len() < s.ready.len() + s.delayed.len() {
        drained(t, end_of_input)
    } else {
        t
    }
}

/// Polling after end of stream converges: draining with the end-of-input
/// flag returns every queued packet, ready ones first and then the held-back
/// ones, each once and in order, and leaves nothing behind, so the next poll
/// is empty. Draining without the flag returns exactly the ready packets.
pub proof fn lemma_drain_after_eos(s: LoopbackState)
    requires
        s.eos,
    ensures
        drain(s, true) == s.ready + s.delayed,
        drained(s, true).ready.len() == 0,
        drained(s, true).delayed.len() == 0,
        poll(drained(s, true), true).1 is None,
    decreases s.ready.len() + s.delayed.len(),
{
    let (t, p) = poll(s, true);
    if s.ready.len() + s.delayed.len() > 0 {
        lemma_drain_after_eos(t);
        assert(t.ready == (s.ready + s.delayed).drop_first());
        assert(drain(s, true) =~= s.ready + s.delayed);
    } else {
        assert(s.ready + s.delayed =~= Seq::<usize>::empty());
    }
}

/// Without the end-of-input flag a drain returns exactly the packets that
/// are ready, and holds the rest back.
pub proof fn lemma_drain_before_eos(s: LoopbackState)
    ensures
        drain(s, false) == s.ready,
        drained(s, false).delayed == s.delayed,
    decreases s.ready.len(),
{
    if s.ready.len() > 0 {
        let (t, p) = poll(s, false);
        lemma_drain_before_eos(t);
        assert(drain(s, false) =~= s.ready);
    } else {
        assert(s.ready =~= Seq::<usize>::empty());
    }
}

/// The in-memory component. Packets are identified by the picture's
/// position in the input, counting from one, so none is null.
pub struct LoopbackEncoder {
    ready: Vec<usize>,
    delayed: Vec<usize>,
    lookahead: usize,
    eos: bool,
    sent: usize,
    handed_out: Vec<usize>,
}

impl View for LoopbackEncoder {
    type V = LoopbackState;

    closed spec fn view(&self) -> LoopbackState {
        LoopbackState { ready: self.ready@, delayed: self.delayed@, eos: self.eos }
    }
}

impl LoopbackEncoder {
    /// The number of pictures received.
    pub closed spec fn pictures(&self) -> nat {
        self.sent as nat
    }

    /// The lookahead this component was made with.
    pub closed spec fn depth(&self) -> nat {
        self.lookahead as nat
    }

    /// The packets queued, ready ones first.
    closed spec fn queued(&self) -> Seq<usize> {
        self.ready@ + self.delayed@
    }

    /// Queued packets are numbered in increasing order, none is null, and
    /// every packet in use was handed out before every queued one; the
    /// lookahead holds at most its depth.
    pub closed spec fn wf(&self) -> bool {
        &&& forall|i: int, j: int|
            0 <= i < j < self.queued().len() ==> #[trigger] self.queued()[i]
                < #[trigger] self.queued()[j]
        &&& forall|i: int|
            0 <= i < self.queued().len() ==> 1 <= #[trigger] self.queued()[i] <= self.sent
        &&& forall|i: int|
            0 <= i < self.handed_out@.len() ==> #[trigger] self.handed_out@[i] <= self.sent
        &&& forall|i: int, j: int|
            0 <= i < self.handed_out@.len() && 0 <= j < self.queued().len()
                ==> #[trigger] self.handed_out@[i] < #[trigger] self.queued()[j]
        &&& self.delayed@.len() <= self.lookahead
    }

    /// Packets handed out and not yet released.
    pub closed spec fn in_use(&self) -> Seq<usize> {
        self.handed_out@
    }

    /// A component that holds back the last `lookahead` pictures until end
    /// of input.
    pub fn new(lookahead: usize) -> (r: LoopbackEncoder)
        ensures
            r.wf(),
            r@ == (LoopbackState { ready: Seq::empty(), delayed: Seq::empty(), eos: false }),
            r.pictures() == 0,
            r.depth() == lookahead,
            r.in_use() == Seq::<usize>::empty(),
    {
        LoopbackEncoder {
            ready: Vec::new(),
            delayed: Vec::new(),
            lookahead,
            eos: false,
            sent: 0,
            handed_out: Vec::new(),
        }
    }

    /// Receives a picture; its packet is held back, and the oldest held-back
    /// packet becomes ready once more than `lookahead` are held.
    pub fn send_picture(&mut self) -> (code: i32)
        requires
            old(self).wf(),
            !old(self)@.eos,
            old(self).pictures() < usize::MAX,
        ensures
            final(self).wf(),
            code == 0,
            final(self).pictures() == old(self).pictures() + 1,
            final(self).depth() == old(self).depth(),
            final(self).in_use() == old(self).in_use(),
            final(self)@.eos == old(self)@.eos,
            final(self)@.ready + final(self)@.delayed == old(self)@.ready + old(self)@.delayed.push(
                final(self).pictures() as usize,
            ),
            final(self)@.delayed.len() <= final(self).depth(),
    {
        let ghost q0 = self.queued();
        self.sent = self.sent + 1;
        self.delayed.push(self.sent);
        assert(self.queued() =~= q0.push(self.sent));
        if self.delayed.len() > self.lookahead {
            let ghost d = self.delayed@;
            let first = self.delayed.remove(0);
            let ghost r = self.ready@;
            self.ready.push(first);
            assert(self.ready@ + self.delayed@ =~= r + d);
        }
        assert(self.queued() =~= q0.push(self.sent));
        0
    }

    /// Receives the end-of-stream buffer.
    pub fn send_eos(&mut self) -> (code: i32)
        requires
            old(self).wf(),
        ensures
            final(self).wf(),
            code == 0,
            final(self)@ == (LoopbackState { eos: true, ..old(self)@ }),
            final(self).pictures() == old(self).pictures(),
            final(self).depth() == old(self).depth(),
            final(self).in_use() == old(self).in_use(),
    {
        self.eos = true;
        assert(self.queued() =~= old(self).queued());
        0
    }

    /// Polls for a packet: status and buffer address, as the native call
    /// reports them. The empty-queue status comes with a null address.
    pub fn get_packet(&mut self, end_of_input: bool) -> (r: (i32, usize))
        requires
            old(self).wf(),
        ensures
            final(self).wf(),
            (final(self)@, if r.0 == 0 {
                Some(r.1)
            } else {
                None
            }) == poll(old(self)@, end_of_input),
            r.0 == 0 || (r.0 == NO_ERROR_EMPTY_QUEUE && r.1 == 0),
            r.0 == 0 ==> r.1 != 0,
            r.0 == 0 ==> !old(self).in_use().contains(r.1),
            final(self).pictures() == old(self).pictures(),
            final(self).depth() == old(self).depth(),
            r.0 == 0 ==> final(self).in_use() == old(self).in_use().push(r.1),
            r.0 != 0 ==> final(self).in_use() == old(self).in_use(),
    {
        let ghost q0 = self.queued();
        if end_of_input && self.eos {
            self.ready.append(&mut self.delayed);
            assert(self.queued() =~= q0);
        }
        if self.ready.len() > 0 {
            let ghost h0 = self.handed_out@;
            let p = self.ready.remove(0);
            self.handed_out.push(p);
            proof {
                assert(p == q0[0]);
                assert(self.queued() =~= q0.drop_first());
                assert forall|i: int, j: int|
                    0 <= i < self.handed_out@.len() && 0 <= j < self.queued().len()
                        implies #[trigger] self.handed_out@[i] < #[trigger] self.queued()[j] by {
                    assert(self.queued()[j] == q0[j + 1]);
                    if i < h0.len() {
                        assert(self.handed_out@[i] == h0[i]);
                    }
                }
                assert(!h0.contains(p)) by {
                    if h0.contains(p) {
                        let k = choose|k: int| 0 <= k < h0.len() && h0[k] == p;
                        assert(h0[k] < q0[0]);
                    }
                }
            }
            (0, p)
        } else {
            (NO_ERROR_EMPTY_QUEUE, 0)
        }
    }

    /// Takes a packet back. Returns `false`, and changes nothing, when the
    /// address is not one handed out and still in use: a second release of
    /// the same packet is refused.
    pub fn release(&mut self, addr: usize) -> (accepted: bool)
        requires
            old(self).wf(),
        ensures
            final(self).wf(),
            accepted == old(self).in_use().contains(addr),
            accepted ==> exists|i: int|
                0 <= i < old(self).in_use().len() && old(self).in_use()[i] == addr
                    && final(self).in_use() == old(self).in_use().remove(i),
            !accepted ==> final(self).in_use() == old(self).in_use(),
            final(self)@ == old(self)@,
            final(self).pictures() == old(self).pictures(),
            final(self).depth() == old(self).depth(),
    {
        let mut i: usize = 0;
        while i < self.handed_out.len()
            invariant
                i <= self.handed_out@.len(),
                *self == *old(self),
                old(self).wf(),
                forall|j: int| 0 <= j < i ==> self.handed_out@[j] != addr,
            decreases self.handed_out@.len() - i,
        {
            if self.handed_out[i] == addr {
                let ghost h0 = self.handed_out@;
                self.handed_out.remove(i);
                assert(old(self).in_use()[i as int] == addr);
                assert forall|k: int| 0 <= k < self.handed_out@.len() implies
                    #[trigger] self.handed_out@[k] == h0[if k < i { k } else { k + 1 }] by {}
                assert(self.queued() =~= old(self).queued());
                return true;
            }
            i = i + 1;
        }
        assert(!self.handed_out@.contains(addr));
        false
    }

    /// The number of packets handed out and not yet released.
    pub fn outstanding(&self) -> (r: usize)
        ensures
            r == self.in_use().len(),
    {
        self.handed_out.len()
    }
}

/// Drains a session against this component: polls with `end_of_input`
/// until the queue is empty, hands each packet to the caller's list and
/// gives it straight back, so every packet obtained is released exactly
/// once and the packets in use afterwards are those in use before. The
/// packets come out in queue order.
pub fn drain_packets(enc: &mut Encoder, component: &mut LoopbackEncoder, end_of_input: bool) -> (r:
    Result<Vec<usize>>)
    requires
        old(enc).state() == Phase::Running || old(enc).state() == Phase::Draining,
        old(enc).state() == Phase::Draining ==> end_of_input,
        old(enc).in_flight() < u64::MAX,
        old(component).wf(),
    ensures
        r matches Ok(v) && v@ == drain(old(component)@, end_of_input),
        final(component)@ == drained(old(component)@, end_of_input),
        final(component).wf(),
        final(component).in_use() == old(component).in_use(),
        final(component).pictures() == old(component).pictures(),
        final(enc).state() == old(enc).state(),
        final(enc).reference() == old(enc).reference(),
        final(enc).in_flight() == old(enc).in_flight(),
{
    let mut out: Vec<usize> = Vec::new();
    loop
        invariant_except_break
            old(enc).state() == Phase::Running || old(enc).state() == Phase::Draining,
            old(enc).state() == Phase::Draining ==> end_of_input,
            old(enc).in_flight() < u64::MAX,
            enc.state() == old(enc).state(),
            enc.reference() == old(enc).reference(),
            enc.in_flight() == old(enc).in_flight(),
            component.wf(),
            component.in_use() == old(component).in_use(),
            component.pictures() == old(component).pictures(),
            out@ + drain(component@, end_of_input) == drain(old(component)@, end_of_input),
            drained(component@, end_of_input) == drained(old(component)@, end_of_input),
        ensures
            enc.state() == old(enc).state(),
            enc.reference() == old(enc).reference(),
            enc.in_flight() == old(enc).in_flight(),
            component.wf(),
            component.in_use() == old(component).in_use(),
            component.pictures() == old(component).pictures(),
            out@ == drain(old(component)@, end_of_input),
            component@ == drained(old(component)@, end_of_input),
        decreases component@.ready.len() + component@.delayed.len(),
    {
        let ghost before = component@;
        let ghost held = component.in_use();
        let (code, ptr) = component.get_packet(end_of_input);
        match enc.get_packet(end_of_input, code, ptr) {
            Ok(Some(packet)) => {
                let addr = enc.release(packet);
                out.push(addr);
                let ghost pushed = component.in_use();
                assert(pushed[held.len() as int] == addr);
                let accepted = component.release(addr);
                proof {
                    let k = choose|k: int|
                        0 <= k < pushed.len() && pushed[k] == addr && component.in_use()
                            == pushed.remove(k);
                    if k < held.len() {
                        assert(pushed[k] == held[k]);
                        assert(held.contains(addr));
                    }
                    assert(pushed.remove(k) =~= held);
                    assert(out@ + drain(component@, end_of_input) =~= out@.drop_last() + drain(
                        before,
                        end_of_input,
                    ));
                }
            },
            Ok(None) => {
                assert(out@ =~= out@ + drain(before, end_of_input));
                break ;
            },
            Err(_) => {
                assert(false);
                break ;
            },
        }
    }
    Ok(out)
}

} // verus!
