//! What the transport's queueing discipline guarantees about packet order.
//!
//! Each direction of the transport is a chain of FIFO stages: the caller's
//! `send` calls feed the outbound queue, the send worker drains it and writes
//! one wire record per packet; the receive worker reads records off the wire
//! and feeds the inbound queue, which `try_recv` drains.  The lemmas here
//! state that no stage — and therefore no chain of stages — reorders, drops
//! or duplicates a packet it has passed on, and that the byte stream built
//! from self-delimiting records is unambiguous: it decodes back to exactly
//! the packets that were written, in order.

use vstd::prelude::*;

verus! {

/// One FIFO stage, viewed at any instant: what the consumer has taken so far
/// is exactly the first part of what the producer has put in, in the same
/// order.
pub open spec fn fifo_taken<A>(put: Seq<A>, taken: Seq<A>) -> bool {
    &&& taken.len() <= put.len()
    &&& taken == put.take(taken.len() as int)
}

/// Order preservation, outbound: whatever the interleaving of the caller and
/// the send worker, every packet the worker has taken from the outbound queue
/// — and so every wire record it has written — stands at the same position it
/// had in the caller's sequence of `send` calls, with nothing skipped before
/// it.
pub proof fn lemma_outbound_order<A>(sent: Seq<A>, written: Seq<A>)
    requires
        fifo_taken(sent, written),
    ensures
        written.len() <= sent.len(),
        forall|i: int| 0 <= i < written.len() ==> written[i] == sent[i],
{
    assert forall|i: int| 0 <= i < written.len() implies written[i] == sent[i] by {
        assert(written[i] == sent.take(written.len() as int)[i]);
    }
}

/// FIFO stages compose: a consumer that takes, in order, from a stage that
/// itself took in order, has taken an in-order prefix of the first input.
pub proof fn lemma_fifo_compose<A>(put: Seq<A>, mid: Seq<A>, taken: Seq<A>)
    requires
        fifo_taken(put, mid),
        fifo_taken(mid, taken),
    ensures
        fifo_taken(put, taken),
{
    let n = taken.len() as int;
    assert forall|i: int| 0 <= i < n implies taken[i] == put[i] by {
        assert(taken[i] == mid.take(n)[i]);
        assert(mid[i] == put.take(mid.len() as int)[i]);
    }
    assert(taken =~= put.take(n));
}

/// Order preservation, inbound: packets fully received from the wire in a
/// given order and forwarded through the inbound queue are yielded by
/// successive `try_recv` calls in exactly that order — never reordered, and
/// never with a gap before a yielded packet.
pub proof fn lemma_inbound_order<A>(wire: Seq<A>, queued: Seq<A>, delivered: Seq<A>)
    requires
        fifo_taken(wire, queued),
        fifo_taken(queued, delivered),
    ensures
        delivered.len() <= wire.len(),
        forall|i: int| 0 <= i < delivered.len() ==> delivered[i] == wire[i],
{
    lemma_fifo_compose(wire, queued, delivered);
    lemma_outbound_order(wire, delivered);
}

/// The byte stream the send worker produces: each packet's wire record,
/// concatenated in the order the packets were taken from the queue.
pub open spec fn wire_bytes<A>(packets: Seq<A>, enc: spec_fn(A) -> Seq<u8>) -> Seq<u8>
    decreases packets.len(),
{
    if packets.len() == 0 {
        Seq::empty()
    } else {
        enc(packets[0]) + wire_bytes(packets.drop_first(), enc)
    }
}

/// A self-delimiting record encoding: no record is empty, and a record that
/// starts another record byte-for-byte is that record, of the same packet —
/// so a reader can find each record boundary without a length prefix.
pub open spec fn self_delimiting<A>(enc: spec_fn(A) -> Seq<u8>) -> bool {
    &&& (forall|a: A| (#[trigger] enc(a)).len() > 0)
    &&& (forall|a: A, b: A|
        #![trigger enc(a), enc(b)]
        enc(a).len() <= enc(b).len() && enc(a) == enc(b).take(enc(a).len() as int) ==> a == b)
}

/// The wire stream is unambiguous: two packet sequences whose concatenated
/// records agree byte-for-byte are the same sequence.  So the bytes the send
/// worker has written decode to exactly the packets the caller sent, in
/// order, and to nothing else.
pub proof fn lemma_wire_unambiguous<A>(xs: Seq<A>, ys: Seq<A>, enc: spec_fn(A) -> Seq<u8>)
    requires
        self_delimiting(enc),
        wire_bytes(xs, enc) == wire_bytes(ys, enc),
    ensures
        xs == ys,
    decreases xs.len(),
{
    if xs.len() == 0 && ys.len() == 0 {
        assert(xs =~= ys);
    } else if xs.len() == 0 {
        assert(wire_bytes(ys, enc).len() >= enc(ys[0]).len());
        assert(false);
    } else if ys.len() == 0 {
        assert(wire_bytes(xs, enc).len() >= enc(xs[0]).len());
        assert(false);
    } else {
        let w = wire_bytes(xs, enc);
        let ex = enc(xs[0]);
        let ey = enc(ys[0]);
        assert(w == ex + wire_bytes(xs.drop_first(), enc));
        assert(w == ey + wire_bytes(ys.drop_first(), enc));
        if ex.len() <= ey.len() {
            assert(ex =~= ey.take(ex.len() as int)) by {
                assert forall|i: int| 0 <= i < ex.len() implies ex[i] == ey[i] by {
                    assert(w[i] == ex[i]);
                    assert(w[i] == ey[i]);
                }
            }
            assert(xs[0] == ys[0]);
        } else {
            assert(ey =~= ex.take(ey.len() as int)) by {
                assert forall|i: int| 0 <= i < ey.len() implies ey[i] == ex[i] by {
                    assert(w[i] == ey[i]);
                    assert(w[i] == ex[i]);
                }
            }
            assert(ys[0] == xs[0]);
        }
        assert(wire_bytes(xs.drop_first(), enc) =~= wire_bytes(ys.drop_first(), enc)) by {
            let tx = wire_bytes(xs.drop_first(), enc);
            let ty = wire_bytes(ys.drop_first(), enc);
            assert(tx.len() == ty.len());
            assert forall|i: int| 0 <= i < tx.len() implies tx[i] == ty[i] by {
                assert(tx[i] == w[ex.len() + i]);
                assert(ty[i] == w[ey.len() + i]);
            }
        }
        lemma_wire_unambiguous(xs.drop_first(), ys.drop_first(), enc);
        assert(xs =~= ys) by {
            assert(xs.drop_first() =~= ys.drop_first());
            assert forall|i: int| 0 <= i < xs.len() implies xs[i] == ys[i] by {
                if i > 0 {
                    assert(xs[i] == xs.drop_first()[i - 1]);
                    assert(ys[i] == ys.drop_first()[i - 1]);
                }
            }
        }
    }
}

} // verus!
