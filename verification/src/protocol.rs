//! The mathematical model of one drain pass.
//!
//! A drain pass walks the request queue from the front. Every request before
//! the first frame marker is dispatched to the device executor; the marker
//! itself is consumed and ends the pass; an empty queue also ends the pass.
//! These spec functions pin down which requests a pass consumes and
//! dispatches, which device operation each dispatched request becomes, and
//! which replies the calls among them earn — and the lemmas state the
//! ordering and pairing laws of the protocol over them.

use vstd::prelude::*;

use crate::device::DeviceOp;
use crate::msg::{is_call, is_cast, is_frame_marker, matches_call, Buffer, Reply, Request};

verus! {

/// The requests one drain pass dispatches to the device: the longest prefix
/// that stops short of the first frame marker.
pub open spec fn executed(reqs: Seq<Request>) -> Seq<Request>
    decreases reqs.len(),
{
    if reqs.len() == 0 {
        Seq::empty()
    } else if is_frame_marker(reqs[0]) {
        Seq::empty()
    } else {
        seq![reqs[0]] + executed(reqs.drop_first())
    }
}

/// How many queued requests one drain pass consumes: the dispatched prefix,
/// plus the frame marker itself when one is reached.
pub open spec fn drained(reqs: Seq<Request>) -> nat
    decreases reqs.len(),
{
    if reqs.len() == 0 {
        0
    } else if is_frame_marker(reqs[0]) {
        1
    } else {
        1 + drained(reqs.drop_first())
    }
}

/// Whether one drain pass reaches a frame marker — if so, the pass presents
/// exactly one frame; if not, it stops on the empty queue and presents none.
pub open spec fn frame_reached(reqs: Seq<Request>) -> bool
    decreases reqs.len(),
{
    if reqs.len() == 0 {
        false
    } else if is_frame_marker(reqs[0]) {
        true
    } else {
        frame_reached(reqs.drop_first())
    }
}

/// The call requests among `reqs`, in order.
pub open spec fn calls_of(reqs: Seq<Request>) -> Seq<Request>
    decreases reqs.len(),
{
    if reqs.len() == 0 {
        Seq::empty()
    } else if is_call(reqs[0]) {
        seq![reqs[0]] + calls_of(reqs.drop_first())
    } else {
        calls_of(reqs.drop_first())
    }
}

/// Whether `op` is the device operation that dispatching `req` performs.
/// The arguments of the operation are pinned down by the request; the handle
/// a creation operation returns is the device's own choice.
pub open spec fn op_matches_request(req: Request, op: DeviceOp) -> bool {
    match req {
        Request::CallNewBuffer(data) => match op {
            DeviceOp::CreateBuffer(d, _) => d == data@,
            _ => false,
        },
        Request::CallNewArrayBuffer => op is CreateArrayBuffer,
        Request::CallNewShader(kind, code) => match op {
            DeviceOp::CreateShader(k, c, _) => k == kind && c == code@,
            _ => false,
        },
        Request::CallNewProgram(shaders) => match op {
            DeviceOp::CreateProgram(s, _) => s == shaders@,
            _ => false,
        },
        Request::CastClear(color) => op == DeviceOp::Clear(color),
        Request::CastBindProgram(prog) => op == DeviceOp::BindProgram(prog),
        Request::CastBindArrayBuffer(abuf) => op == DeviceOp::BindArrayBuffer(abuf),
        Request::CastBindAttribute(slot, _buf, count, offset, stride) => op
            == DeviceOp::BindAttribute(slot, count as u32, offset, stride),
        Request::CastBindFrameBuffer(fbo) => op == DeviceOp::BindFrameBuffer(fbo),
        Request::CastDraw(start, count) => op == DeviceOp::Draw(
            start as u32,
            count as u32,
        ),
        Request::CastSwapBuffers => false,
    }
}

/// Whether `ops` is exactly the operation-by-operation dispatch of `reqs`:
/// one device operation per request, in order, each matching its request.
pub open spec fn ops_match(reqs: Seq<Request>, ops: Seq<DeviceOp>) -> bool {
    &&& ops.len() == reqs.len()
    &&& forall|i: int| 0 <= i < reqs.len() ==> op_matches_request(reqs[i], #[trigger] ops[i])
}

/// The reply owed for the creation operation `op`: the matching variant,
/// wrapping the handle the device minted. Non-creation operations owe none;
/// for them the result is irrelevant and never used.
pub open spec fn reply_of(op: DeviceOp) -> Reply {
    match op {
        DeviceOp::CreateBuffer(_, h) => Reply::ReplyNewBuffer(h),
        DeviceOp::CreateArrayBuffer(h) => Reply::ReplyNewArrayBuffer(h),
        DeviceOp::CreateShader(_, _, h) => Reply::ReplyNewShader(h),
        DeviceOp::CreateProgram(_, h) => Reply::ReplyNewProgram(h),
        _ => Reply::ReplyNewBuffer(Buffer { id: 0 }),
    }
}

/// The replies one drain pass sends back, given the dispatched requests and
/// their device operations in lockstep: one reply per call, in dispatch
/// order, none for casts.
pub open spec fn replies_of(reqs: Seq<Request>, ops: Seq<DeviceOp>) -> Seq<Reply>
    decreases reqs.len(),
{
    if reqs.len() == 0 || ops.len() == 0 {
        Seq::empty()
    } else {
        let rest = replies_of(reqs.drop_first(), ops.drop_first());
        if is_call(reqs[0]) {
            seq![reply_of(ops[0])] + rest
        } else {
            rest
        }
    }
}

/// Appending one dispatched request and its operation appends its reply —
/// one for a call, none for a cast.
pub proof fn lemma_replies_of_push(reqs: Seq<Request>, ops: Seq<DeviceOp>, req: Request, op: DeviceOp)
    requires
        reqs.len() == ops.len(),
    ensures
        replies_of(reqs.push(req), ops.push(op)) == replies_of(reqs, ops) + (if is_call(req) {
            seq![reply_of(op)]
        } else {
            Seq::<Reply>::empty()
        }),
    decreases reqs.len(),
{
    let tail = if is_call(req) {
        seq![reply_of(op)]
    } else {
        Seq::<Reply>::empty()
    };
    let reqs2 = reqs.push(req);
    let ops2 = ops.push(op);
    assert(reqs2.len() == reqs.len() + 1);
    assert(reqs2[0] == if reqs.len() == 0 {
        req
    } else {
        reqs[0]
    });
    assert(ops2[0] == if ops.len() == 0 {
        op
    } else {
        ops[0]
    });
    if reqs.len() == 0 {
        assert(reqs2.drop_first() =~= Seq::<Request>::empty());
        assert(ops2.drop_first() =~= Seq::<DeviceOp>::empty());
        assert(replies_of(reqs2.drop_first(), ops2.drop_first()) =~= Seq::<Reply>::empty());
        assert(replies_of(reqs, ops) =~= Seq::<Reply>::empty());
        assert(replies_of(reqs2, ops2) =~= replies_of(reqs, ops) + tail);
    } else {
        assert(reqs2.drop_first() =~= reqs.drop_first().push(req));
        assert(ops2.drop_first() =~= ops.drop_first().push(op));
        lemma_replies_of_push(reqs.drop_first(), ops.drop_first(), req, op);
        assert(replies_of(reqs2.drop_first(), ops2.drop_first()) == replies_of(
            reqs.drop_first(),
            ops.drop_first(),
        ) + tail);
        assert(replies_of(reqs2, ops2) =~= replies_of(reqs, ops) + tail);
    }
}

/// Extending a matching dispatch by one more matching pair keeps it matching.
pub proof fn lemma_ops_match_push(reqs: Seq<Request>, ops: Seq<DeviceOp>, req: Request, op: DeviceOp)
    requires
        ops_match(reqs, ops),
        op_matches_request(req, op),
    ensures
        ops_match(reqs.push(req), ops.push(op)),
{
    let reqs2 = reqs.push(req);
    let ops2 = ops.push(op);
    assert forall|i: int| 0 <= i < reqs2.len() implies op_matches_request(
        reqs2[i],
        #[trigger] ops2[i],
    ) by {
        if i < reqs.len() {
            assert(reqs2[i] == reqs[i]);
            assert(ops2[i] == ops[i]);
        } else {
            assert(reqs2[i] == req);
            assert(ops2[i] == op);
        }
    }
}

/// Ordered pairing of calls and replies: when a drain dispatches `reqs` as
/// the operations `ops`, it sends exactly one reply per call among `reqs`,
/// in the order the calls were sent, and each reply is of the variant that
/// matches its own call.
pub proof fn lemma_replies_pair_calls(reqs: Seq<Request>, ops: Seq<DeviceOp>)
    requires
        ops_match(reqs, ops),
    ensures
        replies_of(reqs, ops).len() == calls_of(reqs).len(),
        forall|i: int|
            0 <= i < calls_of(reqs).len() ==> matches_call(
                calls_of(reqs)[i],
                #[trigger] replies_of(reqs, ops)[i],
            ),
    decreases reqs.len(),
{
    if reqs.len() == 0 {
    } else {
        let rtail = reqs.drop_first();
        let otail = ops.drop_first();
        assert forall|i: int| 0 <= i < rtail.len() implies op_matches_request(
            rtail[i],
            #[trigger] otail[i],
        ) by {
            assert(rtail[i] == reqs[i + 1]);
            assert(otail[i] == ops[i + 1]);
            assert(op_matches_request(reqs[i + 1], ops[i + 1]));
        }
        lemma_replies_pair_calls(rtail, otail);
        assert(op_matches_request(reqs[0], ops[0]));
        if is_call(reqs[0]) {
            assert(matches_call(reqs[0], reply_of(ops[0])));
            assert(calls_of(reqs) == seq![reqs[0]] + calls_of(rtail));
            assert(replies_of(reqs, ops) == seq![reply_of(ops[0])] + replies_of(rtail, otail));
        }
    }
}

/// Casts are one-way: a dispatch containing no call sends no reply at all.
pub proof fn lemma_casts_earn_no_reply(reqs: Seq<Request>, ops: Seq<DeviceOp>)
    requires
        forall|i: int| 0 <= i < reqs.len() ==> is_cast(#[trigger] reqs[i]),
    ensures
        replies_of(reqs, ops) == Seq::<Reply>::empty(),
    decreases reqs.len(),
{
    if reqs.len() == 0 || ops.len() == 0 {
    } else {
        assert(!is_call(reqs[0]));
        let rtail = reqs.drop_first();
        assert forall|i: int| 0 <= i < rtail.len() implies !is_call(#[trigger] rtail[i]) by {
            assert(rtail[i] == reqs[i + 1]);
        }
        lemma_casts_earn_no_reply(rtail, ops.drop_first());
    }
}

/// A single drain pass over an empty queue dispatches nothing, reaches no
/// frame boundary — so it presents nothing — and consumes nothing.
pub proof fn lemma_empty_queue_drain()
    ensures
        executed(Seq::<Request>::empty()) == Seq::<Request>::empty(),
        !frame_reached(Seq::<Request>::empty()),
        drained(Seq::<Request>::empty()) == 0,
        replies_of(Seq::<Request>::empty(), Seq::<DeviceOp>::empty()) == Seq::<Reply>::empty(),
{
}

/// A single drain pass over a queue holding casts, then one frame marker,
/// then whatever was queued after it: the pass dispatches exactly the
/// requests before the marker, in send order, consumes the marker, reaches
/// the frame boundary, and leaves everything after the marker queued.
pub proof fn lemma_drain_to_marker(before: Seq<Request>, after: Seq<Request>)
    requires
        forall|i: int| 0 <= i < before.len() ==> !is_frame_marker(#[trigger] before[i]),
    ensures
        executed(before + seq![Request::CastSwapBuffers] + after) == before,
        frame_reached(before + seq![Request::CastSwapBuffers] + after),
        drained(before + seq![Request::CastSwapBuffers] + after) == before.len() + 1,
    decreases before.len(),
{
    let whole = before + seq![Request::CastSwapBuffers] + after;
    if before.len() == 0 {
        assert(whole[0] == Request::CastSwapBuffers);
        assert(executed(whole) =~= before);
    } else {
        let btail = before.drop_first();
        assert forall|i: int| 0 <= i < btail.len() implies !is_frame_marker(
            #[trigger] btail[i],
        ) by {
            assert(btail[i] == before[i + 1]);
        }
        lemma_drain_to_marker(btail, after);
        assert(whole[0] == before[0]);
        assert(!is_frame_marker(whole[0]));
        assert(whole.drop_first() =~= btail + seq![Request::CastSwapBuffers] + after);
        assert(executed(whole) == seq![whole[0]] + executed(whole.drop_first()));
        assert(executed(whole) =~= before);
    }
}

/// A single drain pass over a queue holding no frame marker at all: the
/// pass dispatches the whole queue in send order, reaches no frame boundary,
/// and leaves the queue empty.
pub proof fn lemma_drain_whole_queue(reqs: Seq<Request>)
    requires
        forall|i: int| 0 <= i < reqs.len() ==> !is_frame_marker(#[trigger] reqs[i]),
    ensures
        executed(reqs) == reqs,
        !frame_reached(reqs),
        drained(reqs) == reqs.len(),
    decreases reqs.len(),
{
    if reqs.len() == 0 {
        assert(executed(reqs) =~= reqs);
    } else {
        let rtail = reqs.drop_first();
        assert forall|i: int| 0 <= i < rtail.len() implies !is_frame_marker(
            #[trigger] rtail[i],
        ) by {
            assert(rtail[i] == reqs[i + 1]);
        }
        lemma_drain_whole_queue(rtail);
        assert(executed(reqs) =~= reqs);
    }
}

} // verus!
