//! The consumer-side endpoint: owns the device executor and the graphics
//! context, and drains the queued commands once per tick.

use vstd::prelude::*;

use crate::channel::{Channel, PollResult};
use crate::device::{DeviceExecutor, DeviceOp, GraphicsContext};
use crate::msg::{is_call, is_frame_marker, Reply, Request};
use crate::protocol::{
    drained, executed, frame_reached, lemma_ops_match_push, lemma_replies_of_push,
    op_matches_request, ops_match, replies_of, reply_of,
};

verus! {

/// The consumer-side endpoint. It exclusively owns the device executor and
/// the presentation context; neither is ever exposed to the producer. The
/// server must only ever be driven from the thread that owns the device's
/// underlying context — that affinity is established at construction and is
/// a structural obligation on the embedding program, not re-checked here.
pub struct Server<D, P> {
    /// The device executor every drained command is dispatched to.
    pub device: D,
    /// The presentation collaborator; told to swap once per completed frame.
    pub graphics_context: P,
}

/// One step of the drain pass: consuming the front request `req` of the
/// still-pending queue `pending` and dispatching it as the operation `op`
/// carries every loop relation from `done` dispatched requests to
/// `done.push(req)`.
proof fn lemma_drain_step(
    reqs0: Seq<Request>,
    done: Seq<Request>,
    pending: Seq<Request>,
    req: Request,
    log0: Seq<DeviceOp>,
    log_prev: Seq<DeviceOp>,
    log_now: Seq<DeviceOp>,
    op: DeviceOp,
)
    requires
        !is_frame_marker(req),
        op_matches_request(req, op),
        pending.len() > 0,
        req == pending[0],
        reqs0 == done + pending,
        executed(reqs0) == done + executed(pending),
        frame_reached(reqs0) == frame_reached(pending),
        drained(reqs0) == done.len() + drained(pending),
        log0.len() <= log_prev.len(),
        log_prev.take(log0.len() as int) == log0,
        log_prev.len() == log0.len() + done.len(),
        ops_match(done, log_prev.skip(log0.len() as int)),
        log_now == log_prev.push(op),
    ensures
        reqs0 == done.push(req) + pending.drop_first(),
        executed(reqs0) == done.push(req) + executed(pending.drop_first()),
        frame_reached(reqs0) == frame_reached(pending.drop_first()),
        drained(reqs0) == done.push(req).len() + drained(pending.drop_first()),
        log0.len() <= log_now.len(),
        log_now.take(log0.len() as int) == log0,
        log_now.len() == log0.len() + done.push(req).len(),
        ops_match(done.push(req), log_now.skip(log0.len() as int)),
        is_call(req) ==> replies_of(done.push(req), log_now.skip(log0.len() as int))
            == replies_of(done, log_prev.skip(log0.len() as int)).push(reply_of(op)),
        !is_call(req) ==> replies_of(done.push(req), log_now.skip(log0.len() as int))
            == replies_of(done, log_prev.skip(log0.len() as int)),
{
    let ops_prev = log_prev.skip(log0.len() as int);
    let ops_now = log_now.skip(log0.len() as int);
    assert(pending =~= seq![req] + pending.drop_first());
    assert(reqs0 =~= done.push(req) + pending.drop_first());
    assert(executed(pending) == seq![req] + executed(pending.drop_first()));
    assert(executed(reqs0) =~= done.push(req) + executed(pending.drop_first()));
    assert(drained(pending) == 1 + drained(pending.drop_first()));
    assert(log_now.take(log0.len() as int) =~= log0);
    assert(ops_now =~= ops_prev.push(op));
    lemma_ops_match_push(done, ops_prev, req, op);
    lemma_replies_of_push(done, ops_prev, req, op);
    if is_call(req) {
        assert(replies_of(done, ops_prev) + seq![reply_of(op)] =~= replies_of(
            done,
            ops_prev,
        ).push(reply_of(op)));
    } else {
        assert(replies_of(done, ops_prev) + Seq::<Reply>::empty() =~= replies_of(
            done,
            ops_prev,
        ));
    }
}

impl<D: DeviceExecutor, P: GraphicsContext> Server<D, P> {
    /// Drain the queued commands once.
    ///
    /// Commands are taken strictly in send order. Each cast other than the
    /// frame marker is dispatched to the device executor; each call is
    /// dispatched and its reply — wrapping the handle the device minted —
    /// is queued back, so replies leave in exactly the order their calls
    /// arrived. The pass stops at the first frame marker, presenting
    /// exactly one frame and leaving later commands queued for the next
    /// pass; or on an empty queue, presenting nothing. The result is true
    /// while the session continues and false once the producer has
    /// disconnected and the queue is fully drained; after false, `update`
    /// must not be called again.
    pub fn update(&mut self, chan: &mut Channel) -> (alive: bool)
        ensures
            ({
                let reqs = old(chan).requests@;
                let done = executed(reqs);
                let log0 = old(self).device.log();
                let ops = final(self).device.log().skip(log0.len() as int);
                let hit = frame_reached(reqs);
                &&& final(chan).requests@ == reqs.skip(drained(reqs) as int)
                &&& final(chan).connected == old(chan).connected
                &&& final(self).device.log().len() == log0.len() + done.len()
                &&& final(self).device.log().take(log0.len() as int) == log0
                &&& ops_match(done, ops)
                &&& final(chan).replies@ == old(chan).replies@ + replies_of(done, ops)
                &&& final(self).graphics_context.frames() == old(self).graphics_context.frames()
                    + (if hit {
                    1nat
                } else {
                    0nat
                })
                &&& alive == (hit || old(chan).connected)
            }),
    {
        let ghost reqs0 = chan.requests@;
        let ghost replies0 = chan.replies@;
        let ghost conn0 = chan.connected;
        let ghost log0 = self.device.log();
        let ghost frames0 = self.graphics_context.frames();
        let ghost mut done: Seq<Request> = Seq::empty();
        let mut hit: bool = false;
        let mut alive: bool = true;
        let mut draining: bool = true;
        proof {
            assert(reqs0 =~= done + chan.requests@);
            assert(executed(reqs0) =~= done + executed(chan.requests@));
            assert(log0.take(log0.len() as int) =~= log0);
            assert(log0.skip(log0.len() as int) =~= Seq::<DeviceOp>::empty());
            assert(replies0 + replies_of(done, log0.skip(log0.len() as int)) =~= replies0);
        }
        while draining
            invariant
                chan.connected == conn0,
                self.graphics_context.frames() == frames0,
                log0.len() <= self.device.log().len(),
                self.device.log().take(log0.len() as int) == log0,
                self.device.log().len() == log0.len() + done.len(),
                ops_match(done, self.device.log().skip(log0.len() as int)),
                chan.replies@ == replies0 + replies_of(
                    done,
                    self.device.log().skip(log0.len() as int),
                ),
                draining ==> {
                    &&& !hit
                    &&& alive
                    &&& reqs0 == done + chan.requests@
                    &&& executed(reqs0) == done + executed(chan.requests@)
                    &&& frame_reached(reqs0) == frame_reached(chan.requests@)
                    &&& drained(reqs0) == done.len() + drained(chan.requests@)
                },
                !draining ==> {
                    &&& done == executed(reqs0)
                    &&& hit == frame_reached(reqs0)
                    &&& chan.requests@ == reqs0.skip(drained(reqs0) as int)
                    &&& alive == (hit || conn0)
                },
            decreases chan.requests@.len() + (if draining {
                1int
            } else {
                0int
            }),
        {
            let ghost pending = chan.requests@;
            let ghost log_prev = self.device.log();
            let ghost ops_prev = log_prev.skip(log0.len() as int);
            match chan.try_recv_request() {
                PollResult::Empty => {
                    draining = false;
                    proof {
                        assert(executed(pending) =~= Seq::<Request>::empty());
                        assert(done + executed(pending) =~= done);
                        assert(reqs0 =~= done);
                        assert(reqs0.skip(drained(reqs0) as int) =~= chan.requests@);
                    }
                },
                PollResult::Disconnected => {
                    draining = false;
                    alive = false;
                    proof {
                        assert(executed(pending) =~= Seq::<Request>::empty());
                        assert(done + executed(pending) =~= done);
                        assert(reqs0 =~= done);
                        assert(reqs0.skip(drained(reqs0) as int) =~= chan.requests@);
                    }
                },
                PollResult::Message(req) => {
                    let ghost reqg = req;
                    match req {
                        Request::CastSwapBuffers => {
                            hit = true;
                            draining = false;
                            proof {
                                assert(is_frame_marker(reqg));
                                assert(executed(pending) =~= Seq::<Request>::empty());
                                assert(done + executed(pending) =~= done);
                                assert(drained(pending) == 1);
                                assert(reqs0 =~= done + pending);
                                assert(reqs0.skip(drained(reqs0) as int) =~= pending.drop_first());
                            }
                        },
                        Request::CastClear(color) => {
                            self.device.clear(color);
                            proof {
                                let op = self.device.log().last();
                                assert(self.device.log() == log_prev.push(op));
                                lemma_drain_step(
                                    reqs0, done, pending, reqg, log0, log_prev,
                                    self.device.log(), op,
                                );
                                done = done.push(reqg);
                            }
                        },
                        Request::CastBindProgram(prog) => {
                            self.device.bind_program(prog);
                            proof {
                                let op = self.device.log().last();
                                assert(self.device.log() == log_prev.push(op));
                                lemma_drain_step(
                                    reqs0, done, pending, reqg, log0, log_prev,
                                    self.device.log(), op,
                                );
                                done = done.push(reqg);
                            }
                        },
                        Request::CastBindArrayBuffer(abuf) => {
                            self.device.bind_array_buffer(abuf);
                            proof {
                                let op = self.device.log().last();
                                assert(self.device.log() == log_prev.push(op));
                                lemma_drain_step(
                                    reqs0, done, pending, reqg, log0, log_prev,
                                    self.device.log(), op,
                                );
                                done = done.push(reqg);
                            }
                        },
                        Request::CastBindAttribute(index, _buf, count, offset, stride) => {
                            self.device.bind_attribute(index, count as u32, offset, stride);
                            proof {
                                let op = self.device.log().last();
                                assert(self.device.log() == log_prev.push(op));
                                lemma_drain_step(
                                    reqs0, done, pending, reqg, log0, log_prev,
                                    self.device.log(), op,
                                );
                                done = done.push(reqg);
                            }
                        },
                        Request::CastBindFrameBuffer(fbo) => {
                            self.device.bind_frame_buffer(fbo);
                            proof {
                                let op = self.device.log().last();
                                assert(self.device.log() == log_prev.push(op));
                                lemma_drain_step(
                                    reqs0, done, pending, reqg, log0, log_prev,
                                    self.device.log(), op,
                                );
                                done = done.push(reqg);
                            }
                        },
                        Request::CastDraw(offset, count) => {
                            self.device.draw(offset as u32, count as u32);
                            proof {
                                let op = self.device.log().last();
                                assert(self.device.log() == log_prev.push(op));
                                lemma_drain_step(
                                    reqs0, done, pending, reqg, log0, log_prev,
                                    self.device.log(), op,
                                );
                                done = done.push(reqg);
                            }
                        },
                        Request::CallNewBuffer(data) => {
                            let h = self.device.create_buffer(data);
                            proof {
                                let op = self.device.log().last();
                                assert(self.device.log() == log_prev.push(op));
                                lemma_drain_step(
                                    reqs0, done, pending, reqg, log0, log_prev,
                                    self.device.log(), op,
                                );
                                done = done.push(reqg);
                                assert(reply_of(op) == Reply::ReplyNewBuffer(h));
                            }
                            chan.send_reply(Reply::ReplyNewBuffer(h));
                        },
                        Request::CallNewArrayBuffer => {
                            let h = self.device.create_array_buffer();
                            proof {
                                let op = self.device.log().last();
                                assert(self.device.log() == log_prev.push(op));
                                lemma_drain_step(
                                    reqs0, done, pending, reqg, log0, log_prev,
                                    self.device.log(), op,
                                );
                                done = done.push(reqg);
                                assert(reply_of(op) == Reply::ReplyNewArrayBuffer(h));
                            }
                            chan.send_reply(Reply::ReplyNewArrayBuffer(h));
                        },
                        Request::CallNewShader(kind, code) => {
                            let h = self.device.create_shader(kind, code);
                            proof {
                                let op = self.device.log().last();
                                assert(self.device.log() == log_prev.push(op));
                                lemma_drain_step(
                                    reqs0, done, pending, reqg, log0, log_prev,
                                    self.device.log(), op,
                                );
                                done = done.push(reqg);
                                assert(reply_of(op) == Reply::ReplyNewShader(h));
                            }
                            chan.send_reply(Reply::ReplyNewShader(h));
                        },
                        Request::CallNewProgram(shaders) => {
                            let h = self.device.create_program(shaders);
                            proof {
                                let op = self.device.log().last();
                                assert(self.device.log() == log_prev.push(op));
                                lemma_drain_step(
                                    reqs0, done, pending, reqg, log0, log_prev,
                                    self.device.log(), op,
                                );
                                done = done.push(reqg);
                                assert(reply_of(op) == Reply::ReplyNewProgram(h));
                            }
                            chan.send_reply(Reply::ReplyNewProgram(h));
                        },
                    }
                },
            }
        }
        if hit {
            self.graphics_context.swap_buffers();
        }
        alive
    }
}

} // verus!
