//! The transport: an ordered, bidirectional, in-process channel pair.
//!
//! Requests travel from producer to consumer, replies the other way, each
//! direction strictly first-in first-out. The channel is a plain value that
//! both endpoints operate on, so the ordering and pairing guarantees of the
//! protocol are stated and proved directly over its two queues.

use vstd::prelude::*;

use crate::msg::{Reply, Request};

verus! {

/// Outcome of one non-blocking receive attempt on the request queue.
#[derive(Debug)]
pub enum PollResult {
    /// The oldest queued request.
    Message(Request),
    /// Nothing queued right now; the producer is still connected.
    Empty,
    /// Nothing queued and the producer has disconnected for good.
    Disconnected,
}

/// The duplex stream linking the `Client` to the `Server`.
///
/// `requests` and `replies` are kept oldest-first; `connected` turns false
/// exactly once, when the producer side hangs up.
pub struct Channel {
    pub requests: Vec<Request>,
    pub replies: Vec<Reply>,
    pub connected: bool,
}

impl Channel {
    /// A fresh, connected channel with both queues empty.
    pub fn new() -> (c: Channel)
        ensures
            c.requests@ == Seq::<Request>::empty(),
            c.replies@ == Seq::<Reply>::empty(),
            c.connected,
    {
        Channel { requests: Vec::new(), replies: Vec::new(), connected: true }
    }

    /// Enqueue one request behind all earlier ones.
    pub fn send_request(&mut self, req: Request)
        ensures
            final(self).requests@ == old(self).requests@.push(req),
            final(self).replies@ == old(self).replies@,
            final(self).connected == old(self).connected,
    {
        self.requests.push(req);
    }

    /// Enqueue one reply behind all earlier ones.
    pub fn send_reply(&mut self, rep: Reply)
        ensures
            final(self).requests@ == old(self).requests@,
            final(self).replies@ == old(self).replies@.push(rep),
            final(self).connected == old(self).connected,
    {
        self.replies.push(rep);
    }

    /// Non-blocking receive on the request queue: takes the oldest request
    /// if one is queued; otherwise reports whether the producer is still
    /// connected. Requests queued before a disconnect are still delivered.
    pub fn try_recv_request(&mut self) -> (r: PollResult)
        ensures
            old(self).requests@.len() > 0 ==> {
                &&& r is Message
                &&& (r matches PollResult::Message(req) && req == old(self).requests@[0])
                &&& final(self).requests@ == old(self).requests@.drop_first()
            },
            old(self).requests@.len() == 0 ==> {
                &&& final(self).requests@ == old(self).requests@
                &&& (if old(self).connected {
                    r is Empty
                } else {
                    r is Disconnected
                })
            },
            final(self).replies@ == old(self).replies@,
            final(self).connected == old(self).connected,
    {
        if self.requests.len() > 0 {
            let req = self.requests.remove(0);
            proof {
                assert(old(self).requests@.remove(0) =~= old(self).requests@.drop_first());
            }
            PollResult::Message(req)
        } else if self.connected {
            PollResult::Empty
        } else {
            PollResult::Disconnected
        }
    }

    /// Non-blocking receive on the reply queue: takes the oldest reply if
    /// one is queued.
    pub fn try_recv_reply(&mut self) -> (r: Option<Reply>)
        ensures
            old(self).replies@.len() > 0 ==> {
                &&& r == Some(old(self).replies@[0])
                &&& final(self).replies@ == old(self).replies@.drop_first()
            },
            old(self).replies@.len() == 0 ==> {
                &&& r is None
                &&& final(self).replies@ == old(self).replies@
            },
            final(self).requests@ == old(self).requests@,
            final(self).connected == old(self).connected,
    {
        if self.replies.len() > 0 {
            let rep = self.replies.remove(0);
            proof {
                assert(old(self).replies@.remove(0) =~= old(self).replies@.drop_first());
            }
            Some(rep)
        } else {
            None
        }
    }

    /// The producer hangs up. Requests already queued stay deliverable; once
    /// the queue runs dry the consumer sees `Disconnected` instead of
    /// `Empty`.
    pub fn disconnect(&mut self)
        ensures
            final(self).requests@ == old(self).requests@,
            final(self).replies@ == old(self).replies@,
            !final(self).connected,
    {
        self.connected = false;
    }
}

} // verus!
