//! The producer-side facade over the command vocabulary.
//!
//! Cast-style methods enqueue their command and return at once: the only
//! guarantee is that the command is queued in order. Call-style methods
//! enqueue their command; the paired reply is consumed by the matching
//! `recv_*` method once the consumer has drained the call — the reply
//! queue is read strictly in arrival order, so the oldest outstanding call
//! is always the one answered next.

use vstd::prelude::*;

use crate::channel::Channel;
use crate::msg::{
    ArrayBuffer, Buffer, Color, FrameBuffer, Program, Reply, Request, Shader, VertexCount,
};

verus! {

/// Why a `recv_*` method returned no handle.
#[derive(Clone, Copy, PartialEq, Eq, Structural, Debug)]
pub enum RecvError {
    /// No reply has arrived yet; drain the server and ask again.
    WouldBlock,
    /// The oldest reply is of the wrong variant: the two sides have
    /// desynchronized. This violates the protocol invariant and is fatal —
    /// the session must be abandoned, not resynchronized.
    UnexpectedReply,
}

/// The producer-side endpoint. It owns no queue state of its own: it writes
/// requests to, and reads replies from, the channel it is handed.
pub struct Client {}

impl Client {
    /// Queue a clear of the render target to the given color.
    pub fn clear(&self, chan: &mut Channel, color: Color)
        ensures
            final(chan).requests@ == old(chan).requests@.push(Request::CastClear(color)),
            final(chan).replies@ == old(chan).replies@,
            final(chan).connected == old(chan).connected,
    {
        chan.send_request(Request::CastClear(color));
    }

    /// Queue a bind of the given program.
    pub fn bind_program(&self, chan: &mut Channel, prog: Program)
        ensures
            final(chan).requests@ == old(chan).requests@.push(Request::CastBindProgram(prog)),
            final(chan).replies@ == old(chan).replies@,
            final(chan).connected == old(chan).connected,
    {
        chan.send_request(Request::CastBindProgram(prog));
    }

    /// Queue a bind of the given array buffer.
    pub fn bind_array_buffer(&self, chan: &mut Channel, abuf: ArrayBuffer)
        ensures
            final(chan).requests@ == old(chan).requests@.push(
                Request::CastBindArrayBuffer(abuf),
            ),
            final(chan).replies@ == old(chan).replies@,
            final(chan).connected == old(chan).connected,
    {
        chan.send_request(Request::CastBindArrayBuffer(abuf));
    }

    /// Queue an attribute binding: slot, backing buffer, vertex count, byte
    /// offset and byte stride.
    pub fn bind_attribute(
        &self,
        chan: &mut Channel,
        index: u8,
        buf: Buffer,
        count: VertexCount,
        offset: u32,
        stride: u32,
    )
        ensures
            final(chan).requests@ == old(chan).requests@.push(
                Request::CastBindAttribute(index, buf, count, offset, stride),
            ),
            final(chan).replies@ == old(chan).replies@,
            final(chan).connected == old(chan).connected,
    {
        chan.send_request(Request::CastBindAttribute(index, buf, count, offset, stride));
    }

    /// Queue a bind of the given frame buffer.
    pub fn bind_frame_buffer(&self, chan: &mut Channel, fbo: FrameBuffer)
        ensures
            final(chan).requests@ == old(chan).requests@.push(
                Request::CastBindFrameBuffer(fbo),
            ),
            final(chan).replies@ == old(chan).replies@,
            final(chan).connected == old(chan).connected,
    {
        chan.send_request(Request::CastBindFrameBuffer(fbo));
    }

    /// Queue a draw of `count` vertices starting at `offset`.
    pub fn draw(&self, chan: &mut Channel, offset: VertexCount, count: VertexCount)
        ensures
            final(chan).requests@ == old(chan).requests@.push(
                Request::CastDraw(offset, count),
            ),
            final(chan).replies@ == old(chan).replies@,
            final(chan).connected == old(chan).connected,
    {
        chan.send_request(Request::CastDraw(offset, count));
    }

    /// Queue the frame boundary marker: the next drain pass stops here and
    /// presents the frame.
    pub fn end_frame(&self, chan: &mut Channel)
        ensures
            final(chan).requests@ == old(chan).requests@.push(Request::CastSwapBuffers),
            final(chan).replies@ == old(chan).replies@,
            final(chan).connected == old(chan).connected,
    {
        chan.send_request(Request::CastSwapBuffers);
    }

    /// Queue a shader compilation call; its reply is claimed by
    /// `recv_shader`.
    pub fn new_shader(&self, chan: &mut Channel, kind: char, code: Vec<u8>)
        ensures
            final(chan).requests@ == old(chan).requests@.push(
                Request::CallNewShader(kind, code),
            ),
            final(chan).replies@ == old(chan).replies@,
            final(chan).connected == old(chan).connected,
    {
        chan.send_request(Request::CallNewShader(kind, code));
    }

    /// Queue a program link call; its reply is claimed by `recv_program`.
    pub fn new_program(&self, chan: &mut Channel, shaders: Vec<Shader>)
        ensures
            final(chan).requests@ == old(chan).requests@.push(
                Request::CallNewProgram(shaders),
            ),
            final(chan).replies@ == old(chan).replies@,
            final(chan).connected == old(chan).connected,
    {
        chan.send_request(Request::CallNewProgram(shaders));
    }

    /// Queue a buffer creation call; its reply is claimed by `recv_buffer`.
    /// The data words are the bit patterns of single-precision floats.
    pub fn new_buffer(&self, chan: &mut Channel, data: Vec<u32>)
        ensures
            final(chan).requests@ == old(chan).requests@.push(Request::CallNewBuffer(data)),
            final(chan).replies@ == old(chan).replies@,
            final(chan).connected == old(chan).connected,
    {
        chan.send_request(Request::CallNewBuffer(data));
    }

    /// Queue an array buffer creation call; its reply is claimed by
    /// `recv_array_buffer`.
    pub fn new_array_buffer(&self, chan: &mut Channel)
        ensures
            final(chan).requests@ == old(chan).requests@.push(Request::CallNewArrayBuffer),
            final(chan).replies@ == old(chan).replies@,
            final(chan).connected == old(chan).connected,
    {
        chan.send_request(Request::CallNewArrayBuffer);
    }

    /// Claim the reply of the oldest outstanding `new_shader` call. The
    /// oldest queued reply must be of the shader variant, else the protocol
    /// invariant is violated and the session is lost.
    pub fn recv_shader(&self, chan: &mut Channel) -> (r: Result<Shader, RecvError>)
        ensures
            final(chan).requests@ == old(chan).requests@,
            final(chan).connected == old(chan).connected,
            old(chan).replies@.len() == 0 ==> {
                &&& r == Err::<Shader, RecvError>(RecvError::WouldBlock)
                &&& final(chan).replies@ == old(chan).replies@
            },
            old(chan).replies@.len() > 0 ==> {
                &&& final(chan).replies@ == old(chan).replies@.drop_first()
                &&& (match old(chan).replies@[0] {
                    Reply::ReplyNewShader(h) => r == Ok::<Shader, RecvError>(h),
                    _ => r == Err::<Shader, RecvError>(RecvError::UnexpectedReply),
                })
            },
    {
        match chan.try_recv_reply() {
            None => Err(RecvError::WouldBlock),
            Some(Reply::ReplyNewShader(h)) => Ok(h),
            Some(_) => Err(RecvError::UnexpectedReply),
        }
    }

    /// Claim the reply of the oldest outstanding `new_program` call.
    pub fn recv_program(&self, chan: &mut Channel) -> (r: Result<Program, RecvError>)
        ensures
            final(chan).requests@ == old(chan).requests@,
            final(chan).connected == old(chan).connected,
            old(chan).replies@.len() == 0 ==> {
                &&& r == Err::<Program, RecvError>(RecvError::WouldBlock)
                &&& final(chan).replies@ == old(chan).replies@
            },
            old(chan).replies@.len() > 0 ==> {
                &&& final(chan).replies@ == old(chan).replies@.drop_first()
                &&& (match old(chan).replies@[0] {
                    Reply::ReplyNewProgram(h) => r == Ok::<Program, RecvError>(h),
                    _ => r == Err::<Program, RecvError>(RecvError::UnexpectedReply),
                })
            },
    {
        match chan.try_recv_reply() {
            None => Err(RecvError::WouldBlock),
            Some(Reply::ReplyNewProgram(h)) => Ok(h),
            Some(_) => Err(RecvError::UnexpectedReply),
        }
    }

    /// Claim the reply of the oldest outstanding `new_buffer` call.
    pub fn recv_buffer(&self, chan: &mut Channel) -> (r: Result<Buffer, RecvError>)
        ensures
            final(chan).requests@ == old(chan).requests@,
            final(chan).connected == old(chan).connected,
            old(chan).replies@.len() == 0 ==> {
                &&& r == Err::<Buffer, RecvError>(RecvError::WouldBlock)
                &&& final(chan).replies@ == old(chan).replies@
            },
            old(chan).replies@.len() > 0 ==> {
                &&& final(chan).replies@ == old(chan).replies@.drop_first()
                &&& (match old(chan).replies@[0] {
                    Reply::ReplyNewBuffer(h) => r == Ok::<Buffer, RecvError>(h),
                    _ => r == Err::<Buffer, RecvError>(RecvError::UnexpectedReply),
                })
            },
    {
        match chan.try_recv_reply() {
            None => Err(RecvError::WouldBlock),
            Some(Reply::ReplyNewBuffer(h)) => Ok(h),
            Some(_) => Err(RecvError::UnexpectedReply),
        }
    }

    /// Claim the reply of the oldest outstanding `new_array_buffer` call.
    pub fn recv_array_buffer(&self, chan: &mut Channel) -> (r: Result<ArrayBuffer, RecvError>)
        ensures
            final(chan).requests@ == old(chan).requests@,
            final(chan).connected == old(chan).connected,
            old(chan).replies@.len() == 0 ==> {
                &&& r == Err::<ArrayBuffer, RecvError>(RecvError::WouldBlock)
                &&& final(chan).replies@ == old(chan).replies@
            },
            old(chan).replies@.len() > 0 ==> {
                &&& final(chan).replies@ == old(chan).replies@.drop_first()
                &&& (match old(chan).replies@[0] {
                    Reply::ReplyNewArrayBuffer(h) => r == Ok::<ArrayBuffer, RecvError>(h),
                    _ => r == Err::<ArrayBuffer, RecvError>(RecvError::UnexpectedReply),
                })
            },
    {
        match chan.try_recv_reply() {
            None => Err(RecvError::WouldBlock),
            Some(Reply::ReplyNewArrayBuffer(h)) => Ok(h),
            Some(_) => Err(RecvError::UnexpectedReply),
        }
    }
}

} // verus!
