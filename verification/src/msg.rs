//! The command and reply vocabulary exchanged between the producer side
//! (`Client`) and the consumer side (`Server`).

use vstd::prelude::*;

verus! {

/// Handle to a vertex data buffer, minted by the device executor.
#[derive(Clone, Copy, PartialEq, Eq, Structural, Debug)]
pub struct Buffer {
    pub id: u32,
}

/// Handle to an array buffer object, minted by the device executor.
#[derive(Clone, Copy, PartialEq, Eq, Structural, Debug)]
pub struct ArrayBuffer {
    pub id: u32,
}

/// Handle to a compiled shader, minted by the device executor.
#[derive(Clone, Copy, PartialEq, Eq, Structural, Debug)]
pub struct Shader {
    pub id: u32,
}

/// Handle to a linked shader program, minted by the device executor.
#[derive(Clone, Copy, PartialEq, Eq, Structural, Debug)]
pub struct Program {
    pub id: u32,
}

/// Handle to a frame buffer object, minted by the device executor.
#[derive(Clone, Copy, PartialEq, Eq, Structural, Debug)]
pub struct FrameBuffer {
    pub id: u32,
}

/// A four-component clear color. Each component carries the bit pattern of
/// an IEEE 754 single-precision float; this crate never interprets the
/// components, it only passes them through to the device executor.
#[derive(Clone, Copy, PartialEq, Eq, Structural, Debug)]
pub struct Color {
    pub r_bits: u32,
    pub g_bits: u32,
    pub b_bits: u32,
    pub a_bits: u32,
}

/// Number of vertices named by a draw or attribute command.
pub type VertexCount = u16;

/// One request from the producer to the consumer.
///
/// The `Call*` variants expect exactly one matching `Reply`; the `Cast*`
/// variants are one-way. Buffer contents are carried as the bit patterns of
/// IEEE 754 single-precision floats, which this crate treats as opaque words.
#[derive(PartialEq, Debug)]
pub enum Request {
    CallNewBuffer(Vec<u32>),
    CallNewArrayBuffer,
    CallNewShader(char, Vec<u8>),
    CallNewProgram(Vec<Shader>),
    CastClear(Color),
    CastBindProgram(Program),
    CastBindArrayBuffer(ArrayBuffer),
    CastBindAttribute(u8, Buffer, VertexCount, u32, u32),
    CastBindFrameBuffer(FrameBuffer),
    CastDraw(VertexCount, VertexCount),
    CastSwapBuffers,
}

/// One reply from the consumer to the producer: exactly one variant per
/// `Call*` request, each wrapping the handle the device executor minted.
#[derive(Clone, Copy, PartialEq, Eq, Structural, Debug)]
pub enum Reply {
    ReplyNewBuffer(Buffer),
    ReplyNewArrayBuffer(ArrayBuffer),
    ReplyNewShader(Shader),
    ReplyNewProgram(Program),
}

/// Whether a request is a call, i.e. owes the producer exactly one reply.
pub open spec fn is_call(req: Request) -> bool {
    match req {
        Request::CallNewBuffer(_) => true,
        Request::CallNewArrayBuffer => true,
        Request::CallNewShader(_, _) => true,
        Request::CallNewProgram(_) => true,
        _ => false,
    }
}

/// Whether a request is a cast: one-way, never answered.
pub open spec fn is_cast(req: Request) -> bool {
    !is_call(req)
}

/// Whether a request is the frame boundary marker that ends a drain pass.
pub open spec fn is_frame_marker(req: Request) -> bool {
    req is CastSwapBuffers
}

/// Whether a reply is of the variant owed to the given call request.
pub open spec fn matches_call(req: Request, rep: Reply) -> bool {
    match req {
        Request::CallNewBuffer(_) => rep is ReplyNewBuffer,
        Request::CallNewArrayBuffer => rep is ReplyNewArrayBuffer,
        Request::CallNewShader(_, _) => rep is ReplyNewShader,
        Request::CallNewProgram(_) => rep is ReplyNewProgram,
        _ => false,
    }
}

} // verus!
