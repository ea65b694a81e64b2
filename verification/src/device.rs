//! The two capability interfaces the server consumes: the device executor,
//! which performs the actual device operations, and the graphics context,
//! which presents a completed frame.
//!
//! Both are traits whose contracts speak of an abstract history — the
//! sequence of operations a device has been asked to perform, and the number
//! of frames a context has presented — so the server's drain loop can be
//! verified against any implementation.

use vstd::prelude::*;

use crate::msg::{ArrayBuffer, Buffer, Color, FrameBuffer, Program, Shader};

verus! {

/// One operation dispatched to a device executor, as recorded in its
/// abstract history. Creation operations carry the handle the device minted
/// in response.
pub enum DeviceOp {
    Clear(Color),
    BindProgram(Program),
    BindArrayBuffer(ArrayBuffer),
    BindAttribute(u8, u32, u32, u32),
    BindFrameBuffer(FrameBuffer),
    Draw(u32, u32),
    CreateBuffer(Seq<u32>, Buffer),
    CreateArrayBuffer(ArrayBuffer),
    CreateShader(char, Seq<u8>, Shader),
    CreateProgram(Seq<Shader>, Program),
}

/// The device executor capability: the object that actually performs device
/// operations. The server owns it exclusively; it must only ever be driven
/// from the thread that created its underlying context.
///
/// `log()` is the abstract history of every operation performed so far, in
/// order. Each method appends exactly one entry, so a caller knows precisely
/// what it asked the device to do — the handles minted by the creation
/// operations remain the device's own choice.
pub trait DeviceExecutor: Sized {
    /// The backend's configuration bundle, opaque to this crate.
    type Options;

    /// The operations performed so far, oldest first.
    spec fn log(&self) -> Seq<DeviceOp>;

    /// Build an executor from its configuration; it has performed nothing.
    fn new(options: Self::Options) -> (d: Self)
        ensures
            d.log() == Seq::<DeviceOp>::empty(),
    ;

    /// Clear the render target to the given color.
    fn clear(&mut self, color: Color)
        ensures
            final(self).log() == old(self).log().push(DeviceOp::Clear(color)),
    ;

    /// Make the given program current.
    fn bind_program(&mut self, prog: Program)
        ensures
            final(self).log() == old(self).log().push(DeviceOp::BindProgram(prog)),
    ;

    /// Make the given array buffer current.
    fn bind_array_buffer(&mut self, abuf: ArrayBuffer)
        ensures
            final(self).log() == old(self).log().push(DeviceOp::BindArrayBuffer(abuf)),
    ;

    /// Describe one vertex attribute slot: count, byte offset and stride.
    fn bind_attribute(&mut self, slot: u8, count: u32, offset: u32, stride: u32)
        ensures
            final(self).log() == old(self).log().push(
                DeviceOp::BindAttribute(slot, count, offset, stride),
            ),
    ;

    /// Make the given frame buffer current.
    fn bind_frame_buffer(&mut self, fbo: FrameBuffer)
        ensures
            final(self).log() == old(self).log().push(DeviceOp::BindFrameBuffer(fbo)),
    ;

    /// Draw `count` vertices starting at `start`.
    fn draw(&mut self, start: u32, count: u32)
        ensures
            final(self).log() == old(self).log().push(DeviceOp::Draw(start, count)),
    ;

    /// Create a data buffer holding the given words and mint a handle for it.
    fn create_buffer(&mut self, data: Vec<u32>) -> (h: Buffer)
        ensures
            final(self).log() == old(self).log().push(DeviceOp::CreateBuffer(data@, h)),
    ;

    /// Create an array buffer object and mint a handle for it.
    fn create_array_buffer(&mut self) -> (h: ArrayBuffer)
        ensures
            final(self).log() == old(self).log().push(DeviceOp::CreateArrayBuffer(h)),
    ;

    /// Compile a shader of the given kind from the given source bytes and
    /// mint a handle for it.
    fn create_shader(&mut self, kind: char, code: Vec<u8>) -> (h: Shader)
        ensures
            final(self).log() == old(self).log().push(DeviceOp::CreateShader(kind, code@, h)),
    ;

    /// Link the given shaders into a program and mint a handle for it.
    fn create_program(&mut self, shaders: Vec<Shader>) -> (h: Program)
        ensures
            final(self).log() == old(self).log().push(
                DeviceOp::CreateProgram(shaders@, h),
            ),
    ;
}

/// The presentation capability: a window or context that can swap buffers.
///
/// `frames()` counts the frames presented so far; `swap_buffers` presents
/// exactly one more.
pub trait GraphicsContext: Sized {
    /// How many frames have been presented so far.
    spec fn frames(&self) -> nat;

    /// Present the frame rendered since the previous swap.
    fn swap_buffers(&mut self)
        ensures
            final(self).frames() == old(self).frames() + 1,
    ;
}

} // verus!
