//! Recording implementations of the two capability interfaces.
//!
//! `RecordingDevice` performs no real device work: it records every
//! operation it is asked to perform and mints sequential handles, which
//! makes it the executor of choice for exercising and testing the protocol.
//! `RecordingContext` likewise only counts the frames it presents.

use vstd::prelude::*;

use crate::device::{DeviceExecutor, DeviceOp, GraphicsContext};
use crate::msg::{ArrayBuffer, Buffer, Color, FrameBuffer, Program, Shader};

verus! {

/// One recorded device operation, the executable mirror of `DeviceOp`.
#[derive(PartialEq, Debug)]
pub enum DeviceCall {
    Clear(Color),
    BindProgram(Program),
    BindArrayBuffer(ArrayBuffer),
    BindAttribute(u8, u32, u32, u32),
    BindFrameBuffer(FrameBuffer),
    Draw(u32, u32),
    CreateBuffer(Vec<u32>, Buffer),
    CreateArrayBuffer(ArrayBuffer),
    CreateShader(char, Vec<u8>, Shader),
    CreateProgram(Vec<Shader>, Program),
}

impl View for DeviceCall {
    type V = DeviceOp;

    open spec fn view(&self) -> DeviceOp {
        match *self {
            DeviceCall::Clear(color) => DeviceOp::Clear(color),
            DeviceCall::BindProgram(prog) => DeviceOp::BindProgram(prog),
            DeviceCall::BindArrayBuffer(abuf) => DeviceOp::BindArrayBuffer(abuf),
            DeviceCall::BindAttribute(slot, count, offset, stride) => DeviceOp::BindAttribute(
                slot,
                count,
                offset,
                stride,
            ),
            DeviceCall::BindFrameBuffer(fbo) => DeviceOp::BindFrameBuffer(fbo),
            DeviceCall::Draw(start, count) => DeviceOp::Draw(start, count),
            DeviceCall::CreateBuffer(data, h) => DeviceOp::CreateBuffer(data@, h),
            DeviceCall::CreateArrayBuffer(h) => DeviceOp::CreateArrayBuffer(h),
            DeviceCall::CreateShader(kind, code, h) => DeviceOp::CreateShader(kind, code@, h),
            DeviceCall::CreateProgram(shaders, h) => DeviceOp::CreateProgram(shaders@, h),
        }
    }
}

/// The abstract history a sequence of recorded calls stands for.
pub open spec fn calls_view(calls: Seq<DeviceCall>) -> Seq<DeviceOp> {
    calls.map_values(|c: DeviceCall| c@)
}

proof fn lemma_calls_view_push(calls: Seq<DeviceCall>, c: DeviceCall)
    ensures
        calls_view(calls.push(c)) == calls_view(calls).push(c@),
{
    assert(calls_view(calls.push(c)) =~= calls_view(calls).push(c@));
}

/// A device executor that records the operations dispatched to it, in
/// order, and mints sequential handles.
pub struct RecordingDevice {
    /// Every operation performed so far, oldest first.
    pub calls: Vec<DeviceCall>,
    /// The id the next minted handle will carry.
    pub next_id: u32,
}

impl RecordingDevice {
    fn mint_id(&mut self) -> (id: u32)
        ensures
            final(self).calls == old(self).calls,
    {
        let id = self.next_id;
        self.next_id = if self.next_id == u32::MAX {
            0
        } else {
            self.next_id + 1
        };
        id
    }

    /// Record a buffer creation and mint its handle.
    fn record_buffer(&mut self, data: Vec<u32>) -> (h: Buffer)
        ensures
            final(self).log() == old(self).log().push(DeviceOp::CreateBuffer(data@, h)),
    {
        let h = Buffer { id: self.mint_id() };
        let ghost call = DeviceCall::CreateBuffer(data, h);
        self.calls.push(DeviceCall::CreateBuffer(data, h));
        proof {
            lemma_calls_view_push(old(self).calls@, call);
        }
        h
    }

    /// Record an array buffer creation and mint its handle.
    fn record_array_buffer(&mut self) -> (h: ArrayBuffer)
        ensures
            final(self).log() == old(self).log().push(DeviceOp::CreateArrayBuffer(h)),
    {
        let h = ArrayBuffer { id: self.mint_id() };
        self.calls.push(DeviceCall::CreateArrayBuffer(h));
        proof {
            lemma_calls_view_push(old(self).calls@, DeviceCall::CreateArrayBuffer(h));
        }
        h
    }

    /// Record a shader compilation and mint its handle.
    fn record_shader(&mut self, kind: char, code: Vec<u8>) -> (h: Shader)
        ensures
            final(self).log() == old(self).log().push(DeviceOp::CreateShader(kind, code@, h)),
    {
        let h = Shader { id: self.mint_id() };
        let ghost call = DeviceCall::CreateShader(kind, code, h);
        self.calls.push(DeviceCall::CreateShader(kind, code, h));
        proof {
            lemma_calls_view_push(old(self).calls@, call);
        }
        h
    }

    /// Record a program link and mint its handle.
    fn record_program(&mut self, shaders: Vec<Shader>) -> (h: Program)
        ensures
            final(self).log() == old(self).log().push(DeviceOp::CreateProgram(shaders@, h)),
    {
        let h = Program { id: self.mint_id() };
        let ghost call = DeviceCall::CreateProgram(shaders, h);
        self.calls.push(DeviceCall::CreateProgram(shaders, h));
        proof {
            lemma_calls_view_push(old(self).calls@, call);
        }
        h
    }
}

impl DeviceExecutor for RecordingDevice {
    type Options = ();

    open spec fn log(&self) -> Seq<DeviceOp> {
        calls_view(self.calls@)
    }

    fn new(_options: ()) -> (d: Self) {
        let d = RecordingDevice { calls: Vec::new(), next_id: 0 };
        proof {
            assert(d.log() =~= Seq::<DeviceOp>::empty());
        }
        d
    }

    fn clear(&mut self, color: Color) {
        self.calls.push(DeviceCall::Clear(color));
        proof {
            lemma_calls_view_push(old(self).calls@, DeviceCall::Clear(color));
        }
    }

    fn bind_program(&mut self, prog: Program) {
        self.calls.push(DeviceCall::BindProgram(prog));
        proof {
            lemma_calls_view_push(old(self).calls@, DeviceCall::BindProgram(prog));
        }
    }

    fn bind_array_buffer(&mut self, abuf: ArrayBuffer) {
        self.calls.push(DeviceCall::BindArrayBuffer(abuf));
        proof {
            lemma_calls_view_push(old(self).calls@, DeviceCall::BindArrayBuffer(abuf));
        }
    }

    fn bind_attribute(&mut self, slot: u8, count: u32, offset: u32, stride: u32) {
        self.calls.push(DeviceCall::BindAttribute(slot, count, offset, stride));
        proof {
            lemma_calls_view_push(
                old(self).calls@,
                DeviceCall::BindAttribute(slot, count, offset, stride),
            );
        }
    }

    fn bind_frame_buffer(&mut self, fbo: FrameBuffer) {
        self.calls.push(DeviceCall::BindFrameBuffer(fbo));
        proof {
            lemma_calls_view_push(old(self).calls@, DeviceCall::BindFrameBuffer(fbo));
        }
    }

    fn draw(&mut self, start: u32, count: u32) {
        self.calls.push(DeviceCall::Draw(start, count));
        proof {
            lemma_calls_view_push(old(self).calls@, DeviceCall::Draw(start, count));
        }
    }

    fn create_buffer(&mut self, data: Vec<u32>) -> (h: Buffer) {
        self.record_buffer(data)
    }

    fn create_array_buffer(&mut self) -> (h: ArrayBuffer) {
        self.record_array_buffer()
    }

    fn create_shader(&mut self, kind: char, code: Vec<u8>) -> (h: Shader) {
        self.record_shader(kind, code)
    }

    fn create_program(&mut self, shaders: Vec<Shader>) -> (h: Program) {
        self.record_program(shaders)
    }
}

/// A graphics context that only counts the frames it is asked to present.
pub struct RecordingContext {
    /// One entry per presented frame.
    pub presents: Vec<bool>,
}

impl RecordingContext {
    /// A fresh context that has presented nothing.
    pub fn new() -> (c: RecordingContext)
        ensures
            c.frames() == 0,
    {
        RecordingContext { presents: Vec::new() }
    }

    /// How many frames have been presented so far.
    pub fn frame_count(&self) -> (n: usize)
        ensures
            n == self.frames(),
    {
        self.presents.len()
    }
}

impl GraphicsContext for RecordingContext {
    open spec fn frames(&self) -> nat {
        self.presents@.len()
    }

    fn swap_buffers(&mut self) {
        self.presents.push(true);
    }
}

} // verus!
