use gfx_device::channel::Channel;
use gfx_device::client::{Client, RecvError};
use gfx_device::init;
use gfx_device::msg::{ArrayBuffer, Buffer, Color, Program, Shader};
use gfx_device::recording::{DeviceCall, RecordingContext, RecordingDevice};
use gfx_device::server::Server;

fn session() -> (Client, Server<RecordingDevice, RecordingContext>, Channel) {
    init::<RecordingDevice, RecordingContext>(RecordingContext::new(), ()).unwrap()
}

fn color(r: f32, g: f32, b: f32, a: f32) -> Color {
    Color { r_bits: r.to_bits(), g_bits: g.to_bits(), b_bits: b.to_bits(), a_bits: a.to_bits() }
}

#[test]
fn init_builds_connected_session() {
    let (_client, server, chan) = session();
    assert!(chan.connected);
    assert!(chan.requests.is_empty());
    assert!(chan.replies.is_empty());
    assert!(server.device.calls.is_empty());
    assert_eq!(server.graphics_context.frame_count(), 0);
}

#[test]
fn update_on_empty_queue() {
    let (_client, mut server, mut chan) = session();
    assert!(server.update(&mut chan));
    assert_eq!(server.graphics_context.frame_count(), 0);
    assert!(server.device.calls.is_empty());
    assert!(chan.replies.is_empty());
}

#[test]
fn update_after_disconnect() {
    let (_client, mut server, mut chan) = session();
    chan.disconnect();
    assert!(!server.update(&mut chan));
    assert!(server.device.calls.is_empty());
    assert_eq!(server.graphics_context.frame_count(), 0);
}

#[test]
fn buffered_casts_drain_before_disconnect_is_reported() {
    let (client, mut server, mut chan) = session();
    let c = color(0.1, 0.2, 0.3, 1.0);
    client.clear(&mut chan, c);
    chan.disconnect();
    assert!(!server.update(&mut chan));
    assert_eq!(server.device.calls, vec![DeviceCall::Clear(c)]);
    assert_eq!(server.graphics_context.frame_count(), 0);
}

#[test]
fn clear_draw_end_frame_drains_and_presents() {
    let (client, mut server, mut chan) = session();
    let c = color(0.0, 0.0, 0.0, 1.0);
    client.clear(&mut chan, c);
    client.draw(&mut chan, 0, 3);
    client.end_frame(&mut chan);
    assert!(server.update(&mut chan));
    assert_eq!(server.device.calls, vec![DeviceCall::Clear(c), DeviceCall::Draw(0, 3)]);
    assert_eq!(server.graphics_context.frame_count(), 1);
    assert!(chan.replies.is_empty());
    assert!(chan.requests.is_empty());
}

#[test]
fn all_casts_dispatch_in_send_order() {
    let (client, mut server, mut chan) = session();
    let c = color(1.0, 0.5, 0.25, 1.0);
    client.clear(&mut chan, c);
    client.bind_program(&mut chan, Program { id: 7 });
    client.bind_array_buffer(&mut chan, ArrayBuffer { id: 8 });
    client.bind_attribute(&mut chan, 2, Buffer { id: 9 }, 6, 12, 24);
    client.bind_frame_buffer(&mut chan, gfx_device::msg::FrameBuffer { id: 10 });
    client.draw(&mut chan, 3, 9);
    client.end_frame(&mut chan);
    assert!(server.update(&mut chan));
    assert_eq!(
        server.device.calls,
        vec![
            DeviceCall::Clear(c),
            DeviceCall::BindProgram(Program { id: 7 }),
            DeviceCall::BindArrayBuffer(ArrayBuffer { id: 8 }),
            DeviceCall::BindAttribute(2, 6, 12, 24),
            DeviceCall::BindFrameBuffer(gfx_device::msg::FrameBuffer { id: 10 }),
            DeviceCall::Draw(3, 9),
        ]
    );
    assert_eq!(server.graphics_context.frame_count(), 1);
    assert!(chan.replies.is_empty());
}

#[test]
fn commands_after_frame_marker_wait_for_next_update() {
    let (client, mut server, mut chan) = session();
    let c = color(0.2, 0.2, 0.2, 1.0);
    client.clear(&mut chan, c);
    client.end_frame(&mut chan);
    client.draw(&mut chan, 0, 3);
    assert!(server.update(&mut chan));
    assert_eq!(server.device.calls, vec![DeviceCall::Clear(c)]);
    assert_eq!(server.graphics_context.frame_count(), 1);
    assert_eq!(chan.requests.len(), 1);
    assert!(server.update(&mut chan));
    assert_eq!(server.device.calls, vec![DeviceCall::Clear(c), DeviceCall::Draw(0, 3)]);
    assert_eq!(server.graphics_context.frame_count(), 1);
}

#[test]
fn calls_one_at_a_time_get_matching_replies() {
    let (client, mut server, mut chan) = session();

    client.new_buffer(&mut chan, vec![1.0f32.to_bits(), 2.0f32.to_bits()]);
    assert!(server.update(&mut chan));
    let buf = client.recv_buffer(&mut chan).unwrap();

    client.new_array_buffer(&mut chan);
    assert!(server.update(&mut chan));
    let abuf = client.recv_array_buffer(&mut chan).unwrap();

    client.new_shader(&mut chan, 'v', b"void main() {}".to_vec());
    assert!(server.update(&mut chan));
    let shader = client.recv_shader(&mut chan).unwrap();

    client.new_program(&mut chan, vec![shader]);
    assert!(server.update(&mut chan));
    let program = client.recv_program(&mut chan).unwrap();

    assert_eq!(buf, Buffer { id: 0 });
    assert_eq!(abuf, ArrayBuffer { id: 1 });
    assert_eq!(shader, Shader { id: 2 });
    assert_eq!(program, Program { id: 3 });
    assert!(chan.replies.is_empty());
    assert_eq!(server.graphics_context.frame_count(), 0);
}

#[test]
fn shader_shader_program_replies_in_order_from_one_update() {
    let (client, mut server, mut chan) = session();
    client.new_shader(&mut chan, 'v', b"vertex".to_vec());
    client.new_shader(&mut chan, 'f', b"fragment".to_vec());
    // The recording device mints sequential handles, so the two shader
    // handles are known before their replies arrive.
    client.new_program(&mut chan, vec![Shader { id: 0 }, Shader { id: 1 }]);
    assert!(server.update(&mut chan));
    assert_eq!(chan.replies.len(), 3);
    let h1 = client.recv_shader(&mut chan).unwrap();
    let h2 = client.recv_shader(&mut chan).unwrap();
    let hp = client.recv_program(&mut chan).unwrap();
    assert_eq!(h1, Shader { id: 0 });
    assert_eq!(h2, Shader { id: 1 });
    assert_eq!(hp, Program { id: 2 });
    assert_eq!(
        server.device.calls,
        vec![
            DeviceCall::CreateShader('v', b"vertex".to_vec(), Shader { id: 0 }),
            DeviceCall::CreateShader('f', b"fragment".to_vec(), Shader { id: 1 }),
            DeviceCall::CreateProgram(vec![Shader { id: 0 }, Shader { id: 1 }], Program { id: 2 }),
        ]
    );
    client.bind_program(&mut chan, hp);
    assert!(server.update(&mut chan));
    assert_eq!(server.device.calls.last(), Some(&DeviceCall::BindProgram(Program { id: 2 })));
}

#[test]
fn buffer_round_trip_casts_produce_no_replies() {
    let (client, mut server, mut chan) = session();
    let data = vec![0.0f32.to_bits(), 1.0f32.to_bits(), 0.5f32.to_bits()];
    client.new_buffer(&mut chan, data.clone());
    assert!(server.update(&mut chan));
    let h = client.recv_buffer(&mut chan).unwrap();
    client.bind_attribute(&mut chan, 0, h, 3, 0, 0);
    assert!(server.update(&mut chan));
    assert!(chan.replies.is_empty());
    assert_eq!(client.recv_buffer(&mut chan), Err(RecvError::WouldBlock));
    assert_eq!(
        server.device.calls,
        vec![DeviceCall::CreateBuffer(data, h), DeviceCall::BindAttribute(0, 3, 0, 0)]
    );
}

#[test]
fn frame_marker_keeps_session_alive_for_one_more_update() {
    let (client, mut server, mut chan) = session();
    let c = color(0.0, 1.0, 0.0, 1.0);
    client.clear(&mut chan, c);
    client.end_frame(&mut chan);
    chan.disconnect();
    // The pass stops at the marker before it can observe the disconnect.
    assert!(server.update(&mut chan));
    assert_eq!(server.device.calls, vec![DeviceCall::Clear(c)]);
    assert_eq!(server.graphics_context.frame_count(), 1);
    // The next pass finds the queue dry and reports the session ended.
    assert!(!server.update(&mut chan));
    assert_eq!(server.graphics_context.frame_count(), 1);
}

#[test]
fn empty_buffer_round_trip() {
    let (client, mut server, mut chan) = session();
    client.new_buffer(&mut chan, vec![]);
    assert!(server.update(&mut chan));
    let h = client.recv_buffer(&mut chan).unwrap();
    assert_eq!(h, Buffer { id: 0 });
    assert_eq!(server.device.calls, vec![DeviceCall::CreateBuffer(vec![], h)]);
}

#[test]
fn recv_before_update_would_block() {
    let (client, _server, mut chan) = session();
    client.new_shader(&mut chan, 'v', b"src".to_vec());
    assert_eq!(client.recv_shader(&mut chan), Err(RecvError::WouldBlock));
    // The request stays queued; only the reply is missing.
    assert_eq!(chan.requests.len(), 1);
}

#[test]
fn mismatched_reply_is_a_protocol_violation() {
    let (client, mut server, mut chan) = session();
    client.new_shader(&mut chan, 'v', b"src".to_vec());
    client.new_program(&mut chan, vec![Shader { id: 0 }]);
    assert!(server.update(&mut chan));
    // Claiming the program reply first meets the shader reply: fatal.
    assert_eq!(client.recv_program(&mut chan), Err(RecvError::UnexpectedReply));
}
