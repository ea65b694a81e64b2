//! A verified command bridge for a render device that may only be driven by
//! one designated consumer: a producer issues graphics commands through a
//! typed `Client` facade, the commands travel over an ordered transport, and
//! a `Server` drains them once per tick, dispatching each to a device
//! executor and stopping at frame boundaries.

use vstd::prelude::*;

pub mod channel;
pub mod client;
pub mod device;
pub mod msg;
pub mod protocol;
pub mod recording;
pub mod server;

use crate::channel::Channel;
use crate::client::Client;
use crate::device::{DeviceExecutor, DeviceOp, GraphicsContext};
use crate::msg::{Reply, Request};
use crate::server::Server;

verus! {

/// Why initialization failed. No variant is currently produced: the
/// category exists so that future backend-selection failures can be added
/// without breaking callers, which must treat any variant as fatal to
/// startup.
#[derive(Clone, Copy, PartialEq, Eq, Structural, Debug)]
#[non_exhaustive]
pub enum InitError {
    /// Reserved for a backend that cannot satisfy the requested
    /// configuration.
    BackendUnavailable,
}

/// Create a bound session: the transport, the producer-side `Client`, and
/// the consumer-side `Server` holding a device executor freshly built from
/// `options` together with the presentation collaborator. The two endpoints
/// live for the whole rendering session; the server half must stay on the
/// thread that owns the device's context.
pub fn init<D: DeviceExecutor, P: GraphicsContext>(graphics_context: P, options: D::Options) -> (r:
    Result<(Client, Server<D, P>, Channel), InitError>)
    ensures
        r is Ok,
        ({
            let parts = r->Ok_0;
            &&& parts.1.device.log() == Seq::<DeviceOp>::empty()
            &&& parts.1.graphics_context == graphics_context
            &&& parts.2.requests@ == Seq::<Request>::empty()
            &&& parts.2.replies@ == Seq::<Reply>::empty()
            &&& parts.2.connected
        }),
{
    let chan = Channel::new();
    let client = Client {};
    let device = D::new(options);
    let server = Server { device, graphics_context };
    Ok((client, server, chan))
}

} // verus!
