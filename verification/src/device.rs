//! The graphics device model: device and queue handles, the swapchain and
//! its descriptor, and the per-frame encoder.
//!
//! The driver's own work — requesting an adapter and a logical device,
//! acquiring a frame from the surface — happens outside the library. Its
//! outcomes arrive here as plain values, and the model decides what
//! follows: which error is reported, how the swapchain is rebuilt, and
//! how many command buffers have been submitted. The submission counter
//! is the model's mock queue: work that was never finished never shows up
//! in it.

use vstd::prelude::*;
use crate::command::RenderCommand;
use crate::swapchain::{surface_descriptor_spec, surface_descriptor, SwapChain, SwapChainDescriptor, swap_chains_equivalent};

verus! {

/// Why setting up or running the renderer failed.
#[derive(Clone, Copy, Debug, PartialEq, Eq, Structural)]
pub enum GraphicsError {
    /// No adapter compatible with the surface was offered.
    AdapterUnavailable,
    /// The adapter refused to create a logical device and queue.
    DeviceCreationFailed,
    /// The surface could not hand out a frame; the swapchain must be
    /// rebuilt before the next frame.
    SurfaceLost,
}

/// The logical GPU device: the capability to create buffers, pipelines
/// and swapchains. The model reads nothing out of it; the real handle
/// lives with the driver.
#[derive(Clone, Copy, Debug, PartialEq, Eq, Structural)]
pub struct Device {}

/// The command queue, modelled by what the renderer's correctness needs
/// from it: how many command buffers have been submitted.
#[derive(Clone, Copy, Debug, PartialEq, Eq, Structural)]
pub struct Queue {
    /// Command buffers submitted so far.
    pub submissions: u64,
}

/// The texture of one acquired frame, sized like the swapchain that
/// handed it out.
#[derive(Clone, Copy, Debug, PartialEq, Eq, Structural)]
pub struct SwapChainTexture {
    pub width: u32,
    pub height: u32,
}

/// The GPU device, its queue, and the swapchain presenting to the window.
#[derive(Debug)]
pub struct GraphicsDevice {
    pub device: Device,
    pub queue: Queue,
    pub swap_chain_descriptor: SwapChainDescriptor,
    pub swap_chain: SwapChain,
    /// Frames handed out by `begin_frame` so far.
    pub frames_begun: u64,
}

/// A transient per-frame recorder: the acquired frame texture and the
/// commands recorded for it. It must be finished exactly once; an encoder
/// that is dropped instead submits nothing.
#[derive(Debug)]
pub struct FrameEncoder {
    /// The frame texture acquired from the swapchain.
    pub frame: SwapChainTexture,
    /// The commands recorded so far, in order.
    pub commands: Vec<RenderCommand>,
}

impl GraphicsDevice {
    /// The device's invariant: the swapchain is always the one built from
    /// the current descriptor, and no more command buffers have been
    /// submitted than frames begun.
    pub open spec fn wf(self) -> bool {
        &&& self.swap_chain.config == self.swap_chain_descriptor
        &&& self.queue.submissions <= self.frames_begun
    }

    /// How many begun frames have not been finished.
    pub open spec fn open_frames(self) -> int {
        self.frames_begun - self.queue.submissions
    }

    /// The state a freshly created device is in: the canonical descriptor
    /// at the window's size, a swapchain built from it, and nothing begun
    /// or submitted.
    pub open spec fn initial(width: u32, height: u32) -> GraphicsDevice {
        GraphicsDevice {
            device: Device {},
            queue: Queue { submissions: 0u64 },
            swap_chain_descriptor: surface_descriptor_spec(width, height),
            swap_chain: SwapChain { config: surface_descriptor_spec(width, height), generation: 0u64 },
            frames_begun: 0u64,
        }
    }

    /// The same device after one more frame has been handed out.
    pub open spec fn after_begin(self) -> GraphicsDevice {
        GraphicsDevice { frames_begun: (self.frames_begun + 1) as u64, ..self }
    }

    /// The same device after one command buffer has been submitted.
    pub open spec fn after_finish(self) -> GraphicsDevice {
        GraphicsDevice { queue: Queue { submissions: (self.queue.submissions + 1) as u64 }, ..self }
    }

    /// The same device after its swapchain has been rebuilt at the given
    /// size: the descriptor takes the size, and the new swapchain is
    /// built from the updated descriptor.
    pub open spec fn resized(self, width: u32, height: u32) -> GraphicsDevice {
        GraphicsDevice {
            swap_chain_descriptor: self.swap_chain_descriptor.with_size(width, height),
            swap_chain: SwapChain {
                config: self.swap_chain_descriptor.with_size(width, height),
                generation: (self.swap_chain.generation + 1) as u64,
            },
            ..self
        }
    }

    /// Sets up the device for a window of the given pixel size.
    ///
    /// The driver's negotiation happens outside: `adapter_available` says
    /// whether an adapter compatible with the surface was offered, and
    /// `device_created` whether that adapter produced a logical device
    /// and queue. This decides what the renderer does with those
    /// outcomes: each failure becomes its own error, and success yields
    /// the initial device state.
    pub fn new(width: u32, height: u32, adapter_available: bool, device_created: bool) -> (r:
        Result<GraphicsDevice, GraphicsError>)
        ensures
            !adapter_available ==> r == Err::<GraphicsDevice, GraphicsError>(
                GraphicsError::AdapterUnavailable,
            ),
            adapter_available && !device_created ==> r == Err::<GraphicsDevice, GraphicsError>(
                GraphicsError::DeviceCreationFailed,
            ),
            adapter_available && device_created ==> (r matches Ok(d) && d
                == GraphicsDevice::initial(width, height) && d.wf()),
    {
        if !adapter_available {
            return Err(GraphicsError::AdapterUnavailable);
        }
        if !device_created {
            return Err(GraphicsError::DeviceCreationFailed);
        }
        let descriptor = surface_descriptor(width, height);
        Ok(
            GraphicsDevice {
                device: Device {  },
                queue: Queue { submissions: 0 },
                swap_chain_descriptor: descriptor,
                swap_chain: SwapChain { config: descriptor, generation: 0 },
                frames_begun: 0,
            },
        )
    }

    /// Starts a frame. The surface's acquisition happens outside;
    /// `acquired` says whether it handed out a texture. On success the
    /// frame counter moves and a fresh encoder is returned, sized like
    /// the swapchain; nothing is submitted until the encoder is finished.
    /// On failure the device is untouched and the surface is reported
    /// lost.
    pub fn begin_frame(&mut self, acquired: bool) -> (r: Result<FrameEncoder, GraphicsError>)
        requires
            old(self).wf(),
            old(self).frames_begun < u64::MAX,
        ensures
            final(self).wf(),
            acquired ==> *final(self) == old(self).after_begin(),
            acquired ==> (r matches Ok(enc) && enc.frame.width
                == old(self).swap_chain_descriptor.width && enc.frame.height
                == old(self).swap_chain_descriptor.height && enc.commands@ == Seq::<
                RenderCommand,
            >::empty()),
            !acquired ==> *final(self) == *old(self) && r == Err::<FrameEncoder, GraphicsError>(
                GraphicsError::SurfaceLost,
            ),
    {
        if !acquired {
            return Err(GraphicsError::SurfaceLost);
        }
        self.frames_begun = self.frames_begun + 1;
        Ok(
            FrameEncoder {
                frame: SwapChainTexture {
                    width: self.swap_chain_descriptor.width,
                    height: self.swap_chain_descriptor.height,
                },
                commands: Vec::new(),
            },
        )
    }

    /// Updates the stored size and rebuilds the swapchain from the
    /// updated descriptor, so that the swapchain's dimensions always
    /// match the last known window size.
    pub fn resize(&mut self, width: u32, height: u32)
        requires
            old(self).wf(),
            old(self).swap_chain.generation < u64::MAX,
        ensures
            final(self).wf(),
            *final(self) == old(self).resized(width, height),
    {
        self.swap_chain_descriptor.width = width;
        self.swap_chain_descriptor.height = height;
        self.swap_chain = SwapChain {
            config: self.swap_chain_descriptor,
            generation: self.swap_chain.generation + 1,
        };
    }

    /// Recovers from a lost surface by rebuilding the swapchain at the
    /// size already stored, leaving the descriptor as it is.
    pub fn recover_surface(&mut self)
        requires
            old(self).wf(),
            old(self).swap_chain.generation < u64::MAX,
        ensures
            final(self).wf(),
            *final(self) == old(self).resized(
                old(self).swap_chain_descriptor.width,
                old(self).swap_chain_descriptor.height,
            ),
    {
        let width = self.swap_chain_descriptor.width;
        let height = self.swap_chain_descriptor.height;
        self.resize(width, height);
    }

    /// The logical device handle, for building pipeline state against.
    pub fn device(&self) -> (d: &Device)
        ensures
            *d == self.device,
    {
        &self.device
    }

    /// The descriptor the current swapchain was built from.
    pub fn swap_chain_descriptor(&self) -> (d: &SwapChainDescriptor)
        ensures
            *d == self.swap_chain_descriptor,
    {
        &self.swap_chain_descriptor
    }
}

impl FrameEncoder {
    /// Submits the frame's recorded commands to the device's queue. Each
    /// finish answers one begun frame: the encoder is consumed, and the
    /// queue's submission count moves by exactly one.
    pub fn finish(self, device: &mut GraphicsDevice)
        requires
            old(device).wf(),
            old(device).queue.submissions < old(device).frames_begun,
        ensures
            final(device).wf(),
            *final(device) == old(device).after_finish(),
    {
        device.queue.submissions = device.queue.submissions + 1;
    }
}

/// Resizing is idempotent: a second resize to the same dimensions leaves
/// the descriptor exactly as the first left it, and builds a swapchain
/// equivalent to the first one (same configuration, even though it is a
/// fresh object).
pub proof fn lemma_resize_idempotent(d: GraphicsDevice, width: u32, height: u32)
    ensures
        d.resized(width, height).resized(width, height).swap_chain_descriptor == d.resized(
            width,
            height,
        ).swap_chain_descriptor,
        swap_chains_equivalent(
            d.resized(width, height).resized(width, height).swap_chain,
            d.resized(width, height).swap_chain,
        ),
{
}

/// The frame lifecycle: beginning a frame submits nothing — an encoder
/// that is never finished leaves the queue exactly as it was — and one
/// finish submits exactly one command buffer, restoring the balance
/// between frames begun and buffers submitted.
pub proof fn lemma_frame_lifecycle(d: GraphicsDevice)
    requires
        d.wf(),
        d.frames_begun < u64::MAX,
    ensures
        d.after_begin().queue == d.queue,
        d.after_begin().open_frames() == d.open_frames() + 1,
        d.after_begin().after_finish().queue.submissions == d.queue.submissions + 1,
        d.after_begin().after_finish().open_frames() == d.open_frames(),
        d.after_begin().after_finish().wf(),
{
}

} // verus!
