//! Swapchains: what a scene is presented on.
use crate::error::{Error, RenResult};
use crate::handle::{Handle, RenSwapchain};
use vstd::prelude::*;

verus! {

/// A present mode, by the number that the graphics runtime gives it.
pub type VkPresentModeKHR = u32;

/// What a swapchain holds: its native handle, the native handle of the device
/// that it was created on, its size in pixels and its present mode.
pub struct SwapchainView {
    pub handle: u64,
    pub device: u64,
    pub size: (u32, u32),
    pub present_mode: VkPresentModeKHR,
}

/// A swapchain. It refers to the device that it was created on and does not
/// own it.
pub struct Swapchain {
    handle: Handle<RenSwapchain>,
    device: u64,
    width: u32,
    height: u32,
    present_mode: VkPresentModeKHR,
}

impl View for Swapchain {
    type V = SwapchainView;

    closed spec fn view(&self) -> SwapchainView {
        SwapchainView {
            handle: self.handle@,
            device: self.device,
            size: (self.width, self.height),
            present_mode: self.present_mode,
        }
    }
}

impl Swapchain {
    /// Takes the engine's answer to the creation of a swapchain on the device
    /// with the native handle `device`: the swapchain around `handle`, with
    /// the size and the present mode that the engine made it with, or the
    /// error that the engine reported.
    pub fn new(
        result: RenResult,
        device: u64,
        handle: u64,
        width: u32,
        height: u32,
        present_mode: VkPresentModeKHR,
    ) -> (r: Result<Self, Error>)
        ensures
            match r {
                Ok(swapchain) => Error::of_code(result) is None && swapchain@ == (SwapchainView {
                    handle,
                    device,
                    size: (width, height),
                    present_mode,
                }),
                Err(e) => Error::of_code(result) == Some(e),
            },
    {
        match Error::new(result) {
            Ok(()) => Ok(
                Swapchain { handle: Handle::new(handle), device, width, height, present_mode },
            ),
            Err(e) => Err(e),
        }
    }

    /// Gives the swapchain up: its native handle, to be destroyed.
    pub fn into_handle(self) -> (handle: Handle<RenSwapchain>)
        ensures
            handle@ == self@.handle,
    {
        self.handle
    }

    /// The native handle of the swapchain.
    pub fn get_handle(&self) -> (handle: u64)
        ensures
            handle == self@.handle,
    {
        self.handle.get()
    }

    /// The native handle of the device that the swapchain was created on.
    pub fn get_device(&self) -> (device: u64)
        ensures
            device == self@.device,
    {
        self.device
    }

    /// The size in pixels: width, then height.
    pub fn get_size(&self) -> (size: (u32, u32))
        ensures
            size == self@.size,
    {
        (self.width, self.height)
    }

    /// Sets the size in pixels. Where the engine settles on another size than
    /// the one asked for, it is the engine's size that is to be set here.
    pub fn set_size(&mut self, width: u32, height: u32)
        ensures
            final(self)@ == (SwapchainView { size: (width, height), ..old(self)@ }),
    {
        self.width = width;
        self.height = height;
    }

    /// The present mode.
    pub fn get_present_mode(&self) -> (present_mode: VkPresentModeKHR)
        ensures
            present_mode == self@.present_mode,
    {
        self.present_mode
    }

    /// Takes the engine's answer to a change of the present mode: the mode is
    /// taken over where the engine accepted it, and kept where it did not.
    pub fn set_present_mode(&mut self, present_mode: VkPresentModeKHR, result: RenResult) -> (r:
        Result<(), Error>)
        ensures
            match Error::of_code(result) {
                None => r == Ok::<(), Error>(()) && final(self)@ == (SwapchainView {
                    present_mode,
                    ..old(self)@
                }),
                Some(e) => r == Err::<(), Error>(e) && final(self)@ == old(self)@,
            },
    {
        Error::new(result)?;
        self.present_mode = present_mode;
        Ok(())
    }
}

} // verus!
