//! Owned handles: each wraps one native handle and is the only authority to
//! destroy it. What lives inside a scene is destroyed through the scene, which
//! adds its own handle to the destruction.
use std::marker::PhantomData;
use vstd::prelude::*;

verus! {

/// The kinds of native handle that are destroyed by themselves.
#[derive(Debug, Clone, Copy, PartialEq, Eq, Hash, Structural)]
pub enum HandleKind {
    Device,
    Swapchain,
    Scene,
}

/// A kind of native object that has a destroy operation of its own.
pub trait DestroyHandle: Sized {
    /// The kind, which names the destroy operation.
    spec fn spec_kind() -> HandleKind;

    /// The kind, which names the destroy operation.
    fn kind() -> (k: HandleKind)
        ensures
            k == Self::spec_kind(),
    ;
}

/// The engine's device.
pub struct RenDevice {}

/// The engine's swapchain.
pub struct RenSwapchain {}

/// The engine's scene.
pub struct RenScene {}

impl DestroyHandle for RenDevice {
    open spec fn spec_kind() -> HandleKind {
        HandleKind::Device
    }

    fn kind() -> (k: HandleKind) {
        HandleKind::Device
    }
}

impl DestroyHandle for RenSwapchain {
    open spec fn spec_kind() -> HandleKind {
        HandleKind::Swapchain
    }

    fn kind() -> (k: HandleKind) {
        HandleKind::Swapchain
    }
}

impl DestroyHandle for RenScene {
    open spec fn spec_kind() -> HandleKind {
        HandleKind::Scene
    }

    fn kind() -> (k: HandleKind) {
        HandleKind::Scene
    }
}

/// A destruction that is due on the native side: the destroy operation of
/// `kind` on `handle`. It is handed out once and cannot be copied.
#[derive(Debug, PartialEq, Eq, Hash, Structural)]
pub struct Destroy {
    pub kind: HandleKind,
    pub handle: u64,
}

/// The kinds of native resource that are destroyed within their scene.
#[derive(Debug, Clone, Copy, PartialEq, Eq, Hash, Structural)]
pub enum ScopedKind {
    MeshInst,
    DirLight,
}

/// A destruction that is due within a scene: the destroy operation of `kind`
/// on `ids`, in their order, in the scene with the native handle `scene`. It
/// is handed out once and cannot be copied.
#[derive(Debug, PartialEq, Eq, Hash)]
pub struct ScopedDestroy {
    pub kind: ScopedKind,
    pub scene: u64,
    pub ids: Vec<u64>,
}

/// The owner of one native handle. It cannot be copied or cloned, and giving
/// it up with `destroy` consumes it, so the destruction is handed out once.
pub struct Handle<T: DestroyHandle> {
    raw: u64,
    kind: PhantomData<T>,
}

impl<T: DestroyHandle> Handle<T> {
    /// The native handle that is owned.
    pub closed spec fn view(&self) -> u64 {
        self.raw
    }

    /// Takes ownership of a native handle.
    pub fn new(handle: u64) -> (h: Self)
        ensures
            h@ == handle,
    {
        Handle { raw: handle, kind: PhantomData }
    }

    /// The native handle, for calls that read the object.
    pub fn get(&self) -> (handle: u64)
        ensures
            handle == self@,
    {
        self.raw
    }

    /// The native handle, for calls that change the object.
    pub fn get_mut(&mut self) -> (handle: u64)
        ensures
            handle == old(self)@,
            final(self)@ == old(self)@,
    {
        self.raw
    }

    /// Gives the handle up: the destruction that is now due.
    pub fn destroy(self) -> (d: Destroy)
        ensures
            d == (Destroy { kind: T::spec_kind(), handle: self@ }),
    {
        Destroy { kind: T::kind(), handle: self.raw }
    }
}

} // verus!
