//! The keys of the registries. A key is an opaque 64-bit value; a registry
//! tells whether it names something that is alive in it.
use vstd::prelude::*;

verus! {

/// What every key type offers: its 64-bit form.
pub trait KeyBits: Sized {
    /// The 64-bit form of the key.
    spec fn bits(&self) -> u64;

    /// The 64-bit form of the key.
    fn as_ffi(&self) -> (bits: u64)
        ensures
            bits == self.bits(),
    ;

    /// The key with the given 64-bit form.
    fn from_ffi(bits: u64) -> (key: Self)
        ensures
            key.bits() == bits,
    ;
}

/// Names an adapter in a device builder's list.
#[derive(Debug, Clone, Copy, PartialEq, Eq, Hash, Structural)]
pub struct AdapterKey {
    bits: u64,
}

impl View for AdapterKey {
    type V = u64;

    closed spec fn view(&self) -> u64 {
        self.bits
    }
}

impl KeyBits for AdapterKey {
    open spec fn bits(&self) -> u64 {
        self@
    }

    fn as_ffi(&self) -> (bits: u64) {
        self.bits
    }

    fn from_ffi(bits: u64) -> (key: Self) {
        Self { bits }
    }
}

/// Names a swapchain in a device's registry.
#[derive(Debug, Clone, Copy, PartialEq, Eq, Hash, Structural)]
pub struct SwapchainKey {
    bits: u64,
}

impl View for SwapchainKey {
    type V = u64;

    closed spec fn view(&self) -> u64 {
        self.bits
    }
}

impl KeyBits for SwapchainKey {
    open spec fn bits(&self) -> u64 {
        self@
    }

    fn as_ffi(&self) -> (bits: u64) {
        self.bits
    }

    fn from_ffi(bits: u64) -> (key: Self) {
        Self { bits }
    }
}

/// Names a scene in a device's registry.
#[derive(Debug, Clone, Copy, PartialEq, Eq, Hash, Structural)]
pub struct SceneKey {
    bits: u64,
}

impl View for SceneKey {
    type V = u64;

    closed spec fn view(&self) -> u64 {
        self.bits
    }
}

impl KeyBits for SceneKey {
    open spec fn bits(&self) -> u64 {
        self@
    }

    fn as_ffi(&self) -> (bits: u64) {
        self.bits
    }

    fn from_ffi(bits: u64) -> (key: Self) {
        Self { bits }
    }
}

/// Names a mesh in a scene's registry.
#[derive(Debug, Clone, Copy, PartialEq, Eq, Hash, Structural)]
pub struct MeshID {
    bits: u64,
}

impl View for MeshID {
    type V = u64;

    closed spec fn view(&self) -> u64 {
        self.bits
    }
}

impl KeyBits for MeshID {
    open spec fn bits(&self) -> u64 {
        self@
    }

    fn as_ffi(&self) -> (bits: u64) {
        self.bits
    }

    fn from_ffi(bits: u64) -> (key: Self) {
        Self { bits }
    }
}

/// Names an image in a scene's registry.
#[derive(Debug, Clone, Copy, PartialEq, Eq, Hash, Structural)]
pub struct ImageID {
    bits: u64,
}

impl View for ImageID {
    type V = u64;

    closed spec fn view(&self) -> u64 {
        self.bits
    }
}

impl KeyBits for ImageID {
    open spec fn bits(&self) -> u64 {
        self@
    }

    fn as_ffi(&self) -> (bits: u64) {
        self.bits
    }

    fn from_ffi(bits: u64) -> (key: Self) {
        Self { bits }
    }
}

/// Names a material in a scene's registry.
#[derive(Debug, Clone, Copy, PartialEq, Eq, Hash, Structural)]
pub struct MaterialID {
    bits: u64,
}

impl View for MaterialID {
    type V = u64;

    closed spec fn view(&self) -> u64 {
        self.bits
    }
}

impl KeyBits for MaterialID {
    open spec fn bits(&self) -> u64 {
        self@
    }

    fn as_ffi(&self) -> (bits: u64) {
        self.bits
    }

    fn from_ffi(bits: u64) -> (key: Self) {
        Self { bits }
    }
}

/// Names a mesh instance in a scene's registry.
#[derive(Debug, Clone, Copy, PartialEq, Eq, Hash, Structural)]
pub struct MeshInstID {
    bits: u64,
}

impl View for MeshInstID {
    type V = u64;

    closed spec fn view(&self) -> u64 {
        self.bits
    }
}

impl KeyBits for MeshInstID {
    open spec fn bits(&self) -> u64 {
        self@
    }

    fn as_ffi(&self) -> (bits: u64) {
        self.bits
    }

    fn from_ffi(bits: u64) -> (key: Self) {
        Self { bits }
    }
}

/// Names a directional light in a scene's registry.
#[derive(Debug, Clone, Copy, PartialEq, Eq, Hash, Structural)]
pub struct DirLightID {
    bits: u64,
}

impl View for DirLightID {
    type V = u64;

    closed spec fn view(&self) -> u64 {
        self.bits
    }
}

impl KeyBits for DirLightID {
    open spec fn bits(&self) -> u64 {
        self@
    }

    fn as_ffi(&self) -> (bits: u64) {
        self.bits
    }

    fn from_ffi(bits: u64) -> (key: Self) {
        Self { bits }
    }
}

} // verus!
