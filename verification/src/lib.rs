//! The core of a binding to a native 3D rendering engine: the registries of
//! the resources that the engine hands out, the frame protocol that brackets
//! every change of a scene, and the reading of the engine's result codes and the
//! layout of its descriptions.
//!
//! The core never calls the engine. Its user does, and hands each answer of
//! the engine to the core, which keeps the books.
pub mod batch;
pub mod builder;
pub mod camera;
pub mod device;
pub mod error;
pub mod format;
pub mod handle;
pub mod image;
pub mod keys;
pub mod laws;
pub mod light;
pub mod material;
pub mod mesh;
pub mod registry;
pub mod scalar;
pub mod scene;
pub mod swapchain;

pub use crate::builder::{Adapter, DeviceBuilder, RenDeviceDesc};
pub use crate::camera::{
    CameraDesc, CameraProjection, ExposureMode, RenCameraDesc, RenExposureMode, RenProjection,
    ToneMappingOperator,
};
pub use crate::device::{Device, DeviceFrame, SceneFrame};
pub use crate::error::{Error, RenResult};
pub use crate::format::{ComponentFormat, Format, NumericFormat};
pub use crate::handle::{
    Destroy, DestroyHandle, Handle, HandleKind, ScopedDestroy, ScopedKind,
};
pub use crate::image::{ImageDesc, RenImageDesc};
pub use crate::keys::{
    AdapterKey, DirLightID, ImageID, KeyBits, MaterialID, MeshID, MeshInstID, SceneKey,
    SwapchainKey,
};
pub use crate::light::DirLightDesc;
pub use crate::material::{
    AlphaMode, Filter, MaterialDesc, NormalTexture, OcculusionTexture, RenAlphaMode,
    RenMaterialDesc, RenTexture, Sampler, Texture, TextureChannel, TextureChannelSwizzle,
    WrappingMode,
};
pub use crate::mesh::{MeshDesc, MeshInstDesc, RenMeshDesc, RenMeshInstDesc};
pub use crate::scalar::{Matrix, Scalar};
pub use crate::scene::Scene;
pub use crate::swapchain::{Swapchain, VkPresentModeKHR};
