//! Materials and the textures that they refer to.
use crate::error::Error;
use crate::keys::{ImageID, KeyBits};
use crate::registry::Registry;
use crate::scalar::{Scalar, SCALAR_ONE, SCALAR_ZERO};
use vstd::prelude::*;
use vstd::std_specs::convert::FromSpecImpl;

verus! {

/// How a texture is read between its texels.
#[derive(Debug, Clone, Copy, PartialEq, Eq, Hash, Structural)]
pub enum Filter {
    Nearest,
    Linear,
}

impl Default for Filter {
    fn default() -> (r: Self)
        ensures
            r == Filter::Linear,
    {
        Filter::Linear
    }
}

/// How a texture is read outside its edges.
#[derive(Debug, Clone, Copy, PartialEq, Eq, Hash, Structural)]
pub enum WrappingMode {
    Repeat,
    MirroredRepeat,
    ClampToEdge,
}

impl Default for WrappingMode {
    fn default() -> (r: Self)
        ensures
            r == WrappingMode::Repeat,
    {
        WrappingMode::Repeat
    }
}

/// How a texture is sampled.
#[derive(Debug, Clone, Copy, PartialEq, Eq, Hash, Structural)]
pub struct Sampler {
    pub mag_filter: Filter,
    pub min_filter: Filter,
    pub mipmap_filter: Filter,
    pub wrap_u: WrappingMode,
    pub wrap_v: WrappingMode,
}

impl Default for Sampler {
    /// Linear filters, and repetition in both directions.
    fn default() -> (r: Self)
        ensures
            r == (Sampler {
                mag_filter: Filter::Linear,
                min_filter: Filter::Linear,
                mipmap_filter: Filter::Linear,
                wrap_u: WrappingMode::Repeat,
                wrap_v: WrappingMode::Repeat,
            }),
    {
        Sampler {
            mag_filter: Filter::Linear,
            min_filter: Filter::Linear,
            mipmap_filter: Filter::Linear,
            wrap_u: WrappingMode::Repeat,
            wrap_v: WrappingMode::Repeat,
        }
    }
}

/// Where a channel of a texture is taken from.
#[derive(Debug, Clone, Copy, PartialEq, Eq, Hash, Structural)]
pub enum TextureChannel {
    Identity,
    Zero,
    One,
    R,
    G,
    B,
    A,
}

impl Default for TextureChannel {
    fn default() -> (r: Self)
        ensures
            r == TextureChannel::Identity,
    {
        TextureChannel::Identity
    }
}

/// Where each of the four channels of a texture is taken from.
#[derive(Debug, Clone, Copy, PartialEq, Eq, Hash, Structural)]
pub struct TextureChannelSwizzle {
    pub r: TextureChannel,
    pub g: TextureChannel,
    pub b: TextureChannel,
    pub a: TextureChannel,
}

impl Default for TextureChannelSwizzle {
    /// Every channel from itself.
    fn default() -> (r: Self)
        ensures
            r == (TextureChannelSwizzle {
                r: TextureChannel::Identity,
                g: TextureChannel::Identity,
                b: TextureChannel::Identity,
                a: TextureChannel::Identity,
            }),
    {
        TextureChannelSwizzle {
            r: TextureChannel::Identity,
            g: TextureChannel::Identity,
            b: TextureChannel::Identity,
            a: TextureChannel::Identity,
        }
    }
}

/// An image of the scene, with how it is sampled.
#[derive(Debug, Clone, Copy, PartialEq, Eq, Hash)]
pub struct Texture {
    pub image: ImageID,
    pub sampler: Sampler,
    pub swizzle: TextureChannelSwizzle,
}

/// A texture as the engine reads it: the image by its native id.
#[derive(Debug, Clone, Copy, PartialEq, Eq, Hash)]
pub struct RenTexture {
    pub image: u64,
    pub sampler: Sampler,
    pub swizzle: TextureChannelSwizzle,
}

/// An occlusion texture and how strongly it applies.
#[derive(Debug, Clone, Copy, PartialEq, Eq, Hash)]
pub struct OcculusionTexture {
    pub strength: Scalar,
    pub texture: Texture,
}

/// A normal texture and the scale of its normals.
#[derive(Debug, Clone, Copy, PartialEq, Eq, Hash)]
pub struct NormalTexture {
    pub scale: Scalar,
    pub tex: Texture,
}

/// How the alpha channel of the base color is used.
#[derive(Debug, Clone, Copy, PartialEq, Eq, Hash)]
pub enum AlphaMode {
    /// Not at all.
    Opaque,
    /// A pixel is drawn where its alpha reaches the cutoff.
    Mask { cutoff: Scalar },
    /// The pixel is blended with what lies behind it.
    Blend,
}

impl Default for AlphaMode {
    fn default() -> (r: Self)
        ensures
            r == AlphaMode::Opaque,
    {
        AlphaMode::Opaque
    }
}

/// The tag of an alpha mode.
#[derive(Debug, Clone, Copy, PartialEq, Eq, Hash, Structural)]
pub enum RenAlphaMode {
    Opaque,
    Mask,
    Blend,
}

impl AlphaMode {
    /// The tag of the mode.
    pub open spec fn tag(self) -> RenAlphaMode {
        match self {
            AlphaMode::Opaque => RenAlphaMode::Opaque,
            AlphaMode::Mask { .. } => RenAlphaMode::Mask,
            AlphaMode::Blend => RenAlphaMode::Blend,
        }
    }

    /// The cutoff that is handed to the engine: the given one, or zero where
    /// the mode has none.
    pub open spec fn cutoff(self) -> Scalar {
        match self {
            AlphaMode::Mask { cutoff } => cutoff,
            _ => SCALAR_ZERO,
        }
    }
}

impl From<AlphaMode> for RenAlphaMode {
    fn from(mode: AlphaMode) -> (r: Self) {
        match mode {
            AlphaMode::Opaque => RenAlphaMode::Opaque,
            AlphaMode::Mask { .. } => RenAlphaMode::Mask,
            AlphaMode::Blend => RenAlphaMode::Blend,
        }
    }
}

impl FromSpecImpl<AlphaMode> for RenAlphaMode {
    open spec fn obeys_from_spec() -> bool {
        true
    }

    open spec fn from_spec(mode: AlphaMode) -> Self {
        mode.tag()
    }
}

/// A material.
#[derive(Debug, Clone, Copy, PartialEq, Eq, Hash)]
pub struct MaterialDesc {
    pub base_color_factor: [Scalar; 4],
    pub base_color_texture: Option<Texture>,
    pub metallic_factor: Scalar,
    pub roughness_factor: Scalar,
    pub metallic_roughness_texture: Option<Texture>,
    pub occlusion_texture: Option<OcculusionTexture>,
    pub normal_texture: Option<NormalTexture>,
    pub emissive_factor: [Scalar; 3],
    pub emissive_texture: Option<Texture>,
    pub alpha_mode: AlphaMode,
    pub double_sided: bool,
}

impl Default for MaterialDesc {
    /// A white, fully metallic and fully rough material without textures and
    /// without emission: opaque and single-sided.
    fn default() -> (r: Self)
        ensures
            r == (MaterialDesc {
                base_color_factor: [SCALAR_ONE, SCALAR_ONE, SCALAR_ONE, SCALAR_ONE],
                base_color_texture: None,
                metallic_factor: SCALAR_ONE,
                roughness_factor: SCALAR_ONE,
                metallic_roughness_texture: None,
                occlusion_texture: None,
                normal_texture: None,
                emissive_factor: [SCALAR_ZERO, SCALAR_ZERO, SCALAR_ZERO],
                emissive_texture: None,
                alpha_mode: AlphaMode::Opaque,
                double_sided: false,
            }),
    {
        MaterialDesc {
            base_color_factor: [SCALAR_ONE, SCALAR_ONE, SCALAR_ONE, SCALAR_ONE],
            base_color_texture: None,
            metallic_factor: SCALAR_ONE,
            roughness_factor: SCALAR_ONE,
            metallic_roughness_texture: None,
            occlusion_texture: None,
            normal_texture: None,
            emissive_factor: [SCALAR_ZERO, SCALAR_ZERO, SCALAR_ZERO],
            emissive_texture: None,
            alpha_mode: AlphaMode::Opaque,
            double_sided: false,
        }
    }
}

/// A material as the engine reads it: every texture by the native id of its
/// image, every absent number by its default, the alpha mode as its tag beside
/// its cutoff.
#[derive(Debug, Clone, Copy, PartialEq, Eq, Hash)]
pub struct RenMaterialDesc {
    pub base_color_factor: [Scalar; 4],
    pub color_tex: Option<RenTexture>,
    pub metallic_factor: Scalar,
    pub roughness_factor: Scalar,
    pub metallic_roughness_tex: Option<RenTexture>,
    pub occlusion_strength: Scalar,
    pub occlusion_tex: Option<RenTexture>,
    pub normal_scale: Scalar,
    pub normal_tex: Option<RenTexture>,
    pub emissive_factor: [Scalar; 3],
    pub emissive_tex: Option<RenTexture>,
    pub alpha_mode: RenAlphaMode,
    pub alpha_cutoff: Scalar,
    pub double_sided: bool,
}

/// Whether the image of a texture, if there is a texture, is alive in
/// `images`.
pub open spec fn texture_is_live(tex: Option<Texture>, images: Map<u64, u64>) -> bool {
    match tex {
        Some(t) => images.contains_key(t.image.bits()),
        None => true,
    }
}

/// A texture as the engine reads it, its image looked up in `images`.
pub open spec fn flat_texture(tex: Option<Texture>, images: Map<u64, u64>) -> Option<RenTexture> {
    match tex {
        Some(t) => Some(
            RenTexture { image: images[t.image.bits()], sampler: t.sampler, swizzle: t.swizzle },
        ),
        None => None,
    }
}

impl MaterialDesc {
    /// The occlusion texture without its strength.
    pub open spec fn occlusion(self) -> Option<Texture> {
        match self.occlusion_texture {
            Some(o) => Some(o.texture),
            None => None,
        }
    }

    /// The normal texture without its scale.
    pub open spec fn normal(self) -> Option<Texture> {
        match self.normal_texture {
            Some(n) => Some(n.tex),
            None => None,
        }
    }

    /// Whether the image of every texture of the material is alive in
    /// `images`.
    pub open spec fn textures_are_live(self, images: Map<u64, u64>) -> bool {
        &&& texture_is_live(self.base_color_texture, images)
        &&& texture_is_live(self.metallic_roughness_texture, images)
        &&& texture_is_live(self.occlusion(), images)
        &&& texture_is_live(self.normal(), images)
        &&& texture_is_live(self.emissive_texture, images)
    }

    /// The material as the engine reads it, its images looked up in `images`.
    /// Without an occlusion texture the strength is zero; without a normal
    /// texture the scale is one.
    pub open spec fn flat(self, images: Map<u64, u64>) -> RenMaterialDesc {
        RenMaterialDesc {
            base_color_factor: self.base_color_factor,
            color_tex: flat_texture(self.base_color_texture, images),
            metallic_factor: self.metallic_factor,
            roughness_factor: self.roughness_factor,
            metallic_roughness_tex: flat_texture(self.metallic_roughness_texture, images),
            occlusion_strength: match self.occlusion_texture {
                Some(o) => o.strength,
                None => SCALAR_ZERO,
            },
            occlusion_tex: flat_texture(self.occlusion(), images),
            normal_scale: match self.normal_texture {
                Some(n) => n.scale,
                None => SCALAR_ONE,
            },
            normal_tex: flat_texture(self.normal(), images),
            emissive_factor: self.emissive_factor,
            emissive_tex: flat_texture(self.emissive_texture, images),
            alpha_mode: self.alpha_mode.tag(),
            alpha_cutoff: self.alpha_mode.cutoff(),
            double_sided: self.double_sided,
        }
    }

    /// Lays the material out for the engine. Fails with `InvalidKey` exactly
    /// when a texture names an image that is not alive in `images`.
    pub fn flatten(&self, images: &Registry<u64>) -> (r: Result<RenMaterialDesc, Error>)
        requires
            images.wf(),
        ensures
            r == (if self.textures_are_live(images@) {
                Ok::<RenMaterialDesc, Error>(self.flat(images@))
            } else {
                Err(Error::InvalidKey)
            }),
    {
        let color_tex = flatten_texture(self.base_color_texture, images)?;
        let metallic_roughness_tex = flatten_texture(self.metallic_roughness_texture, images)?;
        let occlusion_tex = flatten_texture(
            match self.occlusion_texture {
                Some(o) => Some(o.texture),
                None => None,
            },
            images,
        )?;
        let normal_tex = flatten_texture(
            match self.normal_texture {
                Some(n) => Some(n.tex),
                None => None,
            },
            images,
        )?;
        let emissive_tex = flatten_texture(self.emissive_texture, images)?;
        Ok(
            RenMaterialDesc {
                base_color_factor: self.base_color_factor,
                color_tex,
                metallic_factor: self.metallic_factor,
                roughness_factor: self.roughness_factor,
                metallic_roughness_tex,
                occlusion_strength: match self.occlusion_texture {
                    Some(o) => o.strength,
                    None => SCALAR_ZERO,
                },
                occlusion_tex,
                normal_scale: match self.normal_texture {
                    Some(n) => n.scale,
                    None => SCALAR_ONE,
                },
                normal_tex,
                emissive_factor: self.emissive_factor,
                emissive_tex,
                alpha_mode: RenAlphaMode::from(self.alpha_mode),
                alpha_cutoff: match self.alpha_mode {
                    AlphaMode::Mask { cutoff } => cutoff,
                    _ => SCALAR_ZERO,
                },
                double_sided: self.double_sided,
            },
        )
    }
}

/// Lays a texture out for the engine. Fails with `InvalidKey` exactly when
/// there is a texture and its image is not alive in `images`.
pub fn flatten_texture(tex: Option<Texture>, images: &Registry<u64>) -> (r: Result<
    Option<RenTexture>,
    Error,
>)
    requires
        images.wf(),
    ensures
        r == (if texture_is_live(tex, images@) {
            Ok::<Option<RenTexture>, Error>(flat_texture(tex, images@))
        } else {
            Err(Error::InvalidKey)
        }),
{
    match tex {
        Some(t) => match images.get(t.image.as_ffi()) {
            Some(image) => Ok(
                Some(RenTexture { image: *image, sampler: t.sampler, swizzle: t.swizzle }),
            ),
            None => Err(Error::InvalidKey),
        },
        None => Ok(None),
    }
}

} // verus!
