//! Pixel formats: how many channels a pixel has, how wide each one is, and how
//! its numbers are read.
use vstd::prelude::*;
use vstd::std_specs::convert::FromSpecImpl;

verus! {

/// The channels of a pixel and the width of each.
#[derive(Debug, Clone, Copy, PartialEq, Eq, Hash, Structural)]
pub enum ComponentFormat {
    R8,
    RG8,
    RGB8,
    RGBA8,
    R16,
    RG16,
    RGB16,
    RGBA16,
    RGB32,
    RGBA32,
}

/// How the numbers in a channel are read.
#[derive(Debug, Clone, Copy, PartialEq, Eq, Hash, Structural)]
pub enum NumericFormat {
    UNORM,
    SRGB,
    SFLOAT,
}

/// A pixel format.
#[allow(non_camel_case_types)]
#[derive(Debug, Clone, Copy, PartialEq, Eq, Hash, Structural)]
pub enum Format {
    R8_UNORM,
    R8_SRGB,
    RG8_UNORM,
    RG8_SRGB,
    RGB8_UNORM,
    RGB8_SRGB,
    RGBA8_UNORM,
    RGBA8_SRGB,
    R16_UNORM,
    RG16_UNORM,
    RGB16_UNORM,
    RGBA16_UNORM,
    RGB32_SFLOAT,
    RGBA32_SFLOAT,
}

impl ComponentFormat {
    /// The number of channels.
    pub open spec fn channels(self) -> nat {
        match self {
            ComponentFormat::R8 | ComponentFormat::R16 => 1,
            ComponentFormat::RG8 | ComponentFormat::RG16 => 2,
            ComponentFormat::RGB8 | ComponentFormat::RGB16 | ComponentFormat::RGB32 => 3,
            ComponentFormat::RGBA8 | ComponentFormat::RGBA16 | ComponentFormat::RGBA32 => 4,
        }
    }

    /// The number of bytes in one channel.
    pub open spec fn channel_bytes(self) -> nat {
        match self {
            ComponentFormat::R8
            | ComponentFormat::RG8
            | ComponentFormat::RGB8
            | ComponentFormat::RGBA8 => 1,
            ComponentFormat::R16
            | ComponentFormat::RG16
            | ComponentFormat::RGB16
            | ComponentFormat::RGBA16 => 2,
            ComponentFormat::RGB32 | ComponentFormat::RGBA32 => 4,
        }
    }

    /// The number of bytes in one pixel.
    pub open spec fn spec_size(self) -> nat {
        self.channels() * self.channel_bytes()
    }

    /// The number of bytes in one pixel: its channels times the bytes of each.
    pub fn size(&self) -> (n: usize)
        ensures
            n == self.spec_size(),
            1 <= n <= 16,
    {
        match self {
            ComponentFormat::R8 => 1,
            ComponentFormat::RG8 => 2,
            ComponentFormat::RGB8 => 3,
            ComponentFormat::RGBA8 => 4,
            ComponentFormat::R16 => 2,
            ComponentFormat::RG16 => 4,
            ComponentFormat::RGB16 => 6,
            ComponentFormat::RGBA16 => 8,
            ComponentFormat::RGB32 => 12,
            ComponentFormat::RGBA32 => 16,
        }
    }
}

impl Format {
    /// The channels of the format.
    pub open spec fn component(self) -> ComponentFormat {
        match self {
            Format::R8_UNORM | Format::R8_SRGB => ComponentFormat::R8,
            Format::RG8_UNORM | Format::RG8_SRGB => ComponentFormat::RG8,
            Format::RGB8_UNORM | Format::RGB8_SRGB => ComponentFormat::RGB8,
            Format::RGBA8_UNORM | Format::RGBA8_SRGB => ComponentFormat::RGBA8,
            Format::R16_UNORM => ComponentFormat::R16,
            Format::RG16_UNORM => ComponentFormat::RG16,
            Format::RGB16_UNORM => ComponentFormat::RGB16,
            Format::RGBA16_UNORM => ComponentFormat::RGBA16,
            Format::RGB32_SFLOAT => ComponentFormat::RGB32,
            Format::RGBA32_SFLOAT => ComponentFormat::RGBA32,
        }
    }

    /// How the format reads its numbers.
    pub open spec fn numeric(self) -> NumericFormat {
        match self {
            Format::R8_UNORM
            | Format::RG8_UNORM
            | Format::RGB8_UNORM
            | Format::RGBA8_UNORM
            | Format::R16_UNORM
            | Format::RG16_UNORM
            | Format::RGB16_UNORM
            | Format::RGBA16_UNORM => NumericFormat::UNORM,
            Format::R8_SRGB
            | Format::RG8_SRGB
            | Format::RGB8_SRGB
            | Format::RGBA8_SRGB => NumericFormat::SRGB,
            Format::RGB32_SFLOAT | Format::RGBA32_SFLOAT => NumericFormat::SFLOAT,
        }
    }

    /// The number of bytes in one pixel.
    pub open spec fn spec_size(self) -> nat {
        self.component().spec_size()
    }

    /// The format with the given channels and the given reading of numbers, if
    /// there is one.
    pub fn new(component_format: ComponentFormat, numeric_format: NumericFormat) -> (r: Option<
        Self,
    >)
        ensures
            match r {
                Some(f) => f.component() == component_format && f.numeric() == numeric_format,
                None => forall|f: Format|
                    !(f.component() == component_format && f.numeric() == numeric_format),
            },
    {
        match (component_format, numeric_format) {
            (ComponentFormat::R8, NumericFormat::UNORM) => Some(Format::R8_UNORM),
            (ComponentFormat::R8, NumericFormat::SRGB) => Some(Format::R8_SRGB),
            (ComponentFormat::RG8, NumericFormat::UNORM) => Some(Format::RG8_UNORM),
            (ComponentFormat::RG8, NumericFormat::SRGB) => Some(Format::RG8_SRGB),
            (ComponentFormat::RGB8, NumericFormat::UNORM) => Some(Format::RGB8_UNORM),
            (ComponentFormat::RGB8, NumericFormat::SRGB) => Some(Format::RGB8_SRGB),
            (ComponentFormat::RGBA8, NumericFormat::UNORM) => Some(Format::RGBA8_UNORM),
            (ComponentFormat::RGBA8, NumericFormat::SRGB) => Some(Format::RGBA8_SRGB),
            (ComponentFormat::R16, NumericFormat::UNORM) => Some(Format::R16_UNORM),
            (ComponentFormat::RG16, NumericFormat::UNORM) => Some(Format::RG16_UNORM),
            (ComponentFormat::RGB16, NumericFormat::UNORM) => Some(Format::RGB16_UNORM),
            (ComponentFormat::RGBA16, NumericFormat::UNORM) => Some(Format::RGBA16_UNORM),
            (ComponentFormat::RGB32, NumericFormat::SFLOAT) => Some(Format::RGB32_SFLOAT),
            (ComponentFormat::RGBA32, NumericFormat::SFLOAT) => Some(Format::RGBA32_SFLOAT),
            _ => None,
        }
    }

    /// The number of bytes in one pixel.
    pub fn size(&self) -> (n: usize)
        ensures
            n == self.spec_size(),
            1 <= n <= 16,
    {
        ComponentFormat::from(*self).size()
    }
}

impl From<Format> for ComponentFormat {
    fn from(format: Format) -> (r: Self) {
        match format {
            Format::R8_UNORM | Format::R8_SRGB => ComponentFormat::R8,
            Format::RG8_UNORM | Format::RG8_SRGB => ComponentFormat::RG8,
            Format::RGB8_UNORM | Format::RGB8_SRGB => ComponentFormat::RGB8,
            Format::RGBA8_UNORM | Format::RGBA8_SRGB => ComponentFormat::RGBA8,
            Format::R16_UNORM => ComponentFormat::R16,
            Format::RG16_UNORM => ComponentFormat::RG16,
            Format::RGB16_UNORM => ComponentFormat::RGB16,
            Format::RGBA16_UNORM => ComponentFormat::RGBA16,
            Format::RGB32_SFLOAT => ComponentFormat::RGB32,
            Format::RGBA32_SFLOAT => ComponentFormat::RGBA32,
        }
    }
}

impl FromSpecImpl<Format> for ComponentFormat {
    open spec fn obeys_from_spec() -> bool {
        true
    }

    open spec fn from_spec(format: Format) -> Self {
        format.component()
    }
}

impl From<Format> for NumericFormat {
    fn from(format: Format) -> (r: Self) {
        match format {
            Format::R8_UNORM
            | Format::RG8_UNORM
            | Format::RGB8_UNORM
            | Format::RGBA8_UNORM
            | Format::R16_UNORM
            | Format::RG16_UNORM
            | Format::RGB16_UNORM
            | Format::RGBA16_UNORM => NumericFormat::UNORM,
            Format::R8_SRGB | Format::RG8_SRGB | Format::RGB8_SRGB | Format::RGBA8_SRGB => {
                NumericFormat::SRGB
            },
            Format::RGB32_SFLOAT | Format::RGBA32_SFLOAT => NumericFormat::SFLOAT,
        }
    }
}

impl FromSpecImpl<Format> for NumericFormat {
    open spec fn obeys_from_spec() -> bool {
        true
    }

    open spec fn from_spec(format: Format) -> Self {
        format.numeric()
    }
}

/// A format is the one that `Format::new` builds from its own channels and its
/// own reading of numbers: the two together name the format.
pub proof fn lemma_format_is_named_by_its_parts(a: Format, b: Format)
    requires
        a.component() == b.component(),
        a.numeric() == b.numeric(),
    ensures
        a == b,
{
}

} // verus!
