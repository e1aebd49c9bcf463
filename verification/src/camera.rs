//! The camera of a scene and the tone mapping of its picture.
use crate::scalar::{
    Scalar, SCALAR_ONE, SCALAR_ONE_400TH, SCALAR_QUARTER_TURN, SCALAR_SIXTEEN, SCALAR_ZERO,
};
use vstd::prelude::*;
use vstd::std_specs::convert::FromSpecImpl;

verus! {

/// How the camera projects.
#[derive(Debug, Clone, Copy, PartialEq, Eq, Hash)]
pub enum CameraProjection {
    /// In perspective, with a horizontal field of view in radians.
    Perspective { hfov: Scalar },
    /// In parallel, with the width of the view.
    Orthographic { width: Scalar },
}

impl Default for CameraProjection {
    /// A perspective projection with a field of view of a quarter turn.
    fn default() -> (r: Self)
        ensures
            r == (CameraProjection::Perspective { hfov: SCALAR_QUARTER_TURN }),
    {
        CameraProjection::Perspective { hfov: SCALAR_QUARTER_TURN }
    }
}

/// Which member of the engine's projection union is set.
#[derive(Debug, Clone, Copy, PartialEq, Eq, Hash, Structural)]
pub enum RenProjection {
    Perspective,
    Orthographic,
}

impl CameraProjection {
    /// The tag of the projection.
    pub open spec fn tag(self) -> RenProjection {
        match self {
            CameraProjection::Perspective { .. } => RenProjection::Perspective,
            CameraProjection::Orthographic { .. } => RenProjection::Orthographic,
        }
    }

    /// The one number of the projection: the field of view or the width.
    pub open spec fn param(self) -> Scalar {
        match self {
            CameraProjection::Perspective { hfov } => hfov,
            CameraProjection::Orthographic { width } => width,
        }
    }
}

impl From<CameraProjection> for RenProjection {
    fn from(proj: CameraProjection) -> (r: Self) {
        match proj {
            CameraProjection::Perspective { .. } => RenProjection::Perspective,
            CameraProjection::Orthographic { .. } => RenProjection::Orthographic,
        }
    }
}

impl FromSpecImpl<CameraProjection> for RenProjection {
    open spec fn obeys_from_spec() -> bool {
        true
    }

    open spec fn from_spec(proj: CameraProjection) -> Self {
        proj.tag()
    }
}

/// How the exposure is set.
#[derive(Debug, Clone, Copy, PartialEq, Eq, Hash)]
pub enum ExposureMode {
    /// From the camera's settings, with the given sensitivity.
    Camera { iso: Scalar },
    /// By the engine.
    Automatic,
}

/// The tag of an exposure mode.
#[derive(Debug, Clone, Copy, PartialEq, Eq, Hash, Structural)]
pub enum RenExposureMode {
    Camera,
    Automatic,
}

impl ExposureMode {
    /// The tag of the mode.
    pub open spec fn tag(self) -> RenExposureMode {
        match self {
            ExposureMode::Camera { .. } => RenExposureMode::Camera,
            ExposureMode::Automatic => RenExposureMode::Automatic,
        }
    }

    /// The sensitivity that is handed to the engine: the given one, or zero
    /// where the engine sets the exposure.
    pub open spec fn iso(self) -> Scalar {
        match self {
            ExposureMode::Camera { iso } => iso,
            ExposureMode::Automatic => SCALAR_ZERO,
        }
    }
}

impl From<ExposureMode> for RenExposureMode {
    fn from(exposure: ExposureMode) -> (r: Self) {
        match exposure {
            ExposureMode::Camera { .. } => RenExposureMode::Camera,
            ExposureMode::Automatic => RenExposureMode::Automatic,
        }
    }
}

impl FromSpecImpl<ExposureMode> for RenExposureMode {
    open spec fn obeys_from_spec() -> bool {
        true
    }

    open spec fn from_spec(exposure: ExposureMode) -> Self {
        exposure.tag()
    }
}

/// A camera.
#[derive(Debug, Clone, Copy, PartialEq, Eq, Hash)]
pub struct CameraDesc {
    pub projection: CameraProjection,
    pub width: u32,
    pub height: u32,
    pub aperture: Scalar,
    pub shutter_time: Scalar,
    pub exposure_compensation: Scalar,
    pub exposure_mode: ExposureMode,
    pub position: [Scalar; 3],
    pub forward: [Scalar; 3],
    pub up: [Scalar; 3],
}

impl Default for CameraDesc {
    /// A camera at the origin that looks along the first axis with the third
    /// axis up, in perspective, 1280 by 720, at aperture 16 and a shutter time
    /// of one 400th, with automatic exposure.
    fn default() -> (r: Self)
        ensures
            r == (CameraDesc {
                projection: CameraProjection::Perspective { hfov: SCALAR_QUARTER_TURN },
                width: 1280,
                height: 720,
                aperture: SCALAR_SIXTEEN,
                shutter_time: SCALAR_ONE_400TH,
                exposure_compensation: SCALAR_ZERO,
                exposure_mode: ExposureMode::Automatic,
                position: [SCALAR_ZERO, SCALAR_ZERO, SCALAR_ZERO],
                forward: [SCALAR_ONE, SCALAR_ZERO, SCALAR_ZERO],
                up: [SCALAR_ZERO, SCALAR_ZERO, SCALAR_ONE],
            }),
    {
        CameraDesc {
            projection: CameraProjection::Perspective { hfov: SCALAR_QUARTER_TURN },
            width: 1280,
            height: 720,
            aperture: SCALAR_SIXTEEN,
            shutter_time: SCALAR_ONE_400TH,
            exposure_compensation: SCALAR_ZERO,
            exposure_mode: ExposureMode::Automatic,
            position: [SCALAR_ZERO, SCALAR_ZERO, SCALAR_ZERO],
            forward: [SCALAR_ONE, SCALAR_ZERO, SCALAR_ZERO],
            up: [SCALAR_ZERO, SCALAR_ZERO, SCALAR_ONE],
        }
    }
}

/// A camera as the engine reads it: each tagged variant laid out as its tag
/// beside its number.
#[derive(Debug, Clone, Copy, PartialEq, Eq, Hash)]
pub struct RenCameraDesc {
    pub projection: RenProjection,
    /// The field of view of a perspective projection, or the width of an
    /// orthographic one.
    pub projection_param: Scalar,
    pub width: u32,
    pub height: u32,
    pub aperture: Scalar,
    pub shutter_time: Scalar,
    pub iso: Scalar,
    pub exposure_compensation: Scalar,
    pub exposure_mode: RenExposureMode,
    pub position: [Scalar; 3],
    pub forward: [Scalar; 3],
    pub up: [Scalar; 3],
}

impl CameraDesc {
    /// The camera as the engine reads it.
    pub open spec fn flat(self) -> RenCameraDesc {
        RenCameraDesc {
            projection: self.projection.tag(),
            projection_param: self.projection.param(),
            width: self.width,
            height: self.height,
            aperture: self.aperture,
            shutter_time: self.shutter_time,
            iso: self.exposure_mode.iso(),
            exposure_compensation: self.exposure_compensation,
            exposure_mode: self.exposure_mode.tag(),
            position: self.position,
            forward: self.forward,
            up: self.up,
        }
    }
}

impl From<CameraDesc> for RenCameraDesc {
    fn from(desc: CameraDesc) -> (r: Self) {
        RenCameraDesc {
            projection: RenProjection::from(desc.projection),
            projection_param: match desc.projection {
                CameraProjection::Perspective { hfov } => hfov,
                CameraProjection::Orthographic { width } => width,
            },
            width: desc.width,
            height: desc.height,
            aperture: desc.aperture,
            shutter_time: desc.shutter_time,
            iso: match desc.exposure_mode {
                ExposureMode::Camera { iso } => iso,
                ExposureMode::Automatic => SCALAR_ZERO,
            },
            exposure_compensation: desc.exposure_compensation,
            exposure_mode: RenExposureMode::from(desc.exposure_mode),
            position: desc.position,
            forward: desc.forward,
            up: desc.up,
        }
    }
}

impl FromSpecImpl<CameraDesc> for RenCameraDesc {
    open spec fn obeys_from_spec() -> bool {
        true
    }

    open spec fn from_spec(desc: CameraDesc) -> Self {
        desc.flat()
    }
}

/// How the picture's brightness is mapped to what a display shows.
#[derive(Debug, Clone, Copy, PartialEq, Eq, Hash, Structural)]
pub enum ToneMappingOperator {
    Reinhard,
    ACES,
}

} // verus!
