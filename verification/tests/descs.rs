use ren::registry::Registry;
use ren::scalar::{
    SCALAR_ONE, SCALAR_ONE_400TH, SCALAR_QUARTER_TURN, SCALAR_SIXTEEN, SCALAR_ZERO,
};
use ren::{
    AlphaMode, CameraDesc, CameraProjection, DirLightDesc, Error, ExposureMode, Filter, Format,
    ImageDesc, ImageID, KeyBits, MaterialDesc, MaterialID, MeshDesc, MeshID, MeshInstDesc,
    NormalTexture, OcculusionTexture, RenAlphaMode, RenCameraDesc, RenExposureMode, RenMeshDesc,
    RenProjection, RenTexture, Sampler, Texture, TextureChannel, TextureChannelSwizzle,
    WrappingMode,
};

#[test]
fn scalar_constants_are_the_bit_patterns_of_their_numbers() {
    assert_eq!(f32::from_bits(SCALAR_ZERO), 0.0);
    assert_eq!(f32::from_bits(SCALAR_ONE), 1.0);
    assert_eq!(f32::from_bits(SCALAR_SIXTEEN), 16.0);
    assert_eq!(f32::from_bits(SCALAR_QUARTER_TURN), 90.0f32.to_radians());
    assert_eq!(f32::from_bits(SCALAR_ONE_400TH), 1.0f32 / 400.0);
}

#[test]
fn camera_defaults() {
    let camera = CameraDesc::default();
    assert_eq!(
        camera.projection,
        CameraProjection::Perspective { hfov: 90.0f32.to_radians().to_bits() }
    );
    assert_eq!(CameraProjection::default(), camera.projection);
    assert_eq!(camera.width, 1280);
    assert_eq!(camera.height, 720);
    assert_eq!(f32::from_bits(camera.aperture), 16.0);
    assert_eq!(f32::from_bits(camera.shutter_time), 1.0 / 400.0);
    assert_eq!(f32::from_bits(camera.exposure_compensation), 0.0);
    assert_eq!(camera.exposure_mode, ExposureMode::Automatic);
    assert_eq!(camera.position.map(f32::from_bits), [0.0, 0.0, 0.0]);
    assert_eq!(camera.forward.map(f32::from_bits), [1.0, 0.0, 0.0]);
    assert_eq!(camera.up.map(f32::from_bits), [0.0, 0.0, 1.0]);
}

#[test]
fn camera_is_laid_out_by_tag_and_number() {
    let camera = CameraDesc {
        projection: CameraProjection::Orthographic { width: 2.0f32.to_bits() },
        width: 640,
        height: 480,
        exposure_compensation: 3.0f32.to_bits(),
        exposure_mode: ExposureMode::Camera { iso: 400.0f32.to_bits() },
        position: [0.0f32.to_bits(), 0.0f32.to_bits(), 1.0f32.to_bits()],
        ..Default::default()
    };
    let flat = RenCameraDesc::from(camera);
    assert_eq!(flat.projection, RenProjection::Orthographic);
    assert_eq!(f32::from_bits(flat.projection_param), 2.0);
    assert_eq!(flat.width, 640);
    assert_eq!(flat.height, 480);
    assert_eq!(flat.aperture, camera.aperture);
    assert_eq!(flat.shutter_time, camera.shutter_time);
    assert_eq!(f32::from_bits(flat.iso), 400.0);
    assert_eq!(f32::from_bits(flat.exposure_compensation), 3.0);
    assert_eq!(flat.exposure_mode, RenExposureMode::Camera);
    assert_eq!(flat.position, camera.position);
    assert_eq!(flat.forward, camera.forward);
    assert_eq!(flat.up, camera.up);
}

#[test]
fn automatic_exposure_has_no_sensitivity() {
    let flat = RenCameraDesc::from(CameraDesc::default());
    assert_eq!(flat.projection, RenProjection::Perspective);
    assert_eq!(f32::from_bits(flat.projection_param), 90.0f32.to_radians());
    assert_eq!(flat.exposure_mode, RenExposureMode::Automatic);
    assert_eq!(f32::from_bits(flat.iso), 0.0);
    assert_eq!(RenProjection::from(CameraProjection::default()), RenProjection::Perspective);
    assert_eq!(RenExposureMode::from(ExposureMode::Automatic), RenExposureMode::Automatic);
}

#[test]
fn sampler_and_swizzle_defaults() {
    assert_eq!(Filter::default(), Filter::Linear);
    assert_eq!(WrappingMode::default(), WrappingMode::Repeat);
    assert_eq!(TextureChannel::default(), TextureChannel::Identity);
    assert_eq!(
        Sampler::default(),
        Sampler {
            mag_filter: Filter::Linear,
            min_filter: Filter::Linear,
            mipmap_filter: Filter::Linear,
            wrap_u: WrappingMode::Repeat,
            wrap_v: WrappingMode::Repeat,
        }
    );
    assert_eq!(
        TextureChannelSwizzle::default(),
        TextureChannelSwizzle {
            r: TextureChannel::Identity,
            g: TextureChannel::Identity,
            b: TextureChannel::Identity,
            a: TextureChannel::Identity,
        }
    );
    assert_eq!(AlphaMode::default(), AlphaMode::Opaque);
}

#[test]
fn material_defaults() {
    let material = MaterialDesc::default();
    assert_eq!(material.base_color_factor.map(f32::from_bits), [1.0, 1.0, 1.0, 1.0]);
    assert_eq!(material.base_color_texture, None);
    assert_eq!(f32::from_bits(material.metallic_factor), 1.0);
    assert_eq!(f32::from_bits(material.roughness_factor), 1.0);
    assert_eq!(material.metallic_roughness_texture, None);
    assert_eq!(material.occlusion_texture, None);
    assert_eq!(material.normal_texture, None);
    assert_eq!(material.emissive_factor.map(f32::from_bits), [0.0, 0.0, 0.0]);
    assert_eq!(material.emissive_texture, None);
    assert_eq!(material.alpha_mode, AlphaMode::Opaque);
    assert!(!material.double_sided);
}

#[test]
fn material_without_textures_is_laid_out_with_defaults() {
    let images: Registry<u64> = Registry::new();
    let material = MaterialDesc {
        metallic_factor: 1.0f32.to_bits(),
        roughness_factor: 0.5f32.to_bits(),
        ..Default::default()
    };
    let flat = material.flatten(&images).unwrap();
    assert_eq!(flat.base_color_factor, material.base_color_factor);
    assert_eq!(flat.color_tex, None);
    assert_eq!(f32::from_bits(flat.metallic_factor), 1.0);
    assert_eq!(f32::from_bits(flat.roughness_factor), 0.5);
    assert_eq!(flat.metallic_roughness_tex, None);
    assert_eq!(f32::from_bits(flat.occlusion_strength), 0.0);
    assert_eq!(flat.occlusion_tex, None);
    assert_eq!(f32::from_bits(flat.normal_scale), 1.0);
    assert_eq!(flat.normal_tex, None);
    assert_eq!(flat.emissive_factor, material.emissive_factor);
    assert_eq!(flat.emissive_tex, None);
    assert_eq!(flat.alpha_mode, RenAlphaMode::Opaque);
    assert_eq!(f32::from_bits(flat.alpha_cutoff), 0.0);
    assert!(!flat.double_sided);
}

#[test]
fn material_textures_are_laid_out_by_native_id() {
    let mut images: Registry<u64> = Registry::new();
    let first = ImageID::from_ffi(images.insert(71));
    let second = ImageID::from_ffi(images.insert(72));
    let sampler = Sampler { mag_filter: Filter::Nearest, ..Default::default() };
    let swizzle = TextureChannelSwizzle { a: TextureChannel::One, ..Default::default() };
    let material = MaterialDesc {
        base_color_texture: Some(Texture { image: first, sampler, swizzle }),
        occlusion_texture: Some(OcculusionTexture {
            strength: 0.25f32.to_bits(),
            texture: Texture { image: second, sampler: Sampler::default(), swizzle },
        }),
        normal_texture: Some(NormalTexture {
            scale: 2.0f32.to_bits(),
            tex: Texture { image: first, sampler, swizzle: TextureChannelSwizzle::default() },
        }),
        alpha_mode: AlphaMode::Mask { cutoff: 0.5f32.to_bits() },
        double_sided: true,
        ..Default::default()
    };
    let flat = material.flatten(&images).unwrap();
    assert_eq!(flat.color_tex, Some(RenTexture { image: 71, sampler, swizzle }));
    assert_eq!(
        flat.occlusion_tex,
        Some(RenTexture { image: 72, sampler: Sampler::default(), swizzle })
    );
    assert_eq!(f32::from_bits(flat.occlusion_strength), 0.25);
    assert_eq!(
        flat.normal_tex,
        Some(RenTexture { image: 71, sampler, swizzle: TextureChannelSwizzle::default() })
    );
    assert_eq!(f32::from_bits(flat.normal_scale), 2.0);
    assert_eq!(flat.metallic_roughness_tex, None);
    assert_eq!(flat.emissive_tex, None);
    assert_eq!(flat.alpha_mode, RenAlphaMode::Mask);
    assert_eq!(f32::from_bits(flat.alpha_cutoff), 0.5);
    assert!(flat.double_sided);
}

#[test]
fn blend_has_no_cutoff() {
    let images: Registry<u64> = Registry::new();
    let material = MaterialDesc { alpha_mode: AlphaMode::Blend, ..Default::default() };
    let flat = material.flatten(&images).unwrap();
    assert_eq!(flat.alpha_mode, RenAlphaMode::Blend);
    assert_eq!(f32::from_bits(flat.alpha_cutoff), 0.0);
    assert_eq!(RenAlphaMode::from(AlphaMode::Mask { cutoff: 7 }), RenAlphaMode::Mask);
}

#[test]
fn material_with_a_dead_image_is_refused() {
    let mut images: Registry<u64> = Registry::new();
    let live = ImageID::from_ffi(images.insert(71));
    let dead = ImageID::from_ffi(images.insert(72));
    images.remove(dead.as_ffi());
    let texture = |image| Texture {
        image,
        sampler: Sampler::default(),
        swizzle: TextureChannelSwizzle::default(),
    };
    let ok = MaterialDesc { emissive_texture: Some(texture(live)), ..Default::default() };
    assert!(ok.flatten(&images).is_ok());
    let in_emissive = MaterialDesc { emissive_texture: Some(texture(dead)), ..Default::default() };
    assert_eq!(in_emissive.flatten(&images), Err(Error::InvalidKey));
    let in_normal = MaterialDesc {
        base_color_texture: Some(texture(live)),
        normal_texture: Some(NormalTexture { scale: SCALAR_ONE, tex: texture(dead) }),
        ..Default::default()
    };
    assert_eq!(in_normal.flatten(&images), Err(Error::InvalidKey));
    let in_occlusion = MaterialDesc {
        occlusion_texture: Some(OcculusionTexture { strength: SCALAR_ONE, texture: texture(dead) }),
        ..Default::default()
    };
    assert_eq!(in_occlusion.flatten(&images), Err(Error::InvalidKey));
    let in_metallic = MaterialDesc {
        metallic_roughness_texture: Some(texture(dead)),
        ..Default::default()
    };
    assert_eq!(in_metallic.flatten(&images), Err(Error::InvalidKey));
}

#[test]
fn mesh_has_as_many_vertices_as_its_shortest_channel() {
    let positions = [[0u32; 3]; 5];
    let colors = [[0u32; 4]; 3];
    let desc = MeshDesc { positions: &positions, colors: Some(&colors), ..Default::default() };
    assert_eq!(desc.num_vertices(), 3);
    assert_eq!(desc.num_indices(), 0);
    let flat = RenMeshDesc::from(desc);
    assert_eq!(flat.num_vertices, 3);
    assert_eq!(flat.num_indices, 0);
    assert_eq!(flat.positions.len(), 5);
    assert_eq!(flat.colors.map(|c| c.len()), Some(3));
    assert_eq!(flat.normals, None);
    assert_eq!(flat.indices, None);
    assert_eq!(RenMeshDesc::from(desc), flat);
}

#[test]
fn mesh_channels_and_indices() {
    let positions = [[1.0f32.to_bits(); 3]; 4];
    let normals = [[0u32; 3]; 6];
    let tangents = [[0u32; 4]; 4];
    let uvs = [[0u32; 2]; 2];
    let indices = [0u32, 1, 2, 2, 1, 3];
    let desc = MeshDesc {
        positions: &positions,
        normals: Some(&normals),
        tangents: Some(&tangents),
        indices: Some(&indices),
        ..Default::default()
    };
    assert_eq!(desc.num_vertices(), 4);
    assert_eq!(desc.num_indices(), 6);
    let with_uvs = MeshDesc { uvs: Some(&uvs), ..desc };
    assert_eq!(with_uvs.num_vertices(), 2);
    let empty = [[0u32; 4]; 0];
    let with_no_colors = MeshDesc { colors: Some(&empty), ..desc };
    assert_eq!(with_no_colors.num_vertices(), 0);
    assert_eq!(MeshDesc::default().num_vertices(), 0);
    let flat = RenMeshDesc::from(desc);
    assert_eq!(flat.indices, Some(&indices[..]));
    assert_eq!(flat.positions, &positions[..]);
}

#[test]
fn image_buffer_holds_every_pixel() {
    let data = [0u8; 24];
    let exact = ImageDesc { format: Format::RGB8_UNORM, width: 4, height: 2, data: &data };
    assert!(exact.check());
    let flat = exact.flatten().unwrap();
    assert_eq!(flat.format, Format::RGB8_UNORM);
    assert_eq!((flat.width, flat.height), (4, 2));
    assert_eq!(flat.data.len(), 24);
    let short = ImageDesc { data: &data[..23], ..exact };
    assert!(!short.check());
    assert_eq!(short.flatten(), Err(Error::BufferTooSmall));
    let wider = ImageDesc { format: Format::RGBA8_UNORM, ..exact };
    assert!(!wider.check());
    let long = ImageDesc { height: 1, ..exact };
    assert!(long.check());
}

#[test]
fn image_without_pixels_needs_no_bytes() {
    let none = ImageDesc { format: Format::RGBA32_SFLOAT, width: 0, height: 7, data: &[] };
    assert!(none.check());
    let one = ImageDesc { format: Format::RGBA32_SFLOAT, width: 1, height: 1, data: &[0; 15] };
    assert!(!one.check());
}

#[test]
fn image_size_does_not_wrap() {
    let data = [0u8; 64];
    let huge =
        ImageDesc { format: Format::RGBA32_SFLOAT, width: u32::MAX, height: u32::MAX, data: &data };
    assert_eq!(huge.flatten(), Err(Error::BufferTooSmall));
    let wraps_in_32_bits =
        ImageDesc { format: Format::R8_UNORM, width: 0x1_0000, height: 0x1_0000, data: &data };
    assert!(!wraps_in_32_bits.check());
}

#[test]
fn mesh_instance_is_laid_out_by_native_ids() {
    let mut meshes: Registry<u64> = Registry::new();
    let mut materials: Registry<u64> = Registry::new();
    let mesh = MeshID::from_ffi(meshes.insert(5));
    let material = MaterialID::from_ffi(materials.insert(9));
    let desc = MeshInstDesc { mesh, material, casts_shadows: true };
    let flat = desc.flatten(&meshes, &materials).unwrap();
    assert_eq!((flat.mesh, flat.material, flat.casts_shadows), (5, 9, true));
    materials.remove(material.as_ffi());
    assert_eq!(desc.flatten(&meshes, &materials), Err(Error::InvalidKey));
    let other = MaterialID::from_ffi(materials.insert(10));
    let desc = MeshInstDesc { mesh, material: other, casts_shadows: false };
    assert_eq!(desc.flatten(&meshes, &materials).unwrap().material, 10);
    meshes.remove(mesh.as_ffi());
    assert_eq!(desc.flatten(&meshes, &materials), Err(Error::InvalidKey));
}

#[test]
fn light_defaults() {
    let light = DirLightDesc::default();
    assert_eq!(light.color.map(f32::from_bits), [1.0, 1.0, 1.0]);
    assert_eq!(f32::from_bits(light.illuminance), 1.0);
    assert_eq!(light.origin.map(f32::from_bits), [0.0, 0.0, 1.0]);
}
