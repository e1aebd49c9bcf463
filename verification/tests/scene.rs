use ren::error::{REN_RUNTIME_ERROR, REN_SUCCESS, REN_VULKAN_ERROR};
use ren::{
    Adapter, CameraDesc, Device, DirLightDesc, DirLightID, Error, Format, ImageDesc, ImageID,
    KeyBits, MaterialDesc, MaterialID, Matrix, MeshDesc, MeshID, MeshInstDesc, MeshInstID,
    RenCameraDesc, Sampler, Scene, SceneKey, ScopedDestroy, ScopedKind, SwapchainKey, Texture,
    TextureChannelSwizzle, ToneMappingOperator,
};

fn setup() -> (Device, SceneKey, SwapchainKey) {
    let mut device = Device::builder(vec![Adapter::new("only".to_string(), [0; 16])])
        .unwrap()
        .build(REN_SUCCESS, 1)
        .unwrap();
    let scene = device.create_scene(REN_SUCCESS, 100).unwrap();
    let swapchain = device.create_swapchain(REN_SUCCESS, 10, 1, 1, 2).unwrap();
    (device, scene, swapchain)
}

fn in_frame() -> (Device, SceneKey) {
    let (mut device, scene, swapchain) = setup();
    device.begin_frame().unwrap();
    device.begin_scene_frame(scene, swapchain).unwrap();
    (device, scene)
}

fn insts_due(ids: &[u64]) -> ScopedDestroy {
    ScopedDestroy { kind: ScopedKind::MeshInst, scene: 100, ids: ids.to_vec() }
}

fn lights_due(ids: &[u64]) -> ScopedDestroy {
    ScopedDestroy { kind: ScopedKind::DirLight, scene: 100, ids: ids.to_vec() }
}

fn triangle() -> [[u32; 3]; 3] {
    [[0; 3], [1.0f32.to_bits(); 3], [2.0f32.to_bits(); 3]]
}

fn matrix(tag: u32) -> Matrix {
    [[tag; 4]; 4]
}

fn populate(scene: &mut Scene) -> (MeshID, MaterialID) {
    let positions = triangle();
    let desc = MeshDesc { positions: &positions, ..Default::default() };
    let mesh = scene.create_mesh(&desc, REN_SUCCESS, 5).unwrap();
    let material = scene.create_material(&MaterialDesc::default(), REN_SUCCESS, 9).unwrap();
    (mesh, material)
}

fn instances(scene: &mut Scene, ids: &[u64]) -> Vec<MeshInstID> {
    let (mesh, material) = populate(scene);
    let descs = vec![MeshInstDesc { mesh, material, casts_shadows: false }; ids.len()];
    scene.create_mesh_insts(&descs, REN_SUCCESS, ids).unwrap()
}

#[test]
fn new_scene_takes_the_engines_answer() {
    let scene = Scene::new(REN_SUCCESS, 42).unwrap();
    assert_eq!(scene.get_handle(), 42);
    assert_eq!(scene.get_frame(), None);
    assert_eq!(
        (
            scene.mesh_count(),
            scene.image_count(),
            scene.material_count(),
            scene.mesh_inst_count(),
            scene.dir_light_count()
        ),
        (0, 0, 0, 0, 0)
    );
    assert!(matches!(Scene::new(REN_VULKAN_ERROR, 42), Err(Error::Vulkan)));
    assert!(matches!(Scene::new(8, 42), Err(Error::Unknown)));
}

#[test]
fn nothing_is_changed_outside_a_frame() {
    let (mut device, key, _) = setup();
    let scene = device.get_scene_mut(key).unwrap();
    let positions = triangle();
    let mesh = MeshDesc { positions: &positions, ..Default::default() };
    let image = ImageDesc { format: Format::R8_UNORM, width: 1, height: 1, data: &[0] };
    let light = DirLightDesc::default();
    let camera = CameraDesc::default();
    assert_eq!(scene.check_frame(), Err(Error::NoFrame));
    assert_eq!(scene.plan_set_camera(&camera), Err(Error::NoFrame));
    assert_eq!(scene.set_camera(&camera, REN_SUCCESS), Err(Error::NoFrame));
    assert_eq!(
        scene.plan_set_tone_mapping(ToneMappingOperator::ACES),
        Err(Error::NoFrame)
    );
    assert_eq!(scene.set_tone_mapping(ToneMappingOperator::ACES, REN_SUCCESS), Err(Error::NoFrame));
    assert_eq!(scene.plan_create_mesh(&mesh), Err(Error::NoFrame));
    assert_eq!(scene.create_mesh(&mesh, REN_SUCCESS, 5), Err(Error::NoFrame));
    assert_eq!(scene.plan_create_image(&image), Err(Error::NoFrame));
    assert_eq!(scene.create_image(&image, REN_SUCCESS, 5), Err(Error::NoFrame));
    assert_eq!(scene.plan_create_material(&MaterialDesc::default()), Err(Error::NoFrame));
    assert_eq!(
        scene.create_material(&MaterialDesc::default(), REN_SUCCESS, 5),
        Err(Error::NoFrame)
    );
    assert_eq!(scene.plan_create_dir_light(&light), Err(Error::NoFrame));
    assert_eq!(scene.create_dir_light(&light, REN_SUCCESS, 5), Err(Error::NoFrame));
    assert_eq!(scene.create_dir_lights(&[light], REN_VULKAN_ERROR, &[5]), Err(Error::NoFrame));
    assert_eq!(
        scene.set_mesh_inst_matrix(MeshInstID::from_ffi(1), &matrix(1)),
        Err(Error::NoFrame)
    );
    assert_eq!(scene.set_mesh_inst_matrices(&[], &[]), Err(Error::NoFrame));
    assert_eq!(
        scene.config_dir_light(DirLightID::from_ffi(1), &light, REN_SUCCESS),
        Err(Error::NoFrame)
    );
    assert_eq!(scene.mesh_count() + scene.image_count() + scene.material_count(), 0);
    assert_eq!(scene.dir_light_count() + scene.mesh_inst_count(), 0);
}

#[test]
fn camera_and_tone_mapping() {
    let (mut device, key) = in_frame();
    let scene = device.get_scene_mut(key).unwrap();
    let camera = CameraDesc::default();
    assert_eq!(scene.check_frame(), Ok(()));
    assert_eq!(scene.plan_set_camera(&camera), Ok(RenCameraDesc::from(camera)));
    assert_eq!(scene.set_camera(&camera, REN_SUCCESS), Ok(()));
    assert_eq!(scene.set_camera(&camera, REN_RUNTIME_ERROR), Err(Error::Runtime));
    assert_eq!(
        scene.plan_set_tone_mapping(ToneMappingOperator::Reinhard),
        Ok(ToneMappingOperator::Reinhard)
    );
    assert_eq!(scene.set_tone_mapping(ToneMappingOperator::ACES, REN_SUCCESS), Ok(()));
    assert_eq!(scene.set_tone_mapping(ToneMappingOperator::ACES, 99), Err(Error::Unknown));
}

#[test]
fn created_mesh_resolves_under_its_key() {
    let (mut device, key) = in_frame();
    let scene = device.get_scene_mut(key).unwrap();
    let positions = [[0u32; 3]; 5];
    let colors = [[0u32; 4]; 3];
    let desc = MeshDesc { positions: &positions, colors: Some(&colors), ..Default::default() };
    let plan = scene.plan_create_mesh(&desc).unwrap();
    assert_eq!(plan.num_vertices, 3);
    assert_eq!(plan.num_indices, 0);
    let a = scene.create_mesh(&desc, REN_SUCCESS, 5).unwrap();
    let b = scene.create_mesh(&desc, REN_SUCCESS, 6).unwrap();
    assert_ne!(a, b);
    assert_eq!(scene.get_mesh(a), Some(5));
    assert_eq!(scene.get_mesh(b), Some(6));
    assert_eq!(scene.mesh_count(), 2);
    assert_eq!(scene.create_mesh(&desc, REN_VULKAN_ERROR, 7), Err(Error::Vulkan));
    assert_eq!(scene.mesh_count(), 2);
    assert_eq!(scene.get_mesh(MeshID::from_ffi(0)), None);
    assert_eq!(scene.plan_create_mesh(&desc).unwrap().num_vertices, 3);
}

#[test]
fn image_with_a_short_buffer_is_refused() {
    let (mut device, key) = in_frame();
    let scene = device.get_scene_mut(key).unwrap();
    let data = [0u8; 32];
    let full = ImageDesc { format: Format::RGBA8_UNORM, width: 4, height: 2, data: &data };
    let short = ImageDesc { data: &data[..31], ..full };
    assert_eq!(scene.plan_create_image(&short), Err(Error::BufferTooSmall));
    assert_eq!(scene.create_image(&short, REN_SUCCESS, 3), Err(Error::BufferTooSmall));
    assert_eq!(scene.create_image(&short, REN_VULKAN_ERROR, 3), Err(Error::BufferTooSmall));
    assert_eq!(scene.image_count(), 0);
    assert_eq!(scene.plan_create_image(&full).unwrap().data.len(), 32);
    assert_eq!(scene.create_image(&full, REN_RUNTIME_ERROR, 3), Err(Error::Runtime));
    assert_eq!(scene.image_count(), 0);
    let image = scene.create_image(&full, REN_SUCCESS, 3).unwrap();
    assert_eq!(scene.get_image(image), Some(3));
    assert_eq!(scene.image_count(), 1);
    assert_eq!(scene.get_image(ImageID::from_ffi(image.as_ffi() + 1)), None);
}

#[test]
fn material_refers_to_live_images() {
    let (mut device, key) = in_frame();
    let scene = device.get_scene_mut(key).unwrap();
    let image = scene
        .create_image(
            &ImageDesc { format: Format::R8_UNORM, width: 1, height: 1, data: &[7] },
            REN_SUCCESS,
            33,
        )
        .unwrap();
    let texture = |image| Texture {
        image,
        sampler: Sampler::default(),
        swizzle: TextureChannelSwizzle::default(),
    };
    let good = MaterialDesc { base_color_texture: Some(texture(image)), ..Default::default() };
    let bad = MaterialDesc {
        emissive_texture: Some(texture(ImageID::from_ffi(4))),
        ..Default::default()
    };
    assert_eq!(scene.plan_create_material(&good).unwrap().color_tex.unwrap().image, 33);
    assert_eq!(scene.plan_create_material(&bad), Err(Error::InvalidKey));
    assert_eq!(scene.create_material(&bad, REN_SUCCESS, 1), Err(Error::InvalidKey));
    assert_eq!(scene.material_count(), 0);
    assert_eq!(scene.create_material(&good, REN_VULKAN_ERROR, 1), Err(Error::Vulkan));
    assert_eq!(scene.material_count(), 0);
    let material = scene.create_material(&good, REN_SUCCESS, 1).unwrap();
    assert_eq!(scene.get_material(material), Some(1));
    assert_eq!(scene.get_material(MaterialID::from_ffi(0)), None);
    assert_eq!(scene.material_count(), 1);
}

#[test]
fn batch_of_materials_is_as_long_as_the_shorter_slice() {
    let (mut device, key) = in_frame();
    let scene = device.get_scene_mut(key).unwrap();
    let descs = [MaterialDesc::default(); 4];
    assert_eq!(scene.plan_create_materials(&descs, 2).unwrap().len(), 2);
    assert_eq!(scene.plan_create_materials(&descs, 9).unwrap().len(), 4);
    assert_eq!(scene.plan_create_materials(&descs, 0).unwrap().len(), 0);
    let keys = scene.create_materials(&descs, REN_SUCCESS, &[11, 12]).unwrap();
    assert_eq!(keys.len(), 2);
    assert_eq!(scene.get_material(keys[0]), Some(11));
    assert_eq!(scene.get_material(keys[1]), Some(12));
    assert_eq!(scene.material_count(), 2);
    let more = scene.create_materials(&descs[..1], REN_SUCCESS, &[21, 22, 23]).unwrap();
    assert_eq!(more.len(), 1);
    assert_eq!(scene.get_material(more[0]), Some(21));
    assert_eq!(scene.material_count(), 3);
    assert_eq!(scene.create_materials(&descs, REN_SUCCESS, &[]).unwrap(), vec![]);
    assert_eq!(scene.create_materials(&descs, REN_RUNTIME_ERROR, &[1, 2]), Err(Error::Runtime));
    assert_eq!(scene.material_count(), 3);
}

#[test]
fn batch_of_materials_looks_at_the_batch_only() {
    let (mut device, key) = in_frame();
    let scene = device.get_scene_mut(key).unwrap();
    let bad = MaterialDesc {
        base_color_texture: Some(Texture {
            image: ImageID::from_ffi(0),
            sampler: Sampler::default(),
            swizzle: TextureChannelSwizzle::default(),
        }),
        ..Default::default()
    };
    let descs = [MaterialDesc::default(), MaterialDesc::default(), bad];
    assert_eq!(scene.plan_create_materials(&descs, 3), Err(Error::InvalidKey));
    assert_eq!(scene.create_materials(&descs, REN_SUCCESS, &[1, 2, 3]), Err(Error::InvalidKey));
    assert_eq!(scene.material_count(), 0);
    assert_eq!(scene.create_materials(&descs, REN_SUCCESS, &[1, 2]).unwrap().len(), 2);
    assert_eq!(scene.material_count(), 2);
}

#[test]
fn mesh_instance_refers_to_live_mesh_and_material() {
    let (mut device, key) = in_frame();
    let scene = device.get_scene_mut(key).unwrap();
    let (mesh, material) = populate(scene);
    let good = MeshInstDesc { mesh, material, casts_shadows: true };
    let no_mesh = MeshInstDesc { mesh: MeshID::from_ffi(0), ..good };
    let no_material = MeshInstDesc { material: MaterialID::from_ffi(0), ..good };
    let crossed = MeshInstDesc {
        mesh: MeshID::from_ffi(material.as_ffi() ^ (7 << 33)),
        material,
        casts_shadows: true,
    };
    let plan = scene.plan_create_mesh_inst(&good).unwrap();
    assert_eq!((plan.mesh, plan.material, plan.casts_shadows), (5, 9, true));
    assert_eq!(scene.plan_create_mesh_inst(&no_mesh), Err(Error::InvalidKey));
    assert_eq!(scene.plan_create_mesh_inst(&no_material), Err(Error::InvalidKey));
    assert_eq!(scene.plan_create_mesh_inst(&crossed), Err(Error::InvalidKey));
    assert_eq!(scene.create_mesh_inst(&no_mesh, REN_SUCCESS, 1), Err(Error::InvalidKey));
    assert_eq!(scene.create_mesh_inst(&no_material, REN_SUCCESS, 1), Err(Error::InvalidKey));
    assert_eq!(scene.create_mesh_inst(&good, REN_VULKAN_ERROR, 1), Err(Error::Vulkan));
    assert_eq!(scene.mesh_inst_count(), 0);
    let inst = scene.create_mesh_inst(&good, REN_SUCCESS, 1).unwrap();
    assert_eq!(scene.get_mesh_inst(inst), Some(1));
    assert_eq!(scene.mesh_inst_count(), 1);
    let batch = scene.create_mesh_insts(&[good, good, good], REN_SUCCESS, &[2, 3]).unwrap();
    assert_eq!(batch.len(), 2);
    assert_eq!(scene.get_mesh_inst(batch[0]), Some(2));
    assert_eq!(scene.get_mesh_inst(batch[1]), Some(3));
    assert_eq!(scene.plan_create_mesh_insts(&[good, no_mesh], 1).unwrap().len(), 1);
    assert_eq!(scene.plan_create_mesh_insts(&[good, no_mesh], 2), Err(Error::InvalidKey));
    assert_eq!(
        scene.create_mesh_insts(&[good, no_mesh], REN_SUCCESS, &[4, 5]),
        Err(Error::InvalidKey)
    );
    assert_eq!(scene.mesh_inst_count(), 3);
}

#[test]
fn mesh_instance_is_destroyed_once() {
    let (mut device, key) = in_frame();
    let scene = device.get_scene_mut(key).unwrap();
    let insts = instances(scene, &[1, 2, 3]);
    assert_eq!(scene.destroy_mesh_inst(insts[1]), Some(insts_due(&[2])));
    assert_eq!(scene.destroy_mesh_inst(insts[1]), None);
    assert_eq!(scene.get_mesh_inst(insts[1]), None);
    assert_eq!(scene.get_mesh_inst(insts[0]), Some(1));
    assert_eq!(scene.get_mesh_inst(insts[2]), Some(3));
    assert_eq!(scene.mesh_inst_count(), 2);
    assert_eq!(scene.destroy_mesh_inst(MeshInstID::from_ffi(0)), None);
    assert_eq!(scene.mesh_inst_count(), 2);
}

#[test]
fn batch_destroys_each_live_instance_once() {
    let (mut device, key) = in_frame();
    let scene = device.get_scene_mut(key).unwrap();
    let insts = instances(scene, &[1, 2, 3, 4]);
    assert_eq!(scene.destroy_mesh_inst(insts[2]), Some(insts_due(&[3])));
    let batch = [insts[3], insts[2], insts[0], insts[3], MeshInstID::from_ffi(0), insts[0]];
    assert_eq!(scene.destroy_mesh_insts(&batch), insts_due(&[4, 1]));
    assert_eq!(scene.destroy_mesh_insts(&batch), insts_due(&[]));
    assert_eq!(scene.mesh_inst_count(), 1);
    assert_eq!(scene.get_mesh_inst(insts[1]), Some(2));
    assert_eq!(scene.destroy_mesh_insts(&[]), insts_due(&[]));
    assert_eq!(scene.destroy_mesh_insts(&[insts[1]]), insts_due(&[2]));
    assert_eq!(scene.mesh_inst_count(), 0);
}

#[test]
fn destruction_needs_no_frame() {
    let (mut device, key) = in_frame();
    let insts = instances(device.get_scene_mut(key).unwrap(), &[1, 2]);
    let light = device
        .get_scene_mut(key)
        .unwrap()
        .create_dir_light(&DirLightDesc::default(), REN_SUCCESS, 8)
        .unwrap();
    assert!(device.end_frame());
    let scene = device.get_scene_mut(key).unwrap();
    assert_eq!(scene.check_frame(), Err(Error::NoFrame));
    assert_eq!(scene.destroy_mesh_inst(insts[0]), Some(insts_due(&[1])));
    assert_eq!(scene.destroy_mesh_insts(&insts), insts_due(&[2]));
    assert_eq!(scene.destroy_dir_light(light), Some(lights_due(&[8])));
    assert_eq!(scene.destroy_dir_lights(&[light]), lights_due(&[]));
}

#[test]
fn batch_of_matrices_covers_the_shorter_slice() {
    let (mut device, key) = in_frame();
    let scene = device.get_scene_mut(key).unwrap();
    let insts = instances(scene, &[1, 2, 3, 4, 5]);
    let matrices = [matrix(10), matrix(20), matrix(30)];
    let batch = scene.set_mesh_inst_matrices(&insts, &matrices).unwrap();
    assert_eq!(batch, vec![(1, matrix(10)), (2, matrix(20)), (3, matrix(30))]);
    let batch = scene.set_mesh_inst_matrices(&insts[3..], &matrices).unwrap();
    assert_eq!(batch, vec![(4, matrix(10)), (5, matrix(20))]);
    assert_eq!(scene.set_mesh_inst_matrices(&insts, &[]).unwrap(), vec![]);
    assert_eq!(scene.set_mesh_inst_matrices(&[], &matrices).unwrap(), vec![]);
    assert_eq!(scene.set_mesh_inst_matrix(insts[4], &matrix(7)), Ok((5, matrix(7))));
}

#[test]
fn batch_of_matrices_needs_its_instances_alive() {
    let (mut device, key) = in_frame();
    let scene = device.get_scene_mut(key).unwrap();
    let insts = instances(scene, &[1, 2, 3, 4, 5]);
    let matrices = [matrix(10), matrix(20), matrix(30)];
    assert_eq!(scene.destroy_mesh_inst(insts[4]), Some(insts_due(&[5])));
    assert_eq!(scene.set_mesh_inst_matrices(&insts, &matrices).unwrap().len(), 3);
    assert_eq!(scene.destroy_mesh_inst(insts[1]), Some(insts_due(&[2])));
    assert_eq!(scene.set_mesh_inst_matrices(&insts, &matrices), Err(Error::InvalidKey));
    assert_eq!(scene.set_mesh_inst_matrices(&insts, &matrices[..1]).unwrap(), vec![(1, matrix(10))]);
    assert_eq!(scene.set_mesh_inst_matrix(insts[1], &matrix(7)), Err(Error::InvalidKey));
}

#[test]
fn directional_lights() {
    let (mut device, key) = in_frame();
    let scene = device.get_scene_mut(key).unwrap();
    let bright = DirLightDesc { illuminance: 25_000.0f32.to_bits(), ..Default::default() };
    let dim = DirLightDesc::default();
    assert_eq!(scene.plan_create_dir_light(&bright), Ok(bright));
    assert_eq!(scene.plan_create_dir_lights(&[bright, dim, dim], 2), Ok(vec![bright, dim]));
    assert_eq!(scene.plan_create_dir_lights(&[bright], 2), Ok(vec![bright]));
    let sun = scene.create_dir_light(&bright, REN_SUCCESS, 8).unwrap();
    assert_eq!(scene.get_dir_light(sun), Some(8));
    assert_eq!(scene.create_dir_light(&bright, REN_VULKAN_ERROR, 9), Err(Error::Vulkan));
    let more = scene.create_dir_lights(&[dim, dim, dim], REN_SUCCESS, &[20, 21]).unwrap();
    assert_eq!(more.len(), 2);
    assert_eq!(scene.get_dir_light(more[0]), Some(20));
    assert_eq!(scene.get_dir_light(more[1]), Some(21));
    assert_eq!(scene.dir_light_count(), 3);
    assert_eq!(scene.create_dir_lights(&[dim], 77, &[1]), Err(Error::Unknown));
    assert_eq!(scene.dir_light_count(), 3);
    assert_eq!(scene.destroy_dir_light(more[0]), Some(lights_due(&[20])));
    assert_eq!(scene.destroy_dir_light(more[0]), None);
    assert_eq!(scene.destroy_dir_lights(&[sun, more[0], more[1], sun]), lights_due(&[8, 21]));
    assert_eq!(scene.dir_light_count(), 0);
    assert_eq!(scene.get_dir_light(DirLightID::from_ffi(3)), None);
}

#[test]
fn directional_lights_are_configured_in_batches() {
    let (mut device, key) = in_frame();
    let scene = device.get_scene_mut(key).unwrap();
    let bright = DirLightDesc { illuminance: 25_000.0f32.to_bits(), ..Default::default() };
    let dim = DirLightDesc::default();
    let lights = scene.create_dir_lights(&[dim, dim, dim], REN_SUCCESS, &[20, 21, 22]).unwrap();
    assert_eq!(scene.plan_config_dir_light(lights[1], &bright), Ok((21, bright)));
    assert_eq!(scene.config_dir_light(lights[1], &bright, REN_SUCCESS), Ok(()));
    assert_eq!(scene.config_dir_light(lights[1], &bright, REN_RUNTIME_ERROR), Err(Error::Runtime));
    assert_eq!(
        scene.plan_config_dir_lights(&lights, &[bright, dim]),
        Ok(vec![(20, bright), (21, dim)])
    );
    assert_eq!(scene.plan_config_dir_lights(&lights[2..], &[bright, dim]), Ok(vec![(22, bright)]));
    assert_eq!(scene.config_dir_lights(&lights, &[bright, dim], REN_SUCCESS), Ok(()));
    assert_eq!(scene.config_dir_lights(&lights, &[bright, dim], 5), Err(Error::Unknown));
    assert_eq!(scene.destroy_dir_light(lights[0]), Some(lights_due(&[20])));
    assert_eq!(scene.plan_config_dir_lights(&lights, &[bright]), Err(Error::InvalidKey));
    assert_eq!(scene.config_dir_lights(&lights, &[bright], REN_SUCCESS), Err(Error::InvalidKey));
    assert_eq!(scene.config_dir_light(lights[0], &bright, REN_SUCCESS), Err(Error::InvalidKey));
    assert_eq!(scene.config_dir_lights(&lights[1..], &[bright], REN_SUCCESS), Ok(()));
}

#[test]
fn key_of_another_scene_may_be_dead_here() {
    let (mut device, first) = in_frame();
    let second = device.create_scene(REN_SUCCESS, 200).unwrap();
    let insts = instances(device.get_scene_mut(first).unwrap(), &[1, 2]);
    let other = device.get_scene(second).unwrap();
    assert_eq!(other.get_mesh_inst(insts[0]), None);
    assert_eq!(other.get_mesh_inst(insts[1]), None);
    assert_eq!(other.mesh_inst_count(), 0);
}
