//! Scenes. A scene owns the registries of its meshes, images, materials, mesh
//! instances and directional lights. What creates or changes a resource, the
//! camera or the tone mapping is accepted only while a frame is open on the
//! scene, and fails with `NoFrame` while none is; what destroys a resource is
//! accepted at any time.
//!
//! The engine itself is called by the user of this module. Each operation
//! comes as a plan, which says what is to be handed to the engine or why the
//! call must not be made, and as the operation proper, which takes what the
//! engine answered and brings the registries up to date.
use crate::batch::{
    all_live, batch_count, history_after, ids_of, key_bits, register_all, registered, remove_all,
    removed, resolve_all, spec_batch_count,
};
use crate::camera::{CameraDesc, RenCameraDesc, ToneMappingOperator};
use crate::error::{Error, RenResult};
use crate::handle::{Handle, RenScene, ScopedDestroy, ScopedKind};
use crate::image::{ImageDesc, RenImageDesc};
use crate::keys::{DirLightID, ImageID, KeyBits, MaterialID, MeshID, MeshInstID, SwapchainKey};
use crate::light::DirLightDesc;
use crate::material::{MaterialDesc, RenMaterialDesc};
use crate::mesh::{MeshDesc, MeshInstDesc, RenMeshDesc, RenMeshInstDesc};
use crate::registry::{History, Registry, MAX_ENTRIES};
use crate::scalar::Matrix;
use vstd::prelude::*;

verus! {

/// What a scene holds: its native handle, for each kind of resource the
/// native id of every key that is alive, for the kinds that can be destroyed
/// one by one what is remembered of the keys that were, and the swapchain of
/// the frame that is open on the scene, if one is.
pub struct SceneView {
    pub handle: u64,
    pub meshes: Map<u64, u64>,
    pub images: Map<u64, u64>,
    pub materials: Map<u64, u64>,
    pub mesh_insts: Map<u64, u64>,
    pub mesh_inst_history: History,
    pub dir_lights: Map<u64, u64>,
    pub dir_light_history: History,
    pub frame: Option<SwapchainKey>,
}

impl SceneView {
    /// A scene without resources and without a frame.
    pub open spec fn empty(handle: u64) -> SceneView {
        SceneView {
            handle,
            meshes: Map::empty(),
            images: Map::empty(),
            materials: Map::empty(),
            mesh_insts: Map::empty(),
            mesh_inst_history: History::empty(),
            dir_lights: Map::empty(),
            dir_light_history: History::empty(),
            frame: None,
        }
    }

    /// Why the engine must not be called: for want of a frame, or else for
    /// what the binding found in the arguments.
    pub open spec fn refusal(self, finding: Option<Error>) -> Option<Error> {
        if self.frame is None {
            Some(Error::NoFrame)
        } else {
            finding
        }
    }

    /// Why an operation fails: because the engine must not be called, or else
    /// because the engine reported an error.
    pub open spec fn failure(self, finding: Option<Error>, result: RenResult) -> Option<Error> {
        if self.refusal(finding) is Some {
            self.refusal(finding)
        } else {
            Error::of_code(result)
        }
    }
}

/// A scene.
pub struct Scene {
    handle: Handle<RenScene>,
    meshes: Registry<u64>,
    images: Registry<u64>,
    materials: Registry<u64>,
    mesh_insts: Registry<u64>,
    dir_lights: Registry<u64>,
    frame: Option<SwapchainKey>,
}

impl View for Scene {
    type V = SceneView;

    closed spec fn view(&self) -> SceneView {
        SceneView {
            handle: self.handle@,
            meshes: self.meshes@,
            images: self.images@,
            materials: self.materials@,
            mesh_insts: self.mesh_insts@,
            mesh_inst_history: self.mesh_insts.history(),
            dir_lights: self.dir_lights@,
            dir_light_history: self.dir_lights.history(),
            frame: self.frame,
        }
    }
}

/// The native id under a key, if the key is alive.
fn lookup<K: KeyBits>(reg: &Registry<u64>, key: K) -> (id: Option<u64>)
    requires
        reg.wf(),
    ensures
        id == reg@.get(key.bits()),
{
    match reg.get(key.as_ffi()) {
        Some(id) => Some(*id),
        None => None,
    }
}

impl Scene {
    /// Every registry of the scene is in order.
    pub closed spec fn wf(&self) -> bool {
        &&& self.meshes.wf()
        &&& self.images.wf()
        &&& self.materials.wf()
        &&& self.mesh_insts.wf()
        &&& self.dir_lights.wf()
    }

    /// A scene holds finitely many resources of each kind, and a key that was
    /// destroyed names nothing while the registry that it came from is young.
    pub proof fn lemma_wf(&self)
        requires
            self.wf(),
        ensures
            self@.meshes.dom().finite(),
            self@.images.dom().finite(),
            self@.materials.dom().finite(),
            self@.mesh_insts.dom().finite(),
            self@.dir_lights.dom().finite(),
            self@.mesh_inst_history.is_young() ==> forall|k: u64| #[trigger]
                self@.mesh_inst_history.retired.contains(k) ==> !self@.mesh_insts.contains_key(k),
            self@.dir_light_history.is_young() ==> forall|k: u64| #[trigger]
                self@.dir_light_history.retired.contains(k) ==> !self@.dir_lights.contains_key(k),
    {
        self.meshes.lemma_wf();
        self.images.lemma_wf();
        self.materials.lemma_wf();
        self.mesh_insts.lemma_wf();
        self.dir_lights.lemma_wf();
    }

    /// Takes the engine's answer to the creation of a scene: the scene around
    /// `handle`, without resources and without a frame, or the error that the
    /// engine reported.
    pub fn new(result: RenResult, handle: u64) -> (r: Result<Self, Error>)
        ensures
            match r {
                Ok(scene) => Error::of_code(result) is None && scene.wf() && scene@
                    == SceneView::empty(handle),
                Err(e) => Error::of_code(result) == Some(e),
            },
    {
        match Error::new(result) {
            Ok(()) => Ok(
                Scene {
                    handle: Handle::new(handle),
                    meshes: Registry::new(),
                    images: Registry::new(),
                    materials: Registry::new(),
                    mesh_insts: Registry::new(),
                    dir_lights: Registry::new(),
                    frame: None,
                },
            ),
            Err(e) => Err(e),
        }
    }

    /// Gives the scene up: its native handle, to be destroyed.
    pub fn into_handle(self) -> (handle: Handle<RenScene>)
        ensures
            handle@ == self@.handle,
    {
        self.handle
    }

    /// The native handle of the scene.
    pub fn get_handle(&self) -> (handle: u64)
        ensures
            handle == self@.handle,
    {
        self.handle.get()
    }

    /// The swapchain of the frame that is open on the scene, if one is.
    pub fn get_frame(&self) -> (frame: Option<SwapchainKey>)
        ensures
            frame == self@.frame,
    {
        self.frame
    }

    /// The native id of a mesh, if the key is alive.
    pub fn get_mesh(&self, mesh: MeshID) -> (id: Option<u64>)
        requires
            self.wf(),
        ensures
            id == self@.meshes.get(mesh.bits()),
    {
        lookup(&self.meshes, mesh)
    }

    /// The native id of an image, if the key is alive.
    pub fn get_image(&self, image: ImageID) -> (id: Option<u64>)
        requires
            self.wf(),
        ensures
            id == self@.images.get(image.bits()),
    {
        lookup(&self.images, image)
    }

    /// The native id of a material, if the key is alive.
    pub fn get_material(&self, material: MaterialID) -> (id: Option<u64>)
        requires
            self.wf(),
        ensures
            id == self@.materials.get(material.bits()),
    {
        lookup(&self.materials, material)
    }

    /// The native id of a mesh instance, if the key is alive.
    pub fn get_mesh_inst(&self, mesh_inst: MeshInstID) -> (id: Option<u64>)
        requires
            self.wf(),
        ensures
            id == self@.mesh_insts.get(mesh_inst.bits()),
    {
        lookup(&self.mesh_insts, mesh_inst)
    }

    /// The native id of a directional light, if the key is alive.
    pub fn get_dir_light(&self, light: DirLightID) -> (id: Option<u64>)
        requires
            self.wf(),
        ensures
            id == self@.dir_lights.get(light.bits()),
    {
        lookup(&self.dir_lights, light)
    }

    /// The number of meshes that are alive.
    pub fn mesh_count(&self) -> (n: usize)
        requires
            self.wf(),
        ensures
            n == self@.meshes.len(),
    {
        self.meshes.len()
    }

    /// The number of images that are alive.
    pub fn image_count(&self) -> (n: usize)
        requires
            self.wf(),
        ensures
            n == self@.images.len(),
    {
        self.images.len()
    }

    /// The number of materials that are alive.
    pub fn material_count(&self) -> (n: usize)
        requires
            self.wf(),
        ensures
            n == self@.materials.len(),
    {
        self.materials.len()
    }

    /// The number of mesh instances that are alive.
    pub fn mesh_inst_count(&self) -> (n: usize)
        requires
            self.wf(),
        ensures
            n == self@.mesh_insts.len(),
    {
        self.mesh_insts.len()
    }

    /// The number of directional lights that are alive.
    pub fn dir_light_count(&self) -> (n: usize)
        requires
            self.wf(),
        ensures
            n == self@.dir_lights.len(),
    {
        self.dir_lights.len()
    }

    /// Opens a frame on the scene, bound to `swapchain`. Fails with `Busy`
    /// exactly when a frame is open already; the scene is then unchanged.
    pub(crate) fn begin_frame(&mut self, swapchain: SwapchainKey) -> (r: Result<(), Error>)
        requires
            old(self).wf(),
        ensures
            final(self).wf(),
            match r {
                Ok(()) => old(self)@.frame is None && final(self)@ == (SceneView {
                    frame: Some(swapchain),
                    ..old(self)@
                }),
                Err(e) => e == Error::Busy && old(self)@.frame is Some && final(self)@ == old(self)@,
            },
    {
        if self.frame.is_some() {
            Err(Error::Busy)
        } else {
            self.frame = Some(swapchain);
            Ok(())
        }
    }

    /// Closes the frame on the scene, if one is open, and gives the swapchain
    /// that it was bound to.
    pub(crate) fn end_frame(&mut self) -> (swapchain: Option<SwapchainKey>)
        requires
            old(self).wf(),
        ensures
            final(self).wf(),
            swapchain == old(self)@.frame,
            final(self)@ == (SceneView { frame: None, ..old(self)@ }),
    {
        let swapchain = self.frame;
        self.frame = None;
        swapchain
    }

    /// Tells whether a frame is open on the scene: `NoFrame` when none is.
    pub fn check_frame(&self) -> (r: Result<(), Error>)
        ensures
            r == (match self@.refusal(None) {
                Some(e) => Err::<(), Error>(e),
                None => Ok(()),
            }),
    {
        if self.frame.is_some() {
            Ok(())
        } else {
            Err(Error::NoFrame)
        }
    }

    /// The camera as it is to be handed to the engine.
    pub fn plan_set_camera(&self, camera: &CameraDesc) -> (r: Result<RenCameraDesc, Error>)
        ensures
            r == (match self@.refusal(None) {
                Some(e) => Err::<RenCameraDesc, Error>(e),
                None => Ok(camera.flat()),
            }),
    {
        self.check_frame()?;
        Ok(RenCameraDesc::from(*camera))
    }

    /// Takes the engine's answer to setting the camera.
    pub fn set_camera(&self, camera: &CameraDesc, result: RenResult) -> (r: Result<(), Error>)
        ensures
            r == (match self@.failure(None, result) {
                Some(e) => Err::<(), Error>(e),
                None => Ok(()),
            }),
    {
        let _ = self.plan_set_camera(camera)?;
        Error::new(result)
    }

    /// The tone mapping operator as it is to be handed to the engine.
    pub fn plan_set_tone_mapping(&self, operator: ToneMappingOperator) -> (r: Result<
        ToneMappingOperator,
        Error,
    >)
        ensures
            r == (match self@.refusal(None) {
                Some(e) => Err::<ToneMappingOperator, Error>(e),
                None => Ok(operator),
            }),
    {
        self.check_frame()?;
        Ok(operator)
    }

    /// Takes the engine's answer to setting the tone mapping.
    pub fn set_tone_mapping(&self, operator: ToneMappingOperator, result: RenResult) -> (r: Result<
        (),
        Error,
    >)
        ensures
            r == (match self@.failure(None, result) {
                Some(e) => Err::<(), Error>(e),
                None => Ok(()),
            }),
    {
        let _ = self.plan_set_tone_mapping(operator)?;
        Error::new(result)
    }

    /// The mesh as it is to be handed to the engine: with as many vertices as
    /// the shortest of its channels holds.
    pub fn plan_create_mesh<'a>(&self, desc: &MeshDesc<'a>) -> (r: Result<RenMeshDesc<'a>, Error>)
        ensures
            r == (match self@.refusal(None) {
                Some(e) => Err::<RenMeshDesc<'a>, Error>(e),
                None => Ok(desc.flat()),
            }),
    {
        self.check_frame()?;
        Ok(RenMeshDesc::from(*desc))
    }

    /// Takes the engine's answer to the creation of a mesh, `mesh` being the
    /// native id that it gave: the mesh is registered under a new key.
    /// On failure the scene is unchanged.
    pub fn create_mesh(&mut self, desc: &MeshDesc, result: RenResult, mesh: u64) -> (r: Result<
        MeshID,
        Error,
    >)
        requires
            old(self).wf(),
            old(self)@.meshes.len() < MAX_ENTRIES,
        ensures
            final(self).wf(),
            match r {
                Ok(key) => old(self)@.failure(None, result) is None && !old(self)@.meshes.contains_key(key.bits()) && final(self)@ == (SceneView {
                    meshes: old(self)@.meshes.insert(key.bits(), mesh),
                    ..old(self)@
                }),
                Err(e) => old(self)@.failure(None, result) == Some(e) && final(self)@ == old(self)@,
            },
    {
        let _ = self.plan_create_mesh(desc)?;
        Error::new(result)?;
        Ok(MeshID::from_ffi(self.meshes.insert(mesh)))
    }

    /// The image as it is to be handed to the engine. Where the buffer holds
    /// fewer bytes than the engine would read, the plan fails with
    /// `BufferTooSmall`, and the engine must not be called.
    pub fn plan_create_image<'a>(&self, desc: &ImageDesc<'a>) -> (r: Result<
        RenImageDesc<'a>,
        Error,
    >)
        ensures
            r == (match self@.refusal(image_finding(*desc)) {
                Some(e) => Err::<RenImageDesc<'a>, Error>(e),
                None => Ok(desc.flat()),
            }),
    {
        self.check_frame()?;
        desc.flatten()
    }

    /// Takes the engine's answer to the creation of an image, `image` being
    /// the native id that it gave: the image is registered under a new key.
    /// On failure the scene is unchanged.
    pub fn create_image(&mut self, desc: &ImageDesc, result: RenResult, image: u64) -> (r: Result<
        ImageID,
        Error,
    >)
        requires
            old(self).wf(),
            old(self)@.images.len() < MAX_ENTRIES,
        ensures
            final(self).wf(),
            match r {
                Ok(key) => old(self)@.failure(image_finding(*desc), result) is None && !old(self)@.images.contains_key(key.bits()) && final(self)@ == (SceneView {
                    images: old(self)@.images.insert(key.bits(), image),
                    ..old(self)@
                }),
                Err(e) => old(self)@.failure(image_finding(*desc), result) == Some(e) && final(self)@ == old(self)@,
            },
    {
        let _ = self.plan_create_image(desc)?;
        Error::new(result)?;
        Ok(ImageID::from_ffi(self.images.insert(image)))
    }

    /// The material as it is to be handed to the engine. Where a texture
    /// names an image that is not alive in the scene, the plan fails with
    /// `InvalidKey`.
    pub fn plan_create_material(&self, desc: &MaterialDesc) -> (r: Result<RenMaterialDesc, Error>)
        requires
            self.wf(),
        ensures
            r == (match self@.refusal(material_finding(*desc, self@.images)) {
                Some(e) => Err::<RenMaterialDesc, Error>(e),
                None => Ok(desc.flat(self@.images)),
            }),
    {
        self.check_frame()?;
        desc.flatten(&self.images)
    }

    /// The materials of a batch as they are to be handed to the engine: the
    /// first `spec_batch_count(descs.len(), room)` of `descs`, `room` being the
    /// number of ids that the caller has room for.
    pub fn plan_create_materials(&self, descs: &[MaterialDesc], room: usize) -> (r: Result<
        Vec<RenMaterialDesc>,
        Error,
    >)
        requires
            self.wf(),
        ensures
            ({
                let batch = descs@.take(spec_batch_count(descs@.len(), room as nat) as int);
                match r {
                    Ok(flats) => self@.refusal(materials_finding(batch, self@.images)) is None
                        && flats@ == flat_materials(batch, self@.images),
                    Err(e) => self@.refusal(materials_finding(batch, self@.images)) == Some(e),
                }
            }),
    {
        self.check_frame()?;
        let count = batch_count(descs.len(), room);
        let ghost batch = descs@.take(count as int);
        let mut flats: Vec<RenMaterialDesc> = Vec::new();
        let mut i: usize = 0;
        while i < count
            invariant
                self.wf(),
                self@.frame is Some,
                count == spec_batch_count(descs@.len(), room as nat),
                i <= count <= descs@.len(),
                batch == descs@.take(count as int),
                flats@.len() == i,
                forall|j: int|
                    0 <= j < i ==> (#[trigger] batch[j]).textures_are_live(self@.images)
                        && flats@[j] == batch[j].flat(self@.images),
            decreases count - i,
        {
            assert(batch[i as int] == descs@[i as int]);
            match descs[i].flatten(&self.images) {
                Ok(flat) => {
                    flats.push(flat);
                },
                Err(e) => {
                    assert(!batch[i as int].textures_are_live(self@.images));
                    return Err(e);
                },
            }
            i += 1;
        }
        assert(flats@ =~= flat_materials(batch, self@.images));
        Ok(flats)
    }

    /// Takes the engine's answer to the creation of a batch of materials,
    /// `ids` being the buffer that it wrote the native ids to. The batch is
    /// the first `spec_batch_count(descs.len(), ids.len())` of `descs`; each
    /// material of it is registered under a new key, and the keys are given in
    /// the order of the batch. On failure the scene is unchanged.
    pub fn create_materials(&mut self, descs: &[MaterialDesc], result: RenResult, ids: &[u64]) -> (r:
        Result<Vec<MaterialID>, Error>)
        requires
            old(self).wf(),
            old(self)@.materials.len() + spec_batch_count(descs@.len(), ids@.len()) <= MAX_ENTRIES,
        ensures
            final(self).wf(),
            ({
                let count = spec_batch_count(descs@.len(), ids@.len()) as int;
                let finding = materials_finding(descs@.take(count), old(self)@.images);
                match r {
                    Ok(keys) => old(self)@.failure(finding, result) is None && registered(
                        old(self)@.materials,
                        final(self)@.materials,
                        key_bits(keys@),
                        ids@.take(count),
                    ) && final(self)@ == (SceneView {
                        materials: final(self)@.materials,
                        ..old(self)@
                    }),
                    Err(e) => old(self)@.failure(finding, result) == Some(e) && final(self)@
                        == old(self)@,
                }
            }),
    {
        let _ = self.plan_create_materials(descs, ids.len())?;
        Error::new(result)?;
        let count = batch_count(descs.len(), ids.len());
        Ok(register_all(&mut self.materials, ids, count))
    }

    /// Takes the engine's answer to the creation of a material, `material`
    /// being the native id that it gave: a batch of one.
    pub fn create_material(&mut self, desc: &MaterialDesc, result: RenResult, material: u64) -> (r:
        Result<MaterialID, Error>)
        requires
            old(self).wf(),
            old(self)@.materials.len() < MAX_ENTRIES,
        ensures
            final(self).wf(),
            ({
                let finding = material_finding(*desc, old(self)@.images);
                match r {
                    Ok(key) => old(self)@.failure(finding, result) is None && !old(
                        self)@.materials.contains_key(key.bits()) && final(self)@ == (SceneView {
                        materials: old(self)@.materials.insert(key.bits(), material),
                        ..old(self)@
                    }),
                    Err(e) => old(self)@.failure(finding, result) == Some(e) && final(self)@
                        == old(self)@,
                }
            }),
    {
        let descs = [*desc];
        let ids = [material];
        proof {
            assert(descs@.take(1) =~= seq![*desc]);
            assert(ids@.take(1) =~= seq![material]);
            assert(seq![*desc][0] == *desc);
        }
        let keys = self.create_materials(descs.as_slice(), result, ids.as_slice())?;
        proof {
            lemma_registered_one(
                old(self)@.materials,
                self@.materials,
                key_bits(keys@),
                ids@.take(1),
            );
        }
        Ok(keys[0])
    }

    /// The mesh instance as it is to be handed to the engine. Where the mesh
    /// or the material is not alive in the scene, the plan fails with
    /// `InvalidKey`.
    pub fn plan_create_mesh_inst(&self, desc: &MeshInstDesc) -> (r: Result<RenMeshInstDesc, Error>)
        requires
            self.wf(),
        ensures
            r == (match self@.refusal(mesh_inst_finding(*desc, self@.meshes, self@.materials)) {
                Some(e) => Err::<RenMeshInstDesc, Error>(e),
                None => Ok(desc.flat(self@.meshes, self@.materials)),
            }),
    {
        self.check_frame()?;
        desc.flatten(&self.meshes, &self.materials)
    }

    /// The mesh instances of a batch as they are to be handed to the engine:
    /// the first `spec_batch_count(descs.len(), room)` of `descs`, `room` being
    /// the number of ids that the caller has room for.
    pub fn plan_create_mesh_insts(&self, descs: &[MeshInstDesc], room: usize) -> (r: Result<
        Vec<RenMeshInstDesc>,
        Error,
    >)
        requires
            self.wf(),
        ensures
            ({
                let batch = descs@.take(spec_batch_count(descs@.len(), room as nat) as int);
                let finding = mesh_insts_finding(batch, self@.meshes, self@.materials);
                match r {
                    Ok(flats) => self@.refusal(finding) is None && flats@ == flat_mesh_insts(
                        batch,
                        self@.meshes,
                        self@.materials,
                    ),
                    Err(e) => self@.refusal(finding) == Some(e),
                }
            }),
    {
        self.check_frame()?;
        let count = batch_count(descs.len(), room);
        let ghost batch = descs@.take(count as int);
        let mut flats: Vec<RenMeshInstDesc> = Vec::new();
        let mut i: usize = 0;
        while i < count
            invariant
                self.wf(),
                self@.frame is Some,
                count == spec_batch_count(descs@.len(), room as nat),
                i <= count <= descs@.len(),
                batch == descs@.take(count as int),
                flats@.len() == i,
                forall|j: int|
                    0 <= j < i ==> (#[trigger] batch[j]).refers_to_live(
                        self@.meshes,
                        self@.materials,
                    ) && flats@[j] == batch[j].flat(self@.meshes, self@.materials),
            decreases count - i,
        {
            assert(batch[i as int] == descs@[i as int]);
            match descs[i].flatten(&self.meshes, &self.materials) {
                Ok(flat) => {
                    flats.push(flat);
                },
                Err(e) => {
                    assert(!batch[i as int].refers_to_live(self@.meshes, self@.materials));
                    return Err(e);
                },
            }
            i += 1;
        }
        assert(flats@ =~= flat_mesh_insts(batch, self@.meshes, self@.materials));
        Ok(flats)
    }

    /// Takes the engine's answer to the creation of a batch of mesh instances,
    /// `ids` being the buffer that it wrote the native ids to. The batch is
    /// the first `spec_batch_count(descs.len(), ids.len())` of `descs`; each
    /// instance of it is registered under a new key, and the keys are given in
    /// the order of the batch. On failure the scene is unchanged.
    pub fn create_mesh_insts(&mut self, descs: &[MeshInstDesc], result: RenResult, ids: &[u64]) -> (r:
        Result<Vec<MeshInstID>, Error>)
        requires
            old(self).wf(),
            old(self)@.mesh_insts.len() + spec_batch_count(descs@.len(), ids@.len())
                <= MAX_ENTRIES,
        ensures
            final(self).wf(),
            ({
                let count = spec_batch_count(descs@.len(), ids@.len()) as int;
                let finding = mesh_insts_finding(
                    descs@.take(count),
                    old(self)@.meshes,
                    old(self)@.materials,
                );
                match r {
                    Ok(keys) => old(self)@.failure(finding, result) is None && registered(
                        old(self)@.mesh_insts,
                        final(self)@.mesh_insts,
                        key_bits(keys@),
                        ids@.take(count),
                    ) && final(self)@ == (SceneView {
                        mesh_insts: final(self)@.mesh_insts,
                        ..old(self)@
                    }) && (old(self)@.mesh_inst_history.is_young() ==> forall|i: int|
                        0 <= i < keys@.len() ==> !old(self)@.mesh_inst_history.retired.contains(
                            #[trigger] key_bits(keys@)[i],
                        )),
                    Err(e) => old(self)@.failure(finding, result) == Some(e) && final(self)@
                        == old(self)@,
                }
            }),
    {
        let _ = self.plan_create_mesh_insts(descs, ids.len())?;
        Error::new(result)?;
        let count = batch_count(descs.len(), ids.len());
        Ok(register_all(&mut self.mesh_insts, ids, count))
    }

    /// Takes the engine's answer to the creation of a mesh instance,
    /// `mesh_inst` being the native id that it gave: a batch of one.
    pub fn create_mesh_inst(&mut self, desc: &MeshInstDesc, result: RenResult, mesh_inst: u64) -> (r:
        Result<MeshInstID, Error>)
        requires
            old(self).wf(),
            old(self)@.mesh_insts.len() < MAX_ENTRIES,
        ensures
            final(self).wf(),
            ({
                let finding = mesh_inst_finding(*desc, old(self)@.meshes, old(self)@.materials);
                match r {
                    Ok(key) => old(self)@.failure(finding, result) is None && !old(
                        self)@.mesh_insts.contains_key(key.bits()) && final(self)@ == (SceneView {
                        mesh_insts: old(self)@.mesh_insts.insert(key.bits(), mesh_inst),
                        ..old(self)@
                    }) && (old(self)@.mesh_inst_history.is_young() ==> !old(
                        self)@.mesh_inst_history.retired.contains(key.bits())),
                    Err(e) => old(self)@.failure(finding, result) == Some(e) && final(self)@
                        == old(self)@,
                }
            }),
    {
        let descs = [*desc];
        let ids = [mesh_inst];
        proof {
            assert(descs@.take(1) =~= seq![*desc]);
            assert(ids@.take(1) =~= seq![mesh_inst]);
            assert(seq![*desc][0] == *desc);
        }
        let keys = self.create_mesh_insts(descs.as_slice(), result, ids.as_slice())?;
        proof {
            lemma_registered_one(
                old(self)@.mesh_insts,
                self@.mesh_insts,
                key_bits(keys@),
                ids@.take(1),
            );
        }
        Ok(keys[0])
    }

    /// Takes a mesh instance out of the scene. Where the key is alive, the
    /// destruction of its native id in this scene is given, and the key names
    /// nothing afterwards; where it is not, nothing is given and nothing
    /// changes.
    pub fn destroy_mesh_inst(&mut self, mesh_inst: MeshInstID) -> (due: Option<ScopedDestroy>)
        requires
            old(self).wf(),
        ensures
            final(self).wf(),
            match due {
                Some(d) => old(self)@.mesh_insts.contains_key(mesh_inst.bits()) && d.kind
                    == ScopedKind::MeshInst && d.scene == old(self)@.handle && d.ids@
                    == seq![old(self)@.mesh_insts[mesh_inst.bits()]],
                None => !old(self)@.mesh_insts.contains_key(mesh_inst.bits()),
            },
            final(self)@ == (SceneView {
                mesh_insts: old(self)@.mesh_insts.remove(mesh_inst.bits()),
                mesh_inst_history: if old(self)@.mesh_insts.contains_key(mesh_inst.bits()) {
                    old(self)@.mesh_inst_history.with(mesh_inst.bits())
                } else {
                    old(self)@.mesh_inst_history
                },
                ..old(self)@
            }),
    {
        match self.mesh_insts.remove(mesh_inst.as_ffi()) {
            Some(id) => Some(
                ScopedDestroy {
                    kind: ScopedKind::MeshInst,
                    scene: self.handle.get(),
                    ids: vec![id],
                },
            ),
            None => None,
        }
    }

    /// Takes mesh instances out of the scene, one after the other, and gives
    /// the destruction that is due in this scene: of one native id for each
    /// key that was alive when its turn came.
    pub fn destroy_mesh_insts(&mut self, mesh_insts: &[MeshInstID]) -> (due: ScopedDestroy)
        requires
            old(self).wf(),
        ensures
            final(self).wf(),
            due.kind == ScopedKind::MeshInst,
            due.scene == old(self)@.handle,
            (final(self)@.mesh_insts, due.ids@) == removed(
                old(self)@.mesh_insts,
                key_bits(mesh_insts@),
            ),
            final(self)@ == (SceneView {
                mesh_insts: final(self)@.mesh_insts,
                mesh_inst_history: history_after(
                    old(self)@.mesh_inst_history,
                    old(self)@.mesh_insts,
                    key_bits(mesh_insts@),
                ),
                ..old(self)@
            }),
    {
        let ids = remove_all(&mut self.mesh_insts, mesh_insts);
        ScopedDestroy { kind: ScopedKind::MeshInst, scene: self.handle.get(), ids }
    }

    /// The transform of a mesh instance as it is to be handed to the engine:
    /// the native id of the instance beside the matrix.
    pub fn set_mesh_inst_matrix(&self, mesh_inst: MeshInstID, matrix: &Matrix) -> (r: Result<
        (u64, Matrix),
        Error,
    >)
        requires
            self.wf(),
        ensures
            r == (match self@.refusal(keys_finding(seq![mesh_inst.bits()], self@.mesh_insts)) {
                Some(e) => Err::<(u64, Matrix), Error>(e),
                None => Ok((self@.mesh_insts[mesh_inst.bits()], *matrix)),
            }),
    {
        self.check_frame()?;
        assert(seq![mesh_inst.bits()][0] == mesh_inst.bits());
        match lookup(&self.mesh_insts, mesh_inst) {
            Some(id) => Ok((id, *matrix)),
            None => Err(Error::InvalidKey),
        }
    }

    /// The transforms of a batch of mesh instances as they are to be handed to
    /// the engine. The batch is the first
    /// `spec_batch_count(mesh_insts.len(), matrices.len())` instances, each
    /// with the matrix at its place; what stands behind the batch in either
    /// slice is left alone. Where an instance of the batch is not alive, the
    /// plan fails with `InvalidKey`.
    pub fn set_mesh_inst_matrices(&self, mesh_insts: &[MeshInstID], matrices: &[Matrix]) -> (r:
        Result<Vec<(u64, Matrix)>, Error>)
        requires
            self.wf(),
        ensures
            ({
                let count = spec_batch_count(mesh_insts@.len(), matrices@.len()) as int;
                let keys = key_bits(mesh_insts@.take(count));
                match r {
                    Ok(batch) => self@.refusal(keys_finding(keys, self@.mesh_insts)) is None
                        && batch@ == pairs(ids_of(self@.mesh_insts, keys), matrices@.take(count)),
                    Err(e) => self@.refusal(keys_finding(keys, self@.mesh_insts)) == Some(e),
                }
            }),
    {
        self.check_frame()?;
        let count = batch_count(mesh_insts.len(), matrices.len());
        let ids = resolve_all(&self.mesh_insts, mesh_insts, count)?;
        Ok(pair_up(ids, matrices, count))
    }

    /// The directional light as it is to be handed to the engine.
    pub fn plan_create_dir_light(&self, desc: &DirLightDesc) -> (r: Result<DirLightDesc, Error>)
        ensures
            r == (match self@.refusal(None) {
                Some(e) => Err::<DirLightDesc, Error>(e),
                None => Ok(*desc),
            }),
    {
        self.check_frame()?;
        Ok(*desc)
    }

    /// The directional lights of a batch as they are to be handed to the
    /// engine: the first `spec_batch_count(descs.len(), room)` of `descs`,
    /// `room` being the number of ids that the caller has room for.
    pub fn plan_create_dir_lights(&self, descs: &[DirLightDesc], room: usize) -> (r: Result<
        Vec<DirLightDesc>,
        Error,
    >)
        ensures
            match r {
                Ok(batch) => self@.refusal(None) is None && batch@ == descs@.take(
                    spec_batch_count(descs@.len(), room as nat) as int,
                ),
                Err(e) => self@.refusal(None) == Some(e),
            },
    {
        self.check_frame()?;
        let count = batch_count(descs.len(), room);
        Ok(first_of(descs, count))
    }

    /// Takes the engine's answer to the creation of a batch of directional
    /// lights, `ids` being the buffer that it wrote the native ids to. The
    /// batch is the first `spec_batch_count(descs.len(), ids.len())` of
    /// `descs`; each light of it is registered under a new key, and the keys
    /// are given in the order of the batch. On failure the scene is unchanged.
    pub fn create_dir_lights(&mut self, descs: &[DirLightDesc], result: RenResult, ids: &[u64]) -> (r:
        Result<Vec<DirLightID>, Error>)
        requires
            old(self).wf(),
            old(self)@.dir_lights.len() + spec_batch_count(descs@.len(), ids@.len())
                <= MAX_ENTRIES,
        ensures
            final(self).wf(),
            ({
                let count = spec_batch_count(descs@.len(), ids@.len()) as int;
                match r {
                    Ok(keys) => old(self)@.failure(None, result) is None && registered(
                        old(self)@.dir_lights,
                        final(self)@.dir_lights,
                        key_bits(keys@),
                        ids@.take(count),
                    ) && final(self)@ == (SceneView {
                        dir_lights: final(self)@.dir_lights,
                        ..old(self)@
                    }) && (old(self)@.dir_light_history.is_young() ==> forall|i: int|
                        0 <= i < keys@.len() ==> !old(self)@.dir_light_history.retired.contains(
                            #[trigger] key_bits(keys@)[i],
                        )),
                    Err(e) => old(self)@.failure(None, result) == Some(e) && final(self)@ == old(
                        self)@,
                }
            }),
    {
        self.check_frame()?;
        Error::new(result)?;
        let count = batch_count(descs.len(), ids.len());
        Ok(register_all(&mut self.dir_lights, ids, count))
    }

    /// Takes the engine's answer to the creation of a directional light,
    /// `light` being the native id that it gave: a batch of one.
    pub fn create_dir_light(&mut self, desc: &DirLightDesc, result: RenResult, light: u64) -> (r:
        Result<DirLightID, Error>)
        requires
            old(self).wf(),
            old(self)@.dir_lights.len() < MAX_ENTRIES,
        ensures
            final(self).wf(),
            match r {
                Ok(key) => old(self)@.failure(None, result) is None && !old(
                    self)@.dir_lights.contains_key(key.bits()) && final(self)@ == (SceneView {
                    dir_lights: old(self)@.dir_lights.insert(key.bits(), light),
                    ..old(self)@
                }) && (old(self)@.dir_light_history.is_young() ==> !old(
                    self)@.dir_light_history.retired.contains(key.bits())),
                Err(e) => old(self)@.failure(None, result) == Some(e) && final(self)@ == old(
                    self)@,
            },
    {
        let descs = [*desc];
        let ids = [light];
        proof {
            assert(ids@.take(1) =~= seq![light]);
        }
        let keys = self.create_dir_lights(descs.as_slice(), result, ids.as_slice())?;
        proof {
            lemma_registered_one(
                old(self)@.dir_lights,
                self@.dir_lights,
                key_bits(keys@),
                ids@.take(1),
            );
        }
        Ok(keys[0])
    }

    /// Takes a directional light out of the scene. Where the key is alive, the
    /// destruction of its native id in this scene is given, and the key names
    /// nothing afterwards; where it is not, nothing is given and nothing
    /// changes.
    pub fn destroy_dir_light(&mut self, light: DirLightID) -> (due: Option<ScopedDestroy>)
        requires
            old(self).wf(),
        ensures
            final(self).wf(),
            match due {
                Some(d) => old(self)@.dir_lights.contains_key(light.bits()) && d.kind
                    == ScopedKind::DirLight && d.scene == old(self)@.handle && d.ids@
                    == seq![old(self)@.dir_lights[light.bits()]],
                None => !old(self)@.dir_lights.contains_key(light.bits()),
            },
            final(self)@ == (SceneView {
                dir_lights: old(self)@.dir_lights.remove(light.bits()),
                dir_light_history: if old(self)@.dir_lights.contains_key(light.bits()) {
                    old(self)@.dir_light_history.with(light.bits())
                } else {
                    old(self)@.dir_light_history
                },
                ..old(self)@
            }),
    {
        match self.dir_lights.remove(light.as_ffi()) {
            Some(id) => Some(
                ScopedDestroy {
                    kind: ScopedKind::DirLight,
                    scene: self.handle.get(),
                    ids: vec![id],
                },
            ),
            None => None,
        }
    }

    /// Takes directional lights out of the scene, one after the other, and
    /// gives the destruction that is due in this scene: of one native id for
    /// each key that was alive when its turn came.
    pub fn destroy_dir_lights(&mut self, lights: &[DirLightID]) -> (due: ScopedDestroy)
        requires
            old(self).wf(),
        ensures
            final(self).wf(),
            due.kind == ScopedKind::DirLight,
            due.scene == old(self)@.handle,
            (final(self)@.dir_lights, due.ids@) == removed(
                old(self)@.dir_lights,
                key_bits(lights@),
            ),
            final(self)@ == (SceneView {
                dir_lights: final(self)@.dir_lights,
                dir_light_history: history_after(
                    old(self)@.dir_light_history,
                    old(self)@.dir_lights,
                    key_bits(lights@),
                ),
                ..old(self)@
            }),
    {
        let ids = remove_all(&mut self.dir_lights, lights);
        ScopedDestroy { kind: ScopedKind::DirLight, scene: self.handle.get(), ids }
    }

    /// The new description of a directional light as it is to be handed to
    /// the engine: the native id of the light beside the description.
    pub fn plan_config_dir_light(&self, light: DirLightID, desc: &DirLightDesc) -> (r: Result<
        (u64, DirLightDesc),
        Error,
    >)
        requires
            self.wf(),
        ensures
            r == (match self@.refusal(keys_finding(seq![light.bits()], self@.dir_lights)) {
                Some(e) => Err::<(u64, DirLightDesc), Error>(e),
                None => Ok((self@.dir_lights[light.bits()], *desc)),
            }),
    {
        self.check_frame()?;
        assert(seq![light.bits()][0] == light.bits());
        match lookup(&self.dir_lights, light) {
            Some(id) => Ok((id, *desc)),
            None => Err(Error::InvalidKey),
        }
    }

    /// Takes the engine's answer to the new description of a directional
    /// light.
    pub fn config_dir_light(&self, light: DirLightID, desc: &DirLightDesc, result: RenResult) -> (r:
        Result<(), Error>)
        requires
            self.wf(),
        ensures
            r == (match self@.failure(
                keys_finding(seq![light.bits()], self@.dir_lights),
                result,
            ) {
                Some(e) => Err::<(), Error>(e),
                None => Ok(()),
            }),
    {
        let _ = self.plan_config_dir_light(light, desc)?;
        Error::new(result)
    }

    /// The new descriptions of a batch of directional lights as they are to be
    /// handed to the engine. The batch is the first
    /// `spec_batch_count(lights.len(), descs.len())` lights, each with the
    /// description at its place. Where a light of the batch is not alive, the
    /// plan fails with `InvalidKey`.
    pub fn plan_config_dir_lights(&self, lights: &[DirLightID], descs: &[DirLightDesc]) -> (r:
        Result<Vec<(u64, DirLightDesc)>, Error>)
        requires
            self.wf(),
        ensures
            ({
                let count = spec_batch_count(lights@.len(), descs@.len()) as int;
                let keys = key_bits(lights@.take(count));
                match r {
                    Ok(batch) => self@.refusal(keys_finding(keys, self@.dir_lights)) is None
                        && batch@ == pairs(ids_of(self@.dir_lights, keys), descs@.take(count)),
                    Err(e) => self@.refusal(keys_finding(keys, self@.dir_lights)) == Some(e),
                }
            }),
    {
        self.check_frame()?;
        let count = batch_count(lights.len(), descs.len());
        let ids = resolve_all(&self.dir_lights, lights, count)?;
        Ok(pair_up(ids, descs, count))
    }

    /// Takes the engine's answer to the new descriptions of a batch of
    /// directional lights.
    pub fn config_dir_lights(
        &self,
        lights: &[DirLightID],
        descs: &[DirLightDesc],
        result: RenResult,
    ) -> (r: Result<(), Error>)
        requires
            self.wf(),
        ensures
            ({
                let count = spec_batch_count(lights@.len(), descs@.len()) as int;
                let keys = key_bits(lights@.take(count));
                r == (match self@.failure(keys_finding(keys, self@.dir_lights), result) {
                    Some(e) => Err::<(), Error>(e),
                    None => Ok(()),
                })
            }),
    {
        let _ = self.plan_config_dir_lights(lights, descs)?;
        Error::new(result)
    }
}

/// What the binding finds in the description of an image: a buffer that is too
/// small, or nothing.
pub open spec fn image_finding(desc: ImageDesc) -> Option<Error> {
    if desc.is_complete() {
        None
    } else {
        Some(Error::BufferTooSmall)
    }
}

/// What the binding finds in the description of a material: a texture whose
/// image is not alive, or nothing.
pub open spec fn material_finding(desc: MaterialDesc, images: Map<u64, u64>) -> Option<Error> {
    if desc.textures_are_live(images) {
        None
    } else {
        Some(Error::InvalidKey)
    }
}

/// What the binding finds in the descriptions of a batch of materials: a
/// texture whose image is not alive, or nothing.
pub open spec fn materials_finding(descs: Seq<MaterialDesc>, images: Map<u64, u64>) -> Option<
    Error,
> {
    if forall|i: int| 0 <= i < descs.len() ==> (#[trigger] descs[i]).textures_are_live(images) {
        None
    } else {
        Some(Error::InvalidKey)
    }
}

/// The materials of a batch as the engine reads them.
pub open spec fn flat_materials(descs: Seq<MaterialDesc>, images: Map<u64, u64>) -> Seq<
    RenMaterialDesc,
> {
    Seq::new(descs.len(), |i: int| descs[i].flat(images))
}

/// What the binding finds in the description of a mesh instance: a mesh or a
/// material that is not alive, or nothing.
pub open spec fn mesh_inst_finding(
    desc: MeshInstDesc,
    meshes: Map<u64, u64>,
    materials: Map<u64, u64>,
) -> Option<Error> {
    if desc.refers_to_live(meshes, materials) {
        None
    } else {
        Some(Error::InvalidKey)
    }
}

/// What the binding finds in the descriptions of a batch of mesh instances: a
/// mesh or a material that is not alive, or nothing.
pub open spec fn mesh_insts_finding(
    descs: Seq<MeshInstDesc>,
    meshes: Map<u64, u64>,
    materials: Map<u64, u64>,
) -> Option<Error> {
    if forall|i: int|
        0 <= i < descs.len() ==> (#[trigger] descs[i]).refers_to_live(meshes, materials) {
        None
    } else {
        Some(Error::InvalidKey)
    }
}

/// The mesh instances of a batch as the engine reads them.
pub open spec fn flat_mesh_insts(
    descs: Seq<MeshInstDesc>,
    meshes: Map<u64, u64>,
    materials: Map<u64, u64>,
) -> Seq<RenMeshInstDesc> {
    Seq::new(descs.len(), |i: int| descs[i].flat(meshes, materials))
}

/// What the binding finds in the keys of a batch: a key that is not alive, or
/// nothing.
pub open spec fn keys_finding(keys: Seq<u64>, m: Map<u64, u64>) -> Option<Error> {
    if all_live(m, keys) {
        None
    } else {
        Some(Error::InvalidKey)
    }
}

/// Each id beside the item at its place.
pub open spec fn pairs<T>(ids: Seq<u64>, items: Seq<T>) -> Seq<(u64, T)> {
    Seq::new(ids.len(), |i: int| (ids[i], items[i]))
}

/// Each id beside the item at its place.
fn pair_up<T: Copy>(ids: Vec<u64>, items: &[T], count: usize) -> (batch: Vec<(u64, T)>)
    requires
        ids@.len() == count,
        count <= items@.len(),
    ensures
        batch@ == pairs(ids@, items@.take(count as int)),
{
    let mut batch: Vec<(u64, T)> = Vec::new();
    let mut i: usize = 0;
    while i < count
        invariant
            ids@.len() == count,
            i <= count <= items@.len(),
            batch@.len() == i,
            forall|j: int| 0 <= j < i ==> #[trigger] batch@[j] == (ids@[j], items@[j]),
        decreases count - i,
    {
        batch.push((ids[i], items[i]));
        i += 1;
    }
    assert(batch@ =~= pairs(ids@, items@.take(count as int)));
    batch
}

/// The first `count` items.
fn first_of<T: Copy>(items: &[T], count: usize) -> (batch: Vec<T>)
    requires
        count <= items@.len(),
    ensures
        batch@ == items@.take(count as int),
{
    let mut batch: Vec<T> = Vec::new();
    let mut i: usize = 0;
    while i < count
        invariant
            i <= count <= items@.len(),
            batch@.len() == i,
            forall|j: int| 0 <= j < i ==> #[trigger] batch@[j] == items@[j],
        decreases count - i,
    {
        batch.push(items[i]);
        i += 1;
    }
    assert(batch@ =~= items@.take(count as int));
    batch
}

/// A batch of one that was registered is one insertion under a new key.
proof fn lemma_registered_one(
    before: Map<u64, u64>,
    after: Map<u64, u64>,
    keys: Seq<u64>,
    ids: Seq<u64>,
)
    requires
        registered(before, after, keys, ids),
        ids.len() == 1,
    ensures
        !before.contains_key(keys[0]),
        after == before.insert(keys[0], ids[0]),
{
    assert forall|k: u64| after.contains_key(k) implies before.insert(
        keys[0],
        ids[0],
    ).contains_key(k) by {
        if !before.contains_key(k) {
            let j = choose|j: int| 0 <= j < keys.len() && keys[j] == k;
        }
    }
    assert(after =~= before.insert(keys[0], ids[0]));
}

} // verus!
