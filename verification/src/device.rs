//! The device: the owner of the swapchains and the scenes, and the keeper of
//! the frame protocol.
//!
//! A frame is open on the device between `begin_frame` and `end_frame`. While
//! it is open, a frame can be opened on a scene, bound to a swapchain; the
//! scene accepts changes until that frame ends. At most one frame is open on
//! the device, at most one on each scene, and a swapchain is bound to at most
//! one of them.
use crate::error::{Error, RenResult};
use crate::handle::{Destroy, Handle, HandleKind, RenDevice};
use crate::batch::key_bits;
use crate::keys::{KeyBits, SceneKey, SwapchainKey};
use crate::registry::{History, Registry, MAX_ENTRIES};
use crate::scene::{Scene, SceneView};
use crate::swapchain::{Swapchain, SwapchainView, VkPresentModeKHR};
use vstd::prelude::*;

verus! {

/// What a device holds: its native handle, what each live key of a swapchain
/// or of a scene stands for, what is remembered of the keys that were
/// destroyed, and whether a frame is open.
pub struct DeviceView {
    pub handle: u64,
    pub swapchains: Map<u64, SwapchainView>,
    pub swapchain_history: History,
    pub scenes: Map<u64, SceneView>,
    pub scene_history: History,
    pub frame_open: bool,
}

impl DeviceView {
    /// A device without swapchains and scenes, and without a frame.
    pub open spec fn empty(handle: u64) -> DeviceView {
        DeviceView {
            handle,
            swapchains: Map::empty(),
            swapchain_history: History::empty(),
            scenes: Map::empty(),
            scene_history: History::empty(),
            frame_open: false,
        }
    }

    /// Why a frame cannot be opened on the device, if it cannot: one is open
    /// already.
    pub open spec fn frame_refusal(self) -> Option<Error> {
        if self.frame_open {
            Some(Error::Busy)
        } else {
            None
        }
    }

    /// The device with a frame open on it.
    pub open spec fn with_frame(self) -> DeviceView {
        DeviceView { frame_open: true, ..self }
    }

    /// Whether a frame that is open on some scene is bound to `swapchain`.
    pub open spec fn swapchain_is_bound(self, swapchain: SwapchainKey) -> bool {
        exists|k: u64|
            self.scenes.contains_key(k) && (#[trigger] self.scenes[k]).frame == Some(swapchain)
    }

    /// Whether every swapchain was created on this device.
    pub open spec fn owns_its_swapchains(self) -> bool {
        forall|k: u64|
            self.swapchains.contains_key(k) ==> (#[trigger] self.swapchains[k]).device
                == self.handle
    }

    /// Whether no frame is open on any scene.
    pub open spec fn no_scene_frame(self) -> bool {
        forall|k: u64| self.scenes.contains_key(k) ==> (#[trigger] self.scenes[k]).frame is None
    }

    /// Whether `scene` and `swapchain` are both alive.
    pub open spec fn both_live(self, scene: SceneKey, swapchain: SwapchainKey) -> bool {
        self.scenes.contains_key(scene.bits()) && self.swapchains.contains_key(swapchain.bits())
    }

    /// Why a frame cannot be opened on `scene` and bound to `swapchain`, if it
    /// cannot: no frame is open on the device; a key is not alive; a frame is
    /// open on the scene already, or one is bound to the swapchain.
    pub open spec fn scene_frame_refusal(self, scene: SceneKey, swapchain: SwapchainKey) -> Option<
        Error,
    > {
        if !self.frame_open {
            Some(Error::NoFrame)
        } else if !self.both_live(scene, swapchain) {
            Some(Error::InvalidKey)
        } else if self.scenes[scene.bits()].frame is Some || self.swapchain_is_bound(swapchain) {
            Some(Error::Busy)
        } else {
            None
        }
    }

    /// Why `scene` cannot be drawn to `swapchain`, if it cannot: a key is not
    /// alive.
    pub open spec fn draw_refusal(self, scene: SceneKey, swapchain: SwapchainKey) -> Option<Error> {
        if !self.both_live(scene, swapchain) {
            Some(Error::InvalidKey)
        } else {
            None
        }
    }

    /// The device with the frame of every scene closed.
    pub open spec fn without_scene_frames(self) -> DeviceView {
        DeviceView {
            scenes: self.scenes.map_values(|s: SceneView| SceneView { frame: None, ..s }),
            ..self
        }
    }

    /// What is to be submitted to the engine when the frame on `scene` ends:
    /// the native handles of the scene and of the swapchain that the frame is
    /// bound to. Nothing where the scene is not alive, where no frame is open
    /// on it, or where the swapchain is not alive any more.
    pub open spec fn scene_frame_submit(self, scene: SceneKey) -> Option<(u64, u64)> {
        if self.scenes.contains_key(scene.bits()) {
            match self.scenes[scene.bits()].frame {
                Some(swapchain) => if self.swapchains.contains_key(swapchain.bits()) {
                    Some((self.scenes[scene.bits()].handle, self.swapchains[swapchain.bits()].handle))
                } else {
                    None
                },
                None => None,
            }
        } else {
            None
        }
    }

    /// The device with the frame on `scene` closed.
    pub open spec fn without_scene_frame(self, scene: SceneKey) -> DeviceView {
        if self.scenes.contains_key(scene.bits()) {
            DeviceView {
                scenes: self.scenes.insert(
                    scene.bits(),
                    SceneView { frame: None, ..self.scenes[scene.bits()] },
                ),
                ..self
            }
        } else {
            self
        }
    }

    /// The device with a frame open on `scene`, bound to `swapchain`.
    pub open spec fn with_scene_frame(self, scene: SceneKey, swapchain: SwapchainKey) -> DeviceView {
        DeviceView {
            scenes: self.scenes.insert(
                scene.bits(),
                SceneView { frame: Some(swapchain), ..self.scenes[scene.bits()] },
            ),
            ..self
        }
    }

    /// The device after its frame has ended: no frame is open on it, nor on
    /// any scene.
    pub open spec fn after_frame(self) -> DeviceView {
        DeviceView { frame_open: false, ..self.without_scene_frames() }
    }
}

/// What each swapchain of a registry holds.
pub open spec fn swapchain_views(m: Map<u64, Swapchain>) -> Map<u64, SwapchainView> {
    m.map_values(|s: Swapchain| s@)
}

/// What each scene of a registry holds.
pub open spec fn scene_views(m: Map<u64, Scene>) -> Map<u64, SceneView> {
    m.map_values(|s: Scene| s@)
}

/// A device.
pub struct Device {
    swapchains: Registry<Swapchain>,
    scenes: Registry<Scene>,
    handle: Handle<RenDevice>,
    frame_open: bool,
}

impl View for Device {
    type V = DeviceView;

    closed spec fn view(&self) -> DeviceView {
        DeviceView {
            handle: self.handle@,
            swapchains: swapchain_views(self.swapchains@),
            swapchain_history: self.swapchains.history(),
            scenes: scene_views(self.scenes@),
            scene_history: self.scenes.history(),
            frame_open: self.frame_open,
        }
    }
}

impl Device {
    /// The registries are in order, and so is every scene; every swapchain
    /// was created on this device; a frame is open on a scene only while one
    /// is open on the device.
    pub closed spec fn wf(&self) -> bool {
        &&& self.swapchains.wf()
        &&& self.scenes.wf()
        &&& forall|k: u64| self.scenes@.contains_key(k) ==> (#[trigger] self.scenes@[k]).wf()
        &&& forall|k: u64|
            self.swapchains@.contains_key(k) ==> (#[trigger] self.swapchains@[k])@.device
                == self.handle@
        &&& !self.frame_open ==> self@.no_scene_frame()
    }

    /// A device holds finitely many swapchains and scenes; every swapchain
    /// was created on it, so that no frame is ever bound to the swapchain of
    /// another device; a frame is open on a scene only while one is open on
    /// the device; and a key that was destroyed names nothing while the
    /// registry that it came from is young.
    pub proof fn lemma_wf(&self)
        requires
            self.wf(),
        ensures
            self@.swapchains.dom().finite(),
            self@.scenes.dom().finite(),
            self@.owns_its_swapchains(),
            !self@.frame_open ==> self@.no_scene_frame(),
            self@.swapchain_history.is_young() ==> forall|k: u64| #[trigger]
                self@.swapchain_history.retired.contains(k) ==> !self@.swapchains.contains_key(k),
            self@.scene_history.is_young() ==> forall|k: u64| #[trigger]
                self@.scene_history.retired.contains(k) ==> !self@.scenes.contains_key(k),
    {
        self.swapchains.lemma_wf();
        self.scenes.lemma_wf();
        assert(self@.swapchains.dom() =~= self.swapchains@.dom());
        assert(self@.scenes.dom() =~= self.scenes@.dom());
        assert forall|k: u64| self@.swapchains.contains_key(k) implies (
        #[trigger] self@.swapchains[k]).device == self@.handle by {
            assert(self.swapchains@[k]@.device == self.handle@);
        }
    }

    /// Takes the engine's answer to the creation of a device: the device
    /// around `handle`, without swapchains, scenes and frame, or the error
    /// that the engine reported.
    pub fn new(result: RenResult, handle: u64) -> (r: Result<Self, Error>)
        ensures
            match r {
                Ok(device) => Error::of_code(result) is None && device.wf() && device@
                    == DeviceView::empty(handle),
                Err(e) => Error::of_code(result) == Some(e),
            },
    {
        match Error::new(result) {
            Ok(()) => {
                let device = Device {
                    swapchains: Registry::new(),
                    scenes: Registry::new(),
                    handle: Handle::new(handle),
                    frame_open: false,
                };
                assert(device@.swapchains =~= Map::empty());
                assert(device@.scenes =~= Map::empty());
                Ok(device)
            },
            Err(e) => Err(e),
        }
    }

    /// The native handle of the device.
    pub fn get_handle(&self) -> (handle: u64)
        ensures
            handle == self@.handle,
    {
        self.handle.get()
    }

    /// Tells whether a frame is open on the device.
    pub fn is_frame_open(&self) -> (open: bool)
        ensures
            open == self@.frame_open,
    {
        self.frame_open
    }

    /// Takes the engine's answer to the creation of a swapchain, `handle`
    /// being the native handle that it gave, with the size and the present
    /// mode that it made the swapchain with: the swapchain is registered under
    /// a new key. On failure the device is unchanged.
    pub fn create_swapchain(
        &mut self,
        result: RenResult,
        handle: u64,
        width: u32,
        height: u32,
        present_mode: VkPresentModeKHR,
    ) -> (r: Result<SwapchainKey, Error>)
        requires
            old(self).wf(),
            old(self)@.swapchains.len() < MAX_ENTRIES,
        ensures
            final(self).wf(),
            match r {
                Ok(key) => Error::of_code(result) is None && !old(self)@.swapchains.contains_key(
                    key.bits(),
                ) && final(self)@ == (DeviceView {
                    swapchains: old(self)@.swapchains.insert(
                        key.bits(),
                        SwapchainView {
                            handle,
                            device: old(self)@.handle,
                            size: (width, height),
                            present_mode,
                        },
                    ),
                    ..old(self)@
                }) && (old(self)@.swapchain_history.is_young() ==> !old(
                    self)@.swapchain_history.retired.contains(key.bits())),
                Err(e) => Error::of_code(result) == Some(e) && final(self)@ == old(self)@,
            },
    {
        let swapchain = Swapchain::new(
            result,
            self.handle.get(),
            handle,
            width,
            height,
            present_mode,
        )?;
        proof {
            assert(old(self)@.swapchains.dom() =~= old(self).swapchains@.dom());
        }
        let bits = self.swapchains.insert(swapchain);
        proof {
            assert(self@.swapchains =~= old(self)@.swapchains.insert(
                bits,
                SwapchainView {
                    handle,
                    device: old(self)@.handle,
                    size: (width, height),
                    present_mode,
                },
            ));
        }
        Ok(SwapchainKey::from_ffi(bits))
    }

    /// Takes a swapchain out of the device. Where the key is alive, the
    /// destruction of the native swapchain is given, and the key names
    /// nothing afterwards; where it is not, nothing is given and nothing
    /// changes.
    pub fn destroy_swapchain(&mut self, key: SwapchainKey) -> (d: Option<Destroy>)
        requires
            old(self).wf(),
        ensures
            final(self).wf(),
            d == (match old(self)@.swapchains.get(key.bits()) {
                Some(s) => Some(Destroy { kind: HandleKind::Swapchain, handle: s.handle }),
                None => None,
            }),
            final(self)@ == (DeviceView {
                swapchains: old(self)@.swapchains.remove(key.bits()),
                swapchain_history: if old(self)@.swapchains.contains_key(key.bits()) {
                    old(self)@.swapchain_history.with(key.bits())
                } else {
                    old(self)@.swapchain_history
                },
                ..old(self)@
            }),
    {
        let removed = self.swapchains.remove(key.as_ffi());
        proof {
            assert(self@.swapchains =~= old(self)@.swapchains.remove(key.bits()));
        }
        match removed {
            Some(swapchain) => Some(swapchain.into_handle().destroy()),
            None => None,
        }
    }

    /// The swapchain under a key, if the key is alive.
    pub fn get_swapchain(&self, key: SwapchainKey) -> (r: Option<&Swapchain>)
        requires
            self.wf(),
        ensures
            match r {
                Some(s) => self@.swapchains.contains_key(key.bits()) && s@
                    == self@.swapchains[key.bits()],
                None => !self@.swapchains.contains_key(key.bits()),
            },
    {
        self.swapchains.get(key.as_ffi())
    }

    /// The swapchain under a key, if the key is alive, to be changed in
    /// place. The device stays in order as long as the swapchain is left on
    /// its device, which holds of every operation that a swapchain offers.
    pub fn get_swapchain_mut(&mut self, key: SwapchainKey) -> (r: Option<&mut Swapchain>)
        requires
            old(self).wf(),
        ensures
            match r {
                Some(s) => old(self)@.swapchains.contains_key(key.bits()) && s@ == old(
                    self)@.swapchains[key.bits()] && final(self)@ == (DeviceView {
                    swapchains: old(self)@.swapchains.insert(key.bits(), final(s)@),
                    ..old(self)@
                }) && (final(s)@.device == s@.device ==> final(self).wf()),
                None => !old(self)@.swapchains.contains_key(key.bits()) && final(self)@ == old(
                    self)@ && final(self).wf(),
            },
    {
        let ghost before = self.swapchains@;
        proof {
            assert forall|s: Swapchain| before.contains_key(key.bits()) implies swapchain_views(
                #[trigger] before.insert(key.bits(), s),
            ) =~= swapchain_views(before).insert(key.bits(), s@) by {}
        }
        self.swapchains.get_mut(key.as_ffi())
    }

    /// Takes the engine's answer to the creation of a scene, `handle` being
    /// the native handle that it gave: the scene is registered under a new
    /// key, without resources and without a frame. On failure the device is
    /// unchanged.
    pub fn create_scene(&mut self, result: RenResult, handle: u64) -> (r: Result<SceneKey, Error>)
        requires
            old(self).wf(),
            old(self)@.scenes.len() < MAX_ENTRIES,
        ensures
            final(self).wf(),
            match r {
                Ok(key) => Error::of_code(result) is None && !old(self)@.scenes.contains_key(
                    key.bits(),
                ) && final(self)@ == (DeviceView {
                    scenes: old(self)@.scenes.insert(key.bits(), SceneView::empty(handle)),
                    ..old(self)@
                }) && (old(self)@.scene_history.is_young() ==> !old(
                    self)@.scene_history.retired.contains(key.bits())),
                Err(e) => Error::of_code(result) == Some(e) && final(self)@ == old(self)@,
            },
    {
        let scene = Scene::new(result, handle)?;
        proof {
            assert(old(self)@.scenes.dom() =~= old(self).scenes@.dom());
        }
        let bits = self.scenes.insert(scene);
        proof {
            assert(self@.scenes =~= old(self)@.scenes.insert(bits, SceneView::empty(handle)));
        }
        Ok(SceneKey::from_ffi(bits))
    }

    /// Takes a scene out of the device, with all that it holds. Where the key
    /// is alive, the destruction of the native scene is given, and the key
    /// names nothing afterwards; where it is not, nothing is given and nothing
    /// changes.
    pub fn destroy_scene(&mut self, key: SceneKey) -> (d: Option<Destroy>)
        requires
            old(self).wf(),
        ensures
            final(self).wf(),
            d == (match old(self)@.scenes.get(key.bits()) {
                Some(s) => Some(Destroy { kind: HandleKind::Scene, handle: s.handle }),
                None => None,
            }),
            final(self)@ == (DeviceView {
                scenes: old(self)@.scenes.remove(key.bits()),
                scene_history: if old(self)@.scenes.contains_key(key.bits()) {
                    old(self)@.scene_history.with(key.bits())
                } else {
                    old(self)@.scene_history
                },
                ..old(self)@
            }),
    {
        let removed = self.scenes.remove(key.as_ffi());
        proof {
            assert(self@.scenes =~= old(self)@.scenes.remove(key.bits()));
        }
        match removed {
            Some(scene) => Some(scene.into_handle().destroy()),
            None => None,
        }
    }

    /// The scene under a key, if the key is alive.
    pub fn get_scene(&self, key: SceneKey) -> (r: Option<&Scene>)
        requires
            self.wf(),
        ensures
            match r {
                Some(s) => self@.scenes.contains_key(key.bits()) && s@ == self@.scenes[key.bits()]
                    && s.wf(),
                None => !self@.scenes.contains_key(key.bits()),
            },
    {
        self.scenes.get(key.as_ffi())
    }

    /// The scene under a key, if the key is alive, to be changed in place.
    /// The device stays in order as long as the scene does and its frame is
    /// left as it is, which holds of every operation that a scene offers.
    pub fn get_scene_mut(&mut self, key: SceneKey) -> (r: Option<&mut Scene>)
        requires
            old(self).wf(),
        ensures
            match r {
                Some(s) => old(self)@.scenes.contains_key(key.bits()) && s@ == old(
                    self)@.scenes[key.bits()] && s.wf() && final(self)@ == (DeviceView {
                    scenes: old(self)@.scenes.insert(key.bits(), final(s)@),
                    ..old(self)@
                }) && (final(s).wf() && final(s)@.frame == s@.frame ==> final(self).wf()),
                None => !old(self)@.scenes.contains_key(key.bits()) && final(self)@ == old(self)@
                    && final(self).wf(),
            },
    {
        let ghost before = self.scenes@;
        proof {
            assert forall|s: Scene| before.contains_key(key.bits()) implies scene_views(
                #[trigger] before.insert(key.bits(), s),
            ) =~= scene_views(before).insert(key.bits(), s@) by {}
        }
        self.scenes.get_mut(key.as_ffi())
    }

    /// The number of swapchains that are alive.
    pub fn swapchain_count(&self) -> (n: usize)
        requires
            self.wf(),
        ensures
            n == self@.swapchains.len(),
    {
        proof {
            assert(self@.swapchains.dom() =~= self.swapchains@.dom());
        }
        self.swapchains.len()
    }

    /// The number of scenes that are alive.
    pub fn scene_count(&self) -> (n: usize)
        requires
            self.wf(),
        ensures
            n == self@.scenes.len(),
    {
        proof {
            assert(self@.scenes.dom() =~= self.scenes@.dom());
        }
        self.scenes.len()
    }

    /// The keys of the swapchains that are alive, each once.
    pub fn swapchains(&self) -> (keys: Vec<SwapchainKey>)
        requires
            self.wf(),
        ensures
            lists_each_once(key_bits(keys@), self@.swapchains.dom()),
    {
        proof {
            assert(self@.swapchains.dom() =~= self.swapchains@.dom());
        }
        typed_keys(self.swapchains.keys())
    }

    /// The keys of the scenes that are alive, each once.
    pub fn scenes(&self) -> (keys: Vec<SceneKey>)
        requires
            self.wf(),
        ensures
            lists_each_once(key_bits(keys@), self@.scenes.dom()),
    {
        proof {
            assert(self@.scenes.dom() =~= self.scenes@.dom());
        }
        typed_keys(self.scenes.keys())
    }

    /// Tells whether a frame that is open on some scene is bound to
    /// `swapchain`.
    pub fn swapchain_is_bound(&self, swapchain: SwapchainKey) -> (bound: bool)
        requires
            self.wf(),
        ensures
            bound == self@.swapchain_is_bound(swapchain),
    {
        let keys = self.scenes.keys();
        let mut i: usize = 0;
        while i < keys.len()
            invariant
                self.wf(),
                keys@.to_set() == self.scenes@.dom(),
                i <= keys@.len(),
                forall|j: int|
                    0 <= j < i ==> (#[trigger] self@.scenes[keys@[j]]).frame != Some(swapchain),
            decreases keys@.len() - i,
        {
            assert(keys@.to_set().contains(keys@[i as int]));
            match self.scenes.get(keys[i]) {
                Some(scene) => {
                    match scene.get_frame() {
                        Some(bound_to) => {
                            if bound_to == swapchain {
                                assert(self@.scenes.contains_key(keys@[i as int]));
                                assert(self@.scenes[keys@[i as int]].frame == Some(swapchain));
                                return true;
                            }
                        },
                        None => {},
                    }
                },
                None => {},
            }
            i += 1;
        }
        proof {
            assert forall|k: u64| self@.scenes.contains_key(k) implies (
            #[trigger] self@.scenes[k]).frame != Some(swapchain) by {
                assert(keys@.to_set().contains(k));
                let j = choose|j: int| 0 <= j < keys@.len() && keys@[j] == k;
                assert(self@.scenes[keys@[j]].frame != Some(swapchain));
            }
        }
        false
    }

    /// The native handles of a scene and of a swapchain, as they are to be
    /// handed to the engine to draw the one to the other. Where one of the
    /// keys is not alive, the plan fails with `InvalidKey`.
    pub fn plan_draw(&self, scene: SceneKey, swapchain: SwapchainKey) -> (r: Result<
        (u64, u64),
        Error,
    >)
        requires
            self.wf(),
        ensures
            r == (match self@.draw_refusal(scene, swapchain) {
                Some(e) => Err::<(u64, u64), Error>(e),
                None => Ok(
                    (
                        self@.scenes[scene.bits()].handle,
                        self@.swapchains[swapchain.bits()].handle,
                    ),
                ),
            }),
    {
        match (self.scenes.get(scene.as_ffi()), self.swapchains.get(swapchain.as_ffi())) {
            (Some(scene), Some(swapchain)) => Ok((scene.get_handle(), swapchain.get_handle())),
            _ => Err(Error::InvalidKey),
        }
    }

    /// Takes the engine's answer to drawing a scene to a swapchain: the error
    /// that the engine reported, unless a key is not alive, which is an
    /// `InvalidKey` whatever the engine answered.
    pub fn draw(&self, scene: SceneKey, swapchain: SwapchainKey, result: RenResult) -> (r: Result<
        (),
        Error,
    >)
        requires
            self.wf(),
        ensures
            r == (match self@.draw_refusal(scene, swapchain) {
                Some(e) => Err::<(), Error>(e),
                None => match Error::of_code(result) {
                    Some(e) => Err(e),
                    None => Ok(()),
                },
            }),
    {
        let _ = self.plan_draw(scene, swapchain)?;
        Error::new(result)
    }

    /// Opens a frame on the device. Fails with `Busy` exactly when one is
    /// open already; the device is then unchanged.
    pub fn begin_frame(&mut self) -> (r: Result<DeviceFrame, Error>)
        requires
            old(self).wf(),
        ensures
            final(self).wf(),
            match r {
                Ok(frame) => old(self)@.frame_refusal() is None && frame.is_open() && final(self)@
                    == old(self)@.with_frame(),
                Err(e) => old(self)@.frame_refusal() == Some(e) && final(self)@ == old(self)@,
            },
    {
        if self.frame_open {
            Err(Error::Busy)
        } else {
            self.frame_open = true;
            Ok(DeviceFrame { open: true })
        }
    }

    /// Ends the frame on the device, and with it every frame that is still
    /// open on a scene. Tells whether a frame was open, which is when the
    /// engine's end of frame is due: a second call in a row changes nothing
    /// and says no.
    pub fn end_frame(&mut self) -> (due: bool)
        requires
            old(self).wf(),
        ensures
            final(self).wf(),
            due == old(self)@.frame_open,
            final(self)@ == old(self)@.after_frame(),
    {
        let due = self.frame_open;
        let keys = self.scenes.keys();
        let ghost before = self.scenes@;
        let mut i: usize = 0;
        while i < keys.len()
            invariant
                self.scenes.wf(),
                self.scenes.history() == old(self).scenes.history(),
                self.swapchains == old(self).swapchains,
                self.handle == old(self).handle,
                keys@.no_duplicates(),
                keys@.to_set() == before.dom(),
                self.scenes@.dom() == before.dom(),
                i <= keys@.len(),
                forall|k: u64| self.scenes@.contains_key(k) ==> (#[trigger] self.scenes@[k]).wf(),
                forall|j: int|
                    0 <= j < i ==> (#[trigger] self.scenes@[keys@[j]])@ == (SceneView {
                        frame: None,
                        ..before[keys@[j]]@
                    }),
                forall|j: int|
                    i <= j < keys@.len() ==> (#[trigger] self.scenes@[keys@[j]])@
                        == before[keys@[j]]@,
            decreases keys@.len() - i,
        {
            let ghost prev = self.scenes@;
            assert(keys@.to_set().contains(keys@[i as int]));
            match self.scenes.get_mut(keys[i]) {
                Some(scene) => {
                    let _ = scene.end_frame();
                },
                None => {},
            }
            proof {
                assert(self.scenes@.dom() =~= prev.dom());
                assert forall|j: int| 0 <= j < keys@.len() && j != i implies self.scenes@[keys@[j]]
                    == prev[keys@[j]] by {
                    assert(keys@[j] != keys@[i as int]);
                }
            }
            i += 1;
        }
        self.frame_open = false;
        proof {
            assert forall|k: u64| self@.scenes.contains_key(k) implies #[trigger] self@.scenes[k]
                == (SceneView { frame: None, ..old(self)@.scenes[k] }) by {
                assert(keys@.to_set().contains(k));
                let j = choose|j: int| 0 <= j < keys@.len() && keys@[j] == k;
                assert(self.scenes@[keys@[j]]@ == (SceneView { frame: None, ..before[keys@[j]]@ }));
            }
            assert(self@.scenes =~= old(self)@.without_scene_frames().scenes);
        }
        due
    }

    /// Opens a frame on `scene`, bound to `swapchain`. It is refused with
    /// `NoFrame` while no frame is open on the device, else with `InvalidKey`
    /// where one of the keys is not alive, else with `Busy` where a frame is
    /// open on the scene already or one is bound to the swapchain. On refusal
    /// the device is unchanged.
    pub fn begin_scene_frame(&mut self, scene: SceneKey, swapchain: SwapchainKey) -> (r: Result<
        SceneFrame,
        Error,
    >)
        requires
            old(self).wf(),
        ensures
            final(self).wf(),
            match r {
                Ok(frame) => old(self)@.scene_frame_refusal(scene, swapchain) is None
                    && frame.is_open() && frame.scene_key() == scene && frame.swapchain_key()
                    == swapchain && final(self)@ == old(self)@.with_scene_frame(scene, swapchain),
                Err(e) => old(self)@.scene_frame_refusal(scene, swapchain) == Some(e) && final(
                    self)@ == old(self)@,
            },
    {
        if !self.frame_open {
            return Err(Error::NoFrame);
        }
        if !self.scenes.contains_key(scene.as_ffi()) || !self.swapchains.contains_key(
            swapchain.as_ffi(),
        ) {
            return Err(Error::InvalidKey);
        }
        if self.swapchain_is_bound(swapchain) {
            return Err(Error::Busy);
        }
        match self.scenes.get_mut(scene.as_ffi()) {
            Some(s) => {
                match s.begin_frame(swapchain) {
                    Ok(()) => {},
                    Err(e) => {
                        proof {
                            assert(self@.scenes =~= old(self)@.scenes);
                        }
                        return Err(e);
                    },
                }
            },
            None => {},
        }
        proof {
            assert(self@.scenes =~= old(self)@.with_scene_frame(scene, swapchain).scenes);
        }
        Ok(SceneFrame { scene, swapchain, open: true })
    }

    /// Ends the frame on `scene`, if the scene is alive and a frame is open on
    /// it, and gives what is to be submitted to the engine: the native handles
    /// of the scene and of the swapchain that the frame was bound to. A second
    /// call in a row changes nothing and gives nothing.
    pub fn end_scene_frame(&mut self, scene: SceneKey) -> (submit: Option<(u64, u64)>)
        requires
            old(self).wf(),
        ensures
            final(self).wf(),
            submit == old(self)@.scene_frame_submit(scene),
            final(self)@ == old(self)@.without_scene_frame(scene),
    {
        let ended = match self.scenes.get_mut(scene.as_ffi()) {
            Some(s) => {
                let handle = s.get_handle();
                match s.end_frame() {
                    Some(swapchain) => Some((handle, swapchain)),
                    None => None,
                }
            },
            None => None,
        };
        proof {
            assert(self@.scenes =~= old(self)@.without_scene_frame(scene).scenes);
        }
        match ended {
            Some((handle, swapchain)) => match self.swapchains.get(swapchain.as_ffi()) {
                Some(s) => Some((handle, s.get_handle())),
                None => None,
            },
            None => None,
        }
    }

    /// Gives the device up, with all its swapchains and scenes: the
    /// destructions that are due, in their order. Every swapchain and every
    /// scene that is alive is destroyed once, and the device after all of
    /// them.
    pub fn destroy(self) -> (due: Vec<Destroy>)
        requires
            self.wf(),
        ensures
            exists|swapchain_keys: Seq<u64>, scene_keys: Seq<u64>|
                lists_each_once(swapchain_keys, self@.swapchains.dom()) && lists_each_once(
                    scene_keys,
                    self@.scenes.dom(),
                ) && due@ == teardown(self@, swapchain_keys, scene_keys),
    {
        let ghost view = self@;
        let mut this = self;
        let mut due: Vec<Destroy> = Vec::new();
        let swapchain_keys = this.swapchains.keys();
        let mut i: usize = 0;
        while i < swapchain_keys.len()
            invariant
                this.swapchains.wf(),
                this.scenes == self.scenes,
                this.handle == self.handle,
                view == self@,
                swapchain_keys@.no_duplicates(),
                swapchain_keys@.to_set() == self.swapchains@.dom(),
                i <= swapchain_keys@.len(),
                forall|j: int|
                    i <= j < swapchain_keys@.len() ==> this.swapchains@.contains_key(
                        #[trigger] swapchain_keys@[j],
                    ) && this.swapchains@[swapchain_keys@[j]]
                        == self.swapchains@[swapchain_keys@[j]],
                due@ == swapchain_destroys(view, swapchain_keys@.take(i as int)),
            decreases swapchain_keys@.len() - i,
        {
            let ghost prev = this.swapchains@;
            assert(swapchain_keys@.to_set().contains(swapchain_keys@[i as int]));
            match this.swapchains.remove(swapchain_keys[i]) {
                Some(swapchain) => {
                    due.push(swapchain.into_handle().destroy());
                },
                None => {},
            }
            proof {
                assert forall|j: int| i < j < swapchain_keys@.len() implies swapchain_keys@[j]
                    != swapchain_keys@[i as int] by {}
                assert(due@ =~= swapchain_destroys(view, swapchain_keys@.take(i as int + 1)));
            }
            i += 1;
        }
        assert(swapchain_keys@.take(i as int) =~= swapchain_keys@);
        let scene_keys = this.scenes.keys();
        let mut i: usize = 0;
        while i < scene_keys.len()
            invariant
                this.scenes.wf(),
                this.handle == self.handle,
                view == self@,
                scene_keys@.no_duplicates(),
                scene_keys@.to_set() == self.scenes@.dom(),
                i <= scene_keys@.len(),
                forall|j: int|
                    i <= j < scene_keys@.len() ==> this.scenes@.contains_key(
                        #[trigger] scene_keys@[j],
                    ) && this.scenes@[scene_keys@[j]] == self.scenes@[scene_keys@[j]],
                due@ == swapchain_destroys(view, swapchain_keys@) + scene_destroys(
                    view,
                    scene_keys@.take(i as int),
                ),
            decreases scene_keys@.len() - i,
        {
            assert(scene_keys@.to_set().contains(scene_keys@[i as int]));
            match this.scenes.remove(scene_keys[i]) {
                Some(scene) => {
                    due.push(scene.into_handle().destroy());
                },
                None => {},
            }
            proof {
                assert forall|j: int| i < j < scene_keys@.len() implies scene_keys@[j]
                    != scene_keys@[i as int] by {}
                assert(due@ =~= swapchain_destroys(view, swapchain_keys@) + scene_destroys(
                    view,
                    scene_keys@.take(i as int + 1),
                ));
            }
            i += 1;
        }
        assert(scene_keys@.take(i as int) =~= scene_keys@);
        due.push(this.handle.destroy());
        proof {
            assert(self@.swapchains.dom() =~= self.swapchains@.dom());
            assert(self@.scenes.dom() =~= self.scenes@.dom());
            assert(due@ =~= teardown(view, swapchain_keys@, scene_keys@));
            assert(lists_each_once(swapchain_keys@, view.swapchains.dom()));
            assert(lists_each_once(scene_keys@, view.scenes.dom()));
        }
        due
    }
}

/// Whether `keys` lists every key of `dom` once and nothing else.
pub open spec fn lists_each_once(keys: Seq<u64>, dom: Set<u64>) -> bool {
    keys.no_duplicates() && keys.to_set() == dom
}

/// The destructions of the swapchains under `keys`, in their order.
pub open spec fn swapchain_destroys(view: DeviceView, keys: Seq<u64>) -> Seq<Destroy> {
    Seq::new(
        keys.len(),
        |i: int| Destroy { kind: HandleKind::Swapchain, handle: view.swapchains[keys[i]].handle },
    )
}

/// The destructions of the scenes under `keys`, in their order.
pub open spec fn scene_destroys(view: DeviceView, keys: Seq<u64>) -> Seq<Destroy> {
    Seq::new(
        keys.len(),
        |i: int| Destroy { kind: HandleKind::Scene, handle: view.scenes[keys[i]].handle },
    )
}

/// The destructions that give a device up: its swapchains, then its scenes,
/// then the device itself.
pub open spec fn teardown(view: DeviceView, swapchain_keys: Seq<u64>, scene_keys: Seq<u64>) -> Seq<
    Destroy,
> {
    swapchain_destroys(view, swapchain_keys) + scene_destroys(view, scene_keys) + seq![
        Destroy { kind: HandleKind::Device, handle: view.handle },
    ]
}

/// The keys with the given 64-bit forms, in their order.
fn typed_keys<K: KeyBits>(bits: Vec<u64>) -> (keys: Vec<K>)
    ensures
        key_bits(keys@) == bits@,
{
    let mut keys: Vec<K> = Vec::new();
    let mut i: usize = 0;
    while i < bits.len()
        invariant
            i <= bits@.len(),
            keys@.len() == i,
            forall|j: int| 0 <= j < i ==> (#[trigger] keys@[j]).bits() == bits@[j],
        decreases bits@.len() - i,
    {
        keys.push(K::from_ffi(bits[i]));
        i += 1;
    }
    assert(key_bits(keys@) =~= bits@);
    keys
}

/// The token of a frame that was opened on a device. Ending it more than once
/// ends the frame once.
pub struct DeviceFrame {
    open: bool,
}

impl DeviceFrame {
    /// Whether the frame was not ended through this token yet.
    pub closed spec fn is_open(&self) -> bool {
        self.open
    }

    /// Ends the frame on the device, unless it was ended through this token
    /// before. Tells whether the engine's end of frame is due.
    pub fn end(&mut self, device: &mut Device) -> (due: bool)
        requires
            old(device).wf(),
        ensures
            final(device).wf(),
            !final(self).is_open(),
            due == (old(self).is_open() && old(device)@.frame_open),
            final(device)@ == (if old(self).is_open() {
                old(device)@.after_frame()
            } else {
                old(device)@
            }),
    {
        if self.open {
            self.open = false;
            device.end_frame()
        } else {
            false
        }
    }
}

/// The token of a frame that was opened on a scene. Ending it more than once
/// ends the frame once.
pub struct SceneFrame {
    scene: SceneKey,
    swapchain: SwapchainKey,
    open: bool,
}

impl SceneFrame {
    /// Whether the frame was not ended through this token yet.
    pub closed spec fn is_open(&self) -> bool {
        self.open
    }

    /// The scene that the frame was opened on.
    pub closed spec fn scene_key(&self) -> SceneKey {
        self.scene
    }

    /// The swapchain that the frame is bound to.
    pub closed spec fn swapchain_key(&self) -> SwapchainKey {
        self.swapchain
    }

    /// The scene that the frame was opened on.
    pub fn scene(&self) -> (scene: SceneKey)
        ensures
            scene == self.scene_key(),
    {
        self.scene
    }

    /// The swapchain that the frame is bound to.
    pub fn swapchain(&self) -> (swapchain: SwapchainKey)
        ensures
            swapchain == self.swapchain_key(),
    {
        self.swapchain
    }

    /// Ends the frame on the scene, unless it was ended through this token
    /// before, and gives what is to be submitted to the engine.
    pub fn end(&mut self, device: &mut Device) -> (submit: Option<(u64, u64)>)
        requires
            old(device).wf(),
        ensures
            final(device).wf(),
            !final(self).is_open(),
            final(self).scene_key() == old(self).scene_key(),
            final(self).swapchain_key() == old(self).swapchain_key(),
            submit == (if old(self).is_open() {
                old(device)@.scene_frame_submit(old(self).scene_key())
            } else {
                None
            }),
            final(device)@ == (if old(self).is_open() {
                old(device)@.without_scene_frame(old(self).scene_key())
            } else {
                old(device)@
            }),
    {
        if self.open {
            self.open = false;
            device.end_scene_frame(self.scene)
        } else {
            None
        }
    }
}

} // verus!
