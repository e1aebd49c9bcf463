//! What holds of the registries and of the frame protocol whatever the calls
//! and their order.
use crate::batch::{history_after, registered, removed, retired_by};
use crate::device::DeviceView;
use crate::error::Error;
use crate::keys::{KeyBits, SceneKey, SwapchainKey};
use crate::registry::History;
use crate::scene::SceneView;
use vstd::prelude::*;

verus! {

/// A key that was handed out resolves to what was registered under it, and
/// to nothing else: every key of a batch that was registered resolves to its
/// own id, none of them named anything before, and every key that was alive
/// before resolves to what it resolved to.
pub proof fn lemma_registered_keys_resolve(
    before: Map<u64, u64>,
    after: Map<u64, u64>,
    keys: Seq<u64>,
    ids: Seq<u64>,
)
    requires
        registered(before, after, keys, ids),
    ensures
        forall|i: int| 0 <= i < keys.len() ==> after.get(#[trigger] keys[i]) == Some(ids[i]),
        forall|i: int| 0 <= i < keys.len() ==> before.get(#[trigger] keys[i]) is None,
        forall|k: u64| #[trigger] before.contains_key(k) ==> after.get(k) == before.get(k),
{
}

/// A key that was removed resolves to nothing, and the removal touches no
/// other key.
pub proof fn lemma_removed_key_resolves_to_nothing(m: Map<u64, u64>, key: u64)
    ensures
        m.remove(key).get(key) is None,
        forall|k: u64| k != key ==> #[trigger] m.remove(key).get(k) == m.get(k),
{
}

/// A key that was destroyed stays dead through a creation: where no key that
/// is remembered as taken out is alive, and the keys of a batch that is
/// registered are none of them, which is what a young registry sees to, no key
/// that is remembered as taken out is alive afterwards.
pub proof fn lemma_destroyed_keys_stay_dead_through_creation(
    history: History,
    before: Map<u64, u64>,
    after: Map<u64, u64>,
    keys: Seq<u64>,
    ids: Seq<u64>,
)
    requires
        registered(before, after, keys, ids),
        history.retired.disjoint(before.dom()),
        forall|i: int| 0 <= i < keys.len() ==> !history.retired.contains(#[trigger] keys[i]),
    ensures
        history.retired.disjoint(after.dom()),
{
    assert forall|k: u64| history.retired.contains(k) implies !after.dom().contains(k) by {
        if after.contains_key(k) {
            assert(!before.dom().contains(k));
            let j = choose|j: int| 0 <= j < keys.len() && keys[j] == k;
            assert(!history.retired.contains(keys[j]));
        }
    }
}

/// A key that is destroyed is remembered, and it is dead: after a batch was
/// removed, every key of it that was alive is remembered as taken out, nothing
/// that was remembered is forgotten, and no key that is remembered is alive.
pub proof fn lemma_destroyed_keys_are_remembered(
    history: History,
    m: Map<u64, u64>,
    keys: Seq<u64>,
)
    requires
        history.retired.disjoint(m.dom()),
    ensures
        forall|i: int|
            0 <= i < keys.len() && m.contains_key(#[trigger] keys[i]) ==> history_after(
                history,
                m,
                keys,
            ).retired.contains(keys[i]),
        history.retired.subset_of(history_after(history, m, keys).retired),
        history_after(history, m, keys).retired.disjoint(removed(m, keys).0.dom()),
{
    lemma_removed_keys_are_gone(m, keys);
    let after = history_after(history, m, keys);
    assert forall|k: u64| after.retired.contains(k) implies !removed(m, keys).0.dom().contains(
        k,
    ) by {
        if removed(m, keys).0.contains_key(k) {
            assert(m.contains_key(k));
            assert(!history.retired.contains(k)) by {
                assert(m.dom().contains(k));
            }
            assert(retired_by(m, keys).contains(k));
            let j = choose|j: int| 0 <= j < keys.len() && keys[j] == k;
            assert(!removed(m, keys).0.contains_key(keys[j]));
        }
    }
}

/// Where none of `keys` is alive, removing them changes nothing and gives no
/// id.
pub proof fn lemma_removing_dead_keys_gives_nothing(m: Map<u64, u64>, keys: Seq<u64>)
    requires
        forall|i: int| 0 <= i < keys.len() ==> !m.contains_key(#[trigger] keys[i]),
    ensures
        removed(m, keys) == (m, Seq::<u64>::empty()),
    decreases keys.len(),
{
    if keys.len() > 0 {
        assert forall|i: int| 0 <= i < keys.drop_last().len() implies !m.contains_key(
            #[trigger] keys.drop_last()[i],
        ) by {
            assert(keys.drop_last()[i] == keys[i]);
        }
        lemma_removing_dead_keys_gives_nothing(m, keys.drop_last());
        assert(!m.contains_key(keys[keys.len() - 1]));
    }
}

/// After a batch was removed none of its keys is alive; a key that is not in
/// the batch is left as it was.
pub proof fn lemma_removed_keys_are_gone(m: Map<u64, u64>, keys: Seq<u64>)
    ensures
        forall|i: int| 0 <= i < keys.len() ==> !removed(m, keys).0.contains_key(#[trigger] keys[i]),
        forall|k: u64|
            !keys.contains(k) ==> (#[trigger] removed(m, keys).0.get(k)) == m.get(k),
        forall|k: u64| #[trigger] removed(m, keys).0.contains_key(k) ==> m.contains_key(k),
    decreases keys.len(),
{
    if keys.len() > 0 {
        let front = keys.drop_last();
        let last = keys.last();
        lemma_removed_keys_are_gone(m, front);
        assert forall|i: int| 0 <= i < keys.len() implies !removed(m, keys).0.contains_key(
            #[trigger] keys[i],
        ) by {
            if i < keys.len() - 1 {
                assert(front[i] == keys[i]);
            }
        }
        assert forall|k: u64| !keys.contains(k) implies (#[trigger] removed(m, keys).0.get(k))
            == m.get(k) by {
            assert(k != last) by {
                assert(keys[keys.len() - 1] == last);
            }
            assert(!front.contains(k)) by {
                if front.contains(k) {
                    let j = choose|j: int| 0 <= j < front.len() && front[j] == k;
                    assert(keys[j] == k);
                }
            }
            assert(removed(m, front).0.get(k) == m.get(k));
        }
        assert forall|k: u64| #[trigger]
            removed(m, keys).0.contains_key(k) implies m.contains_key(k) by {
            assert(removed(m, front).0.contains_key(k));
        }
    }
}

/// Single destruction: a batch that is removed a second time gives no id and
/// changes nothing, so no native id is handed out for destruction twice.
pub proof fn lemma_removed_again_gives_nothing(m: Map<u64, u64>, keys: Seq<u64>)
    ensures
        removed(removed(m, keys).0, keys) == (removed(m, keys).0, Seq::<u64>::empty()),
{
    lemma_removed_keys_are_gone(m, keys);
    lemma_removing_dead_keys_gives_nothing(removed(m, keys).0, keys);
}

/// Single destruction: a batch gives as many ids as keys go out of the
/// registry, one for each, also where a key stands in the batch twice.
pub proof fn lemma_removed_gives_one_id_for_each_key(m: Map<u64, u64>, keys: Seq<u64>)
    requires
        m.dom().finite(),
    ensures
        removed(m, keys).0.dom().finite(),
        removed(m, keys).0.len() + removed(m, keys).1.len() == m.len(),
    decreases keys.len(),
{
    if keys.len() > 0 {
        lemma_removed_gives_one_id_for_each_key(m, keys.drop_last());
        let rest = removed(m, keys.drop_last()).0;
        let k = keys.last();
        if rest.contains_key(k) {
            assert(rest.remove(k).dom() =~= rest.dom().remove(k));
        }
    }
}

/// Removing one key is removing a batch of one.
pub proof fn lemma_removed_one(m: Map<u64, u64>, key: u64)
    ensures
        removed(m, seq![key]) == (
            m.remove(key),
            match m.get(key) {
                Some(id) => seq![id],
                None => Seq::<u64>::empty(),
            },
        ),
{
    let keys = seq![key];
    assert(keys.drop_last() =~= Seq::<u64>::empty());
    assert(removed(m, keys.drop_last()) == (m, Seq::<u64>::empty()));
    assert(keys.last() == key);
    if m.contains_key(key) {
        assert(Seq::<u64>::empty().push(m[key]) =~= seq![m[key]]);
    } else {
        assert(m.remove(key) =~= m);
    }
}

/// Frame exclusivity on the device: once a frame was opened, opening another
/// is refused with `Busy`.
pub proof fn lemma_device_frame_is_exclusive(device: DeviceView)
    ensures
        device.with_frame().frame_refusal() == Some(Error::Busy),
{
}

/// Frame exclusivity on a scene: once a frame was opened on a scene and bound
/// to a swapchain, a frame on the same scene is refused with `Busy`, whatever
/// live swapchain it is to be bound to, and so is a frame that is to be bound
/// to the same swapchain, whatever live scene it is to be opened on.
pub proof fn lemma_scene_frame_is_exclusive(
    device: DeviceView,
    scene: SceneKey,
    swapchain: SwapchainKey,
    other_scene: SceneKey,
    other_swapchain: SwapchainKey,
)
    requires
        device.scene_frame_refusal(scene, swapchain) is None,
    ensures
        device.both_live(scene, other_swapchain) ==> device.with_scene_frame(
            scene,
            swapchain,
        ).scene_frame_refusal(scene, other_swapchain) == Some(Error::Busy),
        device.both_live(other_scene, swapchain) ==> device.with_scene_frame(
            scene,
            swapchain,
        ).scene_frame_refusal(other_scene, swapchain) == Some(Error::Busy),
{
    let after = device.with_scene_frame(scene, swapchain);
    assert(after.scenes.contains_key(scene.bits()));
    assert(after.scenes[scene.bits()].frame == Some(swapchain));
    assert(after.swapchain_is_bound(swapchain));
}

/// Frame nesting: while no frame is open on the device, a frame on a scene is
/// refused with `NoFrame`, whatever the scene and the swapchain.
pub proof fn lemma_scene_frame_needs_device_frame(
    device: DeviceView,
    scene: SceneKey,
    swapchain: SwapchainKey,
)
    requires
        !device.frame_open,
    ensures
        device.scene_frame_refusal(scene, swapchain) == Some(Error::NoFrame),
{
}

/// Frame nesting: the end of the device's frame leaves no frame open on any
/// scene, and none can be opened until the device's next frame.
pub proof fn lemma_frame_end_closes_scene_frames(
    device: DeviceView,
    scene: SceneKey,
    swapchain: SwapchainKey,
)
    ensures
        !device.after_frame().frame_open,
        device.after_frame().no_scene_frame(),
        device.after_frame().scene_frame_refusal(scene, swapchain) == Some(Error::NoFrame),
        device.after_frame().scenes.dom() == device.scenes.dom(),
        device.after_frame().swapchains == device.swapchains,
{
    assert(device.after_frame().scenes.dom() =~= device.scenes.dom());
}

/// A frame ends once: ending the device's frame a second time changes
/// nothing, and no end of frame is due then.
pub proof fn lemma_frame_ends_once(device: DeviceView)
    ensures
        !device.after_frame().frame_open,
        device.after_frame().after_frame() == device.after_frame(),
{
    assert(device.after_frame().after_frame().scenes =~= device.after_frame().scenes);
}

/// A scene's frame ends once: after it ended, ending it again changes nothing
/// and gives nothing to submit.
pub proof fn lemma_scene_frame_ends_once(device: DeviceView, scene: SceneKey)
    ensures
        device.without_scene_frame(scene).scene_frame_submit(scene) is None,
        device.without_scene_frame(scene).without_scene_frame(scene) == device.without_scene_frame(
            scene,
        ),
{
    assert(device.without_scene_frame(scene).without_scene_frame(scene).scenes
        =~= device.without_scene_frame(scene).scenes);
}

/// A frame that was opened on a scene and ended right away gives the scene
/// and its swapchain to submit, and leaves the device as it was before.
pub proof fn lemma_scene_frame_round_trip(
    device: DeviceView,
    scene: SceneKey,
    swapchain: SwapchainKey,
)
    requires
        device.scene_frame_refusal(scene, swapchain) is None,
    ensures
        device.with_scene_frame(scene, swapchain).scene_frame_submit(scene) == Some(
            (device.scenes[scene.bits()].handle, device.swapchains[swapchain.bits()].handle),
        ),
        device.with_scene_frame(scene, swapchain).without_scene_frame(scene) == device,
{
    let opened = device.with_scene_frame(scene, swapchain);
    assert(device.scenes[scene.bits()] == (SceneView { frame: None, ..device.scenes[scene.bits()] }));
    assert(opened.without_scene_frame(scene).scenes =~= device.scenes);
}

/// What a scene refuses for want of a frame, it refuses whatever the engine
/// answered; what it accepts, fails only by the engine's word.
pub proof fn lemma_failure_is_refusal_or_engine(
    scene: SceneView,
    finding: Option<Error>,
    result: u32,
)
    ensures
        scene.refusal(finding) is Some ==> scene.failure(finding, result) == scene.refusal(
            finding,
        ),
        scene.refusal(finding) is None ==> scene.failure(finding, result) == Error::of_code(
            result,
        ),
        scene.frame is None ==> scene.failure(finding, result) == Some(Error::NoFrame),
{
}

} // verus!
