use ren::handle::{RenDevice, RenScene, RenSwapchain};
use ren::{Destroy, DestroyHandle, Handle, HandleKind};

#[test]
fn handle_gives_what_it_owns() {
    let mut handle: Handle<RenScene> = Handle::new(0xABCD);
    assert_eq!(handle.get(), 0xABCD);
    assert_eq!(handle.get_mut(), 0xABCD);
    assert_eq!(handle.get(), 0xABCD);
    let null: Handle<RenDevice> = Handle::new(0);
    assert_eq!(null.get(), 0);
}

#[test]
fn handle_is_destroyed_by_its_kind() {
    let device: Handle<RenDevice> = Handle::new(1);
    let swapchain: Handle<RenSwapchain> = Handle::new(2);
    let scene: Handle<RenScene> = Handle::new(3);
    assert_eq!(device.destroy(), Destroy { kind: HandleKind::Device, handle: 1 });
    assert_eq!(swapchain.destroy(), Destroy { kind: HandleKind::Swapchain, handle: 2 });
    assert_eq!(scene.destroy(), Destroy { kind: HandleKind::Scene, handle: 3 });
}

#[test]
fn kinds() {
    assert_eq!(RenDevice::kind(), HandleKind::Device);
    assert_eq!(RenSwapchain::kind(), HandleKind::Swapchain);
    assert_eq!(RenScene::kind(), HandleKind::Scene);
}
