use ren::error::{REN_RUNTIME_ERROR, REN_SUCCESS, REN_SYSTEM_ERROR, REN_VULKAN_ERROR};
use ren::Error;

#[test]
fn success_is_no_error() {
    assert_eq!(Error::new(REN_SUCCESS), Ok(()));
}

#[test]
fn known_codes_become_their_errors() {
    assert_eq!(Error::new(REN_VULKAN_ERROR), Err(Error::Vulkan));
    assert_eq!(Error::new(REN_SYSTEM_ERROR), Err(Error::System));
    assert_eq!(Error::new(REN_RUNTIME_ERROR), Err(Error::Runtime));
}

#[test]
fn unknown_codes_become_unknown() {
    assert_eq!(Error::new(4), Err(Error::Unknown));
    assert_eq!(Error::new(1000), Err(Error::Unknown));
    assert_eq!(Error::new(u32::MAX), Err(Error::Unknown));
}

#[test]
fn no_code_becomes_a_binding_level_error() {
    for code in 0..64u32 {
        let r = Error::new(code);
        assert_ne!(r, Err(Error::InvalidKey));
        assert_ne!(r, Err(Error::Busy));
        assert_ne!(r, Err(Error::NoFrame));
        assert_ne!(r, Err(Error::BufferTooSmall));
    }
}

#[test]
fn messages() {
    assert_eq!(Error::Vulkan.message(), "Vulkan runtime error");
    assert_eq!(Error::System.message(), "System error");
    assert_eq!(Error::Runtime.message(), "C++ runtime error");
    assert_eq!(Error::InvalidKey.message(), "Specified object was not found");
    assert_eq!(Error::Busy.message(), "A frame is already open");
    assert_eq!(Error::NoFrame.message(), "No frame is open");
    assert_eq!(Error::BufferTooSmall.message(), "Buffer is too small");
    assert_eq!(Error::Unknown.message(), "Unknown error");
}
