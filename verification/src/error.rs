//! The error model: what the engine reports as an integer code, and what the
//! binding finds out by itself before it calls the engine.
use vstd::prelude::*;

verus! {

/// A result code as the engine returns it.
pub type RenResult = u32;

/// The call went through.
pub const REN_SUCCESS: RenResult = 0;

/// The graphics runtime under the engine reported an error.
pub const REN_VULKAN_ERROR: RenResult = 1;

/// The host system reported an error.
pub const REN_SYSTEM_ERROR: RenResult = 2;

/// The engine's own runtime reported an error.
pub const REN_RUNTIME_ERROR: RenResult = 3;

#[derive(Debug, Clone, Copy, PartialEq, Eq, Hash, Structural)]
pub enum Error {
    /// The graphics runtime failed.
    Vulkan,
    /// The host system failed.
    System,
    /// The engine's runtime failed.
    Runtime,
    /// A key names nothing that is alive in the registry it was used on.
    InvalidKey,
    /// A frame is already open where another one was to be opened.
    Busy,
    /// A call that belongs inside a frame was made while none was open.
    NoFrame,
    /// A buffer holds fewer bytes than its description asks for.
    BufferTooSmall,
    /// The engine returned a code that the binding does not know.
    Unknown,
}

impl Error {
    /// The error that a result code stands for; `None` for success.
    pub open spec fn of_code(result: RenResult) -> Option<Error> {
        if result == REN_SUCCESS {
            None
        } else if result == REN_VULKAN_ERROR {
            Some(Error::Vulkan)
        } else if result == REN_SYSTEM_ERROR {
            Some(Error::System)
        } else if result == REN_RUNTIME_ERROR {
            Some(Error::Runtime)
        } else {
            Some(Error::Unknown)
        }
    }

    /// Whether the error is found by the binding itself, never by the engine.
    pub open spec fn is_binding_level(self) -> bool {
        self == Error::InvalidKey || self == Error::Busy || self == Error::NoFrame || self
            == Error::BufferTooSmall
    }

    /// Reads a result code of the engine. Every code is read: one that the
    /// binding does not know becomes `Unknown`.
    pub fn new(result: RenResult) -> (r: Result<(), Error>)
        ensures
            r == (match Error::of_code(result) {
                None => Ok::<(), Error>(()),
                Some(e) => Err(e),
            }),
    {
        if result == REN_SUCCESS {
            Ok(())
        } else if result == REN_VULKAN_ERROR {
            Err(Error::Vulkan)
        } else if result == REN_SYSTEM_ERROR {
            Err(Error::System)
        } else if result == REN_RUNTIME_ERROR {
            Err(Error::Runtime)
        } else {
            Err(Error::Unknown)
        }
    }

    /// The text of the message that describes the error.
    pub open spec fn message_text(self) -> Seq<char> {
        match self {
            Error::Vulkan => "Vulkan runtime error"@,
            Error::System => "System error"@,
            Error::Runtime => "C++ runtime error"@,
            Error::InvalidKey => "Specified object was not found"@,
            Error::Busy => "A frame is already open"@,
            Error::NoFrame => "No frame is open"@,
            Error::BufferTooSmall => "Buffer is too small"@,
            Error::Unknown => "Unknown error"@,
        }
    }

    /// A message that describes the error.
    pub fn message(&self) -> (text: String)
        ensures
            text@ == self.message_text(),
    {
        match self {
            Error::Vulkan => "Vulkan runtime error".to_owned(),
            Error::System => "System error".to_owned(),
            Error::Runtime => "C++ runtime error".to_owned(),
            Error::InvalidKey => "Specified object was not found".to_owned(),
            Error::Busy => "A frame is already open".to_owned(),
            Error::NoFrame => "No frame is open".to_owned(),
            Error::BufferTooSmall => "Buffer is too small".to_owned(),
            Error::Unknown => "Unknown error".to_owned(),
        }
    }
}

/// No result code of the engine is read as an error that only the
/// binding finds.
pub proof fn lemma_engine_errors_are_not_binding_level(result: RenResult)
    ensures
        match Error::of_code(result) {
            None => result == REN_SUCCESS,
            Some(e) => !e.is_binding_level(),
        },
{
}

} // verus!
