//! Images.
use crate::error::Error;
use crate::format::Format;
use vstd::prelude::*;

verus! {

/// An image: its format, its size in pixels, and its pixels row by row.
#[derive(Debug, Clone, Copy, PartialEq, Eq, Hash)]
pub struct ImageDesc<'a> {
    pub format: Format,
    pub width: u32,
    pub height: u32,
    pub data: &'a [u8],
}

/// An image as the engine reads it. The engine reads `required_len` bytes of
/// `data`, which holds at least as many.
#[derive(Debug, Clone, Copy, PartialEq, Eq, Hash)]
pub struct RenImageDesc<'a> {
    pub format: Format,
    pub width: u32,
    pub height: u32,
    pub data: &'a [u8],
}

impl<'a> ImageDesc<'a> {
    /// The number of bytes that the engine reads: one pixel of the format for
    /// each pixel of the image.
    pub open spec fn required_len(self) -> nat {
        (self.width * self.height * self.format.spec_size()) as nat
    }

    /// Whether the buffer holds every byte that the engine reads.
    pub open spec fn is_complete(self) -> bool {
        self.data@.len() >= self.required_len()
    }

    /// The image as the engine reads it.
    pub open spec fn flat(self) -> RenImageDesc<'a> {
        RenImageDesc {
            format: self.format,
            width: self.width,
            height: self.height,
            data: self.data,
        }
    }

    /// Tells whether the buffer holds every byte that the engine reads.
    pub fn check(&self) -> (complete: bool)
        ensures
            complete == self.is_complete(),
    {
        let size = self.format.size();
        assert(self.width * self.height <= 0xFFFF_FFFF * 0xFFFF_FFFF) by (nonlinear_arith)
            requires
                0 <= self.width <= 0xFFFF_FFFF,
                0 <= self.height <= 0xFFFF_FFFF,
        ;
        let pixels: u64 = (self.width as u64) * (self.height as u64);
        assert(pixels * size <= 0xFFFF_FFFF_FFFF_FFFF * 16) by (nonlinear_arith)
            requires
                0 <= pixels <= 0xFFFF_FFFF_FFFF_FFFF,
                0 <= size <= 16,
        ;
        let required: u128 = (pixels as u128) * (size as u128);
        self.data.len() as u128 >= required
    }

    /// Lays the image out for the engine. Fails with `BufferTooSmall` exactly
    /// when the buffer holds fewer bytes than the engine reads.
    pub fn flatten(&self) -> (r: Result<RenImageDesc<'a>, Error>)
        ensures
            r == (if self.is_complete() {
                Ok::<RenImageDesc<'a>, Error>(self.flat())
            } else {
                Err(Error::BufferTooSmall)
            }),
    {
        if self.check() {
            Ok(
                RenImageDesc {
                    format: self.format,
                    width: self.width,
                    height: self.height,
                    data: self.data,
                },
            )
        } else {
            Err(Error::BufferTooSmall)
        }
    }
}

} // verus!
