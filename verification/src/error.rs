//! The error type shared by every reader and writer.
use vstd::prelude::*;

verus! {

/// Why a read, a write or a parse failed.
#[derive(Debug, Clone, Copy)]
pub enum PerwError {
    /// Fewer bytes were left than the read asked for.
    NotEnoughDataLeft { attempted_read: usize },
    /// A bounded sink had less room than the write asked for.
    NotEnoughSpaceLeft { attempted_write: usize },
    /// The bytes are not a well formed image.
    InvalidImageFormat { message: &'static str },
}

impl PerwError {
    /// The error of a read of `size` bytes that found fewer.
    pub fn not_enough_data(size: usize) -> (e: Self)
        ensures
            e == (PerwError::NotEnoughDataLeft { attempted_read: size }),
    {
        PerwError::NotEnoughDataLeft { attempted_read: size }
    }

    /// The error of a write of `size` bytes that found less room.
    pub fn not_enough_space(size: usize) -> (e: Self)
        ensures
            e == (PerwError::NotEnoughSpaceLeft { attempted_write: size }),
    {
        PerwError::NotEnoughSpaceLeft { attempted_write: size }
    }

    /// The error of bytes that are not a well formed image.
    pub fn invalid_image_format(message: &'static str) -> (e: Self)
        ensures
            e == (PerwError::InvalidImageFormat { message }),
    {
        PerwError::InvalidImageFormat { message }
    }
}

} // verus!
