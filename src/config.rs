use vstd::prelude::*;
use crate::error::NoiseError;

verus! {

/// A validated request: the grid to sample, the chunk size that sets the
/// noise frequency, and how many independent noise fields to produce.
#[derive(Debug, Clone, Copy, PartialEq, Eq, Structural)]
pub struct NoiseConfig {
    pub width: u32,
    pub height: u32,
    pub chunk_size: u32,
    pub fields: u32,
}

impl NoiseConfig {
    /// A configuration is usable when nothing that divides or sizes is zero.
    pub open spec fn wf(self) -> bool {
        self.width > 0 && self.height > 0 && self.chunk_size > 0
    }

    /// Checks the request. Raster output produces `images` fields; numeric
    /// output always produces a single one.
    pub fn new(generate_image: bool, width: u32, height: u32, chunk_size: u32, images: u32) -> (r:
        Result<NoiseConfig, NoiseError>)
        ensures
            r is Err <==> (width == 0 || height == 0 || chunk_size == 0),
            r is Err ==> r == Err::<NoiseConfig, NoiseError>(NoiseError::ConfigurationError),
            r matches Ok(c) ==> c.wf() && c.width == width && c.height == height && c.chunk_size
                == chunk_size && c.fields == (if generate_image {
                images
            } else {
                1u32
            }),
    {
        if width == 0 || height == 0 || chunk_size == 0 {
            return Err(NoiseError::ConfigurationError);
        }
        let fields: u32 = if generate_image {
            images
        } else {
            1
        };
        Ok(NoiseConfig { width, height, chunk_size, fields })
    }
}

} // verus!
