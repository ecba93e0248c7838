//! Thumbnail size requests.
//!
//! A [`ThumbSize`] names the bound that the caller puts on the generated
//! thumbnail; the shell may return a smaller image that keeps the aspect
//! ratio, never a larger one.

use vstd::prelude::*;

verus! {

/// A width and height in pixels, as handed to the shell's image factory.
#[derive(Clone, Copy, Debug, PartialEq, Eq, Structural)]
pub struct Extent {
    pub cx: i32,
    pub cy: i32,
}

/// Requested upper bound on the thumbnail's dimensions.
#[derive(Clone, Copy, Debug, PartialEq, Eq, Structural)]
pub enum ThumbSize {
    /// 16x16 pixels
    S16,
    /// 32x32 pixels
    S32,
    /// 48x48 pixels
    S48,
    /// 96x96 pixels
    S96,
    /// 256x256 pixels
    S256,
    /// 768x768 pixels
    S768,
    /// 1280x1280 pixels
    S1280,
    /// 1920x1920 pixels
    S1920,
    /// 2560x2560 pixels
    S2560,
    /// Custom thumbnail size as (width, height) in pixels
    Custom(i32, i32),
}

impl ThumbSize {
    /// The extent that this request stands for.
    pub open spec fn extent_spec(self) -> Extent {
        match self {
            ThumbSize::S16 => Extent { cx: 16, cy: 16 },
            ThumbSize::S32 => Extent { cx: 32, cy: 32 },
            ThumbSize::S48 => Extent { cx: 48, cy: 48 },
            ThumbSize::S96 => Extent { cx: 96, cy: 96 },
            ThumbSize::S256 => Extent { cx: 256, cy: 256 },
            ThumbSize::S768 => Extent { cx: 768, cy: 768 },
            ThumbSize::S1280 => Extent { cx: 1280, cy: 1280 },
            ThumbSize::S1920 => Extent { cx: 1920, cy: 1920 },
            ThumbSize::S2560 => Extent { cx: 2560, cy: 2560 },
            ThumbSize::Custom(w, h) => Extent { cx: w, cy: h },
        }
    }

    pub fn to_size(self) -> (r: Extent)
        ensures
            r == self.extent_spec(),
    {
        match self {
            Self::S16 => Extent { cx: 16, cy: 16 },
            Self::S32 => Extent { cx: 32, cy: 32 },
            Self::S48 => Extent { cx: 48, cy: 48 },
            Self::S96 => Extent { cx: 96, cy: 96 },
            Self::S256 => Extent { cx: 256, cy: 256 },
            Self::S768 => Extent { cx: 768, cy: 768 },
            Self::S1280 => Extent { cx: 1280, cy: 1280 },
            Self::S1920 => Extent { cx: 1920, cy: 1920 },
            Self::S2560 => Extent { cx: 2560, cy: 2560 },
            Self::Custom(w, h) => Extent { cx: w, cy: h },
        }
    }
}

} // verus!
