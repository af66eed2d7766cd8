//! The three logo resolutions and the encoded image that belongs to each.

use vstd::prelude::*;

verus! {

/// One of the three resolutions in which the logo is available.
#[derive(Debug, Clone, Copy, PartialEq, Eq, Structural)]
pub enum LogoSize {
    Px144,
    Px600,
    Px1024,
}

/// The encoded images, one per resolution.
///
/// The table is fixed once it is built: nothing in the library writes to it.
pub struct Assets {
    px144: Vec<u8>,
    px600: Vec<u8>,
    px1024: Vec<u8>,
}

impl Assets {
    /// The encoded image that belongs to `size`.
    pub closed spec fn bytes_of(self, size: LogoSize) -> Seq<u8> {
        match size {
            LogoSize::Px144 => self.px144@,
            LogoSize::Px600 => self.px600@,
            LogoSize::Px1024 => self.px1024@,
        }
    }

    /// Builds the table from the three encoded images, smallest first.
    pub fn new(px144: Vec<u8>, px600: Vec<u8>, px1024: Vec<u8>) -> (assets: Assets)
        ensures
            assets.bytes_of(LogoSize::Px144) == px144@,
            assets.bytes_of(LogoSize::Px600) == px600@,
            assets.bytes_of(LogoSize::Px1024) == px1024@,
    {
        Assets { px144, px600, px1024 }
    }
}

impl LogoSize {
    /// The text that names each resolution to the user.
    pub open spec fn label_text(self) -> Seq<char> {
        match self {
            LogoSize::Px144 => "144px"@,
            LogoSize::Px600 => "600px"@,
            LogoSize::Px1024 => "1024px"@,
        }
    }

    /// The name of this resolution as the controls show it.
    pub fn label(self) -> (text: &'static str)
        ensures
            text@ == self.label_text(),
    {
        match self {
            LogoSize::Px144 => "144px",
            LogoSize::Px600 => "600px",
            LogoSize::Px1024 => "1024px",
        }
    }

    /// A fresh copy of the encoded image that `assets` holds for this
    /// resolution.
    pub fn bytes(&self, assets: &Assets) -> (bytes: Vec<u8>)
        ensures
            bytes@ == assets.bytes_of(*self),
    {
        match self {
            LogoSize::Px144 => assets.px144.clone(),
            LogoSize::Px600 => assets.px600.clone(),
            LogoSize::Px1024 => assets.px1024.clone(),
        }
    }
}

} // verus!
