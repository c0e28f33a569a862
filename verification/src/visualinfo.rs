//! The depth and class a visual is selected by.

use vstd::prelude::*;

verus! {

/// The visual classes of the X protocol, in protocol order.
#[derive(Clone, Copy, Debug, PartialEq, Eq, Structural)]
pub enum VisualClass {
    StaticGray,
    GrayScale,
    StaticColor,
    PseudoColor,
    TrueColor,
    DirectColor,
}

impl VisualClass {
    /// The protocol number of a class.
    pub open spec fn spec_code(self) -> int {
        match self {
            VisualClass::StaticGray => 0,
            VisualClass::GrayScale => 1,
            VisualClass::StaticColor => 2,
            VisualClass::PseudoColor => 3,
            VisualClass::TrueColor => 4,
            VisualClass::DirectColor => 5,
        }
    }

    /// The class a protocol number stands for, if any.
    pub open spec fn spec_from_code(code: int) -> Option<VisualClass> {
        if code == 0 {
            Some(VisualClass::StaticGray)
        } else if code == 1 {
            Some(VisualClass::GrayScale)
        } else if code == 2 {
            Some(VisualClass::StaticColor)
        } else if code == 3 {
            Some(VisualClass::PseudoColor)
        } else if code == 4 {
            Some(VisualClass::TrueColor)
        } else if code == 5 {
            Some(VisualClass::DirectColor)
        } else {
            None
        }
    }

    /// The number Xlib expects for this class.
    pub fn code(&self) -> (code: i32)
        ensures
            code == self.spec_code(),
    {
        match self {
            VisualClass::StaticGray => 0,
            VisualClass::GrayScale => 1,
            VisualClass::StaticColor => 2,
            VisualClass::PseudoColor => 3,
            VisualClass::TrueColor => 4,
            VisualClass::DirectColor => 5,
        }
    }

    /// Decodes the class number reported for a visual.
    pub fn from_code(code: i32) -> (class: Option<VisualClass>)
        ensures
            class == Self::spec_from_code(code as int),
    {
        match code {
            0 => Some(VisualClass::StaticGray),
            1 => Some(VisualClass::GrayScale),
            2 => Some(VisualClass::StaticColor),
            3 => Some(VisualClass::PseudoColor),
            4 => Some(VisualClass::TrueColor),
            5 => Some(VisualClass::DirectColor),
            _ => None,
        }
    }

    /// Decoding undoes encoding, and only the six protocol numbers decode.
    pub proof fn lemma_code_round_trip(class: VisualClass, code: int)
        ensures
            Self::spec_from_code(class.spec_code()) == Some(class),
            0 <= class.spec_code() <= 5,
            Self::spec_from_code(code) is Some <==> 0 <= code <= 5,
            Self::spec_from_code(code) matches Some(c) ==> c.spec_code() == code,
    {
    }
}

/// A requested visual: bit depth and class.
#[derive(Clone, Copy, Debug, PartialEq, Eq, Structural)]
pub struct VisualInfo {
    pub depth: i32,
    pub class: VisualClass,
}

impl Default for VisualInfo {
    /// Thirty-two bits of true color.
    fn default() -> (info: Self)
        ensures
            info == (VisualInfo { depth: 32, class: VisualClass::TrueColor }),
    {
        VisualInfo { depth: 32, class: VisualClass::TrueColor }
    }
}

impl VisualInfo {
    /// Replaces the depth.
    pub fn depth(self, depth: i32) -> (info: Self)
        ensures
            info == (VisualInfo { depth, class: self.class }),
    {
        let mut info = self;
        info.depth = depth;
        info
    }

    /// Replaces the class.
    pub fn class(self, class: VisualClass) -> (info: Self)
        ensures
            info == (VisualInfo { depth: self.depth, class }),
    {
        let mut info = self;
        info.class = class;
        info
    }
}

} // verus!
