use vstd::prelude::*;
use crate::coords::Cylindrical;

verus! {

/// The identity of the object that covers a pixel of the pick buffer.
#[derive(Clone, Copy, Debug, PartialEq, Eq, Structural)]
pub enum PickTag {
    /// Nothing interactive: the cleared background, or an unknown code.
    Background,
    /// The handle that edits the angle (hue) alone.
    Hue,
    /// The handle that edits the radius (saturation) alone.
    Saturation,
    /// The handle that edits the height (value) alone.
    Value,
    /// The colour volume itself: all three components at once.
    Volume,
}

/// The pick-buffer code of the hue handle.
pub const HUE_CODE: u8 = 1;
/// The pick-buffer code of the saturation handle.
pub const SATURATION_CODE: u8 = 2;
/// The pick-buffer code of the value handle.
pub const VALUE_CODE: u8 = 3;
/// The pick-buffer code of the colour volume. Every other code, 0 among them,
/// means that nothing was hit.
pub const VOLUME_CODE: u8 = 7;

impl PickTag {
    /// The tag that a code read back from the pick buffer stands for. Codes
    /// outside the known set mean that nothing was hit.
    pub open spec fn spec_from_code(code: u8) -> PickTag {
        if code == HUE_CODE {
            PickTag::Hue
        } else if code == SATURATION_CODE {
            PickTag::Saturation
        } else if code == VALUE_CODE {
            PickTag::Value
        } else if code == VOLUME_CODE {
            PickTag::Volume
        } else {
            PickTag::Background
        }
    }

    /// The code written into the pick buffer for this tag.
    pub open spec fn spec_code(self) -> u8 {
        match self {
            PickTag::Background => 0,
            PickTag::Hue => HUE_CODE,
            PickTag::Saturation => SATURATION_CODE,
            PickTag::Value => VALUE_CODE,
            PickTag::Volume => VOLUME_CODE,
        }
    }

    pub fn from_code(code: u8) -> (t: PickTag)
        ensures
            t == PickTag::spec_from_code(code),
    {
        if code == HUE_CODE {
            PickTag::Hue
        } else if code == SATURATION_CODE {
            PickTag::Saturation
        } else if code == VALUE_CODE {
            PickTag::Value
        } else if code == VOLUME_CODE {
            PickTag::Volume
        } else {
            PickTag::Background
        }
    }

    pub fn code(&self) -> (c: u8)
        ensures
            c == self.spec_code(),
    {
        match self {
            PickTag::Background => 0,
            PickTag::Hue => HUE_CODE,
            PickTag::Saturation => SATURATION_CODE,
            PickTag::Value => VALUE_CODE,
            PickTag::Volume => VOLUME_CODE,
        }
    }
}

/// Every tag survives being written into the pick buffer and read back.
pub proof fn lemma_code_round_trip(t: PickTag)
    ensures
        PickTag::spec_from_code(t.spec_code()) == t,
{
}

/// The single pixel read back from the pick buffer, with its position already
/// in cylindrical form.
#[derive(Clone, Copy, Debug, PartialEq)]
pub struct PickSample<T> {
    pub coordinate: Cylindrical<T>,
    pub tag: PickTag,
}

/// The coordinate that a pick resolves to. A handle replaces only its own
/// component of the previous coordinate, the volume replaces all three, and a
/// miss falls back to the last committed coordinate.
pub open spec fn resolved<T>(
    sample: PickSample<T>,
    prev: Cylindrical<T>,
    saved: Cylindrical<T>,
) -> Cylindrical<T> {
    let s = sample.coordinate;
    match sample.tag {
        PickTag::Hue => Cylindrical { angle: s.angle, ..prev },
        PickTag::Saturation => Cylindrical { radius: s.radius, ..prev },
        PickTag::Value => Cylindrical { height: s.height, ..prev },
        PickTag::Volume => s,
        PickTag::Background => saved,
    }
}

/// Resolves a pick against the previous and the committed coordinate.
pub fn resolve<T: Copy>(sample: &PickSample<T>, prev: &Cylindrical<T>, saved: &Cylindrical<T>) -> (r:
    Cylindrical<T>)
    ensures
        r == resolved(*sample, *prev, *saved),
{
    let s = sample.coordinate;
    match sample.tag {
        PickTag::Hue => Cylindrical { angle: s.angle, radius: prev.radius, height: prev.height },
        PickTag::Saturation => Cylindrical { angle: prev.angle, radius: s.radius, height: prev.height },
        PickTag::Value => Cylindrical { angle: prev.angle, radius: prev.radius, height: s.height },
        PickTag::Volume => s,
        PickTag::Background => *saved,
    }
}

} // verus!
