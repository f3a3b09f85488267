use vstd::prelude::*;
use crate::coords::Cylindrical;
use crate::pick::{resolve, resolved, PickSample, PickTag};

verus! {

/// What the picker knows between frames: the coordinate under the pointer
/// (`current`, a hover preview) and the coordinate last committed by a press
/// (`saved`, the selection that consumers observe).
#[derive(Clone, Copy, Debug, PartialEq)]
pub struct SelectionState<T> {
    pub current: Cylindrical<T>,
    pub saved: Cylindrical<T>,
}

impl<T: Copy> SelectionState<T> {
    /// The state after one frame that read back `sample` and in which the
    /// pointer button was pressed exactly when `pressed` holds.
    pub open spec fn after(self, sample: PickSample<T>, pressed: bool) -> SelectionState<T> {
        let current = resolved(sample, self.current, self.saved);
        SelectionState { current, saved: if pressed { current } else { self.saved } }
    }

    /// A state that hovers over and has committed `initial`.
    pub fn new(initial: Cylindrical<T>) -> (s: Self)
        ensures
            s.current == initial,
            s.saved == initial,
    {
        SelectionState { current: initial, saved: initial }
    }

    /// Applies one frame's pick to the state. The hovered coordinate is
    /// resolved from the sample; a press commits it. Returns the committed
    /// coordinate when the frame held a press.
    pub fn update(&mut self, sample: &PickSample<T>, pressed: bool) -> (committed: Option<
        Cylindrical<T>,
    >)
        ensures
            *final(self) == old(self).after(*sample, pressed),
            committed == (if pressed { Some(final(self).saved) } else { None }),
    {
        let current = resolve(sample, &self.current, &self.saved);
        self.current = current;
        if pressed {
            self.saved = current;
            Some(current)
        } else {
            None
        }
    }
}

/// A pick that hits nothing brings the hovered coordinate back to the committed
/// one, whatever the sample's position.
pub proof fn lemma_miss_restores_saved<T: Copy>(
    s: SelectionState<T>,
    sample: PickSample<T>,
    pressed: bool,
)
    requires
        sample.tag == PickTag::Background,
    ensures
        s.after(sample, pressed).current == s.saved,
{
}

/// A press commits the coordinate that the frame resolved; without a press the
/// committed coordinate stays as it was.
pub proof fn lemma_press_commits<T: Copy>(s: SelectionState<T>, sample: PickSample<T>)
    ensures
        s.after(sample, true).saved == s.after(sample, true).current,
        s.after(sample, false).saved == s.saved,
{
}

/// A hit on the volume hovers over exactly the sampled coordinate, whatever
/// came before.
pub proof fn lemma_volume_takes_sample<T: Copy>(
    s: SelectionState<T>,
    sample: PickSample<T>,
    pressed: bool,
)
    requires
        sample.tag == PickTag::Volume,
    ensures
        s.after(sample, pressed).current == sample.coordinate,
{
}

/// A hit on an axis handle changes only that handle's component.
pub proof fn lemma_handle_edits_one_axis<T: Copy>(
    s: SelectionState<T>,
    sample: PickSample<T>,
    pressed: bool,
)
    ensures
        sample.tag == PickTag::Hue ==> s.after(sample, pressed).current == (Cylindrical {
            angle: sample.coordinate.angle,
            radius: s.current.radius,
            height: s.current.height,
        }),
        sample.tag == PickTag::Saturation ==> s.after(sample, pressed).current == (Cylindrical {
            angle: s.current.angle,
            radius: sample.coordinate.radius,
            height: s.current.height,
        }),
        sample.tag == PickTag::Value ==> s.after(sample, pressed).current == (Cylindrical {
            angle: s.current.angle,
            radius: s.current.radius,
            height: sample.coordinate.height,
        }),
{
}

/// Without a press, a second frame with the same sample changes nothing: the
/// update keeps no state besides the two coordinates.
pub proof fn lemma_update_idempotent<T: Copy>(s: SelectionState<T>, sample: PickSample<T>)
    ensures
        s.after(sample, false).after(sample, false) == s.after(sample, false),
{
}

} // verus!
