use vstd::prelude::*;

verus! {

/// A pointer event as the picker sees it; `P` is a screen position.
#[derive(Clone, Copy, Debug, PartialEq)]
pub enum PointerEvent<P> {
    /// The pointer moved to `position`.
    Motion { position: P },
    /// A button went down at `position`; `left` tells whether it was the
    /// primary button.
    Press { position: P, left: bool },
    /// Anything that neither moves the pointer nor presses a button.
    Other,
}

/// What one frame's events come down to: where the pointer ended up and
/// whether the frame commits.
#[derive(Clone, Copy, Debug, PartialEq)]
pub struct FrameInput<P> {
    pub pointer: P,
    pub pressed: bool,
}

/// The frame input left by `events`, taken in order, when the pointer stood at
/// `pointer` before them. The last event that carries a position decides the
/// pointer; the last press decides, by its button, whether the frame commits.
pub open spec fn folded<P>(events: Seq<PointerEvent<P>>, pointer: P) -> FrameInput<P>
    decreases events.len(),
{
    if events.len() == 0 {
        FrameInput { pointer, pressed: false }
    } else {
        let before = folded(events.drop_last(), pointer);
        match events.last() {
            PointerEvent::Motion { position } => FrameInput { pointer: position, pressed: before.pressed },
            PointerEvent::Press { position, left } => FrameInput { pointer: position, pressed: left },
            PointerEvent::Other => before,
        }
    }
}

/// Reduces the events collected since the last frame to the frame's input.
/// Several motions in one frame count only by the last of them.
pub fn fold_events<P: Copy>(events: &Vec<PointerEvent<P>>, pointer: P) -> (r: FrameInput<P>)
    ensures
        r == folded(events@, pointer),
{
    let mut acc = FrameInput { pointer, pressed: false };
    let mut i: usize = 0;
    while i < events.len()
        invariant
            i <= events@.len(),
            acc == folded(events@.subrange(0, i as int), pointer),
        decreases events@.len() - i,
    {
        assert(events@.subrange(0, i + 1).drop_last() == events@.subrange(0, i as int));
        match events[i] {
            PointerEvent::Motion { position } => {
                acc = FrameInput { pointer: position, pressed: acc.pressed };
            },
            PointerEvent::Press { position, left } => {
                acc = FrameInput { pointer: position, pressed: left };
            },
            PointerEvent::Other => {},
        }
        i = i + 1;
    }
    assert(events@.subrange(0, events@.len() as int) == events@);
    acc
}

} // verus!
