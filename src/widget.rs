use vstd::prelude::*;
use crate::coords::Cylindrical;
use crate::pick::PickTag;
use crate::selection::SelectionState;

verus! {

/// The space in which a geometry's positions are given.
#[derive(Clone, Copy, Debug, PartialEq, Eq, Structural)]
pub enum Space {
    Linear,
    Cylindrical,
}

/// One cylindrical axis.
#[derive(Clone, Copy, Debug, PartialEq, Eq, Structural)]
pub enum Axis {
    Angle,
    Radius,
    Height,
}

/// The objects of the picker's scene.
#[derive(Clone, Copy, Debug, PartialEq, Eq, Structural)]
pub enum Widget {
    /// A handle that moves along one axis while the other two follow the
    /// hovered coordinate.
    AxisHandle(Axis),
    /// The colour volume, whose every point is a colour.
    ColorVolumeSurface,
    /// The marker drawn at the hovered coordinate.
    CursorMarker,
    /// The swatch that shows the committed colour.
    PreviewChip,
}

impl Widget {
    pub open spec fn spec_tag(self) -> PickTag {
        match self {
            Widget::AxisHandle(Axis::Angle) => PickTag::Hue,
            Widget::AxisHandle(Axis::Radius) => PickTag::Saturation,
            Widget::AxisHandle(Axis::Height) => PickTag::Value,
            Widget::ColorVolumeSurface => PickTag::Volume,
            Widget::CursorMarker => PickTag::Background,
            Widget::PreviewChip => PickTag::Background,
        }
    }

    /// The tag that this widget writes into the pick buffer; markers that must
    /// never be picked carry the background tag.
    pub fn tag(&self) -> (t: PickTag)
        ensures
            t == self.spec_tag(),
    {
        match self {
            Widget::AxisHandle(Axis::Angle) => PickTag::Hue,
            Widget::AxisHandle(Axis::Radius) => PickTag::Saturation,
            Widget::AxisHandle(Axis::Height) => PickTag::Value,
            Widget::ColorVolumeSurface => PickTag::Volume,
            Widget::CursorMarker => PickTag::Background,
            Widget::PreviewChip => PickTag::Background,
        }
    }

    /// The coordinate at which the widget stands, or whose colour it shows,
    /// in `state`; the volume stands nowhere in particular.
    pub open spec fn spec_anchor<T>(self, state: SelectionState<T>) -> Option<Cylindrical<T>> {
        match self {
            Widget::AxisHandle(_) => Some(state.current),
            Widget::ColorVolumeSurface => None,
            Widget::CursorMarker => Some(state.current),
            Widget::PreviewChip => Some(state.saved),
        }
    }

    pub fn anchor<T: Copy>(&self, state: &SelectionState<T>) -> (r: Option<Cylindrical<T>>)
        ensures
            r == self.spec_anchor(*state),
    {
        match self {
            Widget::AxisHandle(_) => Some(state.current),
            Widget::ColorVolumeSurface => None,
            Widget::CursorMarker => Some(state.current),
            Widget::PreviewChip => Some(state.saved),
        }
    }
}

/// The widgets of the visible pass, in drawing order.
pub open spec fn visible_widgets() -> Seq<Widget> {
    seq![
        Widget::ColorVolumeSurface,
        Widget::CursorMarker,
        Widget::AxisHandle(Axis::Angle),
        Widget::AxisHandle(Axis::Radius),
        Widget::AxisHandle(Axis::Height),
        Widget::PreviewChip,
    ]
}

/// Whether a widget is drawn into the pick buffer: only those with a tag of
/// their own are, so that markers never hide a target.
pub open spec fn is_pickable(w: Widget) -> bool {
    w.spec_tag() != PickTag::Background
}

/// The widgets of the pick pass: those of the visible pass that can be picked,
/// in the same order.
pub open spec fn pick_widgets() -> Seq<Widget> {
    visible_widgets().filter(|w: Widget| is_pickable(w))
}

pub fn visible_pass() -> (r: Vec<Widget>)
    ensures
        r@ == visible_widgets(),
{
    let r = vec![
        Widget::ColorVolumeSurface,
        Widget::CursorMarker,
        Widget::AxisHandle(Axis::Angle),
        Widget::AxisHandle(Axis::Radius),
        Widget::AxisHandle(Axis::Height),
        Widget::PreviewChip,
    ];
    assert(r@ == visible_widgets());
    r
}

/// The widgets of `widgets` that go into the pick pass, in their order.
pub fn pick_pass(widgets: &Vec<Widget>) -> (r: Vec<Widget>)
    ensures
        r@ == widgets@.filter(|w: Widget| is_pickable(w)),
{
    let mut r: Vec<Widget> = Vec::new();
    let mut i: usize = 0;
    while i < widgets.len()
        invariant
            i <= widgets@.len(),
            r@ == widgets@.subrange(0, i as int).filter(|w: Widget| is_pickable(w)),
        decreases widgets@.len() - i,
    {
        let w = widgets[i];
        proof {
            let pre = widgets@.subrange(0, i + 1);
            assert(pre.drop_last() == widgets@.subrange(0, i as int));
            assert(pre.last() == w);
            reveal(Seq::filter);
        }
        if w.tag() != PickTag::Background {
            r.push(w);
        }
        i = i + 1;
    }
    assert(widgets@.subrange(0, widgets@.len() as int) == widgets@);
    r
}

/// The pick pass draws the volume and the three axis handles, in that order.
pub proof fn lemma_pick_widgets()
    ensures
        pick_widgets() == seq![
            Widget::ColorVolumeSurface,
            Widget::AxisHandle(Axis::Angle),
            Widget::AxisHandle(Axis::Radius),
            Widget::AxisHandle(Axis::Height),
        ],
{
    reveal_with_fuel(Seq::filter, 7);
    assert(pick_widgets() =~= seq![
        Widget::ColorVolumeSurface,
        Widget::AxisHandle(Axis::Angle),
        Widget::AxisHandle(Axis::Radius),
        Widget::AxisHandle(Axis::Height),
    ]);
}

/// No two widgets of the pick pass share a tag, and none carries the
/// background tag, so every tag read back names one object.
pub proof fn lemma_pick_tags_distinct()
    ensures
        forall|i: int|
            0 <= i < pick_widgets().len() ==> #[trigger] pick_widgets()[i].spec_tag()
                != PickTag::Background,
        forall|i: int, j: int|
            0 <= i < j < pick_widgets().len() ==> #[trigger] pick_widgets()[i].spec_tag()
                != #[trigger] pick_widgets()[j].spec_tag(),
{
    lemma_pick_widgets();
}

} // verus!
