use vstd::prelude::*;
use crate::coords::Cylindrical;
use crate::selection::SelectionState;
use crate::widget::{Axis, Widget};

verus! {

/// Something that describes how it is to be drawn, given a state `T`, as a
/// model `M`.
pub trait Renderable<'a, T, M> {
    fn model(&'a self, state: &T) -> M;
}

/// What a renderer needs to draw one widget: its geometry, which widget it is
/// (and so its pick tag), and the coordinate it stands at or shows.
pub struct WidgetModel<'a, G, T> {
    pub geometry: &'a G,
    pub widget: Widget,
    pub anchor: Option<Cylindrical<T>>,
}

/// The marker drawn at the hovered coordinate, with the geometry `G` it is
/// drawn with.
pub struct Cursor<G> {
    positions: G,
}

impl<G> Cursor<G> {
    /// A cursor drawn with the given cube geometry.
    pub fn cube(positions: G) -> (c: Self)
        ensures
            c.positions() == positions,
    {
        Cursor { positions }
    }

    pub closed spec fn positions(&self) -> G {
        self.positions
    }
}

impl<'a, G, T: Copy> Renderable<'a, SelectionState<T>, WidgetModel<'a, G, T>> for Cursor<G> {
    fn model(&'a self, state: &SelectionState<T>) -> (m: WidgetModel<'a, G, T>)
        ensures
            *m.geometry == self.positions(),
            m.widget == Widget::CursorMarker,
            m.anchor == Some(state.current),
    {
        let widget = Widget::CursorMarker;
        WidgetModel { geometry: &self.positions, widget, anchor: widget.anchor(state) }
    }
}

/// The swatch that shows the committed colour, with the geometry `G` it is
/// drawn with.
pub struct ColorChip<G> {
    positions: G,
}

impl<G> ColorChip<G> {
    /// A chip drawn with the given flat geometry.
    pub fn new(positions: G) -> (c: Self)
        ensures
            c.positions() == positions,
    {
        ColorChip { positions }
    }

    pub closed spec fn positions(&self) -> G {
        self.positions
    }
}

impl<'a, G, T: Copy> Renderable<'a, SelectionState<T>, WidgetModel<'a, G, T>> for ColorChip<G> {
    fn model(&'a self, state: &SelectionState<T>) -> (m: WidgetModel<'a, G, T>)
        ensures
            *m.geometry == self.positions(),
            m.widget == Widget::PreviewChip,
            m.anchor == Some(state.saved),
    {
        let widget = Widget::PreviewChip;
        WidgetModel { geometry: &self.positions, widget, anchor: widget.anchor(state) }
    }
}

/// The colour volume, with the geometry `G` it is drawn with.
pub struct ColorSpace<G> {
    positions: G,
}

impl<G> ColorSpace<G> {
    /// A volume drawn with the given cylinder geometry.
    pub fn cylinder(positions: G) -> (c: Self)
        ensures
            c.positions() == positions,
    {
        ColorSpace { positions }
    }

    pub closed spec fn positions(&self) -> G {
        self.positions
    }
}

impl<'a, G, T: Copy> Renderable<'a, SelectionState<T>, WidgetModel<'a, G, T>> for ColorSpace<G> {
    fn model(&'a self, state: &SelectionState<T>) -> (m: WidgetModel<'a, G, T>)
        ensures
            *m.geometry == self.positions(),
            m.widget == Widget::ColorVolumeSurface,
            m.anchor is None,
    {
        let widget = Widget::ColorVolumeSurface;
        WidgetModel { geometry: &self.positions, widget, anchor: widget.anchor(state) }
    }
}

/// The handle of one axis, with the geometry `G` it is drawn with.
pub struct AxisInput<G> {
    positions: G,
    axis: Axis,
}

impl<G> AxisInput<G> {
    /// A handle for `axis` drawn with the given geometry.
    pub fn new(positions: G, axis: Axis) -> (c: Self)
        ensures
            c.positions() == positions,
            c.axis() == axis,
    {
        AxisInput { positions, axis }
    }

    pub closed spec fn positions(&self) -> G {
        self.positions
    }

    pub closed spec fn axis(&self) -> Axis {
        self.axis
    }
}

impl<'a, G, T: Copy> Renderable<'a, SelectionState<T>, WidgetModel<'a, G, T>> for AxisInput<G> {
    fn model(&'a self, state: &SelectionState<T>) -> (m: WidgetModel<'a, G, T>)
        ensures
            *m.geometry == self.positions(),
            m.widget == Widget::AxisHandle(self.axis()),
            m.anchor == Some(state.current),
    {
        let widget = Widget::AxisHandle(self.axis);
        WidgetModel { geometry: &self.positions, widget, anchor: widget.anchor(state) }
    }
}

} // verus!
