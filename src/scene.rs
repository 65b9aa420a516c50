use vstd::prelude::*;

verus! {

/// Colour of a widget, one byte per channel (255 is full intensity).
#[derive(Clone, Copy, Debug, PartialEq, Eq, Structural)]
pub struct Rgba {
    pub r: u8,
    pub g: u8,
    pub b: u8,
    pub a: u8,
}

impl Rgba {
    /// Opaque red.
    pub fn red() -> (c: Rgba)
        ensures
            c == (Rgba { r: 255, g: 0, b: 0, a: 255 }),
    {
        Rgba { r: 255, g: 0, b: 0, a: 255 }
    }
}

} // verus!

verus! {

/// Where a widget is drawn: position, stacking depth and colour.
#[derive(Clone, Copy, Debug, PartialEq, Eq, Structural)]
pub struct Placement {
    pub x: i32,
    pub y: i32,
    pub z: i32,
    pub color: Rgba,
}

/// The placement a widget gets when the caller gives none.
pub open spec fn standard_placement() -> Placement {
    Placement { x: 10, y: 100, z: 1, color: Rgba { r: 255, g: 0, b: 0, a: 255 } }
}

impl Placement {
    pub fn standard() -> (p: Placement)
        ensures
            p == standard_placement(),
    {
        Placement { x: 10, y: 100, z: 1, color: Rgba::red() }
    }
}

/// What a widget shows.
#[derive(Clone, Debug, PartialEq, Eq)]
pub enum WidgetKind {
    Text { text: String },
}

/// One drawable element of a slide.
#[derive(Clone, Debug, PartialEq, Eq)]
pub struct Widget {
    pub x: i32,
    pub y: i32,
    pub z: i32,
    /// Identifier of the slide that owns the widget.
    pub id: u64,
    pub color: Rgba,
    pub widget: WidgetKind,
}

/// The text widget that `Widget::text` builds.
pub open spec fn text_widget(slide_id: u64, text: String, p: Placement) -> Widget {
    Widget { x: p.x, y: p.y, z: p.z, id: slide_id, color: p.color, widget: WidgetKind::Text { text } }
}

/// Whether `w` is a text widget showing `t`.
pub open spec fn shows_text(w: Widget, t: Seq<char>) -> bool {
    match w.widget {
        WidgetKind::Text { text } => text@ == t,
    }
}

impl Widget {
    pub fn text(slide_id: u64, text: String, p: Placement) -> (w: Widget)
        ensures
            w == text_widget(slide_id, text, p),
    {
        Widget { x: p.x, y: p.y, z: p.z, id: slide_id, color: p.color, widget: WidgetKind::Text { text } }
    }
}

/// An ordered sequence of widgets; insertion order is the base draw order.
#[derive(Debug)]
pub struct Slide {
    pub widgets: Vec<Widget>,
}

} // verus!
