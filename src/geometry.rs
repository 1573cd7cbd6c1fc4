//! Placement of the slider's rail, handle and tick marks.
//!
//! Every length is in layout units; a pixel is `UNITS_PER_PIXEL` of them.
use vstd::prelude::*;
use crate::normal::{Normal, scaled};
use crate::speed::MarkWeight;

verus! {

/// Layout units in one pixel.
pub const UNITS_PER_PIXEL: i64 = 64;

/// Height of the row of text marks above the rail.
pub const DEFAULT_TEXT_MARKER_HEIGHT: i64 = 18 * UNITS_PER_PIXEL;

/// Thickness of the rail.
pub const DEFAULT_RAIL_HEIGHT: i64 = 8 * UNITS_PER_PIXEL;

/// Width of the handle.
pub const DEFAULT_HANDLE_WIDTH: i64 = 24 * UNITS_PER_PIXEL;

/// Height of the handle.
pub const DEFAULT_HANDLE_HEIGHT: i64 = 14 * UNITS_PER_PIXEL;

/// Gap between the bottom of the rail and the tip of the handle.
pub const RAIL_HANDLE_MARGIN: i64 = 3 * UNITS_PER_PIXEL;

/// Largest magnitude of a coordinate or length handed to the layout code.
pub const LAYOUT_LIMIT: i64 = 0x8000_0000;

/// `v` lies in `[-LAYOUT_LIMIT, LAYOUT_LIMIT]`.
pub open spec fn in_layout(v: int) -> bool {
    -LAYOUT_LIMIT <= v <= LAYOUT_LIMIT
}

/// A point.
#[derive(Debug, Clone, Copy, PartialEq, Eq, Structural)]
pub struct Point {
    pub x: i64,
    pub y: i64,
}

/// A width and a height.
#[derive(Debug, Clone, Copy, PartialEq, Eq, Structural)]
pub struct Size {
    pub width: i64,
    pub height: i64,
}

/// An axis-aligned rectangle given by its top-left corner and its size.
#[derive(Debug, Clone, Copy, PartialEq, Eq, Structural)]
pub struct Rectangle {
    pub x: i64,
    pub y: i64,
    pub width: i64,
    pub height: i64,
}

impl Point {
    pub open spec fn in_layout(self) -> bool {
        in_layout(self.x as int) && in_layout(self.y as int)
    }
}

impl Size {
    pub open spec fn in_layout(self) -> bool {
        in_layout(self.width as int) && in_layout(self.height as int)
    }

    /// The default size of the slider's handle.
    pub fn default_handle() -> (r: Size)
        ensures
            r.width == DEFAULT_HANDLE_WIDTH,
            r.height == DEFAULT_HANDLE_HEIGHT,
    {
        Size { width: DEFAULT_HANDLE_WIDTH, height: DEFAULT_HANDLE_HEIGHT }
    }
}

impl Rectangle {
    pub open spec fn in_layout(self) -> bool {
        in_layout(self.x as int) && in_layout(self.y as int) && in_layout(self.width as int)
            && in_layout(self.height as int)
    }

    /// Whether `p` lies in the rectangle, edges included.
    pub open spec fn spec_contains(self, p: Point) -> bool {
        self.x <= p.x <= self.x + self.width && self.y <= p.y <= self.y + self.height
    }

    /// Whether `p` lies in the rectangle, edges included.
    pub fn contains(&self, p: Point) -> (r: bool)
        ensures
            r == self.spec_contains(p),
    {
        let right: i128 = self.x as i128 + self.width as i128;
        let bottom: i128 = self.y as i128 + self.height as i128;
        self.x <= p.x && p.x as i128 <= right && self.y <= p.y && p.y as i128 <= bottom
    }

    pub open spec fn size_spec(self) -> Size {
        Size { width: self.width, height: self.height }
    }

    /// The rectangle's size.
    pub fn size(&self) -> (r: Size)
        ensures
            r == self.size_spec(),
    {
        Size { width: self.width, height: self.height }
    }
}

/// The cursor `cursor`, where it is known and lies over `bounds`.
pub fn position_over(cursor: Option<Point>, bounds: Rectangle) -> (r: Option<Point>)
    ensures
        r == (match cursor {
            Some(p) => if bounds.spec_contains(p) {
                Some(p)
            } else {
                None
            },
            None => None,
        }),
{
    match cursor {
        Some(p) => if bounds.contains(p) {
            Some(p)
        } else {
            None
        },
        None => None,
    }
}

/// `v / 2`, rounded down.
fn half(v: i64) -> (r: i64)
    requires
        in_layout(v as int),
    ensures
        r as int == v as int / 2,
{
    if v >= 0 {
        v / 2
    } else {
        -((-v + 1) / 2)
    }
}

/// Left edge of the rail within the widget.
pub open spec fn rail_x(handle: Size) -> int {
    handle.width as int / 2
}

/// Length of the rail.
pub open spec fn rail_width(size: Size, handle: Size) -> int {
    size.width - handle.width
}

/// Horizontal offset of `value` along the rail, within the widget.
pub open spec fn value_x(size: Size, handle: Size, value: Normal) -> int {
    rail_x(handle) + scaled(value@, rail_width(size, handle))
}

/// The rail within a widget of size `size`: it starts half a handle in from
/// the left, below the text marks, and is a handle shorter than the widget.
pub fn get_frame_rail_bounds(size: Size, handle_size: Size, text_mark_height: i64, rail_height: i64) -> (r: Rectangle)
    requires
        size.in_layout(),
        handle_size.in_layout(),
        in_layout(text_mark_height as int),
        in_layout(rail_height as int),
    ensures
        r.x == rail_x(handle_size),
        r.y == text_mark_height,
        r.width == rail_width(size, handle_size),
        r.height == rail_height,
{
    Rectangle {
        x: half(handle_size.width),
        y: text_mark_height,
        width: size.width - handle_size.width,
        height: rail_height,
    }
}

/// The rail together with the text marks above it, within `bounds`.
pub open spec fn text_and_rail_bounds(bounds: Rectangle, handle_size: Size, text_mark_height: int, rail_height: int) -> Rectangle {
    Rectangle {
        x: (bounds.x + rail_x(handle_size)) as i64,
        y: bounds.y,
        width: rail_width(bounds.size_spec(), handle_size) as i64,
        height: (rail_height + text_mark_height) as i64,
    }
}

/// The box round the handle within `bounds`.
pub open spec fn handle_bounds(bounds: Rectangle, value: Normal, handle_size: Size, text_mark_height: int, rail_height: int) -> Rectangle {
    Rectangle {
        x: (bounds.x + value_x(bounds.size_spec(), handle_size, value) - handle_size.width / 2) as i64,
        y: (bounds.y + text_mark_height + rail_height + RAIL_HANDLE_MARGIN) as i64,
        width: handle_size.width,
        height: handle_size.height,
    }
}

/// The rail together with the text marks above it, within `bounds`.
pub fn get_text_and_rail_bounds(bounds: Rectangle, handle_size: Size, text_mark_height: i64, rail_height: i64) -> (r: Rectangle)
    requires
        bounds.in_layout(),
        handle_size.in_layout(),
        in_layout(text_mark_height as int),
        in_layout(rail_height as int),
    ensures
        r == text_and_rail_bounds(bounds, handle_size, text_mark_height as int, rail_height as int),
        r.x == bounds.x + rail_x(handle_size),
        r.width == rail_width(bounds.size_spec(), handle_size),
        r.height == rail_height + text_mark_height,
{
    let frame = get_frame_rail_bounds(bounds.size(), handle_size, text_mark_height, rail_height);
    Rectangle {
        x: bounds.x + frame.x,
        y: bounds.y,
        width: frame.width,
        height: frame.height + text_mark_height,
    }
}

/// Where the tip of the handle sits within the widget: over `value` along
/// the rail, a margin below it.
pub fn get_handle_position(size: Size, value: Normal, handle_size: Size, text_mark_height: i64, rail_height: i64) -> (r: Point)
    requires
        size.in_layout(),
        handle_size.in_layout(),
        in_layout(text_mark_height as int),
        in_layout(rail_height as int),
    ensures
        r.x == value_x(size, handle_size, value),
        r.y == text_mark_height + rail_height + RAIL_HANDLE_MARGIN,
        -3 * LAYOUT_LIMIT <= r.x <= 3 * LAYOUT_LIMIT,
        -3 * LAYOUT_LIMIT <= r.y <= 3 * LAYOUT_LIMIT,
{
    let rail = get_frame_rail_bounds(size, handle_size, text_mark_height, rail_height);
    let _units: u32 = value.as_units();
    let offset: i64 = value.scale(rail.width);
    proof {
        lemma_scaled_within(value, rail.width as int);
    }
    Point { x: rail.x + offset, y: rail.y + rail.height + RAIL_HANDLE_MARGIN }
}

/// A normal's share of `w` lies between 0 and `w`.
pub proof fn lemma_scaled_within(value: Normal, w: int)
    requires
        0 <= value@ <= crate::normal::NORMAL_ONE,
    ensures
        0 <= w ==> 0 <= scaled(value@, w) <= w,
        w < 0 ==> w <= scaled(value@, w) <= 0,
{
    let one: int = crate::normal::NORMAL_ONE as int;
    let v: int = value@;
    if 0 <= w {
        assert(0 <= v * w <= one * w) by (nonlinear_arith)
            requires 0 <= v <= one, 0 <= w;
        assert(0 <= (v * w) / one <= (one * w) / one) by (nonlinear_arith)
            requires 0 <= v * w <= one * w, one > 0;
        assert((one * w) / one == w) by (nonlinear_arith)
            requires one > 0;
    } else {
        assert(one * w <= v * w <= 0) by (nonlinear_arith)
            requires 0 <= v <= one, w < 0;
        assert((one * w) / one <= (v * w) / one <= 0) by (nonlinear_arith)
            requires one * w <= v * w <= 0, one > 0;
        assert((one * w) / one == w) by (nonlinear_arith)
            requires one > 0;
    }
}

/// The area the handle covers within `bounds`, as a box round its triangle.
pub fn get_handle_bounds(bounds: Rectangle, value: Normal, handle_size: Size, text_mark_height: i64, rail_height: i64) -> (r: Rectangle)
    requires
        bounds.in_layout(),
        handle_size.in_layout(),
        in_layout(text_mark_height as int),
        in_layout(rail_height as int),
    ensures
        r == handle_bounds(bounds, value, handle_size, text_mark_height as int, rail_height as int),
        r.x == bounds.x + value_x(bounds.size_spec(), handle_size, value) - handle_size.width / 2,
        r.y == bounds.y + text_mark_height + rail_height + RAIL_HANDLE_MARGIN,
{
    let position = get_handle_position(bounds.size(), value, handle_size, text_mark_height, rail_height);
    Rectangle {
        x: bounds.x + position.x - half(handle_size.width),
        y: bounds.y + position.y,
        width: handle_size.width,
        height: handle_size.height,
    }
}

/// The corners of the handle, an upward-pointing triangle whose tip is at
/// `tip`: bottom right, bottom left, tip.
pub fn handle_triangle(tip: Point, handle_size: Size) -> (r: [Point; 3])
    requires
        -4 * LAYOUT_LIMIT <= tip.x <= 4 * LAYOUT_LIMIT,
        -4 * LAYOUT_LIMIT <= tip.y <= 4 * LAYOUT_LIMIT,
        handle_size.in_layout(),
    ensures
        r[0] == (Point { x: (tip.x + handle_size.width / 2) as i64, y: (tip.y + handle_size.height) as i64 }),
        r[1] == (Point { x: (tip.x - handle_size.width / 2) as i64, y: (tip.y + handle_size.height) as i64 }),
        r[2] == tip,
{
    let h: i64 = half(handle_size.width);
    [
        Point { x: tip.x + h, y: tip.y + handle_size.height },
        Point { x: tip.x - h, y: tip.y + handle_size.height },
        tip,
    ]
}

/// A tick along the rail: a position, an optional label and an optional
/// weight. A tick with a weight is drawn as a mark, one with a label as text.
#[derive(Debug, Clone, PartialEq, Eq)]
pub struct Marker {
    pub position: Normal,
    pub label: Option<String>,
    pub weight: Option<MarkWeight>,
}

/// The filled rectangle that draws a weighted tick.
#[derive(Debug, Clone, Copy, PartialEq, Eq, Structural)]
pub struct TickMark {
    pub bounds: Rectangle,
    pub weight: MarkWeight,
}

/// For each marker, the rectangle of its tick mark within a widget of size
/// `size`, or `None` where the marker has no weight. A mark is `mark_width`
/// wide, as tall as the rail, and centred on the marker's position.
pub fn tick_marks(
    size: Size,
    mark_width: i64,
    handle_size: Size,
    text_mark_height: i64,
    rail_height: i64,
    markers: &Vec<Marker>,
) -> (r: Vec<Option<TickMark>>)
    requires
        size.in_layout(),
        handle_size.in_layout(),
        in_layout(mark_width as int),
        in_layout(text_mark_height as int),
        in_layout(rail_height as int),
    ensures
        r@.len() == markers@.len(),
        forall|i: int|
            0 <= i < markers@.len() ==> (markers@[i].weight is None <==> r@[i] is None),
        forall|i: int|
            0 <= i < markers@.len() && r@[i] is Some ==> markers@[i].weight == Some(
                r@[i]->Some_0.weight,
            ),
        forall|i: int|
            0 <= i < markers@.len() && r@[i] is Some ==> {
                let b = r@[i]->Some_0.bounds;
                &&& b.x == rail_x(handle_size) - mark_width / 2 + scaled(
                    markers@[i].position@,
                    rail_width(size, handle_size),
                )
                &&& b.y == text_mark_height
                &&& b.width == mark_width
                &&& b.height == rail_height
            },
{
    let rail = get_frame_rail_bounds(size, handle_size, text_mark_height, rail_height);
    let left: i64 = rail.x - half(mark_width);
    let mut r: Vec<Option<TickMark>> = Vec::new();
    let mut i: usize = 0;
    while i < markers.len()
        invariant
            i <= markers@.len(),
            r@.len() == i,
            rail.x == rail_x(handle_size),
            rail.width == rail_width(size, handle_size),
            rail.y == text_mark_height,
            rail.height == rail_height,
            left == rail_x(handle_size) - mark_width / 2,
            size.in_layout(),
            handle_size.in_layout(),
            in_layout(mark_width as int),
            forall|k: int|
                0 <= k < i ==> (markers@[k].weight is None <==> r@[k] is None),
            forall|k: int|
                0 <= k < i && r@[k] is Some ==> markers@[k].weight == Some(r@[k]->Some_0.weight),
            forall|k: int|
                0 <= k < i && r@[k] is Some ==> {
                    let b = r@[k]->Some_0.bounds;
                    &&& b.x == rail_x(handle_size) - mark_width / 2 + scaled(
                        markers@[k].position@,
                        rail_width(size, handle_size),
                    )
                    &&& b.y == text_mark_height
                    &&& b.width == mark_width
                    &&& b.height == rail_height
                },
        decreases markers@.len() - i,
    {
        let marker = &markers[i];
        match marker.weight {
            Some(weight) => {
                let _units: u32 = marker.position.as_units();
                let offset: i64 = marker.position.scale(rail.width);
                proof {
                    lemma_scaled_within(marker.position, rail.width as int);
                }
                let bounds = Rectangle {
                    x: left + offset,
                    y: rail.y,
                    width: mark_width,
                    height: rail.height,
                };
                r.push(Some(TickMark { bounds, weight }));
            },
            None => {
                r.push(None);
            },
        }
        i = i + 1;
    }
    r
}

/// For each marker, the horizontal centre of its text within a widget of
/// size `size`, or `None` where the marker has no label.
pub fn text_mark_offsets(
    size: Size,
    handle_size: Size,
    text_mark_height: i64,
    rail_height: i64,
    markers: &Vec<Marker>,
) -> (r: Vec<Option<i64>>)
    requires
        size.in_layout(),
        handle_size.in_layout(),
        in_layout(text_mark_height as int),
        in_layout(rail_height as int),
    ensures
        r@.len() == markers@.len(),
        forall|i: int|
            0 <= i < markers@.len() ==> (markers@[i].label is None <==> r@[i] is None),
        forall|i: int|
            0 <= i < markers@.len() && r@[i] is Some ==> r@[i]->Some_0 == value_x(
                size,
                handle_size,
                markers@[i].position,
            ),
{
    let rail = get_frame_rail_bounds(size, handle_size, text_mark_height, rail_height);
    let mut r: Vec<Option<i64>> = Vec::new();
    let mut i: usize = 0;
    while i < markers.len()
        invariant
            i <= markers@.len(),
            r@.len() == i,
            rail.x == rail_x(handle_size),
            rail.width == rail_width(size, handle_size),
            forall|k: int| 0 <= k < i ==> (markers@[k].label is None <==> r@[k] is None),
            forall|k: int|
                0 <= k < i && r@[k] is Some ==> r@[k]->Some_0 == value_x(
                    size,
                    handle_size,
                    markers@[k].position,
                ),
        decreases markers@.len() - i,
    {
        let marker = &markers[i];
        if marker.label.is_some() {
            let _units: u32 = marker.position.as_units();
            let offset: i64 = marker.position.scale(rail.width);
            proof {
                lemma_scaled_within(marker.position, rail.width as int);
            }
            r.push(Some(rail.x + offset));
        } else {
            r.push(None);
        }
        i = i + 1;
    }
    r
}

/// The pointer style over the widget.
#[derive(Debug, Clone, Copy, PartialEq, Eq, Structural)]
pub enum Interaction {
    Idle,
    Pointer,
}

/// A pointing hand while the cursor is known and over `bounds`, the
/// default pointer otherwise.
pub fn mouse_interaction(bounds: Rectangle, cursor: Option<Point>) -> (r: Interaction)
    ensures
        r == (if cursor matches Some(p) && bounds.spec_contains(p) {
            Interaction::Pointer
        } else {
            Interaction::Idle
        }),
{
    match cursor {
        Some(p) => if bounds.contains(p) {
            Interaction::Pointer
        } else {
            Interaction::Idle
        },
        None => Interaction::Idle,
    }
}

} // verus!
