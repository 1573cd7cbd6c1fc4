//! The horizontal slider's interaction state machine.
//!
//! Scalars are parts per million of a normal ([`PPM`]); deltas are in normal
//! units, and a positive delta moves the value down.
use vstd::prelude::*;
use crate::geometry::{
    get_handle_bounds, get_text_and_rail_bounds, in_layout, position_over, Marker, Point,
    Rectangle, Size, DEFAULT_RAIL_HEIGHT, DEFAULT_TEXT_MARKER_HEIGHT, LAYOUT_LIMIT,
};
use crate::normal::{clip, Normal, NormalParam, NORMAL_ONE};
use crate::snap::{find_closest, is_closest, lemma_closest_unique, SliderMove, SliderStatus};

verus! {

/// A scalar of `PPM` parts is 1.0.
pub const PPM: i64 = 1_000_000;

/// Default normal travel per widget width of pointer travel.
pub const DEFAULT_SCALAR: i32 = 957_500;

/// Default normal travel per wheel line.
pub const DEFAULT_WHEEL_SCALAR: i32 = 10_000;

/// Default factor applied to every delta while the precision keys are held.
pub const DEFAULT_MODIFIER_SCALAR: i32 = 20_000;

/// Parts of a wheel line: a scroll of one line is `LINE_UNITS`.
pub const LINE_UNITS: i64 = 1000;

/// `n / d` rounded toward zero, for `d > 0`.
pub open spec fn truncated_div(n: int, d: int) -> int {
    if n >= 0 {
        n / d
    } else {
        -((-n) / d)
    }
}

/// `n / d` rounded toward zero.
fn div_trunc(n: i128, d: i128) -> (r: i128)
    requires
        d > 0,
        -0x4000_0000_0000_0000_0000_0000_0000_0000 <= n <= 0x4000_0000_0000_0000_0000_0000_0000_0000,
    ensures
        r == truncated_div(n as int, d as int),
        -0x4000_0000_0000_0000_0000_0000_0000_0000 <= r <= 0x4000_0000_0000_0000_0000_0000_0000_0000,
        0 <= n ==> 0 <= r <= n,
        n < 0 ==> n <= r <= 0,
{
    if n >= 0 {
        proof {
            assert(0 <= (n as int) / (d as int) <= n as int) by (nonlinear_arith)
                requires n >= 0, d > 0;
        }
        n / d
    } else {
        let m: i128 = -n;
        proof {
            assert(0 <= (m as int) / (d as int) <= m as int) by (nonlinear_arith)
                requires m >= 0, d > 0;
        }
        -(m / d)
    }
}

/// `current - delta` clamped into `[0, NORMAL_ONE]`.
fn clip_sub(current: u32, delta: i128) -> (r: u32)
    requires
        current <= NORMAL_ONE,
    ensures
        r == clip(current - delta),
{
    if delta >= current as i128 {
        0
    } else if delta < current as i128 - NORMAL_ONE as i128 {
        NORMAL_ONE
    } else {
        (current as i128 - delta) as u32
    }
}

/// `floor(a * m / PPM)` for `a = q * PPM + rem`.
proof fn lemma_split_product(a: int, m: int, q: int, rem: int)
    requires
        a >= 0,
        m >= 0,
        q == a / (PPM as int),
        rem == a % (PPM as int),
    ensures
        (a * m) / (PPM as int) == q * m + (rem * m) / (PPM as int),
{
    let p: int = PPM as int;
    vstd::arithmetic::div_mod::lemma_fundamental_div_mod(a, p);
    assert(a * m == (rem * m) + (q * m) * p) by (nonlinear_arith)
        requires a == p * q + rem;
    vstd::arithmetic::div_mod::lemma_hoist_over_denominator(rem * m, q * m, p as nat);
}

/// The shadow value `current` after a move by `delta`, with the modifier
/// scalar applied where `held`.
fn next_shadow(current: u32, delta: i128, held: bool, modifier_scalar: i32) -> (r: u32)
    requires
        current <= NORMAL_ONE,
    ensures
        r == clip(current - effective_delta(delta as int, held, modifier_scalar as int)),
{
    if !held {
        return clip_sub(current, delta);
    }
    if delta == 0 || modifier_scalar == 0 {
        proof {
            assert(delta as int * modifier_scalar as int == 0) by (nonlinear_arith)
                requires delta == 0 || modifier_scalar == 0;
        }
        return current;
    }
    let negative: bool = (delta < 0) != (modifier_scalar < 0);
    let delta_abs: u128 = if delta < 0 {
        (-(delta + 1)) as u128 + 1
    } else {
        delta as u128
    };
    let scalar_abs: u128 = if modifier_scalar < 0 {
        (-(modifier_scalar as i64)) as u128
    } else {
        modifier_scalar as u128
    };
    let ghost n: int = delta as int * modifier_scalar as int;
    let ghost n_abs: int = delta_abs as int * scalar_abs as int;
    proof {
        let ghost (d, m) = (delta as int, modifier_scalar as int);
        assert(n_abs == if n >= 0 { n } else { -n }) by (nonlinear_arith)
            requires
                delta_abs as int == if d < 0 { -d } else { d },
                scalar_abs as int == if m < 0 { -m } else { m },
                n == d * m,
                n_abs == delta_abs as int * scalar_abs as int;
        assert(negative <==> n < 0) by (nonlinear_arith)
            requires
                d != 0,
                m != 0,
                n == d * m,
                negative <==> ((d < 0) != (m < 0));
    }
    let q: u128 = delta_abs / PPM as u128;
    let rem: u128 = delta_abs % PPM as u128;
    proof {
        lemma_split_product(delta_abs as int, scalar_abs as int, q as int, rem as int);
    }
    if q > 2 * NORMAL_ONE as u128 {
        proof {
            let ghost p: int = PPM as int;
            assert(q * 1 <= q * scalar_abs) by (nonlinear_arith)
                requires scalar_abs >= 1;
            assert(0 <= (rem as int * scalar_abs as int) / p) by (nonlinear_arith)
                requires rem >= 0, scalar_abs >= 0, p > 0;
        }
        return if negative {
            NORMAL_ONE
        } else {
            0
        };
    }
    proof {
        assert(q * scalar_abs <= 2 * NORMAL_ONE * 0x8000_0000) by (nonlinear_arith)
            requires q <= 2 * NORMAL_ONE, scalar_abs <= 0x8000_0000;
        assert(rem * scalar_abs <= PPM * 0x8000_0000) by (nonlinear_arith)
            requires rem < PPM, scalar_abs <= 0x8000_0000;
        assert((rem as int * scalar_abs as int) / (PPM as int) <= rem as int * scalar_abs as int) by (nonlinear_arith)
            requires rem >= 0, scalar_abs >= 0;
    }
    let magnitude: u128 = q * scalar_abs + rem * scalar_abs / PPM as u128;
    let applied: i128 = if negative {
        -(magnitude as i128)
    } else {
        magnitude as i128
    };
    clip_sub(current, applied)
}

/// The keyboard modifiers held.
#[derive(Debug, Clone, Copy, PartialEq, Eq, Structural)]
pub struct Modifiers {
    pub shift: bool,
    pub control: bool,
    pub alt: bool,
    pub logo: bool,
}

impl Modifiers {
    /// Every key held in `other` is held in `self`.
    pub open spec fn spec_contains(self, other: Modifiers) -> bool {
        (other.shift ==> self.shift) && (other.control ==> self.control) && (other.alt
            ==> self.alt) && (other.logo ==> self.logo)
    }

    /// Every key held in `other` is held in `self`.
    pub fn contains(&self, other: Modifiers) -> (r: bool)
        ensures
            r == self.spec_contains(other),
    {
        (!other.shift || self.shift) && (!other.control || self.control) && (!other.alt
            || self.alt) && (!other.logo || self.logo)
    }

    /// No key held.
    pub open spec fn empty_spec() -> Modifiers {
        Modifiers { shift: false, control: false, alt: false, logo: false }
    }

    /// No key held.
    pub fn empty() -> (r: Modifiers)
        ensures
            r == Modifiers::empty_spec(),
    {
        Modifiers { shift: false, control: false, alt: false, logo: false }
    }

    /// The control key alone.
    pub fn ctrl() -> (r: Modifiers)
        ensures
            !r.shift && r.control && !r.alt && !r.logo,
    {
        Modifiers { shift: false, control: true, alt: false, logo: false }
    }
}

/// `delta` scaled by `modifier_scalar` parts per million, toward zero.
pub open spec fn precision_delta(delta: int, modifier_scalar: int) -> int {
    truncated_div(delta * modifier_scalar, PPM as int)
}

/// The delta applied: scaled by the modifier scalar while the precision
/// keys are held, as given otherwise.
pub open spec fn effective_delta(delta: int, held: bool, modifier_scalar: int) -> int {
    if held {
        precision_delta(delta, modifier_scalar)
    } else {
        delta
    }
}

/// The delta of a drag by `dx` over a widget `width` wide:
/// `-dx / width * scalar`, in normal units, toward zero.
pub open spec fn drag_delta(dx: int, width: int, scalar: int) -> int {
    truncated_div(-(dx * scalar * NORMAL_ONE), width * PPM)
}

/// The nearest candidate's index, ties to the earliest.
pub open spec fn closest_index(value: int, candidates: Seq<u32>) -> int {
    choose|i: int| is_closest(value, candidates, i)
}

/// The slider: its value and default, and how input moves them.
#[derive(Debug)]
pub struct HSlider {
    pub normal_param: NormalParam,
    /// Normal travel per widget width of pointer travel, in [`PPM`].
    pub scalar: i32,
    /// Normal travel per wheel line, in [`PPM`]; 0 turns the wheel off.
    pub wheel_scalar: i32,
    /// Factor on every delta while `modifier_keys` are held, in [`PPM`].
    pub modifier_scalar: i32,
    /// The keys that select fine control.
    pub modifier_keys: Modifiers,
    /// Candidate positions to snap to, with the index of the default one.
    pub snap_normals: Option<(Vec<u32>, usize)>,
    /// Ticks drawn along the rail.
    pub markers: Option<Vec<Marker>>,
    pub handle_size: Size,
    pub text_mark_height: i64,
    pub rail_height: i64,
}

/// The live session of one slider.
#[derive(Debug, Clone, Copy, PartialEq, Eq, Structural)]
pub struct State {
    pub is_dragging: bool,
    /// The cursor's x at the last drag step.
    pub prev_drag_x: i64,
    /// Where the slider would stand without snapping.
    pub continuous_normal: Normal,
    /// The candidate last snapped to.
    pub last_snapped_normal: Option<u32>,
    pub pressed_modifiers: Modifiers,
}

impl State {
    /// A session that is not dragging, with its shadow value at the
    /// parameter's value.
    pub fn new(normal_param: NormalParam) -> (r: State)
        ensures
            !r.is_dragging,
            r.prev_drag_x == 0,
            r.continuous_normal == normal_param.value,
            r.last_snapped_normal is None,
            r.pressed_modifiers == Modifiers::empty_spec(),
    {
        State {
            is_dragging: false,
            prev_drag_x: 0,
            continuous_normal: normal_param.value,
            last_snapped_normal: None,
            pressed_modifiers: Modifiers::empty(),
        }
    }

    /// The remembered drag position lies within the layout range.
    pub open spec fn wf(self) -> bool {
        in_layout(self.prev_drag_x as int)
    }
}

impl HSlider {
    /// Snapping, where on, has candidates, and the sizes lie within the
    /// layout range.
    pub open spec fn wf(self) -> bool {
        &&& self.snap_normals matches Some((c, _)) ==> c@.len() > 0
        &&& self.handle_size.in_layout()
        &&& in_layout(self.text_mark_height as int)
        &&& in_layout(self.rail_height as int)
    }

    /// Everything but the committed value is as in `other`.
    pub open spec fn same_settings(self, other: HSlider) -> bool {
        &&& self.normal_param.default == other.normal_param.default
        &&& self.scalar == other.scalar
        &&& self.wheel_scalar == other.wheel_scalar
        &&& self.modifier_scalar == other.modifier_scalar
        &&& self.modifier_keys == other.modifier_keys
        &&& self.snap_normals == other.snap_normals
        &&& self.markers == other.markers
        &&& self.handle_size == other.handle_size
        &&& self.text_mark_height == other.text_mark_height
        &&& self.rail_height == other.rail_height
    }

    /// Whether the precision keys are held in `state`.
    pub open spec fn precision_held(self, state: State) -> bool {
        state.pressed_modifiers.spec_contains(self.modifier_keys)
    }

    /// The shadow value after a move by `delta` from `state`.
    pub open spec fn next_continuous(self, state: State, delta: int) -> int {
        clip(
            state.continuous_normal@ - effective_delta(
                delta,
                self.precision_held(state),
                self.modifier_scalar as int,
            ),
        )
    }

    /// The candidate list, where snapping is on.
    pub open spec fn candidates(self) -> Seq<u32> {
        match self.snap_normals {
            Some((c, _)) => c@,
            None => Seq::empty(),
        }
    }

    /// The index of the candidate that a move by `delta` from `state`
    /// resolves to.
    pub open spec fn snap_index(self, state: State, delta: int) -> int {
        closest_index(self.next_continuous(state, delta), self.candidates())
    }

    /// The candidate that a move by `delta` from `state` resolves to.
    pub open spec fn snap_target(self, state: State, delta: int) -> u32 {
        self.candidates()[self.snap_index(state, delta)]
    }

    /// A slider with value and default `normal_param` and the default
    /// scalars, keys, sizes, no snapping and no markers.
    pub fn new(normal_param: NormalParam) -> (r: HSlider)
        ensures
            r.wf(),
            r.normal_param == normal_param,
            r.scalar == DEFAULT_SCALAR,
            r.wheel_scalar == DEFAULT_WHEEL_SCALAR,
            r.modifier_scalar == DEFAULT_MODIFIER_SCALAR,
            r.modifier_keys == (Modifiers { shift: false, control: true, alt: false, logo: false }),
            r.snap_normals is None,
            r.markers is None,
            r.handle_size == (Size { width: crate::geometry::DEFAULT_HANDLE_WIDTH, height: crate::geometry::DEFAULT_HANDLE_HEIGHT }),
            r.text_mark_height == DEFAULT_TEXT_MARKER_HEIGHT,
            r.rail_height == DEFAULT_RAIL_HEIGHT,
    {
        HSlider {
            normal_param,
            scalar: DEFAULT_SCALAR,
            wheel_scalar: DEFAULT_WHEEL_SCALAR,
            modifier_scalar: DEFAULT_MODIFIER_SCALAR,
            modifier_keys: Modifiers::ctrl(),
            snap_normals: None,
            markers: None,
            handle_size: Size::default_handle(),
            text_mark_height: DEFAULT_TEXT_MARKER_HEIGHT,
            rail_height: DEFAULT_RAIL_HEIGHT,
        }
    }

    /// Moves the shadow value by `delta` and commits the result: the
    /// nearest candidate where snapping is on, unless it is the one already
    /// snapped to; the shadow value itself otherwise. Returns whether the
    /// value moved, with the candidate's index where it snapped.
    pub fn try_move_virtual_slider(&mut self, state: &mut State, delta: i128) -> (r: (SliderStatus, Option<usize>))
        requires
            old(self).wf(),
        ensures
            final(self).same_settings(*old(self)),
            final(state).is_dragging == old(state).is_dragging,
            final(state).prev_drag_x == old(state).prev_drag_x,
            final(state).pressed_modifiers == old(state).pressed_modifiers,
            delta == 0 ==> r == (SliderStatus::Unchanged, None::<usize>) && *final(self) == *old(self)
                && *final(state) == *old(state),
            delta != 0 ==> final(state).continuous_normal@ == old(self).next_continuous(*old(state), delta as int),
            delta != 0 && old(self).snap_normals is None ==> {
                &&& r == (SliderStatus::Moved, None::<usize>)
                &&& final(self).normal_param.value@ == old(self).next_continuous(*old(state), delta as int)
                &&& final(state).last_snapped_normal == old(state).last_snapped_normal
            },
            delta != 0 && old(self).snap_normals is Some ==> {
                let target = old(self).snap_target(*old(state), delta as int);
                if old(state).last_snapped_normal != Some(target) {
                    &&& r == (SliderStatus::Moved, Some(old(self).snap_index(*old(state), delta as int) as usize))
                    &&& final(self).normal_param.value@ == clip(target as int)
                    &&& final(state).last_snapped_normal == Some(target)
                } else {
                    &&& r == (SliderStatus::Unchanged, None::<usize>)
                    &&& final(self).normal_param.value == old(self).normal_param.value
                    &&& final(state).last_snapped_normal == old(state).last_snapped_normal
                }
            },
    {
        if delta == 0 {
            return (SliderStatus::Unchanged, None);
        }
        let held: bool = state.pressed_modifiers.contains(self.modifier_keys);
        let current: u32 = state.continuous_normal.as_units();
        let clipped: i64 = next_shadow(current, delta, held, self.modifier_scalar) as i64;
        let next_normal = Normal::from_clipped(clipped);
        state.continuous_normal = next_normal;
        match &self.snap_normals {
            Some((normals, _)) => {
                let (snap_index, snap_normal) = find_closest(next_normal.as_units(), normals);
                proof {
                    let ghost p = next_normal@;
                    assert(is_closest(p, normals@, closest_index(p, normals@)));
                    lemma_closest_unique(p, normals@, snap_index as int, closest_index(p, normals@));
                }
                let is_new: bool = match state.last_snapped_normal {
                    Some(last) => last != snap_normal,
                    None => true,
                };
                if is_new {
                    self.normal_param.value.set_clipped(snap_normal as i64);
                    state.last_snapped_normal = Some(snap_normal);
                    return (SliderStatus::Moved, Some(snap_index));
                }
                (SliderStatus::Unchanged, None)
            },
            None => {
                self.normal_param.update(next_normal);
                (SliderStatus::Moved, None)
            },
        }
    }

    /// What [`HSlider::move_virtual_slider`] does: `post` and `post_state`
    /// are the slider and session after applying `slider_move` to `self`
    /// and `state`, and `change` is what it reports.
    pub open spec fn move_effect(
        self,
        state: State,
        slider_move: SliderMove,
        post: HSlider,
        post_state: State,
        change: Option<Change>,
    ) -> bool {
        &&& post.same_settings(self)
        &&& slider_move is Default ==> {
            &&& post.normal_param.value == self.normal_param.default
            &&& change == Some(Change { value: self.normal_param.default, index: None })
            &&& post_state == state
        }
        &&& slider_move matches SliderMove::Relative(d) ==> {
            &&& post_state.is_dragging == state.is_dragging
            &&& post_state.prev_drag_x == state.prev_drag_x
            &&& post_state.pressed_modifiers == state.pressed_modifiers
            &&& d == 0 ==> change is None && post == self && post_state == state
            &&& d != 0 ==> post_state.continuous_normal@ == self.next_continuous(state, d as int)
            &&& d != 0 && self.snap_normals is None ==> {
                &&& post.normal_param.value@ == self.next_continuous(state, d as int)
                &&& change == Some(Change { value: post.normal_param.value, index: None })
                &&& post_state.last_snapped_normal == state.last_snapped_normal
            }
            &&& d != 0 && self.snap_normals is Some ==> {
                let target = self.snap_target(state, d as int);
                if state.last_snapped_normal != Some(target) {
                    &&& post.normal_param.value@ == clip(target as int)
                    &&& change == Some(Change { value: post.normal_param.value, index: Some(self.snap_index(state, d as int) as usize) })
                    &&& post_state.last_snapped_normal == Some(target)
                } else {
                    &&& change is None
                    &&& post.normal_param.value == self.normal_param.value
                    &&& post_state.last_snapped_normal == state.last_snapped_normal
                }
            }
        }
    }

    /// Applies `slider_move` and returns the change to report: the new
    /// value, with the candidate's index where it snapped. A reset always
    /// restores the default and reports no index.
    pub fn move_virtual_slider(&mut self, state: &mut State, slider_move: SliderMove) -> (r: Option<Change>)
        requires
            old(self).wf(),
        ensures
            old(self).move_effect(*old(state), slider_move, *final(self), *final(state), r),
    {
        match slider_move {
            SliderMove::Default => {
                self.normal_param.value = self.normal_param.default;
                Some(Change { value: self.normal_param.value, index: None })
            },
            SliderMove::Relative(delta) => match self.try_move_virtual_slider(state, delta) {
                (SliderStatus::Moved, index) => Some(Change { value: self.normal_param.value, index }),
                _ => None,
            },
        }
    }
}

/// A committed change of the value, as reported to the host: the new value,
/// with the candidate's index where it snapped.
#[derive(Debug, Clone, Copy, PartialEq, Eq, Structural)]
pub struct Change {
    pub value: Normal,
    pub index: Option<usize>,
}

/// How a press relates to the presses before it, as the host's click
/// tracking tells.
#[derive(Debug, Clone, Copy, PartialEq, Eq, Structural)]
pub enum ClickKind {
    Single,
    Double,
    Triple,
}

/// A wheel movement.
#[derive(Debug, Clone, Copy, PartialEq, Eq, Structural)]
pub enum ScrollDelta {
    /// Vertical lines, in [`LINE_UNITS`] per line.
    Lines(i32),
    /// Vertical pixels; only the sign counts.
    Pixels(i32),
}

/// An input event, as the slider sees it.
#[derive(Debug, Clone, Copy, PartialEq, Eq, Structural)]
pub enum SliderEvent {
    CursorMoved,
    WheelScrolled(ScrollDelta),
    /// The left button went down.
    LeftPressed(ClickKind),
    /// The left button went up.
    LeftReleased,
    /// The held modifiers changed, or a key went down or up.
    ModifiersChanged(Modifiers),
    /// Anything else.
    Other,
}

/// Whether the slider used the event.
#[derive(Debug, Clone, Copy, PartialEq, Eq, Structural)]
pub enum Status {
    Ignored,
    Captured,
}

/// What handling an event produced.
#[derive(Debug, Clone, Copy, PartialEq, Eq, Structural)]
pub struct EventOutcome {
    pub status: Status,
    /// The change to report: the new value, with the candidate's index where
    /// it snapped.
    pub change: Option<Change>,
    /// Whether the press belongs to the click history, for telling double
    /// clicks apart.
    pub record_click: bool,
}

/// The signed number of line parts that a wheel movement stands for.
pub open spec fn wheel_lines(delta: ScrollDelta) -> int {
    match delta {
        ScrollDelta::Lines(y) => y as int,
        ScrollDelta::Pixels(y) => if y > 0 {
            LINE_UNITS as int
        } else if y < 0 {
            -LINE_UNITS
        } else {
            0
        },
    }
}

/// The delta of `lines` wheel line parts: `-lines * wheel_scalar`, toward
/// zero.
pub open spec fn wheel_delta(lines: int, wheel_scalar: int) -> int {
    truncated_div(-(lines * wheel_scalar * NORMAL_ONE), LINE_UNITS * PPM)
}

/// The delta that carries the shadow value `continuous` to the point `x`
/// of a rail at `rail_x`, `rail_width` long.
pub open spec fn rail_delta(continuous: int, x: int, rail_x: int, rail_width: int) -> int {
    continuous - (x - rail_x) * NORMAL_ONE / rail_width
}

impl HSlider {
    /// The slider's rail with the text marks above it, within `bounds`.
    pub open spec fn rail_area(self, bounds: Rectangle) -> Rectangle {
        crate::geometry::text_and_rail_bounds(bounds, self.handle_size, self.text_mark_height as int, self.rail_height as int)
    }

    /// The box round the handle within `bounds`.
    pub open spec fn handle_area(self, bounds: Rectangle) -> Rectangle {
        crate::geometry::handle_bounds(
            bounds,
            self.normal_param.value,
            self.handle_size,
            self.text_mark_height as int,
            self.rail_height as int,
        )
    }

    /// Whether a left press at `cursor` lands on the handle.
    pub open spec fn on_handle(self, bounds: Rectangle, cursor: Option<Point>) -> bool {
        cursor matches Some(p) && self.handle_area(bounds).spec_contains(p)
    }

    /// Whether a left press at `cursor` lands on the rail, off the handle.
    pub open spec fn on_rail(self, bounds: Rectangle, cursor: Option<Point>) -> bool {
        !self.on_handle(bounds, cursor) && (cursor matches Some(p) && self.rail_area(bounds).spec_contains(p))
    }

    /// The move that `event` asks for, if any.
    pub open spec fn event_move(self, state: State, event: SliderEvent, bounds: Rectangle, cursor: Option<Point>) -> Option<SliderMove> {
        match event {
            SliderEvent::CursorMoved => match cursor {
                Some(p) => if state.is_dragging && bounds.width > 0 {
                    Some(SliderMove::Relative(drag_delta(p.x - state.prev_drag_x, bounds.width as int, self.scalar as int) as i128))
                } else {
                    None
                },
                None => None,
            },
            SliderEvent::WheelScrolled(d) => if self.wheel_scalar != 0 && (cursor matches Some(p) && bounds.spec_contains(p)) && wheel_lines(d) != 0 {
                Some(SliderMove::Relative(wheel_delta(wheel_lines(d), self.wheel_scalar as int) as i128))
            } else {
                None
            },
            SliderEvent::LeftPressed(kind) => if self.on_handle(bounds, cursor) {
                if kind is Single {
                    None
                } else {
                    Some(SliderMove::Default)
                }
            } else if self.on_rail(bounds, cursor) && self.rail_area(bounds).width > 0 {
                Some(SliderMove::Relative(rail_delta(
                    state.continuous_normal@,
                    cursor->Some_0.x as int,
                    self.rail_area(bounds).x as int,
                    self.rail_area(bounds).width as int,
                ) as i128))
            } else {
                None
            },
            _ => None,
        }
    }

    /// The session after the event's own bookkeeping, before its move.
    pub open spec fn event_state(self, state: State, event: SliderEvent, bounds: Rectangle, cursor: Option<Point>) -> State {
        match event {
            SliderEvent::CursorMoved => if self.event_move(state, event, bounds, cursor) is Some {
                State { prev_drag_x: cursor->Some_0.x, ..state }
            } else {
                state
            },
            SliderEvent::LeftPressed(kind) => if self.on_handle(bounds, cursor) {
                if kind is Single {
                    State { is_dragging: true, prev_drag_x: cursor->Some_0.x, ..state }
                } else {
                    State { is_dragging: false, ..state }
                }
            } else {
                state
            },
            SliderEvent::LeftReleased => State {
                is_dragging: false,
                continuous_normal: self.normal_param.value,
                ..state
            },
            SliderEvent::ModifiersChanged(m) => State { pressed_modifiers: m, ..state },
            _ => state,
        }
    }

    /// Whether the slider uses `event`.
    pub open spec fn event_status(self, state: State, event: SliderEvent, bounds: Rectangle, cursor: Option<Point>) -> Status {
        match event {
            SliderEvent::CursorMoved | SliderEvent::WheelScrolled(_) => if self.event_move(state, event, bounds, cursor) is Some {
                Status::Captured
            } else {
                Status::Ignored
            },
            SliderEvent::LeftPressed(_) => if self.on_handle(bounds, cursor) || self.on_rail(bounds, cursor) {
                Status::Captured
            } else {
                Status::Ignored
            },
            SliderEvent::LeftReleased | SliderEvent::ModifiersChanged(_) => Status::Captured,
            SliderEvent::Other => Status::Ignored,
        }
    }

    /// Handles `event` for a widget laid out at `bounds`, with the cursor at
    /// `cursor` where it is known.
    ///
    /// A drag moves the value by the cursor's travel over the widget's width
    /// times the scalar; a press on the handle starts a drag, or resets the
    /// value on a double or triple click; a press on the rail moves the value
    /// to the point pressed; the wheel over the widget moves it by the wheel
    /// scalar per line; a release ends the drag and brings the shadow value
    /// back to the committed one. Every move goes through
    /// [`HSlider::move_virtual_slider`].
    pub fn on_event(&mut self, state: &mut State, event: SliderEvent, bounds: Rectangle, cursor: Option<Point>) -> (r: EventOutcome)
        requires
            old(self).wf(),
            old(state).wf(),
            bounds.in_layout(),
            cursor matches Some(p) ==> p.in_layout(),
        ensures
            final(self).wf(),
            final(state).wf(),
            r.status == old(self).event_status(*old(state), event, bounds, cursor),
            r.record_click == (event is LeftPressed && old(self).on_handle(bounds, cursor)),
            ({
                let pre = old(self).event_state(*old(state), event, bounds, cursor);
                match old(self).event_move(*old(state), event, bounds, cursor) {
                    Some(m) => old(self).move_effect(pre, m, *final(self), *final(state), r.change),
                    None => *final(self) == *old(self) && *final(state) == pre && r.change is None,
                }
            }),
    {
        let ignored = EventOutcome { status: Status::Ignored, change: None, record_click: false };
        match event {
            SliderEvent::CursorMoved => {
                if state.is_dragging && bounds.width > 0 {
                    if let Some(p) = cursor {
                        let dx: i64 = p.x - state.prev_drag_x;
                        let delta: i128 = self.drag_step(dx, bounds.width);
                        state.prev_drag_x = p.x;
                        let change = self.move_virtual_slider(state, SliderMove::Relative(delta));
                        return EventOutcome { status: Status::Captured, change, record_click: false };
                    }
                }
                ignored
            },
            SliderEvent::WheelScrolled(d) => {
                if self.wheel_scalar == 0 {
                    return ignored;
                }
                if position_over(cursor, bounds).is_some() {
                    let lines: i64 = match d {
                        ScrollDelta::Lines(y) => y as i64,
                        ScrollDelta::Pixels(y) => if y > 0 {
                            LINE_UNITS
                        } else if y < 0 {
                            -LINE_UNITS
                        } else {
                            0
                        },
                    };
                    if lines != 0 {
                        let delta: i128 = self.wheel_step(lines);
                        let change = self.move_virtual_slider(state, SliderMove::Relative(delta));
                        return EventOutcome { status: Status::Captured, change, record_click: false };
                    }
                }
                ignored
            },
            SliderEvent::LeftPressed(kind) => {
                let rail = get_text_and_rail_bounds(bounds, self.handle_size, self.text_mark_height, self.rail_height);
                let handle = get_handle_bounds(bounds, self.normal_param.value, self.handle_size, self.text_mark_height, self.rail_height);
                if let Some(p) = position_over(cursor, handle) {
                    let change = match kind {
                        ClickKind::Single => {
                            state.is_dragging = true;
                            state.prev_drag_x = p.x;
                            None
                        },
                        _ => {
                            state.is_dragging = false;
                            self.move_virtual_slider(state, SliderMove::Default)
                        },
                    };
                    EventOutcome { status: Status::Captured, change, record_click: true }
                } else if let Some(p) = position_over(cursor, rail) {
                    if rail.width > 0 {
                        let delta: i128 = self.rail_step(state, p.x, rail);
                        let change = self.move_virtual_slider(state, SliderMove::Relative(delta));
                        EventOutcome { status: Status::Captured, change, record_click: false }
                    } else {
                        EventOutcome { status: Status::Captured, change: None, record_click: false }
                    }
                } else {
                    ignored
                }
            },
            SliderEvent::LeftReleased => {
                state.is_dragging = false;
                state.continuous_normal = self.normal_param.value;
                EventOutcome { status: Status::Captured, change: None, record_click: false }
            },
            SliderEvent::ModifiersChanged(m) => {
                state.pressed_modifiers = m;
                EventOutcome { status: Status::Captured, change: None, record_click: false }
            },
            SliderEvent::Other => ignored,
        }
    }

    /// The delta of a drag by `dx` over a widget `width` wide.
    fn drag_step(&self, dx: i64, width: i64) -> (r: i128)
        requires
            -2 * LAYOUT_LIMIT <= dx <= 2 * LAYOUT_LIMIT,
            0 < width <= LAYOUT_LIMIT,
        ensures
            r == drag_delta(dx as int, width as int, self.scalar as int),
    {
        proof {
            let ghost (x, s) = (dx as int, self.scalar as int);
            assert(-0x4000_0000_0000_0000_0000_0000 <= x * s * NORMAL_ONE <= 0x4000_0000_0000_0000_0000_0000)
                by (nonlinear_arith)
                requires
                    -0x1_0000_0000 <= x <= 0x1_0000_0000,
                    -0x8000_0000 <= s < 0x8000_0000;
            assert(0 < (width as int) * PPM <= 0x1_0000_0000_0000_0000) by (nonlinear_arith)
                requires 0 < width <= LAYOUT_LIMIT;
        }
        let n: i128 = -(dx as i128 * self.scalar as i128 * NORMAL_ONE as i128);
        div_trunc(n, width as i128 * PPM as i128)
    }

    /// The delta of `lines` wheel line parts.
    fn wheel_step(&self, lines: i64) -> (r: i128)
        requires
            -0x8000_0000 <= lines < 0x8000_0000,
        ensures
            r == wheel_delta(lines as int, self.wheel_scalar as int),
    {
        proof {
            let ghost (l, s) = (lines as int, self.wheel_scalar as int);
            assert(-0x4000_0000_0000_0000_0000_0000 <= l * s * NORMAL_ONE <= 0x4000_0000_0000_0000_0000_0000)
                by (nonlinear_arith)
                requires
                    -0x8000_0000 <= l < 0x8000_0000,
                    -0x8000_0000 <= s < 0x8000_0000;
        }
        let n: i128 = -(lines as i128 * self.wheel_scalar as i128 * NORMAL_ONE as i128);
        let per_line: i128 = 1_000_000_000;
        assert(per_line == LINE_UNITS * PPM);
        div_trunc(n, per_line)
    }

    /// The delta that carries the shadow value to `x` on `rail`.
    fn rail_step(&self, state: &State, x: i64, rail: Rectangle) -> (r: i128)
        requires
            rail.x <= x <= rail.x + rail.width,
            0 < rail.width,
        ensures
            r == rail_delta(state.continuous_normal@, x as int, rail.x as int, rail.width as int),
    {
        let current: u32 = state.continuous_normal.as_units();
        let offset: i128 = x as i128 - rail.x as i128;
        proof {
            let ghost (o, w) = (offset as int, rail.width as int);
            assert(0 <= o * NORMAL_ONE <= w * NORMAL_ONE) by (nonlinear_arith)
                requires 0 <= o <= w;
            assert(0 <= (o * NORMAL_ONE) / w <= NORMAL_ONE) by (nonlinear_arith)
                requires 0 <= o <= w, 0 < w;
        }
        let part: i128 = offset * NORMAL_ONE as i128 / rail.width as i128;
        current as i128 - part
    }
}

impl HSlider {
    /// Sets the normal travel per widget width of pointer travel.
    pub fn scalar(self, scalar: i32) -> (r: HSlider)
        requires
            self.wf(),
        ensures
            r.wf(),
            r == (HSlider { scalar, ..self }),
    {
        HSlider { scalar, ..self }
    }

    /// Sets the normal travel per wheel line; 0 turns the wheel off.
    pub fn wheel_scalar(self, wheel_scalar: i32) -> (r: HSlider)
        requires
            self.wf(),
        ensures
            r.wf(),
            r == (HSlider { wheel_scalar, ..self }),
    {
        HSlider { wheel_scalar, ..self }
    }

    /// Sets the factor applied to every delta while the precision keys are
    /// held.
    pub fn modifier_scalar(self, scalar: i32) -> (r: HSlider)
        requires
            self.wf(),
        ensures
            r.wf(),
            r == (HSlider { modifier_scalar: scalar, ..self }),
    {
        HSlider { modifier_scalar: scalar, ..self }
    }

    /// Sets the keys that select fine control.
    pub fn modifier_keys(self, modifier_keys: Modifiers) -> (r: HSlider)
        requires
            self.wf(),
        ensures
            r.wf(),
            r == (HSlider { modifier_keys, ..self }),
    {
        HSlider { modifier_keys, ..self }
    }

    /// Turns snapping to the given candidates on, or off with `None`.
    pub fn snap_to_normals(self, snap_normals: Option<(Vec<u32>, usize)>) -> (r: HSlider)
        requires
            self.wf(),
            snap_normals matches Some((c, _)) ==> c@.len() > 0,
        ensures
            r.wf(),
            r == (HSlider { snap_normals, ..self }),
    {
        HSlider { snap_normals, ..self }
    }

    /// Sets the ticks drawn along the rail.
    pub fn markers(self, markers: Option<Vec<Marker>>) -> (r: HSlider)
        requires
            self.wf(),
        ensures
            r.wf(),
            r == (HSlider { markers, ..self }),
    {
        HSlider { markers, ..self }
    }

    /// Sets the size of the handle.
    pub fn handle_size(self, handle_size: Size) -> (r: HSlider)
        requires
            self.wf(),
            handle_size.in_layout(),
        ensures
            r.wf(),
            r == (HSlider { handle_size, ..self }),
    {
        HSlider { handle_size, ..self }
    }

    /// Sets the height of the row of text marks.
    pub fn text_mark_height(self, text_mark_height: i64) -> (r: HSlider)
        requires
            self.wf(),
            in_layout(text_mark_height as int),
        ensures
            r.wf(),
            r == (HSlider { text_mark_height, ..self }),
    {
        HSlider { text_mark_height, ..self }
    }

    /// Sets the thickness of the rail.
    pub fn rail_height(self, rail_height: i64) -> (r: HSlider)
        requires
            self.wf(),
            in_layout(rail_height as int),
        ensures
            r.wf(),
            r == (HSlider { rail_height, ..self }),
    {
        HSlider { rail_height, ..self }
    }
}

/// Once a move has resolved to a candidate, a further move that resolves to
/// the same candidate changes nothing and reports nothing.
pub proof fn lemma_snap_stationary(
    slider: HSlider,
    state: State,
    first: i128,
    second: i128,
    post1: HSlider,
    state1: State,
    change1: Option<Change>,
    post2: HSlider,
    state2: State,
    change2: Option<Change>,
)
    requires
        slider.snap_normals is Some,
        first != 0,
        slider.move_effect(state, SliderMove::Relative(first), post1, state1, change1),
        post1.move_effect(state1, SliderMove::Relative(second), post2, state2, change2),
        second != 0 ==> post1.snap_target(state1, second as int) == slider.snap_target(state, first as int),
    ensures
        change2 is None,
        post2.normal_param.value == post1.normal_param.value,
        state2.last_snapped_normal == state1.last_snapped_normal,
{
    assert(post1.candidates() == slider.candidates());
}

/// A reset restores the default and reports it with no index, whatever the
/// session and whatever was snapped to before.
pub proof fn lemma_reset_restores_default(
    slider: HSlider,
    state: State,
    post: HSlider,
    post_state: State,
    change: Option<Change>,
)
    requires
        slider.move_effect(state, SliderMove::Default, post, post_state, change),
    ensures
        post.normal_param.value == slider.normal_param.default,
        change == Some(Change { value: slider.normal_param.default, index: None }),
{
}

/// With the wheel scalar at 0 a wheel event is ignored and changes nothing.
pub proof fn lemma_wheel_off(
    slider: HSlider,
    state: State,
    delta: ScrollDelta,
    bounds: Rectangle,
    cursor: Option<Point>,
)
    requires
        slider.wheel_scalar == 0,
    ensures
        slider.event_status(state, SliderEvent::WheelScrolled(delta), bounds, cursor) == Status::Ignored,
        slider.event_move(state, SliderEvent::WheelScrolled(delta), bounds, cursor) is None,
        slider.event_state(state, SliderEvent::WheelScrolled(delta), bounds, cursor) == state,
{
}

/// A drag asks for the same delta whether or not the precision keys are
/// held; with them held the shadow value moves by that delta scaled by the
/// modifier scalar, without them by the delta itself.
pub proof fn lemma_precision_drag(
    slider: HSlider,
    state: State,
    bounds: Rectangle,
    cursor: Point,
    held: Modifiers,
    free: Modifiers,
)
    requires
        state.is_dragging,
        bounds.width > 0,
        held.spec_contains(slider.modifier_keys),
        !free.spec_contains(slider.modifier_keys),
    ensures
        ({
            let held_state = State { pressed_modifiers: held, ..state };
            let free_state = State { pressed_modifiers: free, ..state };
            let d = drag_delta(cursor.x - state.prev_drag_x, bounds.width as int, slider.scalar as int) as i128;
            &&& slider.event_move(held_state, SliderEvent::CursorMoved, bounds, Some(cursor)) == Some(SliderMove::Relative(d))
            &&& slider.event_move(free_state, SliderEvent::CursorMoved, bounds, Some(cursor)) == Some(SliderMove::Relative(d))
            &&& slider.next_continuous(held_state, d as int) == clip(state.continuous_normal@ - precision_delta(d as int, slider.modifier_scalar as int))
            &&& slider.next_continuous(free_state, d as int) == clip(state.continuous_normal@ - d)
        }),
{
}

} // verus!
