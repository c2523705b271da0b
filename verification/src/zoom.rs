//! The zoom percentage of the image-size dialog and its two button actions.

use vstd::prelude::*;

verus! {

/// Smallest zoom percentage the dialog allows.
pub const MIN_ZOOM: i32 = 10;

/// Largest zoom percentage the dialog allows.
pub const MAX_ZOOM: i32 = 500;

/// How far one button click moves the zoom.
pub const ZOOM_STEP: i32 = 10;

/// Zoom percentage when the dialog opens.
pub const INITIAL_ZOOM: i32 = 100;

/// A zoom value is in range when it lies between the minimum and the maximum
/// and sits on the step grid.
pub open spec fn zoom_in_range(z: int) -> bool {
    MIN_ZOOM as int <= z <= MAX_ZOOM as int && z % (ZOOM_STEP as int) == 0
}

/// What the "-" button does to a value: ten less, unless the value is already
/// at or below the minimum, in which case it is left alone.
pub open spec fn spec_decrement(z: int) -> int {
    if z > MIN_ZOOM as int {
        z - ZOOM_STEP as int
    } else {
        z
    }
}

/// What the "+" button does to a value: ten more, unless the value is already
/// at or above the maximum, in which case it is left alone.
pub open spec fn spec_increment(z: int) -> int {
    if z < MAX_ZOOM as int {
        z + ZOOM_STEP as int
    } else {
        z
    }
}

/// One click of a zoom button.
#[derive(Clone, Copy, Debug, PartialEq, Eq, Structural)]
pub enum ZoomClick {
    /// A click of the "-" button.
    Decrement,
    /// A click of the "+" button.
    Increment,
}

/// What one click does to a value.
pub open spec fn spec_click(z: int, c: ZoomClick) -> int {
    match c {
        ZoomClick::Decrement => spec_decrement(z),
        ZoomClick::Increment => spec_increment(z),
    }
}

/// The value after a sequence of clicks, applied first to last.
pub open spec fn apply_clicks(z: int, clicks: Seq<ZoomClick>) -> int
    decreases clicks.len(),
{
    if clicks.len() == 0 {
        z
    } else {
        apply_clicks(spec_click(z, clicks[0]), clicks.drop_first())
    }
}

/// One click keeps the value in range: each button either moves by one step
/// inside the bounds or leaves the value alone.
pub proof fn lemma_click_stays_in_range(z: int, c: ZoomClick)
    requires
        zoom_in_range(z),
    ensures
        zoom_in_range(spec_click(z, c)),
{
}

/// No sequence of clicks can drive an in-range value out of range: the bounds
/// and the step grid are an invariant of the dialog's state.
pub proof fn lemma_clicks_stay_in_range(z: int, clicks: Seq<ZoomClick>)
    requires
        zoom_in_range(z),
    ensures
        zoom_in_range(apply_clicks(z, clicks)),
    decreases clicks.len(),
{
    if clicks.len() > 0 {
        lemma_click_stays_in_range(z, clicks[0]);
        lemma_clicks_stay_in_range(spec_click(z, clicks[0]), clicks.drop_first());
    }
}

/// For every sequence of "-" clicks starting at the initial zoom, the value
/// never drops below the minimum: after any prefix of the sequence it is
/// still at least the minimum.
pub proof fn lemma_decrements_never_below_min(clicks: Seq<ZoomClick>)
    requires
        forall|i: int| 0 <= i < clicks.len() ==> clicks[i] is Decrement,
    ensures
        forall|n: int|
            0 <= n <= clicks.len() ==> apply_clicks(
                INITIAL_ZOOM as int,
                clicks.subrange(0, n),
            ) >= MIN_ZOOM as int,
{
    assert forall|n: int|
        0 <= n <= clicks.len() implies apply_clicks(INITIAL_ZOOM as int, clicks.subrange(0, n))
        >= MIN_ZOOM as int by {
        lemma_clicks_stay_in_range(INITIAL_ZOOM as int, clicks.subrange(0, n));
    }
}

/// For every sequence of "+" clicks starting at the initial zoom, the value
/// never exceeds the maximum: after any prefix of the sequence it is still at
/// most the maximum.
pub proof fn lemma_increments_never_above_max(clicks: Seq<ZoomClick>)
    requires
        forall|i: int| 0 <= i < clicks.len() ==> clicks[i] is Increment,
    ensures
        forall|n: int|
            0 <= n <= clicks.len() ==> apply_clicks(
                INITIAL_ZOOM as int,
                clicks.subrange(0, n),
            ) <= MAX_ZOOM as int,
{
    assert forall|n: int|
        0 <= n <= clicks.len() implies apply_clicks(INITIAL_ZOOM as int, clicks.subrange(0, n))
        <= MAX_ZOOM as int by {
        lemma_clicks_stay_in_range(INITIAL_ZOOM as int, clicks.subrange(0, n));
    }
}

/// The zoom percentage owned by the dialog view.
#[derive(Clone, Copy, Debug, PartialEq, Eq, Structural)]
pub struct ZoomState {
    /// The current percentage.
    pub percentage: i32,
}

impl ZoomState {
    /// The state is well formed when the percentage is in range.
    pub open spec fn wf(self) -> bool {
        zoom_in_range(self.percentage as int)
    }

    /// A freshly opened dialog starts at the initial zoom.
    pub fn new() -> (z: ZoomState)
        ensures
            z.percentage == INITIAL_ZOOM,
            z.wf(),
    {
        ZoomState { percentage: INITIAL_ZOOM }
    }

    /// The "-" button: reduce the value by one step if it is above the
    /// minimum, do nothing otherwise.
    pub fn decrement(&mut self)
        ensures
            final(self).percentage as int == spec_decrement(old(self).percentage as int),
            old(self).wf() ==> final(self).wf(),
    {
        let current = self.percentage;
        if current > MIN_ZOOM {
            self.percentage = current - ZOOM_STEP;
        }
    }

    /// The "+" button: raise the value by one step if it is below the
    /// maximum, do nothing otherwise.
    pub fn increment(&mut self)
        ensures
            final(self).percentage as int == spec_increment(old(self).percentage as int),
            old(self).wf() ==> final(self).wf(),
    {
        let current = self.percentage;
        if current < MAX_ZOOM {
            self.percentage = current + ZOOM_STEP;
        }
    }

    /// The percentage the dialog displays.
    pub fn value(&self) -> (v: i32)
        ensures
            v == self.percentage,
    {
        self.percentage
    }
}

} // verus!
