//! Panning state: the current translation of the figure and the per-axis
//! acceleration of the panning step.
//!
//! Each axis carries its own step size (`delta`) and its own count of
//! held-key updates (`iteration`).  Every update increments the count, and
//! every tenth update doubles the step, so the figure pans faster the longer
//! a key stays held.  Releasing any movement key resets both axes to the
//! initial step while keeping the translation.

use vstd::prelude::*;

verus! {

/// Initial panning step: 0.010 normalized units, stored in thousandths.
pub const INITIAL_DELTA: i64 = 10;

/// The step doubles after every this many held-key updates on an axis.
pub const ACCEL_PERIOD: u32 = 10;

/// Largest step size an update accepts; doubling a step at this bound still
/// fits in an `i64`.
pub const DELTA_LIMIT: i64 = 0x2000_0000_0000_0000;

/// Largest translation magnitude an update accepts; adding a doubled step at
/// this bound still fits in an `i64`.
pub const COORD_LIMIT: i64 = 0x2000_0000_0000_0000;

/// Acceleration state of one panning axis.
#[derive(Clone, Copy, Debug, PartialEq, Eq, Structural)]
pub struct AxisState {
    /// Current panning step in thousandths of a unit.
    pub delta: i64,
    /// Held-key updates applied to this axis since the last reset.
    pub iteration: u32,
}

/// Mathematical model of one axis.
pub struct AxisView {
    pub delta: int,
    pub iteration: int,
}

impl View for AxisState {
    type V = AxisView;

    open spec fn view(&self) -> AxisView {
        AxisView { delta: self.delta as int, iteration: self.iteration as int }
    }
}

/// Current translation of the figure, in thousandths of a unit.
#[derive(Clone, Copy, Debug, PartialEq, Eq, Structural)]
pub struct Translation {
    pub x: i64,
    pub y: i64,
}

/// Mathematical model of a translation.
pub struct TranslationView {
    pub x: int,
    pub y: int,
}

impl View for Translation {
    type V = TranslationView;

    open spec fn view(&self) -> TranslationView {
        TranslationView { x: self.x as int, y: self.y as int }
    }
}

/// Which movement keys are held down in the current frame.
#[derive(Clone, Copy, Debug, PartialEq, Eq, Structural)]
pub struct KeysHeld {
    pub w: bool,
    pub a: bool,
    pub s: bool,
    pub d: bool,
}

/// A held key on the vertical axis: `W` pans up, `S` pans down.
#[derive(Clone, Copy, Debug, PartialEq, Eq, Structural)]
pub enum VerticalKey {
    W,
    S,
}

/// A held key on the horizontal axis: `A` pans left, `D` pans right.
#[derive(Clone, Copy, Debug, PartialEq, Eq, Structural)]
pub enum HorizontalKey {
    A,
    D,
}

/// The whole panning state: translation plus both axes.
#[derive(Clone, Copy, Debug, PartialEq, Eq, Structural)]
pub struct Settings {
    pub landslide: Translation,
    pub horizontal: AxisState,
    pub vertical: AxisState,
}

/// Mathematical model of the panning state.
pub struct SettingsView {
    pub landslide: TranslationView,
    pub horizontal: AxisView,
    pub vertical: AxisView,
}

impl View for Settings {
    type V = SettingsView;

    open spec fn view(&self) -> SettingsView {
        SettingsView {
            landslide: self.landslide@,
            horizontal: self.horizontal@,
            vertical: self.vertical@,
        }
    }
}

/// An axis as it starts out and as a key release restores it.
pub open spec fn initial_axis() -> AxisView {
    AxisView { delta: INITIAL_DELTA as int, iteration: 0 }
}

/// One held-key update on an axis: the update count rises by one, and on
/// every `ACCEL_PERIOD`th update the step doubles.
pub open spec fn axis_advanced(a: AxisView) -> AxisView {
    AxisView {
        iteration: a.iteration + 1,
        delta: if (a.iteration + 1) % (ACCEL_PERIOD as int) == 0 {
            2 * a.delta
        } else {
            a.delta
        },
    }
}

/// One held-key update on the vertical axis, moving the figure by the
/// advanced step: up for `W`, down for `S`.
pub open spec fn vertical_moved(s: SettingsView, key: VerticalKey) -> SettingsView {
    let axis = axis_advanced(s.vertical);
    SettingsView {
        landslide: TranslationView {
            x: s.landslide.x,
            y: if key is W {
                s.landslide.y + axis.delta
            } else {
                s.landslide.y - axis.delta
            },
        },
        horizontal: s.horizontal,
        vertical: axis,
    }
}

/// One held-key update on the horizontal axis, moving the figure by the
/// advanced step: left for `A`, right for `D`.
pub open spec fn horizontal_moved(s: SettingsView, key: HorizontalKey) -> SettingsView {
    let axis = axis_advanced(s.horizontal);
    SettingsView {
        landslide: TranslationView {
            x: if key is A {
                s.landslide.x - axis.delta
            } else {
                s.landslide.x + axis.delta
            },
            y: s.landslide.y,
        },
        horizontal: axis,
        vertical: s.vertical,
    }
}

/// One frame's worth of held-key updates.  At most one direction per axis is
/// honored: `W` wins over `S` and `A` wins over `D`.
pub open spec fn settings_moved(s: SettingsView, keys: KeysHeld) -> SettingsView {
    let after_vertical = if keys.w {
        vertical_moved(s, VerticalKey::W)
    } else if keys.s {
        vertical_moved(s, VerticalKey::S)
    } else {
        s
    };
    if keys.a {
        horizontal_moved(after_vertical, HorizontalKey::A)
    } else if keys.d {
        horizontal_moved(after_vertical, HorizontalKey::D)
    } else {
        after_vertical
    }
}

/// A key release restores both axes to the initial acceleration state and
/// keeps the translation.
pub open spec fn settings_reset(s: SettingsView) -> SettingsView {
    SettingsView { landslide: s.landslide, horizontal: initial_axis(), vertical: initial_axis() }
}

/// Machine-size bounds under which one more vertical update cannot overflow
/// an `i64` or a `u32`.
pub open spec fn vertical_motion_bounds(s: SettingsView) -> bool {
    &&& 0 <= s.vertical.delta <= DELTA_LIMIT as int
    &&& s.vertical.iteration < u32::MAX
    &&& -(COORD_LIMIT as int) <= s.landslide.y <= COORD_LIMIT as int
}

/// Machine-size bounds under which one more horizontal update cannot
/// overflow an `i64` or a `u32`.
pub open spec fn horizontal_motion_bounds(s: SettingsView) -> bool {
    &&& 0 <= s.horizontal.delta <= DELTA_LIMIT as int
    &&& s.horizontal.iteration < u32::MAX
    &&& -(COORD_LIMIT as int) <= s.landslide.x <= COORD_LIMIT as int
}

/// Machine-size bounds under which one more held-key update cannot overflow
/// an `i64` or a `u32`.
pub open spec fn in_motion_bounds(s: SettingsView) -> bool {
    vertical_motion_bounds(s) && horizontal_motion_bounds(s)
}

/// Decide whether one more held-key update fits the machine bounds; callers
/// outside the verified core test this before updating the state.
pub fn motion_bounds_ok(s: &Settings) -> (r: bool)
    ensures
        r == in_motion_bounds(s@),
{
    0 <= s.horizontal.delta && s.horizontal.delta <= DELTA_LIMIT && 0 <= s.vertical.delta
        && s.vertical.delta <= DELTA_LIMIT && s.horizontal.iteration < u32::MAX
        && s.vertical.iteration < u32::MAX && -COORD_LIMIT <= s.landslide.x && s.landslide.x
        <= COORD_LIMIT && -COORD_LIMIT <= s.landslide.y && s.landslide.y <= COORD_LIMIT
}

impl AxisState {
    /// Apply one held-key update to this axis.
    pub fn advance(&mut self)
        requires
            old(self)@.iteration < u32::MAX,
            0 <= old(self)@.delta <= DELTA_LIMIT as int,
        ensures
            final(self)@ == axis_advanced(old(self)@),
    {
        self.iteration = self.iteration + 1;
        if self.iteration % ACCEL_PERIOD == 0 {
            self.delta = 2 * self.delta;
        }
    }
}

impl Settings {
    /// The state at startup: no translation, both axes at the initial step.
    pub fn new() -> (s: Settings)
        ensures
            s@.landslide.x == 0,
            s@.landslide.y == 0,
            s@.horizontal == initial_axis(),
            s@.vertical == initial_axis(),
    {
        Settings {
            landslide: Translation { x: 0, y: 0 },
            horizontal: AxisState { delta: INITIAL_DELTA, iteration: 0 },
            vertical: AxisState { delta: INITIAL_DELTA, iteration: 0 },
        }
    }

    /// One held-key update on the vertical axis.
    fn move_vert(&mut self, key: VerticalKey)
        requires
            vertical_motion_bounds(old(self)@),
        ensures
            final(self)@ == vertical_moved(old(self)@, key),
    {
        self.vertical.advance();
        match key {
            VerticalKey::W => {
                self.landslide.y = self.landslide.y + self.vertical.delta;
            },
            VerticalKey::S => {
                self.landslide.y = self.landslide.y - self.vertical.delta;
            },
        }
    }

    /// One held-key update on the horizontal axis.
    fn move_horiz(&mut self, key: HorizontalKey)
        requires
            horizontal_motion_bounds(old(self)@),
        ensures
            final(self)@ == horizontal_moved(old(self)@, key),
    {
        self.horizontal.advance();
        match key {
            HorizontalKey::A => {
                self.landslide.x = self.landslide.x - self.horizontal.delta;
            },
            HorizontalKey::D => {
                self.landslide.x = self.landslide.x + self.horizontal.delta;
            },
        }
    }

    /// Apply one frame's worth of held movement keys to the state.
    pub fn move_img(&mut self, keys: &KeysHeld)
        requires
            in_motion_bounds(old(self)@),
        ensures
            final(self)@ == settings_moved(old(self)@, *keys),
    {
        if keys.w {
            self.move_vert(VerticalKey::W);
        } else if keys.s {
            self.move_vert(VerticalKey::S);
        }
        if keys.a {
            self.move_horiz(HorizontalKey::A);
        } else if keys.d {
            self.move_horiz(HorizontalKey::D);
        }
    }

    /// React to a movement-key release: restore both axes to the initial
    /// acceleration state, keeping the translation.
    pub fn reset_params(&mut self)
        ensures
            final(self)@ == settings_reset(old(self)@),
    {
        self.horizontal = AxisState { delta: INITIAL_DELTA, iteration: 0 };
        self.vertical = AxisState { delta: INITIAL_DELTA, iteration: 0 };
    }
}

/// A release transition restores `delta` and `iteration` on both axes to
/// their startup values exactly, and leaves the translation untouched,
/// whatever sequence of held-key updates came before.
pub proof fn lemma_release_resets_axes(s: SettingsView)
    ensures
        settings_reset(s).horizontal == initial_axis(),
        settings_reset(s).vertical == initial_axis(),
        settings_reset(s).landslide == s.landslide,
{
}

/// Two to the power `k`.
pub open spec fn pow2(k: nat) -> int
    decreases k,
{
    if k == 0 {
        1
    } else {
        2 * pow2((k - 1) as nat)
    }
}

/// An axis after `n` consecutive held-key updates.
pub open spec fn axis_advanced_n(a: AxisView, n: nat) -> AxisView
    decreases n,
{
    if n == 0 {
        a
    } else {
        axis_advanced(axis_advanced_n(a, (n - 1) as nat))
    }
}

/// Acceleration law: after `n` consecutive held-key updates from the initial
/// axis state, the update count is `n` and the step has doubled once for
/// every full `ACCEL_PERIOD` of updates, so 10 updates yield a step of 20
/// thousandths (0.020) and 20 updates one of 40 thousandths (0.040).
pub proof fn lemma_acceleration(n: nat)
    ensures
        axis_advanced_n(initial_axis(), n).iteration == n,
        axis_advanced_n(initial_axis(), n).delta == INITIAL_DELTA * pow2(
            n / (ACCEL_PERIOD as nat),
        ),
    decreases n,
{
    if n > 0 {
        let m = (n - 1) as nat;
        lemma_acceleration(m);
        if n % (ACCEL_PERIOD as nat) == 0 {
            assert(n / 10 == m / 10 + 1) by (nonlinear_arith)
                requires
                    n > 0,
                    m == n - 1,
                    n % 10 == 0,
            ;
            assert(pow2(m / 10 + 1) == 2 * pow2(m / 10));
        } else {
            assert(n / 10 == m / 10) by (nonlinear_arith)
                requires
                    n > 0,
                    m == n - 1,
                    n % 10 != 0,
            ;
        }
    }
}

/// Whether only horizontal movement keys are held.
pub open spec fn horizontal_only(keys: KeysHeld) -> bool {
    !keys.w && !keys.s
}

/// Whether only vertical movement keys are held.
pub open spec fn vertical_only(keys: KeysHeld) -> bool {
    !keys.a && !keys.d
}

/// The panning state after `n` frames with the same keys held.
pub open spec fn settings_moved_n(s: SettingsView, keys: KeysHeld, n: nat) -> SettingsView
    decreases n,
{
    if n == 0 {
        s
    } else {
        settings_moved(settings_moved_n(s, keys, (n - 1) as nat), keys)
    }
}

/// Axis independence: any number of frames in which only horizontal keys are
/// held leaves the vertical axis's step, its update count and the vertical
/// translation exactly as they were.
pub proof fn lemma_horizontal_keeps_vertical(s: SettingsView, keys: KeysHeld, n: nat)
    requires
        horizontal_only(keys),
    ensures
        settings_moved_n(s, keys, n).vertical == s.vertical,
        settings_moved_n(s, keys, n).landslide.y == s.landslide.y,
    decreases n,
{
    if n > 0 {
        lemma_horizontal_keeps_vertical(s, keys, (n - 1) as nat);
    }
}

/// Axis independence, the other way: any number of frames in which only
/// vertical keys are held leaves the horizontal axis's step, its update
/// count and the horizontal translation exactly as they were.
pub proof fn lemma_vertical_keeps_horizontal(s: SettingsView, keys: KeysHeld, n: nat)
    requires
        vertical_only(keys),
    ensures
        settings_moved_n(s, keys, n).horizontal == s.horizontal,
        settings_moved_n(s, keys, n).landslide.x == s.landslide.x,
    decreases n,
{
    if n > 0 {
        lemma_vertical_keeps_horizontal(s, keys, (n - 1) as nat);
    }
}

} // verus!
