use vstd::prelude::*;
use vstd::arithmetic::div_mod::lemma_fundamental_div_mod;

verus! {

/// Largest supported scale factor, in milliunits (a factor of 1000.0).
pub const SCALE_MAX_MILLI: u32 = 1_000_000;

/// Largest magnitude a stored logical component may take, in milliunits.
pub const LOGICAL_ABS_MAX_MILLI: i64 = 9_000_000_000_000_000;

/// Largest magnitude accepted for a raw physical-space coordinate, in
/// milliunits of a physical pixel.
pub const COORD_ABS_MAX_MILLI: i64 = 1_000_000_000_000;

/// Bound on logical components produced from raw physical-space coordinates:
/// a coordinate of at most `COORD_ABS_MAX_MILLI` divided by a scale factor of
/// at least one thousandth stays below this.
pub const POS_LIMIT_MILLI: i64 = 2_000_000_000_000_000;

pub open spec fn valid_scale_milli(s: int) -> bool {
    1 <= s <= SCALE_MAX_MILLI as int
}

pub open spec fn valid_logical_milli(v: int) -> bool {
    -(LOGICAL_ABS_MAX_MILLI as int) <= v <= LOGICAL_ABS_MAX_MILLI as int
}

pub open spec fn valid_coord_milli(v: int) -> bool {
    -(COORD_ABS_MAX_MILLI as int) <= v <= COORD_ABS_MAX_MILLI as int
}

/// Integer division rounding to the nearest multiple, halves away from zero:
/// the rounding that converting a logical quantity to whole physical pixels uses.
pub open spec fn round_div(n: int, d: int) -> int
    recommends
        d >= 1,
{
    if n >= 0 {
        (2 * n + d) / (2 * d)
    } else {
        -((2 * (-n) + d) / (2 * d))
    }
}

/// `round_div(n, d)` differs from the exact quotient by at most one half:
/// `|d * round_div(n, d) - n| <= d / 2`, stated multiplied out to stay in integers.
pub proof fn lemma_round_div_error(n: int, d: int)
    requires
        d >= 1,
    ensures
        -d <= 2 * (d * round_div(n, d) - n),
        2 * (d * round_div(n, d) - n) <= d,
{
    if n >= 0 {
        let q = (2 * n + d) / (2 * d);
        lemma_fundamental_div_mod(2 * n + d, 2 * d);
        let r = (2 * n + d) % (2 * d);
        assert(0 <= r < 2 * d) by {
            vstd::arithmetic::div_mod::lemma_mod_bound(2 * n + d, 2 * d);
        }
        assert(2 * n + d == (2 * d) * q + r);
        assert(2 * (d * q - n) == d - r) by (nonlinear_arith)
            requires
                2 * n + d == (2 * d) * q + r,
        ;
        assert(round_div(n, d) == q);
    } else {
        let m = -n;
        let q = (2 * m + d) / (2 * d);
        lemma_fundamental_div_mod(2 * m + d, 2 * d);
        let r = (2 * m + d) % (2 * d);
        assert(0 <= r < 2 * d) by {
            vstd::arithmetic::div_mod::lemma_mod_bound(2 * m + d, 2 * d);
        }
        assert(2 * m + d == (2 * d) * q + r);
        assert(2 * (d * q - m) == d - r) by (nonlinear_arith)
            requires
                2 * m + d == (2 * d) * q + r,
        ;
        assert(round_div(n, d) == -q);
        assert(2 * (d * (-q) - n) == -(2 * (d * q - m))) by (nonlinear_arith)
            requires
                m == -n,
        ;
    }
}

/// Magnitude of the rounded quotient: `|d * round_div(n, d)| <= |n| + d`.
pub proof fn lemma_round_div_bound(n: int, d: int)
    requires
        d >= 1,
    ensures
        n - d <= d * round_div(n, d),
        d * round_div(n, d) <= n + d,
{
    lemma_round_div_error(n, d);
}

/// The abstract value of a [`Screen2d`]: both logical components and the scale
/// factor, all in milliunits, as unbounded integers.
pub struct ScreenView {
    pub x: int,
    pub y: int,
    pub scale: int,
}

/// Represents a 2D screen position or size. There are two ways of accessing the
/// data -- either logical (size independent of display density) or physical
/// (actual pixels). All stored arithmetic happens in logical space, so that
/// accumulated deltas stay density-independent until a pixel value is needed.
///
/// Components are kept in milliunits (thousandths of a logical unit), and the
/// scale factor in thousandths, so all conversions are exact integer rounding.
#[derive(Clone, Copy, PartialEq, Eq, Hash, Debug, Structural)]
pub struct Screen2d {
    logical_x: i64,
    logical_y: i64,
    hidpi_factor: u32,
}

impl View for Screen2d {
    type V = ScreenView;

    closed spec fn view(&self) -> ScreenView {
        ScreenView { x: self.logical_x as int, y: self.logical_y as int, scale: self.hidpi_factor as int }
    }
}

impl Screen2d {
    /// Every `Screen2d` carries a strictly positive scale factor and bounded components.
    #[verifier::type_invariant]
    pub open spec fn wf(self) -> bool {
        valid_scale_milli(self@.scale) && valid_logical_milli(self@.x) && valid_logical_milli(self@.y)
    }

    /// Spec-level constructor from logical milliunits.
    pub closed spec fn spec_from_logical(x: int, y: int, s: int) -> Screen2d {
        Screen2d { logical_x: x as i64, logical_y: y as i64, hidpi_factor: s as u32 }
    }

    /// In-range arguments are reflected unchanged in the view.
    pub proof fn lemma_spec_from_logical(x: int, y: int, s: int)
        requires
            valid_logical_milli(x),
            valid_logical_milli(y),
            valid_scale_milli(s),
        ensures
            Self::spec_from_logical(x, y, s)@ == (ScreenView { x, y, scale: s }),
            Self::spec_from_logical(x, y, s).wf(),
    {
    }

    /// Spec-level constructor from a physical position in milliunits of a pixel.
    pub open spec fn spec_from_physical_milli(px: int, py: int, s: int) -> Screen2d {
        Self::spec_from_logical(round_div(px * 1000, s), round_div(py * 1000, s), s)
    }

    /// Spec-level constructor from whole physical pixels.
    pub open spec fn spec_from_physical_px(px: int, py: int, s: int) -> Screen2d {
        Self::spec_from_logical(round_div(px * 1_000_000, s), round_div(py * 1_000_000, s), s)
    }

    /// Spec-level value of a wheel-line delta: lines (in milli) times the
    /// logical line height (in milli), rounded to logical milliunits.
    pub open spec fn spec_from_line_delta(dx: int, dy: int, line_height: int, s: int) -> Screen2d {
        Self::spec_from_logical(round_div(dx * line_height, 1000), round_div(dy * line_height, 1000), s)
    }

    /// Component-wise sum in logical space; the scale factor of the left operand is kept.
    pub open spec fn spec_add(self, other: Screen2d) -> Screen2d {
        Self::spec_from_logical(self@.x + other@.x, self@.y + other@.y, self@.scale)
    }

    /// Component-wise difference in logical space; the scale factor of the left operand is kept.
    pub open spec fn spec_sub(self, other: Screen2d) -> Screen2d {
        Self::spec_from_logical(self@.x - other@.x, self@.y - other@.y, self@.scale)
    }

    /// The physical pixel value of one logical component, before clamping.
    pub open spec fn spec_physical_of(v: int, s: int) -> int {
        round_div(v * s, 1_000_000)
    }

    /// Constructs from a logical value (milliunits) and a scale factor (milliunits).
    /// The scale factor must be strictly positive.
    pub fn from_logical(logical: [i64; 2], hidpi_factor: u32) -> (r: Screen2d)
        requires
            valid_logical_milli(logical[0] as int),
            valid_logical_milli(logical[1] as int),
            valid_scale_milli(hidpi_factor as int),
        ensures
            r == Self::spec_from_logical(logical[0] as int, logical[1] as int, hidpi_factor as int),
            r@.x == logical[0] as int,
            r@.y == logical[1] as int,
            r@.scale == hidpi_factor as int,
    {
        let x = logical[0];
        let y = logical[1];
        Screen2d { logical_x: x, logical_y: y, hidpi_factor }
    }

    /// The logical value, in milliunits.
    pub fn logical(&self) -> (r: [i64; 2])
        ensures
            r[0] as int == self@.x,
            r[1] as int == self@.y,
    {
        [self.logical_x, self.logical_y]
    }

    /// The scale factor, in milliunits.
    pub fn hidpi_factor_milli(&self) -> (r: u32)
        ensures
            r as int == self@.scale,
            valid_scale_milli(r as int),
    {
        proof {
            use_type_invariant(self);
        }
        self.hidpi_factor
    }

    /// Constructs from a physical pixel value (whole pixels); the logical value
    /// is back-computed by rounded division.
    pub fn from_physical(physical: [i32; 2], hidpi_factor: u32) -> (r: Screen2d)
        requires
            valid_scale_milli(hidpi_factor as int),
        ensures
            r == Self::spec_from_physical_px(physical[0] as int, physical[1] as int, hidpi_factor as int),
            r@.x == round_div(physical[0] as int * 1_000_000, hidpi_factor as int),
            r@.y == round_div(physical[1] as int * 1_000_000, hidpi_factor as int),
            r@.scale == hidpi_factor as int,
    {
        let x = physical_px_to_logical(physical[0] as i64, hidpi_factor);
        let y = physical_px_to_logical(physical[1] as i64, hidpi_factor);
        Screen2d { logical_x: x, logical_y: y, hidpi_factor }
    }

    /// Constructs from an unsigned physical pixel value (whole pixels).
    pub fn from_physical_u32(physical: [u32; 2], hidpi_factor: u32) -> (r: Screen2d)
        requires
            valid_scale_milli(hidpi_factor as int),
        ensures
            r == Self::spec_from_physical_px(physical[0] as int, physical[1] as int, hidpi_factor as int),
            r@.x == round_div(physical[0] as int * 1_000_000, hidpi_factor as int),
            r@.y == round_div(physical[1] as int * 1_000_000, hidpi_factor as int),
            r@.scale == hidpi_factor as int,
    {
        let x = physical_px_to_logical(physical[0] as i64, hidpi_factor);
        let y = physical_px_to_logical(physical[1] as i64, hidpi_factor);
        Screen2d { logical_x: x, logical_y: y, hidpi_factor }
    }

    /// Constructs from a physical position given in milliunits of a pixel.
    pub fn from_physical_milli(physical: [i64; 2], hidpi_factor: u32) -> (r: Screen2d)
        requires
            valid_coord_milli(physical[0] as int),
            valid_coord_milli(physical[1] as int),
            valid_scale_milli(hidpi_factor as int),
        ensures
            r == Self::spec_from_physical_milli(physical[0] as int, physical[1] as int, hidpi_factor as int),
            -(POS_LIMIT_MILLI as int) <= r@.x <= POS_LIMIT_MILLI as int,
            -(POS_LIMIT_MILLI as int) <= r@.y <= POS_LIMIT_MILLI as int,
            r@.scale == hidpi_factor as int,
    {
        let x = physical_milli_to_logical(physical[0], hidpi_factor);
        let y = physical_milli_to_logical(physical[1], hidpi_factor);
        Screen2d { logical_x: x, logical_y: y, hidpi_factor }
    }

    /// Constructs a wheel delta from line counts (milliunits of a line) and a
    /// logical line height (milliunits).
    pub(crate) fn from_line_delta(delta_x: i64, delta_y: i64, line_height: u32, hidpi_factor: u32) -> (r: Screen2d)
        requires
            valid_coord_milli(delta_x as int),
            valid_coord_milli(delta_y as int),
            1000 <= line_height <= 1_000_000,
            valid_scale_milli(hidpi_factor as int),
        ensures
            r == Self::spec_from_line_delta(delta_x as int, delta_y as int, line_height as int, hidpi_factor as int),
            r@.scale == hidpi_factor as int,
    {
        let x = line_delta_to_logical(delta_x, line_height);
        let y = line_delta_to_logical(delta_y, line_height);
        Screen2d { logical_x: x, logical_y: y, hidpi_factor }
    }

    /// The physical pixel value: logical times scale, rounded to the nearest
    /// whole pixel, saturated at the bounds of `i32`.
    pub fn physical(&self) -> (r: [i32; 2])
        ensures
            r[0] as int == clamp_i32(Self::spec_physical_of(self@.x, self@.scale)),
            r[1] as int == clamp_i32(Self::spec_physical_of(self@.y, self@.scale)),
    {
        proof {
            use_type_invariant(self);
        }
        let x = logical_to_physical_px(self.logical_x, self.hidpi_factor);
        let y = logical_to_physical_px(self.logical_y, self.hidpi_factor);
        [x, y]
    }

    /// The physical pixel value as unsigned integers. Callers must range-check
    /// first: requesting the unsigned form of a negative value is a caller fault.
    pub fn physical_u32(&self) -> (r: [u32; 2])
        requires
            Self::spec_physical_of(self@.x, self@.scale) >= 0,
            Self::spec_physical_of(self@.y, self@.scale) >= 0,
        ensures
            r[0] as int == clamp_i32(Self::spec_physical_of(self@.x, self@.scale)),
            r[1] as int == clamp_i32(Self::spec_physical_of(self@.y, self@.scale)),
    {
        let phys = self.physical();
        [phys[0] as u32, phys[1] as u32]
    }

    /// Component-wise sum in logical space. The result keeps the scale factor
    /// of `self`, even when the operands' factors differ.
    pub fn add(self, other: Screen2d) -> (r: Screen2d)
        requires
            valid_logical_milli(self@.x + other@.x),
            valid_logical_milli(self@.y + other@.y),
        ensures
            r == self.spec_add(other),
            r@.x == self@.x + other@.x,
            r@.y == self@.y + other@.y,
            r@.scale == self@.scale,
    {
        proof {
            use_type_invariant(&self);
            use_type_invariant(&other);
        }
        Screen2d {
            logical_x: self.logical_x + other.logical_x,
            logical_y: self.logical_y + other.logical_y,
            hidpi_factor: self.hidpi_factor,
        }
    }

    /// `self = self.add(other)`, component-wise in logical space.
    pub fn add_assign(&mut self, other: Screen2d)
        requires
            valid_logical_milli(old(self)@.x + other@.x),
            valid_logical_milli(old(self)@.y + other@.y),
        ensures
            *final(self) == old(self).spec_add(other),
    {
        *self = self.add(other);
    }

    /// `self = self.sub(other)`, component-wise in logical space.
    pub fn sub_assign(&mut self, other: Screen2d)
        requires
            valid_logical_milli(old(self)@.x - other@.x),
            valid_logical_milli(old(self)@.y - other@.y),
        ensures
            *final(self) == old(self).spec_sub(other),
    {
        *self = self.sub(other);
    }

    /// Component-wise difference in logical space. The result keeps the scale
    /// factor of `self`, even when the operands' factors differ.
    pub fn sub(self, other: Screen2d) -> (r: Screen2d)
        requires
            valid_logical_milli(self@.x - other@.x),
            valid_logical_milli(self@.y - other@.y),
        ensures
            r == self.spec_sub(other),
            r@.x == self@.x - other@.x,
            r@.y == self@.y - other@.y,
            r@.scale == self@.scale,
    {
        proof {
            use_type_invariant(&self);
            use_type_invariant(&other);
        }
        Screen2d {
            logical_x: self.logical_x - other.logical_x,
            logical_y: self.logical_y - other.logical_y,
            hidpi_factor: self.hidpi_factor,
        }
    }
}

/// Saturation of an integer to the range of `i32`.
pub open spec fn clamp_i32(v: int) -> int {
    if v < i32::MIN as int {
        i32::MIN as int
    } else if v > i32::MAX as int {
        i32::MAX as int
    } else {
        v
    }
}

/// Rounded division of a non-negative numerator, exactly `round_div`.
fn round_div_nat(n: u128, d: u128) -> (q: u128)
    requires
        1 <= d <= 0x1_0000_0000u128,
        n <= 100_000_000_000_000_000_000_000u128,
    ensures
        q as int == round_div(n as int, d as int),
        q <= n + d,
{
    let q = (2 * n + d) / (2 * d);
    proof {
        lemma_round_div_bound(n as int, d as int);
        let qi = round_div(n as int, d as int);
        assert(qi >= 0);
        assert(qi <= d * qi) by (nonlinear_arith)
            requires
                d >= 1,
                qi >= 0,
        ;
    }
    q
}

/// Rounded division of a signed numerator by a positive divisor, halves away
/// from zero, exactly `round_div`.
fn round_div_signed(n: i128, d: u32) -> (q: i128)
    requires
        d >= 1,
        -100_000_000_000_000_000_000_000i128 <= n <= 100_000_000_000_000_000_000_000i128,
    ensures
        q as int == round_div(n as int, d as int),
{
    if n >= 0 {
        let q = round_div_nat(n as u128, d as u128);
        q as i128
    } else {
        let m = -n;
        let q = round_div_nat(m as u128, d as u128);
        -(q as i128)
    }
}

/// Shared bound: for `|n| <= n_abs` the rounded quotient of `n` by `d >= 1`
/// lies within `n_abs / d + 1`.
proof fn lemma_round_div_within(n: int, d: int, n_abs: int)
    requires
        d >= 1,
        0 <= n_abs,
        -n_abs <= n <= n_abs,
    ensures
        -(n_abs / d + 1) <= round_div(n, d) <= n_abs / d + 1,
        n_abs / d <= n_abs,
{
    lemma_round_div_bound(n, d);
    let q = round_div(n, d);
    let b = n_abs / d + 1;
    lemma_fundamental_div_mod(n_abs, d);
    vstd::arithmetic::div_mod::lemma_mod_bound(n_abs, d);
    assert(q <= b && -b <= q && n_abs / d <= n_abs) by (nonlinear_arith)
        requires
            d >= 1,
            d * q <= n_abs + d,
            -(n_abs + d) <= d * q,
            n_abs == d * (n_abs / d) + n_abs % d,
            0 <= n_abs % d < d,
            0 <= n_abs,
            b == n_abs / d + 1,
    ;
}

/// One logical component from whole physical pixels.
fn physical_px_to_logical(p: i64, s: u32) -> (r: i64)
    requires
        valid_scale_milli(s as int),
        -5_000_000_000i64 <= p <= 5_000_000_000i64,
    ensures
        r as int == round_div(p as int * 1_000_000, s as int),
        valid_logical_milli(r as int),
{
    let n: i128 = (p as i128) * 1_000_000;
    proof {
        lemma_round_div_within(p as int * 1_000_000, s as int, 5_000_000_000_000_000);
    }
    let q = round_div_signed(n, s);
    q as i64
}

/// One logical component from a physical position in milliunits of a pixel.
fn physical_milli_to_logical(p: i64, s: u32) -> (r: i64)
    requires
        valid_scale_milli(s as int),
        valid_coord_milli(p as int),
    ensures
        r as int == round_div(p as int * 1000, s as int),
        -(POS_LIMIT_MILLI as int) <= r as int <= POS_LIMIT_MILLI as int,
{
    let n: i128 = (p as i128) * 1000;
    proof {
        lemma_round_div_within(p as int * 1000, s as int, 1_000_000_000_000_000);
    }
    let q = round_div_signed(n, s);
    q as i64
}

/// One logical component from a line-delta times the logical line height.
fn line_delta_to_logical(d_milli: i64, line_height: u32) -> (r: i64)
    requires
        valid_coord_milli(d_milli as int),
        1000 <= line_height <= 1_000_000,
    ensures
        r as int == round_div(d_milli as int * line_height as int, 1000),
        valid_logical_milli(r as int),
{
    proof {
        assert(-1_000_000_000_000_000_000 <= d_milli as int * line_height as int
            <= 1_000_000_000_000_000_000) by (nonlinear_arith)
            requires
                -1_000_000_000_000 <= d_milli as int <= 1_000_000_000_000,
                1000 <= line_height as int <= 1_000_000,
        ;
        lemma_round_div_within(d_milli as int * line_height as int, 1000, 1_000_000_000_000_000_000);
    }
    let n: i128 = (d_milli as i128) * (line_height as i128);
    let q = round_div_signed(n, 1000);
    q as i64
}

/// One physical pixel component: logical times scale, rounded, saturated to `i32`.
fn logical_to_physical_px(v: i64, s: u32) -> (r: i32)
    requires
        valid_logical_milli(v as int),
        valid_scale_milli(s as int),
    ensures
        r as int == clamp_i32(Screen2d::spec_physical_of(v as int, s as int)),
{
    proof {
        assert(-9_000_000_000_000_000_000_000 <= v as int * s as int
            <= 9_000_000_000_000_000_000_000) by (nonlinear_arith)
            requires
                -9_000_000_000_000_000 <= v as int <= 9_000_000_000_000_000,
                1 <= s as int <= 1_000_000,
        ;
    }
    let n: i128 = (v as i128) * (s as i128);
    let q = round_div_signed(n, 1_000_000);
    if q < i32::MIN as i128 {
        i32::MIN
    } else if q > i32::MAX as i128 {
        i32::MAX
    } else {
        q as i32
    }
}

/// LAW: converting a logical value to physical pixels and back with the same
/// strictly positive scale factor moves it by at most one physical pixel in
/// logical space — and by at most one logical unit when the factor is at
/// least one. `l` is the logical value and `s` the scale factor, both in
/// milliunits; `p` is the physical pixel value and `l2` the logical value
/// read back from it.
pub proof fn lemma_logical_physical_round_trip(l: int, s: int)
    requires
        valid_scale_milli(s),
        valid_logical_milli(l),
    ensures
        ({
            let p = round_div(l * s, 1_000_000);
            let l2 = round_div(p * 1_000_000, s);
            &&& -1_000_000 <= s * (l2 - l) <= 1_000_000
            &&& (s >= 1000 ==> -1000 <= l2 - l <= 1000)
        }),
{
    let p = round_div(l * s, 1_000_000);
    let l2 = round_div(p * 1_000_000, s);
    lemma_round_div_error(l * s, 1_000_000);
    lemma_round_div_error(p * 1_000_000, s);
    assert(2 * (s * (l2 - l)) == 2 * (s * l2 - p * 1_000_000) + 2 * (1_000_000 * p - l * s))
        by (nonlinear_arith);
    assert(-1_000_000 <= s * (l2 - l) <= 1_000_000);
    if s >= 1000 {
        assert(-1000 <= l2 - l <= 1000) by (nonlinear_arith)
            requires
                s >= 1000,
                -1_000_000 <= s * (l2 - l) <= 1_000_000,
        ;
    }
}

} // verus!
