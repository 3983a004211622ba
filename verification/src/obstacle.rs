//! Scene obstacles: what a path segment collides with, and where.
//!
//! A segment runs between two consecutive positions of a ray. Each obstacle
//! decides from the two positions alone whether the segment meets it, and
//! reports the place as a fraction of the way from the first position to the
//! second. Two kinds of obstacle end on a test that only real-number
//! arithmetic can make; for those the decision is handed back to the caller as
//! a `Contact` that names the test, and `Contact::settle` takes its outcome.

use vstd::prelude::*;
use crate::fraction::Fraction;

verus! {

/// The number of angle units in a half turn.
pub const HALF_TURN: i64 = 0x4000_0000;

/// The number of angle units in a quarter turn: the polar angle of the
/// equatorial plane.
pub const QUARTER_TURN: i64 = 0x2000_0000;

/// Colours of a black body, one row for every thousand kelvins from 0 to
/// 20000, as red, green and blue in ten-thousandths of a full channel.
pub const BLACKBODY_INTERP: [[u32; 3]; 21] = [
    [0, 0, 0],
    [10000, 401, 0],
    [10000, 2484, 61],
    [10000, 4589, 1483],
    [10000, 6354, 3684],
    [10000, 7792, 6180],
    [10000, 8952, 8666],
    [9102, 9000, 10000],
    [7644, 8139, 10000],
    [6693, 7541, 10000],
    [6033, 7106, 10000],
    [5551, 6776, 10000],
    [5187, 6519, 10000],
    [4904, 6314, 10000],
    [4677, 6146, 10000],
    [4493, 6007, 10000],
    [4341, 5890, 10000],
    [4212, 5791, 10000],
    [4103, 5705, 10000],
    [4009, 5630, 10000],
    [3928, 5565, 10000],
];

/// The temperature of the table's last row, in kelvins; hotter bodies have
/// its colour.
pub const HOTTEST: u64 = 20000;

/// The value of a full channel in a colour that `accretion_texture` returns.
pub const FULL_TINT: u64 = 10_000_000;

/// Three channels of light: a colour, or an amount of radiance.
#[derive(Clone, Copy, Debug, PartialEq, Eq, Structural)]
pub struct Rgb {
    pub r: u64,
    pub g: u64,
    pub b: u64,
}

/// One position of a ray, as far as the obstacles read it.
#[derive(Clone, Copy, Debug, PartialEq, Eq, Structural)]
pub struct Position {
    /// Radial coordinate, a length.
    pub radius: i64,
    /// Polar angle, in angle units; any integer, folded before use.
    pub polar: i64,
    /// Signed height above the equatorial plane, a length: the radius times
    /// the sine of the polar angle's distance from a quarter turn.
    pub altitude: i64,
}

/// The obstacles of a scene.
#[derive(Clone, Copy, Debug, PartialEq, Eq, Structural)]
pub enum Obstacle {
    /// The event horizon of radius `r`: nothing leaves it.
    BlackHole { r: i64 },
    /// An early exit for rays that are aimed at the horizon of radius `r`.
    BlackHolePredict { r: i64 },
    /// The outer limit of the scene, at radius `r`.
    MaxDistance { r: i64 },
    /// A flat ring in the equatorial plane between two radii.
    Ring { r_min: i64, r_max: i64 },
    /// A slab around the equatorial plane between two radii, `thickness` high,
    /// that lets part of the light through.
    AccretionDisk { r_min: i64, r_max: i64, thickness: i64 },
}

/// What an obstacle makes of a segment.
#[derive(Clone, Copy, Debug, PartialEq, Eq, Structural)]
pub enum Contact {
    /// The segment does not meet the obstacle.
    Miss,
    /// The segment meets the obstacle at the fraction `at` of its length.
    Hit { at: Fraction },
    /// The segment ends close enough to the horizon for the silhouette test:
    /// it collides, at its start, if and only if the test finds it aimed at
    /// the horizon's disk.
    Aimed,
    /// The segment runs through the slab for the fraction `inside` of its
    /// length: it collides at `at` if and only if the transmission test
    /// fires for that length.
    Transit { at: Fraction, inside: Fraction },
}

/// Where a ray ended on an obstacle.
#[derive(Clone, Copy, Debug, PartialEq, Eq, Structural)]
pub struct CollisionPoint {
    /// Index of the obstacle in the scene's list.
    pub obstacle: usize,
    /// Fraction of the last segment at which the ray met it.
    pub at: Fraction,
}

/// The absolute value of an integer.
pub open spec fn magnitude(x: int) -> int {
    if x < 0 {
        -x
    } else {
        x
    }
}

/// A polar angle brought into the range from 0 up to a half turn: its
/// magnitude, less whole half turns.
pub open spec fn fold_polar(polar: int) -> int {
    magnitude(polar) % (HALF_TURN as int)
}

/// How far the folded polar angle moves along the segment, signed.
pub open spec fn polar_travel(from: Position, to: Position) -> int {
    fold_polar(to.polar as int) - fold_polar(from.polar as int)
}

/// How far the segment's start lies from the equatorial plane in folded polar
/// angle, signed.
pub open spec fn polar_gap(from: Position) -> int {
    QUARTER_TURN - fold_polar(from.polar as int)
}

/// Denominator of the crossing fraction: the magnitude of the polar travel.
pub open spec fn crossing_den(from: Position, to: Position) -> int {
    magnitude(polar_travel(from, to))
}

/// Numerator of the crossing fraction: the polar gap, with the sign that
/// makes the denominator positive.
pub open spec fn crossing_num(from: Position, to: Position) -> int {
    if polar_travel(from, to) < 0 {
        -polar_gap(from)
    } else {
        polar_gap(from)
    }
}

/// The radius at the crossing fraction, by linear interpolation between the
/// two radii, times `crossing_den`.
pub open spec fn crossing_radius_scaled(from: Position, to: Position) -> int {
    from.radius * (crossing_den(from, to) - crossing_num(from, to)) + to.radius * crossing_num(
        from,
        to,
    )
}

/// The interpolated radius at the crossing lies between `r_min` and `r_max`,
/// both included.
pub open spec fn crossing_in_band(from: Position, to: Position, r_min: int, r_max: int) -> bool {
    r_min * crossing_den(from, to) <= crossing_radius_scaled(from, to) <= r_max * crossing_den(
        from,
        to,
    )
}

/// The crossing fraction as a value.
pub open spec fn crossing(from: Position, to: Position) -> Fraction {
    Fraction { num: crossing_num(from, to) as i128, den: crossing_den(from, to) as i128 }
}

/// The altitude lies within the slab of the given thickness, faces included.
pub open spec fn in_slab(altitude: int, thickness: int) -> bool {
    2 * magnitude(altitude) <= thickness
}

/// Both altitudes lie strictly on the same side of the equatorial plane.
pub open spec fn same_side(a: int, b: int) -> bool {
    (a > 0 && b > 0) || (a < 0 && b < 0)
}

/// The altitude `a`, counted in the direction in which the segment climbs.
pub open spec fn along_climb(from: Position, to: Position, a: int) -> int {
    if to.altitude > from.altitude {
        a
    } else {
        -a
    }
}

/// Twice the height that the segment climbs or descends.
pub open spec fn slab_den(from: Position, to: Position) -> int {
    2 * magnitude(to.altitude - from.altitude)
}

/// The contact that the horizon and the outer limit report for a segment
/// that they stop: a collision at the segment's start.
pub open spec fn hit_at_start() -> Contact {
    Contact::Hit { at: Fraction { num: 0, den: 1 } }
}

/// The ring's rule: the segment crosses the equatorial plane, between its two
/// ends, at a radius within the ring.
pub open spec fn ring_contact(from: Position, to: Position, r_min: int, r_max: int) -> Contact {
    if crossing_den(from, to) > 0 && 0 <= crossing_num(from, to) <= crossing_den(from, to)
        && crossing_in_band(from, to, r_min, r_max) {
        Contact::Hit { at: crossing(from, to) }
    } else {
        Contact::Miss
    }
}

/// The disk's rule.
///
/// No contact where both ends lie outside the slab on the same side, where the
/// polar angle does not move, where the crossing lies further than two
/// segment lengths away, or where its radius is outside the disk. Otherwise
/// the length inside the slab is the whole segment (both ends inside), the
/// part behind the face that was entered (only the end inside), the part
/// before the face that was left (only the start inside), or the slab's
/// thickness over the height climbed (both ends outside, crossing between
/// them).
pub open spec fn disk_contact(
    from: Position,
    to: Position,
    r_min: int,
    r_max: int,
    thickness: int,
) -> Contact {
    let a1 = from.altitude as int;
    let a2 = to.altitude as int;
    if same_side(a1, a2) && !in_slab(a1, thickness) && !in_slab(a2, thickness) {
        Contact::Miss
    } else if crossing_den(from, to) == 0 || magnitude(crossing_num(from, to)) > 2 * crossing_den(
        from,
        to,
    ) || !crossing_in_band(from, to, r_min, r_max) {
        Contact::Miss
    } else if in_slab(a1, thickness) && in_slab(a2, thickness) {
        Contact::Transit {
            at: Fraction { num: 1, den: 2 },
            inside: Fraction { num: 1, den: 1 },
        }
    } else if in_slab(a2, thickness) {
        Contact::Transit {
            at: Fraction { num: 1, den: 1 },
            inside: Fraction {
                num: (thickness + 2 * along_climb(from, to, a2)) as i128,
                den: slab_den(from, to) as i128,
            },
        }
    } else if in_slab(a1, thickness) {
        Contact::Transit {
            at: Fraction { num: 0, den: 1 },
            inside: Fraction {
                num: (thickness - 2 * along_climb(from, to, a1)) as i128,
                den: slab_den(from, to) as i128,
            },
        }
    } else if 0 <= crossing_num(from, to) <= crossing_den(from, to) {
        Contact::Transit {
            at: crossing(from, to),
            inside: Fraction { num: (2 * thickness) as i128, den: slab_den(from, to) as i128 },
        }
    } else {
        Contact::Miss
    }
}

/// A temperature in kelvins, held to the range that the table covers.
pub open spec fn clamped_temperature(temperature: int) -> int {
    if temperature > HOTTEST {
        HOTTEST as int
    } else {
        temperature
    }
}

/// One channel of a black body's colour at a temperature within the table's
/// range: the two rows next to the temperature, each weighted by the distance
/// to the other in kelvins. A full channel is `FULL_TINT`.
pub open spec fn blackbody_channel(temperature: int, channel: int) -> int {
    let row = temperature / 1000;
    let above = temperature % 1000;
    if row >= 20 {
        BLACKBODY_INTERP[20][channel] * 1000
    } else {
        BLACKBODY_INTERP[row][channel] * (1000 - above) + BLACKBODY_INTERP[row + 1][channel]
            * above
    }
}

/// The colour of a black body of the given temperature in kelvins.
pub open spec fn blackbody(temperature: int) -> Rgb {
    let t = clamped_temperature(temperature);
    Rgb {
        r: blackbody_channel(t, 0) as u64,
        g: blackbody_channel(t, 1) as u64,
        b: blackbody_channel(t, 2) as u64,
    }
}

/// The colour of the accretion texture at a place whose effective temperature
/// is `temperature` kelvins: read from the black-body table, interpolated
/// between its rows, and that of the hottest row for any hotter place.
pub fn accretion_texture(temperature: u64) -> (tint: Rgb)
    ensures
        tint == blackbody(temperature as int),
        tint.r <= FULL_TINT && tint.g <= FULL_TINT && tint.b <= FULL_TINT,
{
    let t: u64 = if temperature > HOTTEST {
        HOTTEST
    } else {
        temperature
    };
    let row: usize = (t / 1000) as usize;
    let above: u64 = t % 1000;
    Rgb {
        r: table_channel(row, above, 0),
        g: table_channel(row, above, 1),
        b: table_channel(row, above, 2),
    }
}

/// One channel of the table's colour `above` kelvins over row `row`.
fn table_channel(row: usize, above: u64, channel: usize) -> (value: u64)
    requires
        row <= 20,
        above < 1000,
        channel < 3,
    ensures
        value == blackbody_channel(row * 1000 + above, channel as int),
        value <= FULL_TINT,
{
    assert(forall|i: int, c: int|
        0 <= i <= 20 && 0 <= c < 3 ==> #[trigger] BLACKBODY_INTERP[i][c] <= 10000);
    let low: u64 = BLACKBODY_INTERP[row][channel] as u64;
    if row >= 20 {
        low * 1000
    } else {
        let high: u64 = BLACKBODY_INTERP[row + 1][channel] as u64;
        assert(low * (1000 - above) + high * above <= 10000 * (1000 - above) + 10000 * above)
            by (nonlinear_arith)
            requires
                low <= 10000,
                high <= 10000,
                above < 1000,
        ;
        low * (1000 - above) + high * above
    }
}

impl Obstacle {
    /// What this obstacle makes of the segment from `from` to `to`.
    pub open spec fn contact(self, from: Position, to: Position) -> Contact {
        match self {
            Obstacle::BlackHole { r } => if to.radius <= r {
                hit_at_start()
            } else {
                Contact::Miss
            },
            Obstacle::MaxDistance { r } => if to.radius >= r {
                hit_at_start()
            } else {
                Contact::Miss
            },
            Obstacle::BlackHolePredict { r } => if 2 * to.radius >= 3 * r {
                Contact::Miss
            } else {
                Contact::Aimed
            },
            Obstacle::Ring { r_min, r_max } => ring_contact(from, to, r_min as int, r_max as int),
            Obstacle::AccretionDisk { r_min, r_max, thickness } => disk_contact(
                from,
                to,
                r_min as int,
                r_max as int,
                thickness as int,
            ),
        }
    }

    /// Tests the segment from `from` to `to` against this obstacle.
    pub fn collision(&self, from: &Position, to: &Position) -> (c: Contact)
        ensures
            c == self.contact(*from, *to),
    {
        match self {
            Obstacle::BlackHole { r } => {
                if to.radius <= *r {
                    Contact::Hit { at: Fraction::zero() }
                } else {
                    Contact::Miss
                }
            },
            Obstacle::MaxDistance { r } => {
                if to.radius >= *r {
                    Contact::Hit { at: Fraction::zero() }
                } else {
                    Contact::Miss
                }
            },
            Obstacle::BlackHolePredict { r } => {
                let reach: i128 = 2 * (to.radius as i128);
                let sphere: i128 = 3 * (*r as i128);
                if reach >= sphere {
                    Contact::Miss
                } else {
                    Contact::Aimed
                }
            },
            Obstacle::Ring { r_min, r_max } => {
                let (num, den): (i128, i128) = crossing_parts(from, to);
                if den > 0 && 0 <= num && num <= den && radius_in_band(
                    from,
                    to,
                    num,
                    den,
                    *r_min,
                    *r_max,
                ) {
                    Contact::Hit { at: Fraction { num, den } }
                } else {
                    Contact::Miss
                }
            },
            Obstacle::AccretionDisk { r_min, r_max, thickness } => {
                let a1: i128 = from.altitude as i128;
                let a2: i128 = to.altitude as i128;
                let t: i128 = *thickness as i128;
                let start_inside: bool = 2 * abs_wide(from.altitude) <= t;
                let end_inside: bool = 2 * abs_wide(to.altitude) <= t;
                if ((a1 > 0 && a2 > 0) || (a1 < 0 && a2 < 0)) && !start_inside && !end_inside {
                    return Contact::Miss;
                }
                let (num, den): (i128, i128) = crossing_parts(from, to);
                if den == 0 || num > 2 * den || -num > 2 * den {
                    return Contact::Miss;
                }
                if !radius_in_band(from, to, num, den, *r_min, *r_max) {
                    return Contact::Miss;
                }
                let climbs: bool = a2 > a1;
                let height: i128 = if climbs {
                    2 * (a2 - a1)
                } else {
                    2 * (a1 - a2)
                };
                if start_inside && end_inside {
                    Contact::Transit { at: Fraction::half(), inside: Fraction::one() }
                } else if end_inside {
                    let part: i128 = if climbs {
                        t + 2 * a2
                    } else {
                        t - 2 * a2
                    };
                    Contact::Transit {
                        at: Fraction::one(),
                        inside: Fraction { num: part, den: height },
                    }
                } else if start_inside {
                    let part: i128 = if climbs {
                        t - 2 * a1
                    } else {
                        t + 2 * a1
                    };
                    Contact::Transit {
                        at: Fraction::zero(),
                        inside: Fraction { num: part, den: height },
                    }
                } else if 0 <= num && num <= den {
                    Contact::Transit {
                        at: Fraction { num, den },
                        inside: Fraction { num: 2 * t, den: height },
                    }
                } else {
                    Contact::Miss
                }
            },
        }
    }

    /// The colour of this obstacle, with a full channel at `FULL_TINT`: black
    /// for the horizon, its predictor and the outer limit; for the ring and
    /// the disk, the accretion texture at the effective temperature
    /// `temperature`, in kelvins, of the place that the ray met.
    pub open spec fn tint(self, temperature: int) -> Rgb {
        match self {
            Obstacle::Ring { .. } => blackbody(temperature),
            Obstacle::AccretionDisk { .. } => blackbody(temperature),
            _ => Rgb { r: 0, g: 0, b: 0 },
        }
    }

    /// The colour of this obstacle where a ray met it at a place of effective
    /// temperature `temperature`, in kelvins.
    pub fn color(&self, temperature: u64) -> (tint: Rgb)
        ensures
            tint == self.tint(temperature as int),
            tint.r <= FULL_TINT && tint.g <= FULL_TINT && tint.b <= FULL_TINT,
    {
        match self {
            Obstacle::Ring { .. } => accretion_texture(temperature),
            Obstacle::AccretionDisk { .. } => accretion_texture(temperature),
            _ => Rgb { r: 0, g: 0, b: 0 },
        }
    }
}

impl Contact {
    /// The collision that this contact stands for, once the test that it
    /// names has come out as `test`: a hit collides whatever the test says, a
    /// miss never does.
    pub open spec fn settled(self, test: bool) -> Option<Fraction> {
        match self {
            Contact::Miss => None,
            Contact::Hit { at } => Some(at),
            Contact::Aimed => if test {
                Some(Fraction { num: 0, den: 1 })
            } else {
                None
            },
            Contact::Transit { at, inside } => if test {
                Some(at)
            } else {
                None
            },
        }
    }

    /// Whether the caller has a test to make before the contact is settled.
    pub open spec fn needs_test(self) -> bool {
        self is Aimed || self is Transit
    }

    /// Whether the caller has a test to make before the contact is settled.
    pub fn is_pending(&self) -> (pending: bool)
        ensures
            pending == self.needs_test(),
    {
        match self {
            Contact::Aimed => true,
            Contact::Transit { .. } => true,
            _ => false,
        }
    }

    /// Settles the contact with the outcome of its test, and gives the
    /// fraction of the segment at which the ray collides, if it does.
    pub fn settle(&self, test: bool) -> (hit: Option<Fraction>)
        ensures
            hit == self.settled(test),
    {
        match self {
            Contact::Miss => None,
            Contact::Hit { at } => Some(*at),
            Contact::Aimed => {
                if test {
                    Some(Fraction::zero())
                } else {
                    None
                }
            },
            Contact::Transit { at, inside: _ } => {
                if test {
                    Some(*at)
                } else {
                    None
                }
            },
        }
    }
}

/// A body hotter than the table's last row has the colour of that row.
pub proof fn blackbody_is_clamped(temperature: int)
    requires
        temperature >= HOTTEST,
    ensures
        blackbody(temperature) == blackbody(HOTTEST as int),
{
}

/// At the temperature of a row of the table, the colour is that row, and
/// between two rows each channel lies between the two rows' channels.
pub proof fn blackbody_follows_table(temperature: int, channel: int)
    requires
        0 <= temperature <= HOTTEST,
        0 <= channel < 3,
    ensures
        temperature % 1000 == 0 ==> blackbody_channel(temperature, channel)
            == BLACKBODY_INTERP[temperature / 1000][channel] * 1000,
        temperature < HOTTEST ==> {
            let low = BLACKBODY_INTERP[temperature / 1000][channel] * 1000;
            let high = BLACKBODY_INTERP[temperature / 1000 + 1][channel] * 1000;
            (low <= blackbody_channel(temperature, channel) <= high) || (high
                <= blackbody_channel(temperature, channel) <= low)
        },
{
    let row = temperature / 1000;
    let above = temperature % 1000;
    if row < 20 {
        let a = BLACKBODY_INTERP[row][channel] as int;
        let b = BLACKBODY_INTERP[row + 1][channel] as int;
        assert(a * (1000 - above) + b * above == a * 1000 + (b - a) * above) by (nonlinear_arith);
        assert(a * (1000 - above) + b * above == b * 1000 - (b - a) * (1000 - above))
            by (nonlinear_arith);
        if above == 0 {
            assert((b - a) * above == 0) by (nonlinear_arith)
                requires
                    above == 0,
            ;
        }
        if a <= b {
            assert((b - a) * above >= 0) by (nonlinear_arith)
                requires
                    b - a >= 0,
                    above >= 0,
            ;
            assert((b - a) * (1000 - above) >= 0) by (nonlinear_arith)
                requires
                    b - a >= 0,
                    1000 - above >= 0,
            ;
        } else {
            assert((b - a) * above <= 0) by (nonlinear_arith)
                requires
                    b - a <= 0,
                    above >= 0,
            ;
            assert((b - a) * (1000 - above) <= 0) by (nonlinear_arith)
                requires
                    b - a <= 0,
                    1000 - above >= 0,
            ;
        }
    }
}

/// Where a ring reports a hit, the fraction lies between 0 and 1, the folded
/// polar angle interpolated at that fraction is exactly a quarter turn, and
/// the radius interpolated at that fraction lies within the ring.
pub proof fn ring_hit_is_interpolation(from: Position, to: Position, r_min: i64, r_max: i64)
    ensures
        (Obstacle::Ring { r_min, r_max }).contact(from, to) matches Contact::Hit { at } ==> {
            &&& at.is_proper()
            &&& fold_polar(from.polar as int) * at.den + at.num * polar_travel(from, to)
                == QUARTER_TURN * at.den
            &&& r_min * at.den <= from.radius * (at.den - at.num) + to.radius * at.num <= r_max
                * at.den
        },
{
    let n = polar_gap(from);
    let d = polar_travel(from, to);
    assert((-n) * d == n * (-d)) by (nonlinear_arith);
    assert(fold_polar(from.polar as int) * d + n * d == QUARTER_TURN * d) by (nonlinear_arith)
        requires
            n == QUARTER_TURN - fold_polar(from.polar as int),
    ;
    assert(fold_polar(from.polar as int) * (-d) + n * (-d) == QUARTER_TURN * (-d))
        by (nonlinear_arith)
        requires
            n == QUARTER_TURN - fold_polar(from.polar as int),
    ;
}

/// A ring and a disk report no collision, and no contact to be tested, for a
/// segment whose interpolated radius at the crossing lies outside their two
/// radii.
pub proof fn no_contact_outside_band(
    from: Position,
    to: Position,
    r_min: i64,
    r_max: i64,
    thickness: i64,
)
    requires
        !crossing_in_band(from, to, r_min as int, r_max as int),
    ensures
        (Obstacle::Ring { r_min, r_max }).contact(from, to) == Contact::Miss,
        (Obstacle::AccretionDisk { r_min, r_max, thickness }).contact(from, to) == Contact::Miss,
{
}

/// A segment along which the folded polar angle does not move has no
/// crossing: neither a ring nor a disk reports a contact for it.
pub proof fn no_contact_without_polar_travel(
    from: Position,
    to: Position,
    r_min: i64,
    r_max: i64,
    thickness: i64,
)
    requires
        polar_travel(from, to) == 0,
    ensures
        (Obstacle::Ring { r_min, r_max }).contact(from, to) == Contact::Miss,
        (Obstacle::AccretionDisk { r_min, r_max, thickness }).contact(from, to) == Contact::Miss,
{
}

/// Where a disk of non-negative thickness reports a transit, the place of the
/// collision and the part of the segment inside the slab are both fractions
/// between 0 and 1.
pub proof fn disk_transit_is_proper(
    from: Position,
    to: Position,
    r_min: i64,
    r_max: i64,
    thickness: i64,
)
    requires
        thickness >= 0,
    ensures
        (Obstacle::AccretionDisk { r_min, r_max, thickness }).contact(from, to) matches Contact::Transit {
            at,
            inside,
        } ==> at.is_proper() && inside.is_proper(),
{
}

/// Only the horizon predictor and the disk leave a test to the caller; the
/// horizon, the outer limit and the ring decide by themselves.
pub proof fn pending_only_for_predictor_and_disk(o: Obstacle, from: Position, to: Position)
    ensures
        o.contact(from, to).needs_test() ==> o is BlackHolePredict || o is AccretionDisk,
        o.contact(from, to) is Aimed ==> o is BlackHolePredict,
        o.contact(from, to) is Transit ==> o is AccretionDisk,
{
}

/// The magnitude of a length or an angle, in a type wide enough for it.
fn abs_wide(x: i64) -> (m: i128)
    ensures
        m == magnitude(x as int),
{
    if x < 0 {
        -(x as i128)
    } else {
        x as i128
    }
}

/// A polar angle folded into the range from 0 up to a half turn.
fn folded(polar: i64) -> (p: i128)
    ensures
        p == fold_polar(polar as int),
        0 <= p < HALF_TURN,
{
    abs_wide(polar) % (HALF_TURN as i128)
}

/// Numerator and denominator of the crossing fraction of a segment.
fn crossing_parts(from: &Position, to: &Position) -> (parts: (i128, i128))
    ensures
        parts.0 == crossing_num(*from, *to),
        parts.1 == crossing_den(*from, *to),
        0 <= parts.1 < HALF_TURN,
        -(HALF_TURN as int) < parts.0 < HALF_TURN,
{
    let p1: i128 = folded(from.polar);
    let p2: i128 = folded(to.polar);
    let travel: i128 = p2 - p1;
    let gap: i128 = (QUARTER_TURN as i128) - p1;
    if travel < 0 {
        (-gap, -travel)
    } else {
        (gap, travel)
    }
}

/// Whether the radius interpolated at `num / den` lies within the band.
fn radius_in_band(
    from: &Position,
    to: &Position,
    num: i128,
    den: i128,
    r_min: i64,
    r_max: i64,
) -> (inside: bool)
    requires
        num == crossing_num(*from, *to),
        den == crossing_den(*from, *to),
        0 <= den < HALF_TURN,
        -2 * (HALF_TURN as int) < num < 2 * (HALF_TURN as int),
    ensures
        inside == crossing_in_band(*from, *to, r_min as int, r_max as int),
{
    let r1: i128 = from.radius as i128;
    let r2: i128 = to.radius as i128;
    let rest: i128 = den - num;
    assert(-0x8000_0000_0000_0000 <= r1 < 0x8000_0000_0000_0000);
    assert(-0x8000_0000_0000_0000 <= r2 < 0x8000_0000_0000_0000);
    assert(-0x1_0000_0000 < rest < 0x1_0000_0000);
    assert(-0x8000_0000_0000_0000_0000_0000 <= r1 * rest <= 0x8000_0000_0000_0000_0000_0000)
        by (nonlinear_arith)
        requires
            -0x8000_0000_0000_0000 <= r1 < 0x8000_0000_0000_0000,
            -0x1_0000_0000 < rest < 0x1_0000_0000,
    ;
    assert(-0x8000_0000_0000_0000_0000_0000 <= r2 * num <= 0x8000_0000_0000_0000_0000_0000)
        by (nonlinear_arith)
        requires
            -0x8000_0000_0000_0000 <= r2 < 0x8000_0000_0000_0000,
            -0x1_0000_0000 < num < 0x1_0000_0000,
    ;
    let scaled: i128 = r1 * rest + r2 * num;
    let lo: i128 = r_min as i128;
    let hi: i128 = r_max as i128;
    assert(-0x8000_0000_0000_0000_0000_0000 <= lo * den <= 0x8000_0000_0000_0000_0000_0000)
        by (nonlinear_arith)
        requires
            -0x8000_0000_0000_0000 <= lo < 0x8000_0000_0000_0000,
            0 <= den < 0x1_0000_0000,
    ;
    assert(-0x8000_0000_0000_0000_0000_0000 <= hi * den <= 0x8000_0000_0000_0000_0000_0000)
        by (nonlinear_arith)
        requires
            -0x8000_0000_0000_0000 <= hi < 0x8000_0000_0000_0000,
            0 <= den < 0x1_0000_0000,
    ;
    lo * den <= scaled && scaled <= hi * den
}

} // verus!
