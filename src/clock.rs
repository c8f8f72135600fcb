//! The clock panel: the wait until the next rollover of a unit of local time,
//! and the panel's configuration.
use chrono::Timelike;
use std::marker::PhantomData;
use vstd::prelude::*;
use crate::attrs::Attrs;

verus! {

/// Nanoseconds in one second.
pub const SECOND_NANOS: u64 = 1_000_000_000;

/// A local time of day as the clock reads it. During a leap second the
/// nanosecond count runs from one to two seconds.
#[derive(Clone, Copy, Debug, PartialEq, Eq, Structural)]
pub struct WallTime {
    pub hour: u32,
    pub minute: u32,
    pub second: u32,
    pub nanosecond: u32,
}

impl WallTime {
    pub open spec fn wf(&self) -> bool {
        &&& self.hour < 24
        &&& self.minute < 60
        &&& self.second < 60
        &&& self.nanosecond < 2_000_000_000
    }

    /// Nanoseconds since midnight, a leap second counted as the second that
    /// it extends.
    pub open spec fn nanos_of_day(&self) -> int {
        ((self.hour as int * 60 + self.minute) * 60 + self.second) * 1_000_000_000
            + self.nanosecond as int % 1_000_000_000
    }
}

/// A unit of time whose rollovers a clock waits for.
#[derive(Clone, Copy, Debug, PartialEq, Eq, Structural)]
pub enum Unit {
    Day,
    Hour,
    Minute,
    Second,
}

/// The length of a unit in nanoseconds.
pub open spec fn unit_nanos(unit: Unit) -> int {
    match unit {
        Unit::Day => 86_400_000_000_000,
        Unit::Hour => 3_600_000_000_000,
        Unit::Minute => 60_000_000_000,
        Unit::Second => 1_000_000_000,
    }
}

/// How many whole units of `unit` have passed since midnight at `t`.
pub open spec fn units_before(unit: Unit, t: WallTime) -> int {
    match unit {
        Unit::Day => 0,
        Unit::Hour => t.hour as int,
        Unit::Minute => t.hour as int * 60 + t.minute,
        Unit::Second => (t.hour as int * 60 + t.minute) * 60 + t.second,
    }
}

/// Nanoseconds from `t` to the next rollover of `unit`.
pub open spec fn until_spec(unit: Unit, t: WallTime) -> int {
    (units_before(unit, t) + 1) * unit_nanos(unit) - t.nanos_of_day()
}

/// Relies on chrono's `Local::now` and its `Timelike` accessors: the hour is
/// below 24, minute and second below 60, and the nanosecond count below two
/// seconds (a leap second).
#[verifier::external_body]
fn local_wall_time() -> (r: WallTime)
    ensures
        r.wf(),
{
    let now = chrono::Local::now();
    WallTime {
        hour: now.hour(),
        minute: now.minute(),
        second: now.second(),
        nanosecond: now.nanosecond(),
    }
}

/// Nanoseconds from `t` until the next rollover of `unit`. Added to `t`, the
/// result lands exactly on that rollover, and it is never zero nor longer than
/// the unit.
pub fn until_boundary(unit: Unit, t: &WallTime) -> (r: u64)
    requires
        t.wf(),
    ensures
        r == until_spec(unit, *t),
        t.nanos_of_day() + r == (units_before(unit, *t) + 1) * unit_nanos(unit),
        0 < r <= unit_nanos(unit),
{
    let frac: u64 = t.nanosecond as u64 % SECOND_NANOS;
    let h: u64 = t.hour as u64;
    let m: u64 = t.minute as u64;
    let s: u64 = t.second as u64;
    assert(frac < 1_000_000_000);
    let r: u64 = match unit {
        Unit::Day => {
            assert(((h * 60 + m) * 60 + s) * 1_000_000_000 + frac < 86_400_000_000_000)
                by (nonlinear_arith)
                requires
                    h < 24,
                    m < 60,
                    s < 60,
                    frac < 1_000_000_000,
            ;
            86_400_000_000_000 - (((h * 60 + m) * 60 + s) * SECOND_NANOS + frac)
        },
        Unit::Hour => {
            assert((m * 60 + s) * 1_000_000_000 + frac < 3_600_000_000_000) by (nonlinear_arith)
                requires
                    m < 60,
                    s < 60,
                    frac < 1_000_000_000,
            ;
            3_600_000_000_000 - ((m * 60 + s) * SECOND_NANOS + frac)
        },
        Unit::Minute => 60_000_000_000 - (s * SECOND_NANOS + frac),
        Unit::Second => SECOND_NANOS - frac,
    };
    assert(t.nanos_of_day() + r == (units_before(unit, *t) + 1) * unit_nanos(unit))
        by (nonlinear_arith)
        requires
            t.nanos_of_day() == ((h * 60 + m) * 60 + s) * 1_000_000_000 + frac,
            unit == Unit::Day ==> r == 86_400_000_000_000 - (((h * 60 + m) * 60 + s)
                * 1_000_000_000 + frac),
            unit == Unit::Hour ==> r == 3_600_000_000_000 - ((m * 60 + s) * 1_000_000_000
                + frac),
            unit == Unit::Minute ==> r == 60_000_000_000 - (s * 1_000_000_000 + frac),
            unit == Unit::Second ==> r == 1_000_000_000 - frac,
            units_before(unit, *t) == match unit {
                Unit::Day => 0,
                Unit::Hour => h as int,
                Unit::Minute => h * 60 + m,
                Unit::Second => (h * 60 + m) * 60 + s,
            },
            unit_nanos(unit) == match unit {
                Unit::Day => 86_400_000_000_000int,
                Unit::Hour => 3_600_000_000_000int,
                Unit::Minute => 60_000_000_000int,
                Unit::Second => 1_000_000_000int,
            },
    ;
    r
}

/// The unit of time that a clock panel waits for.
pub trait Precision {
    /// The unit whose rollovers this precision waits for.
    spec fn unit_spec() -> Unit;

    /// The format that a clock of this precision shows by default.
    spec fn default_format_spec() -> Seq<char>;

    fn default_format() -> (s: String)
        ensures
            s@ == Self::default_format_spec(),
    ;

    /// Nanoseconds from now until the next rollover of this precision's unit.
    fn tick() -> (r: u64)
        ensures
            exists|t: WallTime| #[trigger] t.wf() && r == until_spec(Self::unit_spec(), t),
            0 < r <= unit_nanos(Self::unit_spec()),
    ;
}

/// Waits for each change of the local date.
pub struct Days;

/// Waits for each change of the local hour.
pub struct Hours;

/// Waits for each change of the local minute.
pub struct Minutes;

/// Waits for each change of the local second.
pub struct Seconds;

fn tick_unit(unit: Unit) -> (r: u64)
    ensures
        exists|t: WallTime| #[trigger] t.wf() && r == until_spec(unit, t),
        0 < r <= unit_nanos(unit),
{
    let now = local_wall_time();
    let r = until_boundary(unit, &now);
    assert(now.wf() && r == until_spec(unit, now));
    r
}

impl Precision for Days {
    open spec fn unit_spec() -> Unit {
        Unit::Day
    }

    open spec fn default_format_spec() -> Seq<char> {
        "%Y-%m-%d"@
    }

    fn default_format() -> (s: String) {
        String::from_str("%Y-%m-%d")
    }

    fn tick() -> (r: u64) {
        tick_unit(Unit::Day)
    }
}

impl Precision for Hours {
    open spec fn unit_spec() -> Unit {
        Unit::Hour
    }

    open spec fn default_format_spec() -> Seq<char> {
        "%Y-%m-%d %H"@
    }

    fn default_format() -> (s: String) {
        String::from_str("%Y-%m-%d %H")
    }

    fn tick() -> (r: u64) {
        tick_unit(Unit::Hour)
    }
}

impl Precision for Minutes {
    open spec fn unit_spec() -> Unit {
        Unit::Minute
    }

    open spec fn default_format_spec() -> Seq<char> {
        "%Y-%m-%d %H:%M"@
    }

    fn default_format() -> (s: String) {
        String::from_str("%Y-%m-%d %H:%M")
    }

    fn tick() -> (r: u64) {
        tick_unit(Unit::Minute)
    }
}

impl Precision for Seconds {
    open spec fn unit_spec() -> Unit {
        Unit::Second
    }

    open spec fn default_format_spec() -> Seq<char> {
        "%Y-%m-%d %T"@
    }

    fn default_format() -> (s: String) {
        String::from_str("%Y-%m-%d %T")
    }

    fn tick() -> (r: u64) {
        tick_unit(Unit::Second)
    }
}

/// A clock panel: a time format, display attributes, and the precision whose
/// rollovers redraw it.
pub struct Clock<P> {
    pub format_str: String,
    pub attrs: Attrs,
    pub phantom: PhantomData<P>,
}

impl<P: Precision> Clock<P> {
    /// A clock with the given format and attributes.
    pub fn new(format_str: String, attrs: Attrs) -> (r: Clock<P>)
        ensures
            r.format_str == format_str,
            r.attrs == attrs,
    {
        Clock { format_str, attrs, phantom: PhantomData }
    }

    /// This clock with its attributes overlaid onto the bar's global ones.
    pub fn with_global_attrs(self, global: Attrs) -> (r: Clock<P>)
        ensures
            r.format_str == self.format_str,
            r.attrs == crate::attrs::overlay_spec(global, self.attrs),
    {
        let attrs = global.overlay(self.attrs);
        Clock { format_str: self.format_str, attrs, phantom: PhantomData }
    }

    /// Nanoseconds from now until this clock must be redrawn.
    pub fn next_wait(&self) -> (r: u64)
        ensures
            exists|t: WallTime| #[trigger] t.wf() && r == until_spec(P::unit_spec(), t),
            0 < r <= unit_nanos(P::unit_spec()),
    {
        P::tick()
    }
}

impl<P: Precision> Default for Clock<P> {
    /// The precision's default format, and no attribute set.
    fn default() -> (r: Clock<P>)
        ensures
            r.format_str@ == P::default_format_spec(),
            r.attrs.is_unset(),
    {
        Clock { format_str: P::default_format(), attrs: Attrs::unset(), phantom: PhantomData }
    }
}

} // verus!
