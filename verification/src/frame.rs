//! The layout of the game's shared telemetry block, and the decoding of one
//! snapshot of it. Floating-point fields are handed out as their IEEE-754
//! bit patterns; the block is little-endian.

use vstd::prelude::*;

verus! {

pub const GEAR_OFFSET: usize = 504;
pub const SPEED_OFFSET: usize = 948;
pub const RPM_OFFSET: usize = 952;
pub const CRUISE_OFFSET: usize = 988;
pub const FUEL_OFFSET: usize = 1000;
pub const TEMP_OFFSET: usize = 1024;
pub const ODOMETER_OFFSET: usize = 1056;
pub const ROUTE_DIST_OFFSET: usize = 1060;
pub const ROUTE_TIME_OFFSET: usize = 1064;
pub const LIMIT_OFFSET: usize = 1068;
pub const WEAR_ENGINE: usize = 1036;
pub const WEAR_TRANSMISSION: usize = 1040;
pub const WEAR_CABIN: usize = 1044;
pub const WEAR_CHASSIS: usize = 1048;
pub const WEAR_WHEELS: usize = 1052;
pub const TRAILER_CHASSIS: usize = 6156;
pub const TRAILER_WHEELS: usize = 6160;
pub const TRAILER_BODY: usize = 6164;
pub const CARGO_DAMAGE: usize = 1468;

/// The number of leading bytes of the block that the decoder reads: up to
/// and including the last field (the trailer body wear).
pub const FRAME_LEN: usize = 6168;

/// The little-endian unsigned value of the four bytes at `at`.
pub open spec fn le_u32(b: Seq<u8>, at: int) -> nat {
    (b[at] as nat) + 256 * (b[at + 1] as nat) + 65536 * (b[at + 2] as nat) + 16777216 * (
    b[at + 3] as nat)
}

/// The two's-complement reading of a 32-bit pattern.
pub open spec fn signed32(v: nat) -> int {
    if v < 0x8000_0000 {
        v as int
    } else {
        v - 0x1_0000_0000
    }
}

/// The raw fields of one telemetry snapshot. Every field but `gear` is the
/// bit pattern of a 32-bit float.
#[derive(Clone, Copy, Debug, PartialEq, Eq, Structural)]
pub struct RawTelemetry {
    pub gear: i32,
    pub speed: u32,
    pub rpm: u32,
    pub cruise: u32,
    pub fuel: u32,
    pub temp: u32,
    pub odometer: u32,
    pub route_distance: u32,
    pub route_time: u32,
    pub limit: u32,
    pub wear_engine: u32,
    pub wear_transmission: u32,
    pub wear_cabin: u32,
    pub wear_chassis: u32,
    pub wear_wheels: u32,
    pub trailer_chassis: u32,
    pub trailer_wheels: u32,
    pub trailer_body: u32,
    pub cargo_damage: u32,
}

/// The snapshot that a block of at least `FRAME_LEN` bytes holds.
pub open spec fn decoded(b: Seq<u8>) -> RawTelemetry {
    RawTelemetry {
        gear: signed32(le_u32(b, GEAR_OFFSET as int)) as i32,
        speed: le_u32(b, SPEED_OFFSET as int) as u32,
        rpm: le_u32(b, RPM_OFFSET as int) as u32,
        cruise: le_u32(b, CRUISE_OFFSET as int) as u32,
        fuel: le_u32(b, FUEL_OFFSET as int) as u32,
        temp: le_u32(b, TEMP_OFFSET as int) as u32,
        odometer: le_u32(b, ODOMETER_OFFSET as int) as u32,
        route_distance: le_u32(b, ROUTE_DIST_OFFSET as int) as u32,
        route_time: le_u32(b, ROUTE_TIME_OFFSET as int) as u32,
        limit: le_u32(b, LIMIT_OFFSET as int) as u32,
        wear_engine: le_u32(b, WEAR_ENGINE as int) as u32,
        wear_transmission: le_u32(b, WEAR_TRANSMISSION as int) as u32,
        wear_cabin: le_u32(b, WEAR_CABIN as int) as u32,
        wear_chassis: le_u32(b, WEAR_CHASSIS as int) as u32,
        wear_wheels: le_u32(b, WEAR_WHEELS as int) as u32,
        trailer_chassis: le_u32(b, TRAILER_CHASSIS as int) as u32,
        trailer_wheels: le_u32(b, TRAILER_WHEELS as int) as u32,
        trailer_body: le_u32(b, TRAILER_BODY as int) as u32,
        cargo_damage: le_u32(b, CARGO_DAMAGE as int) as u32,
    }
}

/// What one look at the block found.
#[derive(Clone, Copy, Debug, PartialEq, Eq, Structural)]
pub enum FrameRead {
    /// The block is too short to hold what is read from it.
    TooShort,
    /// The block is there but the game's SDK is not publishing (its first
    /// byte, the activity flag, is zero).
    SdkIdle,
    /// The SDK is publishing; these are the fields.
    Live(RawTelemetry),
}

/// What a look at a block with these bytes finds.
pub open spec fn frame_read(b: Seq<u8>) -> FrameRead {
    if b.len() == 0 {
        FrameRead::TooShort
    } else if b[0] == 0 {
        FrameRead::SdkIdle
    } else if b.len() < FRAME_LEN {
        FrameRead::TooShort
    } else {
        FrameRead::Live(decoded(b))
    }
}

fn read_u32(b: &[u8], at: usize) -> (v: u32)
    requires
        at + 4 <= b@.len(),
    ensures
        v as nat == le_u32(b@, at as int),
{
    let b0 = b[at] as u32;
    let b1 = b[at + 1] as u32;
    let b2 = b[at + 2] as u32;
    let b3 = b[at + 3] as u32;
    b0 + 256 * b1 + 65536 * b2 + 16777216 * b3
}

fn read_i32(b: &[u8], at: usize) -> (v: i32)
    requires
        at + 4 <= b@.len(),
    ensures
        v as int == signed32(le_u32(b@, at as int)),
{
    let u = read_u32(b, at);
    if u < 0x8000_0000 {
        u as i32
    } else {
        let low = (u - 0x8000_0000) as i32;
        low - 0x7fff_ffff - 1
    }
}

/// Looks at one snapshot of the shared block.
pub fn read_frame(b: &[u8]) -> (r: FrameRead)
    ensures
        r == frame_read(b@),
        (r is SdkIdle) == (b@.len() > 0 && b@[0] == 0),
        (r is TooShort) == (b@.len() == 0 || (b@[0] != 0 && b@.len() < FRAME_LEN)),
        (r is Live) == (b@.len() >= FRAME_LEN && b@[0] != 0),
        r matches FrameRead::Live(t) ==> t.gear as int == signed32(le_u32(b@, GEAR_OFFSET as int)),
        r matches FrameRead::Live(t) ==> t.speed as nat == le_u32(b@, SPEED_OFFSET as int),
        r matches FrameRead::Live(t) ==> t.rpm as nat == le_u32(b@, RPM_OFFSET as int),
        r matches FrameRead::Live(t) ==> t.cruise as nat == le_u32(b@, CRUISE_OFFSET as int),
        r matches FrameRead::Live(t) ==> t.fuel as nat == le_u32(b@, FUEL_OFFSET as int),
        r matches FrameRead::Live(t) ==> t.temp as nat == le_u32(b@, TEMP_OFFSET as int),
        r matches FrameRead::Live(t) ==> t.odometer as nat == le_u32(b@, ODOMETER_OFFSET as int),
        r matches FrameRead::Live(t) ==> t.route_distance as nat == le_u32(b@, ROUTE_DIST_OFFSET as int),
        r matches FrameRead::Live(t) ==> t.route_time as nat == le_u32(b@, ROUTE_TIME_OFFSET as int),
        r matches FrameRead::Live(t) ==> t.limit as nat == le_u32(b@, LIMIT_OFFSET as int),
        r matches FrameRead::Live(t) ==> t.wear_engine as nat == le_u32(b@, WEAR_ENGINE as int),
        r matches FrameRead::Live(t) ==> t.wear_transmission as nat == le_u32(b@, WEAR_TRANSMISSION as int),
        r matches FrameRead::Live(t) ==> t.wear_cabin as nat == le_u32(b@, WEAR_CABIN as int),
        r matches FrameRead::Live(t) ==> t.wear_chassis as nat == le_u32(b@, WEAR_CHASSIS as int),
        r matches FrameRead::Live(t) ==> t.wear_wheels as nat == le_u32(b@, WEAR_WHEELS as int),
        r matches FrameRead::Live(t) ==> t.trailer_chassis as nat == le_u32(b@, TRAILER_CHASSIS as int),
        r matches FrameRead::Live(t) ==> t.trailer_wheels as nat == le_u32(b@, TRAILER_WHEELS as int),
        r matches FrameRead::Live(t) ==> t.trailer_body as nat == le_u32(b@, TRAILER_BODY as int),
        r matches FrameRead::Live(t) ==> t.cargo_damage as nat == le_u32(b@, CARGO_DAMAGE as int),
{
    if b.len() == 0 {
        return FrameRead::TooShort;
    }
    if b[0] == 0 {
        return FrameRead::SdkIdle;
    }
    if b.len() < FRAME_LEN {
        return FrameRead::TooShort;
    }
    let t = RawTelemetry {
        gear: read_i32(b, GEAR_OFFSET),
        speed: read_u32(b, SPEED_OFFSET),
        rpm: read_u32(b, RPM_OFFSET),
        cruise: read_u32(b, CRUISE_OFFSET),
        fuel: read_u32(b, FUEL_OFFSET),
        temp: read_u32(b, TEMP_OFFSET),
        odometer: read_u32(b, ODOMETER_OFFSET),
        route_distance: read_u32(b, ROUTE_DIST_OFFSET),
        route_time: read_u32(b, ROUTE_TIME_OFFSET),
        limit: read_u32(b, LIMIT_OFFSET),
        wear_engine: read_u32(b, WEAR_ENGINE),
        wear_transmission: read_u32(b, WEAR_TRANSMISSION),
        wear_cabin: read_u32(b, WEAR_CABIN),
        wear_chassis: read_u32(b, WEAR_CHASSIS),
        wear_wheels: read_u32(b, WEAR_WHEELS),
        trailer_chassis: read_u32(b, TRAILER_CHASSIS),
        trailer_wheels: read_u32(b, TRAILER_WHEELS),
        trailer_body: read_u32(b, TRAILER_BODY),
        cargo_damage: read_u32(b, CARGO_DAMAGE),
    };
    FrameRead::Live(t)
}

impl RawTelemetry {
    /// The nine wear and damage patterns, in the order the damage figure is
    /// taken from: engine, transmission, cabin, chassis, wheels, trailer
    /// chassis, trailer wheels, trailer body, cargo.
    pub fn damage_bits(&self) -> (d: Vec<u32>)
        ensures
            d@ == seq![
                self.wear_engine,
                self.wear_transmission,
                self.wear_cabin,
                self.wear_chassis,
                self.wear_wheels,
                self.trailer_chassis,
                self.trailer_wheels,
                self.trailer_body,
                self.cargo_damage,
            ],
    {
        let mut d: Vec<u32> = Vec::new();
        d.push(self.wear_engine);
        d.push(self.wear_transmission);
        d.push(self.wear_cabin);
        d.push(self.wear_chassis);
        d.push(self.wear_wheels);
        d.push(self.trailer_chassis);
        d.push(self.trailer_wheels);
        d.push(self.trailer_body);
        d.push(self.cargo_damage);
        assert(d@ =~= seq![
            self.wear_engine,
            self.wear_transmission,
            self.wear_cabin,
            self.wear_chassis,
            self.wear_wheels,
            self.trailer_chassis,
            self.trailer_wheels,
            self.trailer_body,
            self.cargo_damage,
        ]);
        d
    }
}

/// Every field lies wholly inside the bytes the decoder reads, and the
/// fields do not overlap one another or the activity flag.
pub proof fn frame_fields_are_disjoint()
    ensures
        GEAR_OFFSET >= 1,
        GEAR_OFFSET + 4 <= SPEED_OFFSET,
        SPEED_OFFSET + 4 <= RPM_OFFSET,
        RPM_OFFSET + 4 <= CRUISE_OFFSET,
        CRUISE_OFFSET + 4 <= FUEL_OFFSET,
        FUEL_OFFSET + 4 <= TEMP_OFFSET,
        TEMP_OFFSET + 4 <= WEAR_ENGINE,
        WEAR_ENGINE + 4 <= WEAR_TRANSMISSION,
        WEAR_TRANSMISSION + 4 <= WEAR_CABIN,
        WEAR_CABIN + 4 <= WEAR_CHASSIS,
        WEAR_CHASSIS + 4 <= WEAR_WHEELS,
        WEAR_WHEELS + 4 <= ODOMETER_OFFSET,
        ODOMETER_OFFSET + 4 <= ROUTE_DIST_OFFSET,
        ROUTE_DIST_OFFSET + 4 <= ROUTE_TIME_OFFSET,
        ROUTE_TIME_OFFSET + 4 <= LIMIT_OFFSET,
        LIMIT_OFFSET + 4 <= CARGO_DAMAGE,
        CARGO_DAMAGE + 4 <= TRAILER_CHASSIS,
        TRAILER_CHASSIS + 4 <= TRAILER_WHEELS,
        TRAILER_WHEELS + 4 <= TRAILER_BODY,
        TRAILER_BODY + 4 == FRAME_LEN,
{
}

/// A snapshot depends only on the bytes its fields occupy: two blocks that
/// agree there (and on the activity flag) read the same.
pub proof fn frame_read_depends_on_fields_only(a: Seq<u8>, b: Seq<u8>)
    requires
        a.len() >= FRAME_LEN,
        b.len() >= FRAME_LEN,
        a[0] == b[0],
        forall|off: int, k: int|
            #![trigger a[off + k]]
            0 <= k < 4 && (off == GEAR_OFFSET || off == SPEED_OFFSET || off == RPM_OFFSET
                || off == CRUISE_OFFSET || off == FUEL_OFFSET || off == TEMP_OFFSET || off
                == ODOMETER_OFFSET || off == ROUTE_DIST_OFFSET || off == ROUTE_TIME_OFFSET || off
                == LIMIT_OFFSET || off == WEAR_ENGINE || off == WEAR_TRANSMISSION || off
                == WEAR_CABIN || off == WEAR_CHASSIS || off == WEAR_WHEELS || off
                == TRAILER_CHASSIS || off == TRAILER_WHEELS || off == TRAILER_BODY || off
                == CARGO_DAMAGE) ==> a[off + k] == b[off + k],
    ensures
        frame_read(a) == frame_read(b),
{
    assert forall|off: int|
        (off == GEAR_OFFSET || off == SPEED_OFFSET || off == RPM_OFFSET || off == CRUISE_OFFSET
            || off == FUEL_OFFSET || off == TEMP_OFFSET || off == ODOMETER_OFFSET || off
            == ROUTE_DIST_OFFSET || off == ROUTE_TIME_OFFSET || off == LIMIT_OFFSET || off
            == WEAR_ENGINE || off == WEAR_TRANSMISSION || off == WEAR_CABIN || off == WEAR_CHASSIS
            || off == WEAR_WHEELS || off == TRAILER_CHASSIS || off == TRAILER_WHEELS || off
            == TRAILER_BODY || off == CARGO_DAMAGE) implies #[trigger] le_u32(a, off) == le_u32(
        b,
        off,
    ) by {
        assert(a[off + 0] == b[off + 0]);
        assert(a[off + 1] == b[off + 1]);
        assert(a[off + 2] == b[off + 2]);
        assert(a[off + 3] == b[off + 3]);
    }
    assert(decoded(a) == decoded(b));
}

/// What a look at the block finds, field by field: the flag byte alone
/// decides an idle SDK; a live snapshot needs the flag set and the whole
/// frame present; and every field of a live snapshot is the little-endian
/// word at its own named offset (the gear read as a signed number).
pub proof fn live_fields_sit_at_their_offsets(b: Seq<u8>)
    ensures
        (frame_read(b) is SdkIdle) == (b.len() > 0 && b[0] == 0),
        (frame_read(b) is TooShort) == (b.len() == 0 || (b[0] != 0 && b.len() < FRAME_LEN)),
        (frame_read(b) is Live) == (b.len() >= FRAME_LEN && b[0] != 0),
        frame_read(b) matches FrameRead::Live(t) ==> t.gear as int == signed32(le_u32(b, GEAR_OFFSET as int)),
        frame_read(b) matches FrameRead::Live(t) ==> t.speed as nat == le_u32(b, SPEED_OFFSET as int),
        frame_read(b) matches FrameRead::Live(t) ==> t.rpm as nat == le_u32(b, RPM_OFFSET as int),
        frame_read(b) matches FrameRead::Live(t) ==> t.cruise as nat == le_u32(b, CRUISE_OFFSET as int),
        frame_read(b) matches FrameRead::Live(t) ==> t.fuel as nat == le_u32(b, FUEL_OFFSET as int),
        frame_read(b) matches FrameRead::Live(t) ==> t.temp as nat == le_u32(b, TEMP_OFFSET as int),
        frame_read(b) matches FrameRead::Live(t) ==> t.odometer as nat == le_u32(b, ODOMETER_OFFSET as int),
        frame_read(b) matches FrameRead::Live(t) ==> t.route_distance as nat == le_u32(b, ROUTE_DIST_OFFSET as int),
        frame_read(b) matches FrameRead::Live(t) ==> t.route_time as nat == le_u32(b, ROUTE_TIME_OFFSET as int),
        frame_read(b) matches FrameRead::Live(t) ==> t.limit as nat == le_u32(b, LIMIT_OFFSET as int),
        frame_read(b) matches FrameRead::Live(t) ==> t.wear_engine as nat == le_u32(b, WEAR_ENGINE as int),
        frame_read(b) matches FrameRead::Live(t) ==> t.wear_transmission as nat == le_u32(b, WEAR_TRANSMISSION as int),
        frame_read(b) matches FrameRead::Live(t) ==> t.wear_cabin as nat == le_u32(b, WEAR_CABIN as int),
        frame_read(b) matches FrameRead::Live(t) ==> t.wear_chassis as nat == le_u32(b, WEAR_CHASSIS as int),
        frame_read(b) matches FrameRead::Live(t) ==> t.wear_wheels as nat == le_u32(b, WEAR_WHEELS as int),
        frame_read(b) matches FrameRead::Live(t) ==> t.trailer_chassis as nat == le_u32(b, TRAILER_CHASSIS as int),
        frame_read(b) matches FrameRead::Live(t) ==> t.trailer_wheels as nat == le_u32(b, TRAILER_WHEELS as int),
        frame_read(b) matches FrameRead::Live(t) ==> t.trailer_body as nat == le_u32(b, TRAILER_BODY as int),
        frame_read(b) matches FrameRead::Live(t) ==> t.cargo_damage as nat == le_u32(b, CARGO_DAMAGE as int),
{
}

} // verus!
