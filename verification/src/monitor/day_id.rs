use vstd::prelude::*;

verus! {

/// Composite key of a calendar day: 8 bits of `year - 2000`, then 4 bits of
/// month, then 8 bits of day, most significant group first, so that key order
/// matches chronological order for dates within the field widths.
pub type DayId = u32;

/// Years before this one are rejected by the codec.
pub const MINIMAL_VALID_YEAR: i32 = 2000;

/// The key packed from a (year, month, day) triple, per the bit layout above.
/// Out-of-width components are masked, exactly as the packing does.
pub open spec fn day_id_spec(year: int, month: u32, day: u32) -> DayId {
    ((((year - 2000) as u32) & 0xFF) << 12) | (((month & 0xF) as u32) << 8) | ((day & 0xFF) as u32)
}

/// Pack a (year, month, day) triple into its `DayId`; fails exactly on years
/// before `MINIMAL_VALID_YEAR`.
pub fn to_day_id(year: &i32, month: &u32, day: &u32) -> (r: Result<DayId, &'static str>)
    ensures
        *year < MINIMAL_VALID_YEAR <==> r is Err,
        *year >= MINIMAL_VALID_YEAR ==> r == Ok::<DayId, &'static str>(
            day_id_spec(*year as int, *month, *day),
        ),
{
    let year_wide: i64 = (*year as i64) - (MINIMAL_VALID_YEAR as i64);
    if year_wide < 0 {
        return Err("year less minimum");
    }
    let year_index: u32 = (year_wide as u32) & 0xFF;
    let day_id: u32 = (year_index << 12) | ((*month & 0xF) << 8) | (*day & 0xFF);
    assert(day_id == day_id_spec(*year as int, *month, *day)) by {
        assert(year_wide == *year - 2000);
        assert((year_wide as u32) == ((*year - 2000) as u32));
    };
    Ok(day_id)
}

/// The year component encoded in a key.
pub open spec fn day_id_year(day_id: DayId) -> int {
    2000 + ((day_id >> 12) & 0xFF)
}

/// The month component encoded in a key.
pub open spec fn day_id_month(day_id: DayId) -> u32 {
    (day_id >> 8) & 0xF
}

/// The day component encoded in a key.
pub open spec fn day_id_day(day_id: DayId) -> u32 {
    day_id & 0xFF
}

/// The packing is injective on dates within the field widths: the three
/// components can be read back from the key, so two such dates share a key
/// only if they are the same date.
pub proof fn lemma_day_id_bijective(year: int, month: u32, day: u32)
    requires
        2000 <= year < 2256,
        month <= 0xF,
        day <= 0xFF,
    ensures
        day_id_year(day_id_spec(year, month, day)) == year,
        day_id_month(day_id_spec(year, month, day)) == month,
        day_id_day(day_id_spec(year, month, day)) == day,
{
    let y: u32 = (year - 2000) as u32;
    assert(y < 256);
    assert(day_id_year(day_id_spec(year, month, day)) == 2000 + y && day_id_month(
        day_id_spec(year, month, day),
    ) == month && day_id_day(day_id_spec(year, month, day)) == day) by {
        assert(y < 256 && month <= 0xF && day <= 0xFF ==> ((((y & 0xFF) << 12) | ((month & 0xF)
            << 8) | (day & 0xFF)) >> 12) & 0xFF == y && ((((y & 0xFF) << 12) | ((month & 0xF) << 8)
            | (day & 0xFF)) >> 8) & 0xF == month && (((y & 0xFF) << 12) | ((month & 0xF) << 8) | (
        day & 0xFF)) & 0xFF == day) by (bit_vector);
    };
}

/// Within one year and month, larger days give larger keys; later months and
/// later years likewise dominate: key order is chronological order for dates
/// within the field widths.
pub proof fn lemma_day_id_ordered(y1: int, m1: u32, d1: u32, y2: int, m2: u32, d2: u32)
    requires
        2000 <= y1 < 2256,
        2000 <= y2 < 2256,
        1 <= m1 <= 12,
        1 <= m2 <= 12,
        1 <= d1 <= 31,
        1 <= d2 <= 31,
        y1 < y2 || (y1 == y2 && m1 < m2) || (y1 == y2 && m1 == m2 && d1 < d2),
    ensures
        day_id_spec(y1, m1, d1) < day_id_spec(y2, m2, d2),
{
    let a: u32 = (y1 - 2000) as u32;
    let b: u32 = (y2 - 2000) as u32;
    assert((a < b || (a == b && m1 < m2) || (a == b && m1 == m2 && d1 < d2)) && a < 256 && b < 256
        && 1 <= m1 <= 12 && 1 <= m2 <= 12 && 1 <= d1 <= 31 && 1 <= d2 <= 31 ==> (((a & 0xFF) << 12)
        | ((m1 & 0xF) << 8) | (d1 & 0xFF)) < (((b & 0xFF) << 12) | ((m2 & 0xF) << 8) | (d2
        & 0xFF))) by (bit_vector);
}

} // verus!
