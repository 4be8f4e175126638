use vstd::prelude::*;
use crate::character::{CharacterRecord, FRAME_COUNT};

verus! {

/// Why a curve adjustment was rejected.
#[derive(Clone, Copy, Debug, PartialEq, Eq, Structural)]
pub enum AdjustError {
    /// The charge bonus drives the adjusted reload time to zero or below,
    /// so no firing schedule exists.
    InvalidBonus,
}

/// The simulated window in ten-nanosecond units (5 seconds).
pub const WINDOW_UNITS: u64 = 500_000_000;

/// The byte 'R'.
pub const BYTE_R: u8 = 82;

/// The byte 'L'.
pub const BYTE_L: u8 = 76;

/// The byte 'S'.
pub const BYTE_S: u8 = 83;

/// Does `w` contain the two adjacent bytes `a`, `b`?
pub open spec fn contains_pair(w: Seq<u8>, a: u8, b: u8) -> bool {
    exists|i: int| 0 <= i && i + 1 < w.len() && #[trigger] w[i] == a && w[i + 1] == b
}

/// A weapon tag marks a reload-driven weapon when it contains the substring
/// "RL" or "SR".
pub open spec fn is_reload_weapon(w: Seq<u8>) -> bool {
    contains_pair(w, BYTE_R, BYTE_L) || contains_pair(w, BYTE_S, BYTE_R)
}

/// The reload time after the charge bonus, in ten-nanosecond units:
/// `reload_time_ms` milliseconds scaled by `1 - charge_bonus_milli / 100000`.
/// Non-positive exactly when no valid firing schedule exists.
pub open spec fn reload_units(reload_time_ms: u32, charge_bonus_milli: i32) -> int {
    (reload_time_ms as int) * (100_000 - charge_bonus_milli as int)
}

/// The frame on which shot `i` of a schedule with adjusted reload `d`
/// (ten-nanosecond units) lands: `floor(i * d * 30 / 10^8)`.
pub open spec fn shot_frame(d: int, i: int) -> int {
    3 * i * d / 10_000_000
}

/// Shot `i` fires strictly before the 5 second window closes.
pub open spec fn shot_in_window(d: int, i: int) -> bool {
    i * d < WINDOW_UNITS
}

/// Some in-window shot of the schedule lands on `frame`.
pub open spec fn shot_lands_on(d: int, frame: int) -> bool {
    exists|i: int| 0 <= i && shot_in_window(d, i) && shot_frame(d, i) == frame
}

/// What the adjusted curve holds at `frame` for a reload-driven weapon:
/// the character's burst value where some shot lands, zero elsewhere.
/// A shot landing on an already written frame overwrites it.
pub open spec fn adjusted_curve_entry(c: CharacterRecord, charge_bonus_milli: i32, frame: int) -> i64 {
    if shot_lands_on(reload_units(c.reload_time_ms, charge_bonus_milli), frame) {
        c.burst_value_milli
    } else {
        0i64
    }
}

/// Does `w` contain the two adjacent bytes `a`, `b`?
fn contains_pair_bytes(w: &Vec<u8>, a: u8, b: u8) -> (r: bool)
    ensures
        r == contains_pair(w@, a, b),
{
    if w.len() < 2 {
        return false;
    }
    let mut i: usize = 0;
    while i < w.len() - 1
        invariant
            w@.len() >= 2,
            i <= w@.len() - 1,
            forall|j: int| 0 <= j < i ==> !(#[trigger] w@[j] == a && w@[j + 1] == b),
        decreases w@.len() - i,
    {
        if w[i] == a && w[i + 1] == b {
            assert(contains_pair(w@, a, b));
            return true;
        }
        i += 1;
    }
    false
}

/// Recomputes a character's frame curve under a timing bonus.
///
/// For a weapon whose tag contains neither "RL" nor "SR" the bonus has no
/// effect and the existing curve is returned unchanged. For a reload-driven
/// weapon the reload time is scaled by `1 - charge_bonus_milli / 100000`
/// (`charge_bonus_milli` is thousandths of a percent); shots are then laid
/// out every adjusted reload, and each shot that fires strictly inside the
/// 5 second window writes the character's burst value onto the frame it
/// lands on, overwriting any earlier shot on the same frame. A bonus that
/// drives the adjusted reload to zero or below is rejected.
pub fn adjust_burst_generation(character: &CharacterRecord, charge_bonus_milli: i32) -> (r:
    Result<Vec<i64>, AdjustError>)
    ensures
        !is_reload_weapon(character.weapon_type@) ==> (r matches Ok(v) && v@
            == character.frame_curve@),
        is_reload_weapon(character.weapon_type@) && reload_units(
            character.reload_time_ms,
            charge_bonus_milli,
        ) <= 0 ==> r == Err::<Vec<i64>, AdjustError>(AdjustError::InvalidBonus),
        is_reload_weapon(character.weapon_type@) && reload_units(
            character.reload_time_ms,
            charge_bonus_milli,
        ) > 0 ==> (r matches Ok(v) && v@.len() == FRAME_COUNT && forall|f: int|
            0 <= f < FRAME_COUNT ==> v@[f] == adjusted_curve_entry(
                *character,
                charge_bonus_milli,
                f,
            )),
{
    let is_reload = contains_pair_bytes(&character.weapon_type, BYTE_R, BYTE_L)
        || contains_pair_bytes(&character.weapon_type, BYTE_S, BYTE_R);
    if !is_reload {
        let mut out: Vec<i64> = Vec::new();
        let mut k: usize = 0;
        while k < character.frame_curve.len()
            invariant
                k <= character.frame_curve@.len(),
                out@ == character.frame_curve@.take(k as int),
            decreases character.frame_curve@.len() - k,
        {
            out.push(character.frame_curve[k]);
            proof {
                assert(character.frame_curve@.take(k + 1) =~= character.frame_curve@.take(
                    k as int,
                ).push(character.frame_curve@[k as int]));
            }
            k += 1;
        }
        proof {
            assert(character.frame_curve@.take(character.frame_curve@.len() as int)
                =~= character.frame_curve@);
        }
        return Ok(out);
    }
    if character.reload_time_ms == 0 || charge_bonus_milli >= 100_000 {
        proof {
            if character.reload_time_ms != 0 {
                assert((character.reload_time_ms as int) * (100_000 - charge_bonus_milli as int)
                    <= 0) by (nonlinear_arith)
                    requires
                        character.reload_time_ms as int >= 0,
                        100_000 - charge_bonus_milli as int <= 0,
                ;
            } else {
                assert((character.reload_time_ms as int) * (100_000 - charge_bonus_milli as int)
                    == 0) by (nonlinear_arith)
                    requires
                        character.reload_time_ms as int == 0,
                ;
            }
        }
        return Err(AdjustError::InvalidBonus);
    }
    proof {
        assert((character.reload_time_ms as int) * (100_000 - charge_bonus_milli as int) >= 1)
            by (nonlinear_arith)
            requires
                character.reload_time_ms as int >= 1,
                100_000 - charge_bonus_milli as int >= 1,
        ;
    }
    let ms: u64 = character.reload_time_ms as u64;
    let diff: u64 = (100_000i64 - charge_bonus_milli as i64) as u64;
    proof {
        assert((ms as int) * (diff as int) <= 0xFFFF_FFFFu64 * 2_147_583_648u64)
            by (nonlinear_arith)
            requires
                0 <= ms as int <= 0xFFFF_FFFFu64,
                0 <= diff as int <= 2_147_583_648u64,
        ;
    }
    let d: u64 = ms * diff;
    proof {
        assert(d as int == reload_units(character.reload_time_ms, charge_bonus_milli));
    }
    let bv: i64 = character.burst_value_milli;
    let mut curve: Vec<i64> = Vec::new();
    let mut k: usize = 0;
    while k < FRAME_COUNT
        invariant
            curve@.len() == k,
            k <= FRAME_COUNT,
            forall|f: int| 0 <= f < k ==> curve@[f] == 0i64,
        decreases FRAME_COUNT - k,
    {
        curve.push(0);
        k += 1;
    }
    let mut i: u64 = 0;
    let mut fire: u64 = 0;
    while fire < WINDOW_UNITS
        invariant
            curve@.len() == FRAME_COUNT,
            1 <= d <= 0xFFFF_FFFFu64 * 2_147_583_648u64,
            d as int == reload_units(character.reload_time_ms, charge_bonus_milli),
            fire as int == (i as int) * (d as int),
            bv == character.burst_value_milli,
            forall|j: int| 0 <= j < i ==> #[trigger] (j * (d as int)) < WINDOW_UNITS,
            forall|f: int|
                0 <= f < FRAME_COUNT ==> curve@[f] == (if (exists|j: int|
                    0 <= j < i && shot_frame(d as int, j) == f) {
                    bv
                } else {
                    0i64
                }),
        decreases WINDOW_UNITS + d - fire,
    {
        let frame_u: usize = ((3 * fire) / 10_000_000) as usize;
        proof {
            assert(3 * (i as int) * (d as int) == 3 * ((i as int) * (d as int)))
                by (nonlinear_arith);
            assert(shot_frame(d as int, i as int) == frame_u as int);
            assert(shot_in_window(d as int, i as int));
        }
        if frame_u < FRAME_COUNT {
            curve.set(frame_u, bv);
        }
        proof {
            assert forall|f: int| 0 <= f < FRAME_COUNT implies curve@[f] == (if (exists|j: int|
                0 <= j < i + 1 && shot_frame(d as int, j) == f) {
                bv
            } else {
                0i64
            }) by {
                if f == frame_u as int && (frame_u as int) < FRAME_COUNT {
                    assert(0 <= (i as int) && (i as int) < i + 1 && shot_frame(
                        d as int,
                        i as int,
                    ) == f);
                } else {
                    if exists|j: int| 0 <= j < i + 1 && shot_frame(d as int, j) == f {
                        let j = choose|j: int| 0 <= j < i + 1 && shot_frame(d as int, j) == f;
                        assert(j < i);
                        assert(exists|j: int| 0 <= j < i && shot_frame(d as int, j) == f);
                    }
                }
            };
        }
        proof {
            assert((i as int) * (d as int) < WINDOW_UNITS);
            assert((i as int) + 1 <= (i as int) * (d as int) + 1) by (nonlinear_arith)
                requires
                    d as int >= 1,
                    i as int >= 0,
            ;
            assert((i as int + 1) * (d as int) == (i as int) * (d as int) + (d as int))
                by (nonlinear_arith);
        }
        i += 1;
        fire = fire + d;
    }
    proof {
        assert forall|f: int| 0 <= f < FRAME_COUNT implies curve@[f] == adjusted_curve_entry(
            *character,
            charge_bonus_milli,
            f,
        ) by {
            if shot_lands_on(d as int, f) {
                let j = choose|j: int|
                    0 <= j && shot_in_window(d as int, j) && shot_frame(d as int, j) == f;
                if j >= i {
                    assert(j * (d as int) >= (i as int) * (d as int)) by (nonlinear_arith)
                        requires
                            j >= i as int,
                            d as int >= 0,
                    ;
                    assert(false);
                }
                assert(exists|j: int| 0 <= j < i && shot_frame(d as int, j) == f);
            } else {
                if exists|j: int| 0 <= j < i && shot_frame(d as int, j) == f {
                    let j = choose|j: int| 0 <= j < i && shot_frame(d as int, j) == f;
                    assert(shot_in_window(d as int, j));
                    assert(false);
                }
            }
        };
    }
    Ok(curve)
}

} // verus!
