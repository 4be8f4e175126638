use vstd::prelude::*;

verus! {

/// Number of discrete simulation frames: 30 frames per second over a
/// 5 second window.
pub const FRAME_COUNT: usize = 150;

/// Burst gauge threshold, in milli-units (100 gauge units).
pub const BURST_THRESHOLD_MILLI: i64 = 100_000;

/// One character's combat stats and per-frame burst-contribution curve.
///
/// Gauge quantities are fixed-point: `burst_value_milli` and the entries of
/// `frame_curve` are thousandths of a gauge unit, and `reload_time_ms` is
/// milliseconds.
#[derive(Clone, Debug)]
pub struct CharacterRecord {
    /// Display name; the roster uniqueness key (UTF-8 bytes).
    pub name: Vec<u8>,
    /// Weapon tag (UTF-8 bytes); reload-driven curve adjustment applies
    /// exactly when it contains the substring "RL" or "SR".
    pub weapon_type: Vec<u8>,
    /// Reload time in milliseconds.
    pub reload_time_ms: u32,
    /// Magazine size.
    pub ammo_capacity: u32,
    /// Rate of fire.
    pub rate_of_fire: u32,
    /// Gauge contribution of one triggering shot, in milli-units.
    pub burst_value_milli: i64,
    /// Contribution to the gauge at each frame, in milli-units; a record is
    /// valid for simulation only with exactly `FRAME_COUNT` entries.
    pub frame_curve: Vec<i64>,
}

impl CharacterRecord {
    /// A record is fit for simulation when its curve covers every frame.
    pub open spec fn curve_complete(self) -> bool {
        self.frame_curve@.len() == FRAME_COUNT
    }
}

} // verus!
