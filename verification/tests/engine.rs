use burst_sim::adjuster::{adjust_burst_generation, AdjustError};
use burst_sim::character::CharacterRecord;
use burst_sim::roster::{RosterError, TeamRoster};
use burst_sim::simulator::{simulate_burst_gauge, SimulationError, SimulationResult};

fn chr(name: &str, weapon: &str, reload_ms: u32, burst_milli: i64, curve: Vec<i64>) -> CharacterRecord {
    CharacterRecord {
        name: name.as_bytes().to_vec(),
        weapon_type: weapon.as_bytes().to_vec(),
        reload_time_ms: reload_ms,
        ammo_capacity: 10,
        rate_of_fire: 60,
        burst_value_milli: burst_milli,
        frame_curve: curve,
    }
}

fn zero_curve() -> Vec<i64> {
    vec![0i64; 150]
}

fn flat_curve(value: i64) -> Vec<i64> {
    vec![value; 150]
}

fn member_names(roster: &TeamRoster) -> Vec<Vec<u8>> {
    roster.members().iter().map(|c| c.name.clone()).collect()
}

#[test]
fn roster_starts_empty() {
    let roster = TeamRoster::new();
    assert_eq!(roster.len(), 0);
    assert!(roster.members().is_empty());
}

#[test]
fn roster_add_until_full() {
    let mut roster = TeamRoster::new();
    for name in ["a", "b", "c", "d", "e"] {
        assert_eq!(roster.add(chr(name, "AR", 1000, 0, zero_curve())), Ok(()));
    }
    assert_eq!(roster.len(), 5);
    let before = member_names(&roster);
    assert_eq!(
        roster.add(chr("f", "AR", 1000, 0, zero_curve())),
        Err(RosterError::RosterFull)
    );
    assert_eq!(roster.len(), 5);
    assert_eq!(member_names(&roster), before);
}

#[test]
fn roster_duplicate_name_rejected() {
    let mut roster = TeamRoster::new();
    assert_eq!(roster.add(chr("alice", "AR", 1000, 0, zero_curve())), Ok(()));
    let before = member_names(&roster);
    assert_eq!(
        roster.add(chr("alice", "SG", 2000, 0, zero_curve())),
        Err(RosterError::DuplicateMember)
    );
    assert_eq!(roster.len(), 1);
    assert_eq!(member_names(&roster), before);
}

#[test]
fn roster_remove_keeps_order() {
    let mut roster = TeamRoster::new();
    for name in ["a", "b", "c"] {
        assert_eq!(roster.add(chr(name, "AR", 1000, 0, zero_curve())), Ok(()));
    }
    let removed = roster.remove(1).unwrap();
    assert_eq!(removed.name, b"b".to_vec());
    assert_eq!(member_names(&roster), vec![b"a".to_vec(), b"c".to_vec()]);
}

#[test]
fn roster_remove_out_of_range() {
    let mut roster = TeamRoster::new();
    assert_eq!(roster.add(chr("a", "AR", 1000, 0, zero_curve())), Ok(()));
    let before = member_names(&roster);
    assert_eq!(roster.remove(1).unwrap_err(), RosterError::IndexOutOfRange);
    assert_eq!(roster.remove(7).unwrap_err(), RosterError::IndexOutOfRange);
    assert_eq!(member_names(&roster), before);
}

#[test]
fn simulate_threshold_at_frame_ten() {
    // All curves zero except the first member contributing exactly the
    // threshold (100 gauge units) at frame index 10: burst on display
    // frame 11, i.e. at 10/30 seconds.
    let mut lead_curve = zero_curve();
    lead_curve[10] = 100_000;
    let mut team = vec![chr("lead", "AR", 1000, 0, lead_curve)];
    for name in ["b", "c", "d", "e"] {
        team.push(chr(name, "AR", 1000, 0, zero_curve()));
    }
    let result = simulate_burst_gauge(&team);
    assert_eq!(result, Ok(SimulationResult::Burst { burst_frame: 11 }));
}

#[test]
fn simulate_no_burst_below_threshold() {
    // Five members at 10 gauge units per frame sum to 50 everywhere,
    // always below the threshold of 100.
    let team: Vec<CharacterRecord> = ["a", "b", "c", "d", "e"]
        .iter()
        .map(|name| chr(name, "AR", 1000, 0, flat_curve(10_000)))
        .collect();
    assert_eq!(simulate_burst_gauge(&team), Ok(SimulationResult::NoBurst));
}

#[test]
fn simulate_tie_at_threshold_bursts_at_frame_one() {
    // Each member contributes exactly 20 gauge units at frame 0; the sum is
    // exactly 100, so the team bursts on display frame 1 at time zero.
    let team: Vec<CharacterRecord> = ["a", "b", "c", "d", "e"]
        .iter()
        .map(|name| {
            let mut curve = zero_curve();
            curve[0] = 20_000;
            chr(name, "AR", 1000, 0, curve)
        })
        .collect();
    assert_eq!(
        simulate_burst_gauge(&team),
        Ok(SimulationResult::Burst { burst_frame: 1 })
    );
}

#[test]
fn simulate_is_deterministic() {
    let mut lead_curve = zero_curve();
    lead_curve[42] = 60_000;
    lead_curve[77] = 45_000;
    let team: Vec<CharacterRecord> = ["a", "b", "c", "d", "e"]
        .iter()
        .map(|name| chr(name, "AR", 1000, 0, lead_curve.clone()))
        .collect();
    let first = simulate_burst_gauge(&team);
    let second = simulate_burst_gauge(&team);
    assert_eq!(first, second);
    assert_eq!(first, Ok(SimulationResult::Burst { burst_frame: 43 }));
}

#[test]
fn simulate_rejects_wrong_team_size() {
    let team: Vec<CharacterRecord> = ["a", "b", "c", "d"]
        .iter()
        .map(|name| chr(name, "AR", 1000, 0, zero_curve()))
        .collect();
    assert_eq!(
        simulate_burst_gauge(&team),
        Err(SimulationError::InvalidTeamSize)
    );
    let empty: Vec<CharacterRecord> = Vec::new();
    assert_eq!(
        simulate_burst_gauge(&empty),
        Err(SimulationError::InvalidTeamSize)
    );
}

#[test]
fn simulate_rejects_short_curve() {
    let mut team: Vec<CharacterRecord> = ["a", "b", "c", "d"]
        .iter()
        .map(|name| chr(name, "AR", 1000, 0, zero_curve()))
        .collect();
    team.push(chr("e", "AR", 1000, 0, vec![0i64; 149]));
    assert_eq!(
        simulate_burst_gauge(&team),
        Err(SimulationError::InvalidFrameData)
    );
}

#[test]
fn adjust_leaves_non_reload_weapon_alone() {
    // "AR" contains neither "RL" nor "SR": a 50% bonus has no effect.
    let mut curve = zero_curve();
    curve[3] = 1_234;
    curve[149] = 5_678;
    let character = chr("ar user", "AR", 1500, 40_000, curve.clone());
    assert_eq!(adjust_burst_generation(&character, 50_000), Ok(curve));
}

#[test]
fn adjust_reload_weapon_spaces_shots() {
    // Reload 2 s with a 50% bonus gives a 1 s adjusted reload: 5 shots at
    // 0,1,2,3,4 seconds, landing on frames 0,30,60,90,120.
    let character = chr("rocket", "RL", 2000, 40_000, zero_curve());
    let adjusted = adjust_burst_generation(&character, 50_000).unwrap();
    assert_eq!(adjusted.len(), 150);
    let mut expected = zero_curve();
    for frame in [0usize, 30, 60, 90, 120] {
        expected[frame] = 40_000;
    }
    assert_eq!(adjusted, expected);
}

#[test]
fn adjust_overwrites_colliding_shots() {
    // Reload 20 ms with no bonus: shots 0 and 1 fire at 0 ms and 20 ms and
    // both land on frame 0. The later write overwrites the earlier one, so
    // the frame holds one burst value, not an accumulated sum.
    let character = chr("sniper", "SR", 20, 40_000, zero_curve());
    let adjusted = adjust_burst_generation(&character, 0).unwrap();
    assert_eq!(adjusted[0], 40_000);
}

#[test]
fn adjust_rejects_invalid_bonus() {
    let character = chr("rocket", "RL", 2000, 40_000, zero_curve());
    assert_eq!(
        adjust_burst_generation(&character, 100_000),
        Err(AdjustError::InvalidBonus)
    );
    assert_eq!(
        adjust_burst_generation(&character, 150_000),
        Err(AdjustError::InvalidBonus)
    );
    let zero_reload = chr("broken", "RL", 0, 40_000, zero_curve());
    assert_eq!(
        adjust_burst_generation(&zero_reload, 25_000),
        Err(AdjustError::InvalidBonus)
    );
}

#[test]
fn adjust_negative_bonus_stretches_reload() {
    // Reload 4 s with a -25% bonus gives a 5 s adjusted reload: only the
    // shot at time 0 fires strictly inside the 5 second window.
    let character = chr("rocket", "RL", 4000, 40_000, zero_curve());
    let adjusted = adjust_burst_generation(&character, -25_000).unwrap();
    let mut expected = zero_curve();
    expected[0] = 40_000;
    assert_eq!(adjusted, expected);
}
