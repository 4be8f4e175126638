use vstd::prelude::*;
use crate::character::{CharacterRecord, BURST_THRESHOLD_MILLI, FRAME_COUNT};

verus! {

/// Outcome of simulating one complete team.
#[derive(Clone, Copy, Debug, PartialEq, Eq, Structural)]
pub enum SimulationResult {
    /// The gauge reached the threshold. `burst_frame` is 1-based for
    /// display; the burst time in seconds is `(burst_frame - 1) / 30`.
    Burst { burst_frame: usize },
    /// The gauge never reached the threshold within the window.
    NoBurst,
}

/// Why a simulation request was rejected outright.
#[derive(Clone, Copy, Debug, PartialEq, Eq, Structural)]
pub enum SimulationError {
    /// The team does not have exactly `ROSTER_CAPACITY` members.
    InvalidTeamSize,
    /// Some member's curve does not cover every frame.
    InvalidFrameData,
}

/// One member's gauge contribution at `frame`, in milli-units.
pub open spec fn curve_value(c: CharacterRecord, frame: int) -> int {
    c.frame_curve@[frame] as int
}

/// Combined gauge contribution of `team` at `frame`, in milli-units.
pub open spec fn frame_sum(team: Seq<CharacterRecord>, frame: int) -> int
    decreases team.len(),
{
    if team.len() == 0 {
        0
    } else {
        frame_sum(team.drop_last(), frame) + curve_value(team.last(), frame)
    }
}

/// Every member's curve covers every frame.
pub open spec fn team_curves_complete(team: Seq<CharacterRecord>) -> bool {
    forall|i: int| 0 <= i < team.len() ==> team[i].curve_complete()
}

/// The team's combined contribution at `frame` reaches the threshold.
pub open spec fn reaches_threshold(team: Seq<CharacterRecord>, frame: int) -> bool {
    frame_sum(team, frame) >= BURST_THRESHOLD_MILLI
}

/// The first frame at or after `frame` (0-based, below `FRAME_COUNT`) whose
/// combined contribution reaches the threshold, if any.
pub open spec fn first_burst_from(team: Seq<CharacterRecord>, frame: int) -> Option<int>
    decreases FRAME_COUNT - frame,
{
    if frame < 0 || frame >= FRAME_COUNT {
        None
    } else if reaches_threshold(team, frame) {
        Some(frame)
    } else {
        first_burst_from(team, frame + 1)
    }
}

/// What simulating `team` returns: the errors for a wrong team size or an
/// incomplete curve, else the first frame that reaches the threshold
/// (reported 1-based), else `NoBurst`.
pub open spec fn spec_simulate(team: Seq<CharacterRecord>) -> Result<
    SimulationResult,
    SimulationError,
> {
    if team.len() != 5 {
        Err(SimulationError::InvalidTeamSize)
    } else if !team_curves_complete(team) {
        Err(SimulationError::InvalidFrameData)
    } else {
        match first_burst_from(team, 0) {
            Some(f) => Ok(SimulationResult::Burst { burst_frame: (f + 1) as usize }),
            None => Ok(SimulationResult::NoBurst),
        }
    }
}

/// Scans the 150-frame window of a complete 5-member team and reports the
/// first frame at which the members' combined per-frame contribution reaches
/// the burst threshold, or `NoBurst` if no frame does.
pub fn simulate_burst_gauge(team: &Vec<CharacterRecord>) -> (r: Result<
    SimulationResult,
    SimulationError,
>)
    ensures
        r == spec_simulate(team@),
{
    if team.len() != 5 {
        return Err(SimulationError::InvalidTeamSize);
    }
    let mut m: usize = 0;
    while m < 5
        invariant
            team@.len() == 5,
            m <= 5,
            forall|i: int| 0 <= i < m ==> team@[i].curve_complete(),
        decreases 5 - m,
    {
        if team[m].frame_curve.len() != FRAME_COUNT {
            assert(!team@[m as int].curve_complete());
            return Err(SimulationError::InvalidFrameData);
        }
        m += 1;
    }
    assert(team_curves_complete(team@));
    let mut frame: usize = 0;
    while frame < FRAME_COUNT
        invariant
            team@.len() == 5,
            team_curves_complete(team@),
            frame <= FRAME_COUNT,
            first_burst_from(team@, 0) == first_burst_from(team@, frame as int),
        decreases FRAME_COUNT - frame,
    {
        let mut sum: i128 = 0;
        let mut m: usize = 0;
        while m < 5
            invariant
                team@.len() == 5,
                team_curves_complete(team@),
                frame < FRAME_COUNT,
                m <= 5,
                sum == frame_sum(team@.take(m as int), frame as int),
                -(m as i128) * (i64::MIN as i128) >= -sum,
                sum <= (m as i128) * (i64::MAX as i128),
            decreases 5 - m,
        {
            proof {
                assert(team@.take(m + 1).drop_last() =~= team@.take(m as int));
                assert(team@.take(m + 1).last() == team@[m as int]);
            }
            sum = sum + (team[m].frame_curve[frame] as i128);
            m += 1;
        }
        proof {
            assert(team@.take(5) =~= team@);
        }
        if sum >= BURST_THRESHOLD_MILLI as i128 {
            assert(reaches_threshold(team@, frame as int));
            return Ok(SimulationResult::Burst { burst_frame: frame + 1 });
        }
        assert(!reaches_threshold(team@, frame as int));
        frame += 1;
    }
    Ok(SimulationResult::NoBurst)
}

/// The combined contribution at a frame depends only on the members' curves:
/// two equally long teams whose members' curves agree pointwise have equal
/// frame sums.
proof fn lemma_frame_sum_only_curves(t1: Seq<CharacterRecord>, t2: Seq<CharacterRecord>, frame: int)
    requires
        t1.len() == t2.len(),
        forall|i: int| 0 <= i < t1.len() ==> t1[i].frame_curve@ == t2[i].frame_curve@,
    ensures
        frame_sum(t1, frame) == frame_sum(t2, frame),
    decreases t1.len(),
{
    if t1.len() > 0 {
        assert forall|i: int|
            0 <= i < t1.drop_last().len() implies t1.drop_last()[i].frame_curve@
            == t2.drop_last()[i].frame_curve@ by {
            assert(t1.drop_last()[i] == t1[i]);
            assert(t2.drop_last()[i] == t2[i]);
        };
        lemma_frame_sum_only_curves(t1.drop_last(), t2.drop_last(), frame);
        assert(t1.last().frame_curve@ == t2.last().frame_curve@);
    }
}

/// The first bursting frame depends only on the members' curves.
proof fn lemma_first_burst_only_curves(
    t1: Seq<CharacterRecord>,
    t2: Seq<CharacterRecord>,
    frame: int,
)
    requires
        t1.len() == t2.len(),
        forall|i: int| 0 <= i < t1.len() ==> t1[i].frame_curve@ == t2[i].frame_curve@,
    ensures
        first_burst_from(t1, frame) == first_burst_from(t2, frame),
    decreases FRAME_COUNT - frame,
{
    if 0 <= frame < FRAME_COUNT {
        lemma_frame_sum_only_curves(t1, t2, frame);
        if !reaches_threshold(t1, frame) {
            lemma_first_burst_only_curves(t1, t2, frame + 1);
        }
    }
}

/// Law: the simulation outcome is a function of the five curves alone. Two
/// teams of equal size whose members' frame curves agree pointwise simulate
/// to the same result, whatever their names and other stats; in particular,
/// simulating the same team twice returns identical results.
pub proof fn lemma_simulate_depends_only_on_curves(
    t1: Seq<CharacterRecord>,
    t2: Seq<CharacterRecord>,
)
    requires
        t1.len() == t2.len(),
        forall|i: int| 0 <= i < t1.len() ==> t1[i].frame_curve@ == t2[i].frame_curve@,
    ensures
        spec_simulate(t1) == spec_simulate(t2),
{
    assert forall|i: int| 0 <= i < t1.len() implies t1[i].curve_complete()
        == t2[i].curve_complete() by {
        assert(t1[i].frame_curve@ == t2[i].frame_curve@);
    };
    lemma_first_burst_only_curves(t1, t2, 0);
}

/// Below the threshold at or after `frame`, no burst is found there.
proof fn lemma_first_burst_none(team: Seq<CharacterRecord>, frame: int)
    requires
        forall|f: int| frame <= f < FRAME_COUNT ==> frame_sum(team, f) < BURST_THRESHOLD_MILLI,
    ensures
        first_burst_from(team, frame) == None::<int>,
    decreases FRAME_COUNT - frame,
{
    if 0 <= frame < FRAME_COUNT {
        lemma_first_burst_none(team, frame + 1);
    }
}

/// Law: a complete team whose combined contribution stays strictly below the
/// threshold at every frame of the window simulates to `NoBurst`.
pub proof fn lemma_no_burst_when_under_threshold(team: Seq<CharacterRecord>)
    requires
        team.len() == 5,
        team_curves_complete(team),
        forall|f: int| 0 <= f < FRAME_COUNT ==> frame_sum(team, f) < BURST_THRESHOLD_MILLI,
    ensures
        spec_simulate(team) == Ok::<SimulationResult, SimulationError>(SimulationResult::NoBurst),
{
    lemma_first_burst_none(team, 0);
}

/// Law: a complete team whose combined contribution meets the threshold
/// exactly at frame 0 bursts on the first frame, at time zero.
pub proof fn lemma_burst_at_first_frame(team: Seq<CharacterRecord>)
    requires
        team.len() == 5,
        team_curves_complete(team),
        frame_sum(team, 0) == BURST_THRESHOLD_MILLI,
    ensures
        spec_simulate(team) == Ok::<SimulationResult, SimulationError>(
            SimulationResult::Burst { burst_frame: 1 },
        ),
{
    assert(reaches_threshold(team, 0));
    assert(first_burst_from(team, 0) == Some(0int));
}

} // verus!
