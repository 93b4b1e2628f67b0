//! Match state and the revised-target computation.

use vstd::prelude::*;

use crate::overs::Overs;
use crate::overs::sub_spec;
use crate::overs::subtract;
use crate::table::lemma_resources_overs_monotone;
use crate::table::resources_of;
use crate::table::resources_remaining;

verus! {

/// The grade of the teams in the match: the highest level the teams are
/// eligible to play. The grade fixes the G50 constant, the expected
/// total of an average uninterrupted innings: 245 runs for full ICC
/// members and first-class sides, 200 for all others.
#[derive(Debug, Clone, Copy)]
pub enum Grade {
    ICCFullMember,
    FirstClass,
    U19International,
    U15International,
    WomensInternational,
    ICCAssociateMember,
}

/// The G50 constant for a grade, in runs.
pub open spec fn grade_g50(g: Grade) -> int {
    match g {
        Grade::ICCFullMember => 245,
        Grade::FirstClass => 245,
        _ => 200,
    }
}

/// The innings a stoppage falls in. Only limited-overs matches are in
/// scope, so there is never a third or fourth innings.
#[derive(Debug, Clone, Copy, PartialEq, Eq, Structural)]
pub enum Innings {
    First,
    Second,
}

/// One stoppage: the wickets already lost and the overs still to be
/// bowled at the moment of suspension, and the overs the stoppage
/// removed from this innings.
#[derive(Debug, Clone, Copy)]
pub struct Interruption {
    pub wickets: u16,
    pub overs_left: Overs,
    pub overs_lost: Overs,
    pub innings: Innings,
}

impl Interruption {
    /// A record is well formed for a match of the given length when
    /// fewer than ten wickets are down, its over quantities are well
    /// formed, no more overs remain than the match has, and the overs
    /// lost fit delivery arithmetic.
    pub open spec fn wf(self, length: Overs) -> bool {
        &&& self.wickets < 10
        &&& self.overs_left.wf()
        &&& self.overs_lost.wf()
        &&& self.overs_left.total() <= length.total()
        &&& self.overs_lost.total() <= u16::MAX
    }

    /// The resources this stoppage alone consumed, in sixtieths of a
    /// percentage point: what was available at suspension less what is
    /// available again at resumption, wickets held fixed.
    pub open spec fn loss_spec(self) -> int {
        resources_of(self.overs_left, self.wickets as int) - resources_of(
            sub_spec(self.overs_left, self.overs_lost),
            self.wickets as int,
        )
    }

    /// Resource loss of this single stoppage. Never negative: removing
    /// overs cannot add resources.
    fn resource_loss(&self) -> (r: u32)
        requires
            self.overs_left.wf(),
            self.overs_lost.wf(),
            self.overs_left.total() <= u16::MAX,
            self.overs_lost.total() <= u16::MAX,
        ensures
            r == self.loss_spec(),
            r <= 6000,
    {
        let at_suspension = resources_remaining(&self.overs_left, self.wickets);
        let resumed = subtract(&self.overs_left, &self.overs_lost);
        let at_resumption = resources_remaining(&resumed, self.wickets);
        proof {
            lemma_resources_overs_monotone(resumed, self.overs_left, self.wickets as int);
        }
        at_suspension - at_resumption
    }
}

/// A non-negative value unchanged, a negative one floored at zero.
pub open spec fn clamp0(x: int) -> int {
    if x < 0 {
        0
    } else {
        x
    }
}

/// Folds the first-innings stoppages, in recorded order, over a running
/// pair of team-one resources and the overs still allocated to team
/// two: each first-innings stoppage takes its resource loss from the
/// former (floored at zero) and its overs lost from the latter.
pub open spec fn fold_first(ints: Seq<Interruption>, res: int, overs: Overs) -> (int, Overs)
    decreases ints.len(),
{
    if ints.len() == 0 {
        (res, overs)
    } else if ints[0].innings is First {
        fold_first(
            ints.skip(1),
            clamp0(res - ints[0].loss_spec()),
            sub_spec(overs, ints[0].overs_lost),
        )
    } else {
        fold_first(ints.skip(1), res, overs)
    }
}

/// Folds the second-innings stoppages, in recorded order, over running
/// team-two resources, taking each stoppage's resource loss (floored at
/// zero).
pub open spec fn fold_second(ints: Seq<Interruption>, res: int) -> int
    decreases ints.len(),
{
    if ints.len() == 0 {
        res
    } else if ints[0].innings is Second {
        fold_second(ints.skip(1), clamp0(res - ints[0].loss_spec()))
    } else {
        fold_second(ints.skip(1), res)
    }
}

/// An integer saturated into the `u32` range from above.
pub open spec fn to_u32_sat(x: int) -> int {
    if x > u32::MAX {
        u32::MAX as int
    } else {
        x
    }
}

/// The revised target, before saturation into `u32`, with resources in
/// sixtieths of a percentage point. With no stoppage recorded there is
/// no revision and the sentinel is zero. Otherwise team one's available
/// resources and team two's nominal overs come from the first-innings
/// fold, team two's resources from the second-innings fold, and the
/// target follows the Standard Edition comparison: scale the total down
/// by the resource ratio when team two had less, value the surplus at
/// G50 runs per full innings when it had more, and leave the total
/// unchanged (with no one-run margin) when resources came out equal.
/// Divisions are exact integer floors; the final floor discards the
/// fractional remainder exactly as the method asks.
pub open spec fn target_spec(length: Overs, g50: int, ints: Seq<Interruption>, total: int) -> int {
    if ints.len() == 0 {
        0
    } else {
        let first = fold_first(ints, resources_of(length, 0), length);
        let t1 = first.0;
        let t2 = fold_second(ints, resources_of(first.1, 0));
        if t2 < t1 {
            total * t2 / t1 + 1
        } else if t2 > t1 {
            total + (t2 - t1) * g50 / 6000 + 1
        } else {
            total
        }
    }
}

/// A cricket match: its original length, its G50 constant, and the
/// stoppages recorded so far, in chronological order.
#[derive(Debug)]
pub struct CricketMatch {
    length: Overs,
    g_50: u16,
    interruptions: Vec<Interruption>,
}

impl CricketMatch {
    /// The match length as first scheduled.
    pub closed spec fn length_of(self) -> Overs {
        self.length
    }

    /// The G50 constant, in runs.
    pub closed spec fn g50_of(self) -> int {
        self.g_50 as int
    }

    /// The recorded stoppages, oldest first.
    pub closed spec fn interruptions_of(self) -> Seq<Interruption> {
        self.interruptions@
    }

    /// A match is well formed when its length is a well-formed over
    /// quantity of at most fifty whole overs and every recorded
    /// stoppage is well formed for that length.
    pub open spec fn wf(self) -> bool {
        &&& self.length_of().wf()
        &&& self.length_of().overs <= 50
        &&& forall|i: int|
            0 <= i < self.interruptions_of().len() ==> (
            #[trigger] self.interruptions_of()[i]).wf(self.length_of())
    }

    /// Create a match of the given length at the given grade.
    pub fn new(length: Overs, grade: Grade) -> (m: CricketMatch)
        requires
            length.wf(),
            length.overs <= 50,
        ensures
            m.wf(),
            m.length_of() == length,
            m.g50_of() == grade_g50(grade),
            m.interruptions_of() == Seq::<Interruption>::empty(),
    {
        let g_50: u16 = match grade {
            Grade::ICCFullMember => 245,
            Grade::FirstClass => 245,
            _ => 200,
        };
        let m = CricketMatch { length, g_50, interruptions: Vec::new() };
        proof {
            assert(m.interruptions_of() =~= Seq::<Interruption>::empty());
        }
        m
    }

    /// Create a match with an explicit G50 value, for experimentation
    /// outside the two standardized constants.
    pub fn new_with_g_50(length: Overs, g_50: u16) -> (m: CricketMatch)
        requires
            length.wf(),
            length.overs <= 50,
        ensures
            m.wf(),
            m.length_of() == length,
            m.g50_of() == g_50,
            m.interruptions_of() == Seq::<Interruption>::empty(),
    {
        let m = CricketMatch { length, g_50, interruptions: Vec::new() };
        proof {
            assert(m.interruptions_of() =~= Seq::<Interruption>::empty());
        }
        m
    }

    /// Record a stoppage. Overs left are as at the beginning of the
    /// stoppage (allowing for previous stoppages, not for this one);
    /// overs lost are those this stoppage removes from this innings.
    /// The caller answers for the record: fewer than ten wickets, and
    /// no more overs left than the match has.
    pub fn interruption(
        &mut self,
        wickets: u16,
        overs_left: Overs,
        overs_lost: Overs,
        innings: Innings,
    )
        requires
            old(self).wf(),
            wickets < 10,
            overs_left.wf(),
            overs_lost.wf(),
            overs_left.total() <= old(self).length_of().total(),
            overs_lost.total() <= u16::MAX,
        ensures
            final(self).wf(),
            final(self).length_of() == old(self).length_of(),
            final(self).g50_of() == old(self).g50_of(),
            final(self).interruptions_of() == old(self).interruptions_of().push(
                Interruption { wickets, overs_left, overs_lost, innings },
            ),
    {
        let ghost before = self.interruptions@;
        self.interruptions.push(Interruption { wickets, overs_left, overs_lost, innings });
        proof {
            assert forall|i: int| 0 <= i < self.interruptions_of().len() implies (
            #[trigger] self.interruptions_of()[i]).wf(self.length_of()) by {
                if i < before.len() {
                    assert(self.interruptions_of()[i] == old(self).interruptions_of()[i]);
                    assert(old(self).interruptions_of()[i].wf(old(self).length_of()));
                }
            }
        }
    }

    /// Total resources available at the beginning of an uninterrupted
    /// innings of this match, in sixtieths of a percentage point.
    fn initial_resources(&self) -> (r: u32)
        requires
            self.wf(),
        ensures
            r == resources_of(self.length_of(), 0),
            r <= 6000,
    {
        resources_remaining(&self.length, 0)
    }

    /// The target the team batting second must reach at the close of
    /// its innings to win, assuming the first innings is complete and
    /// every stoppage is recorded. With no stoppage recorded it returns
    /// zero, the sentinel for "no revision in effect". The computation
    /// is a pure read over the full history and may be repeated as more
    /// stoppages are recorded; a result beyond the `u32` range is
    /// saturated.
    pub fn revised_target(&self, first_innings_total: usize) -> (r: u32)
        requires
            self.wf(),
        ensures
            r == to_u32_sat(
                target_spec(
                    self.length_of(),
                    self.g50_of(),
                    self.interruptions_of(),
                    first_innings_total as int,
                ),
            ),
            self.interruptions_of().len() == 0 ==> r == 0,
    {
        let ghost ints = self.interruptions_of();
        if self.interruptions.len() == 0 {
            return 0;
        }
        let mut t1: u32 = self.initial_resources();
        let mut overs: Overs = self.length;
        let ghost first = fold_first(ints, t1 as int, overs);
        proof {
            assert(ints.skip(0) =~= ints);
        }
        let mut idx: usize = 0;
        while idx < self.interruptions.len()
            invariant
                self.wf(),
                idx <= self.interruptions_of().len(),
                ints == self.interruptions_of(),
                t1 <= 6000,
                overs.wf(),
                overs.total() <= self.length_of().total(),
                first == fold_first(ints.skip(idx as int), t1 as int, overs),
                first == fold_first(ints, resources_of(self.length_of(), 0), self.length_of()),
            decreases self.interruptions.len() - idx,
        {
            let it = &self.interruptions[idx];
            proof {
                vstd::seq_lib::lemma_seq_skip_index(ints, idx as int, 0);
                assert(ints.skip(idx as int).skip(1) =~= ints.skip(idx as int + 1));
            }
            if it.innings == Innings::First {
                let loss = it.resource_loss();
                t1 = if loss > t1 {
                    0
                } else {
                    t1 - loss
                };
                overs = subtract(&overs, &it.overs_lost);
            }
            idx += 1;
        }
        proof {
            assert(ints.skip(ints.len() as int) =~= Seq::<Interruption>::empty());
            assert(first == (t1 as int, overs));
        }
        let mut t2: u32 = resources_remaining(&overs, 0);
        let ghost second = fold_second(ints, t2 as int);
        proof {
            assert(ints.skip(0) =~= ints);
        }
        idx = 0;
        while idx < self.interruptions.len()
            invariant
                self.wf(),
                idx <= self.interruptions_of().len(),
                ints == self.interruptions_of(),
                t2 <= 6000,
                second == fold_second(ints.skip(idx as int), t2 as int),
            decreases self.interruptions.len() - idx,
        {
            let it = &self.interruptions[idx];
            proof {
                vstd::seq_lib::lemma_seq_skip_index(ints, idx as int, 0);
                assert(ints.skip(idx as int).skip(1) =~= ints.skip(idx as int + 1));
            }
            if it.innings == Innings::Second {
                let loss = it.resource_loss();
                t2 = if loss > t2 {
                    0
                } else {
                    t2 - loss
                };
            }
            idx += 1;
        }
        proof {
            assert(ints.skip(ints.len() as int) =~= Seq::<Interruption>::empty());
            assert(second == t2 as int);
        }
        if t2 < t1 {
            let tot = first_innings_total as u64 as u128;
            proof {
                assert(tot * t2 as u128 <= u64::MAX as u128 * 6000) by (nonlinear_arith)
                    requires
                        tot <= u64::MAX as u128,
                        t2 as u128 <= 6000,
                ;
            }
            let q = (tot * t2 as u128) / (t1 as u128) + 1;
            if q > u32::MAX as u128 {
                u32::MAX
            } else {
                q as u32
            }
        } else if t2 > t1 {
            proof {
                assert((t2 - t1) as u64 * self.g_50 as u64 <= 6000 * 65535) by (nonlinear_arith)
                    requires
                        (t2 - t1) as u64 <= 6000,
                        self.g_50 as u64 <= 65535,
                ;
            }
            let term = ((t2 - t1) as u64 * self.g_50 as u64) / 6000;
            let sum = first_innings_total as u128 + term as u128 + 1;
            if sum > u32::MAX as u128 {
                u32::MAX
            } else {
                sum as u32
            }
        } else {
            if first_innings_total > u32::MAX as usize {
                u32::MAX
            } else {
                first_innings_total as u32
            }
        }
    }

    /// The match length, for callers that persist the match.
    pub fn length(&self) -> (r: Overs)
        ensures
            r == self.length_of(),
    {
        self.length
    }

    /// The G50 constant in runs, for callers that persist the match.
    pub fn g_50(&self) -> (r: u16)
        ensures
            r as int == self.g50_of(),
    {
        self.g_50
    }

    /// The recorded stoppages, oldest first, for callers that persist
    /// the match.
    pub fn interruptions(&self) -> (r: &Vec<Interruption>)
        ensures
            r@ == self.interruptions_of(),
    {
        &self.interruptions
    }
}

} // verus!
