use duckworth_lewis::CricketMatch;
use duckworth_lewis::Grade;
use duckworth_lewis::Innings;
use duckworth_lewis::Overs;
use duckworth_lewis::resources_remaining;

#[test]
fn icc_example_one() {
    let mut game = CricketMatch::new(Overs::new(50), Grade::ICCFullMember);
    game.interruption(3, Overs::new(30), Overs::new(10), Innings::First);
    let revised_total = game.revised_target(180);

    assert_eq!(revised_total, 185);
}

#[test]
fn icc_example_two() {
    let mut game = CricketMatch::new(Overs::new(45), Grade::ICCFullMember);
    game.interruption(0, Overs::new(45), Overs::new(10), Innings::Second);
    let revised_total = game.revised_target(212);

    assert_eq!(revised_total, 185)
}

#[test]
fn icc_example_three() {
    let mut game = CricketMatch::new(Overs::new(50), Grade::ICCFullMember);
    game.interruption(1, Overs::new(38), Overs::new(10), Innings::Second);
    let revised_total = game.revised_target(250);

    assert_eq!(revised_total, 218)
}

#[test]
fn icc_example_four() {
    let mut game = CricketMatch::new(Overs::new(50), Grade::ICCFullMember);
    game.interruption(1, Overs::new(38), Overs::new(10), Innings::Second);
    game.interruption(3, Overs::new(18), Overs::new(2), Innings::Second);
    game.interruption(
        6,
        Overs::from_decimal_text(&7.4f32.to_string()).unwrap(),
        Overs::from_decimal_text(&7.4f32.to_string()).unwrap(),
        Innings::Second,
    );
    let revised_total = game.revised_target(250);
    assert_eq!(revised_total, 160)
}

#[test]
fn no_interruptions_means_no_revision() {
    let game = CricketMatch::new(Overs::new(50), Grade::ICCFullMember);
    assert_eq!(game.revised_target(0), 0);
    assert_eq!(game.revised_target(180), 0);
    assert_eq!(game.revised_target(987654), 0);
}

#[test]
fn equal_resources_leave_the_total_unchanged() {
    // A stoppage that removes no overs consumes no resources, so both
    // sides keep full resources and the target is the total itself,
    // without the one-run margin.
    let mut game = CricketMatch::new(Overs::new(50), Grade::ICCFullMember);
    game.interruption(0, Overs::new(50), Overs::new(0), Innings::Second);
    assert_eq!(game.revised_target(250), 250);
}

#[test]
fn explicit_g50_matches_the_grade_constant() {
    let mut by_grade = CricketMatch::new(Overs::new(50), Grade::ICCFullMember);
    let mut by_value = CricketMatch::new_with_g_50(Overs::new(50), 245);
    by_grade.interruption(3, Overs::new(30), Overs::new(10), Innings::First);
    by_value.interruption(3, Overs::new(30), Overs::new(10), Innings::First);
    assert_eq!(by_grade.revised_target(180), by_value.revised_target(180));
    assert_eq!(by_grade.g_50(), 245);
    assert_eq!(by_value.g_50(), 245);
}

#[test]
fn associate_grades_use_the_lower_g50() {
    let game = CricketMatch::new(Overs::new(50), Grade::U19International);
    assert_eq!(game.g_50(), 200);
    let game = CricketMatch::new(Overs::new(50), Grade::ICCAssociateMember);
    assert_eq!(game.g_50(), 200);
    let game = CricketMatch::new(Overs::new(50), Grade::FirstClass);
    assert_eq!(game.g_50(), 245);
}

#[test]
fn resources_exact_table_values() {
    // Values in sixtieths of a percentage point: a full fifty overs is
    // one hundred percent, thirty overs at three down is 61.6 percent.
    assert_eq!(resources_remaining(&Overs::new(50), 0), 6000);
    assert_eq!(resources_remaining(&Overs::new(40), 0), 5358);
    assert_eq!(resources_remaining(&Overs::new(30), 3), 3696);
    assert_eq!(resources_remaining(&Overs::new(20), 3), 2946);
    // 7.4 overs at six down interpolates between the entries at seven
    // (18.2) and eight (19.9): 18.2 + (19.9 - 18.2) * 4/6 percent.
    assert_eq!(resources_remaining(&Overs { overs: 7, balls: 4 }, 6), 1160);
}

#[test]
fn resources_vanish_at_the_boundaries() {
    assert_eq!(resources_remaining(&Overs::new(0), 0), 0);
    assert_eq!(resources_remaining(&Overs::new(30), 10), 0);
    assert_eq!(resources_remaining(&Overs::new(0), 9), 0);
}

#[test]
fn resources_monotonic_in_wickets_and_overs() {
    for w in 0..9u16 {
        assert!(resources_remaining(&Overs::new(30), w + 1) <= resources_remaining(&Overs::new(30), w));
    }
    for o in 0..50u16 {
        assert!(resources_remaining(&Overs::new(o), 2) <= resources_remaining(&Overs::new(o + 1), 2));
    }
    // Ball-level steps inside one over are monotone too.
    for b in 0..5u16 {
        assert!(
            resources_remaining(&Overs { overs: 20, balls: b }, 4)
                <= resources_remaining(&Overs { overs: 20, balls: b + 1 }, 4)
        );
    }
}

#[test]
fn match_state_can_be_read_back_and_rebuilt() {
    let mut game = CricketMatch::new(Overs::new(50), Grade::ICCFullMember);
    game.interruption(1, Overs::new(38), Overs::new(10), Innings::Second);
    game.interruption(3, Overs::new(18), Overs::new(2), Innings::Second);

    assert_eq!(game.length(), Overs::new(50));
    assert_eq!(game.g_50(), 245);
    assert_eq!(game.interruptions().len(), 2);

    // Rebuild from the exposed parts, as a persistence layer would.
    let mut rebuilt = CricketMatch::new_with_g_50(game.length(), game.g_50());
    for it in game.interruptions() {
        rebuilt.interruption(it.wickets, it.overs_left, it.overs_lost, it.innings);
    }
    assert_eq!(rebuilt.revised_target(250), game.revised_target(250));
}
