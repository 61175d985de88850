use cypher_character_model::Character;
use cypher_character_model::CharacterStats;
use cypher_character_model::DamageTrack;
use cypher_character_model::EffortType;
use cypher_character_model::Sentence;

#[test]
fn a_charachter_should_display_as_the_sentence() {
    let character = Character {
        name: r#"Lt. Commander Jane "JJ" Jones"#.to_string(),
        pronouns: "she/her".to_string(),
        sentence: Sentence {
            descriptor: "Impulsive".to_string(),
            character_type: "Explorer".to_string(),
            flavor: Some("Combat".to_string()),
            focus: "Sailed Beneath The Jolly Roger".to_string(),
        },
    };
    let actual = character.render();
    let expected = r#"Lt. Commander Jane "JJ" Jones (she/her) is a Impulsive Explorer (Combat) who Sailed Beneath The Jolly Roger"#;

    assert_eq!(actual, expected);
}

#[test]
fn spending_effort_should_reject_zero_effort() {
    let mut character_stats = CharacterStats::new(5, 1, 5, 0, 5, 0);

    let error = character_stats
        .spend_effort(EffortType::Might, 0, 0)
        .expect_err("Should have failed");

    assert_eq!(error.message(), "Attempted to spend zero effort");
}

#[test]
fn spending_effort_should_reject_too_much_effort() {
    let mut character_stats = CharacterStats::new(5, 1, 5, 0, 5, 0);

    let error = character_stats
        .spend_effort(EffortType::Might, 2, 0)
        .expect_err("Should have failed");

    assert_eq!(
        error.message(),
        "Attempted to spend more effort than allowed (max 1): 2"
    );
}

#[test]
fn spending_effort_should_reject_too_mutch_edge() {
    let mut character_stats = CharacterStats::new(5, 1, 5, 0, 5, 0);

    let error = character_stats
        .spend_effort(EffortType::Might, 1, 2)
        .expect_err("Should have failed");

    assert_eq!(
        error.message(),
        "Attempted to apply more edge than available (max 1): 2"
    );
}

#[test]
fn spending_effort_should_reject_exhausting_the_pool() {
    let mut character_stats = CharacterStats::new(2, 1, 5, 0, 5, 0);

    let error = character_stats
        .spend_effort(EffortType::Might, 1, 0)
        .expect_err("Should have failed");

    assert_eq!(
        error.message(),
        "Attempted to spend all of the Might pool points (max 2): 3"
    );

    let error = character_stats
        .spend_effort(EffortType::Might, 1, 1)
        .expect_err("Should have failed");

    assert_eq!(
        error.message(),
        "Attempted to spend all of the Might pool points (max 2): 2"
    );
}

#[test]
fn spending_effort_should_succeed() {
    let mut character_stats = CharacterStats::new(10, 1, 5, 0, 5, 0);
    character_stats.effort = 2;

    character_stats
        .spend_effort(EffortType::Might, 1, 1)
        .unwrap();
    assert_eq!(
        character_stats.might.current, 8,
        "Spending 1 level of effort with 1 edge costs 2 points"
    );

    character_stats
        .spend_effort(EffortType::Might, 2, 1)
        .unwrap();
    assert_eq!(
        character_stats.might.current, 4,
        "Spending 2 levels of effort with 1 edge costs 4 points"
    );
}

#[test]
fn spending_effort_should_cost_extra_when_impaired() {
    let mut character_stats = CharacterStats::new(10, 1, 5, 0, 5, 0);
    character_stats.effort = 2;
    character_stats.speed.current = 0;
    character_stats.damage_track = DamageTrack::Impaired;

    character_stats
        .spend_effort(EffortType::Might, 1, 1)
        .unwrap();
    assert_eq!(
        character_stats.might.current, 7,
        "Spending 1 level of effort with 1 edge (while impaired) costs 3 points"
    );

    character_stats
        .spend_effort(EffortType::Might, 2, 1)
        .unwrap();
    assert_eq!(
        character_stats.might.current, 1,
        "Spending 2 levels of effort with 1 edge (while impaired) costs 6 points"
    );
}
