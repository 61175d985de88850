use cypher_character_model::Character;
use cypher_character_model::Sentence;

#[test]
fn a_character_with_a_flavor_renders_the_parenthetical() {
    let character = Character {
        name: "Ferris".to_string(),
        pronouns: "any".to_string(),
        sentence: Sentence {
            descriptor: "Fast".to_string(),
            character_type: "Explorer".to_string(),
            flavor: Some("Technology".to_string()),
            focus: "Helps Their Friends".to_string(),
        },
    };
    assert_eq!(
        character.render(),
        "Ferris (any) is a Fast Explorer (Technology) who Helps Their Friends"
    );
}

#[test]
fn a_character_without_a_flavor_omits_the_parenthetical() {
    let character = Character {
        name: "Ferris".to_string(),
        pronouns: "any".to_string(),
        sentence: Sentence {
            descriptor: "Fast".to_string(),
            character_type: "Explorer".to_string(),
            flavor: None,
            focus: "Helps Their Friends".to_string(),
        },
    };
    assert_eq!(
        character.render(),
        "Ferris (any) is a Fast Explorer who Helps Their Friends"
    );
}

#[test]
fn a_sentence_renders_on_its_own() {
    let sentence = Sentence {
        descriptor: "Delicious".to_string(),
        character_type: "Avocado".to_string(),
        flavor: Some("Spicy".to_string()),
        focus: "Satiates the Hungry".to_string(),
    };
    assert_eq!(
        sentence.render(),
        "Delicious Avocado (Spicy) who Satiates the Hungry"
    );
}

#[test]
fn an_update_replaces_only_the_fields_it_gives() {
    let mut character = Character {
        name: "Ferris".to_string(),
        pronouns: "any".to_string(),
        sentence: Sentence {
            descriptor: "Fast".to_string(),
            character_type: "Explorer".to_string(),
            flavor: None,
            focus: "Helps Their Friends".to_string(),
        },
    };

    character.apply_update(
        Some("Corro".to_string()),
        None,
        None,
        Some("Speaker".to_string()),
        Some("Stealthy".to_string()),
        None,
    );

    assert_eq!(character.name, "Corro");
    assert_eq!(character.pronouns, "any");
    assert_eq!(character.sentence.descriptor, "Fast");
    assert_eq!(character.sentence.character_type, "Speaker");
    assert_eq!(character.sentence.flavor, Some("Stealthy".to_string()));
    assert_eq!(character.sentence.focus, "Helps Their Friends");
    assert_eq!(
        character.render(),
        "Corro (any) is a Fast Speaker (Stealthy) who Helps Their Friends"
    );
}

#[test]
fn an_empty_update_changes_nothing() {
    let mut character = Character {
        name: "Ferris".to_string(),
        pronouns: "any".to_string(),
        sentence: Sentence {
            descriptor: "Fast".to_string(),
            character_type: "Explorer".to_string(),
            flavor: Some("Technology".to_string()),
            focus: "Helps Their Friends".to_string(),
        },
    };

    character.apply_update(None, None, None, None, None, None);

    assert_eq!(
        character.render(),
        "Ferris (any) is a Fast Explorer (Technology) who Helps Their Friends"
    );
}
