use ankiconnect_rs::anki_search_query::{
    AnkiSearchQueryBuilder, CardState, Flag, NeedsFieldContent, Ready,
};

#[test]
fn anki_search_query_test_basic_text_search() {
    let query = AnkiSearchQueryBuilder::new().text("dog").build();
    assert_eq!(query.as_str(), "dog");
}

#[test]
fn anki_search_query_test_field_search() {
    let query = AnkiSearchQueryBuilder::new()
        .field("front")
        .with_content("dog")
        .build();
    assert_eq!(query.as_str(), "front:dog");
}

#[test]
fn anki_search_query_test_complex_search() {
    let query = AnkiSearchQueryBuilder::new()
        .field("front")
        .with_content("dog")
        .and()
        .not()
        .tag("marked")
        .build();
    assert_eq!(query.as_str(), "front:dog -tag:marked");
}

#[test]
fn anki_search_query_test_deck_with_spaces() {
    let query = AnkiSearchQueryBuilder::new().deck("My Deck").build();
    assert_eq!(query.as_str(), "deck:\"My Deck\"");
}

#[test]
fn test_card_state_1() {
    let query = AnkiSearchQueryBuilder::new()
        .card_state(CardState::Due)
        .and()
        .card_state(CardState::Learn)
        .build();
    assert_eq!(query.as_str(), "is:due is:learn");
}

#[test]
fn test_card_state_2() {
    let query = AnkiSearchQueryBuilder::new()
        .deck("Japanese")
        .field("VocabKanji")
        .with_content("敷衍")
        .and()
        .not()
        .card_state(CardState::Suspended)
        .and()
        .not()
        .card_state(CardState::New)
        .build();
    assert_eq!(
        query.as_str(),
        "deck:Japanese VocabKanji:敷衍 -is:suspended -is:new"
    );
}

#[test]
fn search_builder_states() {
    let ready: AnkiSearchQueryBuilder<Ready> = AnkiSearchQueryBuilder::new();
    let waiting: AnkiSearchQueryBuilder<NeedsFieldContent> = ready.field("Front");
    let ready: AnkiSearchQueryBuilder<Ready> = waiting.with_content("a:b");
    assert_eq!(ready.build().as_str(), "Front:a\\:b");
}

#[test]
fn search_builder_negation_reaches_the_field_term() {
    let query = AnkiSearchQueryBuilder::new()
        .not()
        .field("Front")
        .with_content("x")
        .text("y")
        .build();
    assert_eq!(query.as_str(), "-Front:x y");
}

#[test]
fn search_builder_all_states() {
    let states = [
        (CardState::Due, "is:due"),
        (CardState::New, "is:new"),
        (CardState::Learn, "is:learn"),
        (CardState::Review, "is:review"),
        (CardState::Suspended, "is:suspended"),
        (CardState::Buried, "is:buried"),
        (CardState::BuriedSibling, "is:buried-sibling"),
        (CardState::BuriedManually, "is:buried-manually"),
    ];
    for (state, token) in states {
        let query = AnkiSearchQueryBuilder::new().card_state(state).build();
        assert_eq!(query.as_str(), token);
    }
}

#[test]
fn search_builder_numeric_terms() {
    let query = AnkiSearchQueryBuilder::new()
        .flag(Flag::Purple)
        .flag(Flag::Red)
        .prop_interval_greater_than(10)
        .prop_due_in(-1)
        .prop_due_in(4)
        .prop_reps_less_than(3)
        .added_in_last_n_days(2)
        .rated_today()
        .rated_in_last_n_days(9)
        .or()
        .text("a*")
        .build();
    assert_eq!(
        query.as_str(),
        "flag:7 flag:1 prop:ivl>=10 prop:due=-1 prop:due=4 prop:reps<3 added:2 rated:1 rated:9 or a\\*"
    );
}

#[test]
fn search_builder_flag_numbers() {
    assert_eq!(Flag::Red.number(), 1);
    assert_eq!(Flag::Orange.number(), 2);
    assert_eq!(Flag::Green.number(), 3);
    assert_eq!(Flag::Blue.number(), 4);
    assert_eq!(Flag::Pink.number(), 5);
    assert_eq!(Flag::Turquoise.number(), 6);
    assert_eq!(Flag::Purple.number(), 7);
}

#[test]
fn search_builder_escapes_like_the_query_builder() {
    assert_eq!(
        AnkiSearchQueryBuilder::<Ready>::escape_special_chars("a_b\"c\\"),
        "a\\_b\\\"c\\\\"
    );
    let query = AnkiSearchQueryBuilder::new().tag("x-y").deck("d (1)").build();
    assert_eq!(query.as_str(), "tag:x\\-y deck:\"d \\(1\\)\"");
}
