use ankiconnect_rs::anki_card::{
    AnkiCardBuilder, AnkiDeck, AnkiField, AnkiModel, AnkiModelIdentifier, DeckId, MediaType,
    ModelId,
};
use ankiconnect_rs::anki_connect_client::{check_fields, note_for_card};
use ankiconnect_rs::anki_connect_request::MediaSourceDTO;
use ankiconnect_rs::error::AnkiRequestError;
use ankiconnect_rs::parameter_types::{ColumnIdentifier, DuplicateScope, MediaSource};

fn model() -> AnkiModelIdentifier {
    AnkiModelIdentifier::new(1, "Basic".to_string())
}

fn field(name: &str) -> AnkiField {
    AnkiField::new(ModelId(1), name.to_string())
}

#[test]
fn decks_and_models_keep_their_parts() {
    let deck = AnkiDeck::new(17283, "Italian".to_string());
    assert_eq!(deck.get_id(), DeckId(17283));
    assert_eq!(deck.get_name(), "Italian");

    let identifier = model();
    assert_eq!(identifier.id(), ModelId(1));
    assert_eq!(identifier.get_name(), "Basic");
    assert_eq!(identifier.to_string(), "Basic");
    assert_eq!(identifier.clone(), identifier);

    let model = AnkiModel::new(1704387367119, "Basic".to_string());
    assert_eq!(model.get_id(), ModelId(1704387367119));
    assert_eq!(model.get_name(), "Basic");
    assert_eq!(model, AnkiModel::new(1704387367119, "Basic".to_string()));

    let f = field("Front");
    assert_eq!(f.name(), "Front");
    assert_eq!(f.model_id(), ModelId(1));
    assert!(f.same_as(&field("Front")));
    assert!(!f.same_as(&field("Back")));
    assert!(!f.same_as(&AnkiField::new(ModelId(2), "Front".to_string())));
}

#[test]
fn models_are_ordered_by_identifier() {
    let a = AnkiModelIdentifier::new(1, "Zeta".to_string());
    let b = AnkiModelIdentifier::new(2, "Alpha".to_string());
    assert!(a < b);
    assert!(b > a);
    assert!(a <= a.clone());
    assert_eq!(
        a.partial_cmp(&AnkiModelIdentifier::new(1, "Other".to_string())),
        Some(std::cmp::Ordering::Equal)
    );
}

#[test]
fn a_card_is_put_together() {
    let card = AnkiCardBuilder::new_for_model(model())
        .add_field(field("Front"), "1 < 2 & 3 > 2")
        .add_field_raw(field("Back"), "<i>raw</i>")
        .add_tag("yomichan")
        .add_tag("yomichan")
        .add_image(
            MediaSource::Url("i".to_string()),
            "black_cat.jpg".to_string(),
            field("Back"),
        )
        .add_audio(
            MediaSource::Base64("QQ==".to_string()),
            "a.mp3".to_string(),
            field("Front"),
        )
        .add_video(
            MediaSource::Path("/v".to_string()),
            "countdown.mp4".to_string(),
            field("Back"),
        )
        .build();
    assert_eq!(card.get_model_identifier(), &model());
    let front = field("Front");
    let back = field("Back");
    assert_eq!(card.get_populated_fields(), vec![&front, &back]);
    assert_eq!(
        card.get_fields_with_content(),
        vec![
            (&front, &"1 &lt; 2 &amp; 3 &gt; 2".to_string()),
            (&back, &"<i>raw</i>".to_string())
        ]
    );
    assert_eq!(card.get_tags(), vec!["yomichan", "yomichan"]);
    let media = card.get_media();
    assert_eq!(media.len(), 3);
    assert_eq!(media[0].0, MediaType::Picture);
    assert_eq!(media[1].0, MediaType::Audio);
    assert_eq!(media[2].0, MediaType::Video);
    assert_eq!(media[2].1, MediaSource::Path("/v".to_string()));
    assert_eq!(media[2].2, "countdown.mp4");
    assert_eq!(media[2].3, back);
}

#[test]
fn the_last_content_of_a_card_field_stays() {
    let card = AnkiCardBuilder::new_for_model(model())
        .add_field_raw(field("Front"), "one")
        .add_field_raw(field("Back"), "two")
        .add_field_raw(field("Front"), "three")
        .add_field_raw(AnkiField::new(ModelId(2), "Front".to_string()), "four")
        .build();
    let front = field("Front");
    let back = field("Back");
    let foreign = AnkiField::new(ModelId(2), "Front".to_string());
    assert_eq!(
        card.get_fields_with_content(),
        vec![
            (&front, &"three".to_string()),
            (&back, &"two".to_string()),
            (&foreign, &"four".to_string())
        ]
    );
}

#[test]
fn fields_of_a_card_are_checked_against_the_model() {
    let card = AnkiCardBuilder::new_for_model(model())
        .add_field(field("Front"), "front content")
        .add_field(field("Back"), "back content")
        .add_field(field("SomeNonExistingField"), "random content123")
        .build();
    let known = vec![field("Front"), field("Back")];
    let result = check_fields(&card, &known);
    match result {
        Err(AnkiRequestError::InvalidField(field, res_model)) => {
            assert_eq!(field, "SomeNonExistingField");
            assert_eq!(res_model, model());
        }
        _ => panic!("Expected InvalidField error, got {:?}", result),
    }

    let card = AnkiCardBuilder::new_for_model(model())
        .add_field(field("Front"), "front content")
        .build();
    assert_eq!(check_fields(&card, &known), Ok(()));
    assert_eq!(
        check_fields(&AnkiCardBuilder::new_for_model(model()).build(), &vec![]),
        Ok(())
    );
}

#[test]
fn a_field_of_another_model_is_not_valid() {
    let card = AnkiCardBuilder::new_for_model(model())
        .add_field_raw(AnkiField::new(ModelId(9), "Front".to_string()), "x")
        .add_field_raw(field("Missing"), "y")
        .build();
    assert_eq!(
        check_fields(&card, &vec![field("Front")]),
        Err(AnkiRequestError::InvalidField("Front".to_string(), model()))
    );
}

#[test]
fn a_card_as_it_is_sent() {
    let image = MediaSource::Url(
        "https://upload.wikimedia.org/wikipedia/220px-A_black_cat_named_Tilly.jpg".to_string(),
    );
    let audio = MediaSource::Url(
        "https://assets.languagepod101.com/dictionary/japanese/audiomp3.php?kanji=猫&kana=ねこ"
            .to_string(),
    );
    let video = MediaSource::Url(
        "https://cdn.videvo.net/small_watermarked/Contador_Glam_preview.mp4".to_string(),
    );
    let deck = AnkiDeck::new(1, "Default".to_string());
    let card = AnkiCardBuilder::new_for_model(model())
        .add_field(field("Front"), "front content")
        .add_field(field("Back"), "back content")
        .add_tag("yomichan")
        .add_image(image, "black_cat.jpg".to_string(), field("Back"))
        .add_audio(audio, "yomichan_ねこ_猫.mp3".to_string(), field("Front"))
        .add_video(video, "countdown.mp4".to_string(), field("Back"))
        .build();

    let note = note_for_card(&deck, &card, false, Some(DuplicateScope::Deck));

    assert_eq!(note.deck_name, "Default");
    assert_eq!(note.model_name, "Basic");
    assert_eq!(
        note.fields,
        vec![("Front", "front content"), ("Back", "back content")]
    );
    assert!(!note.options.allow_duplicate);
    assert_eq!(note.options.duplicate_scope, Some(DuplicateScope::Deck));
    assert_eq!(note.options.duplicate_scope_options, None);
    assert_eq!(note.tags, vec!["yomichan"]);

    assert_eq!(note.audio.len(), 1);
    assert_eq!(
        note.audio[0].media_source.url(),
        Some("https://assets.languagepod101.com/dictionary/japanese/audiomp3.php?kanji=猫&kana=ねこ")
    );
    assert_eq!(note.audio[0].media_source.path(), None);
    assert_eq!(note.audio[0].media_source.data(), None);
    assert_eq!(note.audio[0].filename, "yomichan_ねこ_猫.mp3");
    assert_eq!(note.audio[0].skip_hash, None);
    assert_eq!(note.audio[0].fields, vec!["Front"]);

    assert_eq!(note.video.len(), 1);
    assert_eq!(
        note.video[0].media_source.url(),
        Some("https://cdn.videvo.net/small_watermarked/Contador_Glam_preview.mp4")
    );
    assert_eq!(note.video[0].filename, "countdown.mp4");
    assert_eq!(note.video[0].fields, vec!["Back"]);

    assert_eq!(note.picture.len(), 1);
    assert_eq!(
        note.picture[0].media_source.url(),
        Some("https://upload.wikimedia.org/wikipedia/220px-A_black_cat_named_Tilly.jpg")
    );
    assert_eq!(note.picture[0].filename, "black_cat.jpg");
    assert_eq!(note.picture[0].fields, vec!["Back"]);
}

#[test]
fn media_of_one_kind_keep_their_order() {
    let deck = AnkiDeck::new(1, "Default".to_string());
    let card = AnkiCardBuilder::new_for_model(model())
        .add_audio(
            MediaSource::Path("/1".to_string()),
            "1.mp3".to_string(),
            field("Front"),
        )
        .add_image(
            MediaSource::Path("/2".to_string()),
            "2.png".to_string(),
            field("Front"),
        )
        .add_audio(
            MediaSource::Base64("Mw==".to_string()),
            "3.mp3".to_string(),
            field("Back"),
        )
        .build();
    let note = note_for_card(&deck, &card, true, None);
    assert_eq!(note.audio.len(), 2);
    assert_eq!(note.audio[0].filename, "1.mp3");
    assert_eq!(note.audio[0].media_source.path(), Some("/1"));
    assert_eq!(note.audio[1].filename, "3.mp3");
    assert_eq!(note.audio[1].media_source.data(), Some("Mw=="));
    assert_eq!(note.picture.len(), 1);
    assert!(note.video.is_empty());
    assert!(note.options.allow_duplicate);
    assert_eq!(note.options.duplicate_scope, None);
}

#[test]
fn a_source_as_it_is_sent() {
    let source = MediaSource::Path("/tmp/a".to_string());
    let dto = MediaSourceDTO::from_source(&source);
    assert_eq!((dto.path(), dto.url(), dto.data()), (Some("/tmp/a"), None, None));
    let source = MediaSource::Url("http://a".to_string());
    let dto = MediaSourceDTO::from_source(&source);
    assert_eq!((dto.path(), dto.url(), dto.data()), (None, Some("http://a"), None));
    let source = MediaSource::Base64("QQ==".to_string());
    let dto = MediaSourceDTO::from_source(&source);
    assert_eq!((dto.path(), dto.url(), dto.data()), (None, None, Some("QQ==")));
    assert_eq!(source.clone(), source);
}

#[test]
fn the_default_column() {
    assert_eq!(ColumnIdentifier::default(), ColumnIdentifier::Custom);
}
