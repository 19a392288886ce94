use ankiconnect_rs::builders::note::NoteBuilder;
use ankiconnect_rs::collections::{FieldValues, TagSet};
use ankiconnect_rs::error::NoteError;
use ankiconnect_rs::models::card::Card;
use ankiconnect_rs::models::media::{FieldMedia, Media, MediaSource, MediaType};
use ankiconnect_rs::models::model::{Field, Model};
use ankiconnect_rs::models::note::{Note, NoteId};

fn field(name: &str, ord: usize) -> Field {
    Field::new(name.to_string(), ord)
}

fn basic() -> Model {
    Model::new(
        1,
        "Basic".to_string(),
        vec![field("Front", 0), field("Back", 1)],
    )
    .unwrap()
}

fn other() -> Model {
    Model::new(
        2,
        "Other".to_string(),
        vec![field("Front", 0), field("Extra", 1), field("More", 2)],
    )
    .unwrap()
}

fn values(pairs: &[(&str, &str)]) -> FieldValues {
    let mut v = FieldValues::new();
    for (k, c) in pairs {
        v.insert(k.to_string(), c.to_string());
    }
    v
}

fn tags(items: &[&str]) -> TagSet {
    let mut t = TagSet::new();
    for i in items {
        t.insert(i.to_string());
    }
    t
}

#[test]
fn a_note_is_built_from_its_parts() {
    let model = basic();
    let note = NoteBuilder::new(model.clone())
        .with_field(model.field_ref("Front").unwrap(), "front content")
        .with_field(model.field_ref("Back").unwrap(), "back content")
        .with_tag("test-tag")
        .with_image(
            model.field_ref("Front").unwrap(),
            MediaSource::Url("https://example.com/dog.jpg".to_string()),
            "test_dog.jpg",
        )
        .build()
        .unwrap();
    assert_eq!(note.id(), None);
    assert_eq!(note.model(), &model);
    assert_eq!(
        note.field_values().to_vec(),
        vec![
            ("Front".to_string(), "front content".to_string()),
            ("Back".to_string(), "back content".to_string())
        ]
    );
    assert_eq!(note.field_value("Front"), Some(&"front content".to_string()));
    assert_eq!(note.field_value("Nope"), None);
    assert_eq!(note.tags().to_vec(), vec!["test-tag".to_string()]);
    assert!(note.has_tag("test-tag"));
    assert!(!note.has_tag("other"));
    assert_eq!(note.media().len(), 1);
    assert_eq!(note.media()[0].field(), "Front");
    assert_eq!(note.media()[0].media().media_type(), MediaType::Image);
    assert_eq!(note.media()[0].media().filename(), "test_dog.jpg");
    assert_eq!(note.front_value(), Some(&"front content".to_string()));
    assert_eq!(note.back_value(), Some(&"back content".to_string()));
}

#[test]
fn an_empty_builder_builds_an_empty_note() {
    let note = NoteBuilder::new(basic()).build().unwrap();
    assert!(note.field_values().is_empty());
    assert!(note.tags().is_empty());
    assert!(note.media().is_empty());
    assert_eq!(note.front_value(), None);
}

#[test]
fn the_same_tag_twice_is_one_tag() {
    let note = NoteBuilder::new(basic())
        .with_tag("spanish")
        .with_tag("spanish")
        .build()
        .unwrap();
    assert_eq!(note.tags().len(), 1);
    assert_eq!(note.tags().to_vec(), vec!["spanish".to_string()]);

    let note = NoteBuilder::new(basic())
        .with_tag("a")
        .with_tag("b")
        .with_tag("a")
        .with_tag("c")
        .with_tag("b")
        .build()
        .unwrap();
    assert_eq!(
        note.tags().to_vec(),
        vec!["a".to_string(), "b".to_string(), "c".to_string()]
    );
}

#[test]
fn content_is_escaped_for_markup() {
    let model = basic();
    let note = NoteBuilder::new(model.clone())
        .with_field(
            model.field_ref("Front").unwrap(),
            "a < b && c > \"d\" 'e' ¿Dónde?",
        )
        .with_field_raw(model.field_ref("Back").unwrap(), "<b>bold</b> & more")
        .build()
        .unwrap();
    assert_eq!(
        note.field_value("Front"),
        Some(&"a &lt; b &amp;&amp; c &gt; \"d\" 'e' ¿Dónde?".to_string())
    );
    assert_eq!(
        note.field_value("Back"),
        Some(&"<b>bold</b> & more".to_string())
    );
}

#[test]
fn plain_content_is_not_changed() {
    let model = basic();
    let note = NoteBuilder::new(model.clone())
        .with_field(model.field_ref("Front").unwrap(), "nothing to escape")
        .with_field(model.field_ref("Back").unwrap(), "")
        .build()
        .unwrap();
    assert_eq!(
        note.field_value("Front"),
        Some(&"nothing to escape".to_string())
    );
    assert_eq!(note.field_value("Back"), Some(&String::new()));
}

#[test]
fn the_last_content_of_a_field_stays() {
    let model = basic();
    let note = NoteBuilder::new(model.clone())
        .with_field(model.field_ref("Front").unwrap(), "first")
        .with_field(model.field_ref("Back").unwrap(), "back")
        .with_field_raw(model.field_ref("Front").unwrap(), "second")
        .build()
        .unwrap();
    assert_eq!(
        note.field_values().to_vec(),
        vec![
            ("Front".to_string(), "second".to_string()),
            ("Back".to_string(), "back".to_string())
        ]
    );
}

#[test]
fn a_field_of_another_model_is_refused() {
    let model = basic();
    let foreign = other();
    let result = NoteBuilder::new(model.clone())
        .with_field(model.field_ref("Front").unwrap(), "front")
        .with_field(foreign.field_ref("Extra").unwrap(), "extra")
        .build();
    assert_eq!(result, Err(NoteError::UnknownField("Extra".to_string())));
}

#[test]
fn a_field_of_another_model_with_a_known_name_is_taken() {
    let model = basic();
    let foreign = other();
    let note = NoteBuilder::new(model)
        .with_field(foreign.field_ref("Front").unwrap(), "front")
        .build()
        .unwrap();
    assert_eq!(note.field_value("Front"), Some(&"front".to_string()));
}

#[test]
fn the_first_unknown_name_is_reported() {
    let model = basic();
    let foreign = other();
    let result = NoteBuilder::new(model.clone())
        .with_audio(
            foreign.field_ref("More").unwrap(),
            MediaSource::Base64("AAAA".to_string()),
            "a.mp3",
        )
        .with_field(foreign.field_ref("More").unwrap(), "m")
        .with_field(foreign.field_ref("Extra").unwrap(), "e")
        .build();
    assert_eq!(result, Err(NoteError::UnknownField("More".to_string())));

    let result = NoteBuilder::new(model.clone())
        .with_field(model.field_ref("Back").unwrap(), "b")
        .with_video(
            foreign.field_ref("Extra").unwrap(),
            MediaSource::Path("/v.mp4".to_string()),
            "v.mp4",
        )
        .with_image(
            foreign.field_ref("More").unwrap(),
            MediaSource::Path("/i.png".to_string()),
            "i.png",
        )
        .build();
    assert_eq!(result, Err(NoteError::UnknownField("Extra".to_string())));
}

#[test]
fn media_of_every_kind() {
    let model = basic();
    let front = model.field_ref("Front").unwrap();
    let back = model.field_ref("Back").unwrap();
    let note = NoteBuilder::new(model.clone())
        .with_audio(front, MediaSource::Url("a".to_string()), "a.mp3")
        .with_image(back, MediaSource::Path("/i".to_string()), "i.png")
        .with_video(back, MediaSource::Base64("dg==".to_string()), "v.mp4")
        .with_media(
            front,
            Media::new(
                MediaSource::Url("x".to_string()),
                "x.ogg".to_string(),
                MediaType::Audio,
            ),
        )
        .build()
        .unwrap();
    let expected = vec![
        FieldMedia::new(
            Media::audio(MediaSource::Url("a".to_string()), "a.mp3".to_string()),
            "Front".to_string(),
        ),
        FieldMedia::new(
            Media::image(MediaSource::Path("/i".to_string()), "i.png".to_string()),
            "Back".to_string(),
        ),
        FieldMedia::new(
            Media::video(MediaSource::Base64("dg==".to_string()), "v.mp4".to_string()),
            "Back".to_string(),
        ),
        FieldMedia::new(
            Media::audio(MediaSource::Url("x".to_string()), "x.ogg".to_string()),
            "Front".to_string(),
        ),
    ];
    assert_eq!(note.media(), expected.as_slice());
}

#[test]
fn a_note_is_checked_when_it_is_made() {
    let note = Note::new(
        basic(),
        values(&[("Front", "f")]),
        tags(&["t"]),
        vec![],
    );
    assert!(note.is_ok());

    let note = Note::new(
        basic(),
        values(&[("Front", "f"), ("Side", "s"), ("Top", "t")]),
        tags(&[]),
        vec![],
    );
    assert_eq!(note, Err(NoteError::UnknownField("Side".to_string())));

    let note = Note::new(
        basic(),
        values(&[("Front", "f")]),
        tags(&[]),
        vec![FieldMedia::new(
            Media::audio(MediaSource::Url("u".to_string()), "a".to_string()),
            "Side".to_string(),
        )],
    );
    assert_eq!(note, Err(NoteError::UnknownField("Side".to_string())));
}

#[test]
fn a_stored_note_has_its_identifier() {
    let note = Note::with_id(
        NoteId(1502298033753),
        basic(),
        values(&[("Back", "b")]),
        tags(&["x"]),
        vec![],
    )
    .unwrap();
    assert_eq!(note.id(), Some(NoteId(1502298033753)));
    assert_eq!(note.field_value("Back"), Some(&"b".to_string()));
    assert_eq!(
        Note::with_id(NoteId(1), basic(), values(&[("X", "x")]), tags(&[]), vec![]),
        Err(NoteError::UnknownField("X".to_string()))
    );
}

#[test]
fn a_note_can_be_changed() {
    let mut note = Note::new(basic(), values(&[("Front", "f")]), tags(&["a"]), vec![]).unwrap();

    assert_eq!(note.update_field("Back", "b".to_string()), Ok(()));
    assert_eq!(note.update_field("Front", "f2".to_string()), Ok(()));
    assert_eq!(
        note.field_values().to_vec(),
        vec![
            ("Front".to_string(), "f2".to_string()),
            ("Back".to_string(), "b".to_string())
        ]
    );
    assert_eq!(
        note.update_field("Side", "s".to_string()),
        Err(NoteError::UnknownField("Side".to_string()))
    );
    assert_eq!(note.field_values().len(), 2);

    note.add_tag("b".to_string());
    note.add_tag("a".to_string());
    assert_eq!(note.tags().to_vec(), vec!["a".to_string(), "b".to_string()]);
    assert!(note.remove_tag("a"));
    assert!(!note.remove_tag("a"));
    assert_eq!(note.tags().to_vec(), vec!["b".to_string()]);

    let media = Media::image(MediaSource::Url("u".to_string()), "i.png".to_string());
    assert_eq!(note.add_media("Back", media.clone()), Ok(()));
    assert_eq!(
        note.add_media("Side", media.clone()),
        Err(NoteError::UnknownField("Side".to_string()))
    );
    assert_eq!(
        note.media(),
        vec![FieldMedia::new(media, "Back".to_string())].as_slice()
    );
    assert_eq!(note.clone(), note);
}

#[test]
fn front_and_back_of_a_note() {
    let model = Model::new(
        1,
        "M".to_string(),
        vec![field("Word", 0), field("Question", 1), field("Answer", 2)],
    )
    .unwrap();
    let note = Note::new(
        model.clone(),
        values(&[("Word", "w"), ("Answer", "a")]),
        tags(&[]),
        vec![],
    )
    .unwrap();
    assert_eq!(note.front_value(), None);
    assert_eq!(note.back_value(), Some(&"a".to_string()));
}

#[test]
fn tag_sets() {
    let mut set = TagSet::new();
    assert!(set.is_empty());
    assert!(set.insert("a".to_string()));
    assert!(set.insert("b".to_string()));
    assert!(!set.insert("a".to_string()));
    assert_eq!(set.len(), 2);
    assert_eq!(set.get(0), "a");
    assert_eq!(set.get(1), "b");
    assert!(set.contains("b"));
    assert!(!set.contains("c"));
    assert!(set.remove("a"));
    assert!(!set.remove("a"));
    assert_eq!(set.to_vec(), vec!["b".to_string()]);
    assert_eq!(set.clone(), set);
}

#[test]
fn field_values() {
    let mut map = FieldValues::new();
    assert!(map.is_empty());
    assert!(map.insert("Front".to_string(), "1".to_string()));
    assert!(map.insert("Back".to_string(), "2".to_string()));
    assert!(!map.insert("Front".to_string(), "3".to_string()));
    assert_eq!(map.len(), 2);
    assert_eq!(map.key_at(0), "Front");
    assert_eq!(map.value_at(0), "3");
    assert_eq!(map.key_at(1), "Back");
    assert_eq!(map.value_at(1), "2");
    assert_eq!(map.get("Front"), Some(&"3".to_string()));
    assert_eq!(map.get("front"), None);
    assert!(map.contains_key("Back"));
    assert!(!map.contains_key(""));
    assert_eq!(map.clone(), map);
}

#[test]
fn cards_give_what_they_hold() {
    let model = basic();
    let media = vec![(
        MediaType::Audio,
        MediaSource::Url("u".to_string()),
        "a.mp3".to_string(),
        field("Front", 0),
    )];
    let card = Card::new(
        model.clone(),
        values(&[("Back", "b"), ("Gone", "g"), ("Front", "f")]),
        tags(&["x", "y"]),
        media.clone(),
    );
    assert_eq!(card.model(), &model);
    let back = field("Back", 1);
    let front = field("Front", 0);
    assert_eq!(card.fields(), vec![(&back, "b"), (&front, "f")]);
    assert_eq!(card.field_value("Gone"), Some(&"g".to_string()));
    assert_eq!(card.field_value("Side"), None);
    assert_eq!(card.tags().to_vec(), vec!["x".to_string(), "y".to_string()]);
    assert!(card.has_tag("y"));
    assert!(!card.has_tag("z"));
    assert_eq!(card.media(), media.as_slice());
    assert_eq!(card.front_value(), Some(&"f".to_string()));
    assert_eq!(card.back_value(), Some(&"b".to_string()));
}
