use ankiconnect_rs::anki_card::{
    AnkiCardBuilder, AnkiDeck, AnkiField, AnkiModel, AnkiModelIdentifier, ModelId,
};
use ankiconnect_rs::anki_connect_client::{
    first_model_of, number_of, numbers_of, owned_note, request, text_of, version_of, AnkiClient,
    AnkiConnectResponse,
};
use ankiconnect_rs::anki_connect_request::AnkiConnectRequest;
use ankiconnect_rs::anki_search_query::AnkiSearchQueryBuilder;
use ankiconnect_rs::client::request::{
    AddNoteOptions, AddNoteParams, CreateDeckParams, DuplicateScopeDto, Field, FindCardsParams,
    FindModelsByIdParams, GuiBrowseParams, Media, ModelDetails, ModelFieldNamesParams, NoteDto,
    Params, Reply, ReplyKind, Requirement, StoreMediaFileParams, Template,
};
use ankiconnect_rs::error::{AnkiConnectError, AnkiRequestError};
use ankiconnect_rs::parameter_types::{
    CardsReordering, ColumnIdentifier, DuplicateScope, MediaSource, SortOrder,
};
use ankiconnect_rs::request_sender::AnkiConnectRequestSender;
use std::cell::RefCell;
use std::collections::VecDeque;
use std::rc::Rc;

struct Exchange {
    request: AnkiConnectRequest,
    answer: Result<(Option<Reply>, Option<String>), AnkiRequestError>,
}

#[derive(Clone)]
struct MockServer {
    script: Rc<RefCell<VecDeque<Exchange>>>,
    any: Rc<RefCell<Option<String>>>,
    hits: Rc<RefCell<usize>>,
}

impl MockServer {
    fn start() -> MockServer {
        MockServer {
            script: Rc::new(RefCell::new(VecDeque::new())),
            any: Rc::new(RefCell::new(None)),
            hits: Rc::new(RefCell::new(0)),
        }
    }

    fn mock(
        &self,
        action: &'static str,
        params: Option<Params>,
        expect: ReplyKind,
        result: Option<Reply>,
        error: Option<&str>,
    ) {
        self.script.borrow_mut().push_back(Exchange {
            request: AnkiConnectRequest {
                action,
                version: 6,
                params,
                expect,
            },
            answer: Ok((result, error.map(|e| e.to_string()))),
        });
    }

    fn fail_every_request(&self, error: &str) {
        *self.any.borrow_mut() = Some(error.to_string());
    }

    fn assert_hits(&self, hits: usize) {
        assert_eq!(*self.hits.borrow(), hits);
        assert!(self.script.borrow().is_empty());
    }
}

impl AnkiConnectRequestSender for MockServer {
    fn send_request(
        &self,
        request: AnkiConnectRequest,
    ) -> Result<AnkiConnectResponse<Reply>, AnkiRequestError> {
        *self.hits.borrow_mut() += 1;
        if let Some(error) = self.any.borrow().clone() {
            return Ok(AnkiConnectResponse {
                result: None,
                error: Some(error),
            });
        }
        let next = self
            .script
            .borrow_mut()
            .pop_front()
            .unwrap_or_else(|| panic!("no request was expected, got {}", request.action));
        assert_eq!(request, next.request);
        let (result, error) = next.answer?;
        Ok(AnkiConnectResponse { result, error })
    }
}

struct NoServer;

impl AnkiConnectRequestSender for NoServer {
    fn send_request(
        &self,
        _request: AnkiConnectRequest,
    ) -> Result<AnkiConnectResponse<Reply>, AnkiRequestError> {
        Err(AnkiRequestError::HttpError(
            "io: connection refused".to_string(),
        ))
    }
}

fn mock_field_names(server: &MockServer, model: &str, names: &[&str]) {
    server.mock(
        "modelFieldNames",
        Some(Params::ModelFieldNames(ModelFieldNamesParams {
            model_name: model.to_string(),
        })),
        ReplyKind::Texts,
        Some(Reply::Texts(names.iter().map(|n| n.to_string()).collect())),
        None,
    );
}

fn url_media(url: &str, filename: &str, field: &str) -> Media {
    Media {
        path: None,
        url: Some(url.to_string()),
        data: None,
        filename: filename.to_string(),
        fields: vec![field.to_string()],
    }
}

#[test]
fn test_add_note_sends_correct_request() {
    let server = MockServer::start();
    mock_field_names(&server, "Basic", &["Front", "Back"]);
    server.mock(
        "addNote",
        Some(Params::AddNote(AddNoteParams {
            note: NoteDto {
                deck_name: "Default".to_string(),
                model_name: "Basic".to_string(),
                fields: vec![
                    ("Front".to_string(), "front content".to_string()),
                    ("Back".to_string(), "back content".to_string()),
                ],
                options: AddNoteOptions {
                    allow_duplicate: false,
                    duplicate_scope: Some(DuplicateScopeDto::Deck),
                    duplicate_scope_options: None,
                },
                tags: vec!["yomichan".to_string()],
                audio: vec![url_media(
                    "https://assets.languagepod101.com/dictionary/japanese/audiomp3.php?kanji=猫&kana=ねこ",
                    "yomichan_ねこ_猫.mp3",
                    "Front",
                )],
                video: vec![url_media(
                    "https://cdn.videvo.net/small_watermarked/Contador_Glam_preview.mp4",
                    "countdown.mp4",
                    "Back",
                )],
                picture: vec![url_media(
                    "https://upload.wikimedia.org/wikipedia/220px-A_black_cat_named_Tilly.jpg",
                    "black_cat.jpg",
                    "Back",
                )],
            },
        })),
        ReplyKind::Number,
        Some(Reply::Number(1496198395707)),
        None,
    );
    let mock_client = AnkiClient::new(server.clone());

    let image = MediaSource::Url(
        "https://upload.wikimedia.org/wikipedia/220px-A_black_cat_named_Tilly.jpg".to_string(),
    );
    let audio = MediaSource::Url(
        "https://assets.languagepod101.com/dictionary/japanese/audiomp3.php?kanji=猫&kana=ねこ"
            .to_string(),
    );
    let video = MediaSource::Url(
        "https://cdn.videvo.net/small_watermarked/Contador_Glam_preview.mp4".to_string(),
    );

    let deck = AnkiDeck::new(1, "Default".to_string());
    let model = AnkiModelIdentifier::new(1, "Basic".to_string());
    let card = AnkiCardBuilder::new_for_model(model.clone())
        .add_field(
            AnkiField::new(model.id(), "Front".to_string()),
            "front content",
        )
        .add_field(
            AnkiField::new(model.id(), "Back".to_string()),
            "back content",
        )
        .add_tag("yomichan")
        .add_image(
            image,
            "black_cat.jpg".to_string(),
            AnkiField::new(model.id(), "Back".to_string()),
        )
        .add_audio(
            audio,
            "yomichan_ねこ_猫.mp3".to_string(),
            AnkiField::new(model.id(), "Front".to_string()),
        )
        .add_video(
            video,
            "countdown.mp4".to_string(),
            AnkiField::new(model.id(), "Back".to_string()),
        )
        .build();

    let note_id = mock_client.add_note(deck, card, false, Some(DuplicateScope::Deck));

    server.assert_hits(2);
    assert_eq!(note_id.unwrap(), 1496198395707);
}

#[test]
fn test_get_version_request() {
    let server = MockServer::start();
    server.mock("version", None, ReplyKind::Number, Some(Reply::Number(6)), None);
    let mock_client = AnkiClient::new(server.clone());

    let result = mock_client.get_version();

    server.assert_hits(1);
    assert_eq!(result.unwrap(), 6);
}

#[test]
fn test_find_cards_request() {
    let server = MockServer::start();
    server.mock(
        "findCards",
        Some(Params::FindCards(FindCardsParams {
            query: "deck:current".to_string(),
        })),
        ReplyKind::Numbers,
        Some(Reply::Numbers(vec![
            1494723142483,
            1494703460437,
            1494703479525,
        ])),
        None,
    );
    let mock_client = AnkiClient::new(server.clone());
    let query = AnkiSearchQueryBuilder::new().deck("current").build();

    let result = mock_client.find_cards(&query);

    server.assert_hits(1);
    assert_eq!(
        result.unwrap(),
        [1494723142483u64, 1494703460437u64, 1494703479525u64]
    );
}

#[test]
fn test_get_deck_names_request() {
    let server = MockServer::start();
    server.mock(
        "deckNamesAndIds",
        None,
        ReplyKind::NamesAndIds,
        Some(Reply::NamesAndIds(vec![("Default".to_string(), 1)])),
        None,
    );
    let mock_client = AnkiClient::new(server.clone());

    let result = mock_client.get_all_decks();

    server.assert_hits(1);
    assert_eq!(result.unwrap(), [AnkiDeck::new(1, "Default".to_string())]);
}

#[test]
fn test_create_deck_request() {
    let server = MockServer::start();
    server.mock(
        "createDeck",
        Some(Params::CreateDeck(CreateDeckParams {
            deck: "Japanese::Tokyo".to_string(),
        })),
        ReplyKind::Number,
        Some(Reply::Number(1519323742721)),
        None,
    );
    let mock_client = AnkiClient::new(server.clone());

    let result = mock_client.create_deck("Japanese::Tokyo");

    server.assert_hits(1);
    assert_eq!(result.unwrap(), 1519323742721u64);
}

#[test]
fn test_gui_browse_request() {
    let server = MockServer::start();
    server.mock(
        "guiBrowse",
        Some(Params::GuiBrowse(GuiBrowseParams {
            query: "deck:current".to_string(),
            reorder_cards: Some(ankiconnect_rs::client::request::CardsReordering {
                order: ankiconnect_rs::client::request::SortOrder::Descending,
                column_id: ankiconnect_rs::client::request::ColumnIdentifier::NoteCreation,
            }),
        })),
        ReplyKind::Numbers,
        Some(Reply::Numbers(vec![
            1494723142483,
            1494703460437,
            1494703479525,
        ])),
        None,
    );
    let mock_client = AnkiClient::new(server.clone());
    let query = AnkiSearchQueryBuilder::new().deck("current").build();

    let result = mock_client.gui_browse(
        &query,
        Some(CardsReordering {
            order: SortOrder::Descending,
            column_id: ColumnIdentifier::NoteCreation,
        }),
    );

    server.assert_hits(1);
    assert_eq!(
        result.unwrap(),
        [1494723142483u64, 1494703460437u64, 1494703479525u64]
    );
}

#[test]
fn test_get_model_field_names_request() {
    let server = MockServer::start();
    let model = AnkiModelIdentifier::new(1, "Basic".to_string());
    mock_field_names(&server, model.get_name(), &["Front", "Back"]);
    let mock_client = AnkiClient::new(server.clone());

    let result = mock_client.get_fields_for_model(&model).unwrap();

    server.assert_hits(1);
    assert_eq!(
        result,
        [
            AnkiField::new(ModelId(1), "Front".to_string()),
            AnkiField::new(ModelId(1), "Back".to_string())
        ]
    );
}

#[test]
fn test_get_model_names_and_ids_request() {
    let server = MockServer::start();
    server.mock(
        "modelNamesAndIds",
        None,
        ReplyKind::NamesAndIds,
        Some(Reply::NamesAndIds(vec![
            ("Basic".to_string(), 1483883011648),
            ("Basic (and reversed card)".to_string(), 1483883011644),
            ("Basic (optional reversed card)".to_string(), 1483883011631),
            ("Cloze".to_string(), 1483883011630),
        ])),
        None,
    );
    let mock_client = AnkiClient::new(server.clone());

    let result = mock_client.get_all_models();

    server.assert_hits(1);
    let mut found = result.unwrap();
    found.sort_by(|a, b| a.partial_cmp(b).unwrap());
    let mut expected = vec![
        AnkiModelIdentifier::new(1483883011648, "Basic".to_string()),
        AnkiModelIdentifier::new(1483883011644, "Basic (and reversed card)".to_string()),
        AnkiModelIdentifier::new(1483883011631, "Basic (optional reversed card)".to_string()),
        AnkiModelIdentifier::new(1483883011630, "Cloze".to_string()),
    ];
    expected.sort_by(|a, b| a.partial_cmp(b).unwrap());
    assert_eq!(found, expected);
    assert_eq!(found[0].get_name(), "Cloze");
}

#[test]
fn test_store_media_file_from_path_request() {
    let server = MockServer::start();
    server.mock(
        "storeMediaFile",
        Some(Params::StoreMediaFile(StoreMediaFileParams {
            path: Some("/path/to/file".to_string()),
            url: None,
            data: None,
            filename: "_hello.txt".to_string(),
            delete_existing: true,
        })),
        ReplyKind::Text,
        Some(Reply::Text("_hello.txt".to_string())),
        None,
    );
    let mock_client = AnkiClient::new(server.clone());

    let result = mock_client.store_media_file_from_path("/path/to/file", "_hello.txt", true);

    server.assert_hits(1);
    assert_eq!(result.unwrap(), "_hello.txt");
}

#[test]
fn test_store_media_file_from_url_request() {
    let server = MockServer::start();
    server.mock(
        "storeMediaFile",
        Some(Params::StoreMediaFile(StoreMediaFileParams {
            path: None,
            url: Some("https://url.to.file".to_string()),
            data: None,
            filename: "_hello.txt".to_string(),
            delete_existing: false,
        })),
        ReplyKind::Text,
        Some(Reply::Text("_hello.txt".to_string())),
        None,
    );
    let mock_client = AnkiClient::new(server.clone());

    let result = mock_client.store_media_file_from_url("https://url.to.file", "_hello.txt", false);

    server.assert_hits(1);
    assert_eq!(result.unwrap(), "_hello.txt");
}

#[test]
fn test_store_media_file_from_base64_request() {
    let server = MockServer::start();
    server.mock(
        "storeMediaFile",
        Some(Params::StoreMediaFile(StoreMediaFileParams {
            path: None,
            url: None,
            data: Some("SGVsbG8sIHdvcmxkIQ==".to_string()),
            filename: "_hello.txt".to_string(),
            delete_existing: false,
        })),
        ReplyKind::Text,
        Some(Reply::Text("_hello.txt".to_string())),
        None,
    );
    let mock_client = AnkiClient::new(server.clone());

    let result =
        mock_client.store_media_file_from_base64("SGVsbG8sIHdvcmxkIQ==", "_hello.txt", false);

    server.assert_hits(1);
    assert_eq!(result.unwrap(), "_hello.txt");
}

fn detail_field(name: &str, ord: i64, id: i64) -> Field {
    Field {
        name: name.to_string(),
        ord,
        sticky: false,
        rtl: false,
        font: "Arial".to_string(),
        size: 20,
        description: String::new(),
        plain_text: false,
        collapsed: false,
        exclude_from_search: false,
        id,
        tag: None,
        prevent_deletion: false,
    }
}

fn basic_details() -> ModelDetails {
    ModelDetails {
        id: 1704387367119,
        name: "Basic".to_string(),
        type_: 0,
        mod_: 1704387367,
        usn: -1,
        sortf: 0,
        did: None,
        tmpls: vec![Template {
            name: "Card 1".to_string(),
            ord: 0,
            qfmt: "{{Front}}".to_string(),
            afmt: "{{FrontSide}}\n\n<hr id=answer>\n\n{{Back}}".to_string(),
            bqfmt: String::new(),
            bafmt: String::new(),
            did: None,
            bfont: String::new(),
            bsize: 0,
            id: 9176047152973362695,
        }],
        flds: vec![
            detail_field("Front", 0, 2453723143453745216),
            detail_field("Back", 1, -4853200230425436781),
        ],
        css: ".card {\n    font-family: arial;\n    font-size: 20px;\n    text-align: center;\n    color: black;\n    background-color: white;\n}\n".to_string(),
        latex_pre: "\\documentclass[12pt]{article}\n\\special{papersize=3in,5in}\n\\usepackage[utf8]{inputenc}\n\\usepackage{amssymb,amsmath}\n\\pagestyle{empty}\n\\setlength{\\parindent}{0in}\n\\begin{document}\n".to_string(),
        latex_post: "\\end{document}".to_string(),
        latexsvg: false,
        req: vec![Requirement(0, "any".to_string(), vec![0])],
        original_stock_kind: 1,
    }
}

#[test]
fn test_get_model_by_id_request() {
    let server = MockServer::start();
    server.mock(
        "findModelsById",
        Some(Params::FindModelsById(FindModelsByIdParams {
            model_ids: vec![1704387367119],
        })),
        ReplyKind::Models,
        Some(Reply::Models(vec![basic_details()])),
        None,
    );
    let mock_client = AnkiClient::new(server.clone());

    let result = mock_client.get_model_by_id(1704387367119u64);

    server.assert_hits(1);
    assert_eq!(
        result.unwrap(),
        Some(AnkiModel::new(1704387367119, "Basic".to_string()))
    );
}

#[test]
fn anki_connect_client_test_test_server_not_running() {
    let client = AnkiClient::new(NoServer);

    let result = client.get_version();

    match result {
        Err(AnkiRequestError::HttpError(e)) => {
            let error_string = e.to_string();
            assert!(
                error_string.contains("404")
                    || error_string.contains("connection refused")
                    || error_string.contains("failed to connect")
            )
        }
        other => panic!("Expected connection error, got {:?}", other),
    }
}

#[test]
fn test_handles_model_not_found_error() {
    let server = MockServer::start();
    server.fail_every_request("model was not found: Basic");
    let mock_client = AnkiClient::new(server.clone());

    let result = mock_client.add_note(
        AnkiDeck::new(17283, "Italian".to_string()),
        AnkiCardBuilder::new_for_model(AnkiModelIdentifier::new(1, "Basic".to_string()))
            .add_field(
                AnkiField::new(ModelId(1), "Front".to_string()),
                "front content",
            )
            .add_field(
                AnkiField::new(ModelId(1), "Back".to_string()),
                "back content",
            )
            .add_tag("yomichan")
            .build(),
        false,
        Some(DuplicateScope::Deck),
    );

    assert_eq!(*server.hits.borrow(), 1);
    match result {
        Err(AnkiRequestError::AnkiConnectError(AnkiConnectError::ModelNotFound(model))) => {
            assert_eq!(model, "Basic")
        }
        _ => panic!("Should error"),
    }
}

#[test]
fn test_handles_deck_not_found_error() {
    let server = MockServer::start();
    server.fail_every_request("deck was not found: NonExistingDeck");
    let mock_client = AnkiClient::new(server.clone());

    let result = mock_client.add_note(
        AnkiDeck::new(12398, "NonExistingDeck".to_string()),
        AnkiCardBuilder::new_for_model(AnkiModelIdentifier::new(1, "Basic".to_string()))
            .add_field(
                AnkiField::new(ModelId(1), "Front".to_string()),
                "front content",
            )
            .add_field(
                AnkiField::new(ModelId(1), "Back".to_string()),
                "back content",
            )
            .add_tag("yomichan")
            .build(),
        false,
        Some(DuplicateScope::Deck),
    );

    assert_eq!(*server.hits.borrow(), 1);
    match result {
        Err(AnkiRequestError::AnkiConnectError(AnkiConnectError::DeckNotFound(deck))) => {
            assert_eq!(deck, "NonExistingDeck")
        }
        _ => panic!("Should error"),
    }
}

#[test]
fn test_add_note_returns_error_for_non_existing_model_field() {
    let server = MockServer::start();
    let model = AnkiModelIdentifier::new(1, "Basic".to_string());
    mock_field_names(&server, model.get_name(), &["Front", "Back"]);
    let mock_client = AnkiClient::new(server.clone());

    let deck = AnkiDeck::new(1, "Default".to_string());
    let card = AnkiCardBuilder::new_for_model(model.clone())
        .add_field(
            AnkiField::new(ModelId(1), "Front".to_string()),
            "front content",
        )
        .add_field(
            AnkiField::new(ModelId(1), "Back".to_string()),
            "back content",
        )
        .add_field(
            AnkiField::new(ModelId(1), "SomeNonExistingField".to_string()),
            "random content123",
        )
        .build();

    let result = mock_client.add_note(deck, card, false, None);

    match result {
        Err(AnkiRequestError::InvalidField(field, res_model)) => {
            assert_eq!(field, "SomeNonExistingField");
            assert_eq!(res_model, model);
        }
        _ => panic!("Expected InvalidField error, got {:?}", result),
    }
    server.assert_hits(1);
}

#[test]
fn a_card_is_sent_unchecked_on_request() {
    let server = MockServer::start();
    let model = AnkiModelIdentifier::new(1, "Basic".to_string());
    let deck = AnkiDeck::new(1, "Default".to_string());
    let card = AnkiCardBuilder::new_for_model(model.clone())
        .add_field_raw(AnkiField::new(ModelId(1), "Nowhere".to_string()), "x")
        .build();
    server.mock(
        "addNote",
        Some(Params::AddNote(AddNoteParams {
            note: NoteDto {
                deck_name: "Default".to_string(),
                model_name: "Basic".to_string(),
                fields: vec![("Nowhere".to_string(), "x".to_string())],
                options: AddNoteOptions {
                    allow_duplicate: true,
                    duplicate_scope: None,
                    duplicate_scope_options: None,
                },
                tags: vec![],
                audio: vec![],
                video: vec![],
                picture: vec![],
            },
        })),
        ReplyKind::Number,
        Some(Reply::Number(12)),
        None,
    );
    let client = AnkiClient::new(server.clone());
    assert_eq!(client.add_note_no_validation(deck, card, true, None), Ok(12));
    server.assert_hits(1);
}

#[test]
fn results_are_read_by_shape() {
    let wrong = AnkiRequestError::HttpError(
        "The result does not have the expected shape".to_string(),
    );
    assert_eq!(number_of(Reply::Number(3)), Ok(3));
    assert_eq!(number_of(Reply::Nothing), Err(AnkiRequestError::HttpError(
        "The result does not have the expected shape".to_string(),
    )));
    assert_eq!(numbers_of(Reply::Numbers(vec![1, 2])), Ok(vec![1, 2]));
    assert_eq!(numbers_of(Reply::Number(1)), Err(AnkiRequestError::HttpError(
        "The result does not have the expected shape".to_string(),
    )));
    assert_eq!(text_of(Reply::Text("t".to_string())), Ok("t".to_string()));
    assert_eq!(text_of(Reply::Nothing), Err(AnkiRequestError::HttpError(
        "The result does not have the expected shape".to_string(),
    )));
    assert_eq!(version_of(Reply::Number(65535)), Ok(65535));
    assert_eq!(version_of(Reply::Number(65536)), Err(AnkiRequestError::HttpError(
        "The result does not have the expected shape".to_string(),
    )));
    assert_eq!(first_model_of(Reply::Models(vec![])), Ok(None));
    assert_eq!(
        first_model_of(Reply::Models(vec![basic_details(), basic_details()])),
        Ok(Some(AnkiModel::new(1704387367119, "Basic".to_string())))
    );
    assert_eq!(first_model_of(Reply::Nothing), Err(wrong));
}

#[test]
fn a_request_has_the_version_of_the_interface() {
    assert_eq!(
        request("version", None, ReplyKind::Number),
        AnkiConnectRequest {
            action: "version",
            version: 6,
            params: None,
            expect: ReplyKind::Number
        }
    );
}

#[test]
fn an_empty_answer_fails_a_request() {
    let server = MockServer::start();
    server.mock("version", None, ReplyKind::Number, None, None);
    let client = AnkiClient::new(server.clone());
    assert_eq!(
        client.get_version(),
        Err(AnkiRequestError::AnkiConnectError(AnkiConnectError::Other(
            "Both result and error are null. Probably a bug in AnkiConnect".to_string()
        )))
    );
}

#[test]
fn a_borrowed_note_gets_strings_of_its_own() {
    let deck = AnkiDeck::new(1, "Default".to_string());
    let card = AnkiCardBuilder::new_for_model(AnkiModelIdentifier::new(1, "Basic".to_string()))
        .add_field_raw(AnkiField::new(ModelId(1), "Front".to_string()), "f")
        .add_tag("t")
        .add_audio(
            MediaSource::Base64("QQ==".to_string()),
            "a.mp3".to_string(),
            AnkiField::new(ModelId(1), "Front".to_string()),
        )
        .build();
    let note = ankiconnect_rs::anki_connect_client::note_for_card(
        &deck,
        &card,
        false,
        Some(DuplicateScope::Collection),
    );
    assert_eq!(
        owned_note(&note),
        NoteDto {
            deck_name: "Default".to_string(),
            model_name: "Basic".to_string(),
            fields: vec![("Front".to_string(), "f".to_string())],
            options: AddNoteOptions {
                allow_duplicate: false,
                duplicate_scope: Some(DuplicateScopeDto::Collection),
                duplicate_scope_options: None,
            },
            tags: vec!["t".to_string()],
            audio: vec![Media {
                path: None,
                url: None,
                data: Some("QQ==".to_string()),
                filename: "a.mp3".to_string(),
                fields: vec!["Front".to_string()],
            }],
            video: vec![],
            picture: vec![],
        }
    );
}
