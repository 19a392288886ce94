use ankiconnect_rs::client::models::{
    create_model_params, fields_from_names, find_model_by_name, model_from_details,
    model_from_names, model_or_missing, notes_using_model_params, ModelClient,
};
use ankiconnect_rs::client::request::{
    CardTemplate, CreateModelParams, FindModelsByIdParams, FindNotesParams, ModelDetails,
    ModelFieldNamesParams, ModelStylingParams, ModelTemplatesParams, Params, Reply, ReplyKind,
    UpdateModelStylingParams,
};
use ankiconnect_rs::models::model::{Field, Model, ModelId};
use ankiconnect_rs::models::note::NoteId;
use ankiconnect_rs::error::{AnkiConnectError, AnkiError};
use ankiconnect_rs::http::{interpret_response, RequestSender};
use std::cell::RefCell;
use std::collections::VecDeque;
use std::rc::Rc;

struct Exchange {
    action: &'static str,
    params: Option<Params>,
    kind: ReplyKind,
    answer: Result<(Option<Reply>, Option<String>), AnkiError>,
}

#[derive(Clone)]
struct MockServer {
    script: Rc<RefCell<VecDeque<Exchange>>>,
    hits: Rc<RefCell<usize>>,
}

impl MockServer {
    fn start() -> MockServer {
        MockServer {
            script: Rc::new(RefCell::new(VecDeque::new())),
            hits: Rc::new(RefCell::new(0)),
        }
    }

    fn mock(
        &self,
        action: &'static str,
        params: Option<Params>,
        kind: ReplyKind,
        result: Option<Reply>,
        error: Option<&str>,
    ) {
        self.script.borrow_mut().push_back(Exchange {
            action,
            params,
            kind,
            answer: Ok((result, error.map(|e| e.to_string()))),
        });
    }

    fn assert_hits(&self, hits: usize) {
        assert_eq!(*self.hits.borrow(), hits);
        assert!(self.script.borrow().is_empty());
    }
}

impl RequestSender for MockServer {
    fn send(
        &self,
        action: &str,
        params: Option<Params>,
        expect: ReplyKind,
    ) -> Result<Reply, AnkiError> {
        let next = self
            .script
            .borrow_mut()
            .pop_front()
            .unwrap_or_else(|| panic!("no request was expected, got {}", action));
        assert_eq!(action, next.action);
        assert_eq!(params, next.params);
        assert_eq!(expect, next.kind);
        *self.hits.borrow_mut() += 1;
        match next.answer {
            Ok((result, error)) => interpret_response(result, error, expect),
            Err(e) => Err(e),
        }
    }
}

fn create_mock_client(server: &MockServer) -> ModelClient<MockServer> {
    ModelClient::new(server.clone())
}

fn names_and_ids(pairs: &[(&str, u64)]) -> Reply {
    Reply::NamesAndIds(pairs.iter().map(|(n, i)| (n.to_string(), *i)).collect())
}

fn mock_field_names(server: &MockServer, model: &str, names: &[&str]) {
    server.mock(
        "modelFieldNames",
        Some(Params::ModelFieldNames(ModelFieldNamesParams {
            model_name: model.to_string(),
        })),
        ReplyKind::Texts,
        Some(Reply::Texts(names.iter().map(|n| n.to_string()).collect())),
        None,
    );
}

fn basic() -> Model {
    Model::new(
        1483883011648,
        "Basic".to_string(),
        vec![
            Field::new("Front".to_string(), 0),
            Field::new("Back".to_string(), 1),
        ],
    )
    .unwrap()
}

#[test]
fn test_get_all_models() {
    let server = MockServer::start();
    server.mock(
        "modelNamesAndIds",
        None,
        ReplyKind::NamesAndIds,
        Some(names_and_ids(&[
            ("Basic", 1483883011648),
            ("Basic (and reversed card)", 1483883011644),
            ("Basic (optional reversed card)", 1483883011631),
            ("Cloze", 1483883011630),
        ])),
        None,
    );
    mock_field_names(&server, "Basic", &["Front", "Back"]);
    mock_field_names(&server, "Basic (and reversed card)", &["Front", "Back"]);
    mock_field_names(
        &server,
        "Basic (optional reversed card)",
        &["Front", "Back", "Add Reverse"],
    );
    mock_field_names(&server, "Cloze", &["Text", "Extra"]);
    let client = create_mock_client(&server);

    let models = client.get_all();

    server.assert_hits(5);
    let models = models.unwrap();
    assert_eq!(models.len(), 4);

    let basic = models.iter().find(|m| m.name() == "Basic").unwrap();
    assert_eq!(basic.id().0, 1483883011648);
    assert_eq!(basic.fields().len(), 2);
    assert_eq!(basic.fields()[0].name(), "Front");
    assert_eq!(basic.fields()[1].name(), "Back");

    let cloze = models.iter().find(|m| m.name() == "Cloze").unwrap();
    assert_eq!(cloze.id().0, 1483883011630);
    assert_eq!(cloze.fields().len(), 2);
    assert_eq!(cloze.fields()[0].name(), "Text");
    assert_eq!(cloze.fields()[1].name(), "Extra");
}

#[test]
fn test_get_model_by_name() {
    let server = MockServer::start();
    for _ in 0..2 {
        server.mock(
            "modelNamesAndIds",
            None,
            ReplyKind::NamesAndIds,
            Some(names_and_ids(&[
                ("Basic", 1483883011648),
                ("Cloze", 1483883011630),
            ])),
            None,
        );
        mock_field_names(&server, "Basic", &["Front", "Back"]);
        mock_field_names(&server, "Cloze", &["Text", "Extra"]);
    }
    let client = create_mock_client(&server);

    let model = client.get_by_name("Basic").unwrap();

    assert!(model.is_some());
    let model = model.unwrap();
    assert_eq!(model.name(), "Basic");
    assert_eq!(model.id().0, 1483883011648);
    assert_eq!(model.fields().len(), 2);
    assert_eq!(model.fields()[0].name(), "Front");
    assert_eq!(model.fields()[1].name(), "Back");

    let non_existent = client.get_by_name("NonExistent").unwrap();
    assert!(non_existent.is_none());
    server.assert_hits(6);
}

#[test]
fn test_get_model_field_names() {
    let server = MockServer::start();
    mock_field_names(&server, "Basic", &["Front", "Back"]);
    let client = create_mock_client(&server);

    let field_names = client.get_fields_for_name("Basic");

    server.assert_hits(1);
    let field_names = field_names.unwrap();
    assert_eq!(field_names.len(), 2);
    assert_eq!(field_names[0], "Front");
    assert_eq!(field_names[1], "Back");
}

#[test]
fn fields_get_their_places() {
    let names = vec!["Front".to_string(), "Back".to_string(), "Extra".to_string()];
    assert_eq!(
        fields_from_names(&names),
        vec![
            Field::new("Front".to_string(), 0),
            Field::new("Back".to_string(), 1),
            Field::new("Extra".to_string(), 2),
        ]
    );
    let model = model_from_names(5, "M".to_string(), &names).unwrap();
    assert_eq!(model.fields()[2].ord(), 2);
    assert_eq!(
        model_from_names(5, "M".to_string(), &vec![]),
        Err(AnkiError::ValidationError(
            "Model must have at least one field".to_string()
        ))
    );
    assert_eq!(
        model_from_names(5, "M".to_string(), &vec!["a".to_string(), "a".to_string()]),
        Err(AnkiError::ValidationError(
            "Duplicate field name: a".to_string()
        ))
    );
}

#[test]
fn the_first_failure_ends_get_all() {
    let server = MockServer::start();
    server.mock(
        "modelNamesAndIds",
        None,
        ReplyKind::NamesAndIds,
        Some(names_and_ids(&[("Basic", 1), ("Odd", 2), ("Cloze", 3)])),
        None,
    );
    mock_field_names(&server, "Basic", &["Front", "Back"]);
    mock_field_names(&server, "Odd", &[]);
    let client = create_mock_client(&server);
    assert_eq!(
        client.get_all(),
        Err(AnkiError::ValidationError(
            "Model must have at least one field".to_string()
        ))
    );
    server.assert_hits(3);
}

fn detail_field(name: &str, ord: i64) -> ankiconnect_rs::client::request::Field {
    ankiconnect_rs::client::request::Field {
        name: name.to_string(),
        ord,
        sticky: false,
        rtl: false,
        font: "Arial".to_string(),
        size: 20,
        description: String::new(),
        plain_text: false,
        collapsed: false,
        exclude_from_search: false,
        id: 0,
        tag: None,
        prevent_deletion: false,
    }
}

fn details(id: u64, name: &str, flds: Vec<ankiconnect_rs::client::request::Field>) -> ModelDetails {
    ModelDetails {
        id,
        name: name.to_string(),
        type_: 0,
        mod_: 1704387367,
        usn: -1,
        sortf: 0,
        did: None,
        tmpls: vec![],
        flds,
        css: ".card {}".to_string(),
        latex_pre: String::new(),
        latex_post: String::new(),
        latexsvg: false,
        req: vec![],
        original_stock_kind: 1,
    }
}

#[test]
fn a_model_by_its_identifier() {
    let server = MockServer::start();
    server.mock(
        "findModelsById",
        Some(Params::FindModelsById(FindModelsByIdParams {
            model_ids: vec![1704387367119],
        })),
        ReplyKind::Models,
        Some(Reply::Models(vec![details(
            1704387367119,
            "Basic",
            vec![detail_field("Front", 0), detail_field("Back", 1)],
        )])),
        None,
    );
    server.mock(
        "findModelsById",
        Some(Params::FindModelsById(FindModelsByIdParams {
            model_ids: vec![5],
        })),
        ReplyKind::Models,
        Some(Reply::Models(vec![])),
        None,
    );
    let client = create_mock_client(&server);
    let model = client.get_by_id(ModelId(1704387367119)).unwrap().unwrap();
    assert_eq!(model.id(), ModelId(1704387367119));
    assert_eq!(model.name(), "Basic");
    assert_eq!(
        model.fields(),
        vec![
            Field::new("Front".to_string(), 0),
            Field::new("Back".to_string(), 1)
        ]
        .as_slice()
    );
    assert_eq!(client.get_by_id(ModelId(5)), Ok(None));
    server.assert_hits(2);
}

#[test]
fn only_the_first_of_the_details_counts() {
    let list = vec![
        details(1, "One", vec![detail_field("A", 3)]),
        details(2, "Two", vec![]),
    ];
    let model = model_from_details(&list).unwrap().unwrap();
    assert_eq!(model.name(), "One");
    assert_eq!(model.fields()[0].ord(), 3);
    let list = vec![details(2, "Two", vec![])];
    assert_eq!(
        model_from_details(&list),
        Err(AnkiError::ValidationError(
            "Model must have at least one field".to_string()
        ))
    );
    assert_eq!(model_from_details(&vec![]), Ok(None));
}

#[test]
fn field_names_by_identifier() {
    let server = MockServer::start();
    server.mock(
        "findModelsById",
        Some(Params::FindModelsById(FindModelsByIdParams {
            model_ids: vec![7],
        })),
        ReplyKind::Models,
        Some(Reply::Models(vec![details(
            7,
            "Basic",
            vec![detail_field("Front", 0)],
        )])),
        None,
    );
    mock_field_names(&server, "Basic", &["Front"]);
    server.mock(
        "findModelsById",
        Some(Params::FindModelsById(FindModelsByIdParams {
            model_ids: vec![8],
        })),
        ReplyKind::Models,
        Some(Reply::Models(vec![])),
        None,
    );
    let client = create_mock_client(&server);
    assert_eq!(
        client.get_fields_for_id(ModelId(7)),
        Ok(vec!["Front".to_string()])
    );
    assert_eq!(
        client.get_fields_for_id(ModelId(8)),
        Err(AnkiError::ValidationError(
            "Model with ID 8 not found".to_string()
        ))
    );
    server.assert_hits(3);
    assert_eq!(model_or_missing(Some(basic()), ModelId(1)), Ok(basic()));
    assert_eq!(
        model_or_missing(None, ModelId(1483883011648)),
        Err(AnkiError::ValidationError(
            "Model with ID 1483883011648 not found".to_string()
        ))
    );
}

#[test]
fn the_fields_of_a_model_need_no_request() {
    let server = MockServer::start();
    let client = create_mock_client(&server);
    assert_eq!(
        client.get_fields(&basic()),
        Ok(vec![
            Field::new("Front".to_string(), 0),
            Field::new("Back".to_string(), 1)
        ])
    );
    server.assert_hits(0);
}

#[test]
fn templates_and_styling() {
    let server = MockServer::start();
    server.mock(
        "modelTemplates",
        Some(Params::ModelTemplates(ModelTemplatesParams {
            model_name: "Basic".to_string(),
        })),
        ReplyKind::Texts,
        Some(Reply::Texts(vec!["Card 1".to_string(), "Card 2".to_string()])),
        None,
    );
    server.mock(
        "modelStyling",
        Some(Params::ModelStyling(ModelStylingParams {
            model_name: "Basic".to_string(),
        })),
        ReplyKind::Text,
        Some(Reply::Text(".card { font-family: arial; }".to_string())),
        None,
    );
    server.mock(
        "updateModelStyling",
        Some(Params::UpdateModelStyling(UpdateModelStylingParams {
            model: "Basic".to_string(),
            css: ".card { font-family: verdana; }".to_string(),
        })),
        ReplyKind::Nothing,
        None,
        None,
    );
    let client = create_mock_client(&server);
    let model = basic();
    let templates = client.get_template_names(&model).unwrap();
    assert_eq!(templates.len(), 2);
    assert!(templates.contains(&"Card 1".to_string()));
    assert!(templates.contains(&"Card 2".to_string()));
    let styling = client.get_styling(&model).unwrap();
    assert!(styling.contains("font-family: arial"));
    assert_eq!(
        client.update_styling(&model, ".card { font-family: verdana; }"),
        Ok(())
    );
    server.assert_hits(3);
}

#[test]
fn a_model_is_created() {
    let server = MockServer::start();
    server.mock(
        "createModel",
        Some(Params::CreateModel(CreateModelParams {
            model_name: "TestModel".to_string(),
            in_order_fields: vec!["Field1".to_string(), "Field2".to_string()],
            css: ".card { font-family: arial; }".to_string(),
            card_templates: vec![(
                "Card 1".to_string(),
                CardTemplate {
                    front: "Front template {{Field1}}".to_string(),
                    back: "Back template {{Field2}}".to_string(),
                },
            )],
        })),
        ReplyKind::Number,
        Some(Reply::Number(1551462107104)),
        None,
    );
    let client = create_mock_client(&server);

    let model_id = client.create_model(
        "TestModel",
        &["Field1", "Field2"],
        ".card { font-family: arial; }",
        &[(
            "Card 1",
            "Front template {{Field1}}",
            "Back template {{Field2}}",
        )],
    );

    server.assert_hits(1);
    assert_eq!(model_id.unwrap().0, 1551462107104);
}

#[test]
fn a_model_to_create_is_checked() {
    let server = MockServer::start();
    let client = create_mock_client(&server);
    let refused =
        |text: &str| Err::<ModelId, AnkiError>(AnkiError::ValidationError(text.to_string()));
    let templates = [("Card 1", "f", "b")];
    assert_eq!(
        client.create_model("", &[], "", &[]),
        refused("Model name cannot be empty")
    );
    assert_eq!(
        client.create_model("M", &[], "", &[]),
        refused("Model must have at least one field")
    );
    assert_eq!(
        client.create_model("M", &["F"], "", &[]),
        refused("Model must have at least one template")
    );
    assert_eq!(
        client.create_model("", &["F"], "", &templates),
        refused("Model name cannot be empty")
    );
    server.assert_hits(0);
}

#[test]
fn of_two_templates_with_one_name_the_later_stays() {
    let params = create_model_params(
        "M",
        &["F"],
        "css",
        &[
            ("Card 1", "f1", "b1"),
            ("Card 2", "f2", "b2"),
            ("Card 1", "f3", "b3"),
        ],
    )
    .unwrap();
    assert_eq!(
        params.card_templates,
        vec![
            (
                "Card 1".to_string(),
                CardTemplate {
                    front: "f3".to_string(),
                    back: "b3".to_string(),
                }
            ),
            (
                "Card 2".to_string(),
                CardTemplate {
                    front: "f2".to_string(),
                    back: "b2".to_string(),
                }
            ),
        ]
    );
    assert_eq!(params.model_name, "M");
    assert_eq!(params.in_order_fields, vec!["F".to_string()]);
    assert_eq!(params.css, "css");
}

#[test]
fn the_notes_of_a_model() {
    let server = MockServer::start();
    server.mock(
        "findNotes",
        Some(Params::FindNotes(FindNotesParams {
            query: "note:Basic".to_string(),
        })),
        ReplyKind::Numbers,
        Some(Reply::Numbers(vec![3, 1, 2])),
        None,
    );
    let client = create_mock_client(&server);
    assert_eq!(
        client.find_notes_using_model(&basic()),
        Ok(vec![NoteId(3), NoteId(1), NoteId(2)])
    );
    server.assert_hits(1);
    let odd = Model::new(
        1,
        "My Model: x".to_string(),
        vec![Field::new("F".to_string(), 0)],
    )
    .unwrap();
    assert_eq!(notes_using_model_params(&odd).query, "note:My Model: x");
}

#[test]
fn the_first_model_of_a_name_is_found() {
    let a = Model::new(1, "A".to_string(), vec![Field::new("x".to_string(), 0)]).unwrap();
    let b = Model::new(2, "B".to_string(), vec![Field::new("y".to_string(), 0)]).unwrap();
    let a2 = Model::new(3, "A".to_string(), vec![Field::new("z".to_string(), 0)]).unwrap();
    let models = vec![a.clone(), b.clone(), a2];
    assert_eq!(find_model_by_name(&models, "A"), Some(a));
    assert_eq!(find_model_by_name(&models, "B"), Some(b));
    assert_eq!(find_model_by_name(&models, "C"), None);
}

#[test]
fn a_remote_failure_reaches_the_caller() {
    let server = MockServer::start();
    server.mock(
        "modelFieldNames",
        Some(Params::ModelFieldNames(ModelFieldNamesParams {
            model_name: "Basic".to_string(),
        })),
        ReplyKind::Texts,
        None,
        Some("model was not found: Basic"),
    );
    let client = create_mock_client(&server);
    assert_eq!(
        client.get_fields_for_name("Basic"),
        Err(AnkiError::AnkiConnectError(AnkiConnectError::ModelNotFound(
            "Basic".to_string()
        )))
    );
}
