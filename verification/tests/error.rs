use brasilapi::cep::{get_cep, Cep, CepService};
use brasilapi::corretoras::get_corretora;
use brasilapi::ddd;
use brasilapi::error::{normalize, presence, BrasilAPIError, Error, Errored};
use brasilapi::isbn;
use brasilapi::json::Member;
use brasilapi::transport::{Response, TransportFailure, STATUS_OK};

fn response(status: u16, body: &str) -> Response {
    Response { status, body: body.to_string() }
}

fn text_of(document: &serde_json::Value, key: &str) -> String {
    document.get(key).unwrap().as_str().unwrap().to_string()
}

#[test]
fn classification_follows_the_table() {
    assert_eq!(Errored::status_code(Some(404)), Errored::NotFound);
    assert_eq!(Errored::status_code(Some(500)), Errored::InternalServerError);
    assert_eq!(Errored::status_code(Some(400)), Errored::BadRequest);
}

#[test]
fn every_other_status_is_unexpected() {
    assert_eq!(Errored::status_code(None), Errored::Unexpected);
    for code in 0..=u16::MAX {
        if code != 404 && code != 500 && code != 400 {
            assert_eq!(Errored::status_code(Some(code)), Errored::Unexpected);
        }
    }
}

#[test]
fn classifying_twice_gives_one_kind() {
    for code in [None, Some(200), Some(400), Some(404), Some(500), Some(503)] {
        assert_eq!(Errored::status_code(code), Errored::status_code(code));
    }
}

#[test]
fn new_keeps_what_it_is_given() {
    let error = Error::new("holiday not found".to_string(), Errored::NotFound, Some(404));
    assert_eq!(error.message, "holiday not found");
    assert_eq!(error.error, Errored::NotFound);
    assert_eq!(error.code, Some(404));
    assert_eq!(error.api_error, None);
}

#[test]
fn success_is_200_and_nothing_else() {
    assert_eq!(STATUS_OK, 200);
    assert!(Response::is_success(200));
    for status in [0, 100, 199, 201, 204, 301, 400, 404, 500, 65535] {
        assert!(!Response::is_success(status));
    }
}

#[test]
fn successful_response_comes_back_untouched() {
    let body = "{\"cep\":\"01001000\",\"state\":\"SP\"}   \n trailing text that is no JSON";
    let outcome = Error::from_response(response(200, body));
    assert_eq!(outcome, Ok(response(200, body)));
}

#[test]
fn successful_response_with_an_error_shaped_body_is_no_error() {
    let body = "{\"message\":\"m\",\"type\":\"t\"}";
    assert_eq!(Error::from_response(response(200, body)), Ok(response(200, body)));
}

#[test]
fn failed_response_gives_its_body_as_message() {
    let body = "  <html>Service Unavailable</html>\n";
    let error = Error::from_response(response(503, body)).unwrap_err();
    assert_eq!(error.code, Some(503));
    assert_eq!(error.error, Errored::Unexpected);
    assert_eq!(error.message, body);
    assert_eq!(error.api_error, None);
}

#[test]
fn failed_response_with_an_empty_body_still_gives_an_error() {
    let error = Error::from_response(response(400, "")).unwrap_err();
    assert_eq!(error.code, Some(400));
    assert_eq!(error.error, Errored::BadRequest);
    assert_eq!(error.message, "");
    assert_eq!(error.api_error, None);
}

#[test]
fn from_body_builds_the_error_of_a_failed_response() {
    let body = "{\"message\":\"CEP inválido\",\"type\":\"validation_error\",\"name\":\"CepPromiseError\"}";
    let error = Error::from_body(400, body.to_string());
    assert_eq!(
        error,
        Error {
            code: Some(400),
            api_error: Some(BrasilAPIError {
                message: "CEP inválido".to_string(),
                name: Some("CepPromiseError".to_string()),
                kind: "validation_error".to_string(),
            }),
            message: body.to_string(),
            error: Errored::BadRequest,
        }
    );
    assert_eq!(Error::from_response(response(400, body)), Err(error));
}

#[test]
fn get_corretora_not_found_test() {
    let request = get_corretora("00000000000000");
    assert_eq!(
        request.url,
        "https://brasilapi.com.br/api/cvm/corretoras/v1/00000000000000"
    );
    let body = "{\"message\":\"Nenhuma corretora localizada\",\"type\":\"exchange_error\",\"name\":\"EXCHANGE_NOT_FOUND\"}";
    let corretora = normalize(Ok(response(404, body)));

    assert!(corretora.is_err());

    assert_eq!(
        corretora.err().unwrap().api_error,
        Some(BrasilAPIError {
            kind: "exchange_error".to_string(),
            message: "Nenhuma corretora localizada".to_string(),
            name: Some("EXCHANGE_NOT_FOUND".to_string()),
        })
    )
}

#[test]
fn error_body_is_read_from_three_members() {
    let expected = BrasilAPIError {
        message: "m".to_string(),
        name: Some("n".to_string()),
        kind: "t".to_string(),
    };
    assert_eq!(
        BrasilAPIError::parse("{\"message\":\"m\",\"name\":\"n\",\"type\":\"t\"}"),
        Some(expected.clone())
    );
    assert_eq!(
        BrasilAPIError::parse(" { \"type\" : \"t\", \"name\" : \"n\", \"message\" : \"m\" } "),
        Some(expected.clone())
    );
    assert_eq!(
        BrasilAPIError::parse(
            "{\"message\":\"m\",\"name\":\"n\",\"type\":\"t\",\"errors\":[{\"service\":\"x\"}],\"code\":7}"
        ),
        Some(expected)
    );
}

#[test]
fn error_body_may_lack_a_name() {
    let expected = BrasilAPIError { message: "m".to_string(), name: None, kind: "t".to_string() };
    assert_eq!(
        BrasilAPIError::parse("{\"message\":\"m\",\"type\":\"t\"}"),
        Some(expected.clone())
    );
    assert_eq!(
        BrasilAPIError::parse("{\"message\":\"m\",\"type\":\"t\",\"name\":null}"),
        Some(expected)
    );
}

#[test]
fn error_body_keeps_escapes_decoded() {
    assert_eq!(
        BrasilAPIError::parse("{\"message\":\"a\\n\\\"b\\\" \\u00e9\",\"type\":\"\"}"),
        Some(BrasilAPIError {
            message: "a\n\"b\" é".to_string(),
            name: None,
            kind: "".to_string(),
        })
    );
}

#[test]
fn text_of_another_shape_holds_no_error_body() {
    for text in [
        "",
        "not json",
        "{",
        "{\"message\":\"m\",\"type\":\"t\"} trailing",
        "null",
        "42",
        "\"message\"",
        "[]",
        "{}",
        "{\"message\":\"m\"}",
        "{\"type\":\"t\"}",
        "{\"name\":\"n\"}",
        "{\"message\":null,\"type\":\"t\"}",
        "{\"message\":\"m\",\"type\":null}",
        "{\"message\":7,\"type\":\"t\"}",
        "{\"message\":\"m\",\"type\":[\"t\"]}",
        "{\"message\":\"m\",\"type\":\"t\",\"name\":7}",
        "{\"message\":\"m\",\"type\":\"t\",\"name\":{\"n\":1}}",
        "{\"Message\":\"m\",\"Type\":\"t\"}",
        "{\"message\":\"m\",\"kind\":\"t\"}",
    ] {
        assert_eq!(BrasilAPIError::parse(text), None, "on {:?}", text);
    }
}

#[test]
fn from_members_decides_member_by_member() {
    let text = |s: &str| Some(Member::Text(s.to_string()));
    assert_eq!(
        BrasilAPIError::from_members(text("m"), text("n"), text("t")),
        Some(BrasilAPIError {
            message: "m".to_string(),
            name: Some("n".to_string()),
            kind: "t".to_string(),
        })
    );
    assert_eq!(
        BrasilAPIError::from_members(text("m"), None, text("t")),
        Some(BrasilAPIError { message: "m".to_string(), name: None, kind: "t".to_string() })
    );
    assert_eq!(
        BrasilAPIError::from_members(text("m"), Some(Member::Null), text("t")),
        Some(BrasilAPIError { message: "m".to_string(), name: None, kind: "t".to_string() })
    );
    assert_eq!(BrasilAPIError::from_members(text("m"), Some(Member::Other), text("t")), None);
    assert_eq!(BrasilAPIError::from_members(None, text("n"), text("t")), None);
    assert_eq!(BrasilAPIError::from_members(text("m"), text("n"), None), None);
    assert_eq!(BrasilAPIError::from_members(Some(Member::Null), None, text("t")), None);
    assert_eq!(BrasilAPIError::from_members(text("m"), None, Some(Member::Null)), None);
    assert_eq!(BrasilAPIError::from_members(Some(Member::Other), None, text("t")), None);
    assert_eq!(BrasilAPIError::from_members(text("m"), None, Some(Member::Other)), None);
}

#[test]
fn error_body_survives_being_written_as_json() {
    let payloads = [
        BrasilAPIError { message: "m".to_string(), name: None, kind: "t".to_string() },
        BrasilAPIError {
            message: "Nenhuma corretora localizada".to_string(),
            name: Some("EXCHANGE_NOT_FOUND".to_string()),
            kind: "exchange_error".to_string(),
        },
        BrasilAPIError {
            message: "\"quoted\" \\ and\nbroken".to_string(),
            name: Some("".to_string()),
            kind: "{}".to_string(),
        },
    ];
    for payload in payloads {
        let mut object = serde_json::Map::new();
        object.insert("message".to_string(), serde_json::Value::String(payload.message.clone()));
        object.insert("type".to_string(), serde_json::Value::String(payload.kind.clone()));
        if let Some(name) = &payload.name {
            object.insert("name".to_string(), serde_json::Value::String(name.clone()));
        }
        let text = serde_json::to_string(&serde_json::Value::Object(object)).unwrap();
        assert_eq!(BrasilAPIError::parse(&text), Some(payload.clone()));
        let error = Error::from_body(404, text.clone());
        assert_eq!(error.api_error, Some(payload));
        assert_eq!(error.message, text);
    }
}

#[test]
fn transport_failure_without_a_status_is_unexpected() {
    let failure = TransportFailure {
        status: None,
        description: "error sending request: dns error".to_string(),
    };
    let error = Error::from_error(failure);
    assert_eq!(
        error,
        Error {
            code: None,
            api_error: None,
            message: "error sending request: dns error".to_string(),
            error: Errored::Unexpected,
        }
    );
}

#[test]
fn transport_failure_with_a_status_is_classified_by_it() {
    for (status, kind) in [
        (404, Errored::NotFound),
        (500, Errored::InternalServerError),
        (400, Errored::BadRequest),
        (503, Errored::Unexpected),
    ] {
        let failure = TransportFailure { status: Some(status), description: "timed out".to_string() };
        let error = Error::from_error(failure);
        assert_eq!(error.code, Some(status));
        assert_eq!(error.error, kind);
        assert_eq!(error.message, "timed out");
        assert_eq!(error.api_error, None);
    }
}

#[test]
fn transport_failure_whose_description_is_an_error_body() {
    let description = "{\"message\":\"m\",\"type\":\"t\",\"name\":\"n\"}";
    let error = Error::from_error(TransportFailure {
        status: Some(500),
        description: description.to_string(),
    });
    assert_eq!(error.message, description);
    assert_eq!(
        error.api_error,
        Some(BrasilAPIError {
            message: "m".to_string(),
            name: Some("n".to_string()),
            kind: "t".to_string(),
        })
    );
}

#[test]
fn normalize_routes_both_outcomes() {
    assert_eq!(normalize(Ok(response(200, "[]"))), Ok(response(200, "[]")));
    assert_eq!(
        normalize(Ok(response(404, "gone"))),
        Err(Error {
            code: Some(404),
            api_error: None,
            message: "gone".to_string(),
            error: Errored::NotFound,
        })
    );
    assert_eq!(
        normalize(Err(TransportFailure { status: None, description: "reset".to_string() })),
        Err(Error {
            code: None,
            api_error: None,
            message: "reset".to_string(),
            error: Errored::Unexpected,
        })
    );
}

#[test]
fn upstream_404_means_absent() {
    let outcome = normalize(Ok(response(404, "{\"message\":\"CEP não encontrado\",\"type\":\"service_error\"}")));
    assert_eq!(presence(outcome.clone()), Ok(false));
    assert_eq!(brasilapi::cep::validate(outcome.clone()), Ok(false));
    assert_eq!(ddd::ddd_exists(outcome.clone()), Ok(false));
    assert_eq!(isbn::validate(outcome), Ok(false));
}

#[test]
fn upstream_500_stays_an_error() {
    let outcome = normalize(Ok(response(500, "boom")));
    let error = presence(outcome.clone()).unwrap_err();
    assert_eq!(error.error, Errored::InternalServerError);
    assert_eq!(error.code, Some(500));
    assert_eq!(error.message, "boom");
    assert_eq!(brasilapi::cep::validate(outcome.clone()), Err(error.clone()));
    assert_eq!(ddd::ddd_exists(outcome.clone()), Err(error.clone()));
    assert_eq!(isbn::validate(outcome), Err(error));
}

#[test]
fn upstream_200_means_present() {
    let outcome = normalize(Ok(response(200, "{}")));
    assert_eq!(presence(outcome.clone()), Ok(true));
    assert_eq!(brasilapi::cep::validate(outcome.clone()), Ok(true));
    assert_eq!(ddd::ddd_exists(outcome.clone()), Ok(true));
    assert_eq!(isbn::validate(outcome), Ok(true));
}

#[test]
fn transport_failure_stays_an_error_in_the_existence_check() {
    let outcome = normalize(Err(TransportFailure { status: None, description: "dns".to_string() }));
    assert_eq!(presence(outcome).unwrap_err().error, Errored::Unexpected);
    let outcome = normalize(Err(TransportFailure { status: Some(400), description: "bad".to_string() }));
    assert_eq!(presence(outcome).unwrap_err().error, Errored::BadRequest);
}

#[test]
fn service_methods_answer_as_the_free_functions_do() {
    let not_found = normalize(Ok(response(404, "")));
    let broken = normalize(Ok(response(500, "")));
    let cep_service = CepService::new("http://localhost");
    assert_eq!(cep_service.validate_cep(not_found.clone()), Ok(false));
    assert_eq!(cep_service.validate_cep(broken.clone()), broken.clone().map(|_| true));
    let ddd_service = ddd::DDDService::new("http://localhost");
    assert_eq!(ddd_service.validate_ddd(not_found.clone()), Ok(false));
    assert_eq!(ddd_service.validate_ddd(broken.clone()), broken.clone().map(|_| true));
    let isbn_service = isbn::IsbnService::new("http://localhost");
    assert_eq!(isbn_service.validate_isbn(not_found), Ok(false));
    assert_eq!(isbn_service.validate_isbn(broken.clone()), broken.map(|_| true));
}

#[test]
fn get_cep_unexpected_error() {
    let cep_code = "99999999";
    let cep_service = CepService::new("http://127.0.0.1:5000");
    let request = cep_service.get_cep_request(cep_code);
    assert_eq!(request.url, format!("http://127.0.0.1:5000/api/cep/v2/{cep_code}"));

    let body = "{\"name\":\"Internal Server Error\",\"message\":\"Error interno do servidor\"}";
    let outcome = normalize(Ok(response(500, body)));
    let expectation = outcome.unwrap_err();

    assert_eq!(expectation.code, Some(500));
}

#[test]
fn get_validate_unexpected_error() {
    let cep_code = "99999998";
    let cep_service = CepService::new("http://127.0.0.1:5000");
    let request = cep_service.get_cep_request(cep_code);
    assert_eq!(request.url, format!("http://127.0.0.1:5000/api/cep/v2/{cep_code}"));

    let body = "{\"name\":\"Internal Server Error\",\"message\":\"Error interno do servidor\"}";
    let outcome = normalize(Ok(response(500, body)));
    let expectation = cep_service.validate_cep(outcome).unwrap_err();

    assert_eq!(expectation.code, Some(500));
    assert_eq!(expectation.error, Errored::InternalServerError);
    assert_eq!(expectation.api_error, None);
}

#[test]
fn get_cep_test() {
    let request = get_cep("01001000");
    assert_eq!(request.url, "https://brasilapi.com.br/api/cep/v2/01001000");

    let body = "{\"cep\":\"01001000\",\"state\":\"SP\",\"city\":\"São Paulo\",\"neighborhood\":\"Sé\",\"street\":\"Praça da Sé\",\"service\":\"open-cep\"}";
    let passed = normalize(Ok(response(200, body))).unwrap();
    assert_eq!(passed.body, body);

    let document: serde_json::Value = serde_json::from_str(&passed.body).unwrap();
    let cep = Cep {
        cep: text_of(&document, "cep"),
        state: text_of(&document, "state"),
        city: text_of(&document, "city"),
        neighborhood: text_of(&document, "neighborhood"),
        street: text_of(&document, "street"),
        service: text_of(&document, "service"),
    };

    assert_eq!(cep.state, "SP");
    assert_eq!(cep.street, "Praça da Sé");
}

#[test]
fn get_cep_error() {
    let request = get_cep("12345678");
    assert_eq!(request.url, "https://brasilapi.com.br/api/cep/v2/12345678");

    let body = "{\"message\":\"Todos os serviços de CEP retornaram erro.\",\"type\":\"service_error\",\"name\":\"CepPromiseError\",\"errors\":[]}";
    let cep = normalize(Ok(response(404, body)));

    assert!(cep.is_err());
    let error = cep.unwrap_err();
    assert_eq!(error.error, Errored::NotFound);
    assert_eq!(error.code, Some(404));
}
