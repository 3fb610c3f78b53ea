use brasilapi::ncm::{get_ncm_all, get_ncm_by_code, get_ncm_by_description, Fetch, Ncm, NcmService};
use brasilapi::transport::BRASIL_API_URL;

#[test]
fn code_to_fetch_cant_contain_dot_in_ulr() {
    let code: String = "33051000".to_string();
    let expected_code: String = NcmService::take_dot(&"3305.10.00".to_string());

    assert_eq!(code, expected_code);
}

#[test]
fn set_url_by_fetch_when_is_all() {
    let ncm_service: NcmService = NcmService::new(BRASIL_API_URL, Fetch::All);

    let url: String = ncm_service.set_url_by_fetch();
    let expected_url: String = "https://brasilapi.com.br/api/ncm/v1".to_string();

    assert_eq!(url, expected_url);
}

#[test]
fn set_url_by_fetch_when_is_code() {
    let ncm_service: NcmService =
        NcmService::new(BRASIL_API_URL, Fetch::Code("3305.10.00".to_string()));

    let url: String = ncm_service.set_url_by_fetch();
    let expected_url: String = "https://brasilapi.com.br/api/ncm/v1/33051000".to_string();

    assert_eq!(url, expected_url);
}

#[test]
fn set_url_by_fetch_when_is_description() {
    let ncm_service: NcmService =
        NcmService::new(BRASIL_API_URL, Fetch::Description("carne".to_string()));

    let url: String = ncm_service.set_url_by_fetch();
    let expected_url: String = "https://brasilapi.com.br/api/ncm/v1?search=carne".to_string();

    assert_eq!(url, expected_url);
}

#[test]
fn code_with_letters_is_refused() {
    assert!(!NcmService::validade_code(&"carne".to_string()));
    assert!(NcmService::try_new(BRASIL_API_URL, Fetch::Code("carne".to_string())).is_none());
}

#[test]
fn code_with_dots_is_accepted() {
    assert!(NcmService::validade_code(&"3305.10.00".to_string()));
    let service = NcmService::try_new(BRASIL_API_URL, Fetch::Code("3305.10.00".to_string()));
    assert_eq!(
        service.unwrap().set_url_by_fetch(),
        "https://brasilapi.com.br/api/ncm/v1/33051000"
    );
}

#[test]
fn try_new_accepts_every_fetch_but_a_bad_code() {
    assert!(NcmService::try_new("http://localhost", Fetch::All).is_some());
    assert!(NcmService::try_new("http://localhost", Fetch::Description("a.b c".to_string())).is_some());
    assert!(NcmService::try_new("http://localhost", Fetch::Code("".to_string())).is_none());
    assert!(NcmService::try_new("http://localhost", Fetch::Code("...".to_string())).is_none());
    assert!(NcmService::try_new("http://localhost", Fetch::Code("12 34".to_string())).is_none());
}

#[test]
fn code_must_fit_thirty_two_bits() {
    assert!(NcmService::validade_code(&"2147483647".to_string()));
    assert!(!NcmService::validade_code(&"2147483648".to_string()));
    assert!(NcmService::validade_code(&"-2147483648".to_string()));
    assert!(!NcmService::validade_code(&"-2147483649".to_string()));
    assert!(NcmService::validade_code(&"21.474.836.47".to_string()));
    assert!(!NcmService::validade_code(&"0000000000000000000000000000099999999999".to_string()));
    assert!(NcmService::validade_code(&"0000000000000000000000000000000000000001".to_string()));
}

#[test]
fn take_dot_removes_every_dot_and_nothing_else() {
    assert_eq!(NcmService::take_dot(&"".to_string()), "");
    assert_eq!(NcmService::take_dot(&"....".to_string()), "");
    assert_eq!(NcmService::take_dot(&".a.b,c.".to_string()), "ab,c");
    assert_eq!(NcmService::take_dot(&"São.Paulo".to_string()), "SãoPaulo");
    assert_eq!(NcmService::take_dot(&"no dots".to_string()), "no dots");
}

#[test]
fn ncm_request_carries_the_url_of_the_fetch() {
    let service = NcmService::new("http://localhost:8080", Fetch::Code("01.01".to_string()));
    assert_eq!(service.get_ncm_request().url, "http://localhost:8080/api/ncm/v1/0101");
    assert_eq!(service.get_ncm_request().url, service.set_url_by_fetch());
}

#[test]
fn ncm_requests_at_the_production_service() {
    assert_eq!(get_ncm_all().url, "https://brasilapi.com.br/api/ncm/v1");
    assert_eq!(
        get_ncm_by_code("3305.10.00").url,
        "https://brasilapi.com.br/api/ncm/v1/33051000"
    );
    assert_eq!(
        get_ncm_by_description("tijolo").url,
        "https://brasilapi.com.br/api/ncm/v1?search=tijolo"
    );
}

#[test]
fn description_goes_into_the_address_unescaped() {
    assert_eq!(
        get_ncm_by_description("carne de sol & cia").url,
        "https://brasilapi.com.br/api/ncm/v1?search=carne de sol & cia"
    );
}

#[test]
fn ncm_entries_compare_field_by_field() {
    let entry = Ncm {
        codigo: Some("3305.10.00".to_string()),
        descricao: Some("- Xampus".to_string()),
        data_inicio: Some("2022-04-01".to_string()),
        data_fim: Some("9999-12-31".to_string()),
        tipo_ato: Some("Res Camex".to_string()),
        numero_ato: Some("272".to_string()),
        ano_ato: Some("2021".to_string()),
    };
    let mut other = entry.clone();
    assert_eq!(entry, other);
    other.ano_ato = None;
    assert_ne!(entry, other);
}
