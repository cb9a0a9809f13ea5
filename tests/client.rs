use scryfall::client::{ClientError, RemoteError, ScryfallApi, SCRYFALL_API, SCRYFALL_DEFAULT_WAIT};
use scryfall::json::{DecodeError, Json};
use scryfall::requests::{CardNamed, Cards, Exact, SetByCode, Sets};

fn tree(v: &serde_json::Value) -> Json {
    match v {
        serde_json::Value::Null => Json::Null,
        serde_json::Value::Bool(b) => Json::Bool(*b),
        serde_json::Value::Number(n) => Json::Number(n.to_string()),
        serde_json::Value::String(s) => Json::Str(s.clone()),
        serde_json::Value::Array(a) => Json::Array(a.iter().map(tree).collect()),
        serde_json::Value::Object(m) => {
            Json::Object(m.iter().map(|(k, v)| (k.clone(), tree(v))).collect())
        }
    }
}

fn parse(text: &str) -> Json {
    let v: serde_json::Value = serde_json::from_str(text).expect("fixture is JSON");
    tree(&v)
}

const ZEN: &str = r#"{"object":"set","code":"zen","mtgo_code":"zen","name":"Zendikar",
    "set_type":"expansion","released_at":"2009-10-02","block_code":"zen","block":"Zendikar",
    "card_count":269,"digital":false,"foil_only":false,
    "icon_svg_uri":"https://img.example/sets/zen.svg",
    "search_uri":"https://api.example/cards/search?q=e%3Azen","scryfall_uri":"https://example/sets/zen"}"#;

const AUSTERE: &str = r#"{"object":"card","id":"d3b3c9b1","oracle_id":"a2c4e9f0",
    "multiverse_ids":[205387],"mtgo_id":36472,"uri":"https://api.example/cards/1",
    "scryfall_uri":"https://example/card/1","prints_search_uri":"https://api.example/prints/1",
    "rulings_uri":"https://api.example/cards/1/rulings","name":"Austere Command","layout":"normal",
    "cmc":6,"type_line":"Sorcery","oracle_text":"Choose two","mana_cost":"{4}{W}{W}",
    "colors":["W"],"color_identity":["W"],"legalities":{"modern":"legal"},"reserved":false,
    "set":"lrw","set_name":"Lorwyn","collector_number":"4","set_search_uri":"https://api.example/sets/lrw",
    "scryfall_set_uri":"https://example/sets/lrw","highres_image":true,"reprint":true,"digital":false,
    "rarity":"rare","frame":"2003","full_art":false,"border_color":"black","timeshifted":false,
    "colorshifted":false,"futureshifted":false}"#;

const AMBIGUOUS: &str = r#"{"object":"error","code":"not_found","type":"ambiguous","status":404,
    "details":"Too many cards match ambiguous name \"aus com\". Add more words to refine your search."}"#;

const NOT_FOUND: &str = r#"{"object":"error","code":"not_found","status":404,"details":"No card found."}"#;

#[test]
fn sets_request() {
    let a = ScryfallApi::new();
    let req = Sets;
    assert_eq!(a.request_url(&req), "https://api.scryfall.com/sets");
    let body = parse(&format!(r#"{{"object":"list","has_more":false,"data":[{ZEN}]}}"#));
    match a.handle_response(&req, 200, Some(&body)) {
        Ok(list) => assert_eq!(list.data.len(), 1),
        Err(e) => panic!("Failed to fetch: {:?}", e),
    }
}

#[test]
fn set_request() {
    let a = ScryfallApi::new();
    let req = SetByCode("zen".to_string());
    assert_eq!(a.request_url(&req), "https://api.scryfall.com/sets/zen");
    match a.handle_response(&req, 200, Some(&parse(ZEN))) {
        Ok(set) => {
            assert_eq!("Zendikar".to_string(), set.name);
            assert_eq!("zen".to_string(), set.code);
        }
        Err(e) => panic!("Failed to fetch: {:?}", e),
    }
}

#[test]
fn cards_request() {
    let a = ScryfallApi::new();
    let req = Cards;
    assert_eq!(a.request_url(&req), "https://api.scryfall.com/cards");
    let body = parse(&format!(
        r#"{{"object":"list","has_more":true,"next_page":"https://api.scryfall.com/cards?page=2","data":[{AUSTERE}]}}"#
    ));
    match a.handle_response(&req, 200, Some(&body)) {
        Ok(list) => {
            assert!(list.has_more);
            assert_eq!(list.data[0].name, "Austere Command");
        }
        Err(e) => panic!("Failed to fetch: {:?}", e),
    }
}

#[test]
fn card_named_request() {
    let a = ScryfallApi::new();
    let req = CardNamed("aust com".to_string(), Exact::Fuzzy);
    assert_eq!(a.request_url(&req), "https://api.scryfall.com/cards/named?fuzzy=aust%20com");
    match a.handle_response(&req, 200, Some(&parse(AUSTERE))) {
        Ok(card) => assert_eq!("Austere Command".to_string(), card.name),
        Err(e) => panic!("Failed to fetch: {:?}", e),
    }
}

#[test]
fn ambiguous_name_is_a_remote_error() {
    let a = ScryfallApi::new();
    let req = CardNamed("aus com".to_string(), Exact::Fuzzy);
    match a.handle_response(&req, 404, Some(&parse(AMBIGUOUS))) {
        Err(ClientError::Remote(e)) => {
            assert_eq!(e.status, 404);
            assert_eq!(e.code, "not_found");
            assert_eq!(e.kind, Some("ambiguous".to_string()));
            assert!(e.details.starts_with("Too many cards"));
        }
        other => panic!("expected a remote error, got {:?}", other.map(|c| c.name)),
    }
}

#[test]
fn not_found_is_a_remote_error() {
    let a = ScryfallApi::new();
    let r = a.handle_response(&SetByCode("zzz".to_string()), 404, Some(&parse(NOT_FOUND)));
    assert_eq!(
        r.unwrap_err(),
        ClientError::Remote(RemoteError {
            status: 404,
            code: "not_found".to_string(),
            kind: None,
            details: "No card found.".to_string(),
        })
    );
}

#[test]
fn error_status_without_error_payload() {
    let a = ScryfallApi::new();
    let r = a.handle_response(&Sets, 503, None);
    assert_eq!(r.unwrap_err(), ClientError::Status(503));
    let r = a.handle_response(&SetByCode("zen".to_string()), 500, Some(&parse(ZEN)));
    assert_eq!(r.unwrap_err(), ClientError::Status(500));
}

#[test]
fn success_status_with_bad_body_is_a_decode_error() {
    let a = ScryfallApi::new();
    let r = a.handle_response(&SetByCode("zen".to_string()), 200, None);
    assert_eq!(r.unwrap_err(), ClientError::Decode(DecodeError::NotJson));
    let r = a.handle_response(&SetByCode("zen".to_string()), 200, Some(&parse(NOT_FOUND)));
    assert_eq!(r.unwrap_err(), ClientError::Decode(DecodeError::MissingField("name".to_string())));
}

#[test]
fn new_client_defaults() {
    let a = ScryfallApi::new();
    assert_eq!(a.base_url(), SCRYFALL_API);
    assert_eq!(a.min_interval(), SCRYFALL_DEFAULT_WAIT);
    assert_eq!(a.min_interval(), 50);
    assert_eq!(a.last_request(), None);
}

#[test]
fn back_to_back_calls_keep_the_interval() {
    let mut a = ScryfallApi::new();
    assert_eq!(a.schedule(1_000), 0);
    assert_eq!(a.last_request(), Some(1_000));
    assert_eq!(a.schedule(1_000), 50);
    assert_eq!(a.last_request(), Some(1_050));
    assert_eq!(a.schedule(1_060), 40);
    assert_eq!(a.last_request(), Some(1_100));
    assert_eq!(a.throttle_wait(1_500), 0);
    assert_eq!(a.schedule(1_500), 0);
    assert_eq!(a.last_request(), Some(1_500));
}

#[test]
fn wait_counts_from_the_last_issue() {
    let mut a = ScryfallApi::with_base_url("http://localhost:8080".to_string(), 100);
    assert_eq!(a.schedule(10), 0);
    assert_eq!(a.throttle_wait(30), 80);
    assert_eq!(a.schedule(30), 80);
    assert_eq!(a.schedule(110), 100);
    assert_eq!(a.last_request(), Some(210));
    assert_eq!(a.request_url(&Sets), "http://localhost:8080/sets");
}

#[test]
fn interval_saturates_at_the_end_of_time() {
    let mut a = ScryfallApi::new();
    assert_eq!(a.schedule(u64::MAX - 10), 0);
    assert_eq!(a.schedule(u64::MAX - 10), 10);
    assert_eq!(a.last_request(), Some(u64::MAX));
}
