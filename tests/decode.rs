use scryfall::json::{DecodeError, Json};
use scryfall::types::{Card, CardSet, Catalog, ImageVersion, ListObject, ManaValue, ScryfallResponse};

fn tree(v: &serde_json::Value) -> Json {
    match v {
        serde_json::Value::Null => Json::Null,
        serde_json::Value::Bool(b) => Json::Bool(*b),
        serde_json::Value::Number(n) => Json::Number(n.to_string()),
        serde_json::Value::String(s) => Json::Str(s.clone()),
        serde_json::Value::Array(a) => Json::Array(a.iter().map(tree).collect()),
        serde_json::Value::Object(m) => {
            Json::Object(m.iter().map(|(k, v)| (k.clone(), tree(v))).collect())
        }
    }
}

fn parse(text: &str) -> Json {
    let v: serde_json::Value = serde_json::from_str(text).expect("fixture is JSON");
    tree(&v)
}

fn set_json(code: &str, name: &str) -> String {
    format!(
        r#"{{"object":"set","code":"{code}","mtgo_code":"{code}","name":"{name}","set_type":"expansion",
        "released_at":"2009-10-02","block_code":"zen","block":"Zendikar","card_count":269,
        "digital":false,"foil_only":false,"icon_svg_uri":"https://img.example/sets/{code}.svg",
        "search_uri":"https://api.example/cards/search?q=e%3A{code}",
        "scryfall_uri":"https://example/sets/{code}","some_new_field":[1,2,3]}}"#
    )
}

fn card_json(name: &str, extra: &str) -> String {
    format!(
        r#"{{"object":"card","id":"d3b3c9b1-1f6a-4b7c-9a3e-0c5a1c9d2e11",
        "oracle_id":"a2c4e9f0-3d1b-4f58-8a5d-6b7e9c0d1f22","multiverse_ids":[205387],
        "mtgo_id":36472,"uri":"https://api.example/cards/1","scryfall_uri":"https://example/card/1",
        "prints_search_uri":"https://api.example/cards/search?q=1","rulings_uri":"https://api.example/cards/1/rulings",
        "name":"{name}","layout":"normal","cmc":6,"type_line":"Sorcery",
        "oracle_text":"Choose two","mana_cost":"{{4}}{{W}}{{W}}","colors":["W"],"color_identity":["W"],
        "legalities":{{"standard":"not_legal","modern":"legal"}},"reserved":false,"edhrec_rank":412,
        "set":"lrw","set_name":"Lorwyn","collector_number":"4","set_search_uri":"https://api.example/sets/lrw",
        "scryfall_set_uri":"https://example/sets/lrw",
        "image_uris":{{"small":"https://img.example/s.jpg","normal":"https://img.example/n.jpg"}},
        "highres_image":true,"reprint":true,"digital":false,"rarity":"rare","artist":"Wayne England",
        "frame":"2003","full_art":false,"border_color":"black","timeshifted":false,"colorshifted":false,
        "futureshifted":false{extra}}}"#
    )
}

#[test]
fn set_parse() {
    let set = CardSet::parse(&parse(&set_json("zen", "Zendikar"))).expect("Parse Set JSON");
    assert_eq!(set.code, "zen");
    assert_eq!(set.name, "Zendikar");
    assert_eq!(set.card_count, 269);
    assert_eq!(set.parent_set_code, None);
    assert_eq!(set.block, Some("Zendikar".to_string()));
}

#[test]
fn card_parse() {
    let card = Card::parse(&parse(&card_json("Austere Command", ""))).expect("Parse Card JSON");
    assert_eq!(card.name, "Austere Command");
    assert_eq!(card.cmc, ManaValue { digits: 6, decimals: 0 });
    assert_eq!(card.mana_cost, Some("{4}{W}{W}".to_string()));
    assert_eq!(card.multiverse_ids, Some(vec![205387]));
    assert_eq!(card.mtgo_id, Some(36472));
    assert_eq!(card.mtgo_foil_id, None);
    assert_eq!(card.edhrec_rank, Some(412));
    assert_eq!(card.color_indicator, None);
    assert_eq!(card.colors, vec!["W".to_string()]);
    assert_eq!(card.legalities.len(), 2);
    assert_eq!(card.power, None);
}

#[test]
fn list_object_parse() {
    let text = format!(
        r#"{{"object":"list","has_more":false,"data":[{},{}]}}"#,
        set_json("zen", "Zendikar"),
        set_json("wwk", "Worldwake")
    );
    let list: ListObject<CardSet> = ListObject::parse(&parse(&text)).expect("Parse ListObject<Set>");
    assert_eq!(list.data.len(), 2);
    assert!(!list.has_more);
    assert_eq!(list.data[0].code, "zen");
    assert_eq!(list.data[1].name, "Worldwake");
    assert_eq!(list.next_page, None);
    assert_eq!(list.total, None);
}

#[test]
fn list_of_cards_uses_the_card_rule() {
    let text = format!(
        r#"{{"object":"list","has_more":true,"next_page":"https://api.example/cards?page=2",
        "total_cards":2,"total":2,"warnings":["slow"],"data":[{},{}]}}"#,
        card_json("Austere Command", ""),
        card_json("Wrath of God", r#","power":"*""#)
    );
    let list: ListObject<Card> = ListObject::parse(&parse(&text)).unwrap();
    assert_eq!(list.data.len(), 2);
    assert!(list.has_more);
    assert_eq!(list.total, Some(2));
    assert_eq!(list.warnings, Some(vec!["slow".to_string()]));
    assert_eq!(list.data[1].power, Some("*".to_string()));
}

#[test]
fn list_element_error_fails_the_list() {
    let bad_set = set_json("zen", "Zendikar").replace(r#""code":"zen","#, "");
    let text = format!(r#"{{"object":"list","has_more":false,"data":[{}]}}"#, bad_set);
    let r: Result<ListObject<CardSet>, DecodeError> = ListObject::parse(&parse(&text));
    assert_eq!(r.unwrap_err(), DecodeError::MissingField("code".to_string()));
}

#[test]
fn list_with_more_needs_next_page() {
    let text = r#"{"object":"list","has_more":true,"data":[]}"#;
    let r: Result<ListObject<CardSet>, DecodeError> = ListObject::parse(&parse(text));
    assert_eq!(r.unwrap_err(), DecodeError::InvalidField("next_page".to_string()));
}

#[test]
fn set_without_code_is_rejected() {
    let text = set_json("zen", "Zendikar").replace(r#""code":"zen","#, "");
    let r = CardSet::parse(&parse(&text));
    assert_eq!(r.unwrap_err(), DecodeError::MissingField("code".to_string()));
}

#[test]
fn set_with_empty_code_is_rejected() {
    let r = CardSet::parse(&parse(&set_json("", "Nothing")));
    assert_eq!(r.unwrap_err(), DecodeError::InvalidField("code".to_string()));
}

#[test]
fn set_with_negative_count_is_rejected() {
    let text = set_json("zen", "Zendikar").replace("269", "-1");
    let r = CardSet::parse(&parse(&text));
    assert_eq!(r.unwrap_err(), DecodeError::InvalidField("card_count".to_string()));
}

#[test]
fn flag_of_wrong_type_is_rejected() {
    let text = set_json("zen", "Zendikar").replace(r#""digital":false"#, r#""digital":"no""#);
    let r = CardSet::parse(&parse(&text));
    assert_eq!(r.unwrap_err(), DecodeError::InvalidField("digital".to_string()));
}

#[test]
fn payload_that_is_no_object_is_rejected() {
    assert_eq!(CardSet::parse(&parse("[1,2]")).unwrap_err(), DecodeError::NotAnObject);
}

#[test]
fn power_absent_differs_from_empty_power() {
    let absent = Card::parse(&parse(&card_json("Austere Command", ""))).unwrap();
    let empty = Card::parse(&parse(&card_json("Austere Command", r#","power":"""#))).unwrap();
    let null = Card::parse(&parse(&card_json("Austere Command", r#","power":null"#))).unwrap();
    assert_eq!(absent.power, None);
    assert_eq!(null.power, None);
    assert_eq!(empty.power, Some(String::new()));
    assert_ne!(absent.power, empty.power);
}

#[test]
fn power_stays_text() {
    let card = Card::parse(&parse(&card_json("Tarmogoyf", r#","power":"*","toughness":"1+*","loyalty":"X""#))).unwrap();
    assert_eq!(card.power, Some("*".to_string()));
    assert_eq!(card.toughness, Some("1+*".to_string()));
    assert_eq!(card.loyalty, Some("X".to_string()));
}

#[test]
fn numeric_power_is_rejected() {
    let r = Card::parse(&parse(&card_json("Grizzly Bears", r#","power":2"#)));
    assert_eq!(r.unwrap_err(), DecodeError::InvalidField("power".to_string()));
}

#[test]
fn absent_mana_cost_differs_from_empty() {
    let text = card_json("Ancestral Vision", "").replace(r#""mana_cost":"{4}{W}{W}","#, "");
    let absent = Card::parse(&parse(&text)).unwrap();
    assert_eq!(absent.mana_cost, None);
    let text = card_json("Ancestral Vision", "").replace("{4}{W}{W}", "");
    let empty = Card::parse(&parse(&text)).unwrap();
    assert_eq!(empty.mana_cost, Some(String::new()));
}

#[test]
fn fractional_cmc_is_kept() {
    let text = card_json("Little Girl", "").replace(r#""cmc":6"#, r#""cmc":0.5"#);
    let card = Card::parse(&parse(&text)).unwrap();
    assert_eq!(card.cmc, ManaValue { digits: 5, decimals: 1 });
}

#[test]
fn negative_cmc_is_rejected() {
    let text = card_json("Nothing", "").replace(r#""cmc":6"#, r#""cmc":-1"#);
    assert_eq!(Card::parse(&parse(&text)).unwrap_err(), DecodeError::InvalidField("cmc".to_string()));
}

#[test]
fn colors_default_to_empty() {
    let text = card_json("Ornithopter", "")
        .replace(r#""colors":["W"],"#, "")
        .replace(r#""color_identity":["W"],"#, r#""color_identity":null,"#);
    let card = Card::parse(&parse(&text)).unwrap();
    assert!(card.colors.is_empty());
    assert!(card.color_identity.is_empty());
    assert_eq!(card.color_indicator, None);
}

#[test]
fn color_of_wrong_type_is_rejected() {
    let text = card_json("Odd", "").replace(r#""colors":["W"]"#, r#""colors":["W",1]"#);
    assert_eq!(Card::parse(&parse(&text)).unwrap_err(), DecodeError::InvalidField("colors".to_string()));
}

#[test]
fn missing_legalities_is_rejected() {
    let text = card_json("Odd", "").replace(r#""legalities":{"standard":"not_legal","modern":"legal"},"#, "");
    assert_eq!(
        Card::parse(&parse(&text)).unwrap_err(),
        DecodeError::MissingField("legalities".to_string())
    );
}

#[test]
fn mtgo_id_out_of_range_is_rejected() {
    let text = card_json("Odd", "").replace("36472", "9223372036854775808");
    assert_eq!(Card::parse(&parse(&text)).unwrap_err(), DecodeError::InvalidField("mtgo_id".to_string()));
}

#[test]
fn negative_mtgo_id_is_read() {
    let text = card_json("Odd", "").replace("36472", "-9223372036854775808");
    assert_eq!(Card::parse(&parse(&text)).unwrap().mtgo_id, Some(i64::MIN));
}

#[test]
fn image_uri_by_rendition() {
    let card = Card::parse(&parse(&card_json("Austere Command", ""))).unwrap();
    assert_eq!(card.image_uri(ImageVersion::Normal), Some("https://img.example/n.jpg".to_string()));
    assert_eq!(card.image_uri(ImageVersion::Small), Some("https://img.example/s.jpg".to_string()));
    assert_eq!(card.image_uri(ImageVersion::ArtCrop), None);
    assert_eq!(ImageVersion::BorderCrop.as_key(), "border_crop");
}

#[test]
fn catalog_parse() {
    let text = r#"{"object":"catalog","uri":"https://api.example/catalog/powers","total_values":3,"data":["*","0","1"]}"#;
    let catalog = Catalog::parse(&parse(text)).unwrap();
    assert_eq!(catalog.data, vec!["*".to_string(), "0".to_string(), "1".to_string()]);
    let r = Catalog::parse(&parse(r#"{"object":"catalog"}"#));
    assert_eq!(r.unwrap_err(), DecodeError::MissingField("data".to_string()));
}

#[test]
fn repeated_legality_name_is_rejected() {
    let mut j = parse(&card_json("Austere Command", ""));
    if let Json::Object(members) = &mut j {
        for (name, value) in members.iter_mut() {
            if name == "legalities" {
                *value = Json::Object(vec![
                    ("modern".to_string(), Json::Str("legal".to_string())),
                    ("modern".to_string(), Json::Str("banned".to_string())),
                ]);
            }
        }
    }
    assert_eq!(Card::parse(&j).unwrap_err(), DecodeError::InvalidField("legalities".to_string()));
}

#[test]
fn set_missing_code_names_code_before_later_fields() {
    let text = set_json("zen", "Zendikar")
        .replace(r#""code":"zen","#, "")
        .replace(r#""name":"Zendikar","#, "");
    assert_eq!(CardSet::parse(&parse(&text)).unwrap_err(), DecodeError::MissingField("code".to_string()));
}
