use scryfall::requests::{
    CardAutoComplete, CardInSet, CardMtgo, CardMultiverse, CardNamed, CardRandom, CardScryfall,
    CardSearch, CardSearchOptions, CardSearchQuery, CardSymbols, Cards, CatalogCardNames,
    CatalogCreatureTypes, CatalogEnchantmentTypes, CatalogLandTypes, CatalogLoyalties,
    CatalogPlaneswalkerTypes, CatalogPowers, CatalogSpellTypes, CatalogToughnesses,
    CatalogWatermarks, CatalogWordBank, Endpoint, Exact, ParseMana, RulingsInSet, RulingsMtgo,
    RulingsMultiverse, RulingsScryfall, SearchOrdering, SearchOrderingDirection,
    SearchUniquenessMode, SetByCode, Sets,
};

#[test]
fn fixed_paths() {
    assert_eq!(Sets.path(), "/sets");
    assert_eq!(Cards.path(), "/cards");
    assert_eq!(CardRandom.path(), "/cards/random");
    assert_eq!(CardSymbols.path(), "/symbology");
    assert_eq!(CatalogCardNames.path(), "/catalog/card-names");
    assert_eq!(CatalogWordBank.path(), "/catalog/word-bank");
    assert_eq!(CatalogCreatureTypes.path(), "/catalog/creature-types");
    assert_eq!(CatalogPlaneswalkerTypes.path(), "/catalog/planeswalker-types");
    assert_eq!(CatalogLandTypes.path(), "/catalog/land-types");
    assert_eq!(CatalogEnchantmentTypes.path(), "/catalog/enchantment-types");
    assert_eq!(CatalogSpellTypes.path(), "/catalog/spell-types");
    assert_eq!(CatalogPowers.path(), "/catalog/powers");
    assert_eq!(CatalogToughnesses.path(), "/catalog/toughnesses");
    assert_eq!(CatalogLoyalties.path(), "/catalog/loyalties");
    assert_eq!(CatalogWatermarks.path(), "/catalog/watermarks");
}

#[test]
fn paths_with_ids() {
    assert_eq!(SetByCode("zen".to_string()).path(), "/sets/zen");
    assert_eq!(CardMultiverse(205387).path(), "/cards/multiverse/205387");
    assert_eq!(CardMtgo(0).path(), "/cards/mtgo/0");
    assert_eq!(CardMtgo(-12).path(), "/cards/mtgo/-12");
    assert_eq!(CardMtgo(i64::MIN).path(), "/cards/mtgo/-9223372036854775808");
    assert_eq!(CardInSet("lrw".to_string(), 4).path(), "/cards/lrw/4");
    assert_eq!(CardScryfall("abc-123".to_string()).path(), "/cards/abc-123");
    assert_eq!(RulingsMultiverse(3255).path(), "/cards/multiverse/3255/rulings");
    assert_eq!(RulingsMtgo(57934).path(), "/cards/mtgo/57934/rulings");
    assert_eq!(RulingsInSet("ima".to_string(), 65).path(), "/cards/ima/65/rulings");
    assert_eq!(RulingsScryfall("f2b9".to_string()).path(), "/cards/f2b9/rulings");
}

#[test]
fn empty_set_code_is_encoded_as_given() {
    assert_eq!(SetByCode(String::new()).path(), "/sets/");
}

#[test]
fn named_card_paths() {
    assert_eq!(
        CardNamed("aust com".to_string(), Exact::Fuzzy).path(),
        "/cards/named?fuzzy=aust%20com"
    );
    assert_eq!(
        CardNamed("Austere Command".to_string(), Exact::Exact).path(),
        "/cards/named?exact=Austere%20Command"
    );
}

#[test]
fn reserved_characters_are_escaped() {
    let p = CardAutoComplete("a&b=c?d#e+f/g h".to_string()).path();
    assert_eq!(p, "/cards/autocomplete?q=a%26b%3Dc%3Fd%23e%2Bf%2Fg%20h");
    let value = &p["/cards/autocomplete?q=".len()..];
    for c in ['&', '=', '?', '#', '+', '/', ' '] {
        assert!(!value.contains(c));
    }
}

#[test]
fn non_ascii_is_escaped_by_bytes() {
    assert_eq!(ParseMana("{2}é".to_string()).path(), "/symbology/parse-mana?cost=%7B2%7D%C3%A9");
    assert_eq!(CardAutoComplete("Æther*-._".to_string()).path(), "/cards/autocomplete?q=%C3%86ther*-._");
}

#[test]
fn search_with_default_options() {
    let options = CardSearchOptions::default();
    assert_eq!(options.uniqueness, SearchUniquenessMode::Cards);
    assert_eq!(options.ordering, SearchOrdering::Name);
    assert_eq!(options.ordering_direction, SearchOrderingDirection::Auto);
    let req = CardSearch(CardSearchQuery::from("t:goblin c>=r".to_string()), options);
    assert_eq!(req.path(), "/cards/search?q=t%3Agoblin%20c%3E%3Dr&unique=cards&order=name&dir=auto");
}

#[test]
fn search_with_chosen_options() {
    let options = CardSearchOptions {
        uniqueness: SearchUniquenessMode::Arts,
        ordering: SearchOrdering::SetNumber,
        ordering_direction: SearchOrderingDirection::Desc,
    };
    let req = CardSearch(CardSearchQuery::from("bolt".to_string()), options);
    assert_eq!(req.path(), "/cards/search?q=bolt&unique=art&order=set&dir=desc");
    assert_eq!(SearchOrdering::USD.as_param(), "usd");
    assert_eq!(SearchOrdering::Edhrec.as_param(), "edhrec");
    assert_eq!(SearchUniquenessMode::Prints.as_param(), "prints");
    assert_eq!(SearchOrderingDirection::Asc.as_param(), "asc");
}

#[test]
fn encoding_twice_gives_the_same_target() {
    let a = CardSearch(CardSearchQuery::from("o:\"draw a card\" & more".to_string()), CardSearchOptions::default());
    assert_eq!(a.path(), a.path());
    let b = CardNamed("Jace, the Mind Sculptor".to_string(), Exact::Exact);
    assert_eq!(b.path(), b.path());
    assert_eq!(CardInSet("m19".to_string(), 7).path(), CardInSet("m19".to_string(), 7).path());
}

#[test]
fn search_text_with_reserved_characters() {
    let req = CardSearch(CardSearchQuery::from("a&b=c?d e".to_string()), CardSearchOptions::default());
    assert_eq!(req.path(), "/cards/search?q=a%26b%3Dc%3Fd%20e&unique=cards&order=name&dir=auto");
}

#[test]
fn plus_in_text_is_escaped() {
    assert_eq!(CardNamed("+2 Mace".to_string(), Exact::Exact).path(), "/cards/named?exact=%2B2%20Mace");
    assert_eq!(ParseMana("{W}+{U}".to_string()).path(), "/symbology/parse-mana?cost=%7BW%7D%2B%7BU%7D");
}
