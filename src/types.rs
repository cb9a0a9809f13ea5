//! The records that the API returns, and how each decodes from a JSON tree.
use vstd::prelude::*;
use crate::json::{
    DecodeError, Json, field, field_error, is_object, get_field, is_absent, optional_ok, string_of,
    integer_of, decimal_of, string_list_ok, string_list_matches, strings_match, u64s_match, members_match, u64_list_ok,
    u64_list_matches, all_strings, string_map_ok, string_map_matches, read_string, read_optional_string,
    read_bool, read_optional_i64, read_optional_u64, read_optional_u32, read_count, read_decimal,
    read_string_list, read_u64_list, read_string_map,
};

verus! {

/// A record that decodes from a JSON payload.
pub trait ScryfallResponse: Sized {
    /// `j` is a well-formed payload of this record.
    spec fn accepts(j: Json) -> bool;

    /// `v` is the record that the payload `j` holds.
    spec fn decodes_to(j: Json, v: Self) -> bool;

    /// `e` is the error that decoding the ill-formed payload `j` reports:
    /// the one of the first check that fails, in the order the fields are
    /// read, naming the field at fault.
    spec fn rejects_with(j: Json, e: DecodeError) -> bool;

    /// Decodes a payload: the record when `j` is well formed, else an error.
    fn parse(j: &Json) -> (r: Result<Self, DecodeError>)
        ensures
            match r {
                Ok(v) => Self::accepts(*j) && Self::decodes_to(*j, v),
                Err(e) => !Self::accepts(*j) && Self::rejects_with(*j, e),
            },
    ;
}

/// A non-negative decimal: `digits / 10^decimals` (`0.5` is 5 and 1).
#[derive(Debug, Clone, Copy, PartialEq, Eq)]
pub struct ManaValue {
    pub digits: u64,
    pub decimals: usize,
}

/// A set of cards.
#[derive(Debug)]
pub struct CardSet {
    /// Always `set`.
    pub object: String,
    /// The unique three- to five-letter code of this set; never empty.
    pub code: String,
    /// The code of this set on Magic Online, where it differs.
    pub mtgo_code: Option<String>,
    /// The English name of the set.
    pub name: String,
    /// A computer-readable classification of this set.
    pub set_type: String,
    /// The release date, when known.
    pub released_at: Option<String>,
    /// The code of the block this set belongs to, if any.
    pub block_code: Option<String>,
    /// The name of the block this set belongs to, if any.
    pub block: Option<String>,
    /// The code of the parent set, if any.
    pub parent_set_code: Option<String>,
    /// The number of cards in this set; never negative.
    pub card_count: i32,
    /// True if this set was only released on Magic Online.
    pub digital: bool,
    /// True if this set contains only foil cards.
    pub foil_only: bool,
    /// A URI of this set's icon.
    pub icon_svg_uri: String,
    /// An API URI that lists the cards of this set.
    pub search_uri: String,
    /// The page of this set on the website.
    pub scryfall_uri: String,
}

impl ScryfallResponse for CardSet {
    open spec fn accepts(j: Json) -> bool {
        (j is Object)
        && (string_of(field(j, "object"@)) is Some)
        && (string_of(field(j, "code"@)) is Some)
        && (optional_ok(field(j, "mtgo_code"@), string_of(field(j, "mtgo_code"@)) is Some))
        && (string_of(field(j, "name"@)) is Some)
        && (string_of(field(j, "set_type"@)) is Some)
        && (optional_ok(field(j, "released_at"@), string_of(field(j, "released_at"@)) is Some))
        && (optional_ok(field(j, "block_code"@), string_of(field(j, "block_code"@)) is Some))
        && (optional_ok(field(j, "block"@), string_of(field(j, "block"@)) is Some))
        && (optional_ok(field(j, "parent_set_code"@), string_of(field(j, "parent_set_code"@)) is Some))
        && (integer_of(field(j, "card_count"@), 0, i32::MAX as int) is Some)
        && (field(j, "digital"@) matches Some(Json::Bool(_)))
        && (field(j, "foil_only"@) matches Some(Json::Bool(_)))
        && (string_of(field(j, "icon_svg_uri"@)) is Some)
        && (string_of(field(j, "search_uri"@)) is Some)
        && (string_of(field(j, "scryfall_uri"@)) is Some)
        && (string_of(field(j, "code"@)) matches Some(c) && c@.len() > 0)
    }

    open spec fn decodes_to(j: Json, v: CardSet) -> bool {
        (string_of(field(j, "object"@)) == Some(v.object))
        && (string_of(field(j, "code"@)) == Some(v.code))
        && (string_of(field(j, "mtgo_code"@)) == v.mtgo_code)
        && (string_of(field(j, "name"@)) == Some(v.name))
        && (string_of(field(j, "set_type"@)) == Some(v.set_type))
        && (string_of(field(j, "released_at"@)) == v.released_at)
        && (string_of(field(j, "block_code"@)) == v.block_code)
        && (string_of(field(j, "block"@)) == v.block)
        && (string_of(field(j, "parent_set_code"@)) == v.parent_set_code)
        && (integer_of(field(j, "card_count"@), 0, i32::MAX as int) == Some(v.card_count as int))
        && (field(j, "digital"@) == Some(Json::Bool(v.digital)))
        && (field(j, "foil_only"@) == Some(Json::Bool(v.foil_only)))
        && (string_of(field(j, "icon_svg_uri"@)) == Some(v.icon_svg_uri))
        && (string_of(field(j, "search_uri"@)) == Some(v.search_uri))
        && (string_of(field(j, "scryfall_uri"@)) == Some(v.scryfall_uri))
    }

    open spec fn rejects_with(j: Json, e: DecodeError) -> bool {
        if !(j is Object) {
            e == DecodeError::NotAnObject
        } else if !(string_of(field(j, "object"@)) is Some) {
            e.reports(field(j, "object"@), "object"@)
        } else if !(string_of(field(j, "code"@)) is Some) {
            e.reports(field(j, "code"@), "code"@)
        } else if !(string_of(field(j, "code"@)) matches Some(c) && c@.len() > 0) {
            e.reports(field(j, "code"@), "code"@)
        } else if !(optional_ok(field(j, "mtgo_code"@), string_of(field(j, "mtgo_code"@)) is Some)) {
            e.reports(field(j, "mtgo_code"@), "mtgo_code"@)
        } else if !(string_of(field(j, "name"@)) is Some) {
            e.reports(field(j, "name"@), "name"@)
        } else if !(string_of(field(j, "set_type"@)) is Some) {
            e.reports(field(j, "set_type"@), "set_type"@)
        } else if !(optional_ok(field(j, "released_at"@), string_of(field(j, "released_at"@)) is Some)) {
            e.reports(field(j, "released_at"@), "released_at"@)
        } else if !(optional_ok(field(j, "block_code"@), string_of(field(j, "block_code"@)) is Some)) {
            e.reports(field(j, "block_code"@), "block_code"@)
        } else if !(optional_ok(field(j, "block"@), string_of(field(j, "block"@)) is Some)) {
            e.reports(field(j, "block"@), "block"@)
        } else if !(optional_ok(field(j, "parent_set_code"@), string_of(field(j, "parent_set_code"@)) is Some)) {
            e.reports(field(j, "parent_set_code"@), "parent_set_code"@)
        } else if !(integer_of(field(j, "card_count"@), 0, i32::MAX as int) is Some) {
            e.reports(field(j, "card_count"@), "card_count"@)
        } else if !(field(j, "digital"@) matches Some(Json::Bool(_))) {
            e.reports(field(j, "digital"@), "digital"@)
        } else if !(field(j, "foil_only"@) matches Some(Json::Bool(_))) {
            e.reports(field(j, "foil_only"@), "foil_only"@)
        } else if !(string_of(field(j, "icon_svg_uri"@)) is Some) {
            e.reports(field(j, "icon_svg_uri"@), "icon_svg_uri"@)
        } else if !(string_of(field(j, "search_uri"@)) is Some) {
            e.reports(field(j, "search_uri"@), "search_uri"@)
        } else if !(string_of(field(j, "scryfall_uri"@)) is Some) {
            e.reports(field(j, "scryfall_uri"@), "scryfall_uri"@)
        } else {
            false
        }
    }


    fn parse(j: &Json) -> (r: Result<CardSet, DecodeError>) {
        if !is_object(j) {
            return Err(DecodeError::NotAnObject);
        }
        let object = read_string(j, "object")?;
        let code = read_string(j, "code")?;
        if code.as_str().unicode_len() == 0 {
            return Err(DecodeError::InvalidField("code".to_owned()));
        }
        let mtgo_code = read_optional_string(j, "mtgo_code")?;
        let name = read_string(j, "name")?;
        let set_type = read_string(j, "set_type")?;
        let released_at = read_optional_string(j, "released_at")?;
        let block_code = read_optional_string(j, "block_code")?;
        let block = read_optional_string(j, "block")?;
        let parent_set_code = read_optional_string(j, "parent_set_code")?;
        let card_count = read_count(j, "card_count")?;
        let digital = read_bool(j, "digital")?;
        let foil_only = read_bool(j, "foil_only")?;
        let icon_svg_uri = read_string(j, "icon_svg_uri")?;
        let search_uri = read_string(j, "search_uri")?;
        let scryfall_uri = read_string(j, "scryfall_uri")?;
        Ok(CardSet {
            object,
            code,
            mtgo_code,
            name,
            set_type,
            released_at,
            block_code,
            block,
            parent_set_code,
            card_count,
            digital,
            foil_only,
            icon_svg_uri,
            search_uri,
            scryfall_uri,
        })
    }
}

/// A card, one printing of it.
#[derive(Debug)]
pub struct Card {
    /// A unique ID for this card in the database.
    pub id: String,
    /// The ID of this card's oracle identity, the same across reprints.
    pub oracle_id: String,
    /// This card's multiverse IDs on Gatherer, if any.
    pub multiverse_ids: Option<Vec<u64>>,
    /// This card's Magic Online ID, if any.
    pub mtgo_id: Option<i64>,
    /// This card's foil Magic Online ID, if any.
    pub mtgo_foil_id: Option<i64>,
    /// A link to this card object on the API.
    pub uri: String,
    /// A link to this card's page on the website.
    pub scryfall_uri: String,
    /// A link that lists all prints of this card.
    pub prints_search_uri: String,
    /// A link to this card's rulings.
    pub rulings_uri: String,
    /// The name of this card; faces are separated by ` // `.
    pub name: String,
    /// A computer-readable designation of this card's layout.
    pub layout: String,
    /// The converted mana cost; never negative, and may be fractional.
    pub cmc: ManaValue,
    /// The type line of this card.
    pub type_line: String,
    /// The Oracle text of this card, if any.
    pub oracle_text: Option<String>,
    /// The mana cost; `Some("")` for an empty cost, `None` when the field is absent.
    pub mana_cost: Option<String>,
    /// The power, if any; not always numeric (`*`).
    pub power: Option<String>,
    /// The toughness, if any; not always numeric (`*`).
    pub toughness: Option<String>,
    /// The loyalty, if any; not always numeric (`X`).
    pub loyalty: Option<String>,
    /// The life modifier of a Vanguard card.
    pub life_modifier: Option<String>,
    /// The hand modifier of a Vanguard card.
    pub hand_modifier: Option<String>,
    /// This card's colors; empty when the payload gives none.
    pub colors: Vec<String>,
    /// The colors of this card's color indicator, if it has one.
    pub color_indicator: Option<Vec<String>>,
    /// This card's color identity; empty when the payload gives none.
    pub color_identity: Vec<String>,
    /// Cards closely related to this one, if any.
    pub all_parts: Option<Vec<String>>,
    /// The faces of a multifaced card, if any.
    pub card_faces: Option<Vec<String>>,
    /// The legality of this card in each format, by format name.
    pub legalities: Vec<(String, String)>,
    /// True if this card is on the Reserved List.
    pub reserved: bool,
    /// This card's rank on EDHREC, if ranked.
    pub edhrec_rank: Option<i64>,
    /// The code of this card's set.
    pub set: String,
    /// The full name of this card's set.
    pub set_name: String,
    /// This card's collector number; it may hold non-digits.
    pub collector_number: String,
    /// A link that lists the cards of this card's set.
    pub set_search_uri: String,
    /// A link to this card's set on the website.
    pub scryfall_set_uri: String,
    /// Links to this card's images, by rendition name, if any.
    pub image_uris: Option<Vec<(String, String)>>,
    /// True if this card's imagery is high resolution.
    pub highres_image: bool,
    /// True if this card is a reprint.
    pub reprint: bool,
    /// True if this is a digital card on Magic Online.
    pub digital: bool,
    /// This card's rarity.
    pub rarity: String,
    /// The flavor text, if any.
    pub flavor_text: Option<String>,
    /// The illustrator, if known.
    pub artist: Option<String>,
    /// An ID of the artwork that stays the same across reprints, if known.
    pub illustration_id: Option<String>,
    /// This card's frame layout.
    pub frame: String,
    /// True if this card's artwork is larger than normal.
    pub full_art: bool,
    /// This card's watermark, if any.
    pub watermark: Option<String>,
    /// This card's border color.
    pub border_color: String,
    /// This card's story spotlight number, if any.
    pub story_spotlight_number: Option<u64>,
    /// A link to this card's story article, if any.
    pub story_spotlight_uri: Option<String>,
    /// True if this card is timeshifted.
    pub timeshifted: bool,
    /// True if this card is colorshifted.
    pub colorshifted: bool,
    /// True if this card is from the future.
    pub futureshifted: bool,
}

impl ScryfallResponse for Card {
    open spec fn accepts(j: Json) -> bool {
        (j is Object)
        && (string_of(field(j, "id"@)) is Some)
        && (string_of(field(j, "oracle_id"@)) is Some)
        && (u64_list_ok(field(j, "multiverse_ids"@)))
        && (optional_ok(field(j, "mtgo_id"@), integer_of(field(j, "mtgo_id"@), i64::MIN as int, i64::MAX as int) is Some))
        && (optional_ok(field(j, "mtgo_foil_id"@), integer_of(field(j, "mtgo_foil_id"@), i64::MIN as int, i64::MAX as int) is Some))
        && (string_of(field(j, "uri"@)) is Some)
        && (string_of(field(j, "scryfall_uri"@)) is Some)
        && (string_of(field(j, "prints_search_uri"@)) is Some)
        && (string_of(field(j, "rulings_uri"@)) is Some)
        && (string_of(field(j, "name"@)) is Some)
        && (string_of(field(j, "layout"@)) is Some)
        && (decimal_of(field(j, "cmc"@)) is Some)
        && (string_of(field(j, "type_line"@)) is Some)
        && (optional_ok(field(j, "oracle_text"@), string_of(field(j, "oracle_text"@)) is Some))
        && (optional_ok(field(j, "mana_cost"@), string_of(field(j, "mana_cost"@)) is Some))
        && (optional_ok(field(j, "power"@), string_of(field(j, "power"@)) is Some))
        && (optional_ok(field(j, "toughness"@), string_of(field(j, "toughness"@)) is Some))
        && (optional_ok(field(j, "loyalty"@), string_of(field(j, "loyalty"@)) is Some))
        && (optional_ok(field(j, "life_modifier"@), string_of(field(j, "life_modifier"@)) is Some))
        && (optional_ok(field(j, "hand_modifier"@), string_of(field(j, "hand_modifier"@)) is Some))
        && (string_list_ok(field(j, "colors"@)))
        && (string_list_ok(field(j, "color_indicator"@)))
        && (string_list_ok(field(j, "color_identity"@)))
        && (string_list_ok(field(j, "all_parts"@)))
        && (string_list_ok(field(j, "card_faces"@)))
        && (field(j, "legalities"@) matches Some(Json::Object(_)) && string_map_ok(field(j, "legalities"@)))
        && (field(j, "reserved"@) matches Some(Json::Bool(_)))
        && (optional_ok(field(j, "edhrec_rank"@), integer_of(field(j, "edhrec_rank"@), i64::MIN as int, i64::MAX as int) is Some))
        && (string_of(field(j, "set"@)) is Some)
        && (string_of(field(j, "set_name"@)) is Some)
        && (string_of(field(j, "collector_number"@)) is Some)
        && (string_of(field(j, "set_search_uri"@)) is Some)
        && (string_of(field(j, "scryfall_set_uri"@)) is Some)
        && (string_map_ok(field(j, "image_uris"@)))
        && (field(j, "highres_image"@) matches Some(Json::Bool(_)))
        && (field(j, "reprint"@) matches Some(Json::Bool(_)))
        && (field(j, "digital"@) matches Some(Json::Bool(_)))
        && (string_of(field(j, "rarity"@)) is Some)
        && (optional_ok(field(j, "flavor_text"@), string_of(field(j, "flavor_text"@)) is Some))
        && (optional_ok(field(j, "artist"@), string_of(field(j, "artist"@)) is Some))
        && (optional_ok(field(j, "illustration_id"@), string_of(field(j, "illustration_id"@)) is Some))
        && (string_of(field(j, "frame"@)) is Some)
        && (field(j, "full_art"@) matches Some(Json::Bool(_)))
        && (optional_ok(field(j, "watermark"@), string_of(field(j, "watermark"@)) is Some))
        && (string_of(field(j, "border_color"@)) is Some)
        && (optional_ok(field(j, "story_spotlight_number"@), integer_of(field(j, "story_spotlight_number"@), 0, u64::MAX as int) is Some))
        && (optional_ok(field(j, "story_spotlight_uri"@), string_of(field(j, "story_spotlight_uri"@)) is Some))
        && (field(j, "timeshifted"@) matches Some(Json::Bool(_)))
        && (field(j, "colorshifted"@) matches Some(Json::Bool(_)))
        && (field(j, "futureshifted"@) matches Some(Json::Bool(_)))
    }

    open spec fn decodes_to(j: Json, v: Card) -> bool {
        (string_of(field(j, "id"@)) == Some(v.id))
        && (string_of(field(j, "oracle_id"@)) == Some(v.oracle_id))
        && (u64_list_matches(field(j, "multiverse_ids"@), v.multiverse_ids))
        && (match v.mtgo_id { Some(n) => integer_of(field(j, "mtgo_id"@), i64::MIN as int, i64::MAX as int) == Some(n as int), None => is_absent(field(j, "mtgo_id"@)) })
        && (match v.mtgo_foil_id { Some(n) => integer_of(field(j, "mtgo_foil_id"@), i64::MIN as int, i64::MAX as int) == Some(n as int), None => is_absent(field(j, "mtgo_foil_id"@)) })
        && (string_of(field(j, "uri"@)) == Some(v.uri))
        && (string_of(field(j, "scryfall_uri"@)) == Some(v.scryfall_uri))
        && (string_of(field(j, "prints_search_uri"@)) == Some(v.prints_search_uri))
        && (string_of(field(j, "rulings_uri"@)) == Some(v.rulings_uri))
        && (string_of(field(j, "name"@)) == Some(v.name))
        && (string_of(field(j, "layout"@)) == Some(v.layout))
        && (decimal_of(field(j, "cmc"@)) == Some((v.cmc.digits as int, v.cmc.decimals as nat)))
        && (string_of(field(j, "type_line"@)) == Some(v.type_line))
        && (string_of(field(j, "oracle_text"@)) == v.oracle_text)
        && (string_of(field(j, "mana_cost"@)) == v.mana_cost)
        && (string_of(field(j, "power"@)) == v.power)
        && (string_of(field(j, "toughness"@)) == v.toughness)
        && (string_of(field(j, "loyalty"@)) == v.loyalty)
        && (string_of(field(j, "life_modifier"@)) == v.life_modifier)
        && (string_of(field(j, "hand_modifier"@)) == v.hand_modifier)
        && (match field(j, "colors"@) { Some(Json::Array(a)) => strings_match(a@, v.colors@), _ => v.colors@.len() == 0 })
        && (string_list_matches(field(j, "color_indicator"@), v.color_indicator))
        && (match field(j, "color_identity"@) { Some(Json::Array(a)) => strings_match(a@, v.color_identity@), _ => v.color_identity@.len() == 0 })
        && (string_list_matches(field(j, "all_parts"@), v.all_parts))
        && (string_list_matches(field(j, "card_faces"@), v.card_faces))
        && (string_map_matches(field(j, "legalities"@), Some(v.legalities)))
        && (field(j, "reserved"@) == Some(Json::Bool(v.reserved)))
        && (match v.edhrec_rank { Some(n) => integer_of(field(j, "edhrec_rank"@), i64::MIN as int, i64::MAX as int) == Some(n as int), None => is_absent(field(j, "edhrec_rank"@)) })
        && (string_of(field(j, "set"@)) == Some(v.set))
        && (string_of(field(j, "set_name"@)) == Some(v.set_name))
        && (string_of(field(j, "collector_number"@)) == Some(v.collector_number))
        && (string_of(field(j, "set_search_uri"@)) == Some(v.set_search_uri))
        && (string_of(field(j, "scryfall_set_uri"@)) == Some(v.scryfall_set_uri))
        && (string_map_matches(field(j, "image_uris"@), v.image_uris))
        && (field(j, "highres_image"@) == Some(Json::Bool(v.highres_image)))
        && (field(j, "reprint"@) == Some(Json::Bool(v.reprint)))
        && (field(j, "digital"@) == Some(Json::Bool(v.digital)))
        && (string_of(field(j, "rarity"@)) == Some(v.rarity))
        && (string_of(field(j, "flavor_text"@)) == v.flavor_text)
        && (string_of(field(j, "artist"@)) == v.artist)
        && (string_of(field(j, "illustration_id"@)) == v.illustration_id)
        && (string_of(field(j, "frame"@)) == Some(v.frame))
        && (field(j, "full_art"@) == Some(Json::Bool(v.full_art)))
        && (string_of(field(j, "watermark"@)) == v.watermark)
        && (string_of(field(j, "border_color"@)) == Some(v.border_color))
        && (match v.story_spotlight_number { Some(n) => integer_of(field(j, "story_spotlight_number"@), 0, u64::MAX as int) == Some(n as int), None => is_absent(field(j, "story_spotlight_number"@)) })
        && (string_of(field(j, "story_spotlight_uri"@)) == v.story_spotlight_uri)
        && (field(j, "timeshifted"@) == Some(Json::Bool(v.timeshifted)))
        && (field(j, "colorshifted"@) == Some(Json::Bool(v.colorshifted)))
        && (field(j, "futureshifted"@) == Some(Json::Bool(v.futureshifted)))
    }

    open spec fn rejects_with(j: Json, e: DecodeError) -> bool {
        if !(j is Object) {
            e == DecodeError::NotAnObject
        } else if !(string_of(field(j, "id"@)) is Some) {
            e.reports(field(j, "id"@), "id"@)
        } else if !(string_of(field(j, "oracle_id"@)) is Some) {
            e.reports(field(j, "oracle_id"@), "oracle_id"@)
        } else if !(u64_list_ok(field(j, "multiverse_ids"@))) {
            e.reports(field(j, "multiverse_ids"@), "multiverse_ids"@)
        } else if !(optional_ok(field(j, "mtgo_id"@), integer_of(field(j, "mtgo_id"@), i64::MIN as int, i64::MAX as int) is Some)) {
            e.reports(field(j, "mtgo_id"@), "mtgo_id"@)
        } else if !(optional_ok(field(j, "mtgo_foil_id"@), integer_of(field(j, "mtgo_foil_id"@), i64::MIN as int, i64::MAX as int) is Some)) {
            e.reports(field(j, "mtgo_foil_id"@), "mtgo_foil_id"@)
        } else if !(string_of(field(j, "uri"@)) is Some) {
            e.reports(field(j, "uri"@), "uri"@)
        } else if !(string_of(field(j, "scryfall_uri"@)) is Some) {
            e.reports(field(j, "scryfall_uri"@), "scryfall_uri"@)
        } else if !(string_of(field(j, "prints_search_uri"@)) is Some) {
            e.reports(field(j, "prints_search_uri"@), "prints_search_uri"@)
        } else if !(string_of(field(j, "rulings_uri"@)) is Some) {
            e.reports(field(j, "rulings_uri"@), "rulings_uri"@)
        } else if !(string_of(field(j, "name"@)) is Some) {
            e.reports(field(j, "name"@), "name"@)
        } else if !(string_of(field(j, "layout"@)) is Some) {
            e.reports(field(j, "layout"@), "layout"@)
        } else if !(decimal_of(field(j, "cmc"@)) is Some) {
            e.reports(field(j, "cmc"@), "cmc"@)
        } else if !(string_of(field(j, "type_line"@)) is Some) {
            e.reports(field(j, "type_line"@), "type_line"@)
        } else if !(optional_ok(field(j, "oracle_text"@), string_of(field(j, "oracle_text"@)) is Some)) {
            e.reports(field(j, "oracle_text"@), "oracle_text"@)
        } else if !(optional_ok(field(j, "mana_cost"@), string_of(field(j, "mana_cost"@)) is Some)) {
            e.reports(field(j, "mana_cost"@), "mana_cost"@)
        } else if !(optional_ok(field(j, "power"@), string_of(field(j, "power"@)) is Some)) {
            e.reports(field(j, "power"@), "power"@)
        } else if !(optional_ok(field(j, "toughness"@), string_of(field(j, "toughness"@)) is Some)) {
            e.reports(field(j, "toughness"@), "toughness"@)
        } else if !(optional_ok(field(j, "loyalty"@), string_of(field(j, "loyalty"@)) is Some)) {
            e.reports(field(j, "loyalty"@), "loyalty"@)
        } else if !(optional_ok(field(j, "life_modifier"@), string_of(field(j, "life_modifier"@)) is Some)) {
            e.reports(field(j, "life_modifier"@), "life_modifier"@)
        } else if !(optional_ok(field(j, "hand_modifier"@), string_of(field(j, "hand_modifier"@)) is Some)) {
            e.reports(field(j, "hand_modifier"@), "hand_modifier"@)
        } else if !(string_list_ok(field(j, "colors"@))) {
            e.reports(field(j, "colors"@), "colors"@)
        } else if !(string_list_ok(field(j, "color_indicator"@))) {
            e.reports(field(j, "color_indicator"@), "color_indicator"@)
        } else if !(string_list_ok(field(j, "color_identity"@))) {
            e.reports(field(j, "color_identity"@), "color_identity"@)
        } else if !(string_list_ok(field(j, "all_parts"@))) {
            e.reports(field(j, "all_parts"@), "all_parts"@)
        } else if !(string_list_ok(field(j, "card_faces"@))) {
            e.reports(field(j, "card_faces"@), "card_faces"@)
        } else if !(field(j, "legalities"@) matches Some(Json::Object(_)) && string_map_ok(field(j, "legalities"@))) {
            e.reports(field(j, "legalities"@), "legalities"@)
        } else if !(field(j, "reserved"@) matches Some(Json::Bool(_))) {
            e.reports(field(j, "reserved"@), "reserved"@)
        } else if !(optional_ok(field(j, "edhrec_rank"@), integer_of(field(j, "edhrec_rank"@), i64::MIN as int, i64::MAX as int) is Some)) {
            e.reports(field(j, "edhrec_rank"@), "edhrec_rank"@)
        } else if !(string_of(field(j, "set"@)) is Some) {
            e.reports(field(j, "set"@), "set"@)
        } else if !(string_of(field(j, "set_name"@)) is Some) {
            e.reports(field(j, "set_name"@), "set_name"@)
        } else if !(string_of(field(j, "collector_number"@)) is Some) {
            e.reports(field(j, "collector_number"@), "collector_number"@)
        } else if !(string_of(field(j, "set_search_uri"@)) is Some) {
            e.reports(field(j, "set_search_uri"@), "set_search_uri"@)
        } else if !(string_of(field(j, "scryfall_set_uri"@)) is Some) {
            e.reports(field(j, "scryfall_set_uri"@), "scryfall_set_uri"@)
        } else if !(string_map_ok(field(j, "image_uris"@))) {
            e.reports(field(j, "image_uris"@), "image_uris"@)
        } else if !(field(j, "highres_image"@) matches Some(Json::Bool(_))) {
            e.reports(field(j, "highres_image"@), "highres_image"@)
        } else if !(field(j, "reprint"@) matches Some(Json::Bool(_))) {
            e.reports(field(j, "reprint"@), "reprint"@)
        } else if !(field(j, "digital"@) matches Some(Json::Bool(_))) {
            e.reports(field(j, "digital"@), "digital"@)
        } else if !(string_of(field(j, "rarity"@)) is Some) {
            e.reports(field(j, "rarity"@), "rarity"@)
        } else if !(optional_ok(field(j, "flavor_text"@), string_of(field(j, "flavor_text"@)) is Some)) {
            e.reports(field(j, "flavor_text"@), "flavor_text"@)
        } else if !(optional_ok(field(j, "artist"@), string_of(field(j, "artist"@)) is Some)) {
            e.reports(field(j, "artist"@), "artist"@)
        } else if !(optional_ok(field(j, "illustration_id"@), string_of(field(j, "illustration_id"@)) is Some)) {
            e.reports(field(j, "illustration_id"@), "illustration_id"@)
        } else if !(string_of(field(j, "frame"@)) is Some) {
            e.reports(field(j, "frame"@), "frame"@)
        } else if !(field(j, "full_art"@) matches Some(Json::Bool(_))) {
            e.reports(field(j, "full_art"@), "full_art"@)
        } else if !(optional_ok(field(j, "watermark"@), string_of(field(j, "watermark"@)) is Some)) {
            e.reports(field(j, "watermark"@), "watermark"@)
        } else if !(string_of(field(j, "border_color"@)) is Some) {
            e.reports(field(j, "border_color"@), "border_color"@)
        } else if !(optional_ok(field(j, "story_spotlight_number"@), integer_of(field(j, "story_spotlight_number"@), 0, u64::MAX as int) is Some)) {
            e.reports(field(j, "story_spotlight_number"@), "story_spotlight_number"@)
        } else if !(optional_ok(field(j, "story_spotlight_uri"@), string_of(field(j, "story_spotlight_uri"@)) is Some)) {
            e.reports(field(j, "story_spotlight_uri"@), "story_spotlight_uri"@)
        } else if !(field(j, "timeshifted"@) matches Some(Json::Bool(_))) {
            e.reports(field(j, "timeshifted"@), "timeshifted"@)
        } else if !(field(j, "colorshifted"@) matches Some(Json::Bool(_))) {
            e.reports(field(j, "colorshifted"@), "colorshifted"@)
        } else if !(field(j, "futureshifted"@) matches Some(Json::Bool(_))) {
            e.reports(field(j, "futureshifted"@), "futureshifted"@)
        } else {
            false
        }
    }


    #[verifier::rlimit(50)]
    fn parse(j: &Json) -> (r: Result<Card, DecodeError>) {
        if !is_object(j) {
            return Err(DecodeError::NotAnObject);
        }
        let id = read_string(j, "id")?;
        let oracle_id = read_string(j, "oracle_id")?;
        let multiverse_ids = read_u64_list(j, "multiverse_ids")?;
        let mtgo_id = read_optional_i64(j, "mtgo_id")?;
        let mtgo_foil_id = read_optional_i64(j, "mtgo_foil_id")?;
        let uri = read_string(j, "uri")?;
        let scryfall_uri = read_string(j, "scryfall_uri")?;
        let prints_search_uri = read_string(j, "prints_search_uri")?;
        let rulings_uri = read_string(j, "rulings_uri")?;
        let name = read_string(j, "name")?;
        let layout = read_string(j, "layout")?;
        let (digits, decimals) = read_decimal(j, "cmc")?;
        let cmc = ManaValue { digits, decimals };
        let type_line = read_string(j, "type_line")?;
        let oracle_text = read_optional_string(j, "oracle_text")?;
        let mana_cost = read_optional_string(j, "mana_cost")?;
        let power = read_optional_string(j, "power")?;
        let toughness = read_optional_string(j, "toughness")?;
        let loyalty = read_optional_string(j, "loyalty")?;
        let life_modifier = read_optional_string(j, "life_modifier")?;
        let hand_modifier = read_optional_string(j, "hand_modifier")?;
        let colors = match read_string_list(j, "colors")? {
            Some(v) => v,
            None => Vec::new(),
        };
        let color_indicator = read_string_list(j, "color_indicator")?;
        let color_identity = match read_string_list(j, "color_identity")? {
            Some(v) => v,
            None => Vec::new(),
        };
        let all_parts = read_string_list(j, "all_parts")?;
        let card_faces = read_string_list(j, "card_faces")?;
        let legalities = match read_string_map(j, "legalities")? {
            Some(v) => v,
            None => {
                return Err(field_error(get_field(j, "legalities"), "legalities"));
            },
        };
        let reserved = read_bool(j, "reserved")?;
        let edhrec_rank = read_optional_i64(j, "edhrec_rank")?;
        let set = read_string(j, "set")?;
        let set_name = read_string(j, "set_name")?;
        let collector_number = read_string(j, "collector_number")?;
        let set_search_uri = read_string(j, "set_search_uri")?;
        let scryfall_set_uri = read_string(j, "scryfall_set_uri")?;
        let image_uris = read_string_map(j, "image_uris")?;
        let highres_image = read_bool(j, "highres_image")?;
        let reprint = read_bool(j, "reprint")?;
        let digital = read_bool(j, "digital")?;
        let rarity = read_string(j, "rarity")?;
        let flavor_text = read_optional_string(j, "flavor_text")?;
        let artist = read_optional_string(j, "artist")?;
        let illustration_id = read_optional_string(j, "illustration_id")?;
        let frame = read_string(j, "frame")?;
        let full_art = read_bool(j, "full_art")?;
        let watermark = read_optional_string(j, "watermark")?;
        let border_color = read_string(j, "border_color")?;
        let story_spotlight_number = read_optional_u64(j, "story_spotlight_number")?;
        let story_spotlight_uri = read_optional_string(j, "story_spotlight_uri")?;
        let timeshifted = read_bool(j, "timeshifted")?;
        let colorshifted = read_bool(j, "colorshifted")?;
        let futureshifted = read_bool(j, "futureshifted")?;
        Ok(Card {
            id,
            oracle_id,
            multiverse_ids,
            mtgo_id,
            mtgo_foil_id,
            uri,
            scryfall_uri,
            prints_search_uri,
            rulings_uri,
            name,
            layout,
            cmc,
            type_line,
            oracle_text,
            mana_cost,
            power,
            toughness,
            loyalty,
            life_modifier,
            hand_modifier,
            colors,
            color_indicator,
            color_identity,
            all_parts,
            card_faces,
            legalities,
            reserved,
            edhrec_rank,
            set,
            set_name,
            collector_number,
            set_search_uri,
            scryfall_set_uri,
            image_uris,
            highres_image,
            reprint,
            digital,
            rarity,
            flavor_text,
            artist,
            illustration_id,
            frame,
            full_art,
            watermark,
            border_color,
            story_spotlight_number,
            story_spotlight_uri,
            timeshifted,
            colorshifted,
            futureshifted,
        })
    }
}


/// A catalog: an ordered list of names, with no pages.
#[derive(Debug)]
pub struct Catalog {
    /// Always `catalog`.
    pub object: String,
    /// The names, in the order the service gives them.
    pub data: Vec<String>,
}

impl ScryfallResponse for Catalog {
    open spec fn accepts(j: Json) -> bool {
        (j is Object)
        && (string_of(field(j, "object"@)) is Some)
        && (field(j, "data"@) matches Some(Json::Array(a)) && all_strings(a@))
    }

    open spec fn decodes_to(j: Json, v: Catalog) -> bool {
        (string_of(field(j, "object"@)) == Some(v.object))
        && (field(j, "data"@) matches Some(Json::Array(a)) && strings_match(a@, v.data@))
    }

    open spec fn rejects_with(j: Json, e: DecodeError) -> bool {
        if !(j is Object) {
            e == DecodeError::NotAnObject
        } else if !(string_of(field(j, "object"@)) is Some) {
            e.reports(field(j, "object"@), "object"@)
        } else if !(field(j, "data"@) matches Some(Json::Array(a)) && all_strings(a@)) {
            e.reports(field(j, "data"@), "data"@)
        } else {
            false
        }
    }


    fn parse(j: &Json) -> (r: Result<Catalog, DecodeError>) {
        if !is_object(j) {
            return Err(DecodeError::NotAnObject);
        }
        let object = read_string(j, "object")?;
        let data = match read_string_list(j, "data")? {
            Some(v) => v,
            None => {
                return Err(field_error(get_field(j, "data"), "data"));
            },
        };
        Ok(Catalog { object, data })
    }
}

/// One page of a list of records.
#[derive(Debug)]
pub struct ListObject<T> {
    /// Always `list`.
    pub object: String,
    /// True if more pages follow this one.
    pub has_more: bool,
    /// The records of this page, in order.
    pub data: Vec<T>,
    /// The URI of the next page; present whenever `has_more` is true.
    pub next_page: Option<String>,
    /// The total number of records over all pages, when the service gives it.
    pub total: Option<u32>,
    /// Warnings that the service attached to the request, if any.
    pub warnings: Option<Vec<String>>,
}

impl<T> ListObject<T> {
    /// A list that announces more pages says where the next one is.
    pub open spec fn wf(self) -> bool {
        self.has_more ==> self.next_page is Some
    }
}

/// Each of the payloads `a` is a well-formed `T`.
pub open spec fn all_accepted<T: ScryfallResponse>(a: Seq<Json>) -> bool {
    forall|i: int| 0 <= i < a.len() ==> #[trigger] T::accepts(a[i])
}

/// `e` is the error of the first of the payloads `a` that is no well-formed `T`.
pub open spec fn first_rejected<T: ScryfallResponse>(a: Seq<Json>, e: DecodeError) -> bool {
    exists|i: int|
        0 <= i < a.len() && all_accepted::<T>(a.take(i)) && !T::accepts(a[i]) && #[trigger] T::rejects_with(
            a[i],
            e,
        )
}

/// `v` holds the records that the payloads `a` decode to, in order.
pub open spec fn all_decode_to<T: ScryfallResponse>(a: Seq<Json>, v: Seq<T>) -> bool {
    a.len() == v.len() && forall|i: int| 0 <= i < a.len() ==> #[trigger] T::decodes_to(a[i], v[i])
}

impl<T: ScryfallResponse> ScryfallResponse for ListObject<T> {
    open spec fn accepts(j: Json) -> bool {
        (j is Object)
        && (string_of(field(j, "object"@)) is Some)
        && (field(j, "has_more"@) matches Some(Json::Bool(_)))
        && (optional_ok(field(j, "next_page"@), string_of(field(j, "next_page"@)) is Some))
        && (optional_ok(field(j, "total"@), integer_of(field(j, "total"@), 0, u32::MAX as int) is Some))
        && (string_list_ok(field(j, "warnings"@)))
        && (field(j, "data"@) matches Some(Json::Array(a)) && all_accepted::<T>(a@))
        && (field(j, "has_more"@) == Some(Json::Bool(true)) ==> string_of(field(j, "next_page"@)) is Some)
    }

    open spec fn decodes_to(j: Json, v: ListObject<T>) -> bool {
        (string_of(field(j, "object"@)) == Some(v.object))
        && (field(j, "has_more"@) == Some(Json::Bool(v.has_more)))
        && (string_of(field(j, "next_page"@)) == v.next_page)
        && (match v.total { Some(n) => integer_of(field(j, "total"@), 0, u32::MAX as int) == Some(n as int), None => is_absent(field(j, "total"@)) })
        && (string_list_matches(field(j, "warnings"@), v.warnings))
        && (field(j, "data"@) matches Some(Json::Array(a)) && all_decode_to::<T>(a@, v.data@))
    }

    open spec fn rejects_with(j: Json, e: DecodeError) -> bool {
        if !(j is Object) {
            e == DecodeError::NotAnObject
        } else if !(string_of(field(j, "object"@)) is Some) {
            e.reports(field(j, "object"@), "object"@)
        } else if !(field(j, "has_more"@) matches Some(Json::Bool(_))) {
            e.reports(field(j, "has_more"@), "has_more"@)
        } else if !(optional_ok(field(j, "next_page"@), string_of(field(j, "next_page"@)) is Some)) {
            e.reports(field(j, "next_page"@), "next_page"@)
        } else if !(optional_ok(field(j, "total"@), integer_of(field(j, "total"@), 0, u32::MAX as int) is Some)) {
            e.reports(field(j, "total"@), "total"@)
        } else if !(string_list_ok(field(j, "warnings"@))) {
            e.reports(field(j, "warnings"@), "warnings"@)
        } else if field(j, "has_more"@) == Some(Json::Bool(true)) && string_of(field(j, "next_page"@)) is None {
            e matches DecodeError::InvalidField(n) && n@ == "next_page"@
        } else if !(field(j, "data"@) matches Some(Json::Array(_))) {
            e.reports(field(j, "data"@), "data"@)
        } else if field(j, "data"@) matches Some(Json::Array(a)) && !all_accepted::<T>(a@) {
            field(j, "data"@) matches Some(Json::Array(a)) && first_rejected::<T>(a@, e)
        } else {
            false
        }
    }


    fn parse(j: &Json) -> (r: Result<ListObject<T>, DecodeError>) {
        if !is_object(j) {
            return Err(DecodeError::NotAnObject);
        }
        let object = read_string(j, "object")?;
        let has_more = read_bool(j, "has_more")?;
        let next_page = read_optional_string(j, "next_page")?;
        let total = read_optional_u32(j, "total")?;
        let warnings = read_string_list(j, "warnings")?;
        if has_more && next_page.is_none() {
            return Err(DecodeError::InvalidField("next_page".to_owned()));
        }
        let f = get_field(j, "data");
        let data = match f {
            Some(Json::Array(a)) => {
                let mut v: Vec<T> = Vec::new();
                let mut i: usize = 0;
                while i < a.len()
                    invariant
                        field(*j, "data"@) == Some(Json::Array(*a)),
                        *j is Object,
                        string_of(field(*j, "object"@)) is Some,
                        field(*j, "has_more"@) matches Some(Json::Bool(_)),
                        optional_ok(field(*j, "next_page"@), string_of(field(*j, "next_page"@)) is Some),
                        optional_ok(
                            field(*j, "total"@),
                            integer_of(field(*j, "total"@), 0, u32::MAX as int) is Some,
                        ),
                        string_list_ok(field(*j, "warnings"@)),
                        !(field(*j, "has_more"@) == Some(Json::Bool(true)) && string_of(
                            field(*j, "next_page"@),
                        ) is None),
                        i <= a@.len(),
                        all_accepted::<T>(a@.take(i as int)),
                        all_decode_to::<T>(a@.take(i as int), v@),
                    decreases a@.len() - i,
                {
                    match T::parse(&a[i]) {
                        Ok(x) => {
                            v.push(x);
                        },
                        Err(e) => {
                            assert(!T::accepts(a@[i as int]));
                            assert(a@.take(i as int).len() == i);
                            assert(T::rejects_with(a@[i as int], e));
                            return Err(e);
                        },
                    }
                    assert(a@.take(i + 1).drop_last() =~= a@.take(i as int));
                    assert forall|k: int| 0 <= k < i + 1 implies #[trigger] T::accepts(a@.take(i + 1)[k])
                        && T::decodes_to(a@.take(i + 1)[k], v@[k]) by {
                        if k < i {
                            assert(a@.take(i + 1)[k] == a@.take(i as int)[k]);
                        }
                    }
                    i += 1;
                }
                assert(a@.take(a@.len() as int) =~= a@);
                v
            },
            _ => {
                return Err(field_error(f, "data"));
            },
        };
        Ok(ListObject { object, has_more, data, next_page, total, warnings })
    }
}


/// A rendition of a card's image.
#[derive(Debug, Clone, Copy, PartialEq, Eq, Structural)]
pub enum ImageVersion {
    Small,
    Normal,
    Large,
    Png,
    ArtCrop,
    BorderCrop,
}

impl ImageVersion {
    /// The name of this rendition in a card's `image_uris`.
    pub open spec fn key_text(self) -> Seq<char> {
        match self {
            ImageVersion::Small => "small"@,
            ImageVersion::Normal => "normal"@,
            ImageVersion::Large => "large"@,
            ImageVersion::Png => "png"@,
            ImageVersion::ArtCrop => "art_crop"@,
            ImageVersion::BorderCrop => "border_crop"@,
        }
    }

    /// The name of this rendition in a card's `image_uris`.
    pub fn as_key(&self) -> (r: &'static str)
        ensures
            r@ == self.key_text(),
    {
        match self {
            ImageVersion::Small => "small",
            ImageVersion::Normal => "normal",
            ImageVersion::Large => "large",
            ImageVersion::Png => "png",
            ImageVersion::ArtCrop => "art_crop",
            ImageVersion::BorderCrop => "border_crop",
        }
    }
}

/// A face of a card.
#[derive(Debug, Clone, Copy, PartialEq, Eq, Structural)]
pub enum ImageFace {
    Front,
    Back,
}

/// The value of the first pair whose name is `key`.
pub open spec fn find_pair(pairs: Seq<(String, String)>, key: Seq<char>) -> Option<String>
    decreases pairs.len(),
{
    if pairs.len() == 0 {
        None
    } else if pairs[0].0@ == key {
        Some(pairs[0].1)
    } else {
        find_pair(pairs.drop_first(), key)
    }
}

impl Card {
    /// The link to one rendition of this card's image, if the card has it.
    pub fn image_uri(&self, version: ImageVersion) -> (r: Option<String>)
        ensures
            r == match self.image_uris {
                Some(pairs) => find_pair(pairs@, version.key_text()),
                None => None,
            },
    {
        match &self.image_uris {
            None => None,
            Some(pairs) => {
                let key = version.as_key().to_owned();
                let mut i: usize = 0;
                assert(pairs@.subrange(0, pairs@.len() as int) =~= pairs@);
                while i < pairs.len()
                    invariant
                        self.image_uris == Some(*pairs),
                        key@ == version.key_text(),
                        i <= pairs@.len(),
                        find_pair(pairs@.subrange(i as int, pairs@.len() as int), key@)
                            == find_pair(pairs@, key@),
                    decreases pairs@.len() - i,
                {
                    let ghost rest = pairs@.subrange(i as int, pairs@.len() as int);
                    assert(rest.drop_first() =~= pairs@.subrange(i + 1, pairs@.len() as int));
                    assert(rest[0] == pairs@[i as int]);
                    if pairs[i].0 == key {
                        return Some(pairs[i].1.clone());
                    }
                    i += 1;
                }
                None
            },
        }
    }
}

/// The fields that a set payload must hold.
pub open spec fn set_requires(k: Seq<char>) -> bool {
    k == "object"@ || k == "code"@ || k == "name"@ || k == "set_type"@ || k == "card_count"@
        || k == "digital"@ || k == "foil_only"@ || k == "icon_svg_uri"@ || k == "search_uri"@
        || k == "scryfall_uri"@
}

/// The fields that a card payload must hold.
pub open spec fn card_requires(k: Seq<char>) -> bool {
    k == "id"@ || k == "oracle_id"@ || k == "uri"@ || k == "scryfall_uri"@ || k
        == "prints_search_uri"@ || k == "rulings_uri"@ || k == "name"@ || k == "layout"@ || k
        == "cmc"@ || k == "type_line"@ || k == "legalities"@ || k == "reserved"@ || k == "set"@
        || k == "set_name"@ || k == "collector_number"@ || k == "set_search_uri"@ || k
        == "scryfall_set_uri"@ || k == "highres_image"@ || k == "reprint"@ || k == "digital"@
        || k == "rarity"@ || k == "frame"@ || k == "full_art"@ || k == "border_color"@ || k
        == "timeshifted"@ || k == "colorshifted"@ || k == "futureshifted"@
}

/// A payload that lacks a required field is not a well-formed set or card,
/// so decoding it fails rather than fill in a partial record.
pub proof fn lemma_missing_required_field_rejected(j: Json, k: Seq<char>)
    requires
        field(j, k) is None,
    ensures
        set_requires(k) ==> !CardSet::accepts(j),
        card_requires(k) ==> !Card::accepts(j),
{
}

/// Decoding an object that is no well-formed set reports a field at fault:
/// a required one that is absent, or one that holds a wrong value.
pub proof fn lemma_set_rejection_names_field(j: Json, e: DecodeError)
    requires
        j is Object,
        CardSet::rejects_with(j, e),
    ensures
        match e {
            DecodeError::MissingField(n) => set_requires(n@) && field(j, n@) is None,
            DecodeError::InvalidField(n) => field(j, n@) is Some,
            _ => false,
        },
{
}

/// Decoding an object that is no well-formed card reports a field at fault:
/// a required one that is absent, or one that holds a wrong value.
pub proof fn lemma_card_rejection_names_field(j: Json, e: DecodeError)
    requires
        j is Object,
        Card::rejects_with(j, e),
    ensures
        match e {
            DecodeError::MissingField(n) => card_requires(n@) && field(j, n@) is None,
            DecodeError::InvalidField(n) => field(j, n@) is Some,
            _ => false,
        },
{
}

/// A well-formed set payload with one required field taken out decodes to
/// an error that names that field as missing.
pub proof fn lemma_set_without_required_field(j: Json, j2: Json, k: Seq<char>, e: DecodeError)
    requires
        CardSet::accepts(j),
        set_requires(k),
        j2 is Object,
        field(j2, k) is None,
        forall|k2: Seq<char>| k2 != k ==> #[trigger] field(j2, k2) == field(j, k2),
        CardSet::rejects_with(j2, e),
    ensures
        e matches DecodeError::MissingField(n) && n@ == k,
{
    reveal_strlit("object");
    reveal_strlit("code");
    reveal_strlit("mtgo_code");
    reveal_strlit("name");
    reveal_strlit("set_type");
    reveal_strlit("released_at");
    reveal_strlit("block_code");
    reveal_strlit("block");
    reveal_strlit("parent_set_code");
    reveal_strlit("card_count");
    reveal_strlit("digital");
    reveal_strlit("foil_only");
    reveal_strlit("icon_svg_uri");
    reveal_strlit("search_uri");
    reveal_strlit("scryfall_uri");
}

/// A well-formed card payload with one required field taken out decodes
/// to an error that names that field as missing.
#[verifier::rlimit(100)]
pub proof fn lemma_card_without_required_field(j: Json, j2: Json, k: Seq<char>, e: DecodeError)
    requires
        Card::accepts(j),
        card_requires(k),
        j2 is Object,
        field(j2, k) is None,
        forall|k2: Seq<char>| k2 != k ==> #[trigger] field(j2, k2) == field(j, k2),
        Card::rejects_with(j2, e),
    ensures
        e matches DecodeError::MissingField(n) && n@ == k,
{
    reveal_strlit("id");
    reveal_strlit("oracle_id");
    reveal_strlit("multiverse_ids");
    reveal_strlit("mtgo_id");
    reveal_strlit("mtgo_foil_id");
    reveal_strlit("uri");
    reveal_strlit("scryfall_uri");
    reveal_strlit("prints_search_uri");
    reveal_strlit("rulings_uri");
    reveal_strlit("name");
    reveal_strlit("layout");
    reveal_strlit("cmc");
    reveal_strlit("type_line");
    reveal_strlit("oracle_text");
    reveal_strlit("mana_cost");
    reveal_strlit("power");
    reveal_strlit("toughness");
    reveal_strlit("loyalty");
    reveal_strlit("life_modifier");
    reveal_strlit("hand_modifier");
    reveal_strlit("colors");
    reveal_strlit("color_indicator");
    reveal_strlit("color_identity");
    reveal_strlit("all_parts");
    reveal_strlit("card_faces");
    reveal_strlit("legalities");
    reveal_strlit("reserved");
    reveal_strlit("edhrec_rank");
    reveal_strlit("set");
    reveal_strlit("set_name");
    reveal_strlit("collector_number");
    reveal_strlit("set_search_uri");
    reveal_strlit("scryfall_set_uri");
    reveal_strlit("image_uris");
    reveal_strlit("highres_image");
    reveal_strlit("reprint");
    reveal_strlit("digital");
    reveal_strlit("rarity");
    reveal_strlit("flavor_text");
    reveal_strlit("artist");
    reveal_strlit("illustration_id");
    reveal_strlit("frame");
    reveal_strlit("full_art");
    reveal_strlit("watermark");
    reveal_strlit("border_color");
    reveal_strlit("story_spotlight_number");
    reveal_strlit("story_spotlight_uri");
    reveal_strlit("timeshifted");
    reveal_strlit("colorshifted");
    reveal_strlit("futureshifted");
}

/// An absent `power` and an empty one decode apart: the first to no power,
/// the second to the empty text.
pub proof fn lemma_power_absent_differs_from_empty(j1: Json, c1: Card, j2: Json, c2: Card)
    requires
        Card::decodes_to(j1, c1),
        field(j1, "power"@) is None,
        Card::decodes_to(j2, c2),
        field(j2, "power"@) matches Some(Json::Str(p)) && p@.len() == 0,
    ensures
        c1.power is None,
        c2.power matches Some(p) && p@.len() == 0,
        c1.power != c2.power,
{
}

proof fn lemma_strings_match_same(a: Seq<Json>, v: Seq<String>, w: Seq<String>)
    requires
        strings_match(a, v),
        strings_match(a, w),
    ensures
        v == w,
{
    assert forall|i: int| 0 <= i < v.len() implies v[i] == w[i] by {
        assert(a[i] == Json::Str(v[i]));
        assert(a[i] == Json::Str(w[i]));
    }
    assert(v =~= w);
}

proof fn lemma_members_match_same(
    m: Seq<(String, Json)>,
    v: Seq<(String, String)>,
    w: Seq<(String, String)>,
)
    requires
        members_match(m, v),
        members_match(m, w),
    ensures
        v == w,
{
    assert forall|i: int| 0 <= i < v.len() implies v[i] == w[i] by {
        assert(m[i].0 == v[i].0 && m[i].1 == Json::Str(v[i].1));
        assert(m[i].0 == w[i].0 && m[i].1 == Json::Str(w[i].1));
    }
    assert(v =~= w);
}

proof fn lemma_u64s_match_same(a: Seq<Json>, v: Seq<u64>, w: Seq<u64>)
    requires
        u64s_match(a, v),
        u64s_match(a, w),
    ensures
        v == w,
{
    assert forall|i: int| 0 <= i < v.len() implies v[i] == w[i] by {
        assert(integer_of(Some(a[i]), 0, u64::MAX as int) == Some(v[i] as int));
        assert(integer_of(Some(a[i]), 0, u64::MAX as int) == Some(w[i] as int));
    }
    assert(v =~= w);
}

/// Whether `power` is there touches no other field: a payload without it
/// decodes to no power and to the same card as the payload with it in every
/// other field.
#[verifier::rlimit(100)]
pub proof fn lemma_power_absence_is_independent(j: Json, c: Card, j2: Json, c2: Card)
    requires
        Card::decodes_to(j, c),
        Card::decodes_to(j2, c2),
        field(j2, "power"@) is None,
        forall|k: Seq<char>| k != "power"@ ==> #[trigger] field(j2, k) == field(j, k),
    ensures
        c2.power is None,
        c2.id == c.id,
        c2.oracle_id == c.oracle_id,
        match (c.multiverse_ids, c2.multiverse_ids) {
            (Some(x), Some(y)) => x@ == y@,
            (None, None) => true,
            _ => false,
        },
        c2.mtgo_id == c.mtgo_id,
        c2.mtgo_foil_id == c.mtgo_foil_id,
        c2.uri == c.uri,
        c2.scryfall_uri == c.scryfall_uri,
        c2.prints_search_uri == c.prints_search_uri,
        c2.rulings_uri == c.rulings_uri,
        c2.name == c.name,
        c2.layout == c.layout,
        c2.cmc == c.cmc,
        c2.type_line == c.type_line,
        c2.oracle_text == c.oracle_text,
        c2.mana_cost == c.mana_cost,
        c2.toughness == c.toughness,
        c2.loyalty == c.loyalty,
        c2.life_modifier == c.life_modifier,
        c2.hand_modifier == c.hand_modifier,
        c2.colors@ == c.colors@,
        match (c.color_indicator, c2.color_indicator) {
            (Some(x), Some(y)) => x@ == y@,
            (None, None) => true,
            _ => false,
        },
        c2.color_identity@ == c.color_identity@,
        match (c.all_parts, c2.all_parts) {
            (Some(x), Some(y)) => x@ == y@,
            (None, None) => true,
            _ => false,
        },
        match (c.card_faces, c2.card_faces) {
            (Some(x), Some(y)) => x@ == y@,
            (None, None) => true,
            _ => false,
        },
        c2.legalities@ == c.legalities@,
        c2.reserved == c.reserved,
        c2.edhrec_rank == c.edhrec_rank,
        c2.set == c.set,
        c2.set_name == c.set_name,
        c2.collector_number == c.collector_number,
        c2.set_search_uri == c.set_search_uri,
        c2.scryfall_set_uri == c.scryfall_set_uri,
        match (c.image_uris, c2.image_uris) {
            (Some(x), Some(y)) => x@ == y@,
            (None, None) => true,
            _ => false,
        },
        c2.highres_image == c.highres_image,
        c2.reprint == c.reprint,
        c2.digital == c.digital,
        c2.rarity == c.rarity,
        c2.flavor_text == c.flavor_text,
        c2.artist == c.artist,
        c2.illustration_id == c.illustration_id,
        c2.frame == c.frame,
        c2.full_art == c.full_art,
        c2.watermark == c.watermark,
        c2.border_color == c.border_color,
        c2.story_spotlight_number == c.story_spotlight_number,
        c2.story_spotlight_uri == c.story_spotlight_uri,
        c2.timeshifted == c.timeshifted,
        c2.colorshifted == c.colorshifted,
        c2.futureshifted == c.futureshifted,
{
    reveal_strlit("id");
    reveal_strlit("oracle_id");
    reveal_strlit("multiverse_ids");
    reveal_strlit("mtgo_id");
    reveal_strlit("mtgo_foil_id");
    reveal_strlit("uri");
    reveal_strlit("scryfall_uri");
    reveal_strlit("prints_search_uri");
    reveal_strlit("rulings_uri");
    reveal_strlit("name");
    reveal_strlit("layout");
    reveal_strlit("cmc");
    reveal_strlit("type_line");
    reveal_strlit("oracle_text");
    reveal_strlit("mana_cost");
    reveal_strlit("power");
    reveal_strlit("toughness");
    reveal_strlit("loyalty");
    reveal_strlit("life_modifier");
    reveal_strlit("hand_modifier");
    reveal_strlit("colors");
    reveal_strlit("color_indicator");
    reveal_strlit("color_identity");
    reveal_strlit("all_parts");
    reveal_strlit("card_faces");
    reveal_strlit("legalities");
    reveal_strlit("reserved");
    reveal_strlit("edhrec_rank");
    reveal_strlit("set");
    reveal_strlit("set_name");
    reveal_strlit("collector_number");
    reveal_strlit("set_search_uri");
    reveal_strlit("scryfall_set_uri");
    reveal_strlit("image_uris");
    reveal_strlit("highres_image");
    reveal_strlit("reprint");
    reveal_strlit("digital");
    reveal_strlit("rarity");
    reveal_strlit("flavor_text");
    reveal_strlit("artist");
    reveal_strlit("illustration_id");
    reveal_strlit("frame");
    reveal_strlit("full_art");
    reveal_strlit("watermark");
    reveal_strlit("border_color");
    reveal_strlit("story_spotlight_number");
    reveal_strlit("story_spotlight_uri");
    reveal_strlit("timeshifted");
    reveal_strlit("colorshifted");
    reveal_strlit("futureshifted");
    if let (Some(Json::Array(a)), Some(x), Some(y)) = (field(j, "multiverse_ids"@), c.multiverse_ids, c2.multiverse_ids) {
        lemma_u64s_match_same(a@, x@, y@);
    }
    assert("colors"@.len() != "power"@.len());
    assert(field(j2, "colors"@) == field(j, "colors"@));
    if let Some(Json::Array(a)) = field(j, "colors"@) {
        lemma_strings_match_same(a@, c.colors@, c2.colors@);
    }
    assert(c2.colors@ =~= c.colors@);
    if let (Some(Json::Array(a)), Some(x), Some(y)) = (field(j, "color_indicator"@), c.color_indicator, c2.color_indicator) {
        lemma_strings_match_same(a@, x@, y@);
    }
    assert("color_identity"@.len() != "power"@.len());
    assert(field(j2, "color_identity"@) == field(j, "color_identity"@));
    if let Some(Json::Array(a)) = field(j, "color_identity"@) {
        lemma_strings_match_same(a@, c.color_identity@, c2.color_identity@);
    }
    assert(c2.color_identity@ =~= c.color_identity@);
    if let (Some(Json::Array(a)), Some(x), Some(y)) = (field(j, "all_parts"@), c.all_parts, c2.all_parts) {
        lemma_strings_match_same(a@, x@, y@);
    }
    if let (Some(Json::Array(a)), Some(x), Some(y)) = (field(j, "card_faces"@), c.card_faces, c2.card_faces) {
        lemma_strings_match_same(a@, x@, y@);
    }
    assert("legalities"@.len() != "power"@.len());
    assert(field(j2, "legalities"@) == field(j, "legalities"@));
    if let Some(Json::Object(m)) = field(j, "legalities"@) {
        lemma_members_match_same(m@, c.legalities@, c2.legalities@);
    }
    assert("image_uris"@.len() != "power"@.len());
    assert(field(j2, "image_uris"@) == field(j, "image_uris"@));
    if let (Some(Json::Object(m)), Some(x), Some(y)) = (field(j, "image_uris"@), c.image_uris, c2.image_uris) {
        lemma_members_match_same(m@, x@, y@);
    }
}

/// A page decodes element by element with the rule of its record type: one
/// record for each element of `data`, in order, and a page that announces
/// more says where the next is.
pub proof fn lemma_list_decodes_each_element<T: ScryfallResponse>(j: Json, l: ListObject<T>)
    requires
        ListObject::<T>::accepts(j),
        ListObject::<T>::decodes_to(j, l),
    ensures
        field(j, "data"@) matches Some(Json::Array(a)) && l.data@.len() == a@.len() && forall|
            i: int,
        |
            0 <= i < a@.len() ==> T::accepts(a@[i]) && #[trigger] T::decodes_to(a@[i], l.data@[i]),
        field(j, "has_more"@) == Some(Json::Bool(l.has_more)),
        l.wf(),
{
}

} // verus!
