//! The requests that the service answers: each knows its path and query,
//! and the record that its answer decodes into.
use vstd::prelude::*;
use crate::encode::{integer_text, push_integer, query_encode, query_encoded};
use crate::types::{Card, CardSet, Catalog, ListObject, ScryfallResponse};

verus! {

/// A request, as a path and query relative to the service's base URL.
pub trait Endpoint {
    /// The path and query of this request.
    spec fn target(&self) -> Seq<char>;

    /// Builds the path and query of this request; free-text values are
    /// form-encoded, path segments are taken as they are.
    fn path(&self) -> (r: String)
        ensures
            r@ == self.target(),
    ;
}

/// A request whose answer decodes into a record of this library.
pub trait ScryfallRequest: Endpoint {
    /// The record that the answer holds.
    type Response: ScryfallResponse;
}

/// Building a request's path and query depends on the request alone: two
/// equal requests, or one request built twice, give the same target.
pub proof fn lemma_target_deterministic<E: Endpoint>(a: E, b: E)
    requires
        a == b,
    ensures
        a.target() == b.target(),
{
}

/// The free text of a card search.
#[derive(Debug)]
pub struct CardSearchQuery(pub String);

impl From<String> for CardSearchQuery {
    fn from(s: String) -> (r: CardSearchQuery)
        ensures
            r.0 == s,
    {
        CardSearchQuery(s)
    }
}

impl vstd::std_specs::convert::FromSpecImpl<String> for CardSearchQuery {
    open spec fn obeys_from_spec() -> bool {
        true
    }

    open spec fn from_spec(s: String) -> CardSearchQuery {
        CardSearchQuery(s)
    }
}

/// How a card search deduplicates and orders its results.
#[derive(Debug, Clone, Copy, PartialEq, Eq, Structural)]
pub struct CardSearchOptions {
    pub uniqueness: SearchUniquenessMode,
    pub ordering: SearchOrdering,
    pub ordering_direction: SearchOrderingDirection,
}

impl Default for CardSearchOptions {
    /// One copy per card name, ordered by name, in the direction the service picks.
    fn default() -> (r: CardSearchOptions)
        ensures
            r.uniqueness == SearchUniquenessMode::Cards,
            r.ordering == SearchOrdering::Name,
            r.ordering_direction == SearchOrderingDirection::Auto,
    {
        CardSearchOptions {
            uniqueness: SearchUniquenessMode::Cards,
            ordering: SearchOrdering::Name,
            ordering_direction: SearchOrderingDirection::Auto,
        }
    }
}

/// How a card name is matched.
#[derive(Debug, Clone, Copy, PartialEq, Eq, Structural)]
pub enum Exact {
    /// The name must match exactly.
    Exact,
    /// The name may be abbreviated or misspelt.
    Fuzzy,
}

impl Exact {
    /// The value that names this choice in a query.
    pub open spec fn param_text(self) -> Seq<char> {
        match self {
            Exact::Exact => "exact"@,
            Exact::Fuzzy => "fuzzy"@,
        }
    }

    /// The value that names this choice in a query.
    pub fn as_param(&self) -> (r: &'static str)
        ensures
            r@ == self.param_text(),
    {
        match self {
            Exact::Exact => "exact",
            Exact::Fuzzy => "fuzzy",
        }
    }
}

/// Which prints of a card a search returns.
#[derive(Debug, Clone, Copy, PartialEq, Eq, Structural)]
pub enum SearchUniquenessMode {
    /// One copy of each card name, however many printings it has.
    Cards,
    /// One copy for each art.
    Arts,
    /// One copy for every printing.
    Prints,
}

impl SearchUniquenessMode {
    /// The value that names this choice in a query.
    pub open spec fn param_text(self) -> Seq<char> {
        match self {
            SearchUniquenessMode::Cards => "cards"@,
            SearchUniquenessMode::Arts => "art"@,
            SearchUniquenessMode::Prints => "prints"@,
        }
    }

    /// The value that names this choice in a query.
    pub fn as_param(&self) -> (r: &'static str)
        ensures
            r@ == self.param_text(),
    {
        match self {
            SearchUniquenessMode::Cards => "cards",
            SearchUniquenessMode::Arts => "art",
            SearchUniquenessMode::Prints => "prints",
        }
    }
}

/// How a search orders its cards.
#[derive(Debug, Clone, Copy, PartialEq, Eq, Structural)]
pub enum SearchOrdering {
    /// By name, A to Z.
    Name,
    /// By set and collector number, oldest to newest.
    SetNumber,
    /// By rarity, common to mythic.
    Rarity,
    /// By color and color identity: WUBRG, then multicolor, then colorless.
    Color,
    /// By lowest U.S. Dollar price, nulls last.
    USD,
    /// By lowest TIX price, nulls last.
    TIX,
    /// By lowest Euro price, nulls last.
    Eur,
    /// By converted mana cost, 0 to highest.
    CMC,
    /// By power, null to highest.
    Power,
    /// By toughness, null to highest.
    Toughness,
    /// By EDHREC ranking, lowest to highest.
    Edhrec,
    /// By the artist of the front face, A to Z.
    Artist,
}

impl SearchOrdering {
    /// The value that names this choice in a query.
    pub open spec fn param_text(self) -> Seq<char> {
        match self {
            SearchOrdering::Name => "name"@,
            SearchOrdering::SetNumber => "set"@,
            SearchOrdering::Rarity => "rarity"@,
            SearchOrdering::Color => "color"@,
            SearchOrdering::USD => "usd"@,
            SearchOrdering::TIX => "tix"@,
            SearchOrdering::Eur => "eur"@,
            SearchOrdering::CMC => "cmc"@,
            SearchOrdering::Power => "power"@,
            SearchOrdering::Toughness => "toughness"@,
            SearchOrdering::Edhrec => "edhrec"@,
            SearchOrdering::Artist => "artist"@,
        }
    }

    /// The value that names this choice in a query.
    pub fn as_param(&self) -> (r: &'static str)
        ensures
            r@ == self.param_text(),
    {
        match self {
            SearchOrdering::Name => "name",
            SearchOrdering::SetNumber => "set",
            SearchOrdering::Rarity => "rarity",
            SearchOrdering::Color => "color",
            SearchOrdering::USD => "usd",
            SearchOrdering::TIX => "tix",
            SearchOrdering::Eur => "eur",
            SearchOrdering::CMC => "cmc",
            SearchOrdering::Power => "power",
            SearchOrdering::Toughness => "toughness",
            SearchOrdering::Edhrec => "edhrec",
            SearchOrdering::Artist => "artist",
        }
    }
}

/// The direction of a search's order.
#[derive(Debug, Clone, Copy, PartialEq, Eq, Structural)]
pub enum SearchOrderingDirection {
    /// The service picks the most intuitive direction.
    Auto,
    /// Ascending.
    Asc,
    /// Descending.
    Desc,
}

impl SearchOrderingDirection {
    /// The value that names this choice in a query.
    pub open spec fn param_text(self) -> Seq<char> {
        match self {
            SearchOrderingDirection::Auto => "auto"@,
            SearchOrderingDirection::Asc => "asc"@,
            SearchOrderingDirection::Desc => "desc"@,
        }
    }

    /// The value that names this choice in a query.
    pub fn as_param(&self) -> (r: &'static str)
        ensures
            r@ == self.param_text(),
    {
        match self {
            SearchOrderingDirection::Auto => "auto",
            SearchOrderingDirection::Asc => "asc",
            SearchOrderingDirection::Desc => "desc",
        }
    }
}

/// Request: All sets.
#[derive(Debug)]
pub struct Sets;

impl Endpoint for Sets {
    open spec fn target(&self) -> Seq<char> {
        "/sets"@
    }

    fn path(&self) -> (r: String) {
        let mut s = "/sets".to_owned();
        s
    }
}

impl ScryfallRequest for Sets {
    type Response = ListObject<CardSet>;
}

/// Request: The set with a given code.
#[derive(Debug)]
pub struct SetByCode(pub String);

impl Endpoint for SetByCode {
    open spec fn target(&self) -> Seq<char> {
        "/sets/"@ + self.0@
    }

    fn path(&self) -> (r: String) {
        let mut s = "/sets/".to_owned();
        s.append(self.0.as_str());
        assert(s@ =~= self.target());
        s
    }
}

impl ScryfallRequest for SetByCode {
    type Response = CardSet;
}

/// Request: All cards, page by page.
#[derive(Debug)]
pub struct Cards;

impl Endpoint for Cards {
    open spec fn target(&self) -> Seq<char> {
        "/cards"@
    }

    fn path(&self) -> (r: String) {
        let mut s = "/cards".to_owned();
        s
    }
}

impl ScryfallRequest for Cards {
    type Response = ListObject<Card>;
}

/// Request: The cards that a full-text query finds, ordered and deduplicated as the options say.
#[derive(Debug)]
pub struct CardSearch(pub CardSearchQuery, pub CardSearchOptions);

impl Endpoint for CardSearch {
    open spec fn target(&self) -> Seq<char> {
        "/cards/search?q="@ + query_encoded((self.0).0@) + "&unique="@ + self.1.uniqueness.param_text() + "&order="@ + self.1.ordering.param_text() + "&dir="@ + self.1.ordering_direction.param_text()
    }

    fn path(&self) -> (r: String) {
        let mut s = "/cards/search?q=".to_owned();
        let v = query_encode((self.0).0.as_str());
        s.append(v.as_str());
        s.append("&unique=");
        s.append(self.1.uniqueness.as_param());
        s.append("&order=");
        s.append(self.1.ordering.as_param());
        s.append("&dir=");
        s.append(self.1.ordering_direction.as_param());
        assert(s@ =~= self.target());
        s
    }
}

impl ScryfallRequest for CardSearch {
    type Response = ListObject<Card>;
}

/// Request: The card with a given name, matched exactly or fuzzily.
#[derive(Debug)]
pub struct CardNamed(pub String, pub Exact);

impl Endpoint for CardNamed {
    open spec fn target(&self) -> Seq<char> {
        "/cards/named?"@ + self.1.param_text() + "="@ + query_encoded(self.0@)
    }

    fn path(&self) -> (r: String) {
        let mut s = "/cards/named?".to_owned();
        s.append(self.1.as_param());
        s.append("=");
        let v = query_encode(self.0.as_str());
        s.append(v.as_str());
        assert(s@ =~= self.target());
        s
    }
}

impl ScryfallRequest for CardNamed {
    type Response = Card;
}

/// Request: Up to twenty card names that complete a fragment.
#[derive(Debug)]
pub struct CardAutoComplete(pub String);

impl Endpoint for CardAutoComplete {
    open spec fn target(&self) -> Seq<char> {
        "/cards/autocomplete?q="@ + query_encoded(self.0@)
    }

    fn path(&self) -> (r: String) {
        let mut s = "/cards/autocomplete?q=".to_owned();
        let v = query_encode(self.0.as_str());
        s.append(v.as_str());
        assert(s@ =~= self.target());
        s
    }
}

impl ScryfallRequest for CardAutoComplete {
    type Response = Catalog;
}

/// Request: A random card.
#[derive(Debug)]
pub struct CardRandom;

impl Endpoint for CardRandom {
    open spec fn target(&self) -> Seq<char> {
        "/cards/random"@
    }

    fn path(&self) -> (r: String) {
        let mut s = "/cards/random".to_owned();
        s
    }
}

impl ScryfallRequest for CardRandom {
    type Response = Card;
}

/// Request: The card with a given multiverse ID.
#[derive(Debug)]
pub struct CardMultiverse(pub i64);

impl Endpoint for CardMultiverse {
    open spec fn target(&self) -> Seq<char> {
        "/cards/multiverse/"@ + integer_text(self.0 as int)
    }

    fn path(&self) -> (r: String) {
        let mut s = "/cards/multiverse/".to_owned();
        push_integer(&mut s, self.0);
        assert(s@ =~= self.target());
        s
    }
}

impl ScryfallRequest for CardMultiverse {
    type Response = Card;
}

/// Request: The card with a given Magic Online ID.
#[derive(Debug)]
pub struct CardMtgo(pub i64);

impl Endpoint for CardMtgo {
    open spec fn target(&self) -> Seq<char> {
        "/cards/mtgo/"@ + integer_text(self.0 as int)
    }

    fn path(&self) -> (r: String) {
        let mut s = "/cards/mtgo/".to_owned();
        push_integer(&mut s, self.0);
        assert(s@ =~= self.target());
        s
    }
}

impl ScryfallRequest for CardMtgo {
    type Response = Card;
}

/// Request: The card with a given collector number in a set.
#[derive(Debug)]
pub struct CardInSet(pub String, pub i64);

impl Endpoint for CardInSet {
    open spec fn target(&self) -> Seq<char> {
        "/cards/"@ + self.0@ + "/"@ + integer_text(self.1 as int)
    }

    fn path(&self) -> (r: String) {
        let mut s = "/cards/".to_owned();
        s.append(self.0.as_str());
        s.append("/");
        push_integer(&mut s, self.1);
        assert(s@ =~= self.target());
        s
    }
}

impl ScryfallRequest for CardInSet {
    type Response = Card;
}

/// Request: The card with a given database ID.
#[derive(Debug)]
pub struct CardScryfall(pub String);

impl Endpoint for CardScryfall {
    open spec fn target(&self) -> Seq<char> {
        "/cards/"@ + self.0@
    }

    fn path(&self) -> (r: String) {
        let mut s = "/cards/".to_owned();
        s.append(self.0.as_str());
        assert(s@ =~= self.target());
        s
    }
}

impl ScryfallRequest for CardScryfall {
    type Response = Card;
}

/// Request: The rulings of the card with a given multiverse ID.
#[derive(Debug)]
pub struct RulingsMultiverse(pub i64);

impl Endpoint for RulingsMultiverse {
    open spec fn target(&self) -> Seq<char> {
        "/cards/multiverse/"@ + integer_text(self.0 as int) + "/rulings"@
    }

    fn path(&self) -> (r: String) {
        let mut s = "/cards/multiverse/".to_owned();
        push_integer(&mut s, self.0);
        s.append("/rulings");
        assert(s@ =~= self.target());
        s
    }
}

/// Request: The rulings of the card with a given Magic Online ID.
#[derive(Debug)]
pub struct RulingsMtgo(pub i64);

impl Endpoint for RulingsMtgo {
    open spec fn target(&self) -> Seq<char> {
        "/cards/mtgo/"@ + integer_text(self.0 as int) + "/rulings"@
    }

    fn path(&self) -> (r: String) {
        let mut s = "/cards/mtgo/".to_owned();
        push_integer(&mut s, self.0);
        s.append("/rulings");
        assert(s@ =~= self.target());
        s
    }
}

/// Request: The rulings of the card with a given collector number in a set.
#[derive(Debug)]
pub struct RulingsInSet(pub String, pub i64);

impl Endpoint for RulingsInSet {
    open spec fn target(&self) -> Seq<char> {
        "/cards/"@ + self.0@ + "/"@ + integer_text(self.1 as int) + "/rulings"@
    }

    fn path(&self) -> (r: String) {
        let mut s = "/cards/".to_owned();
        s.append(self.0.as_str());
        s.append("/");
        push_integer(&mut s, self.1);
        s.append("/rulings");
        assert(s@ =~= self.target());
        s
    }
}

/// Request: The rulings of the card with a given database ID.
#[derive(Debug)]
pub struct RulingsScryfall(pub String);

impl Endpoint for RulingsScryfall {
    open spec fn target(&self) -> Seq<char> {
        "/cards/"@ + self.0@ + "/rulings"@
    }

    fn path(&self) -> (r: String) {
        let mut s = "/cards/".to_owned();
        s.append(self.0.as_str());
        s.append("/rulings");
        assert(s@ =~= self.target());
        s
    }
}

/// Request: All card symbols.
#[derive(Debug)]
pub struct CardSymbols;

impl Endpoint for CardSymbols {
    open spec fn target(&self) -> Seq<char> {
        "/symbology"@
    }

    fn path(&self) -> (r: String) {
        let mut s = "/symbology".to_owned();
        s
    }
}

/// Request: The reading of a mana cost in plain text.
#[derive(Debug)]
pub struct ParseMana(pub String);

impl Endpoint for ParseMana {
    open spec fn target(&self) -> Seq<char> {
        "/symbology/parse-mana?cost="@ + query_encoded(self.0@)
    }

    fn path(&self) -> (r: String) {
        let mut s = "/symbology/parse-mana?cost=".to_owned();
        let v = query_encode(self.0.as_str());
        s.append(v.as_str());
        assert(s@ =~= self.target());
        s
    }
}

/// Request: All card names.
#[derive(Debug)]
pub struct CatalogCardNames;

impl Endpoint for CatalogCardNames {
    open spec fn target(&self) -> Seq<char> {
        "/catalog/card-names"@
    }

    fn path(&self) -> (r: String) {
        let mut s = "/catalog/card-names".to_owned();
        s
    }
}

impl ScryfallRequest for CatalogCardNames {
    type Response = Catalog;
}

/// Request: All words that appear in card names.
#[derive(Debug)]
pub struct CatalogWordBank;

impl Endpoint for CatalogWordBank {
    open spec fn target(&self) -> Seq<char> {
        "/catalog/word-bank"@
    }

    fn path(&self) -> (r: String) {
        let mut s = "/catalog/word-bank".to_owned();
        s
    }
}

impl ScryfallRequest for CatalogWordBank {
    type Response = Catalog;
}

/// Request: All creature types.
#[derive(Debug)]
pub struct CatalogCreatureTypes;

impl Endpoint for CatalogCreatureTypes {
    open spec fn target(&self) -> Seq<char> {
        "/catalog/creature-types"@
    }

    fn path(&self) -> (r: String) {
        let mut s = "/catalog/creature-types".to_owned();
        s
    }
}

impl ScryfallRequest for CatalogCreatureTypes {
    type Response = Catalog;
}

/// Request: All planeswalker types.
#[derive(Debug)]
pub struct CatalogPlaneswalkerTypes;

impl Endpoint for CatalogPlaneswalkerTypes {
    open spec fn target(&self) -> Seq<char> {
        "/catalog/planeswalker-types"@
    }

    fn path(&self) -> (r: String) {
        let mut s = "/catalog/planeswalker-types".to_owned();
        s
    }
}

impl ScryfallRequest for CatalogPlaneswalkerTypes {
    type Response = Catalog;
}

/// Request: All land types.
#[derive(Debug)]
pub struct CatalogLandTypes;

impl Endpoint for CatalogLandTypes {
    open spec fn target(&self) -> Seq<char> {
        "/catalog/land-types"@
    }

    fn path(&self) -> (r: String) {
        let mut s = "/catalog/land-types".to_owned();
        s
    }
}

impl ScryfallRequest for CatalogLandTypes {
    type Response = Catalog;
}

/// Request: All enchantment types.
#[derive(Debug)]
pub struct CatalogEnchantmentTypes;

impl Endpoint for CatalogEnchantmentTypes {
    open spec fn target(&self) -> Seq<char> {
        "/catalog/enchantment-types"@
    }

    fn path(&self) -> (r: String) {
        let mut s = "/catalog/enchantment-types".to_owned();
        s
    }
}

impl ScryfallRequest for CatalogEnchantmentTypes {
    type Response = Catalog;
}

/// Request: All spell types.
#[derive(Debug)]
pub struct CatalogSpellTypes;

impl Endpoint for CatalogSpellTypes {
    open spec fn target(&self) -> Seq<char> {
        "/catalog/spell-types"@
    }

    fn path(&self) -> (r: String) {
        let mut s = "/catalog/spell-types".to_owned();
        s
    }
}

impl ScryfallRequest for CatalogSpellTypes {
    type Response = Catalog;
}

/// Request: All values that a power can have.
#[derive(Debug)]
pub struct CatalogPowers;

impl Endpoint for CatalogPowers {
    open spec fn target(&self) -> Seq<char> {
        "/catalog/powers"@
    }

    fn path(&self) -> (r: String) {
        let mut s = "/catalog/powers".to_owned();
        s
    }
}

impl ScryfallRequest for CatalogPowers {
    type Response = Catalog;
}

/// Request: All values that a toughness can have.
#[derive(Debug)]
pub struct CatalogToughnesses;

impl Endpoint for CatalogToughnesses {
    open spec fn target(&self) -> Seq<char> {
        "/catalog/toughnesses"@
    }

    fn path(&self) -> (r: String) {
        let mut s = "/catalog/toughnesses".to_owned();
        s
    }
}

impl ScryfallRequest for CatalogToughnesses {
    type Response = Catalog;
}

/// Request: All values that a loyalty can have.
#[derive(Debug)]
pub struct CatalogLoyalties;

impl Endpoint for CatalogLoyalties {
    open spec fn target(&self) -> Seq<char> {
        "/catalog/loyalties"@
    }

    fn path(&self) -> (r: String) {
        let mut s = "/catalog/loyalties".to_owned();
        s
    }
}

impl ScryfallRequest for CatalogLoyalties {
    type Response = Catalog;
}

/// Request: All watermarks.
#[derive(Debug)]
pub struct CatalogWatermarks;

impl Endpoint for CatalogWatermarks {
    open spec fn target(&self) -> Seq<char> {
        "/catalog/watermarks"@
    }

    fn path(&self) -> (r: String) {
        let mut s = "/catalog/watermarks".to_owned();
        s
    }
}

impl ScryfallRequest for CatalogWatermarks {
    type Response = Catalog;
}


} // verus!
