//! The card data model: identifiers, link and preview records, card faces,
//! and the card itself. All values are built once — at response-decode time
//! or directly by a caller — and never mutated.
//!
//! Fields documented as always present by the external schema are still
//! optional here where real-world data has been observed to omit them; that
//! is deliberate for `type_line` and `card_back_id`.

use vstd::prelude::*;
use crate::enums::BorderColor;
use crate::enums::Colors;
use crate::enums::Finishes;
use crate::enums::FrameEffect;
use crate::enums::FrameLayout;
use crate::enums::Game;
use crate::enums::ImageStatus;
use crate::enums::ImageType;
use crate::enums::Language;
use crate::enums::Layout;
use crate::enums::PriceType;
use crate::enums::PurchaseType;
use crate::enums::Rarity;
use crate::enums::RelatedCardType;
use crate::enums::RelatedUriType;
use crate::enums::SecurityStamp;
use crate::json_io::parse_url_text;
use crate::json_io::url_normal_form;
use crate::legality::Legalities;

verus! {

/// Identifier of one specific printing of a card. Equality and hashing go
/// by the wrapped string.
#[derive(Debug, Clone, PartialEq, Eq, Hash)]
pub struct ScryfallID(pub String);

impl ScryfallID {
    /// Renders the identifier for display: the wrapped string itself.
    pub fn display_text(&self) -> (r: String)
        ensures
            r@ == self.0@,
    {
        self.0.clone()
    }
}

/// Identifier shared by all printings of a card with the same rules text.
/// Equality and hashing go by the wrapped string.
#[derive(Debug, Clone, PartialEq, Eq, Hash)]
pub struct OracleID(pub String);

impl OracleID {
    /// Renders the identifier for display: the wrapped string itself.
    pub fn display_text(&self) -> (r: String)
        ensures
            r@ == self.0@,
    {
        self.0.clone()
    }
}

/// An absolute URL, held as its serialized text.
#[derive(Debug, Clone, PartialEq, Eq, Hash)]
pub struct Uri(pub String);

impl Uri {
    /// Parses and normalizes a URL; returns nothing when the text is not an
    /// absolute URL.
    pub fn parse(s: &str) -> (r: Option<Uri>)
        ensures
            match r {
                Some(u) => url_normal_form(s@) == Some(u.0@),
                None => url_normal_form(s@) is None,
            },
    {
        match parse_url_text(s) {
            Some(t) => Some(Uri(t)),
            None => None,
        }
    }

    /// Renders the URL for display: its serialized text.
    pub fn display_text(&self) -> (r: String)
        ensures
            r@ == self.0@,
    {
        self.0.clone()
    }
}

/// Preview metadata of a printing: when and where it was first shown.
#[derive(Debug, Clone, PartialEq, Eq, Hash)]
pub struct Preview {
    pub previewed_at: String,
    pub source_uri: String,
    pub source: String,
}

/// A reference from a card to a related card: a token it makes, a meld
/// part or result, or a combo piece.
#[derive(Debug, Clone, PartialEq, Eq, Hash)]
pub struct RelatedCard {
    pub id: ScryfallID,
    /// always "related_card"
    pub object: String,
    pub component: RelatedCardType,
    pub name: String,
    pub type_line: String,
    pub uri: Uri,
}

/// One face of a card with several, mirroring a subset of the card's
/// gameplay fields. Mana value and power-like values are held as text
/// because the upstream data is not always numeric.
#[derive(Debug, Clone, PartialEq)]
pub struct CardFace {
    pub artist: Option<String>,
    pub artist_id: Option<String>,
    /// mana value, as the number's JSON text
    pub cmc: Option<String>,
    pub color_indicator: Option<Vec<Colors>>,
    pub colors: Option<Vec<Colors>>,
    pub defense: Option<String>,
    pub flavor_text: Option<String>,
    pub illustration_id: Option<String>,
    pub image_uris: Option<Vec<(ImageType, Uri)>>,
    pub layout: Option<Layout>,
    pub loyalty: Option<String>,
    pub mana_cost: Option<String>,
    pub name: String,
    /// always "card_face"
    pub object: String,
    pub oracle_id: Option<OracleID>,
    pub oracle_text: Option<String>,
    pub power: Option<String>,
    pub printed_name: Option<String>,
    pub printed_text: Option<String>,
    pub printed_type_line: Option<String>,
    pub toughness: Option<String>,
    pub type_line: Option<String>,
    pub watermark: Option<String>,
}

impl CardFace {
    /// The image-link map, when there, holds each key at most once.
    pub open spec fn maps_wf(self) -> bool {
        self.image_uris matches Some(v) ==> unique_image_keys(v@)
    }
}

/// Whether a price map holds each currency key at most once.
pub open spec fn unique_price_keys(s: Seq<(PriceType, Option<String>)>) -> bool {
    forall|i: int, j: int|
        0 <= i < j < s.len() ==> (#[trigger] s[i]).0 != (#[trigger] s[j]).0
}

/// Whether an image-link map holds each key at most once.
pub open spec fn unique_image_keys(s: Seq<(ImageType, Uri)>) -> bool {
    forall|i: int, j: int|
        0 <= i < j < s.len() ==> (#[trigger] s[i]).0 != (#[trigger] s[j]).0
}

/// Whether a purchase-link map holds each key at most once.
pub open spec fn unique_purchase_keys(s: Seq<(PurchaseType, Uri)>) -> bool {
    forall|i: int, j: int|
        0 <= i < j < s.len() ==> (#[trigger] s[i]).0 != (#[trigger] s[j]).0
}

/// Whether a related-link map holds each key at most once.
pub open spec fn unique_related_uri_keys(s: Seq<(RelatedUriType, Uri)>) -> bool {
    forall|i: int, j: int|
        0 <= i < j < s.len() ==> (#[trigger] s[i]).0 != (#[trigger] s[j]).0
}

/// One printed version of a named game object, per the external catalog's
/// schema.
#[derive(Debug, Clone, PartialEq)]
pub struct Card {
    // Core fields
    pub arena_id: Option<i32>,
    pub id: ScryfallID,
    pub lang: Language,
    pub mtgo_id: Option<i32>,
    pub mtgo_foil_id: Option<i32>,
    pub multiverse_ids: Vec<i32>,
    pub tcgplayer_id: Option<i32>,
    pub tcgplayer_etched_id: Option<i32>,
    pub cardmarket_id: Option<i32>,
    /// always "card"
    pub object: String,
    pub layout: Layout,
    /// only absent when the layout is "reversible_card"
    pub oracle_id: Option<OracleID>,
    pub prints_search_uri: Uri,
    pub rulings_uri: Uri,
    /// link to the card on the catalog's website
    pub scryfall_uri: Uri,
    /// link to the card on the catalog's API
    pub uri: Uri,
    // Gameplay fields
    pub all_parts: Option<Vec<RelatedCard>>,
    pub card_faces: Option<Vec<CardFace>>,
    /// mana value, as the number's JSON text
    pub cmc: Option<String>,
    pub color_identity: Option<Vec<Colors>>,
    pub color_indicator: Option<Vec<Colors>>,
    pub colors: Option<Vec<Colors>>,
    pub defense: Option<String>,
    pub edhrec_rank: Option<i32>,
    pub game_changer: Option<bool>,
    pub hand_modifier: Option<String>,
    pub keywords: Vec<String>,
    pub legalities: Legalities,
    pub life_modifier: Option<String>,
    pub loyalty: Option<String>,
    pub mana_cost: Option<String>,
    pub name: String,
    pub oracle_text: Option<String>,
    pub penny_rank: Option<i32>,
    pub power: Option<String>,
    pub produced_mana: Option<Vec<String>>,
    pub reserved: bool,
    pub toughness: Option<String>,
    /// documented as always present, yet absent on some double-faced cards
    pub type_line: Option<String>,
    // Print fields
    pub artist: Option<String>,
    pub artist_ids: Option<Vec<String>>,
    pub booster: bool,
    pub border_color: BorderColor,
    /// documented as always present, yet absent on some transform cards
    pub card_back_id: Option<ScryfallID>,
    pub collector_number: String,
    pub content_warning: Option<bool>,
    pub digital: bool,
    pub finishes: Vec<Finishes>,
    pub flavor_name: Option<String>,
    pub flavor_text: Option<String>,
    pub flavor_effects: Option<Vec<FrameEffect>>,
    pub frame: FrameLayout,
    pub full_art: bool,
    pub games: Vec<Game>,
    pub highres_image: bool,
    pub illustration_id: Option<String>,
    pub image_status: ImageStatus,
    pub image_uris: Option<Vec<(ImageType, Uri)>>,
    pub oversized: bool,
    pub prices: Vec<(PriceType, Option<String>)>,
    pub printed_name: Option<String>,
    pub printed_text: Option<String>,
    pub printed_type_line: Option<String>,
    pub promo: bool,
    pub promo_types: Option<Vec<String>>,
    pub purchase_uris: Option<Vec<(PurchaseType, Uri)>>,
    pub rarity: Rarity,
    pub related_uris: Option<Vec<(RelatedUriType, Uri)>>,
    pub released_at: String,
    pub reprint: bool,
    pub scryfall_set_uri: Uri,
    pub set_name: String,
    pub set_search_uri: Uri,
    pub set_type: String,
    pub set_uri: Uri,
    /// the set's code; the schema calls this member "set"
    pub set_code: String,
    pub set_id: String,
    pub story_spotlight: bool,
    pub textless: bool,
    pub variation: bool,
    pub variation_of: Option<String>,
    pub security_stamp: Option<SecurityStamp>,
    pub watermark: Option<String>,
    pub preview: Option<Preview>,
}

impl Card {
    /// The price and link maps — the card's own and each face's — hold
    /// every key at most once.
    pub open spec fn maps_wf(self) -> bool {
        &&& unique_price_keys(self.prices@)
        &&& (self.image_uris matches Some(v) ==> unique_image_keys(v@))
        &&& (self.purchase_uris matches Some(v) ==> unique_purchase_keys(v@))
        &&& (self.related_uris matches Some(v) ==> unique_related_uri_keys(v@))
        &&& (self.card_faces matches Some(fs) ==> forall|i: int|
            0 <= i < fs.len() ==> (#[trigger] fs[i]).maps_wf())
    }
}

} // verus!
