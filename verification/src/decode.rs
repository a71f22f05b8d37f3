//! Decoding a response body into the typed model.
//!
//! A body is parsed into a JSON document first; the document is then read
//! field by field. A card decode is attempted first, and only when the
//! card's required fields are absent or mismatched is the service's error
//! envelope tried; a body that matches neither shape becomes a synthetic
//! parse error. Every decode failure this module itself reports carries
//! status 500 and the code "parse_error", naming the offending member.
//!
//! The spec functions here read the parsed document's contents — the
//! [`JsonView`] the trusted boundary names — member by member, exactly as
//! the decoders do, and every decoder's contract says both what a
//! successful decode returns and on which documents it succeeds.

use vstd::prelude::*;
use vstd::string::StringExecFns;
use crate::enums::BorderColor;
use crate::enums::Colors;
use crate::enums::Finishes;
use crate::enums::FrameEffect;
use crate::enums::FrameLayout;
use crate::enums::Game;
use crate::enums::ImageStatus;
use crate::enums::ImageType;
use crate::enums::Language;
use crate::enums::Layout;
use crate::enums::PriceType;
use crate::enums::PurchaseType;
use crate::enums::Rarity;
use crate::enums::RelatedCardType;
use crate::enums::RelatedUriType;
use crate::enums::SecurityStamp;
use crate::enums::lemma_image_type_from_wire_injective;
use crate::enums::lemma_price_type_from_wire_injective;
use crate::enums::lemma_purchase_type_from_wire_injective;
use crate::enums::lemma_related_uri_type_from_wire_injective;
use crate::json_io::json_as_array;
use crate::json_io::json_as_bool;
use crate::json_io::json_as_i64;
use crate::json_io::json_as_str;
use crate::json_io::json_as_u64;
use crate::json_io::json_error_text;
use crate::json_io::json_from_str;
use crate::json_io::json_get;
use crate::json_io::json_is_null;
use crate::json_io::json_is_number;
use crate::json_io::json_object_entries;
use crate::json_io::json_unparse;
use crate::json_io::json_doc;
use crate::json_io::json_view;
use crate::json_io::obj_first;
use crate::json_io::url_normal_form;
use crate::json_io::JsonView;
use crate::legality::Legalities;
use crate::legality::Legality;
use crate::network_types::ScryfallError;
use crate::network_types::ScryfallResponse;
use crate::structs::unique_image_keys;
use crate::structs::unique_price_keys;
use crate::structs::unique_purchase_keys;
use crate::structs::unique_related_uri_keys;
use crate::structs::Card;
use crate::structs::CardFace;
use crate::structs::OracleID;
use crate::structs::Preview;
use crate::structs::RelatedCard;
use crate::structs::ScryfallID;
use crate::structs::Uri;

verus! {

/// Whether an error is the shape every decode failure is reported as.
pub open spec fn is_parse_error(e: ScryfallError) -> bool {
    e.status == 500 && e.code@ == "parse_error"@
}

// ===== Readings of the parsed document, element by element =====

/// The member a decoder sees: an absent member and a null value both read
/// as nothing, and a non-object document has no members at all.
pub open spec fn mem(dv: JsonView, key: Seq<char>) -> Option<JsonView> {
    match dv {
        JsonView::Object(ms) => match obj_first(ms, key) {
            Some(m) => if m is Null {
                None
            } else {
                Some(m)
            },
            None => None,
        },
        _ => None,
    }
}

/// The text of a string value.
pub open spec fn text_of(m: JsonView) -> Option<Seq<char>> {
    match m {
        JsonView::Text(t) => Some(t),
        _ => None,
    }
}

/// A boolean value.
pub open spec fn bool_of(m: JsonView) -> Option<bool> {
    match m {
        JsonView::Bool(b) => Some(b),
        _ => None,
    }
}

/// An integer value in the signed 32-bit range.
pub open spec fn i32_of(m: JsonView) -> Option<i32> {
    match m {
        JsonView::Number(n) => match n.signed {
            Some(x) => if -2147483648 <= x && x <= 2147483647 {
                Some(x as i32)
            } else {
                None
            },
            None => None,
        },
        _ => None,
    }
}

/// An integer value in the unsigned 16-bit range.
pub open spec fn u16_of(m: JsonView) -> Option<u16> {
    match m {
        JsonView::Number(n) => match n.unsigned {
            Some(x) => if x <= 65535 {
                Some(x as u16)
            } else {
                None
            },
            None => None,
        },
        _ => None,
    }
}

/// A number value, as its canonical text.
pub open spec fn number_text_of(m: JsonView) -> Option<Seq<char>> {
    match m {
        JsonView::Number(n) => Some(n.text),
        _ => None,
    }
}

/// A string value that is an absolute URL, as the URL's normal form.
pub open spec fn uri_of(m: JsonView) -> Option<Seq<char>> {
    match m {
        JsonView::Text(t) => url_normal_form(t),
        _ => None,
    }
}

/// The text of an optional string, for comparing decoded fields.
pub open spec fn opt_text(o: Option<String>) -> Option<Seq<char>> {
    match o {
        Some(s) => Some(s@),
        None => None,
    }
}

/// The text of an optional oracle identifier.
pub open spec fn opt_oracle_text(o: Option<OracleID>) -> Option<Seq<char>> {
    match o {
        Some(x) => Some(x.0@),
        None => None,
    }
}

/// The text of an optional printing identifier.
pub open spec fn opt_scryfall_text(o: Option<ScryfallID>) -> Option<Seq<char>> {
    match o {
        Some(x) => Some(x.0@),
        None => None,
    }
}

/// The contents of an array of parsed documents.
pub open spec fn views_of(a: Seq<serde_json::Value>) -> Seq<JsonView> {
    Seq::new(a.len(), |i: int| json_view(a[i]))
}

// ===== Readings of one member, mirroring each decoder =====

/// A required string member.
pub open spec fn req_string_mem(dv: JsonView, key: Seq<char>) -> Option<Seq<char>> {
    match mem(dv, key) {
        Some(m) => text_of(m),
        None => None,
    }
}

/// An optional string member: absent reads as nothing, a non-string value
/// reads as a mismatch.
pub open spec fn opt_string_mem(dv: JsonView, key: Seq<char>) -> Option<Option<Seq<char>>> {
    match mem(dv, key) {
        Some(m) => match text_of(m) {
            Some(t) => Some(Some(t)),
            None => None,
        },
        None => Some(None),
    }
}

/// A required boolean member.
pub open spec fn req_bool_mem(dv: JsonView, key: Seq<char>) -> Option<bool> {
    match mem(dv, key) {
        Some(m) => bool_of(m),
        None => None,
    }
}

/// An optional boolean member.
pub open spec fn opt_bool_mem(dv: JsonView, key: Seq<char>) -> Option<Option<bool>> {
    match mem(dv, key) {
        Some(m) => match bool_of(m) {
            Some(b) => Some(Some(b)),
            None => None,
        },
        None => Some(None),
    }
}

/// An optional signed 32-bit integer member.
pub open spec fn opt_i32_mem(dv: JsonView, key: Seq<char>) -> Option<Option<i32>> {
    match mem(dv, key) {
        Some(m) => match i32_of(m) {
            Some(x) => Some(Some(x)),
            None => None,
        },
        None => Some(None),
    }
}

/// A required unsigned 16-bit integer member.
pub open spec fn req_u16_mem(dv: JsonView, key: Seq<char>) -> Option<u16> {
    match mem(dv, key) {
        Some(m) => u16_of(m),
        None => None,
    }
}

/// An optional number member, read as the number's text.
pub open spec fn opt_number_mem(dv: JsonView, key: Seq<char>) -> Option<Option<Seq<char>>> {
    match mem(dv, key) {
        Some(m) => match number_text_of(m) {
            Some(t) => Some(Some(t)),
            None => None,
        },
        None => Some(None),
    }
}

/// A required URL member, read as the URL's normal form.
pub open spec fn req_uri_mem(dv: JsonView, key: Seq<char>) -> Option<Seq<char>> {
    match mem(dv, key) {
        Some(m) => uri_of(m),
        None => None,
    }
}

/// A required array member, as its elements.
pub open spec fn req_array_mem(dv: JsonView, key: Seq<char>) -> Option<Seq<JsonView>> {
    match mem(dv, key) {
        Some(JsonView::Array(items)) => Some(items),
        _ => None,
    }
}

/// An optional array member, as its elements if there.
pub open spec fn opt_array_mem(dv: JsonView, key: Seq<char>) -> Option<Option<Seq<JsonView>>> {
    match mem(dv, key) {
        None => Some(None),
        Some(JsonView::Array(items)) => Some(Some(items)),
        Some(_) => None,
    }
}

/// A required object member, as its member pairs.
pub open spec fn req_object_mem(dv: JsonView, key: Seq<char>) -> Option<
    Seq<(Seq<char>, JsonView)>,
> {
    match mem(dv, key) {
        Some(JsonView::Object(ms)) => Some(ms),
        _ => None,
    }
}

/// An optional object member, as its member pairs if there.
pub open spec fn opt_object_mem(dv: JsonView, key: Seq<char>) -> Option<
    Option<Seq<(Seq<char>, JsonView)>>,
> {
    match mem(dv, key) {
        None => Some(None),
        Some(JsonView::Object(ms)) => Some(Some(ms)),
        Some(_) => None,
    }
}

/// A required member holding a wire token of the vocabulary.
pub open spec fn language_mem(dv: JsonView, key: Seq<char>) -> Option<Language> {
    match req_string_mem(dv, key) {
        Some(t) => Language::spec_from_wire(t),
        None => None,
    }
}

/// A required member holding a wire token of the vocabulary.
pub open spec fn layout_mem(dv: JsonView, key: Seq<char>) -> Option<Layout> {
    match req_string_mem(dv, key) {
        Some(t) => Layout::spec_from_wire(t),
        None => None,
    }
}

/// A required member holding a wire token of the vocabulary.
pub open spec fn border_color_mem(dv: JsonView, key: Seq<char>) -> Option<BorderColor> {
    match req_string_mem(dv, key) {
        Some(t) => BorderColor::spec_from_wire(t),
        None => None,
    }
}

/// A required member holding a wire token of the vocabulary.
pub open spec fn frame_layout_mem(dv: JsonView, key: Seq<char>) -> Option<FrameLayout> {
    match req_string_mem(dv, key) {
        Some(t) => FrameLayout::spec_from_wire(t),
        None => None,
    }
}

/// A required member holding a wire token of the vocabulary.
pub open spec fn image_status_mem(dv: JsonView, key: Seq<char>) -> Option<ImageStatus> {
    match req_string_mem(dv, key) {
        Some(t) => ImageStatus::spec_from_wire(t),
        None => None,
    }
}

/// A required member holding a wire token of the vocabulary.
pub open spec fn rarity_mem(dv: JsonView, key: Seq<char>) -> Option<Rarity> {
    match req_string_mem(dv, key) {
        Some(t) => Rarity::spec_from_wire(t),
        None => None,
    }
}

/// A required member holding a wire token of the vocabulary.
pub open spec fn component_mem(dv: JsonView, key: Seq<char>) -> Option<RelatedCardType> {
    match req_string_mem(dv, key) {
        Some(t) => RelatedCardType::spec_from_wire(t),
        None => None,
    }
}

/// A required member holding a wire token of the vocabulary.
pub open spec fn legality_mem(dv: JsonView, key: Seq<char>) -> Option<Legality> {
    match req_string_mem(dv, key) {
        Some(t) => Legality::spec_from_wire(t),
        None => None,
    }
}

/// An optional member holding a wire token of the vocabulary.
pub open spec fn layout_opt_mem(dv: JsonView, key: Seq<char>) -> Option<Option<Layout>> {
    match opt_string_mem(dv, key) {
        Some(Some(t)) => match Layout::spec_from_wire(t) {
            Some(x) => Some(Some(x)),
            None => None,
        },
        Some(None) => Some(None),
        None => None,
    }
}

/// An optional member holding a wire token of the vocabulary.
pub open spec fn stamp_opt_mem(dv: JsonView, key: Seq<char>) -> Option<Option<SecurityStamp>> {
    match opt_string_mem(dv, key) {
        Some(Some(t)) => match SecurityStamp::spec_from_wire(t) {
            Some(x) => Some(Some(x)),
            None => None,
        },
        Some(None) => Some(None),
        None => None,
    }
}

/// An array element holding a wire token of the vocabulary.
pub open spec fn color_of(m: JsonView) -> Option<Colors> {
    match text_of(m) {
        Some(t) => Colors::spec_from_wire(t),
        None => None,
    }
}

/// An array element holding a wire token of the vocabulary.
pub open spec fn finish_of(m: JsonView) -> Option<Finishes> {
    match text_of(m) {
        Some(t) => Finishes::spec_from_wire(t),
        None => None,
    }
}

/// An array element holding a wire token of the vocabulary.
pub open spec fn game_of(m: JsonView) -> Option<Game> {
    match text_of(m) {
        Some(t) => Game::spec_from_wire(t),
        None => None,
    }
}

/// An array element holding a wire token of the vocabulary.
pub open spec fn effect_of(m: JsonView) -> Option<FrameEffect> {
    match text_of(m) {
        Some(t) => FrameEffect::spec_from_wire(t),
        None => None,
    }
}

/// The decoded elements, element for element.
pub open spec fn texts_match(items: Seq<JsonView>, xs: Seq<String>) -> bool {
    items.len() == xs.len() && (forall|i: int|
        0 <= i < items.len() ==> text_of(#[trigger] items[i]) == Some(xs[i]@))
}

/// Whether every element decodes.
pub open spec fn texts_ok(items: Seq<JsonView>) -> bool {
    forall|i: int| 0 <= i < items.len() ==> text_of(#[trigger] items[i]) is Some
}

/// The decoded elements, element for element.
pub open spec fn i32s_match(items: Seq<JsonView>, xs: Seq<i32>) -> bool {
    items.len() == xs.len() && (forall|i: int|
        0 <= i < items.len() ==> i32_of(#[trigger] items[i]) == Some(xs[i]))
}

/// Whether every element decodes.
pub open spec fn i32s_ok(items: Seq<JsonView>) -> bool {
    forall|i: int| 0 <= i < items.len() ==> i32_of(#[trigger] items[i]) is Some
}

/// The decoded elements, element for element.
pub open spec fn colors_match(items: Seq<JsonView>, xs: Seq<Colors>) -> bool {
    items.len() == xs.len() && (forall|i: int|
        0 <= i < items.len() ==> color_of(#[trigger] items[i]) == Some(xs[i]))
}

/// Whether every element decodes.
pub open spec fn colors_ok(items: Seq<JsonView>) -> bool {
    forall|i: int| 0 <= i < items.len() ==> color_of(#[trigger] items[i]) is Some
}

/// The decoded elements, element for element.
pub open spec fn finishes_match(items: Seq<JsonView>, xs: Seq<Finishes>) -> bool {
    items.len() == xs.len() && (forall|i: int|
        0 <= i < items.len() ==> finish_of(#[trigger] items[i]) == Some(xs[i]))
}

/// Whether every element decodes.
pub open spec fn finishes_ok(items: Seq<JsonView>) -> bool {
    forall|i: int| 0 <= i < items.len() ==> finish_of(#[trigger] items[i]) is Some
}

/// The decoded elements, element for element.
pub open spec fn games_match(items: Seq<JsonView>, xs: Seq<Game>) -> bool {
    items.len() == xs.len() && (forall|i: int|
        0 <= i < items.len() ==> game_of(#[trigger] items[i]) == Some(xs[i]))
}

/// Whether every element decodes.
pub open spec fn games_ok(items: Seq<JsonView>) -> bool {
    forall|i: int| 0 <= i < items.len() ==> game_of(#[trigger] items[i]) is Some
}

/// The decoded elements, element for element.
pub open spec fn effects_match(items: Seq<JsonView>, xs: Seq<FrameEffect>) -> bool {
    items.len() == xs.len() && (forall|i: int|
        0 <= i < items.len() ==> effect_of(#[trigger] items[i]) == Some(xs[i]))
}

/// Whether every element decodes.
pub open spec fn effects_ok(items: Seq<JsonView>) -> bool {
    forall|i: int| 0 <= i < items.len() ==> effect_of(#[trigger] items[i]) is Some
}

/// A price-object entry: a currency token mapped to a price string or null.
pub open spec fn price_entry_of(p: (Seq<char>, JsonView)) -> Option<
    (PriceType, Option<Seq<char>>),
> {
    match PriceType::spec_from_wire(p.0) {
        Some(k) => match p.1 {
            JsonView::Null => Some((k, None)),
            JsonView::Text(t) => Some((k, Some(t))),
            _ => None,
        },
        None => None,
    }
}

/// The decoded price entries, entry for entry.
pub open spec fn prices_match(ms: Seq<(Seq<char>, JsonView)>, xs: Seq<(PriceType, Option<String>)>) -> bool {
    ms.len() == xs.len() && (forall|i: int|
        0 <= i < ms.len() ==> price_entry_of(#[trigger] ms[i]) == Some((xs[i].0, opt_text(xs[i].1))))
}

/// Whether every price entry decodes.
pub open spec fn prices_ok(ms: Seq<(Seq<char>, JsonView)>) -> bool {
    forall|i: int| 0 <= i < ms.len() ==> price_entry_of(#[trigger] ms[i]) is Some
}

/// A link-object entry: a wire token mapped to an absolute URL.
pub open spec fn image_entry_of(p: (Seq<char>, JsonView)) -> Option<(ImageType, Seq<char>)> {
    match ImageType::spec_from_wire(p.0) {
        Some(k) => match p.1 {
            JsonView::Text(t) => match url_normal_form(t) {
                Some(u) => Some((k, u)),
                None => None,
            },
            _ => None,
        },
        None => None,
    }
}

/// The decoded link entries, entry for entry.
pub open spec fn image_map_match(ms: Seq<(Seq<char>, JsonView)>, xs: Seq<(ImageType, Uri)>) -> bool {
    ms.len() == xs.len() && (forall|i: int|
        0 <= i < ms.len() ==> image_entry_of(#[trigger] ms[i]) == Some((xs[i].0, xs[i].1.0@)))
}

/// Whether every link entry decodes.
pub open spec fn image_map_ok(ms: Seq<(Seq<char>, JsonView)>) -> bool {
    forall|i: int| 0 <= i < ms.len() ==> image_entry_of(#[trigger] ms[i]) is Some
}

/// A link-object entry: a wire token mapped to an absolute URL.
pub open spec fn purchase_entry_of(p: (Seq<char>, JsonView)) -> Option<(PurchaseType, Seq<char>)> {
    match PurchaseType::spec_from_wire(p.0) {
        Some(k) => match p.1 {
            JsonView::Text(t) => match url_normal_form(t) {
                Some(u) => Some((k, u)),
                None => None,
            },
            _ => None,
        },
        None => None,
    }
}

/// The decoded link entries, entry for entry.
pub open spec fn purchase_map_match(ms: Seq<(Seq<char>, JsonView)>, xs: Seq<(PurchaseType, Uri)>) -> bool {
    ms.len() == xs.len() && (forall|i: int|
        0 <= i < ms.len() ==> purchase_entry_of(#[trigger] ms[i]) == Some((xs[i].0, xs[i].1.0@)))
}

/// Whether every link entry decodes.
pub open spec fn purchase_map_ok(ms: Seq<(Seq<char>, JsonView)>) -> bool {
    forall|i: int| 0 <= i < ms.len() ==> purchase_entry_of(#[trigger] ms[i]) is Some
}

/// A link-object entry: a wire token mapped to an absolute URL.
pub open spec fn related_uri_entry_of(p: (Seq<char>, JsonView)) -> Option<(RelatedUriType, Seq<char>)> {
    match RelatedUriType::spec_from_wire(p.0) {
        Some(k) => match p.1 {
            JsonView::Text(t) => match url_normal_form(t) {
                Some(u) => Some((k, u)),
                None => None,
            },
            _ => None,
        },
        None => None,
    }
}

/// The decoded link entries, entry for entry.
pub open spec fn related_uri_map_match(ms: Seq<(Seq<char>, JsonView)>, xs: Seq<(RelatedUriType, Uri)>) -> bool {
    ms.len() == xs.len() && (forall|i: int|
        0 <= i < ms.len() ==> related_uri_entry_of(#[trigger] ms[i]) == Some((xs[i].0, xs[i].1.0@)))
}

/// Whether every link entry decodes.
pub open spec fn related_uri_map_ok(ms: Seq<(Seq<char>, JsonView)>) -> bool {
    forall|i: int| 0 <= i < ms.len() ==> related_uri_entry_of(#[trigger] ms[i]) is Some
}

/// The decoded member, as the decoder reads it.
pub open spec fn req_i32s_mem_matches(dv: JsonView, key: Seq<char>, xs: Seq<i32>) -> bool {
    req_array_mem(dv, key) matches Some(items) && i32s_match(items, xs)
}

/// Whether the member is there and every element decodes.
pub open spec fn req_i32s_mem_ok(dv: JsonView, key: Seq<char>) -> bool {
    req_array_mem(dv, key) matches Some(items) && i32s_ok(items)
}

/// The decoded member, as the decoder reads it.
pub open spec fn req_texts_mem_matches(dv: JsonView, key: Seq<char>, xs: Seq<String>) -> bool {
    req_array_mem(dv, key) matches Some(items) && texts_match(items, xs)
}

/// Whether the member is there and every element decodes.
pub open spec fn req_texts_mem_ok(dv: JsonView, key: Seq<char>) -> bool {
    req_array_mem(dv, key) matches Some(items) && texts_ok(items)
}

/// The decoded member, as the decoder reads it.
pub open spec fn opt_texts_mem_matches(dv: JsonView, key: Seq<char>, o: Option<Vec<String>>) -> bool {
    match opt_array_mem(dv, key) {
        Some(None) => o is None,
        Some(Some(items)) => o matches Some(xs) && texts_match(items, xs@),
        None => false,
    }
}

/// Whether the member is absent or every element decodes.
pub open spec fn opt_texts_mem_ok(dv: JsonView, key: Seq<char>) -> bool {
    match opt_array_mem(dv, key) {
        Some(None) => true,
        Some(Some(items)) => texts_ok(items),
        None => false,
    }
}

/// The decoded member, as the decoder reads it.
pub open spec fn opt_colors_mem_matches(dv: JsonView, key: Seq<char>, o: Option<Vec<Colors>>) -> bool {
    match opt_array_mem(dv, key) {
        Some(None) => o is None,
        Some(Some(items)) => o matches Some(xs) && colors_match(items, xs@),
        None => false,
    }
}

/// Whether the member is absent or every element decodes.
pub open spec fn opt_colors_mem_ok(dv: JsonView, key: Seq<char>) -> bool {
    match opt_array_mem(dv, key) {
        Some(None) => true,
        Some(Some(items)) => colors_ok(items),
        None => false,
    }
}

/// The decoded member, as the decoder reads it.
pub open spec fn req_finishes_mem_matches(dv: JsonView, key: Seq<char>, xs: Seq<Finishes>) -> bool {
    req_array_mem(dv, key) matches Some(items) && finishes_match(items, xs)
}

/// Whether the member is there and every element decodes.
pub open spec fn req_finishes_mem_ok(dv: JsonView, key: Seq<char>) -> bool {
    req_array_mem(dv, key) matches Some(items) && finishes_ok(items)
}

/// The decoded member, as the decoder reads it.
pub open spec fn req_games_mem_matches(dv: JsonView, key: Seq<char>, xs: Seq<Game>) -> bool {
    req_array_mem(dv, key) matches Some(items) && games_match(items, xs)
}

/// Whether the member is there and every element decodes.
pub open spec fn req_games_mem_ok(dv: JsonView, key: Seq<char>) -> bool {
    req_array_mem(dv, key) matches Some(items) && games_ok(items)
}

/// The decoded member, as the decoder reads it.
pub open spec fn opt_effects_mem_matches(dv: JsonView, key: Seq<char>, o: Option<Vec<FrameEffect>>) -> bool {
    match opt_array_mem(dv, key) {
        Some(None) => o is None,
        Some(Some(items)) => o matches Some(xs) && effects_match(items, xs@),
        None => false,
    }
}

/// Whether the member is absent or every element decodes.
pub open spec fn opt_effects_mem_ok(dv: JsonView, key: Seq<char>) -> bool {
    match opt_array_mem(dv, key) {
        Some(None) => true,
        Some(Some(items)) => effects_ok(items),
        None => false,
    }
}

/// The decoded price map, as the decoder reads it.
pub open spec fn req_prices_mem_matches(dv: JsonView, key: Seq<char>, xs: Seq<(PriceType, Option<String>)>) -> bool {
    req_object_mem(dv, key) matches Some(ms) && prices_match(ms, xs)
}

/// Whether the price map is there and every entry decodes.
pub open spec fn req_prices_mem_ok(dv: JsonView, key: Seq<char>) -> bool {
    req_object_mem(dv, key) matches Some(ms) && prices_ok(ms)
}

/// The decoded link map, as the decoder reads it.
pub open spec fn opt_image_map_mem_matches(dv: JsonView, key: Seq<char>, o: Option<Vec<(ImageType, Uri)>>) -> bool {
    match opt_object_mem(dv, key) {
        Some(None) => o is None,
        Some(Some(ms)) => o matches Some(xs) && image_map_match(ms, xs@),
        None => false,
    }
}

/// Whether the link map is absent or every entry decodes.
pub open spec fn opt_image_map_mem_ok(dv: JsonView, key: Seq<char>) -> bool {
    match opt_object_mem(dv, key) {
        Some(None) => true,
        Some(Some(ms)) => image_map_ok(ms),
        None => false,
    }
}

/// The decoded link map, as the decoder reads it.
pub open spec fn opt_purchase_map_mem_matches(dv: JsonView, key: Seq<char>, o: Option<Vec<(PurchaseType, Uri)>>) -> bool {
    match opt_object_mem(dv, key) {
        Some(None) => o is None,
        Some(Some(ms)) => o matches Some(xs) && purchase_map_match(ms, xs@),
        None => false,
    }
}

/// Whether the link map is absent or every entry decodes.
pub open spec fn opt_purchase_map_mem_ok(dv: JsonView, key: Seq<char>) -> bool {
    match opt_object_mem(dv, key) {
        Some(None) => true,
        Some(Some(ms)) => purchase_map_ok(ms),
        None => false,
    }
}

/// The decoded link map, as the decoder reads it.
pub open spec fn opt_related_uri_map_mem_matches(dv: JsonView, key: Seq<char>, o: Option<Vec<(RelatedUriType, Uri)>>) -> bool {
    match opt_object_mem(dv, key) {
        Some(None) => o is None,
        Some(Some(ms)) => o matches Some(xs) && related_uri_map_match(ms, xs@),
        None => false,
    }
}

/// Whether the link map is absent or every entry decodes.
pub open spec fn opt_related_uri_map_mem_ok(dv: JsonView, key: Seq<char>) -> bool {
    match opt_object_mem(dv, key) {
        Some(None) => true,
        Some(Some(ms)) => related_uri_map_ok(ms),
        None => false,
    }
}

/// Whether the document reads, member by member, as exactly this preview record.
pub open spec fn preview_matches(dv: JsonView, p: Preview) -> bool {
    req_string_mem(dv, "previewed_at"@) == Some(p.previewed_at@)
    && req_string_mem(dv, "source_uri"@) == Some(p.source_uri@)
    && req_string_mem(dv, "source"@) == Some(p.source@)
}

/// Whether the document has the shape the preview record decode requires.
pub open spec fn is_preview_doc(dv: JsonView) -> bool {
    req_string_mem(dv, "previewed_at"@) is Some
    && req_string_mem(dv, "source_uri"@) is Some
    && req_string_mem(dv, "source"@) is Some
}

/// Whether the document reads, member by member, as exactly this related-card reference.
pub open spec fn related_matches(dv: JsonView, rc: RelatedCard) -> bool {
    req_string_mem(dv, "id"@) == Some(rc.id.0@)
    && req_string_mem(dv, "object"@) == Some(rc.object@)
    && component_mem(dv, "component"@) == Some(rc.component)
    && req_string_mem(dv, "name"@) == Some(rc.name@)
    && req_string_mem(dv, "type_line"@) == Some(rc.type_line@)
    && req_uri_mem(dv, "uri"@) == Some(rc.uri.0@)
}

/// Whether the document has the shape the related-card reference decode requires.
pub open spec fn is_related_doc(dv: JsonView) -> bool {
    req_string_mem(dv, "id"@) is Some
    && req_string_mem(dv, "object"@) is Some
    && component_mem(dv, "component"@) is Some
    && req_string_mem(dv, "name"@) is Some
    && req_string_mem(dv, "type_line"@) is Some
    && req_uri_mem(dv, "uri"@) is Some
}

/// Whether the document reads, member by member, as exactly this legalities record.
pub open spec fn legalities_matches(dv: JsonView, l: Legalities) -> bool {
    legality_mem(dv, "standard"@) == Some(l.standard)
    && legality_mem(dv, "future"@) == Some(l.future)
    && legality_mem(dv, "historic"@) == Some(l.historic)
    && legality_mem(dv, "timeless"@) == Some(l.timeless)
    && legality_mem(dv, "gladiator"@) == Some(l.gladiator)
    && legality_mem(dv, "pioneer"@) == Some(l.pioneer)
    && legality_mem(dv, "explorer"@) == Some(l.explorer)
    && legality_mem(dv, "modern"@) == Some(l.modern)
    && legality_mem(dv, "legacy"@) == Some(l.legacy)
    && legality_mem(dv, "pauper"@) == Some(l.pauper)
    && legality_mem(dv, "vintage"@) == Some(l.vintage)
    && legality_mem(dv, "penny"@) == Some(l.penny)
    && legality_mem(dv, "commander"@) == Some(l.commander)
    && legality_mem(dv, "oathbreaker"@) == Some(l.oathbreaker)
    && legality_mem(dv, "standardbrawl"@) == Some(l.standardbrawl)
    && legality_mem(dv, "brawl"@) == Some(l.brawl)
    && legality_mem(dv, "alchemy"@) == Some(l.alchemy)
    && legality_mem(dv, "paupercommander"@) == Some(l.paupercommander)
    && legality_mem(dv, "duel"@) == Some(l.duel)
    && legality_mem(dv, "oldschool"@) == Some(l.oldschool)
    && legality_mem(dv, "premodern"@) == Some(l.premodern)
    && legality_mem(dv, "predh"@) == Some(l.predh)
}

/// Whether the document has the shape the legalities record decode requires.
pub open spec fn is_legalities_doc(dv: JsonView) -> bool {
    legality_mem(dv, "standard"@) is Some
    && legality_mem(dv, "future"@) is Some
    && legality_mem(dv, "historic"@) is Some
    && legality_mem(dv, "timeless"@) is Some
    && legality_mem(dv, "gladiator"@) is Some
    && legality_mem(dv, "pioneer"@) is Some
    && legality_mem(dv, "explorer"@) is Some
    && legality_mem(dv, "modern"@) is Some
    && legality_mem(dv, "legacy"@) is Some
    && legality_mem(dv, "pauper"@) is Some
    && legality_mem(dv, "vintage"@) is Some
    && legality_mem(dv, "penny"@) is Some
    && legality_mem(dv, "commander"@) is Some
    && legality_mem(dv, "oathbreaker"@) is Some
    && legality_mem(dv, "standardbrawl"@) is Some
    && legality_mem(dv, "brawl"@) is Some
    && legality_mem(dv, "alchemy"@) is Some
    && legality_mem(dv, "paupercommander"@) is Some
    && legality_mem(dv, "duel"@) is Some
    && legality_mem(dv, "oldschool"@) is Some
    && legality_mem(dv, "premodern"@) is Some
    && legality_mem(dv, "predh"@) is Some
}

/// The decoded legalities member, as the decoder reads it.
pub open spec fn legalities_mem_matches(dv: JsonView, key: Seq<char>, l: Legalities) -> bool {
    mem(dv, key) matches Some(m) && legalities_matches(m, l)
}

/// Whether the legalities member is there and decodes whole.
pub open spec fn legalities_mem_ok(dv: JsonView, key: Seq<char>) -> bool {
    mem(dv, key) matches Some(m) && is_legalities_doc(m)
}

/// The decoded preview member, as the decoder reads it.
pub open spec fn opt_preview_mem_matches(dv: JsonView, key: Seq<char>, o: Option<Preview>) -> bool {
    match mem(dv, key) {
        None => o is None,
        Some(m) => o matches Some(p) && preview_matches(m, p),
    }
}

/// Whether the preview member is absent or decodes whole.
pub open spec fn opt_preview_mem_ok(dv: JsonView, key: Seq<char>) -> bool {
    match mem(dv, key) {
        None => true,
        Some(m) => is_preview_doc(m),
    }
}

/// The decoded related-card elements, element for element.
pub open spec fn related_seq_match(items: Seq<JsonView>, rs: Seq<RelatedCard>) -> bool {
    items.len() == rs.len() && (forall|i: int|
        0 <= i < items.len() ==> related_matches(#[trigger] items[i], rs[i]))
}

/// Whether every related-card element decodes.
pub open spec fn related_seq_ok(items: Seq<JsonView>) -> bool {
    forall|i: int| 0 <= i < items.len() ==> is_related_doc(#[trigger] items[i])
}

/// The decoded related-card member, as the decoder reads it.
pub open spec fn opt_related_mem_matches(dv: JsonView, key: Seq<char>, o: Option<Vec<RelatedCard>>) -> bool {
    match opt_array_mem(dv, key) {
        Some(None) => o is None,
        Some(Some(items)) => o matches Some(xs) && related_seq_match(items, xs@),
        None => false,
    }
}

/// Whether the related-card member is absent or every element decodes.
pub open spec fn opt_related_mem_ok(dv: JsonView, key: Seq<char>) -> bool {
    match opt_array_mem(dv, key) {
        Some(None) => true,
        Some(Some(items)) => related_seq_ok(items),
        None => false,
    }
}

/// Whether the document reads, member by member, as exactly this card face.
pub open spec fn face_matches(dv: JsonView, f: CardFace) -> bool {
    opt_string_mem(dv, "artist"@) == Some(opt_text(f.artist))
    && opt_string_mem(dv, "artist_id"@) == Some(opt_text(f.artist_id))
    && opt_number_mem(dv, "cmc"@) == Some(opt_text(f.cmc))
    && opt_colors_mem_matches(dv, "color_indicator"@, f.color_indicator)
    && opt_colors_mem_matches(dv, "colors"@, f.colors)
    && opt_string_mem(dv, "defense"@) == Some(opt_text(f.defense))
    && opt_string_mem(dv, "flavor_text"@) == Some(opt_text(f.flavor_text))
    && opt_string_mem(dv, "illustration_id"@) == Some(opt_text(f.illustration_id))
    && opt_image_map_mem_matches(dv, "image_uris"@, f.image_uris)
    && layout_opt_mem(dv, "layout"@) == Some(f.layout)
    && opt_string_mem(dv, "loyalty"@) == Some(opt_text(f.loyalty))
    && opt_string_mem(dv, "mana_cost"@) == Some(opt_text(f.mana_cost))
    && req_string_mem(dv, "name"@) == Some(f.name@)
    && req_string_mem(dv, "object"@) == Some(f.object@)
    && opt_string_mem(dv, "oracle_id"@) == Some(opt_oracle_text(f.oracle_id))
    && opt_string_mem(dv, "oracle_text"@) == Some(opt_text(f.oracle_text))
    && opt_string_mem(dv, "power"@) == Some(opt_text(f.power))
    && opt_string_mem(dv, "printed_name"@) == Some(opt_text(f.printed_name))
    && opt_string_mem(dv, "printed_text"@) == Some(opt_text(f.printed_text))
    && opt_string_mem(dv, "printed_type_line"@) == Some(opt_text(f.printed_type_line))
    && opt_string_mem(dv, "toughness"@) == Some(opt_text(f.toughness))
    && opt_string_mem(dv, "type_line"@) == Some(opt_text(f.type_line))
    && opt_string_mem(dv, "watermark"@) == Some(opt_text(f.watermark))
}

/// Whether the document has the shape the card face decode requires.
pub open spec fn is_face_doc(dv: JsonView) -> bool {
    opt_string_mem(dv, "artist"@) is Some
    && opt_string_mem(dv, "artist_id"@) is Some
    && opt_number_mem(dv, "cmc"@) is Some
    && opt_colors_mem_ok(dv, "color_indicator"@)
    && opt_colors_mem_ok(dv, "colors"@)
    && opt_string_mem(dv, "defense"@) is Some
    && opt_string_mem(dv, "flavor_text"@) is Some
    && opt_string_mem(dv, "illustration_id"@) is Some
    && opt_image_map_mem_ok(dv, "image_uris"@)
    && layout_opt_mem(dv, "layout"@) is Some
    && opt_string_mem(dv, "loyalty"@) is Some
    && opt_string_mem(dv, "mana_cost"@) is Some
    && req_string_mem(dv, "name"@) is Some
    && req_string_mem(dv, "object"@) is Some
    && opt_string_mem(dv, "oracle_id"@) is Some
    && opt_string_mem(dv, "oracle_text"@) is Some
    && opt_string_mem(dv, "power"@) is Some
    && opt_string_mem(dv, "printed_name"@) is Some
    && opt_string_mem(dv, "printed_text"@) is Some
    && opt_string_mem(dv, "printed_type_line"@) is Some
    && opt_string_mem(dv, "toughness"@) is Some
    && opt_string_mem(dv, "type_line"@) is Some
    && opt_string_mem(dv, "watermark"@) is Some
}

/// The decoded face elements, element for element.
pub open spec fn faces_seq_match(items: Seq<JsonView>, fs: Seq<CardFace>) -> bool {
    items.len() == fs.len() && (forall|i: int|
        0 <= i < items.len() ==> face_matches(#[trigger] items[i], fs[i]))
}

/// Whether every face element decodes.
pub open spec fn faces_seq_ok(items: Seq<JsonView>) -> bool {
    forall|i: int| 0 <= i < items.len() ==> is_face_doc(#[trigger] items[i])
}

/// The decoded card-face member, as the decoder reads it.
pub open spec fn opt_faces_mem_matches(dv: JsonView, key: Seq<char>, o: Option<Vec<CardFace>>) -> bool {
    match opt_array_mem(dv, key) {
        Some(None) => o is None,
        Some(Some(items)) => o matches Some(xs) && faces_seq_match(items, xs@),
        None => false,
    }
}

/// Whether the card-face member is absent or every element decodes.
pub open spec fn opt_faces_mem_ok(dv: JsonView, key: Seq<char>) -> bool {
    match opt_array_mem(dv, key) {
        Some(None) => true,
        Some(Some(items)) => faces_seq_ok(items),
        None => false,
    }
}

/// Whether the document reads, member by member, as exactly this card.
pub open spec fn card_matches(dv: JsonView, c: Card) -> bool {
    opt_i32_mem(dv, "arena_id"@) == Some(c.arena_id)
    && req_string_mem(dv, "id"@) == Some(c.id.0@)
    && language_mem(dv, "lang"@) == Some(c.lang)
    && opt_i32_mem(dv, "mtgo_id"@) == Some(c.mtgo_id)
    && opt_i32_mem(dv, "mtgo_foil_id"@) == Some(c.mtgo_foil_id)
    && req_i32s_mem_matches(dv, "multiverse_ids"@, c.multiverse_ids@)
    && opt_i32_mem(dv, "tcgplayer_id"@) == Some(c.tcgplayer_id)
    && opt_i32_mem(dv, "tcgplayer_etched_id"@) == Some(c.tcgplayer_etched_id)
    && opt_i32_mem(dv, "cardmarket_id"@) == Some(c.cardmarket_id)
    && req_string_mem(dv, "object"@) == Some(c.object@)
    && layout_mem(dv, "layout"@) == Some(c.layout)
    && opt_string_mem(dv, "oracle_id"@) == Some(opt_oracle_text(c.oracle_id))
    && req_uri_mem(dv, "prints_search_uri"@) == Some(c.prints_search_uri.0@)
    && req_uri_mem(dv, "rulings_uri"@) == Some(c.rulings_uri.0@)
    && req_uri_mem(dv, "scryfall_uri"@) == Some(c.scryfall_uri.0@)
    && req_uri_mem(dv, "uri"@) == Some(c.uri.0@)
    && opt_related_mem_matches(dv, "all_parts"@, c.all_parts)
    && opt_faces_mem_matches(dv, "card_faces"@, c.card_faces)
    && opt_number_mem(dv, "cmc"@) == Some(opt_text(c.cmc))
    && opt_colors_mem_matches(dv, "color_identity"@, c.color_identity)
    && opt_colors_mem_matches(dv, "color_indicator"@, c.color_indicator)
    && opt_colors_mem_matches(dv, "colors"@, c.colors)
    && opt_string_mem(dv, "defense"@) == Some(opt_text(c.defense))
    && opt_i32_mem(dv, "edhrec_rank"@) == Some(c.edhrec_rank)
    && opt_bool_mem(dv, "game_changer"@) == Some(c.game_changer)
    && opt_string_mem(dv, "hand_modifier"@) == Some(opt_text(c.hand_modifier))
    && req_texts_mem_matches(dv, "keywords"@, c.keywords@)
    && legalities_mem_matches(dv, "legalities"@, c.legalities)
    && opt_string_mem(dv, "life_modifier"@) == Some(opt_text(c.life_modifier))
    && opt_string_mem(dv, "loyalty"@) == Some(opt_text(c.loyalty))
    && opt_string_mem(dv, "mana_cost"@) == Some(opt_text(c.mana_cost))
    && req_string_mem(dv, "name"@) == Some(c.name@)
    && opt_string_mem(dv, "oracle_text"@) == Some(opt_text(c.oracle_text))
    && opt_i32_mem(dv, "penny_rank"@) == Some(c.penny_rank)
    && opt_string_mem(dv, "power"@) == Some(opt_text(c.power))
    && opt_texts_mem_matches(dv, "produced_mana"@, c.produced_mana)
    && req_bool_mem(dv, "reserved"@) == Some(c.reserved)
    && opt_string_mem(dv, "toughness"@) == Some(opt_text(c.toughness))
    && opt_string_mem(dv, "type_line"@) == Some(opt_text(c.type_line))
    && opt_string_mem(dv, "artist"@) == Some(opt_text(c.artist))
    && opt_texts_mem_matches(dv, "artist_ids"@, c.artist_ids)
    && req_bool_mem(dv, "booster"@) == Some(c.booster)
    && border_color_mem(dv, "border_color"@) == Some(c.border_color)
    && opt_string_mem(dv, "card_back_id"@) == Some(opt_scryfall_text(c.card_back_id))
    && req_string_mem(dv, "collector_number"@) == Some(c.collector_number@)
    && opt_bool_mem(dv, "content_warning"@) == Some(c.content_warning)
    && req_bool_mem(dv, "digital"@) == Some(c.digital)
    && req_finishes_mem_matches(dv, "finishes"@, c.finishes@)
    && opt_string_mem(dv, "flavor_name"@) == Some(opt_text(c.flavor_name))
    && opt_string_mem(dv, "flavor_text"@) == Some(opt_text(c.flavor_text))
    && opt_effects_mem_matches(dv, "flavor_effects"@, c.flavor_effects)
    && frame_layout_mem(dv, "frame"@) == Some(c.frame)
    && req_bool_mem(dv, "full_art"@) == Some(c.full_art)
    && req_games_mem_matches(dv, "games"@, c.games@)
    && req_bool_mem(dv, "highres_image"@) == Some(c.highres_image)
    && opt_string_mem(dv, "illustration_id"@) == Some(opt_text(c.illustration_id))
    && image_status_mem(dv, "image_status"@) == Some(c.image_status)
    && opt_image_map_mem_matches(dv, "image_uris"@, c.image_uris)
    && req_bool_mem(dv, "oversized"@) == Some(c.oversized)
    && req_prices_mem_matches(dv, "prices"@, c.prices@)
    && opt_string_mem(dv, "printed_name"@) == Some(opt_text(c.printed_name))
    && opt_string_mem(dv, "printed_text"@) == Some(opt_text(c.printed_text))
    && opt_string_mem(dv, "printed_type_line"@) == Some(opt_text(c.printed_type_line))
    && req_bool_mem(dv, "promo"@) == Some(c.promo)
    && opt_texts_mem_matches(dv, "promo_types"@, c.promo_types)
    && opt_purchase_map_mem_matches(dv, "purchase_uris"@, c.purchase_uris)
    && rarity_mem(dv, "rarity"@) == Some(c.rarity)
    && opt_related_uri_map_mem_matches(dv, "related_uris"@, c.related_uris)
    && req_string_mem(dv, "released_at"@) == Some(c.released_at@)
    && req_bool_mem(dv, "reprint"@) == Some(c.reprint)
    && req_uri_mem(dv, "scryfall_set_uri"@) == Some(c.scryfall_set_uri.0@)
    && req_string_mem(dv, "set_name"@) == Some(c.set_name@)
    && req_uri_mem(dv, "set_search_uri"@) == Some(c.set_search_uri.0@)
    && req_string_mem(dv, "set_type"@) == Some(c.set_type@)
    && req_uri_mem(dv, "set_uri"@) == Some(c.set_uri.0@)
    && req_string_mem(dv, "set"@) == Some(c.set_code@)
    && req_string_mem(dv, "set_id"@) == Some(c.set_id@)
    && req_bool_mem(dv, "story_spotlight"@) == Some(c.story_spotlight)
    && req_bool_mem(dv, "textless"@) == Some(c.textless)
    && req_bool_mem(dv, "variation"@) == Some(c.variation)
    && opt_string_mem(dv, "variation_of"@) == Some(opt_text(c.variation_of))
    && stamp_opt_mem(dv, "security_stamp"@) == Some(c.security_stamp)
    && opt_string_mem(dv, "watermark"@) == Some(opt_text(c.watermark))
    && opt_preview_mem_matches(dv, "preview"@, c.preview)
}

/// Whether the document has the shape the card decode requires.
pub open spec fn is_card_doc(dv: JsonView) -> bool {
    opt_i32_mem(dv, "arena_id"@) is Some
    && req_string_mem(dv, "id"@) is Some
    && language_mem(dv, "lang"@) is Some
    && opt_i32_mem(dv, "mtgo_id"@) is Some
    && opt_i32_mem(dv, "mtgo_foil_id"@) is Some
    && req_i32s_mem_ok(dv, "multiverse_ids"@)
    && opt_i32_mem(dv, "tcgplayer_id"@) is Some
    && opt_i32_mem(dv, "tcgplayer_etched_id"@) is Some
    && opt_i32_mem(dv, "cardmarket_id"@) is Some
    && req_string_mem(dv, "object"@) is Some
    && layout_mem(dv, "layout"@) is Some
    && opt_string_mem(dv, "oracle_id"@) is Some
    && req_uri_mem(dv, "prints_search_uri"@) is Some
    && req_uri_mem(dv, "rulings_uri"@) is Some
    && req_uri_mem(dv, "scryfall_uri"@) is Some
    && req_uri_mem(dv, "uri"@) is Some
    && opt_related_mem_ok(dv, "all_parts"@)
    && opt_faces_mem_ok(dv, "card_faces"@)
    && opt_number_mem(dv, "cmc"@) is Some
    && opt_colors_mem_ok(dv, "color_identity"@)
    && opt_colors_mem_ok(dv, "color_indicator"@)
    && opt_colors_mem_ok(dv, "colors"@)
    && opt_string_mem(dv, "defense"@) is Some
    && opt_i32_mem(dv, "edhrec_rank"@) is Some
    && opt_bool_mem(dv, "game_changer"@) is Some
    && opt_string_mem(dv, "hand_modifier"@) is Some
    && req_texts_mem_ok(dv, "keywords"@)
    && legalities_mem_ok(dv, "legalities"@)
    && opt_string_mem(dv, "life_modifier"@) is Some
    && opt_string_mem(dv, "loyalty"@) is Some
    && opt_string_mem(dv, "mana_cost"@) is Some
    && req_string_mem(dv, "name"@) is Some
    && opt_string_mem(dv, "oracle_text"@) is Some
    && opt_i32_mem(dv, "penny_rank"@) is Some
    && opt_string_mem(dv, "power"@) is Some
    && opt_texts_mem_ok(dv, "produced_mana"@)
    && req_bool_mem(dv, "reserved"@) is Some
    && opt_string_mem(dv, "toughness"@) is Some
    && opt_string_mem(dv, "type_line"@) is Some
    && opt_string_mem(dv, "artist"@) is Some
    && opt_texts_mem_ok(dv, "artist_ids"@)
    && req_bool_mem(dv, "booster"@) is Some
    && border_color_mem(dv, "border_color"@) is Some
    && opt_string_mem(dv, "card_back_id"@) is Some
    && req_string_mem(dv, "collector_number"@) is Some
    && opt_bool_mem(dv, "content_warning"@) is Some
    && req_bool_mem(dv, "digital"@) is Some
    && req_finishes_mem_ok(dv, "finishes"@)
    && opt_string_mem(dv, "flavor_name"@) is Some
    && opt_string_mem(dv, "flavor_text"@) is Some
    && opt_effects_mem_ok(dv, "flavor_effects"@)
    && frame_layout_mem(dv, "frame"@) is Some
    && req_bool_mem(dv, "full_art"@) is Some
    && req_games_mem_ok(dv, "games"@)
    && req_bool_mem(dv, "highres_image"@) is Some
    && opt_string_mem(dv, "illustration_id"@) is Some
    && image_status_mem(dv, "image_status"@) is Some
    && opt_image_map_mem_ok(dv, "image_uris"@)
    && req_bool_mem(dv, "oversized"@) is Some
    && req_prices_mem_ok(dv, "prices"@)
    && opt_string_mem(dv, "printed_name"@) is Some
    && opt_string_mem(dv, "printed_text"@) is Some
    && opt_string_mem(dv, "printed_type_line"@) is Some
    && req_bool_mem(dv, "promo"@) is Some
    && opt_texts_mem_ok(dv, "promo_types"@)
    && opt_purchase_map_mem_ok(dv, "purchase_uris"@)
    && rarity_mem(dv, "rarity"@) is Some
    && opt_related_uri_map_mem_ok(dv, "related_uris"@)
    && req_string_mem(dv, "released_at"@) is Some
    && req_bool_mem(dv, "reprint"@) is Some
    && req_uri_mem(dv, "scryfall_set_uri"@) is Some
    && req_string_mem(dv, "set_name"@) is Some
    && req_uri_mem(dv, "set_search_uri"@) is Some
    && req_string_mem(dv, "set_type"@) is Some
    && req_uri_mem(dv, "set_uri"@) is Some
    && req_string_mem(dv, "set"@) is Some
    && req_string_mem(dv, "set_id"@) is Some
    && req_bool_mem(dv, "story_spotlight"@) is Some
    && req_bool_mem(dv, "textless"@) is Some
    && req_bool_mem(dv, "variation"@) is Some
    && opt_string_mem(dv, "variation_of"@) is Some
    && stamp_opt_mem(dv, "security_stamp"@) is Some
    && opt_string_mem(dv, "watermark"@) is Some
    && opt_preview_mem_ok(dv, "preview"@)
}

/// Whether the document reads, member by member, as exactly this error envelope.
pub open spec fn error_matches(dv: JsonView, e: ScryfallError) -> bool {
    req_u16_mem(dv, "status"@) == Some(e.status)
    && req_string_mem(dv, "code"@) == Some(e.code@)
    && req_string_mem(dv, "details"@) == Some(e.details@)
    && opt_string_mem(dv, "type"@) == Some(opt_text(e.type_))
    && opt_texts_mem_matches(dv, "warnings"@, e.warnings)
}

/// Whether the document has the shape the error envelope decode requires.
pub open spec fn is_error_doc(dv: JsonView) -> bool {
    req_u16_mem(dv, "status"@) is Some
    && req_string_mem(dv, "code"@) is Some
    && req_string_mem(dv, "details"@) is Some
    && opt_string_mem(dv, "type"@) is Some
    && opt_texts_mem_ok(dv, "warnings"@)
}

// ===== The decoders =====

/// The parse error for a required member that the document does not have.
fn missing_member(key: &str) -> (r: ScryfallError)
    ensures
        is_parse_error(r),
{
    let mut d = String::from_str("missing member: ");
    d.append(key);
    ScryfallError::parse_error(d)
}

/// The parse error for a member whose value has the wrong shape.
fn mismatched_member(key: &str) -> (r: ScryfallError)
    ensures
        is_parse_error(r),
{
    let mut d = String::from_str("mismatched member: ");
    d.append(key);
    ScryfallError::parse_error(d)
}

/// The member's value, with an absent member and a null value both read as
/// "not there".
fn opt_member<'a>(v: &'a serde_json::Value, key: &str) -> (r: Option<&'a serde_json::Value>)
    ensures
        match r {
            Some(m) => mem(json_view(*v), key@) == Some(json_view(*m)),
            None => mem(json_view(*v), key@) is None,
        },
{
    match json_get(v, key) {
        Some(m) => if json_is_null(m) {
            None
        } else {
            Some(m)
        },
        None => None,
    }
}

/// A required string member.
fn req_string(v: &serde_json::Value, key: &str) -> (r: Result<String, ScryfallError>)
    ensures
        r matches Ok(s) ==> req_string_mem(json_view(*v), key@) == Some(s@),
        r matches Err(e) ==> is_parse_error(e) && req_string_mem(json_view(*v), key@) is None,
{
    match opt_member(v, key) {
        Some(m) => match json_as_str(m) {
            Some(s) => Ok(s),
            None => Err(mismatched_member(key)),
        },
        None => Err(missing_member(key)),
    }
}

/// An optional string member: absent or null reads as nothing.
fn opt_string(v: &serde_json::Value, key: &str) -> (r: Result<Option<String>, ScryfallError>)
    ensures
        r matches Ok(o) ==> opt_string_mem(json_view(*v), key@) == Some(opt_text(o)),
        r matches Err(e) ==> is_parse_error(e) && opt_string_mem(json_view(*v), key@) is None,
{
    match opt_member(v, key) {
        Some(m) => match json_as_str(m) {
            Some(s) => Ok(Some(s)),
            None => Err(mismatched_member(key)),
        },
        None => Ok(None),
    }
}

/// A required boolean member.
fn req_bool(v: &serde_json::Value, key: &str) -> (r: Result<bool, ScryfallError>)
    ensures
        r matches Ok(b) ==> req_bool_mem(json_view(*v), key@) == Some(b),
        r matches Err(e) ==> is_parse_error(e) && req_bool_mem(json_view(*v), key@) is None,
{
    match opt_member(v, key) {
        Some(m) => match json_as_bool(m) {
            Some(b) => Ok(b),
            None => Err(mismatched_member(key)),
        },
        None => Err(missing_member(key)),
    }
}

/// An optional boolean member.
fn opt_bool(v: &serde_json::Value, key: &str) -> (r: Result<Option<bool>, ScryfallError>)
    ensures
        r matches Ok(o) ==> opt_bool_mem(json_view(*v), key@) == Some(o),
        r matches Err(e) ==> is_parse_error(e) && opt_bool_mem(json_view(*v), key@) is None,
{
    match opt_member(v, key) {
        Some(m) => match json_as_bool(m) {
            Some(b) => Ok(Some(b)),
            None => Err(mismatched_member(key)),
        },
        None => Ok(None),
    }
}

/// An optional signed 32-bit integer member; an integer outside the range
/// is a mismatch.
fn opt_i32(v: &serde_json::Value, key: &str) -> (r: Result<Option<i32>, ScryfallError>)
    ensures
        r matches Ok(o) ==> opt_i32_mem(json_view(*v), key@) == Some(o),
        r matches Err(e) ==> is_parse_error(e) && opt_i32_mem(json_view(*v), key@) is None,
{
    match opt_member(v, key) {
        Some(m) => match json_as_i64(m) {
            Some(x) => if -2147483648i64 <= x && x <= 2147483647i64 {
                Ok(Some(x as i32))
            } else {
                Err(mismatched_member(key))
            },
            None => Err(mismatched_member(key)),
        },
        None => Ok(None),
    }
}

/// A required unsigned 16-bit integer member; an integer outside the range
/// is a mismatch.
fn req_u16(v: &serde_json::Value, key: &str) -> (r: Result<u16, ScryfallError>)
    ensures
        r matches Ok(x) ==> req_u16_mem(json_view(*v), key@) == Some(x),
        r matches Err(e) ==> is_parse_error(e) && req_u16_mem(json_view(*v), key@) is None,
{
    match opt_member(v, key) {
        Some(m) => match json_as_u64(m) {
            Some(x) => if x <= 65535u64 {
                Ok(x as u16)
            } else {
                Err(mismatched_member(key))
            },
            None => Err(mismatched_member(key)),
        },
        None => Err(missing_member(key)),
    }
}

/// An optional number member, kept as the number's JSON text.
fn opt_number_text(v: &serde_json::Value, key: &str) -> (r: Result<
    Option<String>,
    ScryfallError,
>)
    ensures
        r matches Ok(o) ==> opt_number_mem(json_view(*v), key@) == Some(opt_text(o)),
        r matches Err(e) ==> is_parse_error(e) && opt_number_mem(json_view(*v), key@) is None,
{
    match opt_member(v, key) {
        Some(m) => if json_is_number(m) {
            Ok(Some(json_unparse(m)))
        } else {
            Err(mismatched_member(key))
        },
        None => Ok(None),
    }
}

/// A required URL-valued member; text that is not an absolute URL is a
/// mismatch.
fn req_uri(v: &serde_json::Value, key: &str) -> (r: Result<Uri, ScryfallError>)
    ensures
        r matches Ok(u) ==> req_uri_mem(json_view(*v), key@) == Some(u.0@),
        r matches Err(e) ==> is_parse_error(e) && req_uri_mem(json_view(*v), key@) is None,
{
    match opt_member(v, key) {
        Some(m) => match json_as_str(m) {
            Some(s) => match Uri::parse(s.as_str()) {
                Some(u) => Ok(u),
                None => Err(mismatched_member(key)),
            },
            None => Err(mismatched_member(key)),
        },
        None => Err(missing_member(key)),
    }
}

/// A required member holding a wire token of the vocabulary.
fn req_language(v: &serde_json::Value, key: &str) -> (r: Result<Language, ScryfallError>)
    ensures
        r matches Ok(x) ==> language_mem(json_view(*v), key@) == Some(x),
        r matches Err(e) ==> is_parse_error(e) && language_mem(json_view(*v), key@) is None,
{
    let s = req_string(v, key)?;
    match Language::from_wire(s.as_str()) {
        Some(x) => Ok(x),
        None => Err(mismatched_member(key)),
    }
}

/// A required member holding a wire token of the vocabulary.
fn req_layout(v: &serde_json::Value, key: &str) -> (r: Result<Layout, ScryfallError>)
    ensures
        r matches Ok(x) ==> layout_mem(json_view(*v), key@) == Some(x),
        r matches Err(e) ==> is_parse_error(e) && layout_mem(json_view(*v), key@) is None,
{
    let s = req_string(v, key)?;
    match Layout::from_wire(s.as_str()) {
        Some(x) => Ok(x),
        None => Err(mismatched_member(key)),
    }
}

/// A required member holding a wire token of the vocabulary.
fn req_border_color(v: &serde_json::Value, key: &str) -> (r: Result<BorderColor, ScryfallError>)
    ensures
        r matches Ok(x) ==> border_color_mem(json_view(*v), key@) == Some(x),
        r matches Err(e) ==> is_parse_error(e) && border_color_mem(json_view(*v), key@) is None,
{
    let s = req_string(v, key)?;
    match BorderColor::from_wire(s.as_str()) {
        Some(x) => Ok(x),
        None => Err(mismatched_member(key)),
    }
}

/// A required member holding a wire token of the vocabulary.
fn req_frame_layout(v: &serde_json::Value, key: &str) -> (r: Result<FrameLayout, ScryfallError>)
    ensures
        r matches Ok(x) ==> frame_layout_mem(json_view(*v), key@) == Some(x),
        r matches Err(e) ==> is_parse_error(e) && frame_layout_mem(json_view(*v), key@) is None,
{
    let s = req_string(v, key)?;
    match FrameLayout::from_wire(s.as_str()) {
        Some(x) => Ok(x),
        None => Err(mismatched_member(key)),
    }
}

/// A required member holding a wire token of the vocabulary.
fn req_image_status(v: &serde_json::Value, key: &str) -> (r: Result<ImageStatus, ScryfallError>)
    ensures
        r matches Ok(x) ==> image_status_mem(json_view(*v), key@) == Some(x),
        r matches Err(e) ==> is_parse_error(e) && image_status_mem(json_view(*v), key@) is None,
{
    let s = req_string(v, key)?;
    match ImageStatus::from_wire(s.as_str()) {
        Some(x) => Ok(x),
        None => Err(mismatched_member(key)),
    }
}

/// A required member holding a wire token of the vocabulary.
fn req_rarity(v: &serde_json::Value, key: &str) -> (r: Result<Rarity, ScryfallError>)
    ensures
        r matches Ok(x) ==> rarity_mem(json_view(*v), key@) == Some(x),
        r matches Err(e) ==> is_parse_error(e) && rarity_mem(json_view(*v), key@) is None,
{
    let s = req_string(v, key)?;
    match Rarity::from_wire(s.as_str()) {
        Some(x) => Ok(x),
        None => Err(mismatched_member(key)),
    }
}

/// A required member holding a wire token of the vocabulary.
fn req_related_card_type(v: &serde_json::Value, key: &str) -> (r: Result<RelatedCardType, ScryfallError>)
    ensures
        r matches Ok(x) ==> component_mem(json_view(*v), key@) == Some(x),
        r matches Err(e) ==> is_parse_error(e) && component_mem(json_view(*v), key@) is None,
{
    let s = req_string(v, key)?;
    match RelatedCardType::from_wire(s.as_str()) {
        Some(x) => Ok(x),
        None => Err(mismatched_member(key)),
    }
}

/// A required member holding a wire token of the vocabulary.
fn req_legality(v: &serde_json::Value, key: &str) -> (r: Result<Legality, ScryfallError>)
    ensures
        r matches Ok(x) ==> legality_mem(json_view(*v), key@) == Some(x),
        r matches Err(e) ==> is_parse_error(e) && legality_mem(json_view(*v), key@) is None,
{
    let s = req_string(v, key)?;
    match Legality::from_wire(s.as_str()) {
        Some(x) => Ok(x),
        None => Err(mismatched_member(key)),
    }
}

/// An optional member holding a wire token of the vocabulary.
fn opt_layout(v: &serde_json::Value, key: &str) -> (r: Result<
    Option<Layout>,
    ScryfallError,
>)
    ensures
        r matches Ok(o) ==> layout_opt_mem(json_view(*v), key@) == Some(o),
        r matches Err(e) ==> is_parse_error(e) && layout_opt_mem(json_view(*v), key@) is None,
{
    match opt_string(v, key)? {
        Some(s) => match Layout::from_wire(s.as_str()) {
            Some(x) => Ok(Some(x)),
            None => Err(mismatched_member(key)),
        },
        None => Ok(None),
    }
}

/// An optional member holding a wire token of the vocabulary.
fn opt_security_stamp(v: &serde_json::Value, key: &str) -> (r: Result<
    Option<SecurityStamp>,
    ScryfallError,
>)
    ensures
        r matches Ok(o) ==> stamp_opt_mem(json_view(*v), key@) == Some(o),
        r matches Err(e) ==> is_parse_error(e) && stamp_opt_mem(json_view(*v), key@) is None,
{
    match opt_string(v, key)? {
        Some(s) => match SecurityStamp::from_wire(s.as_str()) {
            Some(x) => Ok(Some(x)),
            None => Err(mismatched_member(key)),
        },
        None => Ok(None),
    }
}

/// An array of such elements, decoded element by element.
fn strings_from_array(items: &Vec<serde_json::Value>, key: &str) -> (r: Result<
    Vec<String>,
    ScryfallError,
>)
    ensures
        r matches Ok(xs) ==> texts_match(views_of(items@), xs@) && texts_ok(views_of(items@)),
        r matches Err(e) ==> is_parse_error(e) && !texts_ok(views_of(items@)),
{
    let ghost vs = views_of(items@);
    let mut out: Vec<String> = Vec::new();
    let mut i: usize = 0;
    while i < items.len()
        invariant
            i <= items@.len(),
            out@.len() == i,
            vs == views_of(items@),
            vs.len() == items@.len(),
            forall|k: int| 0 <= k < i ==> text_of(#[trigger] vs[k]) == Some(out@[k]@),
        decreases items@.len() - i,
    {
        proof {
            assert(vs[i as int] == json_view(items@[i as int]));
        }
        match json_as_str(&items[i]) {
            Some(s) => out.push(s),
            None => {
                proof {
                    assert(text_of(vs[i as int]) is None);
                    assert(!texts_ok(vs));
                }
                return Err(mismatched_member(key));
            },
        }
        i += 1;
    }
    Ok(out)
}

/// An array of such elements, decoded element by element.
fn i32s_from_array(items: &Vec<serde_json::Value>, key: &str) -> (r: Result<
    Vec<i32>,
    ScryfallError,
>)
    ensures
        r matches Ok(xs) ==> i32s_match(views_of(items@), xs@) && i32s_ok(views_of(items@)),
        r matches Err(e) ==> is_parse_error(e) && !i32s_ok(views_of(items@)),
{
    let ghost vs = views_of(items@);
    let mut out: Vec<i32> = Vec::new();
    let mut i: usize = 0;
    while i < items.len()
        invariant
            i <= items@.len(),
            out@.len() == i,
            vs == views_of(items@),
            vs.len() == items@.len(),
            forall|k: int| 0 <= k < i ==> i32_of(#[trigger] vs[k]) == Some(out@[k]),
        decreases items@.len() - i,
    {
        proof {
            assert(vs[i as int] == json_view(items@[i as int]));
        }
        match json_as_i64(&items[i]) {
            Some(x) => if -2147483648i64 <= x && x <= 2147483647i64 {
                out.push(x as i32);
            } else {
                proof {
                    assert(i32_of(vs[i as int]) is None);
                    assert(!i32s_ok(vs));
                }
                return Err(mismatched_member(key));
            },
            None => {
                proof {
                    assert(i32_of(vs[i as int]) is None);
                    assert(!i32s_ok(vs));
                }
                return Err(mismatched_member(key));
            },
        }
        i += 1;
    }
    Ok(out)
}

/// An array of such elements, decoded element by element.
fn colors_from_array(items: &Vec<serde_json::Value>, key: &str) -> (r: Result<
    Vec<Colors>,
    ScryfallError,
>)
    ensures
        r matches Ok(xs) ==> colors_match(views_of(items@), xs@) && colors_ok(views_of(items@)),
        r matches Err(e) ==> is_parse_error(e) && !colors_ok(views_of(items@)),
{
    let ghost vs = views_of(items@);
    let mut out: Vec<Colors> = Vec::new();
    let mut i: usize = 0;
    while i < items.len()
        invariant
            i <= items@.len(),
            out@.len() == i,
            vs == views_of(items@),
            vs.len() == items@.len(),
            forall|k: int| 0 <= k < i ==> color_of(#[trigger] vs[k]) == Some(out@[k]),
        decreases items@.len() - i,
    {
        proof {
            assert(vs[i as int] == json_view(items@[i as int]));
        }
        match json_as_str(&items[i]) {
            Some(s) => match Colors::from_wire(s.as_str()) {
                Some(x) => out.push(x),
                None => {
                    proof {
                        assert(color_of(vs[i as int]) is None);
                        assert(!colors_ok(vs));
                    }
                    return Err(mismatched_member(key));
                },
            },
            None => {
                proof {
                    assert(color_of(vs[i as int]) is None);
                    assert(!colors_ok(vs));
                }
                return Err(mismatched_member(key));
            },
        }
        i += 1;
    }
    Ok(out)
}

/// An array of such elements, decoded element by element.
fn finishes_from_array(items: &Vec<serde_json::Value>, key: &str) -> (r: Result<
    Vec<Finishes>,
    ScryfallError,
>)
    ensures
        r matches Ok(xs) ==> finishes_match(views_of(items@), xs@) && finishes_ok(views_of(items@)),
        r matches Err(e) ==> is_parse_error(e) && !finishes_ok(views_of(items@)),
{
    let ghost vs = views_of(items@);
    let mut out: Vec<Finishes> = Vec::new();
    let mut i: usize = 0;
    while i < items.len()
        invariant
            i <= items@.len(),
            out@.len() == i,
            vs == views_of(items@),
            vs.len() == items@.len(),
            forall|k: int| 0 <= k < i ==> finish_of(#[trigger] vs[k]) == Some(out@[k]),
        decreases items@.len() - i,
    {
        proof {
            assert(vs[i as int] == json_view(items@[i as int]));
        }
        match json_as_str(&items[i]) {
            Some(s) => match Finishes::from_wire(s.as_str()) {
                Some(x) => out.push(x),
                None => {
                    proof {
                        assert(finish_of(vs[i as int]) is None);
                        assert(!finishes_ok(vs));
                    }
                    return Err(mismatched_member(key));
                },
            },
            None => {
                proof {
                    assert(finish_of(vs[i as int]) is None);
                    assert(!finishes_ok(vs));
                }
                return Err(mismatched_member(key));
            },
        }
        i += 1;
    }
    Ok(out)
}

/// An array of such elements, decoded element by element.
fn games_from_array(items: &Vec<serde_json::Value>, key: &str) -> (r: Result<
    Vec<Game>,
    ScryfallError,
>)
    ensures
        r matches Ok(xs) ==> games_match(views_of(items@), xs@) && games_ok(views_of(items@)),
        r matches Err(e) ==> is_parse_error(e) && !games_ok(views_of(items@)),
{
    let ghost vs = views_of(items@);
    let mut out: Vec<Game> = Vec::new();
    let mut i: usize = 0;
    while i < items.len()
        invariant
            i <= items@.len(),
            out@.len() == i,
            vs == views_of(items@),
            vs.len() == items@.len(),
            forall|k: int| 0 <= k < i ==> game_of(#[trigger] vs[k]) == Some(out@[k]),
        decreases items@.len() - i,
    {
        proof {
            assert(vs[i as int] == json_view(items@[i as int]));
        }
        match json_as_str(&items[i]) {
            Some(s) => match Game::from_wire(s.as_str()) {
                Some(x) => out.push(x),
                None => {
                    proof {
                        assert(game_of(vs[i as int]) is None);
                        assert(!games_ok(vs));
                    }
                    return Err(mismatched_member(key));
                },
            },
            None => {
                proof {
                    assert(game_of(vs[i as int]) is None);
                    assert(!games_ok(vs));
                }
                return Err(mismatched_member(key));
            },
        }
        i += 1;
    }
    Ok(out)
}

/// An array of such elements, decoded element by element.
fn frame_effects_from_array(items: &Vec<serde_json::Value>, key: &str) -> (r: Result<
    Vec<FrameEffect>,
    ScryfallError,
>)
    ensures
        r matches Ok(xs) ==> effects_match(views_of(items@), xs@) && effects_ok(views_of(items@)),
        r matches Err(e) ==> is_parse_error(e) && !effects_ok(views_of(items@)),
{
    let ghost vs = views_of(items@);
    let mut out: Vec<FrameEffect> = Vec::new();
    let mut i: usize = 0;
    while i < items.len()
        invariant
            i <= items@.len(),
            out@.len() == i,
            vs == views_of(items@),
            vs.len() == items@.len(),
            forall|k: int| 0 <= k < i ==> effect_of(#[trigger] vs[k]) == Some(out@[k]),
        decreases items@.len() - i,
    {
        proof {
            assert(vs[i as int] == json_view(items@[i as int]));
        }
        match json_as_str(&items[i]) {
            Some(s) => match FrameEffect::from_wire(s.as_str()) {
                Some(x) => out.push(x),
                None => {
                    proof {
                        assert(effect_of(vs[i as int]) is None);
                        assert(!effects_ok(vs));
                    }
                    return Err(mismatched_member(key));
                },
            },
            None => {
                proof {
                    assert(effect_of(vs[i as int]) is None);
                    assert(!effects_ok(vs));
                }
                return Err(mismatched_member(key));
            },
        }
        i += 1;
    }
    Ok(out)
}

/// The member decoded as such an array.
fn req_vec_i32(v: &serde_json::Value, key: &str) -> (r: Result<Vec<i32>, ScryfallError>)
    ensures
        r matches Ok(xs) ==> req_i32s_mem_matches(json_view(*v), key@, xs@) && req_i32s_mem_ok(
            json_view(*v),
            key@,
        ),
        r matches Err(e) ==> is_parse_error(e) && !req_i32s_mem_ok(json_view(*v), key@),
{
    let m = match opt_member(v, key) {
        Some(m) => m,
        None => {
            return Err(missing_member(key));
        },
    };
    let a = match json_as_array(m) {
        Some(a) => a,
        None => {
            return Err(mismatched_member(key));
        },
    };
    proof {
        assert(views_of(a@) =~= json_view(*m)->Array_0);
    }
    match i32s_from_array(&a, key) {
        Ok(xs) => Ok(xs),
        Err(e) => Err(e),
    }
}

/// The member decoded as such an array.
fn req_vec_string(v: &serde_json::Value, key: &str) -> (r: Result<Vec<String>, ScryfallError>)
    ensures
        r matches Ok(xs) ==> req_texts_mem_matches(json_view(*v), key@, xs@) && req_texts_mem_ok(
            json_view(*v),
            key@,
        ),
        r matches Err(e) ==> is_parse_error(e) && !req_texts_mem_ok(json_view(*v), key@),
{
    let m = match opt_member(v, key) {
        Some(m) => m,
        None => {
            return Err(missing_member(key));
        },
    };
    let a = match json_as_array(m) {
        Some(a) => a,
        None => {
            return Err(mismatched_member(key));
        },
    };
    proof {
        assert(views_of(a@) =~= json_view(*m)->Array_0);
    }
    match strings_from_array(&a, key) {
        Ok(xs) => Ok(xs),
        Err(e) => Err(e),
    }
}

/// The member decoded as such an array.
fn opt_vec_string(v: &serde_json::Value, key: &str) -> (r: Result<Option<Vec<String>>, ScryfallError>)
    ensures
        r matches Ok(o) ==> opt_texts_mem_matches(json_view(*v), key@, o) && opt_texts_mem_ok(
            json_view(*v),
            key@,
        ),
        r matches Err(e) ==> is_parse_error(e) && !opt_texts_mem_ok(json_view(*v), key@),
{
    let m = match opt_member(v, key) {
        Some(m) => m,
        None => {
            return Ok(None);
        },
    };
    let a = match json_as_array(m) {
        Some(a) => a,
        None => {
            return Err(mismatched_member(key));
        },
    };
    proof {
        assert(views_of(a@) =~= json_view(*m)->Array_0);
    }
    match strings_from_array(&a, key) {
        Ok(xs) => Ok(Some(xs)),
        Err(e) => Err(e),
    }
}

/// The member decoded as such an array.
fn opt_vec_colors(v: &serde_json::Value, key: &str) -> (r: Result<Option<Vec<Colors>>, ScryfallError>)
    ensures
        r matches Ok(o) ==> opt_colors_mem_matches(json_view(*v), key@, o) && opt_colors_mem_ok(
            json_view(*v),
            key@,
        ),
        r matches Err(e) ==> is_parse_error(e) && !opt_colors_mem_ok(json_view(*v), key@),
{
    let m = match opt_member(v, key) {
        Some(m) => m,
        None => {
            return Ok(None);
        },
    };
    let a = match json_as_array(m) {
        Some(a) => a,
        None => {
            return Err(mismatched_member(key));
        },
    };
    proof {
        assert(views_of(a@) =~= json_view(*m)->Array_0);
    }
    match colors_from_array(&a, key) {
        Ok(xs) => Ok(Some(xs)),
        Err(e) => Err(e),
    }
}

/// The member decoded as such an array.
fn req_vec_finishes(v: &serde_json::Value, key: &str) -> (r: Result<Vec<Finishes>, ScryfallError>)
    ensures
        r matches Ok(xs) ==> req_finishes_mem_matches(json_view(*v), key@, xs@) && req_finishes_mem_ok(
            json_view(*v),
            key@,
        ),
        r matches Err(e) ==> is_parse_error(e) && !req_finishes_mem_ok(json_view(*v), key@),
{
    let m = match opt_member(v, key) {
        Some(m) => m,
        None => {
            return Err(missing_member(key));
        },
    };
    let a = match json_as_array(m) {
        Some(a) => a,
        None => {
            return Err(mismatched_member(key));
        },
    };
    proof {
        assert(views_of(a@) =~= json_view(*m)->Array_0);
    }
    match finishes_from_array(&a, key) {
        Ok(xs) => Ok(xs),
        Err(e) => Err(e),
    }
}

/// The member decoded as such an array.
fn req_vec_games(v: &serde_json::Value, key: &str) -> (r: Result<Vec<Game>, ScryfallError>)
    ensures
        r matches Ok(xs) ==> req_games_mem_matches(json_view(*v), key@, xs@) && req_games_mem_ok(
            json_view(*v),
            key@,
        ),
        r matches Err(e) ==> is_parse_error(e) && !req_games_mem_ok(json_view(*v), key@),
{
    let m = match opt_member(v, key) {
        Some(m) => m,
        None => {
            return Err(missing_member(key));
        },
    };
    let a = match json_as_array(m) {
        Some(a) => a,
        None => {
            return Err(mismatched_member(key));
        },
    };
    proof {
        assert(views_of(a@) =~= json_view(*m)->Array_0);
    }
    match games_from_array(&a, key) {
        Ok(xs) => Ok(xs),
        Err(e) => Err(e),
    }
}

/// The member decoded as such an array.
fn opt_vec_frame_effects(v: &serde_json::Value, key: &str) -> (r: Result<Option<Vec<FrameEffect>>, ScryfallError>)
    ensures
        r matches Ok(o) ==> opt_effects_mem_matches(json_view(*v), key@, o) && opt_effects_mem_ok(
            json_view(*v),
            key@,
        ),
        r matches Err(e) ==> is_parse_error(e) && !opt_effects_mem_ok(json_view(*v), key@),
{
    let m = match opt_member(v, key) {
        Some(m) => m,
        None => {
            return Ok(None);
        },
    };
    let a = match json_as_array(m) {
        Some(a) => a,
        None => {
            return Err(mismatched_member(key));
        },
    };
    proof {
        assert(views_of(a@) =~= json_view(*m)->Array_0);
    }
    match frame_effects_from_array(&a, key) {
        Ok(xs) => Ok(Some(xs)),
        Err(e) => Err(e),
    }
}

/// A required member holding the price object: each member maps a currency
/// token to a price string or null.
#[verifier::spinoff_prover]
fn req_prices(v: &serde_json::Value, key: &str) -> (r: Result<
    Vec<(PriceType, Option<String>)>,
    ScryfallError,
>)
    ensures
        r matches Ok(xs) ==> req_prices_mem_matches(json_view(*v), key@, xs@)
            && req_prices_mem_ok(json_view(*v), key@) && unique_price_keys(xs@),
        r matches Err(e) ==> is_parse_error(e) && !req_prices_mem_ok(json_view(*v), key@),
{
    let m = match opt_member(v, key) {
        Some(m) => m,
        None => {
            return Err(missing_member(key));
        },
    };
    let entries = match json_object_entries(m) {
        Some(es) => es,
        None => {
            return Err(mismatched_member(key));
        },
    };
    let ghost ms = json_view(*m)->Object_0;
    let mut out: Vec<(PriceType, Option<String>)> = Vec::new();
    let mut i: usize = 0;
    while i < entries.len()
        invariant
            i <= entries@.len(),
            out@.len() == i,
            entries@.len() == ms.len(),
            req_object_mem(json_view(*v), key@) == Some(ms),
            forall|k: int|
                0 <= k < ms.len() ==> (#[trigger] entries@[k]).0@ == ms[k].0 && json_view(
                    entries@[k].1,
                ) == ms[k].1,
            forall|a: int, b: int|
                0 <= a < b < ms.len() ==> (#[trigger] ms[a]).0 != (#[trigger] ms[b]).0,
            forall|k: int|
                0 <= k < i ==> price_entry_of(#[trigger] ms[k]) == Some(
                    (out@[k].0, opt_text(out@[k].1)),
                ),
            forall|a: int, b: int|
                0 <= a < b < i ==> (#[trigger] out@[a]).0 != (#[trigger] out@[b]).0,
        decreases entries@.len() - i,
    {
        let tok = match PriceType::from_wire(entries[i].0.as_str()) {
            Some(x) => x,
            None => {
                proof {
                    assert(price_entry_of(ms[i as int]) is None);
                    assert(!prices_ok(ms));
                }
                return Err(mismatched_member(key));
            },
        };
        let p = if json_is_null(&entries[i].1) {
            None
        } else {
            match json_as_str(&entries[i].1) {
                Some(s) => Some(s),
                None => {
                    proof {
                        assert(price_entry_of(ms[i as int]) is None);
                        assert(!prices_ok(ms));
                    }
                    return Err(mismatched_member(key));
                },
            }
        };
        proof {
            assert forall|a: int| 0 <= a < i implies (#[trigger] out@[a]).0 != tok by {
                if out@[a].0 == tok {
                    lemma_price_type_from_wire_injective(ms[a].0, ms[i as int].0);
                }
            }
        }
        out.push((tok, p));
        i += 1;
    }
    Ok(out)
}

/// An optional member holding an object that maps wire tokens to URLs.
#[verifier::spinoff_prover]
fn opt_image_uris(v: &serde_json::Value, key: &str) -> (r: Result<
    Option<Vec<(ImageType, Uri)>>,
    ScryfallError,
>)
    ensures
        r matches Ok(o) ==> opt_image_map_mem_matches(json_view(*v), key@, o) && opt_image_map_mem_ok(
            json_view(*v),
            key@,
        ) && (o matches Some(xs) ==> unique_image_keys(xs@)),
        r matches Err(e) ==> is_parse_error(e) && !opt_image_map_mem_ok(json_view(*v), key@),
{
    let m = match opt_member(v, key) {
        Some(m) => m,
        None => {
            return Ok(None);
        },
    };
    let entries = match json_object_entries(m) {
        Some(es) => es,
        None => {
            return Err(mismatched_member(key));
        },
    };
    let ghost ms = json_view(*m)->Object_0;
    let mut out: Vec<(ImageType, Uri)> = Vec::new();
    let mut i: usize = 0;
    while i < entries.len()
        invariant
            i <= entries@.len(),
            out@.len() == i,
            entries@.len() == ms.len(),
            opt_object_mem(json_view(*v), key@) == Some(Some(ms)),
            forall|k: int|
                0 <= k < ms.len() ==> (#[trigger] entries@[k]).0@ == ms[k].0 && json_view(
                    entries@[k].1,
                ) == ms[k].1,
            forall|a: int, b: int|
                0 <= a < b < ms.len() ==> (#[trigger] ms[a]).0 != (#[trigger] ms[b]).0,
            forall|k: int|
                0 <= k < i ==> image_entry_of(#[trigger] ms[k]) == Some((out@[k].0, out@[k].1.0@)),
            forall|a: int, b: int|
                0 <= a < b < i ==> (#[trigger] out@[a]).0 != (#[trigger] out@[b]).0,
        decreases entries@.len() - i,
    {
        let tok = match ImageType::from_wire(entries[i].0.as_str()) {
            Some(x) => x,
            None => {
                proof {
                    assert(image_entry_of(ms[i as int]) is None);
                    assert(!image_map_ok(ms));
                }
                return Err(mismatched_member(key));
            },
        };
        let u = match json_as_str(&entries[i].1) {
            Some(s) => match Uri::parse(s.as_str()) {
                Some(u) => u,
                None => {
                    proof {
                        assert(image_entry_of(ms[i as int]) is None);
                        assert(!image_map_ok(ms));
                    }
                    return Err(mismatched_member(key));
                },
            },
            None => {
                proof {
                    assert(image_entry_of(ms[i as int]) is None);
                    assert(!image_map_ok(ms));
                }
                return Err(mismatched_member(key));
            },
        };
        proof {
            assert forall|a: int| 0 <= a < i implies (#[trigger] out@[a]).0 != tok by {
                if out@[a].0 == tok {
                    lemma_image_type_from_wire_injective(ms[a].0, ms[i as int].0);
                }
            }
        }
        out.push((tok, u));
        i += 1;
    }
    Ok(Some(out))
}

/// An optional member holding an object that maps wire tokens to URLs.
#[verifier::spinoff_prover]
fn opt_purchase_uris(v: &serde_json::Value, key: &str) -> (r: Result<
    Option<Vec<(PurchaseType, Uri)>>,
    ScryfallError,
>)
    ensures
        r matches Ok(o) ==> opt_purchase_map_mem_matches(json_view(*v), key@, o) && opt_purchase_map_mem_ok(
            json_view(*v),
            key@,
        ) && (o matches Some(xs) ==> unique_purchase_keys(xs@)),
        r matches Err(e) ==> is_parse_error(e) && !opt_purchase_map_mem_ok(json_view(*v), key@),
{
    let m = match opt_member(v, key) {
        Some(m) => m,
        None => {
            return Ok(None);
        },
    };
    let entries = match json_object_entries(m) {
        Some(es) => es,
        None => {
            return Err(mismatched_member(key));
        },
    };
    let ghost ms = json_view(*m)->Object_0;
    let mut out: Vec<(PurchaseType, Uri)> = Vec::new();
    let mut i: usize = 0;
    while i < entries.len()
        invariant
            i <= entries@.len(),
            out@.len() == i,
            entries@.len() == ms.len(),
            opt_object_mem(json_view(*v), key@) == Some(Some(ms)),
            forall|k: int|
                0 <= k < ms.len() ==> (#[trigger] entries@[k]).0@ == ms[k].0 && json_view(
                    entries@[k].1,
                ) == ms[k].1,
            forall|a: int, b: int|
                0 <= a < b < ms.len() ==> (#[trigger] ms[a]).0 != (#[trigger] ms[b]).0,
            forall|k: int|
                0 <= k < i ==> purchase_entry_of(#[trigger] ms[k]) == Some((out@[k].0, out@[k].1.0@)),
            forall|a: int, b: int|
                0 <= a < b < i ==> (#[trigger] out@[a]).0 != (#[trigger] out@[b]).0,
        decreases entries@.len() - i,
    {
        let tok = match PurchaseType::from_wire(entries[i].0.as_str()) {
            Some(x) => x,
            None => {
                proof {
                    assert(purchase_entry_of(ms[i as int]) is None);
                    assert(!purchase_map_ok(ms));
                }
                return Err(mismatched_member(key));
            },
        };
        let u = match json_as_str(&entries[i].1) {
            Some(s) => match Uri::parse(s.as_str()) {
                Some(u) => u,
                None => {
                    proof {
                        assert(purchase_entry_of(ms[i as int]) is None);
                        assert(!purchase_map_ok(ms));
                    }
                    return Err(mismatched_member(key));
                },
            },
            None => {
                proof {
                    assert(purchase_entry_of(ms[i as int]) is None);
                    assert(!purchase_map_ok(ms));
                }
                return Err(mismatched_member(key));
            },
        };
        proof {
            assert forall|a: int| 0 <= a < i implies (#[trigger] out@[a]).0 != tok by {
                if out@[a].0 == tok {
                    lemma_purchase_type_from_wire_injective(ms[a].0, ms[i as int].0);
                }
            }
        }
        out.push((tok, u));
        i += 1;
    }
    Ok(Some(out))
}

/// An optional member holding an object that maps wire tokens to URLs.
#[verifier::spinoff_prover]
fn opt_related_uris(v: &serde_json::Value, key: &str) -> (r: Result<
    Option<Vec<(RelatedUriType, Uri)>>,
    ScryfallError,
>)
    ensures
        r matches Ok(o) ==> opt_related_uri_map_mem_matches(json_view(*v), key@, o) && opt_related_uri_map_mem_ok(
            json_view(*v),
            key@,
        ) && (o matches Some(xs) ==> unique_related_uri_keys(xs@)),
        r matches Err(e) ==> is_parse_error(e) && !opt_related_uri_map_mem_ok(json_view(*v), key@),
{
    let m = match opt_member(v, key) {
        Some(m) => m,
        None => {
            return Ok(None);
        },
    };
    let entries = match json_object_entries(m) {
        Some(es) => es,
        None => {
            return Err(mismatched_member(key));
        },
    };
    let ghost ms = json_view(*m)->Object_0;
    let mut out: Vec<(RelatedUriType, Uri)> = Vec::new();
    let mut i: usize = 0;
    while i < entries.len()
        invariant
            i <= entries@.len(),
            out@.len() == i,
            entries@.len() == ms.len(),
            opt_object_mem(json_view(*v), key@) == Some(Some(ms)),
            forall|k: int|
                0 <= k < ms.len() ==> (#[trigger] entries@[k]).0@ == ms[k].0 && json_view(
                    entries@[k].1,
                ) == ms[k].1,
            forall|a: int, b: int|
                0 <= a < b < ms.len() ==> (#[trigger] ms[a]).0 != (#[trigger] ms[b]).0,
            forall|k: int|
                0 <= k < i ==> related_uri_entry_of(#[trigger] ms[k]) == Some((out@[k].0, out@[k].1.0@)),
            forall|a: int, b: int|
                0 <= a < b < i ==> (#[trigger] out@[a]).0 != (#[trigger] out@[b]).0,
        decreases entries@.len() - i,
    {
        let tok = match RelatedUriType::from_wire(entries[i].0.as_str()) {
            Some(x) => x,
            None => {
                proof {
                    assert(related_uri_entry_of(ms[i as int]) is None);
                    assert(!related_uri_map_ok(ms));
                }
                return Err(mismatched_member(key));
            },
        };
        let u = match json_as_str(&entries[i].1) {
            Some(s) => match Uri::parse(s.as_str()) {
                Some(u) => u,
                None => {
                    proof {
                        assert(related_uri_entry_of(ms[i as int]) is None);
                        assert(!related_uri_map_ok(ms));
                    }
                    return Err(mismatched_member(key));
                },
            },
            None => {
                proof {
                    assert(related_uri_entry_of(ms[i as int]) is None);
                    assert(!related_uri_map_ok(ms));
                }
                return Err(mismatched_member(key));
            },
        };
        proof {
            assert forall|a: int| 0 <= a < i implies (#[trigger] out@[a]).0 != tok by {
                if out@[a].0 == tok {
                    lemma_related_uri_type_from_wire_injective(ms[a].0, ms[i as int].0);
                }
            }
        }
        out.push((tok, u));
        i += 1;
    }
    Ok(Some(out))
}

/// A required member holding one legality token for every play format.
#[verifier::rlimit(100)]
#[verifier::spinoff_prover]
fn req_legalities(v: &serde_json::Value, key: &str) -> (r: Result<Legalities, ScryfallError>)
    ensures
        r matches Ok(l) ==> legalities_mem_matches(json_view(*v), key@, l) && legalities_mem_ok(
            json_view(*v),
            key@,
        ),
        r matches Err(e) ==> is_parse_error(e) && !legalities_mem_ok(json_view(*v), key@),
{
    let m = match opt_member(v, key) {
        Some(m) => m,
        None => {
            return Err(missing_member(key));
        },
    };
    Ok(Legalities {
        standard: req_legality(m, "standard")?,
        future: req_legality(m, "future")?,
        historic: req_legality(m, "historic")?,
        timeless: req_legality(m, "timeless")?,
        gladiator: req_legality(m, "gladiator")?,
        pioneer: req_legality(m, "pioneer")?,
        explorer: req_legality(m, "explorer")?,
        modern: req_legality(m, "modern")?,
        legacy: req_legality(m, "legacy")?,
        pauper: req_legality(m, "pauper")?,
        vintage: req_legality(m, "vintage")?,
        penny: req_legality(m, "penny")?,
        commander: req_legality(m, "commander")?,
        oathbreaker: req_legality(m, "oathbreaker")?,
        standardbrawl: req_legality(m, "standardbrawl")?,
        brawl: req_legality(m, "brawl")?,
        alchemy: req_legality(m, "alchemy")?,
        paupercommander: req_legality(m, "paupercommander")?,
        duel: req_legality(m, "duel")?,
        oldschool: req_legality(m, "oldschool")?,
        premodern: req_legality(m, "premodern")?,
        predh: req_legality(m, "predh")?,
    })
}

/// The preview record: when and where the printing was first shown.
fn preview_from_json(m: &serde_json::Value) -> (r: Result<Preview, ScryfallError>)
    ensures
        r matches Ok(p) ==> preview_matches(json_view(*m), p) && is_preview_doc(json_view(*m)),
        r matches Err(e) ==> is_parse_error(e) && !is_preview_doc(json_view(*m)),
{
    Ok(Preview {
        previewed_at: req_string(m, "previewed_at")?,
        source_uri: req_string(m, "source_uri")?,
        source: req_string(m, "source")?,
    })
}

/// An optional member holding the preview record.
fn opt_preview(v: &serde_json::Value, key: &str) -> (r: Result<Option<Preview>, ScryfallError>)
    ensures
        r matches Ok(o) ==> opt_preview_mem_matches(json_view(*v), key@, o) && opt_preview_mem_ok(
            json_view(*v),
            key@,
        ),
        r matches Err(e) ==> is_parse_error(e) && !opt_preview_mem_ok(json_view(*v), key@),
{
    match opt_member(v, key) {
        Some(m) => match preview_from_json(m) {
            Ok(p) => Ok(Some(p)),
            Err(e) => Err(e),
        },
        None => Ok(None),
    }
}

/// One related-card reference.
fn related_card_from_json(m: &serde_json::Value) -> (r: Result<RelatedCard, ScryfallError>)
    ensures
        r matches Ok(rc) ==> related_matches(json_view(*m), rc) && is_related_doc(json_view(*m)),
        r matches Err(e) ==> is_parse_error(e) && !is_related_doc(json_view(*m)),
{
    Ok(RelatedCard {
        id: ScryfallID(req_string(m, "id")?),
        object: req_string(m, "object")?,
        component: req_related_card_type(m, "component")?,
        name: req_string(m, "name")?,
        type_line: req_string(m, "type_line")?,
        uri: req_uri(m, "uri")?,
    })
}

/// An optional member holding the related-card list.
fn opt_all_parts(v: &serde_json::Value, key: &str) -> (r: Result<
    Option<Vec<RelatedCard>>,
    ScryfallError,
>)
    ensures
        r matches Ok(o) ==> opt_related_mem_matches(json_view(*v), key@, o) && opt_related_mem_ok(
            json_view(*v),
            key@,
        ),
        r matches Err(e) ==> is_parse_error(e) && !opt_related_mem_ok(json_view(*v), key@),
{
    let m = match opt_member(v, key) {
        Some(m) => m,
        None => {
            return Ok(None);
        },
    };
    let items = match json_as_array(m) {
        Some(a) => a,
        None => {
            return Err(mismatched_member(key));
        },
    };
    let ghost ivs = json_view(*m)->Array_0;
    let mut out: Vec<RelatedCard> = Vec::new();
    let mut i: usize = 0;
    while i < items.len()
        invariant
            i <= items@.len(),
            out@.len() == i,
            items@.len() == ivs.len(),
            opt_array_mem(json_view(*v), key@) == Some(Some(ivs)),
            forall|k: int| 0 <= k < items@.len() ==> json_view(#[trigger] items@[k]) == ivs[k],
            forall|k: int|
                0 <= k < i ==> related_matches(#[trigger] ivs[k], out@[k]) && is_related_doc(
                    ivs[k],
                ),
        decreases items@.len() - i,
    {
        match related_card_from_json(&items[i]) {
            Ok(rc) => out.push(rc),
            Err(e) => {
                proof {
                    assert(!is_related_doc(ivs[i as int]));
                    assert(!related_seq_ok(ivs));
                }
                return Err(e);
            },
        }
        i += 1;
    }
    Ok(Some(out))
}

/// One face of a card with several.
#[verifier::rlimit(100)]
#[verifier::spinoff_prover]
fn card_face_from_json(m: &serde_json::Value) -> (r: Result<CardFace, ScryfallError>)
    ensures
        r matches Ok(f) ==> face_matches(json_view(*m), f) && is_face_doc(json_view(*m))
            && f.maps_wf(),
        r matches Err(e) ==> is_parse_error(e) && !is_face_doc(json_view(*m)),
{
    let oracle_id = match opt_string(m, "oracle_id")? {
        Some(s) => Some(OracleID(s)),
        None => None,
    };
    Ok(CardFace {
        artist: opt_string(m, "artist")?,
        artist_id: opt_string(m, "artist_id")?,
        cmc: opt_number_text(m, "cmc")?,
        color_indicator: opt_vec_colors(m, "color_indicator")?,
        colors: opt_vec_colors(m, "colors")?,
        defense: opt_string(m, "defense")?,
        flavor_text: opt_string(m, "flavor_text")?,
        illustration_id: opt_string(m, "illustration_id")?,
        image_uris: opt_image_uris(m, "image_uris")?,
        layout: opt_layout(m, "layout")?,
        loyalty: opt_string(m, "loyalty")?,
        mana_cost: opt_string(m, "mana_cost")?,
        name: req_string(m, "name")?,
        object: req_string(m, "object")?,
        oracle_id,
        oracle_text: opt_string(m, "oracle_text")?,
        power: opt_string(m, "power")?,
        printed_name: opt_string(m, "printed_name")?,
        printed_text: opt_string(m, "printed_text")?,
        printed_type_line: opt_string(m, "printed_type_line")?,
        toughness: opt_string(m, "toughness")?,
        type_line: opt_string(m, "type_line")?,
        watermark: opt_string(m, "watermark")?,
    })
}

/// An optional member holding the card-face list.
fn opt_card_faces(v: &serde_json::Value, key: &str) -> (r: Result<
    Option<Vec<CardFace>>,
    ScryfallError,
>)
    ensures
        r matches Ok(o) ==> opt_faces_mem_matches(json_view(*v), key@, o) && opt_faces_mem_ok(
            json_view(*v),
            key@,
        ) && (o matches Some(xs) ==> forall|k: int|
            0 <= k < xs@.len() ==> (#[trigger] xs@[k]).maps_wf()),
        r matches Err(e) ==> is_parse_error(e) && !opt_faces_mem_ok(json_view(*v), key@),
{
    let m = match opt_member(v, key) {
        Some(m) => m,
        None => {
            return Ok(None);
        },
    };
    let items = match json_as_array(m) {
        Some(a) => a,
        None => {
            return Err(mismatched_member(key));
        },
    };
    let ghost ivs = json_view(*m)->Array_0;
    let mut out: Vec<CardFace> = Vec::new();
    let mut i: usize = 0;
    while i < items.len()
        invariant
            i <= items@.len(),
            out@.len() == i,
            items@.len() == ivs.len(),
            opt_array_mem(json_view(*v), key@) == Some(Some(ivs)),
            forall|k: int| 0 <= k < items@.len() ==> json_view(#[trigger] items@[k]) == ivs[k],
            forall|k: int|
                0 <= k < i ==> face_matches(#[trigger] ivs[k], out@[k]) && is_face_doc(ivs[k]),
            forall|k: int| 0 <= k < i ==> (#[trigger] out@[k]).maps_wf(),
        decreases items@.len() - i,
    {
        match card_face_from_json(&items[i]) {
            Ok(f) => out.push(f),
            Err(e) => {
                proof {
                    assert(!is_face_doc(ivs[i as int]));
                    assert(!faces_seq_ok(ivs));
                }
                return Err(e);
            },
        }
        i += 1;
    }
    Ok(Some(out))
}

/// Decodes a whole card from a JSON document, honoring the schema's
/// field-presence rules exactly: a missing or null optional member decodes
/// to nothing — never to a placeholder — and the decode succeeds exactly on
/// the documents whose required members are all present and well shaped. A
/// failure is a parse error naming the offending member.
#[verifier::rlimit(100)]
#[verifier::spinoff_prover]
pub fn card_from_json(v: &serde_json::Value) -> (r: Result<Card, ScryfallError>)
    ensures
        r matches Ok(c) ==> card_matches(json_view(*v), c) && is_card_doc(json_view(*v))
            && c.maps_wf(),
        r matches Err(e) ==> is_parse_error(e) && !is_card_doc(json_view(*v)),
{
    let oracle_id = match opt_string(v, "oracle_id")? {
        Some(s) => Some(OracleID(s)),
        None => None,
    };
    let card_back_id = match opt_string(v, "card_back_id")? {
        Some(s) => Some(ScryfallID(s)),
        None => None,
    };
    Ok(Card {
        arena_id: opt_i32(v, "arena_id")?,
        id: ScryfallID(req_string(v, "id")?),
        lang: req_language(v, "lang")?,
        mtgo_id: opt_i32(v, "mtgo_id")?,
        mtgo_foil_id: opt_i32(v, "mtgo_foil_id")?,
        multiverse_ids: req_vec_i32(v, "multiverse_ids")?,
        tcgplayer_id: opt_i32(v, "tcgplayer_id")?,
        tcgplayer_etched_id: opt_i32(v, "tcgplayer_etched_id")?,
        cardmarket_id: opt_i32(v, "cardmarket_id")?,
        object: req_string(v, "object")?,
        layout: req_layout(v, "layout")?,
        oracle_id,
        prints_search_uri: req_uri(v, "prints_search_uri")?,
        rulings_uri: req_uri(v, "rulings_uri")?,
        scryfall_uri: req_uri(v, "scryfall_uri")?,
        uri: req_uri(v, "uri")?,
        all_parts: opt_all_parts(v, "all_parts")?,
        card_faces: opt_card_faces(v, "card_faces")?,
        cmc: opt_number_text(v, "cmc")?,
        color_identity: opt_vec_colors(v, "color_identity")?,
        color_indicator: opt_vec_colors(v, "color_indicator")?,
        colors: opt_vec_colors(v, "colors")?,
        defense: opt_string(v, "defense")?,
        edhrec_rank: opt_i32(v, "edhrec_rank")?,
        game_changer: opt_bool(v, "game_changer")?,
        hand_modifier: opt_string(v, "hand_modifier")?,
        keywords: req_vec_string(v, "keywords")?,
        legalities: req_legalities(v, "legalities")?,
        life_modifier: opt_string(v, "life_modifier")?,
        loyalty: opt_string(v, "loyalty")?,
        mana_cost: opt_string(v, "mana_cost")?,
        name: req_string(v, "name")?,
        oracle_text: opt_string(v, "oracle_text")?,
        penny_rank: opt_i32(v, "penny_rank")?,
        power: opt_string(v, "power")?,
        produced_mana: opt_vec_string(v, "produced_mana")?,
        reserved: req_bool(v, "reserved")?,
        toughness: opt_string(v, "toughness")?,
        type_line: opt_string(v, "type_line")?,
        artist: opt_string(v, "artist")?,
        artist_ids: opt_vec_string(v, "artist_ids")?,
        booster: req_bool(v, "booster")?,
        border_color: req_border_color(v, "border_color")?,
        card_back_id,
        collector_number: req_string(v, "collector_number")?,
        content_warning: opt_bool(v, "content_warning")?,
        digital: req_bool(v, "digital")?,
        finishes: req_vec_finishes(v, "finishes")?,
        flavor_name: opt_string(v, "flavor_name")?,
        flavor_text: opt_string(v, "flavor_text")?,
        flavor_effects: opt_vec_frame_effects(v, "flavor_effects")?,
        frame: req_frame_layout(v, "frame")?,
        full_art: req_bool(v, "full_art")?,
        games: req_vec_games(v, "games")?,
        highres_image: req_bool(v, "highres_image")?,
        illustration_id: opt_string(v, "illustration_id")?,
        image_status: req_image_status(v, "image_status")?,
        image_uris: opt_image_uris(v, "image_uris")?,
        oversized: req_bool(v, "oversized")?,
        prices: req_prices(v, "prices")?,
        printed_name: opt_string(v, "printed_name")?,
        printed_text: opt_string(v, "printed_text")?,
        printed_type_line: opt_string(v, "printed_type_line")?,
        promo: req_bool(v, "promo")?,
        promo_types: opt_vec_string(v, "promo_types")?,
        purchase_uris: opt_purchase_uris(v, "purchase_uris")?,
        rarity: req_rarity(v, "rarity")?,
        related_uris: opt_related_uris(v, "related_uris")?,
        released_at: req_string(v, "released_at")?,
        reprint: req_bool(v, "reprint")?,
        scryfall_set_uri: req_uri(v, "scryfall_set_uri")?,
        set_name: req_string(v, "set_name")?,
        set_search_uri: req_uri(v, "set_search_uri")?,
        set_type: req_string(v, "set_type")?,
        set_uri: req_uri(v, "set_uri")?,
        set_code: req_string(v, "set")?,
        set_id: req_string(v, "set_id")?,
        story_spotlight: req_bool(v, "story_spotlight")?,
        textless: req_bool(v, "textless")?,
        variation: req_bool(v, "variation")?,
        variation_of: opt_string(v, "variation_of")?,
        security_stamp: opt_security_stamp(v, "security_stamp")?,
        watermark: opt_string(v, "watermark")?,
        preview: opt_preview(v, "preview")?,
    })
}

/// Decodes the service's error envelope from a JSON document: the decode
/// succeeds exactly on error-shaped documents and carries the envelope's
/// members verbatim; anything else fails with a parse error naming the
/// member.
pub fn error_from_json(v: &serde_json::Value) -> (r: Result<ScryfallError, ScryfallError>)
    ensures
        r matches Ok(e) ==> error_matches(json_view(*v), e) && is_error_doc(json_view(*v)),
        r matches Err(e) ==> is_parse_error(e) && !is_error_doc(json_view(*v)),
{
    Ok(ScryfallError {
        status: req_u16(v, "status")?,
        code: req_string(v, "code")?,
        details: req_string(v, "details")?,
        type_: opt_string(v, "type")?,
        warnings: opt_vec_string(v, "warnings")?,
    })
}

/// Decodes one response body. The card shape is tried first and wins when
/// it matches; only when a required card member is absent or mismatched is
/// the service's error envelope tried, and it passes through verbatim; a
/// body that matches neither shape — or is not JSON at all — becomes a
/// synthetic parse error, never a panic and never a silently empty card.
pub fn decode_response(body: &str) -> (r: ScryfallResponse)
    ensures
        match json_doc(body@) {
            Some(dv) => {
                &&& is_card_doc(dv) ==> (r matches ScryfallResponse::Card(c) && card_matches(
                    dv,
                    *c,
                ))
                &&& !is_card_doc(dv) && is_error_doc(dv) ==> (r matches ScryfallResponse::Error(e)
                    && error_matches(dv, e))
                &&& !is_card_doc(dv) && !is_error_doc(dv) ==> (r matches ScryfallResponse::Error(e)
                    && is_parse_error(e))
            },
            None => (r matches ScryfallResponse::Error(e) && is_parse_error(e)),
        },
{
    let doc = match json_from_str(body) {
        Ok(d) => d,
        Err(e) => {
            return ScryfallResponse::Error(ScryfallError::parse_error(json_error_text(&e)));
        },
    };
    match card_from_json(&doc) {
        Ok(card) => ScryfallResponse::Card(Box::new(card)),
        Err(card_err) => match error_from_json(&doc) {
            Ok(service_err) => ScryfallResponse::Error(service_err),
            Err(_) => ScryfallResponse::Error(card_err),
        },
    }
}

/// Decodes one response body to the caller-facing result: the card when the
/// card shape matches, the service's own error envelope when only that
/// matches, and a synthetic parse error otherwise.
pub fn decode_card_result(body: &str) -> (r: Result<Card, ScryfallError>)
    ensures
        match json_doc(body@) {
            Some(dv) => {
                &&& is_card_doc(dv) ==> (r matches Ok(c) && card_matches(dv, c))
                &&& !is_card_doc(dv) && is_error_doc(dv) ==> (r matches Err(e) && error_matches(
                    dv,
                    e,
                ))
                &&& !is_card_doc(dv) && !is_error_doc(dv) ==> (r matches Err(e) && is_parse_error(
                    e,
                ))
            },
            None => (r matches Err(e) && is_parse_error(e)),
        },
{
    decode_response(body).into_result()
}

} // verus!
