use scryfall_rs::decode::decode_card_result;
use scryfall_rs::decode::decode_response;
use scryfall_rs::Language;
use scryfall_rs::Layout;
use scryfall_rs::Rarity;
use scryfall_rs::ScryfallResponse;

fn all_legal() -> String {
    let formats = [
        "standard",
        "future",
        "historic",
        "timeless",
        "gladiator",
        "pioneer",
        "explorer",
        "modern",
        "legacy",
        "pauper",
        "vintage",
        "penny",
        "commander",
        "oathbreaker",
        "standardbrawl",
        "brawl",
        "alchemy",
        "paupercommander",
        "duel",
        "oldschool",
        "premodern",
        "predh",
    ];
    let members: Vec<String> = formats
        .iter()
        .map(|f| format!("\"{}\":\"legal\"", f))
        .collect();
    format!("{{{}}}", members.join(","))
}

/// A response body with every member the card decode requires, and the
/// given extra members spliced in.
fn card_body(name: &str, extra: &str) -> String {
    let head = "{\"object\":\"card\",\"id\":\"11111111-2222-3333-4444-555555555555\",\"lang\":\"en\",\"multiverse_ids\":[1,2],\"layout\":\"normal\",\"oracle_id\":\"aaaa\",\"prints_search_uri\":\"https://api.scryfall.com/cards/search?q=x\",\"rulings_uri\":\"https://api.scryfall.com/cards/x/rulings\",\"scryfall_uri\":\"https://scryfall.com/card/x\",\"uri\":\"https://api.scryfall.com/cards/x\",\"keywords\":[\"Flying\"],\"legalities\":";
    let tail = "\"reserved\":false,\"booster\":true,\"border_color\":\"black\",\"collector_number\":\"1\",\"digital\":false,\"finishes\":[\"nonfoil\",\"foil\"],\"frame\":\"2015\",\"full_art\":false,\"games\":[\"paper\",\"arena\"],\"highres_image\":true,\"image_status\":\"highres_scan\",\"oversized\":false,\"prices\":{\"usd\":\"1.50\",\"tix\":null},\"promo\":false,\"rarity\":\"rare\",\"released_at\":\"2020-01-01\",\"reprint\":false,\"scryfall_set_uri\":\"https://scryfall.com/sets/x\",\"set_name\":\"Test Set\",\"set_search_uri\":\"https://api.scryfall.com/sets/x\",\"set_type\":\"core\",\"set_uri\":\"https://api.scryfall.com/sets/x\",\"set\":\"tst\",\"set_id\":\"zzz\",\"story_spotlight\":false,\"textless\":false,\"variation\":false";
    format!("{}{},\"name\":\"{}\",{}{}}}", head, all_legal(), name, tail, extra)
}

#[test]
fn card_body_decodes_to_card_with_requested_name() {
    let body = card_body("Black Lotus", "");
    let card = decode_card_result(&body).expect("a card");
    assert_eq!(card.name, "Black Lotus");
    assert_eq!(card.object, "card");
    assert_eq!(card.lang, Language::English);
    assert_eq!(card.layout, Layout::Normal);
    assert_eq!(card.rarity, Rarity::Rare);
    assert_eq!(card.multiverse_ids, vec![1, 2]);
    assert_eq!(card.set_code, "tst");
    assert_eq!(card.prices.len(), 2);
    // members the schema documents as always present, but which real data
    // omits, decode to nothing rather than to a placeholder
    assert_eq!(card.type_line, None);
    assert_eq!(card.card_back_id, None);
    assert_eq!(card.cmc, None);
}

#[test]
fn error_body_passes_through_verbatim() {
    let body = "{\"object\":\"error\",\"code\":\"not_found\",\"status\":404,\"details\":\"No card found\",\"type\":\"ambiguous\"}";
    let err = decode_card_result(body).expect_err("a service error");
    assert_eq!(err.status, 404);
    assert_eq!(err.code, "not_found");
    assert_eq!(err.details, "No card found");
    assert_eq!(err.type_, Some("ambiguous".to_string()));
    assert_eq!(err.warnings, None);
}

#[test]
fn split_card_decodes_faces() {
    let faces = ",\"card_faces\":[{\"name\":\"Fire\",\"object\":\"card_face\",\"mana_cost\":\"{1}{R}\"},{\"name\":\"Ice\",\"object\":\"card_face\",\"mana_cost\":\"{1}{U}\"}]";
    let body = card_body("Fire // Ice", faces);
    let card = decode_card_result(&body).expect("a card");
    let card_faces = card.card_faces.expect("faces");
    assert!(card_faces.len() > 0);
    assert_eq!(card_faces.len(), 2);
    for f in &card_faces {
        assert_eq!(f.object, "card_face");
    }
    assert_eq!(card_faces[0].name, "Fire");
    assert_eq!(card_faces[1].name, "Ice");
}

#[test]
fn truncated_body_is_a_parse_error() {
    let err = decode_card_result("{\"object\":").expect_err("a parse error");
    assert_eq!(err.status, 500);
    assert_eq!(err.code, "parse_error");
}

#[test]
fn wrong_shape_is_a_parse_error_not_an_empty_card() {
    for body in ["[1,2,3]", "", "42", "\"card\"", "{\"object\":\"card\"}"] {
        let err = decode_card_result(body).expect_err("a parse error");
        assert_eq!(err.status, 500);
        assert_eq!(err.code, "parse_error");
    }
}

#[test]
fn unknown_enum_token_fails_decode() {
    let body = card_body("X", "").replace("\"rarity\":\"rare\"", "\"rarity\":\"legendary\"");
    let err = decode_card_result(&body).expect_err("a parse error");
    assert_eq!(err.status, 500);
    assert_eq!(err.code, "parse_error");
    assert!(err.details.contains("rarity"));

    let body = card_body("X", "").replace("\"lang\":\"en\"", "\"lang\":\"xx\"");
    let err = decode_card_result(&body).expect_err("a parse error");
    assert_eq!(err.code, "parse_error");
    assert!(err.details.contains("lang"));
}

#[test]
fn missing_required_member_names_it() {
    let body = card_body("X", "").replace("\"reserved\":false,", "");
    let err = decode_card_result(&body).expect_err("a parse error");
    assert_eq!(err.status, 500);
    assert_eq!(err.code, "parse_error");
    assert!(err.details.contains("reserved"));
}

#[test]
fn null_optional_member_decodes_to_nothing() {
    let body = card_body("X", ",\"power\":null,\"toughness\":\"*\"");
    let card = decode_card_result(&body).expect("a card");
    assert_eq!(card.power, None);
    assert_eq!(card.toughness, Some("*".to_string()));
}

#[test]
fn integer_out_of_range_is_a_mismatch() {
    let body = card_body("X", ",\"arena_id\":99999999999");
    let err = decode_card_result(&body).expect_err("a parse error");
    assert_eq!(err.code, "parse_error");
    assert!(err.details.contains("arena_id"));
}

#[test]
fn card_shape_is_tried_before_the_error_shape() {
    let body = card_body("X", ",\"status\":404,\"code\":\"x\",\"details\":\"y\"");
    match decode_response(&body) {
        ScryfallResponse::Card(card) => assert_eq!(card.name, "X"),
        ScryfallResponse::Error(_) => panic!("card shape must win"),
    }
}

#[test]
fn number_members_keep_their_text() {
    let body = card_body("X", ",\"cmc\":2.5");
    let card = decode_card_result(&body).expect("a card");
    assert_eq!(card.cmc, Some("2.5".to_string()));
}
