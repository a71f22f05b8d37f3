use scryfall_rs::decode::decode_card_result;
use scryfall_rs::encode::card_to_json;
use scryfall_rs::enums::BorderColor;
use scryfall_rs::enums::Finishes;
use scryfall_rs::enums::FrameLayout;
use scryfall_rs::enums::Game;
use scryfall_rs::enums::ImageStatus;
use scryfall_rs::enums::PriceType;
use scryfall_rs::enums::Rarity;
use scryfall_rs::Card;
use scryfall_rs::Language;
use scryfall_rs::Layout;
use scryfall_rs::Legalities;
use scryfall_rs::Legality;
use scryfall_rs::OracleID;
use scryfall_rs::enums::ImageType;
use scryfall_rs::CardFace;
use scryfall_rs::ScryfallID;
use scryfall_rs::Uri;

/// A card with a full set of core fields and empty optional gameplay and
/// print fields.
fn sample_card() -> Card {
    Card {
        arena_id: Some(123),
        id: ScryfallID("dummy-scryfall-id".to_string()),
        lang: Language::English,
        mtgo_id: Some(456),
        mtgo_foil_id: Some(789),
        multiverse_ids: vec![111, 222, 333],
        tcgplayer_id: Some(101112),
        tcgplayer_etched_id: Some(131415),
        cardmarket_id: Some(161718),
        object: "card".to_string(),
        layout: Layout::Normal,
        oracle_id: Some(OracleID("dummy-oracle-id".to_string())),
        prints_search_uri: Uri::parse("https://scryfall.com/card/prints").unwrap(),
        rulings_uri: Uri::parse("https://scryfall.com/card/rulings").unwrap(),
        scryfall_uri: Uri::parse("https://scryfall.com/card").unwrap(),
        uri: Uri::parse("https://api.scryfall.com/card").unwrap(),
        all_parts: None,
        card_faces: None,
        cmc: None,
        color_identity: None,
        color_indicator: None,
        colors: None,
        defense: None,
        edhrec_rank: None,
        game_changer: None,
        hand_modifier: None,
        keywords: vec![],
        legalities: Legalities::uniform(Legality::Legal),
        life_modifier: None,
        loyalty: None,
        mana_cost: None,
        name: "Dummy Card".to_string(),
        oracle_text: None,
        penny_rank: None,
        power: None,
        produced_mana: None,
        reserved: false,
        toughness: None,
        type_line: None,
        artist: None,
        artist_ids: None,
        booster: true,
        border_color: BorderColor::Black,
        card_back_id: None,
        collector_number: "1".to_string(),
        content_warning: None,
        digital: false,
        finishes: vec![Finishes::NonFoil],
        flavor_name: None,
        flavor_text: None,
        flavor_effects: None,
        frame: FrameLayout::Frame2015,
        full_art: false,
        games: vec![Game::Paper],
        highres_image: true,
        illustration_id: None,
        image_status: ImageStatus::HighResScan,
        image_uris: None,
        oversized: false,
        // entries in wire-token order, as a decoded response carries them
        prices: vec![(PriceType::Tix, None), (PriceType::USD, Some("1.50".to_string()))],
        printed_name: None,
        printed_text: None,
        printed_type_line: None,
        promo: false,
        promo_types: None,
        purchase_uris: None,
        rarity: Rarity::Rare,
        related_uris: None,
        released_at: "2020-01-01".to_string(),
        reprint: false,
        scryfall_set_uri: Uri::parse("https://scryfall.com/sets/x").unwrap(),
        set_name: "Test Set".to_string(),
        set_search_uri: Uri::parse("https://api.scryfall.com/sets/x").unwrap(),
        set_type: "core".to_string(),
        set_uri: Uri::parse("https://api.scryfall.com/sets/x").unwrap(),
        set_code: "tst".to_string(),
        set_id: "zzz".to_string(),
        story_spotlight: false,
        textless: false,
        variation: false,
        variation_of: None,
        security_stamp: None,
        watermark: None,
        preview: None,
    }
}

// tries to initialize a card with dummy data
#[test]
fn test_initialize_card() {
    let card = sample_card();

    // Just assert that the card fields are as expected
    assert_eq!(card.object, "card");
    assert_eq!(card.lang, Language::English);
    assert_eq!(card.multiverse_ids.len(), 3);
    assert_eq!(card.uri.display_text(), "https://api.scryfall.com/card");
}

#[test]
fn card_round_trips_through_json_without_field_loss() {
    let card = sample_card();
    let body = card_to_json(&card);
    let back = decode_card_result(&body).expect("the encoded card decodes");
    assert_eq!(back, card);
}

#[test]
fn encoded_card_is_a_json_document() {
    let body = card_to_json(&sample_card());
    let doc: serde_json::Value = serde_json::from_str(&body).expect("valid JSON");
    assert_eq!(doc["name"], serde_json::Value::String("Dummy Card".to_string()));
    assert_eq!(doc["object"], serde_json::Value::String("card".to_string()));
    assert!(doc["type_line"].is_null());
}

#[test]
fn string_escaping_round_trips() {
    let mut card = sample_card();
    card.name = "A \"quoted\" name \\ with\nbreaks\tand\u{1}controls".to_string();
    card.oracle_text = Some("{T}: Add one mana of any color.".to_string());
    let body = card_to_json(&card);
    let back = decode_card_result(&body).expect("the encoded card decodes");
    assert_eq!(back.name, card.name);
    assert_eq!(back.oracle_text, card.oracle_text);
    assert_eq!(back, card);
}

#[test]
fn faces_and_maps_round_trip() {
    let mut card = sample_card();
    card.card_faces = Some(vec![
        CardFace {
            artist: None,
            artist_id: None,
            cmc: None,
            color_indicator: None,
            colors: None,
            defense: None,
            flavor_text: None,
            illustration_id: None,
            image_uris: None,
            layout: None,
            loyalty: None,
            mana_cost: Some("{1}{R}".to_string()),
            name: "Fire".to_string(),
            object: "card_face".to_string(),
            oracle_id: None,
            oracle_text: None,
            power: None,
            printed_name: None,
            printed_text: None,
            printed_type_line: None,
            toughness: None,
            type_line: None,
            watermark: None,
        },
    ]);
    card.image_uris = Some(vec![(
        ImageType::Png,
        Uri::parse("https://cards.scryfall.io/png/x.png").unwrap(),
    )]);
    let body = card_to_json(&card);
    let back = decode_card_result(&body).expect("the encoded card decodes");
    assert_eq!(back, card);
}
