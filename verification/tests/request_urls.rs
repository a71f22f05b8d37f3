use scryfall_rs::request::named_card_url;
use scryfall_rs::request::random_card_url;
use scryfall_rs::Uri;

#[test]
fn named_card_url_plain_name() {
    assert_eq!(
        named_card_url("Black Lotus"),
        "https://api.scryfall.com/cards/named?exact=Black%20Lotus"
    );
}

#[test]
fn named_card_url_special_characters() {
    assert_eq!(
        named_card_url("Y'shtola, Night's Blessed"),
        "https://api.scryfall.com/cards/named?exact=Y%27shtola%2C%20Night%27s%20Blessed"
    );
    assert_eq!(
        named_card_url("Invalid Name!@#"),
        "https://api.scryfall.com/cards/named?exact=Invalid%20Name%21%40%23"
    );
}

#[test]
fn named_card_url_encodes_utf8_bytes() {
    assert_eq!(
        named_card_url("\u{00c6}ther"),
        "https://api.scryfall.com/cards/named?exact=%C3%86ther"
    );
}

#[test]
fn random_card_url_is_fixed() {
    assert_eq!(random_card_url(), "https://api.scryfall.com/cards/random");
}

#[test]
fn uri_parse_normalizes() {
    let u = Uri::parse("HTTPS://Example.COM/Path").expect("absolute URL");
    assert_eq!(u.display_text(), "https://example.com/Path");
    assert!(Uri::parse("not a url").is_none());
    assert!(Uri::parse("/relative/only").is_none());
}
