use scryfall_rs::Legalities;
use scryfall_rs::Legality;

#[test]
fn legality_wire_tokens() {
    assert_eq!(Legality::NotLegal.wire_token(), "not_legal");
    assert_eq!(Legality::Legal.wire_token(), "legal");
    assert_eq!(Legality::Banned.wire_token(), "banned");
    assert_eq!(Legality::Restricted.wire_token(), "restricted");
}

#[test]
fn legality_wire_round_trip_all_variants() {
    let all = [
        Legality::NotLegal,
        Legality::Legal,
        Legality::Banned,
        Legality::Restricted,
    ];
    for l in all {
        assert_eq!(Legality::from_wire(l.wire_token()), Some(l));
    }
}

#[test]
fn legality_unknown_token_rejected() {
    assert_eq!(Legality::from_wire("Legal"), None);
    assert_eq!(Legality::from_wire("suspended"), None);
    assert_eq!(Legality::from_wire(""), None);
}

#[test]
fn legality_display_text() {
    assert_eq!(Legality::NotLegal.display_text(), "Not Legal");
    assert_eq!(Legality::Legal.display_text(), "Legal");
    assert_eq!(Legality::Banned.display_text(), "Banned");
    assert_eq!(Legality::Restricted.display_text(), "Restricted");
}

#[test]
fn legalities_display_text() {
    let l = Legalities::uniform(Legality::Legal);
    assert_eq!(
        l.display_text(),
        "Standard: Legal, Modern: Legal, Legacy: Legal, Vintage: Legal, \
         Pauper: Legal, Commander: Legal, Brawl: Legal, Duel: Legal"
    );
    let mut m = Legalities::uniform(Legality::NotLegal);
    m.vintage = Legality::Restricted;
    assert_eq!(
        m.display_text(),
        "Standard: Not Legal, Modern: Not Legal, Legacy: Not Legal, \
         Vintage: Restricted, Pauper: Not Legal, Commander: Not Legal, \
         Brawl: Not Legal, Duel: Not Legal"
    );
}
