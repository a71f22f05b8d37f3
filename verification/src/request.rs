//! Construction of the request URLs for the two lookup endpoints.

use vstd::prelude::*;
use vstd::string::StringExecFns;
use vstd::string::StringSliceAdditionalSpecFns;
use crate::json_io::encode_component;
use crate::json_io::percent_encode;

verus! {

/// The URL of the exact-name lookup for the given card name, with the name
/// percent-encoded into the query.
pub fn named_card_url(name: &str) -> (r: String)
    ensures
        r@ == "https://api.scryfall.com/cards/named?exact="@ + percent_encode(name.spec_bytes()),
{
    let mut out = String::from_str("https://api.scryfall.com/cards/named?exact=");
    let encoded = encode_component(name);
    out.append(encoded.as_str());
    out
}

/// The URL of the random-card endpoint.
pub fn random_card_url() -> (r: String)
    ensures
        r@ == "https://api.scryfall.com/cards/random"@,
{
    String::from_str("https://api.scryfall.com/cards/random")
}

} // verus!
