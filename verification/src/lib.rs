//! A typed client library for the Scryfall card database API.
//!
//! The library holds the domain model (cards, faces, legalities, and the
//! closed wire vocabularies of the API), the decoding of a response body
//! into either a card or a structured error, a JSON encoder for the model,
//! URL construction for the two lookup endpoints, and the arithmetic of the
//! courtesy rate limiter. Network transport is left to the caller.

mod text;

pub mod decode;
pub mod encode;
pub mod enums;
pub mod json_io;
pub mod legality;
pub mod network_types;
pub mod rate_limit;
pub mod structs;

pub mod request;

pub use enums::BorderColor;
pub use enums::Colors;
pub use enums::Finishes;
pub use enums::FrameEffect;
pub use enums::FrameLayout;
pub use enums::Game;
pub use enums::ImageStatus;
pub use enums::ImageType;
pub use enums::Language;
pub use enums::Layout;
pub use enums::PriceType;
pub use enums::PurchaseType;
pub use enums::Rarity;
pub use enums::RelatedCardType;
pub use enums::RelatedUriType;
pub use enums::SecurityStamp;
pub use enums::SetType;
pub use legality::Legalities;
pub use legality::Legality;
pub use network_types::ScryfallError;
pub use network_types::ScryfallResponse;
pub use network_types::ToScryfallError;
pub use rate_limit::RateLimit;
pub use structs::Card;
pub use structs::CardFace;
pub use structs::OracleID;
pub use structs::Preview;
pub use structs::RelatedCard;
pub use structs::ScryfallID;
pub use structs::Uri;
