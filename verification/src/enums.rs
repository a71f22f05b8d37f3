//! The closed wire vocabularies of the card schema: each enum is a fixed
//! finite set of values mapped to and from specific wire tokens, and an
//! unrecognized token decodes to nothing rather than to a default.

use vstd::prelude::*;
use crate::text::token_is;

verus! {

/// A color in the game's five-color system.
#[derive(Debug, Clone, Copy, PartialEq, Eq, Hash)]
pub enum Colors {
    W,
    R,
    U,
    G,
    B,
}

impl Colors {
    /// The wire token of this value in the API's JSON vocabulary.
    pub open spec fn spec_wire(self) -> Seq<char> {
        match self {
            Colors::W => "W"@,
            Colors::R => "R"@,
            Colors::U => "U"@,
            Colors::G => "G"@,
            Colors::B => "B"@,
        }
    }

    /// The value a wire token decodes to; unrecognized tokens decode to nothing.
    pub open spec fn spec_from_wire(s: Seq<char>) -> Option<Colors> {
        if s == "W"@ {
            Some(Colors::W)
        } else if s == "R"@ {
            Some(Colors::R)
        } else if s == "U"@ {
            Some(Colors::U)
        } else if s == "G"@ {
            Some(Colors::G)
        } else if s == "B"@ {
            Some(Colors::B)
        } else {
            None
        }
    }

    /// Encodes this value to its wire token.
    pub fn wire_token(&self) -> (r: &'static str)
        ensures
            r@ == self.spec_wire(),
    {
        match self {
            Colors::W => "W",
            Colors::R => "R",
            Colors::U => "U",
            Colors::G => "G",
            Colors::B => "B",
        }
    }

    /// Decodes a wire token; returns nothing on an unrecognized token.
    pub fn from_wire(s: &str) -> (r: Option<Colors>)
        ensures
            r == Colors::spec_from_wire(s@),
    {
        if token_is(s, "W") {
            Some(Colors::W)
        } else if token_is(s, "R") {
            Some(Colors::R)
        } else if token_is(s, "U") {
            Some(Colors::U)
        } else if token_is(s, "G") {
            Some(Colors::G)
        } else if token_is(s, "B") {
            Some(Colors::B)
        } else {
            None
        }
    }
}

/// The language a card is printed in.
#[derive(Debug, Clone, Copy, PartialEq, Eq, Hash)]
pub enum Language {
    English,
    Spanish,
    French,
    German,
    Italian,
    Portuguese,
    Japanese,
    Korean,
    Russian,
    SimplifiedChinese,
    TraditionalChinese,
    Hebrew,
    Latin,
    AncientGreek,
    Arabic,
    Sanskrit,
    Phyrexian,
    Quenya,
}

impl Language {
    /// The wire token of this value in the API's JSON vocabulary.
    pub open spec fn spec_wire(self) -> Seq<char> {
        match self {
            Language::English => "en"@,
            Language::Spanish => "es"@,
            Language::French => "fr"@,
            Language::German => "de"@,
            Language::Italian => "it"@,
            Language::Portuguese => "pt"@,
            Language::Japanese => "ja"@,
            Language::Korean => "ko"@,
            Language::Russian => "ru"@,
            Language::SimplifiedChinese => "zhs"@,
            Language::TraditionalChinese => "zht"@,
            Language::Hebrew => "he"@,
            Language::Latin => "la"@,
            Language::AncientGreek => "grc"@,
            Language::Arabic => "ar"@,
            Language::Sanskrit => "sa"@,
            Language::Phyrexian => "ph"@,
            Language::Quenya => "qya"@,
        }
    }

    /// The value a wire token decodes to; unrecognized tokens decode to nothing.
    pub open spec fn spec_from_wire(s: Seq<char>) -> Option<Language> {
        if s == "en"@ {
            Some(Language::English)
        } else if s == "es"@ {
            Some(Language::Spanish)
        } else if s == "fr"@ {
            Some(Language::French)
        } else if s == "de"@ {
            Some(Language::German)
        } else if s == "it"@ {
            Some(Language::Italian)
        } else if s == "pt"@ {
            Some(Language::Portuguese)
        } else if s == "ja"@ {
            Some(Language::Japanese)
        } else if s == "ko"@ {
            Some(Language::Korean)
        } else if s == "ru"@ {
            Some(Language::Russian)
        } else if s == "zhs"@ {
            Some(Language::SimplifiedChinese)
        } else if s == "zht"@ {
            Some(Language::TraditionalChinese)
        } else if s == "he"@ {
            Some(Language::Hebrew)
        } else if s == "la"@ {
            Some(Language::Latin)
        } else if s == "grc"@ {
            Some(Language::AncientGreek)
        } else if s == "ar"@ {
            Some(Language::Arabic)
        } else if s == "sa"@ {
            Some(Language::Sanskrit)
        } else if s == "ph"@ {
            Some(Language::Phyrexian)
        } else if s == "qya"@ {
            Some(Language::Quenya)
        } else {
            None
        }
    }

    /// Encodes this value to its wire token.
    pub fn wire_token(&self) -> (r: &'static str)
        ensures
            r@ == self.spec_wire(),
    {
        match self {
            Language::English => "en",
            Language::Spanish => "es",
            Language::French => "fr",
            Language::German => "de",
            Language::Italian => "it",
            Language::Portuguese => "pt",
            Language::Japanese => "ja",
            Language::Korean => "ko",
            Language::Russian => "ru",
            Language::SimplifiedChinese => "zhs",
            Language::TraditionalChinese => "zht",
            Language::Hebrew => "he",
            Language::Latin => "la",
            Language::AncientGreek => "grc",
            Language::Arabic => "ar",
            Language::Sanskrit => "sa",
            Language::Phyrexian => "ph",
            Language::Quenya => "qya",
        }
    }

    /// Decodes a wire token; returns nothing on an unrecognized token.
    pub fn from_wire(s: &str) -> (r: Option<Language>)
        ensures
            r == Language::spec_from_wire(s@),
    {
        if token_is(s, "en") {
            Some(Language::English)
        } else if token_is(s, "es") {
            Some(Language::Spanish)
        } else if token_is(s, "fr") {
            Some(Language::French)
        } else if token_is(s, "de") {
            Some(Language::German)
        } else if token_is(s, "it") {
            Some(Language::Italian)
        } else if token_is(s, "pt") {
            Some(Language::Portuguese)
        } else if token_is(s, "ja") {
            Some(Language::Japanese)
        } else if token_is(s, "ko") {
            Some(Language::Korean)
        } else if token_is(s, "ru") {
            Some(Language::Russian)
        } else if token_is(s, "zhs") {
            Some(Language::SimplifiedChinese)
        } else if token_is(s, "zht") {
            Some(Language::TraditionalChinese)
        } else if token_is(s, "he") {
            Some(Language::Hebrew)
        } else if token_is(s, "la") {
            Some(Language::Latin)
        } else if token_is(s, "grc") {
            Some(Language::AncientGreek)
        } else if token_is(s, "ar") {
            Some(Language::Arabic)
        } else if token_is(s, "sa") {
            Some(Language::Sanskrit)
        } else if token_is(s, "ph") {
            Some(Language::Phyrexian)
        } else if token_is(s, "qya") {
            Some(Language::Quenya)
        } else {
            None
        }
    }
}

/// The structural arrangement of a card's printed faces.
#[derive(Debug, Clone, Copy, PartialEq, Eq, Hash)]
pub enum Layout {
    Normal,
    Split,
    Flip,
    Transform,
    ModalDFC,
    Meld,
    Leveler,
    Class,
    Case,
    Saga,
    Adventure,
    Mutate,
    Prototype,
    Battle,
    Planar,
    Scheme,
    Vanguard,
    Token,
    DoubleFacedToken,
    Emblem,
    Augment,
    Host,
    ArtSeries,
    ReversibleCard,
}

impl Layout {
    /// The wire token of this value in the API's JSON vocabulary.
    pub open spec fn spec_wire(self) -> Seq<char> {
        match self {
            Layout::Normal => "normal"@,
            Layout::Split => "split"@,
            Layout::Flip => "flip"@,
            Layout::Transform => "transform"@,
            Layout::ModalDFC => "modal_dfc"@,
            Layout::Meld => "meld"@,
            Layout::Leveler => "leveler"@,
            Layout::Class => "class"@,
            Layout::Case => "case"@,
            Layout::Saga => "saga"@,
            Layout::Adventure => "adventure"@,
            Layout::Mutate => "mutate"@,
            Layout::Prototype => "prototype"@,
            Layout::Battle => "battle"@,
            Layout::Planar => "planar"@,
            Layout::Scheme => "scheme"@,
            Layout::Vanguard => "vanguard"@,
            Layout::Token => "token"@,
            Layout::DoubleFacedToken => "double_faced_token"@,
            Layout::Emblem => "emblem"@,
            Layout::Augment => "augment"@,
            Layout::Host => "host"@,
            Layout::ArtSeries => "art_series"@,
            Layout::ReversibleCard => "reversible_card"@,
        }
    }

    /// The value a wire token decodes to; unrecognized tokens decode to nothing.
    pub open spec fn spec_from_wire(s: Seq<char>) -> Option<Layout> {
        if s == "normal"@ {
            Some(Layout::Normal)
        } else if s == "split"@ {
            Some(Layout::Split)
        } else if s == "flip"@ {
            Some(Layout::Flip)
        } else if s == "transform"@ {
            Some(Layout::Transform)
        } else if s == "modal_dfc"@ {
            Some(Layout::ModalDFC)
        } else if s == "meld"@ {
            Some(Layout::Meld)
        } else if s == "leveler"@ {
            Some(Layout::Leveler)
        } else if s == "class"@ {
            Some(Layout::Class)
        } else if s == "case"@ {
            Some(Layout::Case)
        } else if s == "saga"@ {
            Some(Layout::Saga)
        } else if s == "adventure"@ {
            Some(Layout::Adventure)
        } else if s == "mutate"@ {
            Some(Layout::Mutate)
        } else if s == "prototype"@ {
            Some(Layout::Prototype)
        } else if s == "battle"@ {
            Some(Layout::Battle)
        } else if s == "planar"@ {
            Some(Layout::Planar)
        } else if s == "scheme"@ {
            Some(Layout::Scheme)
        } else if s == "vanguard"@ {
            Some(Layout::Vanguard)
        } else if s == "token"@ {
            Some(Layout::Token)
        } else if s == "double_faced_token"@ {
            Some(Layout::DoubleFacedToken)
        } else if s == "emblem"@ {
            Some(Layout::Emblem)
        } else if s == "augment"@ {
            Some(Layout::Augment)
        } else if s == "host"@ {
            Some(Layout::Host)
        } else if s == "art_series"@ {
            Some(Layout::ArtSeries)
        } else if s == "reversible_card"@ {
            Some(Layout::ReversibleCard)
        } else {
            None
        }
    }

    /// Encodes this value to its wire token.
    pub fn wire_token(&self) -> (r: &'static str)
        ensures
            r@ == self.spec_wire(),
    {
        match self {
            Layout::Normal => "normal",
            Layout::Split => "split",
            Layout::Flip => "flip",
            Layout::Transform => "transform",
            Layout::ModalDFC => "modal_dfc",
            Layout::Meld => "meld",
            Layout::Leveler => "leveler",
            Layout::Class => "class",
            Layout::Case => "case",
            Layout::Saga => "saga",
            Layout::Adventure => "adventure",
            Layout::Mutate => "mutate",
            Layout::Prototype => "prototype",
            Layout::Battle => "battle",
            Layout::Planar => "planar",
            Layout::Scheme => "scheme",
            Layout::Vanguard => "vanguard",
            Layout::Token => "token",
            Layout::DoubleFacedToken => "double_faced_token",
            Layout::Emblem => "emblem",
            Layout::Augment => "augment",
            Layout::Host => "host",
            Layout::ArtSeries => "art_series",
            Layout::ReversibleCard => "reversible_card",
        }
    }

    /// Decodes a wire token; returns nothing on an unrecognized token.
    pub fn from_wire(s: &str) -> (r: Option<Layout>)
        ensures
            r == Layout::spec_from_wire(s@),
    {
        if token_is(s, "normal") {
            Some(Layout::Normal)
        } else if token_is(s, "split") {
            Some(Layout::Split)
        } else if token_is(s, "flip") {
            Some(Layout::Flip)
        } else if token_is(s, "transform") {
            Some(Layout::Transform)
        } else if token_is(s, "modal_dfc") {
            Some(Layout::ModalDFC)
        } else if token_is(s, "meld") {
            Some(Layout::Meld)
        } else if token_is(s, "leveler") {
            Some(Layout::Leveler)
        } else if token_is(s, "class") {
            Some(Layout::Class)
        } else if token_is(s, "case") {
            Some(Layout::Case)
        } else if token_is(s, "saga") {
            Some(Layout::Saga)
        } else if token_is(s, "adventure") {
            Some(Layout::Adventure)
        } else if token_is(s, "mutate") {
            Some(Layout::Mutate)
        } else if token_is(s, "prototype") {
            Some(Layout::Prototype)
        } else if token_is(s, "battle") {
            Some(Layout::Battle)
        } else if token_is(s, "planar") {
            Some(Layout::Planar)
        } else if token_is(s, "scheme") {
            Some(Layout::Scheme)
        } else if token_is(s, "vanguard") {
            Some(Layout::Vanguard)
        } else if token_is(s, "token") {
            Some(Layout::Token)
        } else if token_is(s, "double_faced_token") {
            Some(Layout::DoubleFacedToken)
        } else if token_is(s, "emblem") {
            Some(Layout::Emblem)
        } else if token_is(s, "augment") {
            Some(Layout::Augment)
        } else if token_is(s, "host") {
            Some(Layout::Host)
        } else if token_is(s, "art_series") {
            Some(Layout::ArtSeries)
        } else if token_is(s, "reversible_card") {
            Some(Layout::ReversibleCard)
        } else {
            None
        }
    }
}

/// How a related card relates to the card that lists it.
#[derive(Debug, Clone, Copy, PartialEq, Eq, Hash)]
pub enum RelatedCardType {
    Token,
    MeldResult,
    MeldPart,
    ComboPiece,
}

impl RelatedCardType {
    /// The wire token of this value in the API's JSON vocabulary.
    pub open spec fn spec_wire(self) -> Seq<char> {
        match self {
            RelatedCardType::Token => "token"@,
            RelatedCardType::MeldResult => "meld_result"@,
            RelatedCardType::MeldPart => "meld_part"@,
            RelatedCardType::ComboPiece => "combo_piece"@,
        }
    }

    /// The value a wire token decodes to; unrecognized tokens decode to nothing.
    pub open spec fn spec_from_wire(s: Seq<char>) -> Option<RelatedCardType> {
        if s == "token"@ {
            Some(RelatedCardType::Token)
        } else if s == "meld_result"@ {
            Some(RelatedCardType::MeldResult)
        } else if s == "meld_part"@ {
            Some(RelatedCardType::MeldPart)
        } else if s == "combo_piece"@ {
            Some(RelatedCardType::ComboPiece)
        } else {
            None
        }
    }

    /// Encodes this value to its wire token.
    pub fn wire_token(&self) -> (r: &'static str)
        ensures
            r@ == self.spec_wire(),
    {
        match self {
            RelatedCardType::Token => "token",
            RelatedCardType::MeldResult => "meld_result",
            RelatedCardType::MeldPart => "meld_part",
            RelatedCardType::ComboPiece => "combo_piece",
        }
    }

    /// Decodes a wire token; returns nothing on an unrecognized token.
    pub fn from_wire(s: &str) -> (r: Option<RelatedCardType>)
        ensures
            r == RelatedCardType::spec_from_wire(s@),
    {
        if token_is(s, "token") {
            Some(RelatedCardType::Token)
        } else if token_is(s, "meld_result") {
            Some(RelatedCardType::MeldResult)
        } else if token_is(s, "meld_part") {
            Some(RelatedCardType::MeldPart)
        } else if token_is(s, "combo_piece") {
            Some(RelatedCardType::ComboPiece)
        } else {
            None
        }
    }
}

/// The color of a card's printed border.
#[derive(Debug, Clone, Copy, PartialEq, Eq, Hash)]
pub enum BorderColor {
    Black,
    White,
    Borderless,
    Yellow,
    Silver,
    Gold,
}

impl BorderColor {
    /// The wire token of this value in the API's JSON vocabulary.
    pub open spec fn spec_wire(self) -> Seq<char> {
        match self {
            BorderColor::Black => "black"@,
            BorderColor::White => "white"@,
            BorderColor::Borderless => "borderless"@,
            BorderColor::Yellow => "yellow"@,
            BorderColor::Silver => "silver"@,
            BorderColor::Gold => "gold"@,
        }
    }

    /// The value a wire token decodes to; unrecognized tokens decode to nothing.
    pub open spec fn spec_from_wire(s: Seq<char>) -> Option<BorderColor> {
        if s == "black"@ {
            Some(BorderColor::Black)
        } else if s == "white"@ {
            Some(BorderColor::White)
        } else if s == "borderless"@ {
            Some(BorderColor::Borderless)
        } else if s == "yellow"@ {
            Some(BorderColor::Yellow)
        } else if s == "silver"@ {
            Some(BorderColor::Silver)
        } else if s == "gold"@ {
            Some(BorderColor::Gold)
        } else {
            None
        }
    }

    /// Encodes this value to its wire token.
    pub fn wire_token(&self) -> (r: &'static str)
        ensures
            r@ == self.spec_wire(),
    {
        match self {
            BorderColor::Black => "black",
            BorderColor::White => "white",
            BorderColor::Borderless => "borderless",
            BorderColor::Yellow => "yellow",
            BorderColor::Silver => "silver",
            BorderColor::Gold => "gold",
        }
    }

    /// Decodes a wire token; returns nothing on an unrecognized token.
    pub fn from_wire(s: &str) -> (r: Option<BorderColor>)
        ensures
            r == BorderColor::spec_from_wire(s@),
    {
        if token_is(s, "black") {
            Some(BorderColor::Black)
        } else if token_is(s, "white") {
            Some(BorderColor::White)
        } else if token_is(s, "borderless") {
            Some(BorderColor::Borderless)
        } else if token_is(s, "yellow") {
            Some(BorderColor::Yellow)
        } else if token_is(s, "silver") {
            Some(BorderColor::Silver)
        } else if token_is(s, "gold") {
            Some(BorderColor::Gold)
        } else {
            None
        }
    }
}

/// A size or crop of a card image.
#[derive(Debug, Clone, Copy, PartialEq, Eq, Hash)]
pub enum ImageType {
    Png,
    BorderCrop,
    ArtCrop,
    Large,
    Normal,
    Small,
}

impl ImageType {
    /// The wire token of this value in the API's JSON vocabulary.
    pub open spec fn spec_wire(self) -> Seq<char> {
        match self {
            ImageType::Png => "png"@,
            ImageType::BorderCrop => "border_crop"@,
            ImageType::ArtCrop => "art_crop"@,
            ImageType::Large => "large"@,
            ImageType::Normal => "normal"@,
            ImageType::Small => "small"@,
        }
    }

    /// The value a wire token decodes to; unrecognized tokens decode to nothing.
    pub open spec fn spec_from_wire(s: Seq<char>) -> Option<ImageType> {
        if s == "png"@ {
            Some(ImageType::Png)
        } else if s == "border_crop"@ {
            Some(ImageType::BorderCrop)
        } else if s == "art_crop"@ {
            Some(ImageType::ArtCrop)
        } else if s == "large"@ {
            Some(ImageType::Large)
        } else if s == "normal"@ {
            Some(ImageType::Normal)
        } else if s == "small"@ {
            Some(ImageType::Small)
        } else {
            None
        }
    }

    /// Encodes this value to its wire token.
    pub fn wire_token(&self) -> (r: &'static str)
        ensures
            r@ == self.spec_wire(),
    {
        match self {
            ImageType::Png => "png",
            ImageType::BorderCrop => "border_crop",
            ImageType::ArtCrop => "art_crop",
            ImageType::Large => "large",
            ImageType::Normal => "normal",
            ImageType::Small => "small",
        }
    }

    /// Decodes a wire token; returns nothing on an unrecognized token.
    pub fn from_wire(s: &str) -> (r: Option<ImageType>)
        ensures
            r == ImageType::spec_from_wire(s@),
    {
        if token_is(s, "png") {
            Some(ImageType::Png)
        } else if token_is(s, "border_crop") {
            Some(ImageType::BorderCrop)
        } else if token_is(s, "art_crop") {
            Some(ImageType::ArtCrop)
        } else if token_is(s, "large") {
            Some(ImageType::Large)
        } else if token_is(s, "normal") {
            Some(ImageType::Normal)
        } else if token_is(s, "small") {
            Some(ImageType::Small)
        } else {
            None
        }
    }
}

/// A finish a printing is available in.
#[derive(Debug, Clone, Copy, PartialEq, Eq, Hash)]
pub enum Finishes {
    NonFoil,
    Foil,
    Etched,
}

impl Finishes {
    /// The wire token of this value in the API's JSON vocabulary.
    pub open spec fn spec_wire(self) -> Seq<char> {
        match self {
            Finishes::NonFoil => "nonfoil"@,
            Finishes::Foil => "foil"@,
            Finishes::Etched => "etched"@,
        }
    }

    /// The value a wire token decodes to; unrecognized tokens decode to nothing.
    pub open spec fn spec_from_wire(s: Seq<char>) -> Option<Finishes> {
        if s == "nonfoil"@ {
            Some(Finishes::NonFoil)
        } else if s == "foil"@ {
            Some(Finishes::Foil)
        } else if s == "etched"@ {
            Some(Finishes::Etched)
        } else {
            None
        }
    }

    /// Encodes this value to its wire token.
    pub fn wire_token(&self) -> (r: &'static str)
        ensures
            r@ == self.spec_wire(),
    {
        match self {
            Finishes::NonFoil => "nonfoil",
            Finishes::Foil => "foil",
            Finishes::Etched => "etched",
        }
    }

    /// Decodes a wire token; returns nothing on an unrecognized token.
    pub fn from_wire(s: &str) -> (r: Option<Finishes>)
        ensures
            r == Finishes::spec_from_wire(s@),
    {
        if token_is(s, "nonfoil") {
            Some(Finishes::NonFoil)
        } else if token_is(s, "foil") {
            Some(Finishes::Foil)
        } else if token_is(s, "etched") {
            Some(Finishes::Etched)
        } else {
            None
        }
    }
}

/// The edition of the card frame used by a printing.
#[derive(Debug, Clone, Copy, PartialEq, Eq, Hash)]
pub enum FrameLayout {
    Frame1993,
    Frame1997,
    Frame2003,
    Frame2015,
    FrameFuture,
}

impl FrameLayout {
    /// The wire token of this value in the API's JSON vocabulary.
    pub open spec fn spec_wire(self) -> Seq<char> {
        match self {
            FrameLayout::Frame1993 => "1993"@,
            FrameLayout::Frame1997 => "1997"@,
            FrameLayout::Frame2003 => "2003"@,
            FrameLayout::Frame2015 => "2015"@,
            FrameLayout::FrameFuture => "future"@,
        }
    }

    /// The value a wire token decodes to; unrecognized tokens decode to nothing.
    pub open spec fn spec_from_wire(s: Seq<char>) -> Option<FrameLayout> {
        if s == "1993"@ {
            Some(FrameLayout::Frame1993)
        } else if s == "1997"@ {
            Some(FrameLayout::Frame1997)
        } else if s == "2003"@ {
            Some(FrameLayout::Frame2003)
        } else if s == "2015"@ {
            Some(FrameLayout::Frame2015)
        } else if s == "future"@ {
            Some(FrameLayout::FrameFuture)
        } else {
            None
        }
    }

    /// Encodes this value to its wire token.
    pub fn wire_token(&self) -> (r: &'static str)
        ensures
            r@ == self.spec_wire(),
    {
        match self {
            FrameLayout::Frame1993 => "1993",
            FrameLayout::Frame1997 => "1997",
            FrameLayout::Frame2003 => "2003",
            FrameLayout::Frame2015 => "2015",
            FrameLayout::FrameFuture => "future",
        }
    }

    /// Decodes a wire token; returns nothing on an unrecognized token.
    pub fn from_wire(s: &str) -> (r: Option<FrameLayout>)
        ensures
            r == FrameLayout::spec_from_wire(s@),
    {
        if token_is(s, "1993") {
            Some(FrameLayout::Frame1993)
        } else if token_is(s, "1997") {
            Some(FrameLayout::Frame1997)
        } else if token_is(s, "2003") {
            Some(FrameLayout::Frame2003)
        } else if token_is(s, "2015") {
            Some(FrameLayout::Frame2015)
        } else if token_is(s, "future") {
            Some(FrameLayout::FrameFuture)
        } else {
            None
        }
    }
}

/// A special treatment applied to the card frame.
#[derive(Debug, Clone, Copy, PartialEq, Eq, Hash)]
pub enum FrameEffect {
    Legendary,
    Miracle,
    Enchantment,
    Draft,
    Devoid,
    Tombstone,
    Colorshifted,
    Inverted,
    SunMoonDFC,
    CompassLandDFC,
    OriginPwDFC,
    MoonEldraziDFC,
    WaxingAndWaningMoonDFC,
    Showcase,
    ExtendedArt,
    Companion,
    Etched,
    Snow,
    Lesson,
    ShatteredGlass,
    ConvertDFC,
    FanDFC,
    UpsideDownDFC,
    Spree,
}

impl FrameEffect {
    /// The wire token of this value in the API's JSON vocabulary.
    pub open spec fn spec_wire(self) -> Seq<char> {
        match self {
            FrameEffect::Legendary => "legendary"@,
            FrameEffect::Miracle => "miracle"@,
            FrameEffect::Enchantment => "enchantment"@,
            FrameEffect::Draft => "draft"@,
            FrameEffect::Devoid => "devoid"@,
            FrameEffect::Tombstone => "tombstone"@,
            FrameEffect::Colorshifted => "colorshifted"@,
            FrameEffect::Inverted => "inverted"@,
            FrameEffect::SunMoonDFC => "sunmoondfc"@,
            FrameEffect::CompassLandDFC => "compasslanddfc"@,
            FrameEffect::OriginPwDFC => "originpwdfc"@,
            FrameEffect::MoonEldraziDFC => "mooneldrazidfc"@,
            FrameEffect::WaxingAndWaningMoonDFC => "waxingandwaningmoondfc"@,
            FrameEffect::Showcase => "showcase"@,
            FrameEffect::ExtendedArt => "extendedart"@,
            FrameEffect::Companion => "companion"@,
            FrameEffect::Etched => "etched"@,
            FrameEffect::Snow => "snow"@,
            FrameEffect::Lesson => "lesson"@,
            FrameEffect::ShatteredGlass => "shatteredglass"@,
            FrameEffect::ConvertDFC => "convertdfc"@,
            FrameEffect::FanDFC => "fandfc"@,
            FrameEffect::UpsideDownDFC => "upsidedowndfc"@,
            FrameEffect::Spree => "spree"@,
        }
    }

    /// The value a wire token decodes to; unrecognized tokens decode to nothing.
    pub open spec fn spec_from_wire(s: Seq<char>) -> Option<FrameEffect> {
        if s == "legendary"@ {
            Some(FrameEffect::Legendary)
        } else if s == "miracle"@ {
            Some(FrameEffect::Miracle)
        } else if s == "enchantment"@ {
            Some(FrameEffect::Enchantment)
        } else if s == "draft"@ {
            Some(FrameEffect::Draft)
        } else if s == "devoid"@ {
            Some(FrameEffect::Devoid)
        } else if s == "tombstone"@ {
            Some(FrameEffect::Tombstone)
        } else if s == "colorshifted"@ {
            Some(FrameEffect::Colorshifted)
        } else if s == "inverted"@ {
            Some(FrameEffect::Inverted)
        } else if s == "sunmoondfc"@ {
            Some(FrameEffect::SunMoonDFC)
        } else if s == "compasslanddfc"@ {
            Some(FrameEffect::CompassLandDFC)
        } else if s == "originpwdfc"@ {
            Some(FrameEffect::OriginPwDFC)
        } else if s == "mooneldrazidfc"@ {
            Some(FrameEffect::MoonEldraziDFC)
        } else if s == "waxingandwaningmoondfc"@ {
            Some(FrameEffect::WaxingAndWaningMoonDFC)
        } else if s == "showcase"@ {
            Some(FrameEffect::Showcase)
        } else if s == "extendedart"@ {
            Some(FrameEffect::ExtendedArt)
        } else if s == "companion"@ {
            Some(FrameEffect::Companion)
        } else if s == "etched"@ {
            Some(FrameEffect::Etched)
        } else if s == "snow"@ {
            Some(FrameEffect::Snow)
        } else if s == "lesson"@ {
            Some(FrameEffect::Lesson)
        } else if s == "shatteredglass"@ {
            Some(FrameEffect::ShatteredGlass)
        } else if s == "convertdfc"@ {
            Some(FrameEffect::ConvertDFC)
        } else if s == "fandfc"@ {
            Some(FrameEffect::FanDFC)
        } else if s == "upsidedowndfc"@ {
            Some(FrameEffect::UpsideDownDFC)
        } else if s == "spree"@ {
            Some(FrameEffect::Spree)
        } else {
            None
        }
    }

    /// Encodes this value to its wire token.
    pub fn wire_token(&self) -> (r: &'static str)
        ensures
            r@ == self.spec_wire(),
    {
        match self {
            FrameEffect::Legendary => "legendary",
            FrameEffect::Miracle => "miracle",
            FrameEffect::Enchantment => "enchantment",
            FrameEffect::Draft => "draft",
            FrameEffect::Devoid => "devoid",
            FrameEffect::Tombstone => "tombstone",
            FrameEffect::Colorshifted => "colorshifted",
            FrameEffect::Inverted => "inverted",
            FrameEffect::SunMoonDFC => "sunmoondfc",
            FrameEffect::CompassLandDFC => "compasslanddfc",
            FrameEffect::OriginPwDFC => "originpwdfc",
            FrameEffect::MoonEldraziDFC => "mooneldrazidfc",
            FrameEffect::WaxingAndWaningMoonDFC => "waxingandwaningmoondfc",
            FrameEffect::Showcase => "showcase",
            FrameEffect::ExtendedArt => "extendedart",
            FrameEffect::Companion => "companion",
            FrameEffect::Etched => "etched",
            FrameEffect::Snow => "snow",
            FrameEffect::Lesson => "lesson",
            FrameEffect::ShatteredGlass => "shatteredglass",
            FrameEffect::ConvertDFC => "convertdfc",
            FrameEffect::FanDFC => "fandfc",
            FrameEffect::UpsideDownDFC => "upsidedowndfc",
            FrameEffect::Spree => "spree",
        }
    }

    /// Decodes a wire token; returns nothing on an unrecognized token.
    pub fn from_wire(s: &str) -> (r: Option<FrameEffect>)
        ensures
            r == FrameEffect::spec_from_wire(s@),
    {
        if token_is(s, "legendary") {
            Some(FrameEffect::Legendary)
        } else if token_is(s, "miracle") {
            Some(FrameEffect::Miracle)
        } else if token_is(s, "enchantment") {
            Some(FrameEffect::Enchantment)
        } else if token_is(s, "draft") {
            Some(FrameEffect::Draft)
        } else if token_is(s, "devoid") {
            Some(FrameEffect::Devoid)
        } else if token_is(s, "tombstone") {
            Some(FrameEffect::Tombstone)
        } else if token_is(s, "colorshifted") {
            Some(FrameEffect::Colorshifted)
        } else if token_is(s, "inverted") {
            Some(FrameEffect::Inverted)
        } else if token_is(s, "sunmoondfc") {
            Some(FrameEffect::SunMoonDFC)
        } else if token_is(s, "compasslanddfc") {
            Some(FrameEffect::CompassLandDFC)
        } else if token_is(s, "originpwdfc") {
            Some(FrameEffect::OriginPwDFC)
        } else if token_is(s, "mooneldrazidfc") {
            Some(FrameEffect::MoonEldraziDFC)
        } else if token_is(s, "waxingandwaningmoondfc") {
            Some(FrameEffect::WaxingAndWaningMoonDFC)
        } else if token_is(s, "showcase") {
            Some(FrameEffect::Showcase)
        } else if token_is(s, "extendedart") {
            Some(FrameEffect::ExtendedArt)
        } else if token_is(s, "companion") {
            Some(FrameEffect::Companion)
        } else if token_is(s, "etched") {
            Some(FrameEffect::Etched)
        } else if token_is(s, "snow") {
            Some(FrameEffect::Snow)
        } else if token_is(s, "lesson") {
            Some(FrameEffect::Lesson)
        } else if token_is(s, "shatteredglass") {
            Some(FrameEffect::ShatteredGlass)
        } else if token_is(s, "convertdfc") {
            Some(FrameEffect::ConvertDFC)
        } else if token_is(s, "fandfc") {
            Some(FrameEffect::FanDFC)
        } else if token_is(s, "upsidedowndfc") {
            Some(FrameEffect::UpsideDownDFC)
        } else if token_is(s, "spree") {
            Some(FrameEffect::Spree)
        } else {
            None
        }
    }
}

/// A game platform a printing is available on.
#[derive(Debug, Clone, Copy, PartialEq, Eq, Hash)]
pub enum Game {
    Paper,
    Arena,
    Mtgo,
}

impl Game {
    /// The wire token of this value in the API's JSON vocabulary.
    pub open spec fn spec_wire(self) -> Seq<char> {
        match self {
            Game::Paper => "paper"@,
            Game::Arena => "arena"@,
            Game::Mtgo => "mtgo"@,
        }
    }

    /// The value a wire token decodes to; unrecognized tokens decode to nothing.
    pub open spec fn spec_from_wire(s: Seq<char>) -> Option<Game> {
        if s == "paper"@ {
            Some(Game::Paper)
        } else if s == "arena"@ {
            Some(Game::Arena)
        } else if s == "mtgo"@ {
            Some(Game::Mtgo)
        } else {
            None
        }
    }

    /// Encodes this value to its wire token.
    pub fn wire_token(&self) -> (r: &'static str)
        ensures
            r@ == self.spec_wire(),
    {
        match self {
            Game::Paper => "paper",
            Game::Arena => "arena",
            Game::Mtgo => "mtgo",
        }
    }

    /// Decodes a wire token; returns nothing on an unrecognized token.
    pub fn from_wire(s: &str) -> (r: Option<Game>)
        ensures
            r == Game::spec_from_wire(s@),
    {
        if token_is(s, "paper") {
            Some(Game::Paper)
        } else if token_is(s, "arena") {
            Some(Game::Arena)
        } else if token_is(s, "mtgo") {
            Some(Game::Mtgo)
        } else {
            None
        }
    }
}

/// How complete the imagery for a printing is.
#[derive(Debug, Clone, Copy, PartialEq, Eq, Hash)]
pub enum ImageStatus {
    Missing,
    Placeholder,
    LowRes,
    HighResScan,
}

impl ImageStatus {
    /// The wire token of this value in the API's JSON vocabulary.
    pub open spec fn spec_wire(self) -> Seq<char> {
        match self {
            ImageStatus::Missing => "missing"@,
            ImageStatus::Placeholder => "placeholder"@,
            ImageStatus::LowRes => "lowres"@,
            ImageStatus::HighResScan => "highres_scan"@,
        }
    }

    /// The value a wire token decodes to; unrecognized tokens decode to nothing.
    pub open spec fn spec_from_wire(s: Seq<char>) -> Option<ImageStatus> {
        if s == "missing"@ {
            Some(ImageStatus::Missing)
        } else if s == "placeholder"@ {
            Some(ImageStatus::Placeholder)
        } else if s == "lowres"@ {
            Some(ImageStatus::LowRes)
        } else if s == "highres_scan"@ {
            Some(ImageStatus::HighResScan)
        } else {
            None
        }
    }

    /// Encodes this value to its wire token.
    pub fn wire_token(&self) -> (r: &'static str)
        ensures
            r@ == self.spec_wire(),
    {
        match self {
            ImageStatus::Missing => "missing",
            ImageStatus::Placeholder => "placeholder",
            ImageStatus::LowRes => "lowres",
            ImageStatus::HighResScan => "highres_scan",
        }
    }

    /// Decodes a wire token; returns nothing on an unrecognized token.
    pub fn from_wire(s: &str) -> (r: Option<ImageStatus>)
        ensures
            r == ImageStatus::spec_from_wire(s@),
    {
        if token_is(s, "missing") {
            Some(ImageStatus::Missing)
        } else if token_is(s, "placeholder") {
            Some(ImageStatus::Placeholder)
        } else if token_is(s, "lowres") {
            Some(ImageStatus::LowRes)
        } else if token_is(s, "highres_scan") {
            Some(ImageStatus::HighResScan)
        } else {
            None
        }
    }
}

/// A currency or venue a price is quoted in.
#[derive(Debug, Clone, Copy, PartialEq, Eq, Hash)]
pub enum PriceType {
    USD,
    USDFoil,
    USDEtched,
    EUR,
    EURFoil,
    Tix,
}

impl PriceType {
    /// The wire token of this value in the API's JSON vocabulary.
    pub open spec fn spec_wire(self) -> Seq<char> {
        match self {
            PriceType::USD => "usd"@,
            PriceType::USDFoil => "usd_foil"@,
            PriceType::USDEtched => "usd_etched"@,
            PriceType::EUR => "eur"@,
            PriceType::EURFoil => "eur_foil"@,
            PriceType::Tix => "tix"@,
        }
    }

    /// The value a wire token decodes to; unrecognized tokens decode to nothing.
    pub open spec fn spec_from_wire(s: Seq<char>) -> Option<PriceType> {
        if s == "usd"@ {
            Some(PriceType::USD)
        } else if s == "usd_foil"@ {
            Some(PriceType::USDFoil)
        } else if s == "usd_etched"@ {
            Some(PriceType::USDEtched)
        } else if s == "eur"@ {
            Some(PriceType::EUR)
        } else if s == "eur_foil"@ {
            Some(PriceType::EURFoil)
        } else if s == "tix"@ {
            Some(PriceType::Tix)
        } else {
            None
        }
    }

    /// Encodes this value to its wire token.
    pub fn wire_token(&self) -> (r: &'static str)
        ensures
            r@ == self.spec_wire(),
    {
        match self {
            PriceType::USD => "usd",
            PriceType::USDFoil => "usd_foil",
            PriceType::USDEtched => "usd_etched",
            PriceType::EUR => "eur",
            PriceType::EURFoil => "eur_foil",
            PriceType::Tix => "tix",
        }
    }

    /// Decodes a wire token; returns nothing on an unrecognized token.
    pub fn from_wire(s: &str) -> (r: Option<PriceType>)
        ensures
            r == PriceType::spec_from_wire(s@),
    {
        if token_is(s, "usd") {
            Some(PriceType::USD)
        } else if token_is(s, "usd_foil") {
            Some(PriceType::USDFoil)
        } else if token_is(s, "usd_etched") {
            Some(PriceType::USDEtched)
        } else if token_is(s, "eur") {
            Some(PriceType::EUR)
        } else if token_is(s, "eur_foil") {
            Some(PriceType::EURFoil)
        } else if token_is(s, "tix") {
            Some(PriceType::Tix)
        } else {
            None
        }
    }
}

/// A marketplace a purchase link points to.
#[derive(Debug, Clone, Copy, PartialEq, Eq, Hash)]
pub enum PurchaseType {
    TcgPlayer,
    CardMarket,
    CardHoarder,
}

impl PurchaseType {
    /// The wire token of this value in the API's JSON vocabulary.
    pub open spec fn spec_wire(self) -> Seq<char> {
        match self {
            PurchaseType::TcgPlayer => "tcgplayer"@,
            PurchaseType::CardMarket => "cardmarket"@,
            PurchaseType::CardHoarder => "cardhoarder"@,
        }
    }

    /// The value a wire token decodes to; unrecognized tokens decode to nothing.
    pub open spec fn spec_from_wire(s: Seq<char>) -> Option<PurchaseType> {
        if s == "tcgplayer"@ {
            Some(PurchaseType::TcgPlayer)
        } else if s == "cardmarket"@ {
            Some(PurchaseType::CardMarket)
        } else if s == "cardhoarder"@ {
            Some(PurchaseType::CardHoarder)
        } else {
            None
        }
    }

    /// Encodes this value to its wire token.
    pub fn wire_token(&self) -> (r: &'static str)
        ensures
            r@ == self.spec_wire(),
    {
        match self {
            PurchaseType::TcgPlayer => "tcgplayer",
            PurchaseType::CardMarket => "cardmarket",
            PurchaseType::CardHoarder => "cardhoarder",
        }
    }

    /// Decodes a wire token; returns nothing on an unrecognized token.
    pub fn from_wire(s: &str) -> (r: Option<PurchaseType>)
        ensures
            r == PurchaseType::spec_from_wire(s@),
    {
        if token_is(s, "tcgplayer") {
            Some(PurchaseType::TcgPlayer)
        } else if token_is(s, "cardmarket") {
            Some(PurchaseType::CardMarket)
        } else if token_is(s, "cardhoarder") {
            Some(PurchaseType::CardHoarder)
        } else {
            None
        }
    }
}

/// The rarity of a printing.
#[derive(Debug, Clone, Copy, PartialEq, Eq, Hash)]
pub enum Rarity {
    Common,
    Uncommon,
    Rare,
    Special,
    Mythic,
    Bonus,
}

impl Rarity {
    /// The wire token of this value in the API's JSON vocabulary.
    pub open spec fn spec_wire(self) -> Seq<char> {
        match self {
            Rarity::Common => "common"@,
            Rarity::Uncommon => "uncommon"@,
            Rarity::Rare => "rare"@,
            Rarity::Special => "special"@,
            Rarity::Mythic => "mythic"@,
            Rarity::Bonus => "bonus"@,
        }
    }

    /// The value a wire token decodes to; unrecognized tokens decode to nothing.
    pub open spec fn spec_from_wire(s: Seq<char>) -> Option<Rarity> {
        if s == "common"@ {
            Some(Rarity::Common)
        } else if s == "uncommon"@ {
            Some(Rarity::Uncommon)
        } else if s == "rare"@ {
            Some(Rarity::Rare)
        } else if s == "special"@ {
            Some(Rarity::Special)
        } else if s == "mythic"@ {
            Some(Rarity::Mythic)
        } else if s == "bonus"@ {
            Some(Rarity::Bonus)
        } else {
            None
        }
    }

    /// Encodes this value to its wire token.
    pub fn wire_token(&self) -> (r: &'static str)
        ensures
            r@ == self.spec_wire(),
    {
        match self {
            Rarity::Common => "common",
            Rarity::Uncommon => "uncommon",
            Rarity::Rare => "rare",
            Rarity::Special => "special",
            Rarity::Mythic => "mythic",
            Rarity::Bonus => "bonus",
        }
    }

    /// Decodes a wire token; returns nothing on an unrecognized token.
    pub fn from_wire(s: &str) -> (r: Option<Rarity>)
        ensures
            r == Rarity::spec_from_wire(s@),
    {
        if token_is(s, "common") {
            Some(Rarity::Common)
        } else if token_is(s, "uncommon") {
            Some(Rarity::Uncommon)
        } else if token_is(s, "rare") {
            Some(Rarity::Rare)
        } else if token_is(s, "special") {
            Some(Rarity::Special)
        } else if token_is(s, "mythic") {
            Some(Rarity::Mythic)
        } else if token_is(s, "bonus") {
            Some(Rarity::Bonus)
        } else {
            None
        }
    }
}

/// The shape of the holographic security stamp, if any.
#[derive(Debug, Clone, Copy, PartialEq, Eq, Hash)]
pub enum SecurityStamp {
    Oval,
    Triangle,
    Acorn,
    Circle,
    Arena,
    Heart,
}

impl SecurityStamp {
    /// The wire token of this value in the API's JSON vocabulary.
    pub open spec fn spec_wire(self) -> Seq<char> {
        match self {
            SecurityStamp::Oval => "oval"@,
            SecurityStamp::Triangle => "triangle"@,
            SecurityStamp::Acorn => "acorn"@,
            SecurityStamp::Circle => "circle"@,
            SecurityStamp::Arena => "arena"@,
            SecurityStamp::Heart => "heart"@,
        }
    }

    /// The value a wire token decodes to; unrecognized tokens decode to nothing.
    pub open spec fn spec_from_wire(s: Seq<char>) -> Option<SecurityStamp> {
        if s == "oval"@ {
            Some(SecurityStamp::Oval)
        } else if s == "triangle"@ {
            Some(SecurityStamp::Triangle)
        } else if s == "acorn"@ {
            Some(SecurityStamp::Acorn)
        } else if s == "circle"@ {
            Some(SecurityStamp::Circle)
        } else if s == "arena"@ {
            Some(SecurityStamp::Arena)
        } else if s == "heart"@ {
            Some(SecurityStamp::Heart)
        } else {
            None
        }
    }

    /// Encodes this value to its wire token.
    pub fn wire_token(&self) -> (r: &'static str)
        ensures
            r@ == self.spec_wire(),
    {
        match self {
            SecurityStamp::Oval => "oval",
            SecurityStamp::Triangle => "triangle",
            SecurityStamp::Acorn => "acorn",
            SecurityStamp::Circle => "circle",
            SecurityStamp::Arena => "arena",
            SecurityStamp::Heart => "heart",
        }
    }

    /// Decodes a wire token; returns nothing on an unrecognized token.
    pub fn from_wire(s: &str) -> (r: Option<SecurityStamp>)
        ensures
            r == SecurityStamp::spec_from_wire(s@),
    {
        if token_is(s, "oval") {
            Some(SecurityStamp::Oval)
        } else if token_is(s, "triangle") {
            Some(SecurityStamp::Triangle)
        } else if token_is(s, "acorn") {
            Some(SecurityStamp::Acorn)
        } else if token_is(s, "circle") {
            Some(SecurityStamp::Circle)
        } else if token_is(s, "arena") {
            Some(SecurityStamp::Arena)
        } else if token_is(s, "heart") {
            Some(SecurityStamp::Heart)
        } else {
            None
        }
    }
}

/// The kind of set a printing belongs to.
#[derive(Debug, Clone, Copy, PartialEq, Eq, Hash)]
pub enum SetType {
    Unimplemented,
}

impl SetType {
    /// The wire token of this value in the API's JSON vocabulary.
    pub open spec fn spec_wire(self) -> Seq<char> {
        match self {
            SetType::Unimplemented => "Unimplemented"@,
        }
    }

    /// The value a wire token decodes to; unrecognized tokens decode to nothing.
    pub open spec fn spec_from_wire(s: Seq<char>) -> Option<SetType> {
        if s == "Unimplemented"@ {
            Some(SetType::Unimplemented)
        } else {
            None
        }
    }

    /// Encodes this value to its wire token.
    pub fn wire_token(&self) -> (r: &'static str)
        ensures
            r@ == self.spec_wire(),
    {
        match self {
            SetType::Unimplemented => "Unimplemented",
        }
    }

    /// Decodes a wire token; returns nothing on an unrecognized token.
    pub fn from_wire(s: &str) -> (r: Option<SetType>)
        ensures
            r == SetType::spec_from_wire(s@),
    {
        if token_is(s, "Unimplemented") {
            Some(SetType::Unimplemented)
        } else {
            None
        }
    }
}

/// An external resource a related link points to.
#[derive(Debug, Clone, Copy, PartialEq, Eq, Hash)]
pub enum RelatedUriType {
    Gatherer,
    TcgPlayerInfiniteArticles,
    TcgPlayerInfiniteDecks,
    EdhRec,
}

impl RelatedUriType {
    /// The wire token of this value in the API's JSON vocabulary.
    pub open spec fn spec_wire(self) -> Seq<char> {
        match self {
            RelatedUriType::Gatherer => "gatherer"@,
            RelatedUriType::TcgPlayerInfiniteArticles => "tcgplayer_infinite_articles"@,
            RelatedUriType::TcgPlayerInfiniteDecks => "tcgplayer_infinite_decks"@,
            RelatedUriType::EdhRec => "edhrec"@,
        }
    }

    /// The value a wire token decodes to; unrecognized tokens decode to nothing.
    pub open spec fn spec_from_wire(s: Seq<char>) -> Option<RelatedUriType> {
        if s == "gatherer"@ {
            Some(RelatedUriType::Gatherer)
        } else if s == "tcgplayer_infinite_articles"@ {
            Some(RelatedUriType::TcgPlayerInfiniteArticles)
        } else if s == "tcgplayer_infinite_decks"@ {
            Some(RelatedUriType::TcgPlayerInfiniteDecks)
        } else if s == "edhrec"@ {
            Some(RelatedUriType::EdhRec)
        } else {
            None
        }
    }

    /// Encodes this value to its wire token.
    pub fn wire_token(&self) -> (r: &'static str)
        ensures
            r@ == self.spec_wire(),
    {
        match self {
            RelatedUriType::Gatherer => "gatherer",
            RelatedUriType::TcgPlayerInfiniteArticles => "tcgplayer_infinite_articles",
            RelatedUriType::TcgPlayerInfiniteDecks => "tcgplayer_infinite_decks",
            RelatedUriType::EdhRec => "edhrec",
        }
    }

    /// Decodes a wire token; returns nothing on an unrecognized token.
    pub fn from_wire(s: &str) -> (r: Option<RelatedUriType>)
        ensures
            r == RelatedUriType::spec_from_wire(s@),
    {
        if token_is(s, "gatherer") {
            Some(RelatedUriType::Gatherer)
        } else if token_is(s, "tcgplayer_infinite_articles") {
            Some(RelatedUriType::TcgPlayerInfiniteArticles)
        } else if token_is(s, "tcgplayer_infinite_decks") {
            Some(RelatedUriType::TcgPlayerInfiniteDecks)
        } else if token_is(s, "edhrec") {
            Some(RelatedUriType::EdhRec)
        } else {
            None
        }
    }
}

/// Encoding a value to its wire token and decoding the token back yields
/// the original value, for every value of the vocabulary.
pub proof fn lemma_colors_wire_round_trip(x: Colors)
    ensures
        Colors::spec_from_wire(x.spec_wire()) == Some(x),
{
    reveal_strlit("W");
    reveal_strlit("R");
    reveal_strlit("U");
    reveal_strlit("G");
    reveal_strlit("B");
    assert("W"@.len() == 1);
    assert("R"@.len() == 1);
    assert("U"@.len() == 1);
    assert("G"@.len() == 1);
    assert("B"@.len() == 1);
    assert("W"@[0] == 'W' && "R"@[0] == 'R');
    assert("W"@[0] == 'W' && "U"@[0] == 'U');
    assert("W"@[0] == 'W' && "G"@[0] == 'G');
    assert("W"@[0] == 'W' && "B"@[0] == 'B');
    assert("R"@[0] == 'R' && "U"@[0] == 'U');
    assert("R"@[0] == 'R' && "G"@[0] == 'G');
    assert("R"@[0] == 'R' && "B"@[0] == 'B');
    assert("U"@[0] == 'U' && "G"@[0] == 'G');
    assert("U"@[0] == 'U' && "B"@[0] == 'B');
    assert("G"@[0] == 'G' && "B"@[0] == 'B');
}

/// Encoding a value to its wire token and decoding the token back yields
/// the original value, for every value of the vocabulary.
pub proof fn lemma_language_wire_round_trip(x: Language)
    ensures
        Language::spec_from_wire(x.spec_wire()) == Some(x),
{
    reveal_strlit("en");
    reveal_strlit("es");
    reveal_strlit("fr");
    reveal_strlit("de");
    reveal_strlit("it");
    reveal_strlit("pt");
    reveal_strlit("ja");
    reveal_strlit("ko");
    reveal_strlit("ru");
    reveal_strlit("zhs");
    reveal_strlit("zht");
    reveal_strlit("he");
    reveal_strlit("la");
    reveal_strlit("grc");
    reveal_strlit("ar");
    reveal_strlit("sa");
    reveal_strlit("ph");
    reveal_strlit("qya");
    assert("en"@.len() == 2);
    assert("es"@.len() == 2);
    assert("fr"@.len() == 2);
    assert("de"@.len() == 2);
    assert("it"@.len() == 2);
    assert("pt"@.len() == 2);
    assert("ja"@.len() == 2);
    assert("ko"@.len() == 2);
    assert("ru"@.len() == 2);
    assert("zhs"@.len() == 3);
    assert("zht"@.len() == 3);
    assert("he"@.len() == 2);
    assert("la"@.len() == 2);
    assert("grc"@.len() == 3);
    assert("ar"@.len() == 2);
    assert("sa"@.len() == 2);
    assert("ph"@.len() == 2);
    assert("qya"@.len() == 3);
    assert("en"@[1] == 'n' && "es"@[1] == 's');
    assert("en"@[0] == 'e' && "fr"@[0] == 'f');
    assert("en"@[0] == 'e' && "de"@[0] == 'd');
    assert("en"@[0] == 'e' && "it"@[0] == 'i');
    assert("en"@[0] == 'e' && "pt"@[0] == 'p');
    assert("en"@[0] == 'e' && "ja"@[0] == 'j');
    assert("en"@[0] == 'e' && "ko"@[0] == 'k');
    assert("en"@[0] == 'e' && "ru"@[0] == 'r');
    assert("en"@[0] == 'e' && "he"@[0] == 'h');
    assert("en"@[0] == 'e' && "la"@[0] == 'l');
    assert("en"@[0] == 'e' && "ar"@[0] == 'a');
    assert("en"@[0] == 'e' && "sa"@[0] == 's');
    assert("en"@[0] == 'e' && "ph"@[0] == 'p');
    assert("es"@[0] == 'e' && "fr"@[0] == 'f');
    assert("es"@[0] == 'e' && "de"@[0] == 'd');
    assert("es"@[0] == 'e' && "it"@[0] == 'i');
    assert("es"@[0] == 'e' && "pt"@[0] == 'p');
    assert("es"@[0] == 'e' && "ja"@[0] == 'j');
    assert("es"@[0] == 'e' && "ko"@[0] == 'k');
    assert("es"@[0] == 'e' && "ru"@[0] == 'r');
    assert("es"@[0] == 'e' && "he"@[0] == 'h');
    assert("es"@[0] == 'e' && "la"@[0] == 'l');
    assert("es"@[0] == 'e' && "ar"@[0] == 'a');
    assert("es"@[0] == 'e' && "sa"@[0] == 's');
    assert("es"@[0] == 'e' && "ph"@[0] == 'p');
    assert("fr"@[0] == 'f' && "de"@[0] == 'd');
    assert("fr"@[0] == 'f' && "it"@[0] == 'i');
    assert("fr"@[0] == 'f' && "pt"@[0] == 'p');
    assert("fr"@[0] == 'f' && "ja"@[0] == 'j');
    assert("fr"@[0] == 'f' && "ko"@[0] == 'k');
    assert("fr"@[0] == 'f' && "ru"@[0] == 'r');
    assert("fr"@[0] == 'f' && "he"@[0] == 'h');
    assert("fr"@[0] == 'f' && "la"@[0] == 'l');
    assert("fr"@[0] == 'f' && "ar"@[0] == 'a');
    assert("fr"@[0] == 'f' && "sa"@[0] == 's');
    assert("fr"@[0] == 'f' && "ph"@[0] == 'p');
    assert("de"@[0] == 'd' && "it"@[0] == 'i');
    assert("de"@[0] == 'd' && "pt"@[0] == 'p');
    assert("de"@[0] == 'd' && "ja"@[0] == 'j');
    assert("de"@[0] == 'd' && "ko"@[0] == 'k');
    assert("de"@[0] == 'd' && "ru"@[0] == 'r');
    assert("de"@[0] == 'd' && "he"@[0] == 'h');
    assert("de"@[0] == 'd' && "la"@[0] == 'l');
    assert("de"@[0] == 'd' && "ar"@[0] == 'a');
    assert("de"@[0] == 'd' && "sa"@[0] == 's');
    assert("de"@[0] == 'd' && "ph"@[0] == 'p');
    assert("it"@[0] == 'i' && "pt"@[0] == 'p');
    assert("it"@[0] == 'i' && "ja"@[0] == 'j');
    assert("it"@[0] == 'i' && "ko"@[0] == 'k');
    assert("it"@[0] == 'i' && "ru"@[0] == 'r');
    assert("it"@[0] == 'i' && "he"@[0] == 'h');
    assert("it"@[0] == 'i' && "la"@[0] == 'l');
    assert("it"@[0] == 'i' && "ar"@[0] == 'a');
    assert("it"@[0] == 'i' && "sa"@[0] == 's');
    assert("it"@[0] == 'i' && "ph"@[0] == 'p');
    assert("pt"@[0] == 'p' && "ja"@[0] == 'j');
    assert("pt"@[0] == 'p' && "ko"@[0] == 'k');
    assert("pt"@[0] == 'p' && "ru"@[0] == 'r');
    assert("pt"@[0] == 'p' && "he"@[0] == 'h');
    assert("pt"@[0] == 'p' && "la"@[0] == 'l');
    assert("pt"@[0] == 'p' && "ar"@[0] == 'a');
    assert("pt"@[0] == 'p' && "sa"@[0] == 's');
    assert("pt"@[1] == 't' && "ph"@[1] == 'h');
    assert("ja"@[0] == 'j' && "ko"@[0] == 'k');
    assert("ja"@[0] == 'j' && "ru"@[0] == 'r');
    assert("ja"@[0] == 'j' && "he"@[0] == 'h');
    assert("ja"@[0] == 'j' && "la"@[0] == 'l');
    assert("ja"@[0] == 'j' && "ar"@[0] == 'a');
    assert("ja"@[0] == 'j' && "sa"@[0] == 's');
    assert("ja"@[0] == 'j' && "ph"@[0] == 'p');
    assert("ko"@[0] == 'k' && "ru"@[0] == 'r');
    assert("ko"@[0] == 'k' && "he"@[0] == 'h');
    assert("ko"@[0] == 'k' && "la"@[0] == 'l');
    assert("ko"@[0] == 'k' && "ar"@[0] == 'a');
    assert("ko"@[0] == 'k' && "sa"@[0] == 's');
    assert("ko"@[0] == 'k' && "ph"@[0] == 'p');
    assert("ru"@[0] == 'r' && "he"@[0] == 'h');
    assert("ru"@[0] == 'r' && "la"@[0] == 'l');
    assert("ru"@[0] == 'r' && "ar"@[0] == 'a');
    assert("ru"@[0] == 'r' && "sa"@[0] == 's');
    assert("ru"@[0] == 'r' && "ph"@[0] == 'p');
    assert("zhs"@[2] == 's' && "zht"@[2] == 't');
    assert("zhs"@[0] == 'z' && "grc"@[0] == 'g');
    assert("zhs"@[0] == 'z' && "qya"@[0] == 'q');
    assert("zht"@[0] == 'z' && "grc"@[0] == 'g');
    assert("zht"@[0] == 'z' && "qya"@[0] == 'q');
    assert("he"@[0] == 'h' && "la"@[0] == 'l');
    assert("he"@[0] == 'h' && "ar"@[0] == 'a');
    assert("he"@[0] == 'h' && "sa"@[0] == 's');
    assert("he"@[0] == 'h' && "ph"@[0] == 'p');
    assert("la"@[0] == 'l' && "ar"@[0] == 'a');
    assert("la"@[0] == 'l' && "sa"@[0] == 's');
    assert("la"@[0] == 'l' && "ph"@[0] == 'p');
    assert("grc"@[0] == 'g' && "qya"@[0] == 'q');
    assert("ar"@[0] == 'a' && "sa"@[0] == 's');
    assert("ar"@[0] == 'a' && "ph"@[0] == 'p');
    assert("sa"@[0] == 's' && "ph"@[0] == 'p');
}

/// Encoding a value to its wire token and decoding the token back yields
/// the original value, for every value of the vocabulary.
pub proof fn lemma_layout_wire_round_trip(x: Layout)
    ensures
        Layout::spec_from_wire(x.spec_wire()) == Some(x),
{
    reveal_strlit("normal");
    reveal_strlit("split");
    reveal_strlit("flip");
    reveal_strlit("transform");
    reveal_strlit("modal_dfc");
    reveal_strlit("meld");
    reveal_strlit("leveler");
    reveal_strlit("class");
    reveal_strlit("case");
    reveal_strlit("saga");
    reveal_strlit("adventure");
    reveal_strlit("mutate");
    reveal_strlit("prototype");
    reveal_strlit("battle");
    reveal_strlit("planar");
    reveal_strlit("scheme");
    reveal_strlit("vanguard");
    reveal_strlit("token");
    reveal_strlit("double_faced_token");
    reveal_strlit("emblem");
    reveal_strlit("augment");
    reveal_strlit("host");
    reveal_strlit("art_series");
    reveal_strlit("reversible_card");
    assert("normal"@.len() == 6);
    assert("split"@.len() == 5);
    assert("flip"@.len() == 4);
    assert("transform"@.len() == 9);
    assert("modal_dfc"@.len() == 9);
    assert("meld"@.len() == 4);
    assert("leveler"@.len() == 7);
    assert("class"@.len() == 5);
    assert("case"@.len() == 4);
    assert("saga"@.len() == 4);
    assert("adventure"@.len() == 9);
    assert("mutate"@.len() == 6);
    assert("prototype"@.len() == 9);
    assert("battle"@.len() == 6);
    assert("planar"@.len() == 6);
    assert("scheme"@.len() == 6);
    assert("vanguard"@.len() == 8);
    assert("token"@.len() == 5);
    assert("double_faced_token"@.len() == 18);
    assert("emblem"@.len() == 6);
    assert("augment"@.len() == 7);
    assert("host"@.len() == 4);
    assert("art_series"@.len() == 10);
    assert("reversible_card"@.len() == 15);
    assert("normal"@[0] == 'n' && "mutate"@[0] == 'm');
    assert("normal"@[0] == 'n' && "battle"@[0] == 'b');
    assert("normal"@[0] == 'n' && "planar"@[0] == 'p');
    assert("normal"@[0] == 'n' && "scheme"@[0] == 's');
    assert("normal"@[0] == 'n' && "emblem"@[0] == 'e');
    assert("split"@[0] == 's' && "class"@[0] == 'c');
    assert("split"@[0] == 's' && "token"@[0] == 't');
    assert("flip"@[0] == 'f' && "meld"@[0] == 'm');
    assert("flip"@[0] == 'f' && "case"@[0] == 'c');
    assert("flip"@[0] == 'f' && "saga"@[0] == 's');
    assert("flip"@[0] == 'f' && "host"@[0] == 'h');
    assert("transform"@[0] == 't' && "modal_dfc"@[0] == 'm');
    assert("transform"@[0] == 't' && "adventure"@[0] == 'a');
    assert("transform"@[0] == 't' && "prototype"@[0] == 'p');
    assert("modal_dfc"@[0] == 'm' && "adventure"@[0] == 'a');
    assert("modal_dfc"@[0] == 'm' && "prototype"@[0] == 'p');
    assert("meld"@[0] == 'm' && "case"@[0] == 'c');
    assert("meld"@[0] == 'm' && "saga"@[0] == 's');
    assert("meld"@[0] == 'm' && "host"@[0] == 'h');
    assert("leveler"@[0] == 'l' && "augment"@[0] == 'a');
    assert("class"@[0] == 'c' && "token"@[0] == 't');
    assert("case"@[0] == 'c' && "saga"@[0] == 's');
    assert("case"@[0] == 'c' && "host"@[0] == 'h');
    assert("saga"@[0] == 's' && "host"@[0] == 'h');
    assert("adventure"@[0] == 'a' && "prototype"@[0] == 'p');
    assert("mutate"@[0] == 'm' && "battle"@[0] == 'b');
    assert("mutate"@[0] == 'm' && "planar"@[0] == 'p');
    assert("mutate"@[0] == 'm' && "scheme"@[0] == 's');
    assert("mutate"@[0] == 'm' && "emblem"@[0] == 'e');
    assert("battle"@[0] == 'b' && "planar"@[0] == 'p');
    assert("battle"@[0] == 'b' && "scheme"@[0] == 's');
    assert("battle"@[0] == 'b' && "emblem"@[0] == 'e');
    assert("planar"@[0] == 'p' && "scheme"@[0] == 's');
    assert("planar"@[0] == 'p' && "emblem"@[0] == 'e');
    assert("scheme"@[0] == 's' && "emblem"@[0] == 'e');
}

/// Encoding a value to its wire token and decoding the token back yields
/// the original value, for every value of the vocabulary.
pub proof fn lemma_related_card_type_wire_round_trip(x: RelatedCardType)
    ensures
        RelatedCardType::spec_from_wire(x.spec_wire()) == Some(x),
{
    reveal_strlit("token");
    reveal_strlit("meld_result");
    reveal_strlit("meld_part");
    reveal_strlit("combo_piece");
    assert("token"@.len() == 5);
    assert("meld_result"@.len() == 11);
    assert("meld_part"@.len() == 9);
    assert("combo_piece"@.len() == 11);
    assert("meld_result"@[0] == 'm' && "combo_piece"@[0] == 'c');
}

/// Encoding a value to its wire token and decoding the token back yields
/// the original value, for every value of the vocabulary.
pub proof fn lemma_border_color_wire_round_trip(x: BorderColor)
    ensures
        BorderColor::spec_from_wire(x.spec_wire()) == Some(x),
{
    reveal_strlit("black");
    reveal_strlit("white");
    reveal_strlit("borderless");
    reveal_strlit("yellow");
    reveal_strlit("silver");
    reveal_strlit("gold");
    assert("black"@.len() == 5);
    assert("white"@.len() == 5);
    assert("borderless"@.len() == 10);
    assert("yellow"@.len() == 6);
    assert("silver"@.len() == 6);
    assert("gold"@.len() == 4);
    assert("black"@[0] == 'b' && "white"@[0] == 'w');
    assert("yellow"@[0] == 'y' && "silver"@[0] == 's');
}

/// Encoding a value to its wire token and decoding the token back yields
/// the original value, for every value of the vocabulary.
pub proof fn lemma_image_type_wire_round_trip(x: ImageType)
    ensures
        ImageType::spec_from_wire(x.spec_wire()) == Some(x),
{
    reveal_strlit("png");
    reveal_strlit("border_crop");
    reveal_strlit("art_crop");
    reveal_strlit("large");
    reveal_strlit("normal");
    reveal_strlit("small");
    assert("png"@.len() == 3);
    assert("border_crop"@.len() == 11);
    assert("art_crop"@.len() == 8);
    assert("large"@.len() == 5);
    assert("normal"@.len() == 6);
    assert("small"@.len() == 5);
    assert("large"@[0] == 'l' && "small"@[0] == 's');
}

/// Encoding a value to its wire token and decoding the token back yields
/// the original value, for every value of the vocabulary.
pub proof fn lemma_finishes_wire_round_trip(x: Finishes)
    ensures
        Finishes::spec_from_wire(x.spec_wire()) == Some(x),
{
    reveal_strlit("nonfoil");
    reveal_strlit("foil");
    reveal_strlit("etched");
    assert("nonfoil"@.len() == 7);
    assert("foil"@.len() == 4);
    assert("etched"@.len() == 6);
}

/// Encoding a value to its wire token and decoding the token back yields
/// the original value, for every value of the vocabulary.
pub proof fn lemma_frame_layout_wire_round_trip(x: FrameLayout)
    ensures
        FrameLayout::spec_from_wire(x.spec_wire()) == Some(x),
{
    reveal_strlit("1993");
    reveal_strlit("1997");
    reveal_strlit("2003");
    reveal_strlit("2015");
    reveal_strlit("future");
    assert("1993"@.len() == 4);
    assert("1997"@.len() == 4);
    assert("2003"@.len() == 4);
    assert("2015"@.len() == 4);
    assert("future"@.len() == 6);
    assert("1993"@[3] == '3' && "1997"@[3] == '7');
    assert("1993"@[0] == '1' && "2003"@[0] == '2');
    assert("1993"@[0] == '1' && "2015"@[0] == '2');
    assert("1997"@[0] == '1' && "2003"@[0] == '2');
    assert("1997"@[0] == '1' && "2015"@[0] == '2');
    assert("2003"@[2] == '0' && "2015"@[2] == '1');
}

/// Encoding a value to its wire token and decoding the token back yields
/// the original value, for every value of the vocabulary.
pub proof fn lemma_frame_effect_wire_round_trip(x: FrameEffect)
    ensures
        FrameEffect::spec_from_wire(x.spec_wire()) == Some(x),
{
    reveal_strlit("legendary");
    reveal_strlit("miracle");
    reveal_strlit("enchantment");
    reveal_strlit("draft");
    reveal_strlit("devoid");
    reveal_strlit("tombstone");
    reveal_strlit("colorshifted");
    reveal_strlit("inverted");
    reveal_strlit("sunmoondfc");
    reveal_strlit("compasslanddfc");
    reveal_strlit("originpwdfc");
    reveal_strlit("mooneldrazidfc");
    reveal_strlit("waxingandwaningmoondfc");
    reveal_strlit("showcase");
    reveal_strlit("extendedart");
    reveal_strlit("companion");
    reveal_strlit("etched");
    reveal_strlit("snow");
    reveal_strlit("lesson");
    reveal_strlit("shatteredglass");
    reveal_strlit("convertdfc");
    reveal_strlit("fandfc");
    reveal_strlit("upsidedowndfc");
    reveal_strlit("spree");
    assert("legendary"@.len() == 9);
    assert("miracle"@.len() == 7);
    assert("enchantment"@.len() == 11);
    assert("draft"@.len() == 5);
    assert("devoid"@.len() == 6);
    assert("tombstone"@.len() == 9);
    assert("colorshifted"@.len() == 12);
    assert("inverted"@.len() == 8);
    assert("sunmoondfc"@.len() == 10);
    assert("compasslanddfc"@.len() == 14);
    assert("originpwdfc"@.len() == 11);
    assert("mooneldrazidfc"@.len() == 14);
    assert("waxingandwaningmoondfc"@.len() == 22);
    assert("showcase"@.len() == 8);
    assert("extendedart"@.len() == 11);
    assert("companion"@.len() == 9);
    assert("etched"@.len() == 6);
    assert("snow"@.len() == 4);
    assert("lesson"@.len() == 6);
    assert("shatteredglass"@.len() == 14);
    assert("convertdfc"@.len() == 10);
    assert("fandfc"@.len() == 6);
    assert("upsidedowndfc"@.len() == 13);
    assert("spree"@.len() == 5);
    assert("legendary"@[0] == 'l' && "tombstone"@[0] == 't');
    assert("legendary"@[0] == 'l' && "companion"@[0] == 'c');
    assert("enchantment"@[0] == 'e' && "originpwdfc"@[0] == 'o');
    assert("enchantment"@[1] == 'n' && "extendedart"@[1] == 'x');
    assert("draft"@[0] == 'd' && "spree"@[0] == 's');
    assert("devoid"@[0] == 'd' && "etched"@[0] == 'e');
    assert("devoid"@[0] == 'd' && "lesson"@[0] == 'l');
    assert("devoid"@[0] == 'd' && "fandfc"@[0] == 'f');
    assert("tombstone"@[0] == 't' && "companion"@[0] == 'c');
    assert("inverted"@[0] == 'i' && "showcase"@[0] == 's');
    assert("sunmoondfc"@[0] == 's' && "convertdfc"@[0] == 'c');
    assert("compasslanddfc"@[0] == 'c' && "mooneldrazidfc"@[0] == 'm');
    assert("compasslanddfc"@[0] == 'c' && "shatteredglass"@[0] == 's');
    assert("originpwdfc"@[0] == 'o' && "extendedart"@[0] == 'e');
    assert("mooneldrazidfc"@[0] == 'm' && "shatteredglass"@[0] == 's');
    assert("etched"@[0] == 'e' && "lesson"@[0] == 'l');
    assert("etched"@[0] == 'e' && "fandfc"@[0] == 'f');
    assert("lesson"@[0] == 'l' && "fandfc"@[0] == 'f');
}

/// Encoding a value to its wire token and decoding the token back yields
/// the original value, for every value of the vocabulary.
pub proof fn lemma_game_wire_round_trip(x: Game)
    ensures
        Game::spec_from_wire(x.spec_wire()) == Some(x),
{
    reveal_strlit("paper");
    reveal_strlit("arena");
    reveal_strlit("mtgo");
    assert("paper"@.len() == 5);
    assert("arena"@.len() == 5);
    assert("mtgo"@.len() == 4);
    assert("paper"@[0] == 'p' && "arena"@[0] == 'a');
}

/// Encoding a value to its wire token and decoding the token back yields
/// the original value, for every value of the vocabulary.
pub proof fn lemma_image_status_wire_round_trip(x: ImageStatus)
    ensures
        ImageStatus::spec_from_wire(x.spec_wire()) == Some(x),
{
    reveal_strlit("missing");
    reveal_strlit("placeholder");
    reveal_strlit("lowres");
    reveal_strlit("highres_scan");
    assert("missing"@.len() == 7);
    assert("placeholder"@.len() == 11);
    assert("lowres"@.len() == 6);
    assert("highres_scan"@.len() == 12);
}

/// Encoding a value to its wire token and decoding the token back yields
/// the original value, for every value of the vocabulary.
pub proof fn lemma_price_type_wire_round_trip(x: PriceType)
    ensures
        PriceType::spec_from_wire(x.spec_wire()) == Some(x),
{
    reveal_strlit("usd");
    reveal_strlit("usd_foil");
    reveal_strlit("usd_etched");
    reveal_strlit("eur");
    reveal_strlit("eur_foil");
    reveal_strlit("tix");
    assert("usd"@.len() == 3);
    assert("usd_foil"@.len() == 8);
    assert("usd_etched"@.len() == 10);
    assert("eur"@.len() == 3);
    assert("eur_foil"@.len() == 8);
    assert("tix"@.len() == 3);
    assert("usd"@[0] == 'u' && "eur"@[0] == 'e');
    assert("usd"@[0] == 'u' && "tix"@[0] == 't');
    assert("usd_foil"@[0] == 'u' && "eur_foil"@[0] == 'e');
    assert("eur"@[0] == 'e' && "tix"@[0] == 't');
}

/// Encoding a value to its wire token and decoding the token back yields
/// the original value, for every value of the vocabulary.
pub proof fn lemma_purchase_type_wire_round_trip(x: PurchaseType)
    ensures
        PurchaseType::spec_from_wire(x.spec_wire()) == Some(x),
{
    reveal_strlit("tcgplayer");
    reveal_strlit("cardmarket");
    reveal_strlit("cardhoarder");
    assert("tcgplayer"@.len() == 9);
    assert("cardmarket"@.len() == 10);
    assert("cardhoarder"@.len() == 11);
}

/// Encoding a value to its wire token and decoding the token back yields
/// the original value, for every value of the vocabulary.
pub proof fn lemma_rarity_wire_round_trip(x: Rarity)
    ensures
        Rarity::spec_from_wire(x.spec_wire()) == Some(x),
{
    reveal_strlit("common");
    reveal_strlit("uncommon");
    reveal_strlit("rare");
    reveal_strlit("special");
    reveal_strlit("mythic");
    reveal_strlit("bonus");
    assert("common"@.len() == 6);
    assert("uncommon"@.len() == 8);
    assert("rare"@.len() == 4);
    assert("special"@.len() == 7);
    assert("mythic"@.len() == 6);
    assert("bonus"@.len() == 5);
    assert("common"@[0] == 'c' && "mythic"@[0] == 'm');
}

/// Encoding a value to its wire token and decoding the token back yields
/// the original value, for every value of the vocabulary.
pub proof fn lemma_security_stamp_wire_round_trip(x: SecurityStamp)
    ensures
        SecurityStamp::spec_from_wire(x.spec_wire()) == Some(x),
{
    reveal_strlit("oval");
    reveal_strlit("triangle");
    reveal_strlit("acorn");
    reveal_strlit("circle");
    reveal_strlit("arena");
    reveal_strlit("heart");
    assert("oval"@.len() == 4);
    assert("triangle"@.len() == 8);
    assert("acorn"@.len() == 5);
    assert("circle"@.len() == 6);
    assert("arena"@.len() == 5);
    assert("heart"@.len() == 5);
    assert("acorn"@[1] == 'c' && "arena"@[1] == 'r');
    assert("acorn"@[0] == 'a' && "heart"@[0] == 'h');
    assert("arena"@[0] == 'a' && "heart"@[0] == 'h');
}

/// Encoding a value to its wire token and decoding the token back yields
/// the original value, for every value of the vocabulary.
pub proof fn lemma_set_type_wire_round_trip(x: SetType)
    ensures
        SetType::spec_from_wire(x.spec_wire()) == Some(x),
{
    reveal_strlit("Unimplemented");
    assert("Unimplemented"@.len() == 13);
}

/// Encoding a value to its wire token and decoding the token back yields
/// the original value, for every value of the vocabulary.
pub proof fn lemma_related_uri_type_wire_round_trip(x: RelatedUriType)
    ensures
        RelatedUriType::spec_from_wire(x.spec_wire()) == Some(x),
{
    reveal_strlit("gatherer");
    reveal_strlit("tcgplayer_infinite_articles");
    reveal_strlit("tcgplayer_infinite_decks");
    reveal_strlit("edhrec");
    assert("gatherer"@.len() == 8);
    assert("tcgplayer_infinite_articles"@.len() == 27);
    assert("tcgplayer_infinite_decks"@.len() == 24);
    assert("edhrec"@.len() == 6);
}

/// Distinct wire tokens decode to distinct values: the token mapping is
/// injective where it is defined.
pub proof fn lemma_price_type_from_wire_injective(a: Seq<char>, b: Seq<char>)
    requires
        PriceType::spec_from_wire(a) is Some,
        PriceType::spec_from_wire(a) == PriceType::spec_from_wire(b),
    ensures
        a == b,
{
}

/// Distinct wire tokens decode to distinct values: the token mapping is
/// injective where it is defined.
pub proof fn lemma_image_type_from_wire_injective(a: Seq<char>, b: Seq<char>)
    requires
        ImageType::spec_from_wire(a) is Some,
        ImageType::spec_from_wire(a) == ImageType::spec_from_wire(b),
    ensures
        a == b,
{
}

/// Distinct wire tokens decode to distinct values: the token mapping is
/// injective where it is defined.
pub proof fn lemma_purchase_type_from_wire_injective(a: Seq<char>, b: Seq<char>)
    requires
        PurchaseType::spec_from_wire(a) is Some,
        PurchaseType::spec_from_wire(a) == PurchaseType::spec_from_wire(b),
    ensures
        a == b,
{
}

/// Distinct wire tokens decode to distinct values: the token mapping is
/// injective where it is defined.
pub proof fn lemma_related_uri_type_from_wire_injective(a: Seq<char>, b: Seq<char>)
    requires
        RelatedUriType::spec_from_wire(a) is Some,
        RelatedUriType::spec_from_wire(a) == RelatedUriType::spec_from_wire(b),
    ensures
        a == b,
{
}

} // verus!
