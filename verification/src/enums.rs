//! The closed sets of domain values the API understands, each with its
//! canonical wire token.  Builders accept only these typed values, never
//! raw strings, so a request can only carry tokens from these sets.

use vstd::prelude::*;

use crate::errors::YaRaspError;
use crate::query::str_eq;

verus! {

/// Kind of transport a thread runs on.
#[derive(Debug, Clone, Copy, PartialEq, Eq, Structural)]
pub enum TransportType {
    Plane,
    Train,
    Suburban,
    Bus,
    Water,
    Helicopter,
}

impl TransportType {
    /// The canonical wire token of this variant.
    pub open spec fn wire(self) -> Seq<char> {
        match self {
            TransportType::Plane => "plane"@,
            TransportType::Train => "train"@,
            TransportType::Suburban => "suburban"@,
            TransportType::Bus => "bus"@,
            TransportType::Water => "water"@,
            TransportType::Helicopter => "helicopter"@,
        }
    }

    /// Which variant a token denotes, if any.
    pub open spec fn parse_wire(s: Seq<char>) -> Option<TransportType> {
        if s == "plane"@ { Some(TransportType::Plane) }
        else if s == "train"@ { Some(TransportType::Train) }
        else if s == "suburban"@ { Some(TransportType::Suburban) }
        else if s == "bus"@ { Some(TransportType::Bus) }
        else if s == "water"@ { Some(TransportType::Water) }
        else if s == "helicopter"@ { Some(TransportType::Helicopter) }
        else { None }
    }

    /// Serialize to the canonical wire token.
    pub fn to_string(&self) -> (r: String)
        ensures
            r@ == self.wire(),
    {
        match self {
            TransportType::Plane => "plane".to_owned(),
            TransportType::Train => "train".to_owned(),
            TransportType::Suburban => "suburban".to_owned(),
            TransportType::Bus => "bus".to_owned(),
            TransportType::Water => "water".to_owned(),
            TransportType::Helicopter => "helicopter".to_owned(),
        }
    }

    /// Parse a token; anything outside the wire set is rejected.
    pub fn from_string(s: &str) -> (r: Result<TransportType, YaRaspError>)
        ensures
            match Self::parse_wire(s@) {
                Some(v) => r == Ok::<TransportType, YaRaspError>(v),
                None => r matches Err(YaRaspError::UnknownVariant(t)) && t@ == s@,
            },
    {
        if str_eq(s, "plane") { Ok(TransportType::Plane) }
        else if str_eq(s, "train") { Ok(TransportType::Train) }
        else if str_eq(s, "suburban") { Ok(TransportType::Suburban) }
        else if str_eq(s, "bus") { Ok(TransportType::Bus) }
        else if str_eq(s, "water") { Ok(TransportType::Water) }
        else if str_eq(s, "helicopter") { Ok(TransportType::Helicopter) }
        else { Err(YaRaspError::UnknownVariant(s.to_owned())) }
    }

    /// Round trip: the wire token of every variant parses back to that
    /// same variant.
    pub proof fn lemma_wire_round_trip(v: TransportType)
        ensures
            Self::parse_wire(v.wire()) == Some(v),
    {
        reveal_strlit("plane");
        reveal_strlit("train");
        reveal_strlit("suburban");
        reveal_strlit("bus");
        reveal_strlit("water");
        reveal_strlit("helicopter");
        assert("plane"@[0] == 'p');
        assert("train"@[0] == 't');
        assert("suburban"@[0] == 's');
        assert("bus"@[0] == 'b');
        assert("water"@[0] == 'w');
        assert("helicopter"@[0] == 'h');
    }
}

/// Station-code system a request's identifiers are written in.
#[derive(Debug, Clone, Copy, PartialEq, Eq, Structural)]
pub enum System {
    Yandex,
    Iata,
    Sirena,
    Express,
    Esr,
}

impl System {
    /// The canonical wire token of this variant.
    pub open spec fn wire(self) -> Seq<char> {
        match self {
            System::Yandex => "yandex"@,
            System::Iata => "iata"@,
            System::Sirena => "sirena"@,
            System::Express => "express"@,
            System::Esr => "esr"@,
        }
    }

    /// Which variant a token denotes, if any.
    pub open spec fn parse_wire(s: Seq<char>) -> Option<System> {
        if s == "yandex"@ { Some(System::Yandex) }
        else if s == "iata"@ { Some(System::Iata) }
        else if s == "sirena"@ { Some(System::Sirena) }
        else if s == "express"@ { Some(System::Express) }
        else if s == "esr"@ { Some(System::Esr) }
        else { None }
    }

    /// Serialize to the canonical wire token.
    pub fn to_string(&self) -> (r: String)
        ensures
            r@ == self.wire(),
    {
        match self {
            System::Yandex => "yandex".to_owned(),
            System::Iata => "iata".to_owned(),
            System::Sirena => "sirena".to_owned(),
            System::Express => "express".to_owned(),
            System::Esr => "esr".to_owned(),
        }
    }

    /// Parse a token; anything outside the wire set is rejected.
    pub fn from_string(s: &str) -> (r: Result<System, YaRaspError>)
        ensures
            match Self::parse_wire(s@) {
                Some(v) => r == Ok::<System, YaRaspError>(v),
                None => r matches Err(YaRaspError::UnknownVariant(t)) && t@ == s@,
            },
    {
        if str_eq(s, "yandex") { Ok(System::Yandex) }
        else if str_eq(s, "iata") { Ok(System::Iata) }
        else if str_eq(s, "sirena") { Ok(System::Sirena) }
        else if str_eq(s, "express") { Ok(System::Express) }
        else if str_eq(s, "esr") { Ok(System::Esr) }
        else { Err(YaRaspError::UnknownVariant(s.to_owned())) }
    }

    /// Round trip: the wire token of every variant parses back to that
    /// same variant.
    pub proof fn lemma_wire_round_trip(v: System)
        ensures
            Self::parse_wire(v.wire()) == Some(v),
    {
        reveal_strlit("yandex");
        reveal_strlit("iata");
        reveal_strlit("sirena");
        reveal_strlit("express");
        reveal_strlit("esr");
        assert("yandex"@[0] == 'y');
        assert("iata"@[0] == 'i');
        assert("sirena"@[0] == 's');
        assert("express"@.len() == 7);
        assert("esr"@.len() == 3);
        assert("express"@[1] == 'x');
        assert("esr"@[1] == 's');
    }
}

/// Which code systems the response should spell station codes in.
#[derive(Debug, Clone, Copy, PartialEq, Eq, Structural)]
pub enum ShowSystems {
    Yandex,
    Esr,
    All,
}

impl ShowSystems {
    /// The canonical wire token of this variant.
    pub open spec fn wire(self) -> Seq<char> {
        match self {
            ShowSystems::Yandex => "yandex"@,
            ShowSystems::Esr => "esr"@,
            ShowSystems::All => "all"@,
        }
    }

    /// Which variant a token denotes, if any.
    pub open spec fn parse_wire(s: Seq<char>) -> Option<ShowSystems> {
        if s == "yandex"@ { Some(ShowSystems::Yandex) }
        else if s == "esr"@ { Some(ShowSystems::Esr) }
        else if s == "all"@ { Some(ShowSystems::All) }
        else { None }
    }

    /// Serialize to the canonical wire token.
    pub fn to_string(&self) -> (r: String)
        ensures
            r@ == self.wire(),
    {
        match self {
            ShowSystems::Yandex => "yandex".to_owned(),
            ShowSystems::Esr => "esr".to_owned(),
            ShowSystems::All => "all".to_owned(),
        }
    }

    /// Parse a token; anything outside the wire set is rejected.
    pub fn from_string(s: &str) -> (r: Result<ShowSystems, YaRaspError>)
        ensures
            match Self::parse_wire(s@) {
                Some(v) => r == Ok::<ShowSystems, YaRaspError>(v),
                None => r matches Err(YaRaspError::UnknownVariant(t)) && t@ == s@,
            },
    {
        if str_eq(s, "yandex") { Ok(ShowSystems::Yandex) }
        else if str_eq(s, "esr") { Ok(ShowSystems::Esr) }
        else if str_eq(s, "all") { Ok(ShowSystems::All) }
        else { Err(YaRaspError::UnknownVariant(s.to_owned())) }
    }

    /// Round trip: the wire token of every variant parses back to that
    /// same variant.
    pub proof fn lemma_wire_round_trip(v: ShowSystems)
        ensures
            Self::parse_wire(v.wire()) == Some(v),
    {
        reveal_strlit("yandex");
        reveal_strlit("esr");
        reveal_strlit("all");
        assert("yandex"@[0] == 'y');
        assert("esr"@[0] == 'e');
        assert("all"@[0] == 'a');
    }
}

/// Language the response's human-readable texts are written in.
#[derive(Debug, Clone, Copy, PartialEq, Eq, Structural)]
pub enum Lang {
    RuRu,
    UkUa,
}

impl Lang {
    /// The canonical wire token of this variant.
    pub open spec fn wire(self) -> Seq<char> {
        match self {
            Lang::RuRu => "ru_RU"@,
            Lang::UkUa => "uk_UA"@,
        }
    }

    /// Which variant a token denotes, if any.
    pub open spec fn parse_wire(s: Seq<char>) -> Option<Lang> {
        if s == "ru_RU"@ { Some(Lang::RuRu) }
        else if s == "uk_UA"@ { Some(Lang::UkUa) }
        else { None }
    }

    /// Serialize to the canonical wire token.
    pub fn to_string(&self) -> (r: String)
        ensures
            r@ == self.wire(),
    {
        match self {
            Lang::RuRu => "ru_RU".to_owned(),
            Lang::UkUa => "uk_UA".to_owned(),
        }
    }

    /// Parse a token; anything outside the wire set is rejected.
    pub fn from_string(s: &str) -> (r: Result<Lang, YaRaspError>)
        ensures
            match Self::parse_wire(s@) {
                Some(v) => r == Ok::<Lang, YaRaspError>(v),
                None => r matches Err(YaRaspError::UnknownVariant(t)) && t@ == s@,
            },
    {
        if str_eq(s, "ru_RU") { Ok(Lang::RuRu) }
        else if str_eq(s, "uk_UA") { Ok(Lang::UkUa) }
        else { Err(YaRaspError::UnknownVariant(s.to_owned())) }
    }

    /// Round trip: the wire token of every variant parses back to that
    /// same variant.
    pub proof fn lemma_wire_round_trip(v: Lang)
        ensures
            Self::parse_wire(v.wire()) == Some(v),
    {
        reveal_strlit("ru_RU");
        reveal_strlit("uk_UA");
        assert("ru_RU"@[0] == 'r');
        assert("uk_UA"@[0] == 'u');
    }
}

/// Body format the API is asked to answer in.
#[derive(Debug, Clone, Copy, PartialEq, Eq, Structural)]
pub enum Format {
    Json,
    Xml,
}

impl Format {
    /// The canonical wire token of this variant.
    pub open spec fn wire(self) -> Seq<char> {
        match self {
            Format::Json => "json"@,
            Format::Xml => "xml"@,
        }
    }

    /// Which variant a token denotes, if any.
    pub open spec fn parse_wire(s: Seq<char>) -> Option<Format> {
        if s == "json"@ { Some(Format::Json) }
        else if s == "xml"@ { Some(Format::Xml) }
        else { None }
    }

    /// Serialize to the canonical wire token.
    pub fn to_string(&self) -> (r: String)
        ensures
            r@ == self.wire(),
    {
        match self {
            Format::Json => "json".to_owned(),
            Format::Xml => "xml".to_owned(),
        }
    }

    /// Parse a token; anything outside the wire set is rejected.
    pub fn from_string(s: &str) -> (r: Result<Format, YaRaspError>)
        ensures
            match Self::parse_wire(s@) {
                Some(v) => r == Ok::<Format, YaRaspError>(v),
                None => r matches Err(YaRaspError::UnknownVariant(t)) && t@ == s@,
            },
    {
        if str_eq(s, "json") { Ok(Format::Json) }
        else if str_eq(s, "xml") { Ok(Format::Xml) }
        else { Err(YaRaspError::UnknownVariant(s.to_owned())) }
    }

    /// Round trip: the wire token of every variant parses back to that
    /// same variant.
    pub proof fn lemma_wire_round_trip(v: Format)
        ensures
            Self::parse_wire(v.wire()) == Some(v),
    {
        reveal_strlit("json");
        reveal_strlit("xml");
        assert("json"@[0] == 'j');
        assert("xml"@[0] == 'x');
    }
}

} // verus!
