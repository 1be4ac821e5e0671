use ya_rasp::enums::Format;
use ya_rasp::enums::Lang;
use ya_rasp::enums::ShowSystems;
use ya_rasp::enums::System;
use ya_rasp::enums::TransportType;
use ya_rasp::errors::YaRaspError;

#[test]
fn transport_type_round_trip() {
    let all = vec![
        TransportType::Plane,
        TransportType::Train,
        TransportType::Suburban,
        TransportType::Bus,
        TransportType::Water,
        TransportType::Helicopter,
    ];
    for v in all {
        assert_eq!(TransportType::from_string(&v.to_string()), Ok(v));
    }
    assert_eq!(TransportType::Plane.to_string(), "plane");
    assert_eq!(TransportType::Helicopter.to_string(), "helicopter");
}

#[test]
fn system_round_trip() {
    let all = vec![System::Yandex, System::Iata, System::Sirena, System::Express, System::Esr];
    for v in all {
        assert_eq!(System::from_string(&v.to_string()), Ok(v));
    }
    assert_eq!(System::Esr.to_string(), "esr");
}

#[test]
fn show_systems_round_trip() {
    let all = vec![ShowSystems::Yandex, ShowSystems::Esr, ShowSystems::All];
    for v in all {
        assert_eq!(ShowSystems::from_string(&v.to_string()), Ok(v));
    }
    assert_eq!(ShowSystems::All.to_string(), "all");
}

#[test]
fn lang_round_trip() {
    let all = vec![Lang::RuRu, Lang::UkUa];
    for v in all {
        assert_eq!(Lang::from_string(&v.to_string()), Ok(v));
    }
    assert_eq!(Lang::RuRu.to_string(), "ru_RU");
}

#[test]
fn format_round_trip() {
    let all = vec![Format::Json, Format::Xml];
    for v in all {
        assert_eq!(Format::from_string(&v.to_string()), Ok(v));
    }
    assert_eq!(Format::Json.to_string(), "json");
}

#[test]
fn unknown_tokens_are_rejected() {
    assert_eq!(
        TransportType::from_string("tram"),
        Err(YaRaspError::UnknownVariant("tram".to_string()))
    );
    assert_eq!(
        TransportType::from_string("Plane"),
        Err(YaRaspError::UnknownVariant("Plane".to_string()))
    );
    assert_eq!(System::from_string(""), Err(YaRaspError::UnknownVariant("".to_string())));
    assert_eq!(
        ShowSystems::from_string("iata"),
        Err(YaRaspError::UnknownVariant("iata".to_string()))
    );
    assert_eq!(Lang::from_string("en_US"), Err(YaRaspError::UnknownVariant("en_US".to_string())));
    assert_eq!(Format::from_string("yaml"), Err(YaRaspError::UnknownVariant("yaml".to_string())));
}
