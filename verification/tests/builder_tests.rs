use ya_rasp::YaRaspClient;
use ya_rasp::enums::Format;
use ya_rasp::enums::Lang;
use ya_rasp::enums::ShowSystems;
use ya_rasp::enums::System;
use ya_rasp::enums::TransportType;

fn pair(k: &str, v: &str) -> (String, String) {
    (k.to_string(), v.to_string())
}

#[test]
fn search_minimal_query_has_only_required_fields() {
    let client = YaRaspClient::new("SECRET-REDACTED");
    let b = client.search("s9600213", "s2000006");
    assert_eq!(
        b.query_pairs(),
        vec![
            pair("from", "s9600213"),
            pair("to", "s2000006"),
            pair("apikey", "SECRET-REDACTED"),
        ]
    );
}

#[test]
fn search_full_query_has_each_field_once() {
    let client = YaRaspClient::new("SECRET-REDACTED");
    let b = client
        .search("s9600213", "s2000006")
        .date("2024-05-01")
        .transport_types(TransportType::Suburban)
        .system(System::Yandex)
        .show_systems(ShowSystems::All)
        .lang(Lang::RuRu)
        .format(Format::Json)
        .limit(25)
        .add_days_mask(true)
        .transfers(false);
    assert_eq!(
        b.query_pairs(),
        vec![
            pair("from", "s9600213"),
            pair("to", "s2000006"),
            pair("date", "2024-05-01"),
            pair("transport_types", "suburban"),
            pair("system", "yandex"),
            pair("show_systems", "all"),
            pair("lang", "ru_RU"),
            pair("format", "json"),
            pair("limit", "25"),
            pair("add_days_mask", "true"),
            pair("transfers", "false"),
            pair("apikey", "SECRET-REDACTED"),
        ]
    );
}

#[test]
fn search_setter_is_last_write_wins() {
    let client = YaRaspClient::new("k");
    let b = client.search("a", "b").date("2024-05-01").date("2024-06-02");
    assert_eq!(
        b.query_pairs(),
        vec![pair("from", "a"), pair("to", "b"), pair("date", "2024-06-02"), pair("apikey", "k")]
    );
}

#[test]
fn search_limit_renders_decimal() {
    let client = YaRaspClient::new("k");
    assert_eq!(
        client.search("a", "b").limit(0).query_pairs(),
        vec![pair("from", "a"), pair("to", "b"), pair("limit", "0"), pair("apikey", "k")]
    );
    assert_eq!(
        client.search("a", "b").limit(9600213).query_pairs(),
        vec![pair("from", "a"), pair("to", "b"), pair("limit", "9600213"), pair("apikey", "k")]
    );
}

#[test]
fn schedule_minimal_query_has_only_required_fields() {
    let client = YaRaspClient::new("SECRET-REDACTED");
    let b = client.schedule("s9600213");
    assert_eq!(
        b.query_pairs(),
        vec![pair("station", "s9600213"), pair("apikey", "SECRET-REDACTED")]
    );
}

#[test]
fn schedule_full_query_has_each_field_once() {
    let client = YaRaspClient::new("k");
    let b = client
        .schedule("s9600213")
        .date("2024-05-01")
        .transport_types(TransportType::Train)
        .direction("all")
        .lang(Lang::UkUa)
        .format(Format::Xml)
        .system(System::Esr);
    assert_eq!(
        b.query_pairs(),
        vec![
            pair("station", "s9600213"),
            pair("date", "2024-05-01"),
            pair("transport_types", "train"),
            pair("direction", "all"),
            pair("lang", "uk_UA"),
            pair("format", "xml"),
            pair("system", "esr"),
            pair("apikey", "k"),
        ]
    );
}

#[test]
fn stations_list_minimal_query_has_only_the_key() {
    let client = YaRaspClient::new("k");
    assert_eq!(client.stations_list().query_pairs(), vec![pair("apikey", "k")]);
}

#[test]
fn stations_list_full_query_has_each_field_once() {
    let client = YaRaspClient::new("k");
    let b = client.stations_list().lang(Lang::RuRu).format(Format::Json).force_download(true);
    assert_eq!(
        b.query_pairs(),
        vec![
            pair("lang", "ru_RU"),
            pair("format", "json"),
            pair("force_download", "true"),
            pair("apikey", "k"),
        ]
    );
}

#[test]
fn endpoint_paths_are_fixed() {
    let client = YaRaspClient::new("k");
    assert_eq!(client.search("a", "b").url(), "https://api.rasp.yandex.net/v3.0/search/");
    assert_eq!(client.schedule("a").url(), "https://api.rasp.yandex.net/v3.0/schedule/");
    assert_eq!(client.stations_list().url(), "https://api.rasp.yandex.net/v3.0/stations_list/");
}
