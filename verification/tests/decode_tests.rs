use ya_rasp::errors::YaRaspError;
use ya_rasp::schedule::decode_schedule_body;
use ya_rasp::search::decode_search_body;
use ya_rasp::stations_list::decode_stations_list_body;

#[test]
fn search_success_with_three_segments() {
    let body = r#"{
        "segments": [
            {"departure": "2024-05-01T10:00:00", "arrival": "2024-05-01T10:18:00",
             "duration": 1080,
             "thread": {"title": "Alpha - Beta", "number": "6001", "carrier": {"title": "CarrierOne"}}},
            {"departure": "2024-05-01T11:00:00", "arrival": "2024-05-01T11:18:00",
             "duration": 1080,
             "thread": {"title": "Alpha - Beta"}},
            {"departure": "2024-05-01T12:00:00", "arrival": "2024-05-01T12:20:00",
             "duration": 1200,
             "thread": {"title": "Alpha - Gamma", "number": "6003"}}
        ]
    }"#;
    let resp = decode_search_body(200, body).unwrap();
    assert_eq!(resp.segments.len(), 3);
    let s0 = &resp.segments[0];
    assert_eq!(s0.departure, "2024-05-01T10:00:00");
    assert_eq!(s0.arrival, "2024-05-01T10:18:00");
    assert_eq!(s0.duration, 1080);
    assert_eq!(s0.thread_title, "Alpha - Beta");
    assert_eq!(s0.thread_number.as_deref(), Some("6001"));
    assert_eq!(s0.carrier_title.as_deref(), Some("CarrierOne"));
    let s1 = &resp.segments[1];
    assert_eq!(s1.thread_number, None);
    assert_eq!(s1.carrier_title, None);
    let s2 = &resp.segments[2];
    assert_eq!(s2.departure, "2024-05-01T12:00:00");
    assert_eq!(s2.duration, 1200);
    assert_eq!(s2.thread_number.as_deref(), Some("6003"));
}

#[test]
fn search_empty_segment_list_decodes_empty() {
    let resp = decode_search_body(200, r#"{"segments": []}"#).unwrap();
    assert_eq!(resp.segments.len(), 0);
}

#[test]
fn error_envelope_on_failure_status_is_api_error() {
    let body = r#"{"error": {"request": "search", "text": "station code is not found"}}"#;
    let err = decode_search_body(404, body).unwrap_err();
    assert_eq!(
        err,
        YaRaspError::ApiError { status: 404, message: "station code is not found".to_string() }
    );
}

#[test]
fn error_envelope_inside_success_status_is_api_error() {
    let body = r#"{"error": {"text": "API key is invalid"}}"#;
    let err = decode_search_body(200, body).unwrap_err();
    assert_eq!(err, YaRaspError::ApiError { status: 200, message: "API key is invalid".to_string() });
}

#[test]
fn unrecognized_error_body_is_decode_error() {
    let err = decode_search_body(500, r#"{"boom": true}"#).unwrap_err();
    assert!(matches!(err, YaRaspError::DecodeError(_)));
    let err = decode_search_body(500, r#"{"error": "plain string, not an envelope"}"#).unwrap_err();
    assert!(matches!(err, YaRaspError::DecodeError(_)));
}

#[test]
fn missing_required_field_is_decode_error_not_partial() {
    let body = r#"{
        "segments": [
            {"departure": "2024-05-01T10:00:00", "arrival": "2024-05-01T10:18:00",
             "duration": 1080, "thread": {"title": "Alpha - Beta"}},
            {"arrival": "2024-05-01T11:18:00", "duration": 1080,
             "thread": {"title": "Alpha - Beta"}}
        ]
    }"#;
    let err = decode_search_body(200, body).unwrap_err();
    assert_eq!(err, YaRaspError::DecodeError("segments.departure".to_string()));
}

#[test]
fn mistyped_required_field_is_decode_error() {
    let body = r#"{"segments": [
        {"departure": "x", "arrival": "y", "duration": "not a number",
         "thread": {"title": "t"}}
    ]}"#;
    let err = decode_search_body(200, body).unwrap_err();
    assert_eq!(err, YaRaspError::DecodeError("segments.duration".to_string()));
}

#[test]
fn mistyped_thread_is_decode_error() {
    let body = r#"{"segments": [
        {"departure": "x", "arrival": "y", "duration": 1, "thread": "not an object"}
    ]}"#;
    let err = decode_search_body(200, body).unwrap_err();
    assert_eq!(err, YaRaspError::DecodeError("segments.thread.title".to_string()));
}

#[test]
fn non_integral_duration_is_a_field_mismatch() {
    let body = r#"{"segments": [
        {"departure": "x", "arrival": "y", "duration": 1080.5, "thread": {"title": "t"}}
    ]}"#;
    let err = decode_search_body(200, body).unwrap_err();
    assert_eq!(err, YaRaspError::DecodeError("segments.duration".to_string()));
}

#[test]
fn non_integral_numbers_in_unread_fields_are_tolerated() {
    let body = r#"{"segments": [
        {"departure": "x", "arrival": "y", "duration": 1080,
         "thread": {"title": "t"}, "price": {"whole": 123, "cents": 4.5}}
    ]}"#;
    let resp = decode_search_body(200, body).unwrap();
    assert_eq!(resp.segments.len(), 1);
    assert_eq!(resp.segments[0].duration, 1080);
}

#[test]
fn schedule_error_envelope_is_api_error() {
    let body = r#"{"error": {"text": "bad station"}, "uptime": 99.9}"#;
    let err = decode_schedule_body(404, body).unwrap_err();
    assert_eq!(err, YaRaspError::ApiError { status: 404, message: "bad station".to_string() });
    let err = decode_stations_list_body(403, body).unwrap_err();
    assert_eq!(err, YaRaspError::ApiError { status: 403, message: "bad station".to_string() });
}

#[test]
fn missing_segment_list_is_decode_error() {
    let err = decode_search_body(200, r#"{"pagination": {}}"#).unwrap_err();
    assert_eq!(err, YaRaspError::DecodeError("segments".to_string()));
}

#[test]
fn body_that_is_not_json_is_decode_error() {
    let err = decode_search_body(200, "<html>503</html>").unwrap_err();
    assert_eq!(err, YaRaspError::DecodeError("invalid json".to_string()));
}

#[test]
fn schedule_success_decodes_station_and_entries() {
    let body = r#"{
        "station": {"code": "s9600213", "title": "Balandino"},
        "schedule": [
            {"thread": {"title": "One"}, "departure": "2024-05-01T06:00:00"},
            {"thread": {"title": "Two"}, "arrival": "2024-05-01T07:00:00"},
            {"thread": {"title": "Three"}}
        ]
    }"#;
    let resp = decode_schedule_body(200, body).unwrap();
    assert_eq!(resp.station_code, "s9600213");
    assert_eq!(resp.station_title, "Balandino");
    assert_eq!(resp.entries.len(), 3);
    assert_eq!(resp.entries[0].thread_title, "One");
    assert_eq!(resp.entries[0].departure.as_deref(), Some("2024-05-01T06:00:00"));
    assert_eq!(resp.entries[0].arrival, None);
    assert_eq!(resp.entries[1].arrival.as_deref(), Some("2024-05-01T07:00:00"));
    assert_eq!(resp.entries[2].departure, None);
}

#[test]
fn schedule_missing_station_code_is_decode_error() {
    let body = r#"{"station": {"title": "Balandino"}, "schedule": []}"#;
    let err = decode_schedule_body(200, body).unwrap_err();
    assert_eq!(err, YaRaspError::DecodeError("station.code".to_string()));
}

#[test]
fn schedule_entry_without_thread_title_is_decode_error() {
    let body = r#"{
        "station": {"code": "c", "title": "t"},
        "schedule": [{"thread": {"number": "6001"}}]
    }"#;
    let err = decode_schedule_body(200, body).unwrap_err();
    assert_eq!(err, YaRaspError::DecodeError("schedule.thread.title".to_string()));
}

#[test]
fn stations_list_leaf_count_matches_input_tree() {
    let body = r#"{
        "countries": [
            {"title": "CountryOne", "regions": [
                {"title": "RegionOne", "settlements": [
                    {"title": "TownOne", "stations": [
                        {"title": "StopA", "codes": {"yandex_code": "s1"},
                         "longitude": 61.403226, "latitude": 55.305836},
                        {"title": "StopB"}
                    ]},
                    {"title": "TownTwo", "stations": []}
                ]},
                {"title": "RegionTwo", "settlements": []}
            ]},
            {"title": "CountryTwo", "regions": [
                {"title": "RegionThree", "settlements": [
                    {"title": "TownThree", "stations": [
                        {"title": "StopC", "transport_type": "train"},
                        {"title": "StopD"},
                        {"title": "StopE", "codes": {}}
                    ]}
                ]}
            ]}
        ]
    }"#;
    let resp = decode_stations_list_body(200, body).unwrap();
    let mut leaves: usize = 0;
    let mut titles: Vec<String> = Vec::new();
    for country in &resp.countries {
        for region in &country.regions {
            for settlement in &region.settlements {
                for station in &settlement.stations {
                    leaves += 1;
                    titles.push(station.title.clone());
                }
            }
        }
    }
    assert_eq!(leaves, 5);
    assert_eq!(titles, vec!["StopA", "StopB", "StopC", "StopD", "StopE"]);
    assert_eq!(resp.countries[0].regions[0].settlements[0].stations[0].yandex_code.as_deref(), Some("s1"));
    assert_eq!(resp.countries[1].regions[0].settlements[0].stations[0].transport_type.as_deref(), Some("train"));
    assert_eq!(resp.countries[1].regions[0].settlements[0].stations[2].yandex_code, None);
}

#[test]
fn stations_list_station_without_title_is_decode_error() {
    let body = r#"{"countries": [
        {"title": "C", "regions": [
            {"title": "R", "settlements": [
                {"title": "T", "stations": [{"codes": {"yandex_code": "s1"}}]}
            ]}
        ]}
    ]}"#;
    let err = decode_stations_list_body(200, body).unwrap_err();
    assert_eq!(err, YaRaspError::DecodeError("stations.title".to_string()));
}
