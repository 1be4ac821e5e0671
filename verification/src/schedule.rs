//! Per-station schedule: the request builder and the decoder for its
//! response, the station's metadata plus its schedule entries.

use vstd::prelude::*;

use crate::YaRaspClient;
use crate::enums::Format;
use crate::enums::Lang;
use crate::enums::System;
use crate::enums::TransportType;
use crate::errors::YaRaspError;
use crate::handle_response::decode_list;
use crate::handle_response::envelope;
use crate::handle_response::envelope_text;
use crate::handle_response::is_success;
use crate::handle_response::lemma_decode_list_complete;
use crate::handle_response::lemma_decode_list_err;
use crate::handle_response::lemma_decode_list_first_err;
use crate::handle_response::lemma_decode_list_pointwise;
use crate::json::JsonValue;
use crate::json::arr_field;
use crate::json::field;
use crate::json::json_of;
use crate::json::parse_json;
use crate::json::str_field;
use crate::query::count_key;
use crate::query::lemma_count_key_add_all;
use crate::query::lemma_count_key_one;
use crate::query::lemma_count_key_opt_all;
use crate::query::opt_pair;
use crate::query::pairs_view;
use crate::query::push_pair;

verus! {

/// Ghost state of a schedule builder: the key, the station code, and
/// each optional field.
pub struct ScheduleModel {
    pub api_key: Seq<char>,
    pub station: Seq<char>,
    pub date: Option<Seq<char>>,
    pub transport_types: Option<TransportType>,
    pub direction: Option<Seq<char>>,
    pub lang: Option<Lang>,
    pub format: Option<Format>,
    pub system: Option<System>,
}

/// The builder state right after construction: the station set, every
/// optional field unset.
pub open spec fn schedule_initial(api_key: Seq<char>, station: Seq<char>) -> ScheduleModel {
    ScheduleModel {
        api_key,
        station,
        date: None,
        transport_types: None,
        direction: None,
        lang: None,
        format: None,
        system: None,
    }
}

/// The serialized query of a builder state: the required pair first,
/// then each set optional field once under its documented wire name in
/// a fixed order, then the API key.  Unset fields leave no trace.
pub open spec fn spec_schedule_query(m: ScheduleModel) -> Seq<(Seq<char>, Seq<char>)> {
    seq![("station"@, m.station)] + schedule_opt_fragment(m) + seq![("apikey"@, m.api_key)]
}

/// The optional part of the query: each set field once, in fixed order.
pub open spec fn schedule_opt_fragment(m: ScheduleModel) -> Seq<(Seq<char>, Seq<char>)> {
    schedule_opt_head(m) + schedule_opt_tail(m)
}

/// The first half of the optional fields, in order.
pub open spec fn schedule_opt_head(m: ScheduleModel) -> Seq<(Seq<char>, Seq<char>)> {
    opt_pair("date"@, m.date)
        + opt_pair("transport_types"@, match m.transport_types {
            Some(t) => Some(t.wire()),
            None => None,
        })
        + opt_pair("direction"@, m.direction)
}

/// The second half of the optional fields, in order.
pub open spec fn schedule_opt_tail(m: ScheduleModel) -> Seq<(Seq<char>, Seq<char>)> {
    opt_pair("lang"@, match m.lang {
            Some(l) => Some(l.wire()),
            None => None,
        })
        + opt_pair("format"@, match m.format {
            Some(f) => Some(f.wire()),
            None => None,
        })
        + opt_pair("system"@, match m.system {
            Some(s) => Some(s.wire()),
            None => None,
        })
}

/// Builder for the per-station schedule.  The station code is fixed at
/// construction; each optional setter consumes the builder and hands it
/// back with that one field set (setting a field again overwrites it:
/// last write wins).
pub struct ScheduleRequestBuilder {
    client: YaRaspClient,
    station: String,
    date: Option<String>,
    transport_types: Option<TransportType>,
    direction: Option<String>,
    lang: Option<Lang>,
    format: Option<Format>,
    system: Option<System>,
}

impl View for ScheduleRequestBuilder {
    type V = ScheduleModel;

    closed spec fn view(&self) -> ScheduleModel {
        ScheduleModel {
            api_key: self.client@,
            station: self.station@,
            date: match self.date {
                Some(s) => Some(s@),
                None => None,
            },
            transport_types: self.transport_types,
            direction: match self.direction {
                Some(s) => Some(s@),
                None => None,
            },
            lang: self.lang,
            format: self.format,
            system: self.system,
        }
    }
}

impl ScheduleRequestBuilder {
    /// A fresh builder; never fails, no optional field set.
    pub fn new(client: YaRaspClient, station: String) -> (b: ScheduleRequestBuilder)
        ensures
            b@ == schedule_initial(client@, station@),
    {
        ScheduleRequestBuilder {
            client,
            station,
            date: None,
            transport_types: None,
            direction: None,
            lang: None,
            format: None,
            system: None,
        }
    }

    /// Restrict the schedule to one date, `YYYY-MM-DD`.
    pub fn date(self, date: &str) -> (b: Self)
        ensures
            b@ == (ScheduleModel { date: Some(date@), ..self@ }),
    {
        Self { date: Some(date.to_owned()), ..self }
    }

    /// Restrict the schedule to one kind of transport.
    pub fn transport_types(self, t: TransportType) -> (b: Self)
        ensures
            b@ == (ScheduleModel { transport_types: Some(t), ..self@ }),
    {
        Self { transport_types: Some(t), ..self }
    }

    /// Keep only threads going the named direction.
    pub fn direction(self, d: &str) -> (b: Self)
        ensures
            b@ == (ScheduleModel { direction: Some(d@), ..self@ }),
    {
        Self { direction: Some(d.to_owned()), ..self }
    }

    /// Language of the response texts.
    pub fn lang(self, l: Lang) -> (b: Self)
        ensures
            b@ == (ScheduleModel { lang: Some(l), ..self@ }),
    {
        Self { lang: Some(l), ..self }
    }

    /// Body format the API should answer in.
    pub fn format(self, f: Format) -> (b: Self)
        ensures
            b@ == (ScheduleModel { format: Some(f), ..self@ }),
    {
        Self { format: Some(f), ..self }
    }

    /// Name the code system the station identifier is written in.
    pub fn system(self, s: System) -> (b: Self)
        ensures
            b@ == (ScheduleModel { system: Some(s), ..self@ }),
    {
        Self { system: Some(s), ..self }
    }

    /// The fixed endpoint path of this builder.
    pub fn url(&self) -> (u: String)
        ensures
            u@ == "https://api.rasp.yandex.net/v3.0/schedule/"@,
    {
        "https://api.rasp.yandex.net/v3.0/schedule/".to_owned()
    }

    /// Borrow the transport handle, for the caller that issues the GET.
    pub fn transport(&self) -> &reqwest::Client {
        self.client.transport()
    }

    /// Append the first half of the set optional fields.
    #[verifier::rlimit(100)]
    fn push_optionals_head(&self, v: &mut Vec<(String, String)>)
        ensures
            pairs_view(final(v)@) == pairs_view(old(v)@) + schedule_opt_head(self@),
    {
        let ghost q0: Seq<(Seq<char>, Seq<char>)> = pairs_view(v@);
        if let Some(d) = &self.date {
            push_pair(v, "date", d.clone());
        }
        let ghost q1 = q0 + opt_pair("date"@, self@.date);
        proof {
            assert(pairs_view(v@) =~= q1);
        }
        if let Some(t) = &self.transport_types {
            push_pair(v, "transport_types", t.to_string());
        }
        let ghost q2 = q1 + opt_pair("transport_types"@, match self@.transport_types {
            Some(t) => Some(t.wire()),
            None => None,
        });
        proof {
            assert(pairs_view(v@) =~= q2);
        }
        if let Some(d) = &self.direction {
            push_pair(v, "direction", d.clone());
        }
        let ghost q3 = q2 + opt_pair("direction"@, self@.direction);
        proof {
            assert(pairs_view(v@) =~= q3);
            assert(q3 =~= q0 + schedule_opt_head(self@));
        }
    }

    /// Append the second half of the set optional fields.
    #[verifier::rlimit(100)]
    fn push_optionals_tail(&self, v: &mut Vec<(String, String)>)
        ensures
            pairs_view(final(v)@) == pairs_view(old(v)@) + schedule_opt_tail(self@),
    {
        let ghost q0: Seq<(Seq<char>, Seq<char>)> = pairs_view(v@);
        if let Some(l) = &self.lang {
            push_pair(v, "lang", l.to_string());
        }
        let ghost q1 = q0 + opt_pair("lang"@, match self@.lang {
            Some(l) => Some(l.wire()),
            None => None,
        });
        proof {
            assert(pairs_view(v@) =~= q1);
        }
        if let Some(f) = &self.format {
            push_pair(v, "format", f.to_string());
        }
        let ghost q2 = q1 + opt_pair("format"@, match self@.format {
            Some(f) => Some(f.wire()),
            None => None,
        });
        proof {
            assert(pairs_view(v@) =~= q2);
        }
        if let Some(s) = &self.system {
            push_pair(v, "system", s.to_string());
        }
        let ghost q3 = q2 + opt_pair("system"@, match self@.system {
            Some(s) => Some(s.wire()),
            None => None,
        });
        proof {
            assert(pairs_view(v@) =~= q3);
            assert(q3 =~= q0 + schedule_opt_tail(self@));
        }
    }

    /// Serialize the accumulated state into the query-pair list.
    pub fn query_pairs(&self) -> (r: Vec<(String, String)>)
        ensures
            pairs_view(r@) == spec_schedule_query(self@),
    {
        let mut v: Vec<(String, String)> = Vec::new();
        proof {
            assert(pairs_view(v@) =~= Seq::<(Seq<char>, Seq<char>)>::empty());
        }
        push_pair(&mut v, "station", self.station.clone());
        proof {
            assert(pairs_view(v@) =~= seq![("station"@, self@.station)]);
        }
        self.push_optionals_head(&mut v);
        self.push_optionals_tail(&mut v);
        push_pair(&mut v, "apikey", self.client.key_string());
        proof {
            assert(pairs_view(v@) =~= seq![("station"@, self@.station)] + schedule_opt_head(self@)
                + schedule_opt_tail(self@) + seq![("apikey"@, self@.api_key)]);
            assert(pairs_view(v@) =~= spec_schedule_query(self@));
        }
        v
    }
}

/// With no optional field set, the query is exactly the station pair
/// plus the API key: no optional wire name occurs at all.
pub proof fn lemma_schedule_query_minimal(m: ScheduleModel)
    requires
        m.date is None,
        m.transport_types is None,
        m.direction is None,
        m.lang is None,
        m.format is None,
        m.system is None,
    ensures
        spec_schedule_query(m) == seq![("station"@, m.station), ("apikey"@, m.api_key)],
{
    assert(spec_schedule_query(m) =~= seq![("station"@, m.station), ("apikey"@, m.api_key)]);
}

/// With every optional field set, the query carries each field exactly
/// once, under its documented wire name, in the builder's fixed order.
pub proof fn lemma_schedule_query_full(m: ScheduleModel)
    requires
        m.date is Some,
        m.transport_types is Some,
        m.direction is Some,
        m.lang is Some,
        m.format is Some,
        m.system is Some,
    ensures
        spec_schedule_query(m) == seq![
            ("station"@, m.station),
            ("date"@, m.date->Some_0),
            ("transport_types"@, m.transport_types->Some_0.wire()),
            ("direction"@, m.direction->Some_0),
            ("lang"@, m.lang->Some_0.wire()),
            ("format"@, m.format->Some_0.wire()),
            ("system"@, m.system->Some_0.wire()),
            ("apikey"@, m.api_key),
        ],
{
    assert(spec_schedule_query(m) =~= seq![
        ("station"@, m.station),
        ("date"@, m.date->Some_0),
        ("transport_types"@, m.transport_types->Some_0.wire()),
        ("direction"@, m.direction->Some_0),
        ("lang"@, m.lang->Some_0.wire()),
        ("format"@, m.format->Some_0.wire()),
        ("system"@, m.system->Some_0.wire()),
        ("apikey"@, m.api_key),
    ]);
}

/// Whatever combination of fields is set, the serialized query carries
/// the station and the API key exactly once each, and each optional
/// wire name exactly once when its field is set and never when it is
/// not.
#[verifier::rlimit(100)]
pub proof fn lemma_schedule_query_key_counts(m: ScheduleModel)
    ensures
        count_key(spec_schedule_query(m), "station"@) == 1,
        count_key(spec_schedule_query(m), "apikey"@) == 1,
        count_key(spec_schedule_query(m), "date"@) == (if m.date is Some { 1nat } else { 0nat }),
        count_key(spec_schedule_query(m), "transport_types"@) == (if m.transport_types is Some { 1nat } else { 0nat }),
        count_key(spec_schedule_query(m), "direction"@) == (if m.direction is Some { 1nat } else { 0nat }),
        count_key(spec_schedule_query(m), "lang"@) == (if m.lang is Some { 1nat } else { 0nat }),
        count_key(spec_schedule_query(m), "format"@) == (if m.format is Some { 1nat } else { 0nat }),
        count_key(spec_schedule_query(m), "system"@) == (if m.system is Some { 1nat } else { 0nat }),
{
    reveal_strlit("station");
    reveal_strlit("apikey");
    reveal_strlit("date");
    reveal_strlit("transport_types");
    reveal_strlit("direction");
    reveal_strlit("lang");
    reveal_strlit("format");
    reveal_strlit("system");
    assert("station"@[0] == 's' && "station"@.len() == 7);
    assert("apikey"@[0] == 'a' && "apikey"@.len() == 6);
    assert("date"@[0] == 'd' && "date"@.len() == 4);
    assert("transport_types"@[0] == 't' && "transport_types"@.len() == 15);
    assert("direction"@[0] == 'd' && "direction"@.len() == 9);
    assert("lang"@[0] == 'l' && "lang"@.len() == 4);
    assert("format"@[0] == 'f' && "format"@.len() == 6);
    assert("system"@[0] == 's' && "system"@.len() == 6);
    let p1 = ("station"@, m.station);
    let pk = ("apikey"@, m.api_key);
    let b1 = opt_pair("date"@, m.date);
    let b2 = opt_pair("transport_types"@, match m.transport_types {
        Some(t) => Some(t.wire()),
        None => None,
    });
    let b3 = opt_pair("direction"@, m.direction);
    let b4 = opt_pair("lang"@, match m.lang {
        Some(l) => Some(l.wire()),
        None => None,
    });
    let b5 = opt_pair("format"@, match m.format {
        Some(f) => Some(f.wire()),
        None => None,
    });
    let b6 = opt_pair("system"@, match m.system {
        Some(s) => Some(s.wire()),
        None => None,
    });
    lemma_count_key_one(p1);
    lemma_count_key_one(pk);
    lemma_count_key_opt_all("date"@, m.date);
    lemma_count_key_opt_all("transport_types"@, match m.transport_types {
        Some(t) => Some(t.wire()),
        None => None,
    });
    lemma_count_key_opt_all("direction"@, m.direction);
    lemma_count_key_opt_all("lang"@, match m.lang {
        Some(l) => Some(l.wire()),
        None => None,
    });
    lemma_count_key_opt_all("format"@, match m.format {
        Some(f) => Some(f.wire()),
        None => None,
    });
    lemma_count_key_opt_all("system"@, match m.system {
        Some(s) => Some(s.wire()),
        None => None,
    });
    lemma_count_key_add_all(b1, b2);
    lemma_count_key_add_all(b1 + b2, b3);
    lemma_count_key_add_all(b4, b5);
    lemma_count_key_add_all(b4 + b5, b6);
    lemma_count_key_add_all(schedule_opt_head(m), schedule_opt_tail(m));
    lemma_count_key_add_all(seq![p1], schedule_opt_fragment(m));
    lemma_count_key_add_all(seq![p1] + schedule_opt_fragment(m), seq![pk]);
}

/// Ghost reading of one schedule entry.
pub struct EntryModel {
    pub thread_title: Seq<char>,
    pub departure: Option<Seq<char>>,
    pub arrival: Option<Seq<char>>,
}

/// One entry of a station's schedule.
#[derive(Debug, Clone, PartialEq, Eq)]
pub struct ScheduleEntry {
    pub thread_title: String,
    pub departure: Option<String>,
    pub arrival: Option<String>,
}

impl View for ScheduleEntry {
    type V = EntryModel;

    open spec fn view(&self) -> EntryModel {
        EntryModel {
            thread_title: self.thread_title@,
            departure: match self.departure {
                Some(s) => Some(s@),
                None => None,
            },
            arrival: match self.arrival {
                Some(s) => Some(s@),
                None => None,
            },
        }
    }
}

/// Ghost reading of a decoded schedule response.
pub struct ScheduleResponseModel {
    pub station_code: Seq<char>,
    pub station_title: Seq<char>,
    pub entries: Seq<EntryModel>,
}

/// The decoded body of a successful schedule request.
#[derive(Debug, Clone, PartialEq, Eq)]
pub struct ScheduleResponse {
    pub station_code: String,
    pub station_title: String,
    pub entries: Vec<ScheduleEntry>,
}

impl View for ScheduleResponse {
    type V = ScheduleResponseModel;

    open spec fn view(&self) -> ScheduleResponseModel {
        ScheduleResponseModel {
            station_code: self.station_code@,
            station_title: self.station_title@,
            entries: self.entries@.map_values(|e: ScheduleEntry| e@),
        }
    }
}

/// How one JSON schedule entry decodes: its model when `thread.title`
/// is present as a string, else the path of the offending field.
/// `departure` and `arrival` are genuinely optional.
pub open spec fn spec_entry(j: JsonValue) -> Result<EntryModel, Seq<char>> {
    if field(j, "thread"@) is None {
        Err("schedule.thread"@)
    } else if str_field(field(j, "thread"@)->Some_0, "title"@) is None {
        Err("schedule.thread.title"@)
    } else {
        Ok(EntryModel {
            thread_title: str_field(field(j, "thread"@)->Some_0, "title"@)->Some_0,
            departure: str_field(j, "departure"@),
            arrival: str_field(j, "arrival"@),
        })
    }
}

/// The entry decoder as a value, so every statement about the list
/// decode speaks of one and the same function.
pub open spec fn entry_decoder() -> spec_fn(JsonValue) -> Result<EntryModel, Seq<char>> {
    |j: JsonValue| spec_entry(j)
}

/// How a status/document pair classifies for the schedule endpoint.
pub enum ScheduleOutcome {
    /// Success schema decoded.
    Decoded(ScheduleResponseModel),
    /// The body carried the API's error envelope; its message.
    Api(Seq<char>),
    /// Neither a result nor a recognized error; the offending path.
    Malformed(Seq<char>),
}

/// Classification of a schedule response: the error envelope wins
/// whatever the status; a non-success status without it is malformed; a
/// success status needs `station.code`, `station.title` and the
/// `schedule` entry list.
pub open spec fn spec_decode_schedule(status: int, j: JsonValue) -> ScheduleOutcome {
    match envelope_text(j) {
        Some(t) => ScheduleOutcome::Api(t),
        None => if !is_success(status) {
            ScheduleOutcome::Malformed("error.text"@)
        } else if field(j, "station"@) is None {
            ScheduleOutcome::Malformed("station"@)
        } else if str_field(field(j, "station"@)->Some_0, "code"@) is None {
            ScheduleOutcome::Malformed("station.code"@)
        } else if str_field(field(j, "station"@)->Some_0, "title"@) is None {
            ScheduleOutcome::Malformed("station.title"@)
        } else {
            match arr_field(j, "schedule"@) {
                Some(items) => match decode_list(items, entry_decoder()) {
                    Ok(es) => ScheduleOutcome::Decoded(ScheduleResponseModel {
                        station_code: str_field(field(j, "station"@)->Some_0, "code"@)->Some_0,
                        station_title: str_field(field(j, "station"@)->Some_0, "title"@)->Some_0,
                        entries: es,
                    }),
                    Err(e) => ScheduleOutcome::Malformed(e),
                },
                None => ScheduleOutcome::Malformed("schedule"@),
            }
        },
    }
}

/// Decode one schedule entry object.
fn decode_entry(j: &JsonValue) -> (r: Result<ScheduleEntry, String>)
    ensures
        match r {
            Ok(e) => spec_entry(*j) == Ok::<EntryModel, Seq<char>>(e@),
            Err(e) => spec_entry(*j) == Err::<EntryModel, Seq<char>>(e@),
        },
{
    let thread = match j.get("thread") {
        Some(t) => t,
        None => { return Err("schedule.thread".to_owned()) },
    };
    let thread_title = match thread.get_str("title") {
        Some(s) => s.clone(),
        None => { return Err("schedule.thread.title".to_owned()) },
    };
    let departure = match j.get_str("departure") {
        Some(s) => Some(s.clone()),
        None => None,
    };
    let arrival = match j.get_str("arrival") {
        Some(s) => Some(s.clone()),
        None => None,
    };
    Ok(ScheduleEntry { thread_title, departure, arrival })
}

/// Decode a schedule response from its status and parsed body.
pub fn decode_schedule(status: u16, j: &JsonValue) -> (r: Result<ScheduleResponse, YaRaspError>)
    ensures
        match spec_decode_schedule(status as int, *j) {
            ScheduleOutcome::Decoded(m) => r matches Ok(resp) && resp@ == m,
            ScheduleOutcome::Api(t) => r matches Err(YaRaspError::ApiError { status: st, message })
                && st == status && message@ == t,
            ScheduleOutcome::Malformed(d) => r matches Err(YaRaspError::DecodeError(e)) && e@ == d,
        },
{
    if let Some(message) = envelope(j) {
        return Err(YaRaspError::ApiError { status, message });
    }
    if !(200 <= status && status < 300) {
        return Err(YaRaspError::DecodeError("error.text".to_owned()));
    }
    let station = match j.get("station") {
        Some(s) => s,
        None => { return Err(YaRaspError::DecodeError("station".to_owned())) },
    };
    let station_code = match station.get_str("code") {
        Some(s) => s.clone(),
        None => { return Err(YaRaspError::DecodeError("station.code".to_owned())) },
    };
    let station_title = match station.get_str("title") {
        Some(s) => s.clone(),
        None => { return Err(YaRaspError::DecodeError("station.title".to_owned())) },
    };
    let items = match j.get_arr("schedule") {
        Some(a) => a,
        None => { return Err(YaRaspError::DecodeError("schedule".to_owned())) },
    };
    let mut entries: Vec<ScheduleEntry> = Vec::new();
    let mut i: usize = 0;
    while i < items.len()
        invariant
            i <= items@.len(),
            entries@.len() == i,
            envelope_text(*j) is None,
            is_success(status as int),
            field(*j, "station"@) is Some,
            str_field(field(*j, "station"@)->Some_0, "code"@) == Some(station_code@),
            str_field(field(*j, "station"@)->Some_0, "title"@) == Some(station_title@),
            arr_field(*j, "schedule"@) == Some(items@),
            forall|k: int| 0 <= k < i ==> #[trigger] entry_decoder()(items@[k])
                == Ok::<EntryModel, Seq<char>>(entries@[k]@),
        decreases items@.len() - i,
    {
        match decode_entry(&items[i]) {
            Ok(e) => {
                entries.push(e);
            },
            Err(e) => {
                proof {
                    assert(entry_decoder()(items@[i as int]) == spec_entry(items@[i as int]));
                    lemma_decode_list_first_err(items@, entry_decoder(), i as int);
                }
                return Err(YaRaspError::DecodeError(e));
            },
        }
        i = i + 1;
    }
    proof {
        let ms = entries@.map_values(|e: ScheduleEntry| e@);
        assert forall|k: int| 0 <= k < items@.len() implies #[trigger] entry_decoder()(items@[k])
            == Ok::<EntryModel, Seq<char>>(ms[k]) by {
            assert(ms[k] == entries@[k]@);
        }
        lemma_decode_list_pointwise(items@, entry_decoder(), ms);
    }
    Ok(ScheduleResponse { station_code, station_title, entries })
}

/// Decode a schedule response from its status and raw body text.
pub fn decode_schedule_body(status: u16, body: &str) -> (r: Result<ScheduleResponse, YaRaspError>)
    ensures
        match json_of(body@) {
            None => r matches Err(YaRaspError::DecodeError(e)) && e@ == "invalid json"@,
            Some(j) => match spec_decode_schedule(status as int, j) {
                ScheduleOutcome::Decoded(m) => r matches Ok(resp) && resp@ == m,
                ScheduleOutcome::Api(t) => r matches Err(YaRaspError::ApiError {
                    status: st,
                    message,
                }) && st == status && message@ == t,
                ScheduleOutcome::Malformed(d) => r matches Err(YaRaspError::DecodeError(e))
                    && e@ == d,
            },
        },
{
    match parse_json(body) {
        Some(j) => decode_schedule(status, &j),
        None => Err(YaRaspError::DecodeError("invalid json".to_owned())),
    }
}

/// The error envelope wins whatever the status, and a non-success
/// status without a recognized envelope never yields a result.
pub proof fn lemma_schedule_error_envelope(status: int, j: JsonValue)
    ensures
        envelope_text(j) matches Some(t) ==> spec_decode_schedule(status, j)
            == ScheduleOutcome::Api(t),
        envelope_text(j) is None && !is_success(status) ==> spec_decode_schedule(status, j) matches
            ScheduleOutcome::Malformed(_),
{
}

/// A decoded schedule is complete: it came from a success status
/// without an envelope, carries the station's own code and title, and
/// accounts for every listed entry, each well-formed.
pub proof fn lemma_schedule_complete(status: int, j: JsonValue)
    requires
        spec_decode_schedule(status, j) is Decoded,
    ensures
        envelope_text(j) is None,
        is_success(status),
        arr_field(j, "schedule"@) is Some,
        spec_decode_schedule(status, j)->Decoded_0.entries.len() == arr_field(
            j,
            "schedule"@,
        )->Some_0.len(),
        forall|k: int| 0 <= k < arr_field(j, "schedule"@)->Some_0.len()
            ==> #[trigger] spec_entry(arr_field(j, "schedule"@)->Some_0[k]) == Ok::<
            EntryModel,
            Seq<char>,
        >(spec_decode_schedule(status, j)->Decoded_0.entries[k]),
{
    let items = arr_field(j, "schedule"@)->Some_0;
    let ms = spec_decode_schedule(status, j)->Decoded_0.entries;
    lemma_decode_list_complete(items, entry_decoder(), ms);
    assert forall|k: int| 0 <= k < items.len() implies #[trigger] spec_entry(items[k]) == Ok::<
        EntryModel,
        Seq<char>,
    >(ms[k]) by {
        assert(entry_decoder()(items[k]) == Ok::<EntryModel, Seq<char>>(ms[k]));
    }
}

/// A malformed entry anywhere in the schedule list fails the whole
/// decode: the result is never partially populated.
pub proof fn lemma_schedule_malformed(status: int, j: JsonValue, k: int)
    requires
        is_success(status),
        envelope_text(j) is None,
        field(j, "station"@) is Some,
        str_field(field(j, "station"@)->Some_0, "code"@) is Some,
        str_field(field(j, "station"@)->Some_0, "title"@) is Some,
        arr_field(j, "schedule"@) is Some,
        0 <= k < arr_field(j, "schedule"@)->Some_0.len(),
        spec_entry(arr_field(j, "schedule"@)->Some_0[k]) is Err,
    ensures
        spec_decode_schedule(status, j) matches ScheduleOutcome::Malformed(_),
{
    let items = arr_field(j, "schedule"@)->Some_0;
    assert(entry_decoder()(items[k]) == spec_entry(items[k]));
    lemma_decode_list_err(items, entry_decoder(), k);
}

} // verus!
