//! Station-to-station search: the request builder and the decoder for
//! its response, a list of scheduled segments.

use vstd::prelude::*;

use crate::YaRaspClient;
use crate::enums::Format;
use crate::enums::Lang;
use crate::enums::ShowSystems;
use crate::enums::System;
use crate::enums::TransportType;
use crate::errors::YaRaspError;
use crate::handle_response::decode_list;
use crate::handle_response::envelope;
use crate::handle_response::envelope_text;
use crate::handle_response::is_success;
use crate::handle_response::lemma_decode_list_first_err;
use crate::handle_response::lemma_decode_list_pointwise;
use crate::json::JsonValue;
use crate::json::arr_field;
use crate::json::field;
use crate::json::int_field;
use crate::json::json_of;
use crate::json::parse_json;
use crate::json::str_field;
use crate::query::bool_str;
use crate::query::bool_wire;
use crate::query::count_key;
use crate::query::lemma_count_key_add_all;
use crate::query::lemma_count_key_one;
use crate::query::lemma_count_key_opt_all;
use crate::query::dec_of;
use crate::query::opt_pair;
use crate::query::pairs_view;
use crate::query::push_pair;
use crate::query::u32_wire;

verus! {

/// Ghost state of a search builder: the key, the required station
/// codes, and each optional field.
pub struct SearchModel {
    pub api_key: Seq<char>,
    pub from: Seq<char>,
    pub to: Seq<char>,
    pub date: Option<Seq<char>>,
    pub transport_types: Option<TransportType>,
    pub system: Option<System>,
    pub show_systems: Option<ShowSystems>,
    pub lang: Option<Lang>,
    pub format: Option<Format>,
    pub limit: Option<u32>,
    pub add_days_mask: Option<bool>,
    pub transfers: Option<bool>,
}

/// The builder state right after construction: required fields set,
/// every optional field unset.
pub open spec fn search_initial(api_key: Seq<char>, from: Seq<char>, to: Seq<char>) -> SearchModel {
    SearchModel {
        api_key,
        from,
        to,
        date: None,
        transport_types: None,
        system: None,
        show_systems: None,
        lang: None,
        format: None,
        limit: None,
        add_days_mask: None,
        transfers: None,
    }
}

/// The serialized query of a builder state: the required pairs first,
/// then each set optional field once under its documented wire name in
/// a fixed order, then the API key.  Unset fields leave no trace.
pub open spec fn spec_query(m: SearchModel) -> Seq<(Seq<char>, Seq<char>)> {
    seq![("from"@, m.from), ("to"@, m.to)] + opt_fragment(m) + seq![("apikey"@, m.api_key)]
}

/// The optional part of the query: each set field once, in fixed order.
pub open spec fn opt_fragment(m: SearchModel) -> Seq<(Seq<char>, Seq<char>)> {
    opt_fragment_head(m) + opt_fragment_tail(m)
}

/// The first half of the optional fields, in order.
pub open spec fn opt_fragment_head(m: SearchModel) -> Seq<(Seq<char>, Seq<char>)> {
    opt_pair("date"@, m.date)
        + opt_pair("transport_types"@, match m.transport_types {
            Some(t) => Some(t.wire()),
            None => None,
        })
        + opt_pair("system"@, match m.system {
            Some(s) => Some(s.wire()),
            None => None,
        })
        + opt_pair("show_systems"@, match m.show_systems {
            Some(s) => Some(s.wire()),
            None => None,
        })
}

/// The second half of the optional fields, in order.
pub open spec fn opt_fragment_tail(m: SearchModel) -> Seq<(Seq<char>, Seq<char>)> {
    opt_pair("lang"@, match m.lang {
            Some(l) => Some(l.wire()),
            None => None,
        })
        + opt_pair("format"@, match m.format {
            Some(f) => Some(f.wire()),
            None => None,
        })
        + opt_pair("limit"@, match m.limit {
            Some(n) => Some(dec_of(n as nat)),
            None => None,
        })
        + opt_pair("add_days_mask"@, match m.add_days_mask {
            Some(b) => Some(bool_wire(b)),
            None => None,
        })
        + opt_pair("transfers"@, match m.transfers {
            Some(b) => Some(bool_wire(b)),
            None => None,
        })
}

/// Builder for the station-to-station search.  Required identifiers are
/// fixed at construction; each optional setter consumes the builder and
/// hands it back with that one field set (setting a field again
/// overwrites it: last write wins).
pub struct SearchRequestBuilder {
    client: YaRaspClient,
    from: String,
    to: String,
    date: Option<String>,
    transport_types: Option<TransportType>,
    system: Option<System>,
    show_systems: Option<ShowSystems>,
    lang: Option<Lang>,
    format: Option<Format>,
    limit: Option<u32>,
    add_days_mask: Option<bool>,
    transfers: Option<bool>,
}

impl View for SearchRequestBuilder {
    type V = SearchModel;

    closed spec fn view(&self) -> SearchModel {
        SearchModel {
            api_key: self.client@,
            from: self.from@,
            to: self.to@,
            date: match self.date {
                Some(s) => Some(s@),
                None => None,
            },
            transport_types: self.transport_types,
            system: self.system,
            show_systems: self.show_systems,
            lang: self.lang,
            format: self.format,
            limit: self.limit,
            add_days_mask: self.add_days_mask,
            transfers: self.transfers,
        }
    }
}

impl SearchRequestBuilder {
    /// A fresh builder; never fails, no optional field set.
    pub fn new(client: YaRaspClient, from: String, to: String) -> (b: SearchRequestBuilder)
        ensures
            b@ == search_initial(client@, from@, to@),
    {
        SearchRequestBuilder {
            client,
            from,
            to,
            date: None,
            transport_types: None,
            system: None,
            show_systems: None,
            lang: None,
            format: None,
            limit: None,
            add_days_mask: None,
            transfers: None,
        }
    }

    /// Restrict the search to one date, `YYYY-MM-DD`.
    pub fn date(self, date: &str) -> (b: Self)
        ensures
            b@ == (SearchModel { date: Some(date@), ..self@ }),
    {
        Self { date: Some(date.to_owned()), ..self }
    }

    /// Restrict the search to one kind of transport.
    pub fn transport_types(self, t: TransportType) -> (b: Self)
        ensures
            b@ == (SearchModel { transport_types: Some(t), ..self@ }),
    {
        Self { transport_types: Some(t), ..self }
    }

    /// Name the code system the station identifiers are written in.
    pub fn system(self, s: System) -> (b: Self)
        ensures
            b@ == (SearchModel { system: Some(s), ..self@ }),
    {
        Self { system: Some(s), ..self }
    }

    /// Ask the response to spell station codes in the given systems.
    pub fn show_systems(self, s: ShowSystems) -> (b: Self)
        ensures
            b@ == (SearchModel { show_systems: Some(s), ..self@ }),
    {
        Self { show_systems: Some(s), ..self }
    }

    /// Language of the response texts.
    pub fn lang(self, l: Lang) -> (b: Self)
        ensures
            b@ == (SearchModel { lang: Some(l), ..self@ }),
    {
        Self { lang: Some(l), ..self }
    }

    /// Body format the API should answer in.
    pub fn format(self, f: Format) -> (b: Self)
        ensures
            b@ == (SearchModel { format: Some(f), ..self@ }),
    {
        Self { format: Some(f), ..self }
    }

    /// Cap the number of returned segments.
    pub fn limit(self, n: u32) -> (b: Self)
        ensures
            b@ == (SearchModel { limit: Some(n), ..self@ }),
    {
        Self { limit: Some(n), ..self }
    }

    /// Also return segments of nearby days, as the API's day mask.
    pub fn add_days_mask(self, b: bool) -> (r: Self)
        ensures
            r@ == (SearchModel { add_days_mask: Some(b), ..self@ }),
    {
        Self { add_days_mask: Some(b), ..self }
    }

    /// Include connections with transfers.
    pub fn transfers(self, b: bool) -> (r: Self)
        ensures
            r@ == (SearchModel { transfers: Some(b), ..self@ }),
    {
        Self { transfers: Some(b), ..self }
    }

    /// The fixed endpoint path of this builder.
    pub fn url(&self) -> (u: String)
        ensures
            u@ == "https://api.rasp.yandex.net/v3.0/search/"@,
    {
        "https://api.rasp.yandex.net/v3.0/search/".to_owned()
    }

    /// Borrow the transport handle, for the caller that issues the GET.
    pub fn transport(&self) -> &reqwest::Client {
        self.client.transport()
    }

    /// Append the first half of the set optional fields.
    #[verifier::rlimit(100)]
    fn push_optionals_head(&self, v: &mut Vec<(String, String)>)
        ensures
            pairs_view(final(v)@) == pairs_view(old(v)@) + opt_fragment_head(self@),
    {
        let ghost q0: Seq<(Seq<char>, Seq<char>)> = pairs_view(v@);
        if let Some(d) = &self.date {
            push_pair(v, "date", d.clone());
        }
        let ghost q1 = q0 + opt_pair("date"@, self@.date);
        proof {
            assert(pairs_view(v@) =~= q1);
        }
        if let Some(t) = &self.transport_types {
            push_pair(v, "transport_types", t.to_string());
        }
        let ghost q2 = q1 + opt_pair("transport_types"@, match self@.transport_types {
            Some(t) => Some(t.wire()),
            None => None,
        });
        proof {
            assert(pairs_view(v@) =~= q2);
        }
        if let Some(s) = &self.system {
            push_pair(v, "system", s.to_string());
        }
        let ghost q3 = q2 + opt_pair("system"@, match self@.system {
            Some(s) => Some(s.wire()),
            None => None,
        });
        proof {
            assert(pairs_view(v@) =~= q3);
        }
        if let Some(s) = &self.show_systems {
            push_pair(v, "show_systems", s.to_string());
        }
        let ghost q4 = q3 + opt_pair("show_systems"@, match self@.show_systems {
            Some(s) => Some(s.wire()),
            None => None,
        });
        proof {
            assert(pairs_view(v@) =~= q4);
            assert(q4 =~= q0 + opt_fragment_head(self@));
        }
    }

    /// Append the second half of the set optional fields.
    #[verifier::rlimit(100)]
    fn push_optionals_tail(&self, v: &mut Vec<(String, String)>)
        ensures
            pairs_view(final(v)@) == pairs_view(old(v)@) + opt_fragment_tail(self@),
    {
        let ghost q0: Seq<(Seq<char>, Seq<char>)> = pairs_view(v@);
        if let Some(l) = &self.lang {
            push_pair(v, "lang", l.to_string());
        }
        let ghost q1 = q0 + opt_pair("lang"@, match self@.lang {
            Some(l) => Some(l.wire()),
            None => None,
        });
        proof {
            assert(pairs_view(v@) =~= q1);
        }
        if let Some(f) = &self.format {
            push_pair(v, "format", f.to_string());
        }
        let ghost q2 = q1 + opt_pair("format"@, match self@.format {
            Some(f) => Some(f.wire()),
            None => None,
        });
        proof {
            assert(pairs_view(v@) =~= q2);
        }
        if let Some(n) = self.limit {
            push_pair(v, "limit", u32_wire(n));
        }
        let ghost q3 = q2 + opt_pair("limit"@, match self@.limit {
            Some(n) => Some(dec_of(n as nat)),
            None => None,
        });
        proof {
            assert(pairs_view(v@) =~= q3);
        }
        if let Some(b) = self.add_days_mask {
            push_pair(v, "add_days_mask", bool_str(b).to_owned());
        }
        let ghost q4 = q3 + opt_pair("add_days_mask"@, match self@.add_days_mask {
            Some(b) => Some(bool_wire(b)),
            None => None,
        });
        proof {
            assert(pairs_view(v@) =~= q4);
        }
        if let Some(b) = self.transfers {
            push_pair(v, "transfers", bool_str(b).to_owned());
        }
        let ghost q5 = q4 + opt_pair("transfers"@, match self@.transfers {
            Some(b) => Some(bool_wire(b)),
            None => None,
        });
        proof {
            assert(pairs_view(v@) =~= q5);
            assert(q5 =~= q0 + opt_fragment_tail(self@));
        }
    }

    /// Serialize the accumulated state into the query-pair list.
    pub fn query_pairs(&self) -> (r: Vec<(String, String)>)
        ensures
            pairs_view(r@) == spec_query(self@),
    {
        let mut v: Vec<(String, String)> = Vec::new();
        proof {
            assert(pairs_view(v@) =~= Seq::<(Seq<char>, Seq<char>)>::empty());
        }
        push_pair(&mut v, "from", self.from.clone());
        push_pair(&mut v, "to", self.to.clone());
        proof {
            assert(pairs_view(v@) =~= seq![("from"@, self@.from), ("to"@, self@.to)]);
        }
        self.push_optionals_head(&mut v);
        self.push_optionals_tail(&mut v);
        push_pair(&mut v, "apikey", self.client.key_string());
        proof {
            assert(pairs_view(v@) =~= seq![("from"@, self@.from), ("to"@, self@.to)]
                + opt_fragment_head(self@) + opt_fragment_tail(self@) + seq![
                ("apikey"@, self@.api_key),
            ]);
            assert(pairs_view(v@) =~= spec_query(self@));
        }
        v
    }
}

/// Ghost reading of one decoded segment.
pub struct SegmentModel {
    pub departure: Seq<char>,
    pub arrival: Seq<char>,
    pub duration: int,
    pub thread_title: Seq<char>,
    pub thread_number: Option<Seq<char>>,
    pub carrier_title: Option<Seq<char>>,
}

/// One scheduled trip leg between the two stations.
#[derive(Debug, Clone, PartialEq, Eq)]
pub struct Segment {
    pub departure: String,
    pub arrival: String,
    pub duration: i64,
    pub thread_title: String,
    pub thread_number: Option<String>,
    pub carrier_title: Option<String>,
}

impl View for Segment {
    type V = SegmentModel;

    open spec fn view(&self) -> SegmentModel {
        SegmentModel {
            departure: self.departure@,
            arrival: self.arrival@,
            duration: self.duration as int,
            thread_title: self.thread_title@,
            thread_number: match self.thread_number {
                Some(s) => Some(s@),
                None => None,
            },
            carrier_title: match self.carrier_title {
                Some(s) => Some(s@),
                None => None,
            },
        }
    }
}

/// The decoded body of a successful search: the segments in the order
/// the API listed them.
#[derive(Debug, Clone, PartialEq, Eq)]
pub struct SearchResponse {
    pub segments: Vec<Segment>,
}

impl View for SearchResponse {
    type V = Seq<SegmentModel>;

    open spec fn view(&self) -> Seq<SegmentModel> {
        self.segments@.map_values(|s: Segment| s@)
    }
}

/// How one JSON segment object decodes: its model when every required
/// field (`departure`, `arrival`, `duration`, `thread.title`) is present
/// with the right type, else the path of the first offending field.
/// `thread.number` and `thread.carrier.title` are genuinely optional.
pub open spec fn spec_segment(j: JsonValue) -> Result<SegmentModel, Seq<char>> {
    if str_field(j, "departure"@) is None {
        Err("segments.departure"@)
    } else if str_field(j, "arrival"@) is None {
        Err("segments.arrival"@)
    } else if int_field(j, "duration"@) is None {
        Err("segments.duration"@)
    } else if field(j, "thread"@) is None {
        Err("segments.thread"@)
    } else if str_field(field(j, "thread"@)->Some_0, "title"@) is None {
        Err("segments.thread.title"@)
    } else {
        let t = field(j, "thread"@)->Some_0;
        Ok(SegmentModel {
            departure: str_field(j, "departure"@)->Some_0,
            arrival: str_field(j, "arrival"@)->Some_0,
            duration: int_field(j, "duration"@)->Some_0,
            thread_title: str_field(t, "title"@)->Some_0,
            thread_number: str_field(t, "number"@),
            carrier_title: match field(t, "carrier"@) {
                Some(c) => str_field(c, "title"@),
                None => None,
            },
        })
    }
}

/// The segment decoder as a value, so every statement about the list
/// decode speaks of one and the same function.
pub open spec fn segment_decoder() -> spec_fn(JsonValue) -> Result<SegmentModel, Seq<char>> {
    |j: JsonValue| spec_segment(j)
}

/// How a status/document pair classifies for the search endpoint.
pub enum SearchOutcome {
    /// Success schema decoded; the segment models in input order.
    Decoded(Seq<SegmentModel>),
    /// The body carried the API's error envelope; its message.
    Api(Seq<char>),
    /// Neither a result nor a recognized error; the offending path.
    Malformed(Seq<char>),
}

/// Classification of a search response: the error envelope wins whatever
/// the status; a non-success status without it is malformed; a success
/// status is decoded against the segment-list schema.
pub open spec fn spec_decode_search(status: int, j: JsonValue) -> SearchOutcome {
    match envelope_text(j) {
        Some(t) => SearchOutcome::Api(t),
        None => if !is_success(status) {
            SearchOutcome::Malformed("error.text"@)
        } else {
            match arr_field(j, "segments"@) {
                Some(items) => match decode_list(items, segment_decoder()) {
                    Ok(ms) => SearchOutcome::Decoded(ms),
                    Err(e) => SearchOutcome::Malformed(e),
                },
                None => SearchOutcome::Malformed("segments"@),
            }
        },
    }
}

/// Decode one segment object.
fn decode_segment(j: &JsonValue) -> (r: Result<Segment, String>)
    ensures
        match r {
            Ok(s) => spec_segment(*j) == Ok::<SegmentModel, Seq<char>>(s@),
            Err(e) => spec_segment(*j) == Err::<SegmentModel, Seq<char>>(e@),
        },
{
    let departure = match j.get_str("departure") {
        Some(s) => s.clone(),
        None => { return Err("segments.departure".to_owned()) },
    };
    let arrival = match j.get_str("arrival") {
        Some(s) => s.clone(),
        None => { return Err("segments.arrival".to_owned()) },
    };
    let duration = match j.get_int("duration") {
        Some(n) => n,
        None => { return Err("segments.duration".to_owned()) },
    };
    let thread = match j.get("thread") {
        Some(t) => t,
        None => { return Err("segments.thread".to_owned()) },
    };
    let thread_title = match thread.get_str("title") {
        Some(s) => s.clone(),
        None => { return Err("segments.thread.title".to_owned()) },
    };
    let thread_number = match thread.get_str("number") {
        Some(s) => Some(s.clone()),
        None => None,
    };
    let carrier_title = match thread.get("carrier") {
        Some(c) => match c.get_str("title") {
            Some(s) => Some(s.clone()),
            None => None,
        },
        None => None,
    };
    Ok(Segment { departure, arrival, duration, thread_title, thread_number, carrier_title })
}

/// Decode a search response from its status and parsed body.
pub fn decode_search(status: u16, j: &JsonValue) -> (r: Result<SearchResponse, YaRaspError>)
    ensures
        match spec_decode_search(status as int, *j) {
            SearchOutcome::Decoded(ms) => r matches Ok(resp) && resp@ == ms,
            SearchOutcome::Api(t) => r matches Err(YaRaspError::ApiError { status: st, message })
                && st == status && message@ == t,
            SearchOutcome::Malformed(d) => r matches Err(YaRaspError::DecodeError(e)) && e@ == d,
        },
{
    if let Some(message) = envelope(j) {
        return Err(YaRaspError::ApiError { status, message });
    }
    if !(200 <= status && status < 300) {
        return Err(YaRaspError::DecodeError("error.text".to_owned()));
    }
    let items = match j.get_arr("segments") {
        Some(a) => a,
        None => { return Err(YaRaspError::DecodeError("segments".to_owned())) },
    };
    let mut segments: Vec<Segment> = Vec::new();
    let mut i: usize = 0;
    while i < items.len()
        invariant
            i <= items@.len(),
            segments@.len() == i,
            envelope_text(*j) is None,
            is_success(status as int),
            arr_field(*j, "segments"@) == Some(items@),
            forall|k: int| 0 <= k < i ==> #[trigger] segment_decoder()(items@[k])
                == Ok::<SegmentModel, Seq<char>>(segments@[k]@),
        decreases items@.len() - i,
    {
        match decode_segment(&items[i]) {
            Ok(s) => {
                segments.push(s);
            },
            Err(e) => {
                proof {
                    assert(segment_decoder()(items@[i as int]) == spec_segment(items@[i as int]));
                    lemma_decode_list_first_err(items@, segment_decoder(), i as int);
                }
                return Err(YaRaspError::DecodeError(e));
            },
        }
        i = i + 1;
    }
    proof {
        let ms = segments@.map_values(|s: Segment| s@);
        assert forall|k: int| 0 <= k < items@.len() implies #[trigger] segment_decoder()(
            items@[k],
        ) == Ok::<SegmentModel, Seq<char>>(ms[k]) by {
            assert(ms[k] == segments@[k]@);
        }
        lemma_decode_list_pointwise(items@, segment_decoder(), ms);
    }
    Ok(SearchResponse { segments })
}

/// Decode a search response from its status and raw body text.  A body
/// that is not JSON is a decode failure; otherwise the parsed document
/// classifies as in [`spec_decode_search`].
pub fn decode_search_body(status: u16, body: &str) -> (r: Result<SearchResponse, YaRaspError>)
    ensures
        match json_of(body@) {
            None => r matches Err(YaRaspError::DecodeError(e)) && e@ == "invalid json"@,
            Some(j) => match spec_decode_search(status as int, j) {
                SearchOutcome::Decoded(ms) => r matches Ok(resp) && resp@ == ms,
                SearchOutcome::Api(t) => r matches Err(YaRaspError::ApiError {
                    status: st,
                    message,
                }) && st == status && message@ == t,
                SearchOutcome::Malformed(d) => r matches Err(YaRaspError::DecodeError(e))
                    && e@ == d,
            },
        },
{
    match parse_json(body) {
        Some(j) => decode_search(status, &j),
        None => Err(YaRaspError::DecodeError("invalid json".to_owned())),
    }
}

/// Whatever combination of fields is set, the serialized query carries
/// the required names and the API key exactly once each, and each
/// optional wire name exactly once when its field is set and never when
/// it is not.
#[verifier::rlimit(100)]
pub proof fn lemma_search_query_key_counts(m: SearchModel)
    ensures
        count_key(spec_query(m), "from"@) == 1,
        count_key(spec_query(m), "to"@) == 1,
        count_key(spec_query(m), "apikey"@) == 1,
        count_key(spec_query(m), "date"@) == (if m.date is Some { 1nat } else { 0nat }),
        count_key(spec_query(m), "transport_types"@) == (if m.transport_types is Some { 1nat } else { 0nat }),
        count_key(spec_query(m), "system"@) == (if m.system is Some { 1nat } else { 0nat }),
        count_key(spec_query(m), "show_systems"@) == (if m.show_systems is Some { 1nat } else { 0nat }),
        count_key(spec_query(m), "lang"@) == (if m.lang is Some { 1nat } else { 0nat }),
        count_key(spec_query(m), "format"@) == (if m.format is Some { 1nat } else { 0nat }),
        count_key(spec_query(m), "limit"@) == (if m.limit is Some { 1nat } else { 0nat }),
        count_key(spec_query(m), "add_days_mask"@) == (if m.add_days_mask is Some { 1nat } else { 0nat }),
        count_key(spec_query(m), "transfers"@) == (if m.transfers is Some { 1nat } else { 0nat }),
{
    reveal_strlit("from");
    reveal_strlit("to");
    reveal_strlit("apikey");
    reveal_strlit("date");
    reveal_strlit("transport_types");
    reveal_strlit("system");
    reveal_strlit("show_systems");
    reveal_strlit("lang");
    reveal_strlit("format");
    reveal_strlit("limit");
    reveal_strlit("add_days_mask");
    reveal_strlit("transfers");
    assert("from"@[0] == 'f' && "from"@.len() == 4);
    assert("to"@[0] == 't' && "to"@.len() == 2);
    assert("apikey"@[0] == 'a' && "apikey"@.len() == 6);
    assert("date"@[0] == 'd' && "date"@.len() == 4);
    assert("transport_types"@[0] == 't' && "transport_types"@.len() == 15);
    assert("system"@[0] == 's' && "system"@.len() == 6);
    assert("show_systems"@[0] == 's' && "show_systems"@.len() == 12);
    assert("lang"@[0] == 'l' && "lang"@.len() == 4);
    assert("format"@[0] == 'f' && "format"@.len() == 6);
    assert("limit"@[0] == 'l' && "limit"@.len() == 5);
    assert("add_days_mask"@[0] == 'a' && "add_days_mask"@.len() == 13);
    assert("transfers"@[0] == 't' && "transfers"@.len() == 9);
    let p1 = ("from"@, m.from);
    let p2 = ("to"@, m.to);
    let pk = ("apikey"@, m.api_key);
    let a = seq![p1, p2];
    let b1 = opt_pair("date"@, m.date);
    let b2 = opt_pair("transport_types"@, match m.transport_types {
        Some(t) => Some(t.wire()),
        None => None,
    });
    let b3 = opt_pair("system"@, match m.system {
        Some(s) => Some(s.wire()),
        None => None,
    });
    let b4 = opt_pair("show_systems"@, match m.show_systems {
        Some(s) => Some(s.wire()),
        None => None,
    });
    let b5 = opt_pair("lang"@, match m.lang {
        Some(l) => Some(l.wire()),
        None => None,
    });
    let b6 = opt_pair("format"@, match m.format {
        Some(f) => Some(f.wire()),
        None => None,
    });
    let b7 = opt_pair("limit"@, match m.limit {
        Some(n) => Some(dec_of(n as nat)),
        None => None,
    });
    let b8 = opt_pair("add_days_mask"@, match m.add_days_mask {
        Some(b) => Some(bool_wire(b)),
        None => None,
    });
    let b9 = opt_pair("transfers"@, match m.transfers {
        Some(b) => Some(bool_wire(b)),
        None => None,
    });
    assert(a =~= seq![p1] + seq![p2]);
    lemma_count_key_one(p1);
    lemma_count_key_one(p2);
    lemma_count_key_one(pk);
    lemma_count_key_add_all(seq![p1], seq![p2]);
    lemma_count_key_opt_all("date"@, m.date);
    lemma_count_key_opt_all("transport_types"@, match m.transport_types {
        Some(t) => Some(t.wire()),
        None => None,
    });
    lemma_count_key_opt_all("system"@, match m.system {
        Some(s) => Some(s.wire()),
        None => None,
    });
    lemma_count_key_opt_all("show_systems"@, match m.show_systems {
        Some(s) => Some(s.wire()),
        None => None,
    });
    lemma_count_key_opt_all("lang"@, match m.lang {
        Some(l) => Some(l.wire()),
        None => None,
    });
    lemma_count_key_opt_all("format"@, match m.format {
        Some(f) => Some(f.wire()),
        None => None,
    });
    lemma_count_key_opt_all("limit"@, match m.limit {
        Some(n) => Some(dec_of(n as nat)),
        None => None,
    });
    lemma_count_key_opt_all("add_days_mask"@, match m.add_days_mask {
        Some(b) => Some(bool_wire(b)),
        None => None,
    });
    lemma_count_key_opt_all("transfers"@, match m.transfers {
        Some(b) => Some(bool_wire(b)),
        None => None,
    });
    lemma_count_key_add_all(b1, b2);
    lemma_count_key_add_all(b1 + b2, b3);
    lemma_count_key_add_all(b1 + b2 + b3, b4);
    lemma_count_key_add_all(b5, b6);
    lemma_count_key_add_all(b5 + b6, b7);
    lemma_count_key_add_all(b5 + b6 + b7, b8);
    lemma_count_key_add_all(b5 + b6 + b7 + b8, b9);
    lemma_count_key_add_all(opt_fragment_head(m), opt_fragment_tail(m));
    lemma_count_key_add_all(a, opt_fragment(m));
    lemma_count_key_add_all(a + opt_fragment(m), seq![pk]);
}

/// The error envelope wins whatever the status: a body carrying
/// `error.text` classifies as the API's own error with that message, and
/// a non-success status without a recognized envelope never yields a
/// result — it is a decode failure.
pub proof fn lemma_search_error_envelope(status: int, j: JsonValue)
    ensures
        envelope_text(j) matches Some(t) ==> spec_decode_search(status, j)
            == SearchOutcome::Api(t),
        envelope_text(j) is None && !is_success(status) ==> spec_decode_search(status, j) matches
            SearchOutcome::Malformed(_),
{
}

/// A success-status body whose every listed segment is well-formed
/// decodes to exactly the models read field-for-field from the JSON, in
/// the order the API listed them.
pub proof fn lemma_search_success(status: int, j: JsonValue)
    requires
        is_success(status),
        envelope_text(j) is None,
        arr_field(j, "segments"@) is Some,
        forall|k: int| 0 <= k < arr_field(j, "segments"@)->Some_0.len()
            ==> #[trigger] spec_segment(arr_field(j, "segments"@)->Some_0[k]) is Ok,
    ensures
        spec_decode_search(status, j) matches SearchOutcome::Decoded(ms) && ms.len() == arr_field(
            j,
            "segments"@,
        )->Some_0.len() && forall|k: int| 0 <= k < ms.len() ==> ms[k] == #[trigger] spec_segment(
            arr_field(j, "segments"@)->Some_0[k],
        )->Ok_0,
{
    let items = arr_field(j, "segments"@)->Some_0;
    let ms = items.map_values(|x: JsonValue| spec_segment(x)->Ok_0);
    assert forall|k: int| 0 <= k < items.len() implies #[trigger] segment_decoder()(items[k])
        == Ok::<SegmentModel, Seq<char>>(ms[k]) by {
        assert(spec_segment(items[k]) is Ok);
        assert(ms[k] == spec_segment(items[k])->Ok_0);
    }
    lemma_decode_list_pointwise(items, segment_decoder(), ms);
}

/// A malformed element anywhere in the segment list fails the whole
/// decode: a missing required field never yields a shortened result.
pub proof fn lemma_search_malformed(status: int, j: JsonValue, k: int)
    requires
        is_success(status),
        envelope_text(j) is None,
        arr_field(j, "segments"@) is Some,
        0 <= k < arr_field(j, "segments"@)->Some_0.len(),
        spec_segment(arr_field(j, "segments"@)->Some_0[k]) is Err,
    ensures
        spec_decode_search(status, j) matches SearchOutcome::Malformed(_),
{
    let items = arr_field(j, "segments"@)->Some_0;
    assert(segment_decoder()(items[k]) == spec_segment(items[k]));
    crate::handle_response::lemma_decode_list_err(items, segment_decoder(), k);
}

/// A decoded result is complete: it came from a success status without
/// an envelope, and accounts for every listed segment, each well-formed.
pub proof fn lemma_search_complete(status: int, j: JsonValue)
    requires
        spec_decode_search(status, j) is Decoded,
    ensures
        envelope_text(j) is None,
        is_success(status),
        arr_field(j, "segments"@) is Some,
        spec_decode_search(status, j)->Decoded_0.len() == arr_field(j, "segments"@)->Some_0.len(),
        forall|k: int| 0 <= k < arr_field(j, "segments"@)->Some_0.len()
            ==> #[trigger] spec_segment(arr_field(j, "segments"@)->Some_0[k]) == Ok::<
            SegmentModel,
            Seq<char>,
        >(spec_decode_search(status, j)->Decoded_0[k]),
{
    let items = arr_field(j, "segments"@)->Some_0;
    let ms = spec_decode_search(status, j)->Decoded_0;
    crate::handle_response::lemma_decode_list_complete(items, segment_decoder(), ms);
    assert forall|k: int| 0 <= k < items.len() implies #[trigger] spec_segment(items[k]) == Ok::<
        SegmentModel,
        Seq<char>,
    >(ms[k]) by {
        assert(segment_decoder()(items[k]) == Ok::<SegmentModel, Seq<char>>(ms[k]));
    }
}

/// With no optional field set, the query is exactly the two required
/// pairs plus the API key: no optional wire name occurs at all.
pub proof fn lemma_search_query_minimal(m: SearchModel)
    requires
        m.date is None,
        m.transport_types is None,
        m.system is None,
        m.show_systems is None,
        m.lang is None,
        m.format is None,
        m.limit is None,
        m.add_days_mask is None,
        m.transfers is None,
    ensures
        spec_query(m) == seq![("from"@, m.from), ("to"@, m.to), ("apikey"@, m.api_key)],
{
    assert(spec_query(m) =~= seq![("from"@, m.from), ("to"@, m.to), ("apikey"@, m.api_key)]);
}

/// With every optional field set, the query carries each field exactly
/// once, under its documented wire name, in the builder's fixed order.
pub proof fn lemma_search_query_full(m: SearchModel)
    requires
        m.date is Some,
        m.transport_types is Some,
        m.system is Some,
        m.show_systems is Some,
        m.lang is Some,
        m.format is Some,
        m.limit is Some,
        m.add_days_mask is Some,
        m.transfers is Some,
    ensures
        spec_query(m) == seq![
            ("from"@, m.from),
            ("to"@, m.to),
            ("date"@, m.date->Some_0),
            ("transport_types"@, m.transport_types->Some_0.wire()),
            ("system"@, m.system->Some_0.wire()),
            ("show_systems"@, m.show_systems->Some_0.wire()),
            ("lang"@, m.lang->Some_0.wire()),
            ("format"@, m.format->Some_0.wire()),
            ("limit"@, dec_of(m.limit->Some_0 as nat)),
            ("add_days_mask"@, bool_wire(m.add_days_mask->Some_0)),
            ("transfers"@, bool_wire(m.transfers->Some_0)),
            ("apikey"@, m.api_key),
        ],
{
    assert(spec_query(m) =~= seq![
        ("from"@, m.from),
        ("to"@, m.to),
        ("date"@, m.date->Some_0),
        ("transport_types"@, m.transport_types->Some_0.wire()),
        ("system"@, m.system->Some_0.wire()),
        ("show_systems"@, m.show_systems->Some_0.wire()),
        ("lang"@, m.lang->Some_0.wire()),
        ("format"@, m.format->Some_0.wire()),
        ("limit"@, dec_of(m.limit->Some_0 as nat)),
        ("add_days_mask"@, bool_wire(m.add_days_mask->Some_0)),
        ("transfers"@, bool_wire(m.transfers->Some_0)),
        ("apikey"@, m.api_key),
    ]);
}

} // verus!
