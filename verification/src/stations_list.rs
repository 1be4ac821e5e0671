//! Station-list lookup: the request builder and the decoder for its
//! response, the country / region / settlement / station hierarchy.

use vstd::prelude::*;

use crate::YaRaspClient;
use crate::enums::Format;
use crate::enums::Lang;
use crate::errors::YaRaspError;
use crate::handle_response::decode_list;
use crate::handle_response::envelope;
use crate::handle_response::envelope_text;
use crate::handle_response::is_success;
use crate::handle_response::lemma_decode_list_complete;
use crate::handle_response::lemma_decode_list_err;
use crate::handle_response::lemma_decode_list_first_err;
use crate::handle_response::lemma_decode_list_pointwise;
use crate::json::JsonValue;
use crate::json::arr_field;
use crate::json::field;
use crate::json::json_of;
use crate::json::parse_json;
use crate::json::str_field;
use crate::query::bool_str;
use crate::query::bool_wire;
use crate::query::count_key;
use crate::query::lemma_count_key_add_all;
use crate::query::lemma_count_key_one;
use crate::query::lemma_count_key_opt_all;
use crate::query::opt_pair;
use crate::query::pairs_view;
use crate::query::push_pair;

verus! {

/// Ghost state of a station-list builder: the key and each optional
/// field; the endpoint has no required parameter.
pub struct StationsListModel {
    pub api_key: Seq<char>,
    pub lang: Option<Lang>,
    pub format: Option<Format>,
    pub force_download: Option<bool>,
}

/// The builder state right after construction: every optional field
/// unset.
pub open spec fn stations_list_initial(api_key: Seq<char>) -> StationsListModel {
    StationsListModel { api_key, lang: None, format: None, force_download: None }
}

/// The serialized query of a builder state: each set optional field
/// once under its documented wire name in a fixed order, then the API
/// key.  Unset fields leave no trace.
pub open spec fn spec_stations_list_query(m: StationsListModel) -> Seq<(Seq<char>, Seq<char>)> {
    opt_pair("lang"@, match m.lang {
        Some(l) => Some(l.wire()),
        None => None,
    })
        + opt_pair("format"@, match m.format {
            Some(f) => Some(f.wire()),
            None => None,
        })
        + opt_pair("force_download"@, match m.force_download {
            Some(b) => Some(bool_wire(b)),
            None => None,
        })
        + seq![("apikey"@, m.api_key)]
}

/// Builder for the full station list.  Each optional setter consumes
/// the builder and hands it back with that one field set (setting a
/// field again overwrites it: last write wins).
pub struct StationsListRequestBuilder {
    client: YaRaspClient,
    lang: Option<Lang>,
    format: Option<Format>,
    force_download: Option<bool>,
}

impl View for StationsListRequestBuilder {
    type V = StationsListModel;

    closed spec fn view(&self) -> StationsListModel {
        StationsListModel {
            api_key: self.client@,
            lang: self.lang,
            format: self.format,
            force_download: self.force_download,
        }
    }
}

impl StationsListRequestBuilder {
    /// A fresh builder; never fails, no optional field set.
    pub fn new(client: YaRaspClient) -> (b: StationsListRequestBuilder)
        ensures
            b@ == stations_list_initial(client@),
    {
        StationsListRequestBuilder { client, lang: None, format: None, force_download: None }
    }

    /// Language of the response texts.
    pub fn lang(self, l: Lang) -> (b: Self)
        ensures
            b@ == (StationsListModel { lang: Some(l), ..self@ }),
    {
        Self { lang: Some(l), ..self }
    }

    /// Body format the API should answer in.
    pub fn format(self, f: Format) -> (b: Self)
        ensures
            b@ == (StationsListModel { format: Some(f), ..self@ }),
    {
        Self { format: Some(f), ..self }
    }

    /// Ask for a fresh copy instead of a cached one.
    pub fn force_download(self, b: bool) -> (r: Self)
        ensures
            r@ == (StationsListModel { force_download: Some(b), ..self@ }),
    {
        Self { force_download: Some(b), ..self }
    }

    /// The fixed endpoint path of this builder.
    pub fn url(&self) -> (u: String)
        ensures
            u@ == "https://api.rasp.yandex.net/v3.0/stations_list/"@,
    {
        "https://api.rasp.yandex.net/v3.0/stations_list/".to_owned()
    }

    /// Borrow the transport handle, for the caller that issues the GET.
    pub fn transport(&self) -> &reqwest::Client {
        self.client.transport()
    }

    /// Serialize the accumulated state into the query-pair list.
    #[verifier::rlimit(100)]
    pub fn query_pairs(&self) -> (r: Vec<(String, String)>)
        ensures
            pairs_view(r@) == spec_stations_list_query(self@),
    {
        let mut v: Vec<(String, String)> = Vec::new();
        let ghost q0: Seq<(Seq<char>, Seq<char>)> = Seq::empty();
        proof {
            assert(pairs_view(v@) =~= q0);
        }
        if let Some(l) = &self.lang {
            push_pair(&mut v, "lang", l.to_string());
        }
        let ghost q1 = q0 + opt_pair("lang"@, match self@.lang {
            Some(l) => Some(l.wire()),
            None => None,
        });
        proof {
            assert(pairs_view(v@) =~= q1);
        }
        if let Some(f) = &self.format {
            push_pair(&mut v, "format", f.to_string());
        }
        let ghost q2 = q1 + opt_pair("format"@, match self@.format {
            Some(f) => Some(f.wire()),
            None => None,
        });
        proof {
            assert(pairs_view(v@) =~= q2);
        }
        if let Some(b) = self.force_download {
            push_pair(&mut v, "force_download", bool_str(b).to_owned());
        }
        let ghost q3 = q2 + opt_pair("force_download"@, match self@.force_download {
            Some(b) => Some(bool_wire(b)),
            None => None,
        });
        proof {
            assert(pairs_view(v@) =~= q3);
        }
        push_pair(&mut v, "apikey", self.client.key_string());
        proof {
            assert(pairs_view(v@) =~= q3 + seq![("apikey"@, self@.api_key)]);
            assert(pairs_view(v@) =~= spec_stations_list_query(self@));
        }
        v
    }
}

/// With no optional field set, the query is exactly the API key pair.
pub proof fn lemma_stations_list_query_minimal(m: StationsListModel)
    requires
        m.lang is None,
        m.format is None,
        m.force_download is None,
    ensures
        spec_stations_list_query(m) == seq![("apikey"@, m.api_key)],
{
    assert(spec_stations_list_query(m) =~= seq![("apikey"@, m.api_key)]);
}

/// With every optional field set, the query carries each field exactly
/// once, under its documented wire name, in the builder's fixed order.
pub proof fn lemma_stations_list_query_full(m: StationsListModel)
    requires
        m.lang is Some,
        m.format is Some,
        m.force_download is Some,
    ensures
        spec_stations_list_query(m) == seq![
            ("lang"@, m.lang->Some_0.wire()),
            ("format"@, m.format->Some_0.wire()),
            ("force_download"@, bool_wire(m.force_download->Some_0)),
            ("apikey"@, m.api_key),
        ],
{
    assert(spec_stations_list_query(m) =~= seq![
        ("lang"@, m.lang->Some_0.wire()),
        ("format"@, m.format->Some_0.wire()),
        ("force_download"@, bool_wire(m.force_download->Some_0)),
        ("apikey"@, m.api_key),
    ]);
}

/// Whatever combination of fields is set, the serialized query carries
/// the API key exactly once, and each optional wire name exactly once
/// when its field is set and never when it is not.
#[verifier::rlimit(100)]
pub proof fn lemma_stations_list_query_key_counts(m: StationsListModel)
    ensures
        count_key(spec_stations_list_query(m), "apikey"@) == 1,
        count_key(spec_stations_list_query(m), "lang"@) == (if m.lang is Some { 1nat } else { 0nat }),
        count_key(spec_stations_list_query(m), "format"@) == (if m.format is Some { 1nat } else { 0nat }),
        count_key(spec_stations_list_query(m), "force_download"@) == (if m.force_download is Some { 1nat } else { 0nat }),
{
    reveal_strlit("apikey");
    reveal_strlit("lang");
    reveal_strlit("format");
    reveal_strlit("force_download");
    assert("apikey"@[0] == 'a' && "apikey"@.len() == 6);
    assert("lang"@[0] == 'l' && "lang"@.len() == 4);
    assert("format"@[0] == 'f' && "format"@.len() == 6);
    assert("force_download"@[0] == 'f' && "force_download"@.len() == 14);
    let pk = ("apikey"@, m.api_key);
    let b1 = opt_pair("lang"@, match m.lang {
        Some(l) => Some(l.wire()),
        None => None,
    });
    let b2 = opt_pair("format"@, match m.format {
        Some(f) => Some(f.wire()),
        None => None,
    });
    let b3 = opt_pair("force_download"@, match m.force_download {
        Some(b) => Some(bool_wire(b)),
        None => None,
    });
    lemma_count_key_one(pk);
    lemma_count_key_opt_all("lang"@, match m.lang {
        Some(l) => Some(l.wire()),
        None => None,
    });
    lemma_count_key_opt_all("format"@, match m.format {
        Some(f) => Some(f.wire()),
        None => None,
    });
    lemma_count_key_opt_all("force_download"@, match m.force_download {
        Some(b) => Some(bool_wire(b)),
        None => None,
    });
    lemma_count_key_add_all(b1, b2);
    lemma_count_key_add_all(b1 + b2, b3);
    lemma_count_key_add_all(b1 + b2 + b3, seq![pk]);
}

/// Ghost reading of one station leaf.
pub struct StationModel {
    pub title: Seq<char>,
    pub yandex_code: Option<Seq<char>>,
    pub transport_type: Option<Seq<char>>,
}

/// One station leaf of the hierarchy.
#[derive(Debug, Clone, PartialEq, Eq)]
pub struct Station {
    pub title: String,
    pub yandex_code: Option<String>,
    pub transport_type: Option<String>,
}

impl View for Station {
    type V = StationModel;

    open spec fn view(&self) -> StationModel {
        StationModel {
            title: self.title@,
            yandex_code: match self.yandex_code {
                Some(s) => Some(s@),
                None => None,
            },
            transport_type: match self.transport_type {
                Some(s) => Some(s@),
                None => None,
            },
        }
    }
}

/// Ghost reading of one settlement with its stations.
pub struct SettlementModel {
    pub title: Seq<char>,
    pub stations: Seq<StationModel>,
}

/// One settlement with its stations.
#[derive(Debug, Clone, PartialEq, Eq)]
pub struct Settlement {
    pub title: String,
    pub stations: Vec<Station>,
}

impl View for Settlement {
    type V = SettlementModel;

    open spec fn view(&self) -> SettlementModel {
        SettlementModel {
            title: self.title@,
            stations: self.stations@.map_values(|s: Station| s@),
        }
    }
}

/// Ghost reading of one region with its settlements.
pub struct RegionModel {
    pub title: Seq<char>,
    pub settlements: Seq<SettlementModel>,
}

/// One region with its settlements.
#[derive(Debug, Clone, PartialEq, Eq)]
pub struct Region {
    pub title: String,
    pub settlements: Vec<Settlement>,
}

impl View for Region {
    type V = RegionModel;

    open spec fn view(&self) -> RegionModel {
        RegionModel {
            title: self.title@,
            settlements: self.settlements@.map_values(|s: Settlement| s@),
        }
    }
}

/// Ghost reading of one country with its regions.
pub struct CountryModel {
    pub title: Seq<char>,
    pub regions: Seq<RegionModel>,
}

/// One country with its regions.
#[derive(Debug, Clone, PartialEq, Eq)]
pub struct Country {
    pub title: String,
    pub regions: Vec<Region>,
}

impl View for Country {
    type V = CountryModel;

    open spec fn view(&self) -> CountryModel {
        CountryModel { title: self.title@, regions: self.regions@.map_values(|r: Region| r@) }
    }
}

/// The decoded body of a successful station-list request.
#[derive(Debug, Clone, PartialEq, Eq)]
pub struct StationsListResponse {
    pub countries: Vec<Country>,
}

impl View for StationsListResponse {
    type V = Seq<CountryModel>;

    open spec fn view(&self) -> Seq<CountryModel> {
        self.countries@.map_values(|c: Country| c@)
    }
}

/// How one JSON station leaf decodes: `title` is required, the
/// `codes.yandex_code` and `transport_type` fields are optional.
pub open spec fn spec_station(j: JsonValue) -> Result<StationModel, Seq<char>> {
    if str_field(j, "title"@) is None {
        Err("stations.title"@)
    } else {
        Ok(StationModel {
            title: str_field(j, "title"@)->Some_0,
            yandex_code: match field(j, "codes"@) {
                Some(c) => str_field(c, "yandex_code"@),
                None => None,
            },
            transport_type: str_field(j, "transport_type"@),
        })
    }
}

/// The station decoder as a value.
pub open spec fn station_decoder() -> spec_fn(JsonValue) -> Result<StationModel, Seq<char>> {
    |j: JsonValue| spec_station(j)
}

/// How one settlement decodes: its `title` and its `stations` list.
pub open spec fn spec_settlement(j: JsonValue) -> Result<SettlementModel, Seq<char>> {
    if str_field(j, "title"@) is None {
        Err("settlements.title"@)
    } else {
        match arr_field(j, "stations"@) {
            Some(items) => match decode_list(items, station_decoder()) {
                Ok(ss) => Ok(SettlementModel {
                    title: str_field(j, "title"@)->Some_0,
                    stations: ss,
                }),
                Err(e) => Err(e),
            },
            None => Err("settlements.stations"@),
        }
    }
}

/// The settlement decoder as a value.
pub open spec fn settlement_decoder() -> spec_fn(JsonValue) -> Result<SettlementModel, Seq<char>> {
    |j: JsonValue| spec_settlement(j)
}

/// How one region decodes: its `title` and its `settlements` list.
pub open spec fn spec_region(j: JsonValue) -> Result<RegionModel, Seq<char>> {
    if str_field(j, "title"@) is None {
        Err("regions.title"@)
    } else {
        match arr_field(j, "settlements"@) {
            Some(items) => match decode_list(items, settlement_decoder()) {
                Ok(ss) => Ok(RegionModel { title: str_field(j, "title"@)->Some_0, settlements: ss }),
                Err(e) => Err(e),
            },
            None => Err("regions.settlements"@),
        }
    }
}

/// The region decoder as a value.
pub open spec fn region_decoder() -> spec_fn(JsonValue) -> Result<RegionModel, Seq<char>> {
    |j: JsonValue| spec_region(j)
}

/// How one country decodes: its `title` and its `regions` list.
pub open spec fn spec_country(j: JsonValue) -> Result<CountryModel, Seq<char>> {
    if str_field(j, "title"@) is None {
        Err("countries.title"@)
    } else {
        match arr_field(j, "regions"@) {
            Some(items) => match decode_list(items, region_decoder()) {
                Ok(rs) => Ok(CountryModel { title: str_field(j, "title"@)->Some_0, regions: rs }),
                Err(e) => Err(e),
            },
            None => Err("countries.regions"@),
        }
    }
}

/// The country decoder as a value.
pub open spec fn country_decoder() -> spec_fn(JsonValue) -> Result<CountryModel, Seq<char>> {
    |j: JsonValue| spec_country(j)
}

/// How a status/document pair classifies for the station-list endpoint.
pub enum StationsListOutcome {
    /// Success schema decoded; the country models in input order.
    Decoded(Seq<CountryModel>),
    /// The body carried the API's error envelope; its message.
    Api(Seq<char>),
    /// Neither a result nor a recognized error; the offending path.
    Malformed(Seq<char>),
}

/// Classification of a station-list response.
pub open spec fn spec_decode_stations_list(status: int, j: JsonValue) -> StationsListOutcome {
    match envelope_text(j) {
        Some(t) => StationsListOutcome::Api(t),
        None => if !is_success(status) {
            StationsListOutcome::Malformed("error.text"@)
        } else {
            match arr_field(j, "countries"@) {
                Some(items) => match decode_list(items, country_decoder()) {
                    Ok(cs) => StationsListOutcome::Decoded(cs),
                    Err(e) => StationsListOutcome::Malformed(e),
                },
                None => StationsListOutcome::Malformed("countries"@),
            }
        },
    }
}

/// Decode one station leaf.
fn decode_station(j: &JsonValue) -> (r: Result<Station, String>)
    ensures
        match r {
            Ok(s) => spec_station(*j) == Ok::<StationModel, Seq<char>>(s@),
            Err(e) => spec_station(*j) == Err::<StationModel, Seq<char>>(e@),
        },
{
    let title = match j.get_str("title") {
        Some(s) => s.clone(),
        None => { return Err("stations.title".to_owned()) },
    };
    let yandex_code = match j.get("codes") {
        Some(c) => match c.get_str("yandex_code") {
            Some(s) => Some(s.clone()),
            None => None,
        },
        None => None,
    };
    let transport_type = match j.get_str("transport_type") {
        Some(s) => Some(s.clone()),
        None => None,
    };
    Ok(Station { title, yandex_code, transport_type })
}

/// Decode one settlement with its station list.
fn decode_settlement(j: &JsonValue) -> (r: Result<Settlement, String>)
    ensures
        match r {
            Ok(s) => spec_settlement(*j) == Ok::<SettlementModel, Seq<char>>(s@),
            Err(e) => spec_settlement(*j) == Err::<SettlementModel, Seq<char>>(e@),
        },
{
    let title = match j.get_str("title") {
        Some(s) => s.clone(),
        None => { return Err("settlements.title".to_owned()) },
    };
    let items = match j.get_arr("stations") {
        Some(a) => a,
        None => { return Err("settlements.stations".to_owned()) },
    };
    let mut stations: Vec<Station> = Vec::new();
    let mut i: usize = 0;
    while i < items.len()
        invariant
            i <= items@.len(),
            stations@.len() == i,
            str_field(*j, "title"@) == Some(title@),
            arr_field(*j, "stations"@) == Some(items@),
            forall|k: int| 0 <= k < i ==> #[trigger] station_decoder()(items@[k])
                == Ok::<StationModel, Seq<char>>(stations@[k]@),
        decreases items@.len() - i,
    {
        match decode_station(&items[i]) {
            Ok(s) => {
                stations.push(s);
            },
            Err(e) => {
                proof {
                    assert(station_decoder()(items@[i as int]) == spec_station(items@[i as int]));
                    lemma_decode_list_first_err(items@, station_decoder(), i as int);
                }
                return Err(e);
            },
        }
        i = i + 1;
    }
    proof {
        let ms = stations@.map_values(|s: Station| s@);
        assert forall|k: int| 0 <= k < items@.len() implies #[trigger] station_decoder()(items@[k])
            == Ok::<StationModel, Seq<char>>(ms[k]) by {
            assert(ms[k] == stations@[k]@);
        }
        lemma_decode_list_pointwise(items@, station_decoder(), ms);
    }
    Ok(Settlement { title, stations })
}

/// Decode one region with its settlement list.
fn decode_region(j: &JsonValue) -> (r: Result<Region, String>)
    ensures
        match r {
            Ok(s) => spec_region(*j) == Ok::<RegionModel, Seq<char>>(s@),
            Err(e) => spec_region(*j) == Err::<RegionModel, Seq<char>>(e@),
        },
{
    let title = match j.get_str("title") {
        Some(s) => s.clone(),
        None => { return Err("regions.title".to_owned()) },
    };
    let items = match j.get_arr("settlements") {
        Some(a) => a,
        None => { return Err("regions.settlements".to_owned()) },
    };
    let mut settlements: Vec<Settlement> = Vec::new();
    let mut i: usize = 0;
    while i < items.len()
        invariant
            i <= items@.len(),
            settlements@.len() == i,
            str_field(*j, "title"@) == Some(title@),
            arr_field(*j, "settlements"@) == Some(items@),
            forall|k: int| 0 <= k < i ==> #[trigger] settlement_decoder()(items@[k])
                == Ok::<SettlementModel, Seq<char>>(settlements@[k]@),
        decreases items@.len() - i,
    {
        match decode_settlement(&items[i]) {
            Ok(s) => {
                settlements.push(s);
            },
            Err(e) => {
                proof {
                    assert(settlement_decoder()(items@[i as int]) == spec_settlement(
                        items@[i as int],
                    ));
                    lemma_decode_list_first_err(items@, settlement_decoder(), i as int);
                }
                return Err(e);
            },
        }
        i = i + 1;
    }
    proof {
        let ms = settlements@.map_values(|s: Settlement| s@);
        assert forall|k: int| 0 <= k < items@.len() implies #[trigger] settlement_decoder()(
            items@[k],
        ) == Ok::<SettlementModel, Seq<char>>(ms[k]) by {
            assert(ms[k] == settlements@[k]@);
        }
        lemma_decode_list_pointwise(items@, settlement_decoder(), ms);
    }
    Ok(Region { title, settlements })
}

/// Decode one country with its region list.
fn decode_country(j: &JsonValue) -> (r: Result<Country, String>)
    ensures
        match r {
            Ok(s) => spec_country(*j) == Ok::<CountryModel, Seq<char>>(s@),
            Err(e) => spec_country(*j) == Err::<CountryModel, Seq<char>>(e@),
        },
{
    let title = match j.get_str("title") {
        Some(s) => s.clone(),
        None => { return Err("countries.title".to_owned()) },
    };
    let items = match j.get_arr("regions") {
        Some(a) => a,
        None => { return Err("countries.regions".to_owned()) },
    };
    let mut regions: Vec<Region> = Vec::new();
    let mut i: usize = 0;
    while i < items.len()
        invariant
            i <= items@.len(),
            regions@.len() == i,
            str_field(*j, "title"@) == Some(title@),
            arr_field(*j, "regions"@) == Some(items@),
            forall|k: int| 0 <= k < i ==> #[trigger] region_decoder()(items@[k])
                == Ok::<RegionModel, Seq<char>>(regions@[k]@),
        decreases items@.len() - i,
    {
        match decode_region(&items[i]) {
            Ok(s) => {
                regions.push(s);
            },
            Err(e) => {
                proof {
                    assert(region_decoder()(items@[i as int]) == spec_region(items@[i as int]));
                    lemma_decode_list_first_err(items@, region_decoder(), i as int);
                }
                return Err(e);
            },
        }
        i = i + 1;
    }
    proof {
        let ms = regions@.map_values(|r: Region| r@);
        assert forall|k: int| 0 <= k < items@.len() implies #[trigger] region_decoder()(items@[k])
            == Ok::<RegionModel, Seq<char>>(ms[k]) by {
            assert(ms[k] == regions@[k]@);
        }
        lemma_decode_list_pointwise(items@, region_decoder(), ms);
    }
    Ok(Country { title, regions })
}

/// Decode a station-list response from its status and parsed body.
pub fn decode_stations_list(status: u16, j: &JsonValue) -> (r: Result<
    StationsListResponse,
    YaRaspError,
>)
    ensures
        match spec_decode_stations_list(status as int, *j) {
            StationsListOutcome::Decoded(cs) => r matches Ok(resp) && resp@ == cs,
            StationsListOutcome::Api(t) => r matches Err(YaRaspError::ApiError {
                status: st,
                message,
            }) && st == status && message@ == t,
            StationsListOutcome::Malformed(d) => r matches Err(YaRaspError::DecodeError(e)) && e@
                == d,
        },
{
    if let Some(message) = envelope(j) {
        return Err(YaRaspError::ApiError { status, message });
    }
    if !(200 <= status && status < 300) {
        return Err(YaRaspError::DecodeError("error.text".to_owned()));
    }
    let items = match j.get_arr("countries") {
        Some(a) => a,
        None => { return Err(YaRaspError::DecodeError("countries".to_owned())) },
    };
    let mut countries: Vec<Country> = Vec::new();
    let mut i: usize = 0;
    while i < items.len()
        invariant
            i <= items@.len(),
            countries@.len() == i,
            envelope_text(*j) is None,
            is_success(status as int),
            arr_field(*j, "countries"@) == Some(items@),
            forall|k: int| 0 <= k < i ==> #[trigger] country_decoder()(items@[k])
                == Ok::<CountryModel, Seq<char>>(countries@[k]@),
        decreases items@.len() - i,
    {
        match decode_country(&items[i]) {
            Ok(c) => {
                countries.push(c);
            },
            Err(e) => {
                proof {
                    assert(country_decoder()(items@[i as int]) == spec_country(items@[i as int]));
                    lemma_decode_list_first_err(items@, country_decoder(), i as int);
                }
                return Err(YaRaspError::DecodeError(e));
            },
        }
        i = i + 1;
    }
    proof {
        let ms = countries@.map_values(|c: Country| c@);
        assert forall|k: int| 0 <= k < items@.len() implies #[trigger] country_decoder()(items@[k])
            == Ok::<CountryModel, Seq<char>>(ms[k]) by {
            assert(ms[k] == countries@[k]@);
        }
        lemma_decode_list_pointwise(items@, country_decoder(), ms);
    }
    Ok(StationsListResponse { countries })
}

/// Decode a station-list response from its status and raw body text.
pub fn decode_stations_list_body(status: u16, body: &str) -> (r: Result<
    StationsListResponse,
    YaRaspError,
>)
    ensures
        match json_of(body@) {
            None => r matches Err(YaRaspError::DecodeError(e)) && e@ == "invalid json"@,
            Some(j) => match spec_decode_stations_list(status as int, j) {
                StationsListOutcome::Decoded(cs) => r matches Ok(resp) && resp@ == cs,
                StationsListOutcome::Api(t) => r matches Err(YaRaspError::ApiError {
                    status: st,
                    message,
                }) && st == status && message@ == t,
                StationsListOutcome::Malformed(d) => r matches Err(YaRaspError::DecodeError(e))
                    && e@ == d,
            },
        },
{
    match parse_json(body) {
        Some(j) => decode_stations_list(status, &j),
        None => Err(YaRaspError::DecodeError("invalid json".to_owned())),
    }
}

/// The error envelope wins whatever the status, and a non-success
/// status without a recognized envelope never yields a result.
pub proof fn lemma_stations_list_error_envelope(status: int, j: JsonValue)
    ensures
        envelope_text(j) matches Some(t) ==> spec_decode_stations_list(status, j)
            == StationsListOutcome::Api(t),
        envelope_text(j) is None && !is_success(status) ==> spec_decode_stations_list(status, j)
            matches StationsListOutcome::Malformed(_),
{
}

/// A malformed country anywhere in the list fails the whole decode:
/// the result is never partially populated.
pub proof fn lemma_stations_list_malformed(status: int, j: JsonValue, k: int)
    requires
        is_success(status),
        envelope_text(j) is None,
        arr_field(j, "countries"@) is Some,
        0 <= k < arr_field(j, "countries"@)->Some_0.len(),
        spec_country(arr_field(j, "countries"@)->Some_0[k]) is Err,
    ensures
        spec_decode_stations_list(status, j) matches StationsListOutcome::Malformed(_),
{
    let items = arr_field(j, "countries"@)->Some_0;
    assert(country_decoder()(items[k]) == spec_country(items[k]));
    lemma_decode_list_err(items, country_decoder(), k);
}

/// A decoded station list is complete: it came from a success status
/// without an envelope and accounts for every listed country, each
/// well-formed.
pub proof fn lemma_stations_list_complete(status: int, j: JsonValue)
    requires
        spec_decode_stations_list(status, j) is Decoded,
    ensures
        envelope_text(j) is None,
        is_success(status),
        arr_field(j, "countries"@) is Some,
        spec_decode_stations_list(status, j)->Decoded_0.len() == arr_field(
            j,
            "countries"@,
        )->Some_0.len(),
        forall|k: int| 0 <= k < arr_field(j, "countries"@)->Some_0.len()
            ==> #[trigger] spec_country(arr_field(j, "countries"@)->Some_0[k]) == Ok::<
            CountryModel,
            Seq<char>,
        >(spec_decode_stations_list(status, j)->Decoded_0[k]),
{
    let items = arr_field(j, "countries"@)->Some_0;
    let ms = spec_decode_stations_list(status, j)->Decoded_0;
    lemma_decode_list_complete(items, country_decoder(), ms);
    assert forall|k: int| 0 <= k < items.len() implies #[trigger] spec_country(items[k]) == Ok::<
        CountryModel,
        Seq<char>,
    >(ms[k]) by {
        assert(country_decoder()(items[k]) == Ok::<CountryModel, Seq<char>>(ms[k]));
    }
}

} // verus!
