//! Typed client for a transit-schedule web API: station-to-station
//! search, per-station schedule, and station-list lookup.
//!
//! The crate verifies the request-construction and response-decoding
//! pipeline: fluent builders accumulate optional query parameters and
//! serialize them to a query-pair list, and a decoder classifies a raw
//! status/body pair into a typed result, an API-reported error, or a
//! decode failure.  Issuing the single HTTP GET is left to the caller,
//! who takes a builder's endpoint path, query pairs and transport
//! handle, performs the call, and hands status and body back to the
//! decoder.

pub mod enums;
pub mod errors;
pub mod handle_response;
pub mod json;
pub mod query;
pub mod schedule;
pub mod search;
pub mod stations_list;
pub mod transport;

use vstd::prelude::*;

use crate::schedule::ScheduleRequestBuilder;
use crate::schedule::schedule_initial;
use crate::search::SearchRequestBuilder;
use crate::search::search_initial;
use crate::stations_list::StationsListRequestBuilder;
use crate::stations_list::stations_list_initial;

verus! {

/// A handle on the remote API: the caller's key plus a shared transport
/// handle.  Immutable after construction and cheaply duplicable; its
/// ghost reading is the key it will attach to every request.
#[derive(Clone)]
pub struct YaRaspClient {
    api_key: String,
    reqwest_client: reqwest::Client,
}

impl View for YaRaspClient {
    type V = Seq<char>;

    closed spec fn view(&self) -> Seq<char> {
        self.api_key@
    }
}

impl YaRaspClient {
    /// Build a client around an API key, with a fresh transport handle.
    pub fn new(api_key: &str) -> (c: YaRaspClient)
        ensures
            c@ == api_key@,
    {
        YaRaspClient {
            api_key: api_key.to_owned(),
            reqwest_client: crate::transport::transport_new(),
        }
    }

    /// A copy carrying the same key and sharing the transport.
    pub(crate) fn duplicate(&self) -> (c: YaRaspClient)
        ensures
            c@ == self@,
    {
        YaRaspClient {
            api_key: self.api_key.clone(),
            reqwest_client: self.reqwest_client.clone(),
        }
    }

    /// The key as a query-parameter value.
    pub(crate) fn key_string(&self) -> (s: String)
        ensures
            s@ == self@,
    {
        self.api_key.clone()
    }

    /// Borrow the transport handle, for the caller that issues the GET.
    pub fn transport(&self) -> &reqwest::Client {
        &self.reqwest_client
    }

    /// Start a station-to-station search between two station codes.
    pub fn search(&self, from: &str, to: &str) -> (b: SearchRequestBuilder)
        ensures
            b@ == search_initial(self@, from@, to@),
    {
        SearchRequestBuilder::new(self.duplicate(), from.to_owned(), to.to_owned())
    }

    /// Start a per-station schedule request for a station code.
    pub fn schedule(&self, station: &str) -> (b: ScheduleRequestBuilder)
        ensures
            b@ == schedule_initial(self@, station@),
    {
        ScheduleRequestBuilder::new(self.duplicate(), station.to_owned())
    }

    /// Start a request for the full station list; useful for finding a
    /// station's code by its title.
    pub fn stations_list(&self) -> (b: StationsListRequestBuilder)
        ensures
            b@ == stations_list_initial(self@),
    {
        StationsListRequestBuilder::new(self.duplicate())
    }
}

} // verus!
