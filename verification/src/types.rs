//! The router's data model: configuration, typed requests and responses, the
//! closed error taxonomy, and the shapes of the geocoding and air-quality
//! records that the resolution pipeline reads.

use vstd::prelude::*;

verus! {

/// Configuration handed in by the caller: the geocoding service credential.
#[derive(Debug, Clone)]
pub struct Config {
    pub daummap_app_key: String,
}

/// A chat command, classified into one of three intents.
#[derive(Debug, Clone, PartialEq, Eq)]
pub enum Request {
    Dictionary(String),
    AirPollution(String, String),
    HowTo(String),
}

/// The mathematical model of a parsed command: each part as a character
/// sequence. `Unrecognized` stands for a line that matches no pattern.
pub ghost enum ReqModel {
    Dictionary(Seq<char>),
    AirPollution(Seq<char>, Seq<char>),
    HowTo(Seq<char>),
    Unrecognized(Seq<char>),
}

impl View for Request {
    type V = ReqModel;

    open spec fn view(&self) -> ReqModel {
        match self {
            Request::Dictionary(q) => ReqModel::Dictionary(q@),
            Request::AirPollution(c, q) => ReqModel::AirPollution(c@, q@),
            Request::HowTo(q) => ReqModel::HowTo(q@),
        }
    }
}

/// The closed error taxonomy; each variant carries the offending input.
#[derive(Debug, Clone, PartialEq, Eq)]
pub enum RequestError {
    CannotParseRequest(String),
    AddressNotFound(String),
    InvalidAirkoreaCommand(String),
    HowtoNotFound(String),
}

/// The mathematical model of a `RequestError`.
pub ghost enum ErrModel {
    CannotParseRequest(Seq<char>),
    AddressNotFound(Seq<char>),
    InvalidAirkoreaCommand(Seq<char>),
    HowtoNotFound(Seq<char>),
}

impl View for RequestError {
    type V = ErrModel;

    open spec fn view(&self) -> ErrModel {
        match self {
            RequestError::CannotParseRequest(s) => ErrModel::CannotParseRequest(s@),
            RequestError::AddressNotFound(s) => ErrModel::AddressNotFound(s@),
            RequestError::InvalidAirkoreaCommand(s) => ErrModel::InvalidAirkoreaCommand(s@),
            RequestError::HowtoNotFound(s) => ErrModel::HowtoNotFound(s@),
        }
    }
}

/// Either one of the router's own errors, or an error of a collaborating
/// service passed through unchanged.
#[derive(Debug, Clone, PartialEq, Eq)]
pub enum ResolveError<E> {
    Request(RequestError),
    Upstream(E),
}

/// A named pollutant reading at a monitoring station. Only the name drives
/// the router's filtering; the reading itself is carried through untouched.
#[derive(Debug, Clone, PartialEq, Eq)]
pub struct Pollutant<P> {
    pub name: String,
    pub reading: P,
}

/// An air-quality monitoring station's status: its address and its current
/// pollutant readings.
#[derive(Debug, Clone, PartialEq, Eq)]
pub struct AirStatus<P> {
    pub station_address: String,
    pub pollutants: Vec<Pollutant<P>>,
}

/// The land-lot sub-record of an address candidate; either coordinate
/// component may be missing.
#[derive(Debug, Clone, PartialEq, Eq)]
pub struct LandLot<C> {
    pub longitude: Option<C>,
    pub latitude: Option<C>,
}

/// An address candidate returned by address geocoding.
#[derive(Debug, Clone, PartialEq, Eq)]
pub struct Address<C> {
    pub land_lot: Option<LandLot<C>>,
}

/// A place candidate returned by keyword geocoding.
#[derive(Debug, Clone, PartialEq, Eq)]
pub struct Place<C> {
    pub longitude: Option<C>,
    pub latitude: Option<C>,
}

/// A resolved reply, one variant per request intent. The dictionary and
/// how-to payloads are opaque to the router; the air-pollution payload is a
/// station status.
#[derive(Debug, Clone, PartialEq, Eq)]
pub enum Response<D, P, H> {
    Dictionary(D),
    AirPollution(AirStatus<P>),
    HowTo(H),
}

} // verus!
