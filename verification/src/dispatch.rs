//! The request dispatcher: routing a parsed request to the collaborator that
//! resolves it, and normalizing collaborator results into responses.

use vstd::prelude::*;

use crate::types::Config;
use crate::types::ErrModel;
use crate::types::Request;
use crate::types::RequestError;
use crate::types::Response;

verus! {

/// Which collaborator a request goes to, with the arguments of the call.
#[derive(Debug, Clone, PartialEq, Eq)]
pub enum Route {
    /// Dictionary lookup with the query.
    Dictionary(String),
    /// Air-quality resolution with the command, the location query and the
    /// geocoding credential.
    Air(String, String, String),
    /// How-to lookup with the query.
    HowTo(String),
}

impl Request {
    /// Select the resolver for this request: each intent maps to exactly one
    /// route, queries passed on verbatim, and only the air route carries the
    /// geocoding credential.
    pub fn route(self, config: &Config) -> (r: Route)
        ensures
            match self {
                Request::Dictionary(q) => r == Route::Dictionary(q),
                Request::AirPollution(c, q) => (r matches Route::Air(rc, rq, key) && rc == c
                    && rq == q && key@ == config.daummap_app_key@),
                Request::HowTo(q) => r == Route::HowTo(q),
            },
    {
        match self {
            Request::Dictionary(query) => Route::Dictionary(query),
            Request::AirPollution(command, query) => Route::Air(
                command,
                query,
                config.daummap_app_key.clone(),
            ),
            Request::HowTo(query) => Route::HowTo(query),
        }
    }
}

/// A dictionary result becomes a dictionary response unchanged.
pub fn dictionary_response<D, P, H>(result: D) -> (r: Response<D, P, H>)
    ensures
        r == Response::<D, P, H>::Dictionary(result),
{
    Response::Dictionary(result)
}

/// A how-to answer becomes a how-to response; an absent answer is converted
/// to `HowtoNotFound` carrying the query.
pub fn howto_response<D, P, H>(answer: Option<H>, query: &str) -> (r: Result<
    Response<D, P, H>,
    RequestError,
>)
    ensures
        match answer {
            Some(a) => r == Ok::<Response<D, P, H>, RequestError>(
                Response::<D, P, H>::HowTo(a),
            ),
            None => (r matches Err(e) && e@ == ErrModel::HowtoNotFound(query@)),
        },
{
    match answer {
        Some(a) => Ok(Response::HowTo(a)),
        None => Err(RequestError::HowtoNotFound(query.to_owned())),
    }
}

} // verus!
