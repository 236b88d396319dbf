//! Facts, and the steps of answering one request for a fact.

use vstd::prelude::*;

use crate::animal::{Animal, AnimalIndex};
use crate::resource_info::{AnimalResourceInfo, ResourceInfo};
use crate::util::{get_animal_info, get_random_animal_info};

verus! {

/// A fact about an animal, in the shape every provider is read into.
#[derive(Debug)]
pub struct Fact {
    pub animal: Animal,
    pub fact: String,
}

impl Fact {
    pub fn new(animal: Animal, fact: String) -> (r: Self)
        ensures
            r.animal == animal,
            r.fact@ == fact@,
    {
        Self { animal, fact }
    }
}

/// The arguments of a request for a fact: the animal, if one is asked for.
#[derive(Debug)]
pub struct QueryArgs {
    pub animal: Option<Animal>,
}

/// Why a request for a fact failed.
#[derive(Debug)]
pub enum FactError {
    /// The provider could not be reached, or sent no text.
    UpstreamUnavailable,
    /// The provider's payload did not have its shape; the text says how.
    UpstreamPayload(String),
}

/// The status of a successful answer.
pub const STATUS_OK: u16 = 200;

/// The status of an answer whose provider failed, in whichever way.
pub const STATUS_SERVICE_UNAVAILABLE: u16 = 503;

/// Picks the provider to ask: the animal of the request, or one drawn at
/// random where the request names none. The flag tells whether it was drawn.
pub fn resolve_fact_source<'a>(index: &'a AnimalIndex, query: &QueryArgs) -> (r: (
    Animal,
    &'a ResourceInfo,
    bool,
))
    requires
        index.wf(),
    ensures
        *r.1 == index.entry(r.0),
        r.1.animal == r.0,
        r.2 == query.animal is None,
        query.animal matches Some(a) ==> r.0 == a,
{
    match query.animal {
        Some(animal) => (animal, get_animal_info(index, animal), false),
        None => {
            let (animal, info) = get_random_animal_info(index);
            (animal, info, true)
        },
    }
}

/// What `finish_fact` promises of its result `r`, for the source `info` and
/// what the provider sent, `body`.
pub open spec fn finished(info: ResourceInfo, body: Option<String>, r: Result<Fact, FactError>) -> bool {
    match body {
        None => r matches Err(FactError::UpstreamUnavailable),
        Some(text) => {
            &&& r is Ok <==> info.spec_fact(text@) is Some
            &&& r matches Ok(f) ==> info.spec_fact(text@) == Some((f.animal, f.fact@))
            &&& r matches Err(e) ==> e is UpstreamPayload
        },
    }
}

/// Reads the fact out of what the provider sent: `None` where it could not
/// be reached or sent no text.
pub fn finish_fact(info: &ResourceInfo, body: Option<String>) -> (r: Result<Fact, FactError>)
    ensures
        finished(*info, body, r),
{
    match body {
        None => Err(FactError::UpstreamUnavailable),
        Some(text) => info.parse_into_fact(text),
    }
}

/// The status with which a request is answered: success, or one status for
/// every failure.
pub open spec fn status_spec(r: Result<Fact, FactError>) -> u16 {
    match r {
        Ok(_) => STATUS_OK,
        Err(_) => STATUS_SERVICE_UNAVAILABLE,
    }
}

/// The status with which a request is answered.
pub fn status_of(r: &Result<Fact, FactError>) -> (s: u16)
    ensures
        s == status_spec(*r),
{
    match r {
        Ok(_) => STATUS_OK,
        Err(_) => STATUS_SERVICE_UNAVAILABLE,
    }
}

/// A provider that cannot be reached, or whose payload does not have its
/// shape, gets the request answered as unavailable; a payload of the right
/// shape gets it answered with success and the fact read from it.
pub proof fn lemma_upstream_failure_is_unavailable(
    info: ResourceInfo,
    body: Option<String>,
    r: Result<Fact, FactError>,
)
    requires
        finished(info, body, r),
    ensures
        body is None ==> status_spec(r) == STATUS_SERVICE_UNAVAILABLE,
        body matches Some(text) ==> (info.spec_fact(text@) is None <==> status_spec(r)
            == STATUS_SERVICE_UNAVAILABLE),
        body matches Some(text) ==> (info.spec_fact(text@) is Some <==> status_spec(r)
            == STATUS_OK),
{
}

} // verus!
