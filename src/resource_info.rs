//! How to reach one upstream provider and how to read its payload.

use vstd::prelude::*;

use crate::animal::{fact_from_cat_text, fact_from_dog_facts, Animal};
use crate::fact::{Fact, FactError};
use crate::json::{
    decode_str_list_member, decode_str_member, json_parses, json_str_list_member,
    json_str_member,
};

verus! {

/// What a provider offers: its URL, and a reading of its raw payload as a fact.
pub trait AnimalResourceInfo {
    spec fn spec_url(&self) -> Seq<char>;

    /// The animal and text of the fact in `text`, or `None` where the payload
    /// does not have the provider's shape.
    spec fn spec_fact(&self, text: Seq<char>) -> Option<(Animal, Seq<char>)>;

    fn url(&self) -> (r: &str)
        ensures
            r@ == self.spec_url(),
    ;

    fn parse_into_fact(&self, text: String) -> (r: Result<Fact, FactError>)
        ensures
            r is Ok <==> self.spec_fact(text@) is Some,
            r matches Ok(f) ==> self.spec_fact(text@) == Some((f.animal, f.fact@)),
            r matches Err(e) ==> e is UpstreamPayload,
    ;
}

/// The text of the fact that the provider of `animal` sends in `text`.
/// The cat provider sends an object whose member `text` is the fact; the dog
/// provider one whose member `facts` is a list of facts, of which the last is
/// taken.
pub open spec fn payload_fact(animal: Animal, text: Seq<char>) -> Option<Seq<char>> {
    if !json_parses(text) {
        None
    } else {
        match animal {
            Animal::Cat => json_str_member(text, "text"@),
            Animal::Dog => match json_str_list_member(text, "facts"@) {
                Some(l) => if l.len() > 0 {
                    Some(l.last())
                } else {
                    None
                },
                None => None,
            },
        }
    }
}

/// The upstream source of one animal.
pub struct ResourceInfo {
    pub animal: Animal,
    pub url: String,
}

/// The source of `animal`, fetched from `url`.
pub fn make_animal_info(animal: Animal, url: String) -> (r: ResourceInfo)
    ensures
        r.animal == animal,
        r.url@ == url@,
{
    ResourceInfo { animal, url }
}

impl AnimalResourceInfo for ResourceInfo {
    open spec fn spec_url(&self) -> Seq<char> {
        self.url@
    }

    open spec fn spec_fact(&self, text: Seq<char>) -> Option<(Animal, Seq<char>)> {
        match payload_fact(self.animal, text) {
            Some(t) => Some((self.animal, t)),
            None => None,
        }
    }

    fn url(&self) -> (r: &str) {
        self.url.as_str()
    }

    fn parse_into_fact(&self, text: String) -> (r: Result<Fact, FactError>) {
        match self.animal {
            Animal::Cat => match decode_str_member(text.as_str(), "text") {
                Ok(Some(t)) => Ok(fact_from_cat_text(t)),
                Ok(None) => Err(FactError::UpstreamPayload("missing text member".to_owned())),
                Err(e) => Err(FactError::UpstreamPayload(e)),
            },
            Animal::Dog => match decode_str_list_member(text.as_str(), "facts") {
                Ok(Some(l)) => {
                    proof {
                        assert(l@.len() > 0 ==> l@.map_values(|s: String| s@).last() == l@.last()@);
                    }
                    match fact_from_dog_facts(l) {
                        Some(f) => Ok(f),
                        None => Err(FactError::UpstreamPayload("empty facts list".to_owned())),
                    }
                },
                Ok(None) => Err(FactError::UpstreamPayload("missing facts list".to_owned())),
                Err(e) => Err(FactError::UpstreamPayload(e)),
            },
        }
    }
}

} // verus!
