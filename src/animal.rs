//! The animals the service knows, and the index of their upstream sources.

use vstd::prelude::*;

use crate::fact::Fact;
use crate::resource_info::{make_animal_info, ResourceInfo};
use crate::util::try_animal_from_config;

verus! {

/// The animals that facts can be asked about.
#[derive(Clone, Copy, Debug, PartialEq, Eq, Hash, Structural)]
pub enum Animal {
    Cat,
    Dog,
}

/// How many variants `Animal` has.
pub const ANIMAL_COUNT: usize = 2;

/// The position of an animal in the index, in declaration order.
pub open spec fn animal_index(a: Animal) -> int {
    match a {
        Animal::Cat => 0,
        Animal::Dog => 1,
    }
}

/// The animal at a position of the index.
pub open spec fn animal_at(i: int) -> Animal {
    if i == 0 {
        Animal::Cat
    } else {
        Animal::Dog
    }
}

/// Whether `sources` holds an entry for `a`.
pub open spec fn has_source(sources: Seq<(Animal, String)>, a: Animal) -> bool {
    exists|i: int| 0 <= i < sources.len() && (#[trigger] sources[i]).0 == a
}

/// A configuration the index can be built from: one entry per animal.
pub open spec fn valid_sources(sources: Seq<(Animal, String)>) -> bool {
    &&& sources.len() == ANIMAL_COUNT
    &&& forall|a: Animal| has_source(sources, a)
}

/// Why the index could not be built.
#[derive(Debug, PartialEq, Eq, Structural)]
pub enum ConfigError {
    /// The configuration holds a number of entries other than one per animal.
    CountMismatch,
    /// The configuration holds no entry for this animal.
    MissingSource(Animal),
}

/// The upstream source of every animal, one entry per animal, in declaration order.
pub struct AnimalIndex {
    entries: Vec<ResourceInfo>,
}

impl AnimalIndex {
    pub closed spec fn entries(&self) -> Seq<ResourceInfo> {
        self.entries@
    }

    /// Every animal has exactly one entry, at its own position.
    pub open spec fn wf(&self) -> bool {
        &&& self.entries().len() == ANIMAL_COUNT
        &&& forall|i: int|
            0 <= i < ANIMAL_COUNT ==> (#[trigger] self.entries()[i]).animal == animal_at(i)
    }

    /// The entry of an animal.
    pub open spec fn entry(&self, a: Animal) -> ResourceInfo {
        self.entries()[animal_index(a)]
    }

    /// The upstream URL of an animal.
    pub open spec fn url_of(&self, a: Animal) -> Seq<char> {
        self.entry(a).url@
    }

    pub fn len(&self) -> (r: usize)
        ensures
            r == self.entries().len(),
    {
        self.entries.len()
    }

    pub(crate) fn entry_at(&self, i: usize) -> (r: &ResourceInfo)
        requires
            i < self.entries().len(),
        ensures
            *r == self.entries()[i as int],
    {
        &self.entries[i]
    }
}

/// Builds the index of upstream sources from the configured `(animal, url)`
/// entries. It fails where the configuration does not hold exactly one entry
/// per animal; each animal then fetches from the URL configured for it.
pub fn init_animal_index(sources: &Vec<(Animal, String)>) -> (r: Result<AnimalIndex, ConfigError>)
    ensures
        r is Ok <==> valid_sources(sources@),
        sources@.len() != ANIMAL_COUNT ==> r == Err::<AnimalIndex, ConfigError>(
            ConfigError::CountMismatch,
        ),
        sources@.len() == ANIMAL_COUNT && !has_source(sources@, Animal::Cat) ==> r == Err::<
            AnimalIndex,
            ConfigError,
        >(ConfigError::MissingSource(Animal::Cat)),
        sources@.len() == ANIMAL_COUNT && has_source(sources@, Animal::Cat) && !has_source(
            sources@,
            Animal::Dog,
        ) ==> r == Err::<AnimalIndex, ConfigError>(ConfigError::MissingSource(Animal::Dog)),
        r matches Ok(index) ==> {
            &&& index.wf()
            &&& forall|i: int|
                0 <= i < sources@.len() ==> index.url_of((#[trigger] sources@[i]).0)
                    == sources@[i].1@
        },
{
    if sources.len() != ANIMAL_COUNT {
        return Err(ConfigError::CountMismatch);
    }
    let cat_url = match try_animal_from_config(sources, Animal::Cat) {
        Ok(u) => u,
        Err(e) => {
            return Err(e);
        },
    };
    let dog_url = match try_animal_from_config(sources, Animal::Dog) {
        Ok(u) => u,
        Err(e) => {
            return Err(e);
        },
    };
    let mut entries: Vec<ResourceInfo> = Vec::new();
    entries.push(make_animal_info(Animal::Cat, cat_url));
    entries.push(make_animal_info(Animal::Dog, dog_url));
    let index = AnimalIndex { entries };
    assert forall|a: Animal| has_source(sources@, a) by {
        match a {
            Animal::Cat => {},
            Animal::Dog => {},
        }
    }
    assert forall|i: int| 0 <= i < sources@.len() implies index.url_of(
        (#[trigger] sources@[i]).0,
    ) == sources@[i].1@ by {
        // two entries naming two distinct animals: each entry is the one found
        let j: int = if i == 0 { 1 } else { 0 };
        if sources@[j].0 == sources@[i].0 {
            let other = if sources@[i].0 == Animal::Cat { Animal::Dog } else { Animal::Cat };
            assert(has_source(sources@, other));
            let k = choose|k: int| 0 <= k < sources@.len() && (#[trigger] sources@[k]).0 == other;
            assert(k == i || k == j);
        }
    }
    Ok(index)
}

/// Whether `sources` holds the entry `(a, url)`.
pub open spec fn configured_as(sources: Seq<(Animal, String)>, a: Animal, url: Seq<char>) -> bool {
    exists|i: int| 0 <= i < sources.len() && (#[trigger] sources[i]).0 == a && sources[i].1@ == url
}

/// An index built from a configuration with one URL per animal looks every
/// animal up to the URL configured for it.
pub proof fn lemma_index_complete(sources: Seq<(Animal, String)>, index: AnimalIndex)
    requires
        valid_sources(sources),
        index.wf(),
        forall|i: int|
            0 <= i < sources.len() ==> index.url_of((#[trigger] sources[i]).0) == sources[i].1@,
    ensures
        forall|a: Animal| #[trigger] configured_as(sources, a, index.url_of(a)),
        forall|a: Animal| (#[trigger] index.entry(a)).animal == a,
{
    assert forall|a: Animal| (#[trigger] index.entry(a)).animal == a by {
        match a {
            Animal::Cat => {},
            Animal::Dog => {},
        }
    }
    assert forall|a: Animal| #[trigger] configured_as(sources, a, index.url_of(a)) by {
        assert(has_source(sources, a));
        let i = choose|i: int| 0 <= i < sources.len() && (#[trigger] sources[i]).0 == a;
        assert(index.url_of(sources[i].0) == sources[i].1@);
    }
}

/// A configuration that lacks the entry of any one animal is no valid
/// configuration, so that building the index from it fails.
pub proof fn lemma_missing_source_rejected(sources: Seq<(Animal, String)>, a: Animal)
    requires
        !has_source(sources, a),
    ensures
        !valid_sources(sources),
{
}

/// The fact of a payload that holds one text: the text itself, about a cat.
pub fn fact_from_cat_text(text: String) -> (r: Fact)
    ensures
        r.animal == Animal::Cat,
        r.fact@ == text@,
{
    Fact::new(Animal::Cat, text)
}

/// The fact of a payload that holds a list of texts: the last of them, about
/// a dog. An empty list gives no fact.
pub fn fact_from_dog_facts(facts: Vec<String>) -> (r: Option<Fact>)
    ensures
        r is Some <==> facts@.len() > 0,
        r matches Some(f) ==> f.animal == Animal::Dog && f.fact@ == facts@.last()@,
{
    let mut facts = facts;
    match facts.pop() {
        Some(text) => Some(Fact::new(Animal::Dog, text)),
        None => None,
    }
}

} // verus!
