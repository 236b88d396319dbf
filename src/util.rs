//! Lookups in the configuration and in the index of sources.

use vstd::prelude::*;

use crate::animal::{animal_at, animal_index, has_source, Animal, AnimalIndex, ConfigError, ANIMAL_COUNT};
use crate::resource_info::ResourceInfo;

verus! {

/// The URL that `config` gives for `animal`: that of its first entry for it.
pub fn try_animal_from_config(config: &Vec<(Animal, String)>, animal: Animal) -> (r: Result<
    String,
    ConfigError,
>)
    ensures
        r is Ok <==> has_source(config@, animal),
        r is Err ==> r == Err::<String, ConfigError>(ConfigError::MissingSource(animal)),
        r matches Ok(url) ==> exists|i: int|
            0 <= i < config@.len() && (#[trigger] config@[i]).0 == animal && url@ == config@[i].1@
                && forall|j: int| 0 <= j < i ==> config@[j].0 != animal,
{
    let mut i: usize = 0;
    while i < config.len()
        invariant
            i <= config@.len(),
            forall|j: int| 0 <= j < i ==> config@[j].0 != animal,
        decreases config@.len() - i,
    {
        if config[i].0 == animal {
            return Ok(config[i].1.clone());
        }
        i = i + 1;
    }
    Err(ConfigError::MissingSource(animal))
}

/// The source of `animal`.
pub fn get_animal_info(index: &AnimalIndex, animal: Animal) -> (r: &ResourceInfo)
    requires
        index.wf(),
    ensures
        *r == index.entry(animal),
        r.animal == animal,
{
    let i: usize = match animal {
        Animal::Cat => 0,
        Animal::Dog => 1,
    };
    index.entry_at(i)
}

/// The animal at position `i` of the index, with its source.
pub fn get_animal_info_at(index: &AnimalIndex, i: usize) -> (r: (Animal, &ResourceInfo))
    requires
        index.wf(),
        i < ANIMAL_COUNT,
    ensures
        r.0 == animal_at(i as int),
        *r.1 == index.entry(r.0),
{
    let info = index.entry_at(i);
    (info.animal, info)
}

/// Relies on rand::Rng::gen_range over rand::thread_rng: a number below `n`,
/// drawn uniformly.
#[verifier::external_body]
fn random_below(n: usize) -> (r: usize)
    requires
        n > 0,
    ensures
        r < n,
{
    rand::Rng::gen_range(&mut rand::thread_rng(), 0..n)
}

/// An animal drawn uniformly at random, with its source.
pub fn get_random_animal_info(index: &AnimalIndex) -> (r: (Animal, &ResourceInfo))
    requires
        index.wf(),
    ensures
        *r.1 == index.entry(r.0),
{
    let i = random_below(index.len());
    get_animal_info_at(index, i)
}

/// Each animal stands at exactly one position of the index, so that a
/// position drawn uniformly is an animal drawn uniformly.
pub proof fn lemma_positions_are_animals()
    ensures
        forall|i: int| 0 <= i < ANIMAL_COUNT ==> animal_index(#[trigger] animal_at(i)) == i,
        forall|a: Animal|
            0 <= #[trigger] animal_index(a) < ANIMAL_COUNT && animal_at(animal_index(a)) == a,
{
    assert forall|a: Animal|
        0 <= #[trigger] animal_index(a) < ANIMAL_COUNT && animal_at(animal_index(a)) == a by {
        match a {
            Animal::Cat => {},
            Animal::Dog => {},
        }
    }
}

} // verus!
