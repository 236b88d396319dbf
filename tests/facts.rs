use animal_facts::animal::{
    fact_from_cat_text, fact_from_dog_facts, init_animal_index, Animal, ConfigError,
};
use animal_facts::fact::{
    finish_fact, resolve_fact_source, status_of, Fact, FactError, QueryArgs, STATUS_OK,
    STATUS_SERVICE_UNAVAILABLE,
};
use animal_facts::resource_info::{make_animal_info, AnimalResourceInfo};
use animal_facts::util::{get_animal_info, get_animal_info_at, get_random_animal_info, try_animal_from_config};

const CAT_URL: &str = "http://cats.example/fact";
const DOG_URL: &str = "http://dogs.example/facts";

fn sources() -> Vec<(Animal, String)> {
    vec![
        (Animal::Cat, CAT_URL.to_string()),
        (Animal::Dog, DOG_URL.to_string()),
    ]
}

#[test]
fn index_holds_configured_urls() {
    let index = init_animal_index(&sources()).unwrap();
    assert_eq!(get_animal_info(&index, Animal::Cat).url(), CAT_URL);
    assert_eq!(get_animal_info(&index, Animal::Dog).url(), DOG_URL);
    assert_eq!(get_animal_info(&index, Animal::Cat).animal, Animal::Cat);
    assert_eq!(get_animal_info(&index, Animal::Dog).animal, Animal::Dog);
}

#[test]
fn index_order_of_entries_does_not_matter() {
    let reversed = vec![
        (Animal::Dog, DOG_URL.to_string()),
        (Animal::Cat, CAT_URL.to_string()),
    ];
    let index = init_animal_index(&reversed).unwrap();
    assert_eq!(get_animal_info(&index, Animal::Cat).url(), CAT_URL);
    assert_eq!(get_animal_info(&index, Animal::Dog).url(), DOG_URL);
}

#[test]
fn index_rejects_missing_cat() {
    let only_dogs = vec![
        (Animal::Dog, DOG_URL.to_string()),
        (Animal::Dog, DOG_URL.to_string()),
    ];
    let r = init_animal_index(&only_dogs);
    assert!(matches!(r, Err(ConfigError::MissingSource(Animal::Cat))));
}

#[test]
fn index_rejects_missing_dog() {
    let only_cats = vec![
        (Animal::Cat, CAT_URL.to_string()),
        (Animal::Cat, CAT_URL.to_string()),
    ];
    let r = init_animal_index(&only_cats);
    assert!(matches!(r, Err(ConfigError::MissingSource(Animal::Dog))));
}

#[test]
fn index_rejects_wrong_count() {
    let one = vec![(Animal::Cat, CAT_URL.to_string())];
    assert!(matches!(init_animal_index(&one), Err(ConfigError::CountMismatch)));
    let empty: Vec<(Animal, String)> = Vec::new();
    assert!(matches!(init_animal_index(&empty), Err(ConfigError::CountMismatch)));
    let mut three = sources();
    three.push((Animal::Cat, "http://other.example".to_string()));
    assert!(matches!(init_animal_index(&three), Err(ConfigError::CountMismatch)));
}

#[test]
fn config_lookup_takes_first_entry() {
    let config = vec![
        (Animal::Dog, "a".to_string()),
        (Animal::Dog, "b".to_string()),
    ];
    assert_eq!(try_animal_from_config(&config, Animal::Dog).unwrap(), "a");
    assert_eq!(
        try_animal_from_config(&config, Animal::Cat).unwrap_err(),
        ConfigError::MissingSource(Animal::Cat)
    );
}

#[test]
fn positions_give_animals_in_order() {
    let index = init_animal_index(&sources()).unwrap();
    let (a0, i0) = get_animal_info_at(&index, 0);
    let (a1, i1) = get_animal_info_at(&index, 1);
    assert_eq!(a0, Animal::Cat);
    assert_eq!(i0.url(), CAT_URL);
    assert_eq!(a1, Animal::Dog);
    assert_eq!(i1.url(), DOG_URL);
    assert_eq!(index.len(), 2);
}

#[test]
fn random_draws_are_close_to_uniform() {
    let index = init_animal_index(&sources()).unwrap();
    let draws = 4000;
    let mut cats = 0;
    for _ in 0..draws {
        let (animal, info) = get_random_animal_info(&index);
        assert_eq!(info.animal, animal);
        if animal == Animal::Cat {
            cats += 1;
        }
    }
    let share = cats as f64 / draws as f64;
    assert!(share > 0.45 && share < 0.55, "share of cats {share}");
}

#[test]
fn cat_payload_parses() {
    let info = make_animal_info(Animal::Cat, CAT_URL.to_string());
    let f = info
        .parse_into_fact(r#"{"text":"Cats sleep 70% of their lives."}"#.to_string())
        .unwrap();
    assert_eq!(f.animal, Animal::Cat);
    assert_eq!(f.fact, "Cats sleep 70% of their lives.");
}

#[test]
fn dog_payload_parses_to_last_fact() {
    let info = make_animal_info(Animal::Dog, DOG_URL.to_string());
    let f = info
        .parse_into_fact(r#"{"facts":["Dogs have wet noses.","Dogs dream too."]}"#.to_string())
        .unwrap();
    assert_eq!(f.animal, Animal::Dog);
    assert_eq!(f.fact, "Dogs dream too.");
}

#[test]
fn payload_with_extra_members_parses() {
    let info = make_animal_info(Animal::Dog, DOG_URL.to_string());
    let f = info
        .parse_into_fact(r#"{"facts":["Dogs dream too."],"success":true}"#.to_string())
        .unwrap();
    assert_eq!(f.fact, "Dogs dream too.");
}

#[test]
fn empty_dog_list_is_a_payload_error() {
    let info = make_animal_info(Animal::Dog, DOG_URL.to_string());
    let r = info.parse_into_fact(r#"{"facts":[]}"#.to_string());
    assert!(matches!(r, Err(FactError::UpstreamPayload(_))));
}

#[test]
fn wrong_shape_is_a_payload_error() {
    let cat = make_animal_info(Animal::Cat, CAT_URL.to_string());
    let dog = make_animal_info(Animal::Dog, DOG_URL.to_string());
    let dog_payload = r#"{"facts":["Dogs dream too."]}"#.to_string();
    let cat_payload = r#"{"text":"Cats purr."}"#.to_string();
    assert!(matches!(cat.parse_into_fact(dog_payload), Err(FactError::UpstreamPayload(_))));
    assert!(matches!(dog.parse_into_fact(cat_payload), Err(FactError::UpstreamPayload(_))));
    assert!(matches!(
        cat.parse_into_fact(r#"{"text":7}"#.to_string()),
        Err(FactError::UpstreamPayload(_))
    ));
    assert!(matches!(
        dog.parse_into_fact(r#"{"facts":["a",1]}"#.to_string()),
        Err(FactError::UpstreamPayload(_))
    ));
}

#[test]
fn malformed_json_carries_a_diagnostic() {
    let cat = make_animal_info(Animal::Cat, CAT_URL.to_string());
    match cat.parse_into_fact("not json".to_string()) {
        Err(FactError::UpstreamPayload(msg)) => assert!(!msg.is_empty()),
        other => panic!("unexpected {other:?}"),
    }
}

#[test]
fn payload_conversions() {
    let f = fact_from_cat_text("Cats purr.".to_string());
    assert_eq!(f.animal, Animal::Cat);
    assert_eq!(f.fact, "Cats purr.");
    let g = fact_from_dog_facts(vec!["first".to_string(), "last".to_string()]).unwrap();
    assert_eq!(g.animal, Animal::Dog);
    assert_eq!(g.fact, "last");
    assert!(fact_from_dog_facts(Vec::new()).is_none());
    let h = Fact::new(Animal::Dog, "x".to_string());
    assert_eq!(h.animal, Animal::Dog);
    assert_eq!(h.fact, "x");
}

#[test]
fn request_for_cat_succeeds() {
    let index = init_animal_index(&sources()).unwrap();
    let query = QueryArgs { animal: Some(Animal::Cat) };
    let (animal, info, from_any) = resolve_fact_source(&index, &query);
    assert_eq!(animal, Animal::Cat);
    assert!(!from_any);
    assert_eq!(info.url(), CAT_URL);
    let r = finish_fact(info, Some(r#"{"text":"Cats sleep 70% of their lives."}"#.to_string()));
    assert_eq!(status_of(&r), STATUS_OK);
    assert_eq!(status_of(&r), 200);
    let f = r.unwrap();
    assert_eq!(f.animal, Animal::Cat);
    assert_eq!(f.fact, "Cats sleep 70% of their lives.");
}

#[test]
fn request_without_animal_draws_one() {
    let index = init_animal_index(&sources()).unwrap();
    let query = QueryArgs { animal: None };
    let (animal, info, from_any) = resolve_fact_source(&index, &query);
    assert!(from_any);
    assert_eq!(info.animal, animal);
    let body = match animal {
        Animal::Cat => {
            assert_eq!(info.url(), CAT_URL);
            r#"{"text":"Cats purr."}"#
        }
        Animal::Dog => {
            assert_eq!(info.url(), DOG_URL);
            r#"{"facts":["Dogs dream too."]}"#
        }
    };
    let r = finish_fact(info, Some(body.to_string()));
    assert_eq!(status_of(&r), 200);
    assert_eq!(r.unwrap().animal, animal);
}

#[test]
fn unreachable_upstream_is_unavailable() {
    let index = init_animal_index(&sources()).unwrap();
    let info = get_animal_info(&index, Animal::Dog);
    let r = finish_fact(info, None);
    assert!(matches!(r, Err(FactError::UpstreamUnavailable)));
    assert_eq!(status_of(&r), STATUS_SERVICE_UNAVAILABLE);
    assert_eq!(status_of(&r), 503);
}

#[test]
fn malformed_upstream_payload_is_unavailable() {
    let index = init_animal_index(&sources()).unwrap();
    let info = get_animal_info(&index, Animal::Cat);
    let r = finish_fact(info, Some(r#"{"fact":"no text member"}"#.to_string()));
    assert!(matches!(r, Err(FactError::UpstreamPayload(_))));
    assert_eq!(status_of(&r), 503);
}
