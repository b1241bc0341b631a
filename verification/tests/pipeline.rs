use pokedex::fetch::{image_url, join_fetches, pick_identifier, resource_url};
use pokedex::pokedex::{Action, Message, Pokedex};
use pokedex::pokemon::{
    Error, FlavorText, NamedResponse, Pokemon, PokemonResponse, RawPayloads, SpeciesResponse, Stat,
    TypeText,
};

fn named(s: &str) -> NamedResponse {
    NamedResponse { name: s.to_string() }
}

fn type_entry(s: &str) -> TypeText {
    TypeText { type_info: named(s) }
}

fn stat_entry(base: u8, name: &str) -> Stat {
    Stat { base_stat: base, stat: named(name) }
}

fn flavor(text: &str, lang: &str) -> FlavorText {
    FlavorText { flavor_text: text.to_string(), language: named(lang) }
}

fn sample_payloads() -> RawPayloads {
    RawPayloads {
        pokemon: PokemonResponse {
            id: 7,
            name: "squirtle".to_string(),
            types: vec![type_entry("water")],
            stats: vec![stat_entry(45, "hp"), stat_entry(49, "attack")],
            height: 5,
            weight: 90,
        },
        species: SpeciesResponse {
            flavor_text_entries: vec![
                flavor("Wasserschildkroete", "de"),
                flavor("After birth, its\nback swells.", "en"),
                flavor("A later entry.", "en"),
            ],
        },
        image: vec![1, 2, 3],
        shiny_image: vec![4, 5],
    }
}

#[test]
fn assembled_record_copies_identifier() {
    let rec = Pokemon::assemble(sample_payloads()).unwrap();
    assert_eq!(rec.id, 7);
    assert_eq!(rec.name, "squirtle");
    assert_eq!(rec.image, vec![1, 2, 3]);
    assert_eq!(rec.shiny_image, vec![4, 5]);
}

#[test]
fn types_arity_one_preserved() {
    let rec = Pokemon::assemble(sample_payloads()).unwrap();
    assert_eq!(rec.types, vec!["water".to_string()]);
}

#[test]
fn types_arity_two_preserved_in_order() {
    let mut payloads = sample_payloads();
    payloads.pokemon.types = vec![type_entry("water"), type_entry("electric")];
    let rec = Pokemon::assemble(payloads).unwrap();
    assert_eq!(rec.types, vec!["water".to_string(), "electric".to_string()]);
}

#[test]
fn physique_conversions() {
    let mut payloads = sample_payloads();
    payloads.pokemon.height = 7;
    payloads.pokemon.weight = 69;
    let rec = Pokemon::assemble(payloads).unwrap();
    assert_eq!(rec.height_decimeters, 7);
    assert_eq!(rec.height_decimeters as f32 / 10.0, 0.7);
    assert_eq!(rec.weight_grams, 6900);
    assert_eq!(rec.weight_grams as f32, 6900.0);
}

#[test]
fn stat_mapping_with_defaults() {
    let rec = Pokemon::assemble(sample_payloads()).unwrap();
    assert_eq!(rec.hp, 45);
    assert_eq!(rec.attack, 49);
    assert_eq!(rec.defense, 0);
    assert_eq!(rec.special_attack, 0);
    assert_eq!(rec.special_defense, 0);
    assert_eq!(rec.speed, 0);
}

#[test]
fn stat_mapping_full_set() {
    let mut payloads = sample_payloads();
    payloads.pokemon.stats = vec![
        stat_entry(45, "hp"),
        stat_entry(49, "attack"),
        stat_entry(49, "defense"),
        stat_entry(65, "special-attack"),
        stat_entry(65, "special-defense"),
        stat_entry(45, "speed"),
    ];
    let rec = Pokemon::assemble(payloads).unwrap();
    assert_eq!(rec.special_attack, 65);
    assert_eq!(rec.special_defense, 65);
    assert_eq!(rec.defense, 49);
    assert_eq!(rec.speed, 45);
}

#[test]
fn stat_unrecognized_names_ignored() {
    let mut payloads = sample_payloads();
    payloads.pokemon.stats = vec![stat_entry(100, "accuracy"), stat_entry(30, "hp")];
    let rec = Pokemon::assemble(payloads).unwrap();
    assert_eq!(rec.hp, 30);
    assert_eq!(rec.attack, 0);
}

#[test]
fn stat_last_match_wins() {
    let mut payloads = sample_payloads();
    payloads.pokemon.stats = vec![stat_entry(10, "hp"), stat_entry(20, "hp")];
    let rec = Pokemon::assemble(payloads).unwrap();
    assert_eq!(rec.hp, 20);
}

#[test]
fn sanitization_replaces_control_characters() {
    let rec = Pokemon::assemble(sample_payloads()).unwrap();
    assert_eq!(rec.flavor_text, "After birth, its back swells.");
    assert_eq!(rec.flavor_text.chars().count(), "After birth, its\nback swells.".chars().count());
}

#[test]
fn description_chosen_only_from_target_language() {
    let rec = Pokemon::assemble(sample_payloads()).unwrap();
    assert_ne!(rec.flavor_text, "Wasserschildkroete");
    assert_ne!(rec.flavor_text, "A later entry.");
}

#[test]
fn missing_language_fails_assembly() {
    let mut payloads = sample_payloads();
    payloads.species =
        SpeciesResponse { flavor_text_entries: vec![flavor("Wasserschildkroete", "de")] };
    let r = Pokemon::assemble(payloads);
    assert_eq!(r, Err(Error::Language));
}

#[test]
fn empty_species_list_fails_assembly() {
    let mut payloads = sample_payloads();
    payloads.species = SpeciesResponse { flavor_text_entries: vec![] };
    assert_eq!(Pokemon::assemble(payloads), Err(Error::Language));
}

#[test]
fn join_all_successes_bundles_payloads() {
    let p = sample_payloads();
    let r = join_fetches(
        Ok(p.image.clone()),
        Ok(p.shiny_image.clone()),
        Ok(p.pokemon.clone()),
        Ok(p.species.clone()),
    )
    .unwrap();
    assert_eq!(r, p);
}

#[test]
fn join_any_failure_fails_whole_fetch() {
    let p = sample_payloads();
    let failed: Result<Vec<u8>, Error> = Err(Error::Reqwest);
    assert_eq!(
        join_fetches(
            failed.clone(),
            Ok(p.shiny_image.clone()),
            Ok(p.pokemon.clone()),
            Ok(p.species.clone())
        ),
        Err(Error::Reqwest)
    );
    assert_eq!(
        join_fetches(
            Ok(p.image.clone()),
            failed.clone(),
            Ok(p.pokemon.clone()),
            Ok(p.species.clone())
        ),
        Err(Error::Reqwest)
    );
    assert_eq!(
        join_fetches(
            Ok(p.image.clone()),
            Ok(p.shiny_image.clone()),
            Err(Error::Reqwest),
            Ok(p.species.clone())
        ),
        Err(Error::Reqwest)
    );
    assert_eq!(
        join_fetches(
            Ok(p.image.clone()),
            Ok(p.shiny_image.clone()),
            Ok(p.pokemon.clone()),
            Err(Error::Reqwest)
        ),
        Err(Error::Reqwest)
    );
}

#[test]
fn assembler_is_deterministic() {
    let payloads = sample_payloads();
    let first = Pokemon::assemble(payloads.clone()).unwrap();
    let second = Pokemon::assemble(payloads).unwrap();
    assert_eq!(first, second);
}

#[test]
fn resource_urls_match_templates() {
    assert_eq!(
        resource_url("https://pokeapi.co/api/v2/pokemon/", 25),
        "https://pokeapi.co/api/v2/pokemon/25"
    );
    assert_eq!(
        resource_url("https://pokeapi.co/api/v2/pokemon-species/", 893),
        "https://pokeapi.co/api/v2/pokemon-species/893"
    );
    assert_eq!(resource_url("x/", 0), "x/0");
}

#[test]
fn image_urls_match_templates() {
    let base = "https://raw.githubusercontent.com/PokeAPI/sprites/master/sprites/pokemon";
    assert_eq!(
        image_url(base, false, 25),
        format!("{}/25.png", base)
    );
    assert_eq!(
        image_url(base, true, 25),
        format!("{}/shiny/25.png", base)
    );
}

#[test]
fn pick_identifier_stays_in_range() {
    for _ in 0..50 {
        let id = pick_identifier(893).unwrap();
        assert!((1..893).contains(&id));
    }
    assert_eq!(pick_identifier(2), Some(1));
}

#[test]
fn pick_identifier_refuses_empty_catalog() {
    assert_eq!(pick_identifier(1), None);
    assert_eq!(pick_identifier(0), None);
}

#[test]
fn shell_starts_loading_with_a_fetch() {
    let (state, action) = Pokedex::new();
    assert!(matches!(state, Pokedex::Loading));
    assert_eq!(action, Action::StartFetch);
}

#[test]
fn shell_transitions() {
    let (mut state, _) = Pokedex::new();
    // A search while loading is ignored: no second concurrent fetch.
    assert_eq!(state.update(Message::Search), Action::Idle);
    assert!(matches!(state, Pokedex::Loading));
    // A failed fetch leaves the loading view in place.
    assert_eq!(state.update(Message::PokemonFound(Err(Error::Reqwest))), Action::Idle);
    assert!(matches!(state, Pokedex::Loading));
    // A successful fetch replaces the whole state with the record.
    let rec = Pokemon::assemble(sample_payloads()).unwrap();
    assert_eq!(state.update(Message::PokemonFound(Ok(rec))), Action::Idle);
    match &state {
        Pokedex::Loaded { pokemon } => assert_eq!(pokemon.id, 7),
        Pokedex::Loading => panic!("record not shown"),
    }
    // A search from the loaded state starts one new fetch.
    assert_eq!(state.update(Message::Search), Action::StartFetch);
    assert!(matches!(state, Pokedex::Loading));
}
