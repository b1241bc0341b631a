pub mod fetch;
pub mod pokedex;
pub mod pokemon;
