//! The fetch side of the pipeline: building the four request URLs, drawing
//! the random identifier, and joining the four sub-operation results into
//! one payload bundle or one failure. The network calls themselves live
//! outside the library; they hand their results back as plain values.

use crate::pokemon::{push_char, Error, PokemonResponse, RawPayloads, SpeciesResponse};
use vstd::prelude::*;

verus! {

/// The decimal digit character for a value below ten.
pub open spec fn dec_digit(d: int) -> char {
    if d == 0 {
        '0'
    } else if d == 1 {
        '1'
    } else if d == 2 {
        '2'
    } else if d == 3 {
        '3'
    } else if d == 4 {
        '4'
    } else if d == 5 {
        '5'
    } else if d == 6 {
        '6'
    } else if d == 7 {
        '7'
    } else if d == 8 {
        '8'
    } else {
        '9'
    }
}

/// The usual decimal rendering of a number: most significant digit first,
/// no leading zeros except for the number 0 itself.
pub open spec fn dec_digits(n: nat) -> Seq<char>
    decreases n,
{
    if n < 10 {
        seq![dec_digit(n as int)]
    } else {
        dec_digits(n / 10).push(dec_digit((n % 10) as int))
    }
}

/// The decimal digit character of a value below ten.
fn digit_char(d: u16) -> (c: char)
    requires
        d < 10,
    ensures
        c == dec_digit(d as int),
{
    if d == 0 {
        '0'
    } else if d == 1 {
        '1'
    } else if d == 2 {
        '2'
    } else if d == 3 {
        '3'
    } else if d == 4 {
        '4'
    } else if d == 5 {
        '5'
    } else if d == 6 {
        '6'
    } else if d == 7 {
        '7'
    } else if d == 8 {
        '8'
    } else {
        '9'
    }
}

/// Appends the decimal rendering of `n` to the string.
fn push_decimal(out: &mut String, n: u16)
    ensures
        final(out)@ == old(out)@ + dec_digits(n as nat),
    decreases n,
{
    if n >= 10 {
        push_decimal(out, n / 10);
    }
    push_char(out, digit_char(n % 10));
    proof {
        if n < 10 {
            assert(old(out)@.push(dec_digit((n % 10) as int)) =~= old(out)@ + dec_digits(
                n as nat,
            ));
        } else {
            assert((old(out)@ + dec_digits((n / 10) as nat)).push(dec_digit((n % 10) as int))
                =~= old(out)@ + dec_digits(n as nat));
        }
    }
}

/// The URL of a JSON resource: the given base with the identifier's
/// decimal digits appended. The caller supplies the base (ending in its
/// path separator), so the API root stays configuration, not a constant of
/// the library.
pub fn resource_url(base: &str, id: u16) -> (r: String)
    ensures
        r@ == base@ + dec_digits(id as nat),
{
    let mut out = String::from_str(base);
    push_decimal(&mut out, id);
    out
}

/// The URL of a portrait image: the base, a `/shiny` segment for the shiny
/// variant, then `/{id}.png`.
pub fn image_url(base: &str, shiny: bool, id: u16) -> (r: String)
    ensures
        r@ == base@ + (if shiny {
            "/shiny"@
        } else {
            Seq::<char>::empty()
        }) + "/"@ + dec_digits(id as nat) + ".png"@,
{
    let mut out = String::from_str(base);
    if shiny {
        out.append("/shiny");
    }
    out.append("/");
    push_decimal(&mut out, id);
    out.append(".png");
    proof {
        assert(out@ =~= base@ + (if shiny {
            "/shiny"@
        } else {
            Seq::<char>::empty()
        }) + "/"@ + dec_digits(id as nat) + ".png"@);
    }
    out
}

/// Relies on `rand::Rng::gen_range` over `rand::rngs::OsRng`: returns a
/// value drawn from the operating system's random source within the given
/// half-open range; panics when the range is empty, which the
/// precondition rules out.
#[verifier::external_body]
fn random_identifier(total: u16) -> (r: u16)
    requires
        total >= 2,
    ensures
        1 <= r < total,
{
    rand::Rng::gen_range(&mut rand::rngs::OsRng, 1..total)
}

/// Draws a creature identifier uniformly from `[1, total)`, or refuses a
/// catalog too small to draw from. The draw is not seedable; everything
/// downstream takes the identifier as a plain argument, so tests inject
/// one directly.
pub fn pick_identifier(total: u16) -> (r: Option<u16>)
    ensures
        total >= 2 ==> (r matches Some(i) && 1 <= i < total),
        total < 2 ==> r is None,
{
    if total >= 2 {
        Some(random_identifier(total))
    } else {
        None
    }
}

/// Joins the four sub-operation results: all four successes make one
/// payload bundle, and any failure fails the whole fetch with the first
/// failure's error, partial results discarded.
pub fn join_fetches(
    image: Result<Vec<u8>, Error>,
    shiny_image: Result<Vec<u8>, Error>,
    pokemon: Result<PokemonResponse, Error>,
    species: Result<SpeciesResponse, Error>,
) -> (r: Result<RawPayloads, Error>)
    ensures
        r is Ok <==> (image is Ok && shiny_image is Ok && pokemon is Ok && species is Ok),
        r matches Ok(p) ==> {
            &&& p.image == image->Ok_0
            &&& p.shiny_image == shiny_image->Ok_0
            &&& p.pokemon == pokemon->Ok_0
            &&& p.species == species->Ok_0
        },
        image is Err ==> r == Err::<RawPayloads, Error>(image->Err_0),
        image is Ok && shiny_image is Err ==> r == Err::<RawPayloads, Error>(shiny_image->Err_0),
        image is Ok && shiny_image is Ok && pokemon is Err ==> r == Err::<RawPayloads, Error>(
            pokemon->Err_0,
        ),
        image is Ok && shiny_image is Ok && pokemon is Ok && species is Err ==> r == Err::<
            RawPayloads,
            Error,
        >(species->Err_0),
{
    let image = match image {
        Ok(b) => b,
        Err(e) => {
            return Err(e);
        },
    };
    let shiny_image = match shiny_image {
        Ok(b) => b,
        Err(e) => {
            return Err(e);
        },
    };
    let pokemon = match pokemon {
        Ok(d) => d,
        Err(e) => {
            return Err(e);
        },
    };
    let species = match species {
        Ok(d) => d,
        Err(e) => {
            return Err(e);
        },
    };
    Ok(RawPayloads { pokemon, species, image, shiny_image })
}

} // verus!
