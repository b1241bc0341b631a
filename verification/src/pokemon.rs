//! The data model: the two decoded API documents, the raw payload bundle a
//! fetch produces, and the unified record the assembler builds from it.

use vstd::prelude::*;

verus! {

/// A `{ name: ... }` object, as several places in the API nest one.
#[derive(Clone, Debug, PartialEq)]
pub struct NamedResponse {
    pub name: String,
}

impl View for NamedResponse {
    type V = Seq<char>;

    open spec fn view(&self) -> Seq<char> {
        self.name@
    }
}

/// One entry of the `types` list of the primary document.
#[derive(Clone, Debug, PartialEq)]
pub struct TypeText {
    pub type_info: NamedResponse,
}

impl View for TypeText {
    type V = Seq<char>;

    open spec fn view(&self) -> Seq<char> {
        self.type_info@
    }
}

/// What a `Stat` abstracts to: a base value under a stat name.
pub ghost struct StatView {
    pub base_stat: u8,
    pub name: Seq<char>,
}

/// One entry of the `stats` list of the primary document.
#[derive(Clone, Debug, PartialEq)]
pub struct Stat {
    pub base_stat: u8,
    pub stat: NamedResponse,
}

impl View for Stat {
    type V = StatView;

    open spec fn view(&self) -> StatView {
        StatView { base_stat: self.base_stat, name: self.stat@ }
    }
}

/// The views of a list of type entries.
pub open spec fn type_views(s: Seq<TypeText>) -> Seq<Seq<char>> {
    s.map_values(|t: TypeText| t@)
}

/// The views of a list of stat entries.
pub open spec fn stat_views(s: Seq<Stat>) -> Seq<StatView> {
    s.map_values(|s: Stat| s@)
}

/// What a `PokemonResponse` abstracts to.
pub ghost struct PokemonDocView {
    pub id: u16,
    pub name: Seq<char>,
    pub types: Seq<Seq<char>>,
    pub stats: Seq<StatView>,
    pub height: u8,
    pub weight: u16,
}

/// The decoded primary document: identity, category tags, stats and physique.
/// `height` is in decimeters and `weight` in hectograms, as the API hands
/// them out.
#[derive(Clone, Debug, PartialEq)]
pub struct PokemonResponse {
    pub id: u16,
    pub name: String,
    pub types: Vec<TypeText>,
    pub stats: Vec<Stat>,
    pub height: u8,
    pub weight: u16,
}

impl View for PokemonResponse {
    type V = PokemonDocView;

    open spec fn view(&self) -> PokemonDocView {
        PokemonDocView {
            id: self.id,
            name: self.name@,
            types: type_views(self.types@),
            stats: stat_views(self.stats@),
            height: self.height,
            weight: self.weight,
        }
    }
}

/// The views of a list of description entries.
pub open spec fn flavor_views(s: Seq<FlavorText>) -> Seq<FlavorView> {
    s.map_values(|f: FlavorText| f@)
}

/// What a `FlavorText` abstracts to.
pub ghost struct FlavorView {
    pub flavor_text: Seq<char>,
    pub language: Seq<char>,
}

/// One localized description entry of the species document.
#[derive(Clone, Debug, PartialEq)]
pub struct FlavorText {
    pub flavor_text: String,
    pub language: NamedResponse,
}

impl View for FlavorText {
    type V = FlavorView;

    open spec fn view(&self) -> FlavorView {
        FlavorView { flavor_text: self.flavor_text@, language: self.language@ }
    }
}

/// The decoded species document: the list of localized description entries.
#[derive(Clone, Debug, PartialEq)]
pub struct SpeciesResponse {
    pub flavor_text_entries: Vec<FlavorText>,
}

impl View for SpeciesResponse {
    type V = Seq<FlavorView>;

    open spec fn view(&self) -> Seq<FlavorView> {
        flavor_views(self.flavor_text_entries@)
    }
}

/// What a `RawPayloads` abstracts to.
pub ghost struct PayloadsView {
    pub pokemon: PokemonDocView,
    pub species: Seq<FlavorView>,
    pub image: Seq<u8>,
    pub shiny_image: Seq<u8>,
}

/// Everything one fetch brings back, before assembly: the two decoded JSON
/// documents and the two raw image blobs. Lives only until the assembler
/// consumes it.
#[derive(Clone, Debug, PartialEq)]
pub struct RawPayloads {
    pub pokemon: PokemonResponse,
    pub species: SpeciesResponse,
    pub image: Vec<u8>,
    pub shiny_image: Vec<u8>,
}

impl View for RawPayloads {
    type V = PayloadsView;

    open spec fn view(&self) -> PayloadsView {
        PayloadsView {
            pokemon: self.pokemon@,
            species: self.species@,
            image: self.image@,
            shiny_image: self.shiny_image@,
        }
    }
}

/// The views of a list of strings.
pub open spec fn string_views(s: Seq<String>) -> Seq<Seq<char>> {
    s.map_values(|t: String| t@)
}

/// What a `Pokemon` record abstracts to.
pub ghost struct RecordView {
    pub image: Seq<u8>,
    pub shiny_image: Seq<u8>,
    pub id: u16,
    pub name: Seq<char>,
    pub types: Seq<Seq<char>>,
    pub flavor_text: Seq<char>,
    pub height_decimeters: u8,
    pub weight_grams: u32,
    pub hp: u8,
    pub attack: u8,
    pub defense: u8,
    pub special_attack: u8,
    pub special_defense: u8,
    pub speed: u8,
}

/// The unified record of one creature, immutable once assembled. Height is
/// kept in the source's decimeters (meters are a tenth of it, a display
/// concern); weight is in grams, exactly a hundred times the source's
/// hectograms. The six stat fields default to 0 when the source omits the
/// stat.
#[derive(Clone, Debug, PartialEq)]
pub struct Pokemon {
    pub image: Vec<u8>,
    pub shiny_image: Vec<u8>,
    pub id: u16,
    pub name: String,
    pub types: Vec<String>,
    pub flavor_text: String,
    pub height_decimeters: u8,
    pub weight_grams: u32,
    pub hp: u8,
    pub attack: u8,
    pub defense: u8,
    pub special_attack: u8,
    pub special_defense: u8,
    pub speed: u8,
}

impl View for Pokemon {
    type V = RecordView;

    open spec fn view(&self) -> RecordView {
        RecordView {
            image: self.image@,
            shiny_image: self.shiny_image@,
            id: self.id,
            name: self.name@,
            types: string_views(self.types@),
            flavor_text: self.flavor_text@,
            height_decimeters: self.height_decimeters,
            weight_grams: self.weight_grams,
            hp: self.hp,
            attack: self.attack,
            defense: self.defense,
            special_attack: self.special_attack,
            special_defense: self.special_defense,
            speed: self.speed,
        }
    }
}

/// The errors a fetch-and-assemble run can end in: `Reqwest` for a
/// transport, HTTP or decode failure on any sub-operation, `Language` for a
/// species document with no entry in the target language.
#[derive(Debug, Clone, Copy, PartialEq, Eq, Structural)]
pub enum Error {
    Reqwest,
    Language,
}

/// A control character in the sense of the Unicode `Cc` category: the C0
/// range below U+0020, DEL, and the C1 range U+0080..=U+009F.
pub open spec fn is_control_char(c: char) -> bool {
    (c as u32) < 32 || (127 <= (c as u32) && (c as u32) <= 159)
}

/// How sanitization treats one character: a control character becomes an
/// ordinary space, everything else is kept verbatim.
pub open spec fn sanitize_char(c: char) -> char {
    if is_control_char(c) {
        ' '
    } else {
        c
    }
}

/// The sanitized form of a text: every control character replaced by a
/// space, the length and all other characters preserved.
pub open spec fn sanitized(s: Seq<char>) -> Seq<char> {
    s.map_values(|c: char| sanitize_char(c))
}

/// The fixed target language tag used to select one description entry.
pub open spec fn english() -> Seq<char> {
    "en"@
}

/// Whether some entry of the list is tagged with the given language.
pub open spec fn has_language(entries: Seq<FlavorView>, lang: Seq<char>) -> bool {
    exists|i: int| 0 <= i < entries.len() && entries[i].language == lang
}

/// Whether `i` is the index of the first entry tagged with the given
/// language.
pub open spec fn is_first_in_language(entries: Seq<FlavorView>, lang: Seq<char>, i: int) -> bool {
    &&& 0 <= i < entries.len()
    &&& entries[i].language == lang
    &&& forall|j: int| 0 <= j < i ==> entries[j].language != lang
}

/// The value the stat list assigns to a stat name: the base value of the
/// last entry carrying that name, or 0 when no entry carries it. The last
/// entry wins because assembly scans the list front to back, each match
/// overwriting the one before.
pub open spec fn stat_value(stats: Seq<StatView>, name: Seq<char>) -> u8
    decreases stats.len(),
{
    if stats.len() == 0 {
        0
    } else if stats.last().name == name {
        stats.last().base_stat
    } else {
        stat_value(stats.drop_last(), name)
    }
}

/// Character-by-character string equality, proved against the string views.
pub fn str_eq(a: &str, b: &str) -> (r: bool)
    ensures
        r == (a@ == b@),
{
    let a_len = a.unicode_len();
    let b_len = b.unicode_len();
    if a_len != b_len {
        return false;
    }
    for i in 0..a_len
        invariant
            a_len == a@.len(),
            a_len == b@.len(),
            forall|j: int| 0 <= j < i ==> a@[j] == b@[j],
    {
        if a.get_char(i) != b.get_char(i) {
            return false;
        }
    }
    proof {
        assert(a@ =~= b@);
    }
    true
}

/// Relies on `String::push`: appends the given character to the end of the
/// string.
#[verifier::external_body]
pub(crate) fn push_char(s: &mut String, c: char)
    ensures
        final(s)@ == old(s)@.push(c),
{
    s.push(c);
}

/// Whether the character is a control character, as `is_control_char` says.
pub fn control_char(c: char) -> (r: bool)
    ensures
        r == is_control_char(c),
{
    let u = c as u32;
    u < 32 || (127 <= u && u <= 159)
}

/// The sanitized copy of a text: control characters replaced by spaces,
/// everything else verbatim.
pub fn sanitize_text(s: &str) -> (r: String)
    ensures
        r@ == sanitized(s@),
{
    let n = s.unicode_len();
    let mut out = String::new();
    for i in 0..n
        invariant
            n == s@.len(),
            out@ == sanitized(s@.take(i as int)),
    {
        let c = s.get_char(i);
        let kept = if control_char(c) {
            ' '
        } else {
            c
        };
        push_char(&mut out, kept);
        proof {
            assert(sanitized(s@.take(i + 1)) =~= sanitized(s@.take(i as int)).push(
                sanitize_char(s@[i as int]),
            ));
        }
    }
    proof {
        assert(s@.take(n as int) =~= s@);
    }
    out
}

/// The category tags of the primary document, each type entry mapped to its
/// name, order preserved.
pub fn extract_type_names(types: &Vec<TypeText>) -> (r: Vec<String>)
    ensures
        r@.len() == types@.len(),
        forall|i: int| 0 <= i < types@.len() ==> r@[i]@ == types@[i]@,
{
    let mut out: Vec<String> = Vec::new();
    for i in 0..types.len()
        invariant
            out@.len() == i,
            forall|j: int| 0 <= j < i ==> out@[j]@ == types@[j]@,
    {
        out.push(types[i].type_info.name.clone());
    }
    out
}

/// The value the stat list assigns to one stat name, scanning front to back
/// with the last exact match winning and 0 when no entry matches.
pub fn lookup_stat(stats: &Vec<Stat>, name: &str) -> (r: u8)
    ensures
        r == stat_value(stat_views(stats@), name@),
{
    let ghost stat_seq = stat_views(stats@);
    let mut cur: u8 = 0;
    for i in 0..stats.len()
        invariant
            stat_seq == stat_views(stats@),
            stat_seq.len() == stats@.len(),
            cur == stat_value(stat_seq.take(i as int), name@),
    {
        if str_eq(stats[i].stat.name.as_str(), name) {
            cur = stats[i].base_stat;
        }
        proof {
            assert(stat_seq.take(i + 1).drop_last() =~= stat_seq.take(i as int));
            assert(stat_seq.take(i + 1).last() == stat_seq[i as int]);
        }
    }
    proof {
        assert(stat_seq.take(stats@.len() as int) =~= stat_seq);
    }
    cur
}

/// The sanitized text of the first description entry in the target
/// language, or `Error::Language` when no entry carries that tag.
pub fn select_flavor_text(species: &SpeciesResponse) -> (r: Result<String, Error>)
    ensures
        r is Ok <==> has_language(species@, english()),
        r matches Ok(t) ==> exists|i: int|
            is_first_in_language(species@, english(), i) && t@ == sanitized(
                species@[i].flavor_text,
            ),
        !has_language(species@, english()) ==> r == Err::<String, Error>(Error::Language),
{
    let entries = &species.flavor_text_entries;
    for i in 0..entries.len()
        invariant
            entries@ == species.flavor_text_entries@,
            species@.len() == entries@.len(),
            forall|j: int| 0 <= j < i ==> species@[j].language != english(),
    {
        proof {
            assert(species@[i as int] == entries@[i as int]@);
        }
        if str_eq(entries[i].language.name.as_str(), "en") {
            let text = sanitize_text(entries[i].flavor_text.as_str());
            proof {
                assert(species@[i as int].language == english());
                assert(is_first_in_language(species@, english(), i as int));
                assert(text@ == sanitized(species@[i as int].flavor_text));
            }
            return Ok(text);
        }
    }
    Err(Error::Language)
}

/// What it means for a record to be the one assembled from a payload
/// bundle: identity, name, tags, physique and images carried over, the six
/// stats resolved by exact name match, and the description the sanitized
/// text of the first entry in the target language.
pub open spec fn assembled_from(pv: PayloadsView, rec: RecordView) -> bool {
    &&& rec.id == pv.pokemon.id
    &&& rec.name == pv.pokemon.name
    &&& rec.types == pv.pokemon.types
    &&& rec.height_decimeters == pv.pokemon.height
    &&& rec.weight_grams == pv.pokemon.weight * 100
    &&& rec.hp == stat_value(pv.pokemon.stats, "hp"@)
    &&& rec.attack == stat_value(pv.pokemon.stats, "attack"@)
    &&& rec.defense == stat_value(pv.pokemon.stats, "defense"@)
    &&& rec.special_attack == stat_value(pv.pokemon.stats, "special-attack"@)
    &&& rec.special_defense == stat_value(pv.pokemon.stats, "special-defense"@)
    &&& rec.speed == stat_value(pv.pokemon.stats, "speed"@)
    &&& rec.image == pv.image
    &&& rec.shiny_image == pv.shiny_image
    &&& exists|i: int|
        is_first_in_language(pv.species, english(), i) && rec.flavor_text == sanitized(
            pv.species[i].flavor_text,
        )
}

impl Pokemon {
    /// Builds the unified record from one completed payload bundle,
    /// all-or-nothing: the record is fully determined by the payloads, and
    /// a species document with no entry in the target language fails the
    /// whole assembly.
    pub fn assemble(payloads: RawPayloads) -> (r: Result<Pokemon, Error>)
        ensures
            r is Ok <==> has_language(payloads@.species, english()),
            r matches Ok(rec) ==> assembled_from(payloads@, rec@),
            !has_language(payloads@.species, english()) ==> r == Err::<Pokemon, Error>(
                Error::Language,
            ),
    {
        let flavor_text = match select_flavor_text(&payloads.species) {
            Ok(t) => t,
            Err(e) => {
                return Err(e);
            },
        };
        let types = extract_type_names(&payloads.pokemon.types);
        let rec = Pokemon {
            image: payloads.image,
            shiny_image: payloads.shiny_image,
            id: payloads.pokemon.id,
            name: payloads.pokemon.name.clone(),
            types,
            flavor_text,
            height_decimeters: payloads.pokemon.height,
            weight_grams: payloads.pokemon.weight as u32 * 100,
            hp: lookup_stat(&payloads.pokemon.stats, "hp"),
            attack: lookup_stat(&payloads.pokemon.stats, "attack"),
            defense: lookup_stat(&payloads.pokemon.stats, "defense"),
            special_attack: lookup_stat(&payloads.pokemon.stats, "special-attack"),
            special_defense: lookup_stat(&payloads.pokemon.stats, "special-defense"),
            speed: lookup_stat(&payloads.pokemon.stats, "speed"),
        };
        proof {
            assert(rec@.types =~= payloads@.pokemon.types);
        }
        Ok(rec)
    }
}

/// Law: sanitization preserves the length of a text, replaces exactly the
/// control characters with spaces, and keeps every other character
/// verbatim.
pub proof fn lemma_sanitized_shape(s: Seq<char>)
    ensures
        sanitized(s).len() == s.len(),
        forall|i: int| 0 <= i < s.len() && is_control_char(s[i]) ==> sanitized(s)[i] == ' ',
        forall|i: int| 0 <= i < s.len() && !is_control_char(s[i]) ==> sanitized(s)[i] == s[i],
{
}

/// Law: a record assembled from a payload bundle whose primary document
/// carries one or two category tags itself carries one or two, in the
/// source's order.
pub proof fn lemma_types_arity(pv: PayloadsView, rec: RecordView)
    requires
        assembled_from(pv, rec),
        1 <= pv.pokemon.types.len() <= 2,
    ensures
        1 <= rec.types.len() <= 2,
{
}

/// Law: when every description entry of the species document is
/// non-empty, the assembled record's description is non-empty too —
/// sanitization replaces characters but never drops one.
pub proof fn lemma_description_nonempty(pv: PayloadsView, rec: RecordView)
    requires
        assembled_from(pv, rec),
        forall|i: int| 0 <= i < pv.species.len() ==> pv.species[i].flavor_text.len() > 0,
    ensures
        rec.flavor_text.len() > 0,
{
}

/// Law: assembly is a function of the payloads alone — two records
/// assembled from the same bundle are identical, field for field.
pub proof fn lemma_assemble_deterministic(pv: PayloadsView, r1: RecordView, r2: RecordView)
    requires
        assembled_from(pv, r1),
        assembled_from(pv, r2),
    ensures
        r1 == r2,
{
    let i1 = choose|i: int|
        is_first_in_language(pv.species, english(), i) && r1.flavor_text == sanitized(
            pv.species[i].flavor_text,
        );
    let i2 = choose|i: int|
        is_first_in_language(pv.species, english(), i) && r2.flavor_text == sanitized(
            pv.species[i].flavor_text,
        );
    assert(i1 == i2) by {
        if i1 < i2 {
            assert(pv.species[i1].language != english());
        }
        if i2 < i1 {
            assert(pv.species[i2].language != english());
        }
    }
}

} // verus!
