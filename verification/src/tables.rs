//! The two name tables of a filter chain, kept in hash maps that use the `fx`
//! hasher. Verus takes the contracts in this file on trust.

use crate::semantics::{Semantic, TextureSemantics, UniformSemantic};
use rustc_hash::FxHashMap;
use vstd::prelude::*;

verus! {

/// `rustc_hash::FxHasher`: the state of the `fx` hash, opaque here.
#[verifier::external_type_specification]
#[verifier::external_body]
pub struct ExFxHasher(rustc_hash::FxHasher);

/// `core::hash::BuildHasherDefault`: makes hashers through `Default`, opaque here.
#[verifier::external_type_specification]
#[verifier::external_body]
#[verifier::reject_recursive_types(H)]
pub struct ExBuildHasherDefault<H>(core::hash::BuildHasherDefault<H>);

/// What a table of uniform names holds: each name, as its characters, with
/// the semantic it was last given.
pub uninterp spec fn uniform_entries(table: FxHashMap<String, UniformSemantic>) -> Map<
    Seq<char>,
    UniformSemantic,
>;

/// What a table of texture names holds: each name, as its characters, with
/// the semantic it was last given.
pub uninterp spec fn texture_entries(table: FxHashMap<String, Semantic<TextureSemantics>>) -> Map<
    Seq<char>,
    Semantic<TextureSemantics>,
>;

/// `FxHashMap::default`: the claim is that a new table holds no name.
#[verifier::external_body]
pub(crate) fn new_uniform_table() -> (table: FxHashMap<String, UniformSemantic>)
    ensures
        uniform_entries(table) == (Map::<Seq<char>, UniformSemantic>::empty()),
{
    FxHashMap::default()
}

/// `HashMap::insert`: the claim is that afterwards the table maps the
/// characters of `name` to `semantic`, whether or not the name was there
/// before, and holds every other name as it did.
#[verifier::external_body]
pub(crate) fn insert_uniform(
    table: &mut FxHashMap<String, UniformSemantic>,
    name: String,
    semantic: UniformSemantic,
)
    ensures
        uniform_entries(*final(table)) == uniform_entries(*old(table)).insert(name@, semantic),
{
    table.insert(name, semantic);
}

/// `HashMap::get`: the claim is that the result is the semantic held under
/// the characters of `name`, and `None` exactly when the table holds no such
/// name.
#[verifier::external_body]
pub(crate) fn get_uniform<'a>(
    table: &'a FxHashMap<String, UniformSemantic>,
    name: &str,
) -> (found: Option<&'a UniformSemantic>)
    ensures
        (found is Some) == uniform_entries(*table).contains_key(name@),
        found is Some ==> *found->0 == uniform_entries(*table)[name@],
{
    table.get(name)
}

/// `FxHashMap::default`: the claim is that a new table holds no name.
#[verifier::external_body]
pub(crate) fn new_texture_table() -> (table: FxHashMap<String, Semantic<TextureSemantics>>)
    ensures
        texture_entries(table) == (Map::<Seq<char>, Semantic<TextureSemantics>>::empty()),
{
    FxHashMap::default()
}

/// `HashMap::insert`: the claim is that afterwards the table maps the
/// characters of `name` to `semantic`, whether or not the name was there
/// before, and holds every other name as it did.
#[verifier::external_body]
pub(crate) fn insert_texture(
    table: &mut FxHashMap<String, Semantic<TextureSemantics>>,
    name: String,
    semantic: Semantic<TextureSemantics>,
)
    ensures
        texture_entries(*final(table)) == texture_entries(*old(table)).insert(name@, semantic),
{
    table.insert(name, semantic);
}

/// `HashMap::get`: the claim is that the result is the semantic held under
/// the characters of `name`, and `None` exactly when the table holds no such
/// name.
#[verifier::external_body]
pub(crate) fn get_texture<'a>(
    table: &'a FxHashMap<String, Semantic<TextureSemantics>>,
    name: &str,
) -> (found: Option<&'a Semantic<TextureSemantics>>)
    ensures
        (found is Some) == texture_entries(*table).contains_key(name@),
        found is Some ==> *found->0 == texture_entries(*table)[name@],
{
    table.get(name)
}

} // verus!
