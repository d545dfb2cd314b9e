//! The environment of a task: variable names bound to values, held in an
//! [`im::HashMap`].

use vstd::prelude::*;

verus! {

#[verifier::external_type_specification]
#[verifier::external_body]
#[verifier::reject_recursive_types(K)]
#[verifier::reject_recursive_types(V)]
#[verifier::reject_recursive_types(S)]
pub struct ExHashMap<K, V, S>(im::HashMap<K, V, S>);

/// The bindings that an environment holds, each name and value as its characters.
pub uninterp spec fn env_bindings(env: im::HashMap<String, String>) -> Map<Seq<char>, Seq<char>>;

/// The characters of each name and value of a list of pairs.
pub open spec fn pair_views(pairs: Seq<(String, String)>) -> Seq<(Seq<char>, Seq<char>)> {
    pairs.map_values(|p: (String, String)| (p.0@, p.1@))
}

/// The bindings that result from inserting the pairs one after the other,
/// so that a later pair replaces an earlier one of the same name.
pub open spec fn bindings_of(pairs: Seq<(Seq<char>, Seq<char>)>) -> Map<Seq<char>, Seq<char>>
    decreases pairs.len(),
{
    if pairs.len() == 0 {
        Map::empty()
    } else {
        bindings_of(pairs.drop_last()).insert(pairs.last().0, pairs.last().1)
    }
}

/// No name occurs in two pairs.
pub open spec fn distinct_names(pairs: Seq<(Seq<char>, Seq<char>)>) -> bool {
    forall|i: int, j: int|
        0 <= i < j < pairs.len() ==> (#[trigger] pairs[i]).0 != (#[trigger] pairs[j]).0
}

/// Calls `im::HashMap::from` on a vector of pairs, which inserts them in
/// order into an empty map: the result holds the bindings of the pairs, a
/// later pair replacing an earlier one of the same name.
#[verifier::external_body]
pub(crate) fn env_from_pairs(pairs: Vec<(String, String)>) -> (env: im::HashMap<String, String>)
    ensures
        env_bindings(env) == bindings_of(pair_views(pairs@)),
{
    im::HashMap::from(pairs)
}

/// Walks `im::HashMap::iter` and clones each entry. Every binding comes out
/// once; the order is that of the map's hasher and is left open.
#[verifier::external_body]
pub(crate) fn env_to_pairs(env: &im::HashMap<String, String>) -> (pairs: Vec<(String, String)>)
    ensures
        distinct_names(pair_views(pairs@)),
        bindings_of(pair_views(pairs@)) == env_bindings(*env),
{
    env.iter().map(|(name, value)| (name.clone(), value.clone())).collect()
}

/// Calls `clone` of `im::HashMap`, which shares the entries: the copy holds
/// the same bindings.
#[verifier::external_body]
pub(crate) fn env_clone(env: &im::HashMap<String, String>) -> (copy: im::HashMap<String, String>)
    ensures
        env_bindings(copy) == env_bindings(*env),
{
    env.clone()
}

} // verus!
