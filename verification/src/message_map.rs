//! The ordered map that holds one turn of a conversation.

use indexmap::IndexMap;
use vstd::prelude::*;

verus! {

/// `indexmap::IndexMap`, a hash map that keeps its entries in insertion order.
#[verifier::external_type_specification]
#[verifier::external_body]
#[verifier::reject_recursive_types(K)]
#[verifier::reject_recursive_types(V)]
#[verifier::reject_recursive_types(S)]
pub struct ExIndexMap<K, V, S>(IndexMap<K, V, S>);

/// One entry of a turn: a key and its value, as text.
pub type Entry = (Seq<char>, Seq<char>);

/// The entries of a map, in the map's own order.
pub uninterp spec fn entries(m: IndexMap<String, String>) -> Seq<Entry>;

/// Some entry of `es` has the key `key`.
pub open spec fn has_key(es: Seq<Entry>, key: Seq<char>) -> bool {
    exists|i: int| 0 <= i < es.len() && (#[trigger] es[i]).0 == key
}

/// The entries after `key` has been given `value`: an entry that holds `key`
/// keeps its place and takes the value; otherwise the pair comes last.
pub open spec fn with_entry(es: Seq<Entry>, key: Seq<char>, value: Seq<char>) -> Seq<Entry> {
    if has_key(es, key) {
        let i = choose|i: int| 0 <= i < es.len() && (#[trigger] es[i]).0 == key;
        es.update(i, (key, value))
    } else {
        es.push((key, value))
    }
}

/// `IndexMap::new`: a map without entries.
#[verifier::external_body]
pub(crate) fn new_map() -> (m: IndexMap<String, String>)
    ensures
        entries(m) == Seq::<Entry>::empty(),
{
    IndexMap::new()
}

/// `IndexMap::insert`: a key already present keeps its place and has its value
/// replaced; a new key is appended behind all others.
#[verifier::external_body]
pub(crate) fn insert(m: &mut IndexMap<String, String>, key: String, value: String)
    ensures
        entries(*final(m)) == with_entry(entries(*old(m)), key@, value@),
{
    m.insert(key, value);
}

/// The two entries of a turn: the role, then the content.
pub open spec fn turn(role: Seq<char>, content: Seq<char>) -> Seq<Entry> {
    seq![("role"@, role), ("content"@, content)]
}

/// Builds the map of one turn.
pub fn turn_map(role: String, content: String) -> (m: IndexMap<String, String>)
    ensures
        entries(m) == turn(role@, content@),
{
    let mut m = new_map();
    insert(&mut m, "role".to_string(), role);
    insert(&mut m, "content".to_string(), content);
    proof {
        reveal_strlit("role");
        reveal_strlit("content");
        let e0 = Seq::<Entry>::empty();
        assert(!has_key(e0, "role"@));
        let e1 = e0.push(("role"@, role@));
        assert("role"@.len() != "content"@.len());
        assert(!has_key(e1, "content"@));
        assert(e1.push(("content"@, content@)) =~= turn(role@, content@));
    }
    m
}

} // verus!
