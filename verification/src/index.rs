//! Lists of record ids kept per account, in creation order, and pages of them.
use vstd::prelude::*;
use vstd::hash_map::HashMapWithView;
use crate::ledger::Address;

verus! {

/// The ids that `index` lists for `a`, none if it lists nothing.
pub open spec fn ids_of(index: Map<Address, Vec<u64>>, a: Address) -> Seq<u64> {
    if index.contains_key(a) {
        index[a]@
    } else {
        Seq::empty()
    }
}

/// The bounds `[start, end)` of a page of `limit` entries from `offset` in a
/// list of `total` entries, empty (`start == end`) when the offset is past
/// the end.
pub open spec fn page_end(total: int, offset: int, limit: int) -> int {
    if offset + limit < total {
        offset + limit
    } else {
        total
    }
}

/// `new_index` is `old_index` with `id` appended to the list of `a`.
pub open spec fn index_appended(
    old_index: Map<Address, Vec<u64>>,
    new_index: Map<Address, Vec<u64>>,
    a: Address,
    id: u64,
) -> bool {
    forall|b: Address|
        #[trigger] ids_of(new_index, b) == if b == a {
            ids_of(old_index, b).push(id)
        } else {
            ids_of(old_index, b)
        }
}

/// Appends `id` to the list of `a` in `index`.
pub fn append_to_index(index: &mut HashMapWithView<Address, Vec<u64>>, a: Address, id: u64)
    ensures
        index_appended(old(index)@, final(index)@, a, id),
{
    let mut ids = match index.remove(&a) {
        Some(v) => v,
        None => Vec::new(),
    };
    ids.push(id);
    index.insert(a, ids);
}

} // verus!
