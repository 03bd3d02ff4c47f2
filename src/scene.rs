use vstd::prelude::*;

verus! {

/// Whether some member of `hits` reports a hit.
pub open spec fn any_hit(hits: Seq<Option<i64>>) -> bool {
    exists|j: int| 0 <= j < hits.len() && hits[j] is Some
}

/// Member `i` reports a hit whose distance key no other hit undercuts, and no
/// earlier member reports a hit at the same distance.
pub open spec fn is_nearest(hits: Seq<Option<i64>>, i: int) -> bool {
    &&& 0 <= i < hits.len()
    &&& hits[i] is Some
    &&& forall|j: int| 0 <= j < hits.len() && hits[j] is Some ==> hits[i]->0 <= hits[j]->0
    &&& forall|j: int| 0 <= j < i && hits[j] is Some ==> hits[i]->0 < hits[j]->0
}

/// Picks, among the members' answers to one ray, the member whose hit is
/// nearest; on equal distances the first such member wins. `hits[i]` is the
/// distance key of member `i`'s hit, or `None` where that member is missed.
pub fn nearest_member(hits: &Vec<Option<i64>>) -> (r: Option<usize>)
    ensures
        r is None <==> !any_hit(hits@),
        r matches Some(i) ==> is_nearest(hits@, i as int),
{
    let mut best: Option<usize> = None;
    let mut best_key: i64 = 0;
    let mut i: usize = 0;
    while i < hits.len()
        invariant
            i <= hits@.len(),
            best is None <==> (forall|j: int| 0 <= j < i ==> hits@[j] is None),
            best matches Some(b) ==> {
                &&& b < i
                &&& hits@[b as int] == Some(best_key)
                &&& forall|j: int| 0 <= j < i && hits@[j] is Some ==> best_key <= hits@[j]->0
                &&& forall|j: int| 0 <= j < b && hits@[j] is Some ==> best_key < hits@[j]->0
            },
        decreases hits@.len() - i,
    {
        if let Some(k) = hits[i] {
            let closer = match best {
                None => true,
                Some(_) => k < best_key,
            };
            if closer {
                best = Some(i);
                best_key = k;
            }
        }
        i = i + 1;
    }
    best
}

} // verus!
