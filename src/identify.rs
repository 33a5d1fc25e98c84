//! Registry snapshots and the before/after comparison that names the torrent
//! a submission created.

use vstd::prelude::*;

verus! {

/// The distinct identifiers that a list of identifiers holds.
pub open spec fn id_set(ids: Seq<String>) -> Set<Seq<char>> {
    Set::new(|x: Seq<char>| exists|i: int| 0 <= i < ids.len() && #[trigger] ids[i]@ == x)
}

/// The identifiers that appeared between two snapshots.
pub open spec fn new_ids(before: Set<Seq<char>>, after: Set<Seq<char>>) -> Set<Seq<char>> {
    after.difference(before)
}

/// The new torrent's identifier: the one identifier that appeared, when
/// exactly one did.
pub open spec fn identify_spec(before: Set<Seq<char>>, after: Set<Seq<char>>) -> Option<Seq<char>> {
    if exists|x: Seq<char>| new_ids(before, after) == set![x] {
        Some(choose|x: Seq<char>| new_ids(before, after) == set![x])
    } else {
        None
    }
}

/// What an optional string holds, as characters.
pub open spec fn opt_view(o: Option<String>) -> Option<Seq<char>> {
    match o {
        Some(s) => Some(s@),
        None => None,
    }
}

/// Whether `id` is among `ids`.
pub fn contains_id(ids: &Vec<String>, id: &String) -> (r: bool)
    ensures
        r == id_set(ids@).contains(id@),
{
    let mut i: usize = 0;
    while i < ids.len()
        invariant
            i <= ids.len(),
            forall|j: int| 0 <= j < i ==> ids@[j]@ != id@,
        decreases ids.len() - i,
    {
        if ids[i] == *id {
            assert(ids@[i as int]@ == id@);
            return true;
        }
        i = i + 1;
    }
    false
}

/// The identifier of the torrent that appeared between the snapshot `before`
/// and the snapshot `after`, when exactly one did; `None` when none or several
/// appeared.
pub fn identify(before: &Vec<String>, after: &Vec<String>) -> (r: Option<String>)
    ensures
        opt_view(r) == identify_spec(id_set(before@), id_set(after@)),
{
    let ghost b = id_set(before@);
    let ghost d = new_ids(b, id_set(after@));
    let mut found: Option<String> = None;
    let mut i: usize = 0;
    while i < after.len()
        invariant
            i <= after.len(),
            b == id_set(before@),
            d == new_ids(b, id_set(after@)),
            found is None ==> forall|j: int| 0 <= j < i ==> b.contains(#[trigger] after@[j]@),
            found matches Some(c) ==> {
                &&& d.contains(c@)
                &&& forall|j: int| 0 <= j < i ==> b.contains(#[trigger] after@[j]@) || after@[j]@ == c@
            },
        decreases after.len() - i,
    {
        let is_old = contains_id(before, &after[i]);
        if !is_old {
            assert(id_set(after@).contains(after@[i as int]@));
            match &found {
                None => {
                    found = Some(after[i].clone());
                },
                Some(c) => {
                    if *c != after[i] {
                        proof {
                            let y = after@[i as int]@;
                            assert(d.contains(y));
                            assert(!(exists|x: Seq<char>| d == set![x])) by {
                                if exists|x: Seq<char>| d == set![x] {
                                    let x = choose|x: Seq<char>| d == set![x];
                                    assert(set![x].contains(c@));
                                    assert(set![x].contains(y));
                                }
                            }
                        }
                        return None;
                    }
                },
            }
        }
        i = i + 1;
    }
    proof {
        match &found {
            None => {
                assert(d =~= Set::empty());
                assert(!(exists|x: Seq<char>| d == set![x])) by {
                    if exists|x: Seq<char>| d == set![x] {
                        let x = choose|x: Seq<char>| d == set![x];
                        assert(set![x].contains(x));
                    }
                }
            },
            Some(c) => {
                assert(d =~= set![c@]) by {
                    assert forall|x: Seq<char>| d.contains(x) implies x == c@ by {
                        let j = choose|j: int| 0 <= j < after@.len() && #[trigger] after@[j]@ == x;
                        assert(b.contains(after@[j]@) || after@[j]@ == c@);
                    }
                }
                let y = choose|x: Seq<char>| d == set![x];
                assert(set![y].contains(y));
            },
        }
    }
    found
}

/// Adding one identifier that the earlier snapshot lacks is identified as
/// exactly that identifier.
pub proof fn lemma_identify_single_addition(a: Set<Seq<char>>, x: Seq<char>)
    requires
        !a.contains(x),
    ensures
        identify_spec(a, a.insert(x)) == Some(x),
{
    assert(new_ids(a, a.insert(x)) =~= set![x]);
    let y = choose|y: Seq<char>| new_ids(a, a.insert(x)) == set![y];
    assert(set![y].contains(y));
}

/// When the number of new identifiers is anything but one, nothing is
/// identified.
pub proof fn lemma_identify_not_single(a: Set<Seq<char>>, b: Set<Seq<char>>)
    requires
        b.difference(a).len() != 1,
    ensures
        identify_spec(a, b) is None,
{
    if exists|x: Seq<char>| new_ids(a, b) == set![x] {
        let x = choose|x: Seq<char>| new_ids(a, b) == set![x];
        assert(set![x].len() == 1);
    }
}

} // verus!
