use std::collections::HashMap;
use vstd::prelude::*;
use vstd::std_specs::hash::spec_hash_map_iter;
use vstd::std_specs::iter::IteratorSpec;

verus! {

broadcast use vstd::std_specs::hash::group_hash_axioms;

/// How a record is looked up in a mod: by form ID or by editor ID.
pub enum RecordOption<'a> {
    FormID(u32),
    EditorID(&'a str),
}

/// The two arguments of the native lookup: a form ID, and an editor ID where
/// the lookup goes by one (its form ID is then zero).
pub fn lookup_key<'a>(id: &RecordOption<'a>) -> (r: (u32, Option<&'a str>))
    ensures
        match *id {
            RecordOption::FormID(f) => r.0 == f && r.1.is_none(),
            RecordOption::EditorID(e) => r.0 == 0 && r.1 == Some(e),
        },
{
    match id {
        RecordOption::FormID(f) => (*f, None),
        RecordOption::EditorID(e) => (0, Some(*e)),
    }
}

/// A form-ID remapping laid out as the native library takes it: two arrays of
/// equal length, the form ID at each place of `old_ids` becoming the one at the
/// same place of `new_ids`.
pub struct FormIdPairs {
    pub old_ids: Vec<u32>,
    pub new_ids: Vec<u32>,
}

/// Whether `old_ids` and `new_ids` lay out `map`: each key once, beside its
/// value, and nothing else.
pub open spec fn lays_out(old_ids: Seq<u32>, new_ids: Seq<u32>, map: Map<u32, u32>) -> bool {
    &&& old_ids.len() == new_ids.len()
    &&& old_ids.no_duplicates()
    &&& old_ids.to_set() == map.dom()
    &&& forall|i: int| 0 <= i < old_ids.len() ==> map[old_ids[i]] == #[trigger] new_ids[i]
}

/// The arrays that hand `formid_map` to the native library. Their order is the
/// order in which the map is walked.
pub fn formid_pairs(formid_map: &HashMap<u32, u32>) -> (r: FormIdPairs)
    ensures
        lays_out(r.old_ids@, r.new_ids@, formid_map@),
        r.old_ids@.len() == formid_map@.len(),
{
    let mut old_ids: Vec<u32> = Vec::new();
    let mut new_ids: Vec<u32> = Vec::new();
    let ghost walk = spec_hash_map_iter(formid_map).remaining();
    for (key, val) in it: formid_map.iter()
        invariant
            it.seq() == walk,
            walk == spec_hash_map_iter(formid_map).remaining(),
            old_ids.len() == it.index(),
            new_ids.len() == it.index(),
            forall|i: int| 0 <= i < it.index() ==> old_ids@[i] == *it.seq()[i].0,
            forall|i: int| 0 <= i < it.index() ==> new_ids@[i] == *it.seq()[i].1,
    {
        old_ids.push(*key);
        new_ids.push(*val);
    }
    proof {
        let m = formid_map@;
        assert(walk.len() == m.dom().len());
        assert forall|k: u32| m.contains_key(k) implies old_ids@.contains(k) by {
            assert(walk.contains((&k, &m[k])));
            let i = choose|i: int| 0 <= i < walk.len() && walk[i] == (&k, &m[k]);
            assert(old_ids@[i] == k);
        }
        assert forall|i: int, j: int|
            0 <= i < old_ids.len() && 0 <= j < old_ids.len() && i != j implies old_ids@[i]
            != old_ids@[j] by {
            assert(walk.no_duplicates());
            if old_ids@[i] == old_ids@[j] {
                assert(m[*walk[i].0] == *walk[i].1);
                assert(m[*walk[j].0] == *walk[j].1);
                assert(walk[i] == walk[j]);
            }
        }
        assert(old_ids@.to_set() =~= m.dom()) by {
            assert forall|k: u32| old_ids@.to_set().contains(k) implies m.dom().contains(k) by {
                let i = choose|i: int| 0 <= i < old_ids.len() && old_ids@[i] == k;
                assert(m.contains_key(*walk[i].0));
            }
        }
        assert forall|i: int| 0 <= i < old_ids.len() implies m[old_ids@[i]] == #[trigger] new_ids@[i] by {
            assert(m.contains_key(*walk[i].0) && m[*walk[i].0] == *walk[i].1);
        }
        old_ids@.unique_seq_to_set();
    }
    FormIdPairs { old_ids, new_ids }
}

} // verus!
