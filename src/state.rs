//! The identifier cache: names of volumes mapped to the identifiers that the
//! remote manager assigned.
//!
//! The manager does not index volumes by name, so the cache is rebuilt from
//! its list on demand. A lookup or removal that misses is retried once after
//! a refresh; a listing always follows a refresh. The volumes that a refresh
//! is built from are fetched by the caller (one list, then one read per
//! identifier) and handed in whole, so that the mapping is replaced at once.
use crate::heketi::{Volume, VolumeId};
use vstd::prelude::*;

verus! {

/// The mapping that a sequence of volumes gives, name to identifier; where
/// two volumes share a name the later one wins.
pub open spec fn map_of(vs: Seq<Volume>) -> Map<Seq<char>, Seq<char>>
    decreases vs.len(),
{
    if vs.len() == 0 {
        Map::empty()
    } else {
        map_of(vs.drop_last()).insert(vs.last().name@, vs.last().id@)
    }
}

/// No two volumes of `vs` share a name.
pub open spec fn names_unique(vs: Seq<Volume>) -> bool {
    forall|i: int, j: int|
        0 <= i < j < vs.len() ==> #[trigger] vs[i].name@ != #[trigger] vs[j].name@
}

/// A volume's mount: where it is mounted, and by how many users.
#[derive(Clone, Debug)]
pub struct VolumeMount {
    pub path: String,
    count: u64,
}

impl VolumeMount {
    /// The mount count is positive.
    pub closed spec fn well_formed(&self) -> bool {
        self.count > 0
    }

    /// Where the volume is mounted.
    pub closed spec fn path_view(&self) -> Seq<char> {
        self.path@
    }

    /// The number of users of the mount.
    pub closed spec fn count_spec(&self) -> u64 {
        self.count
    }

    /// A mount at `path` with `count` users; none for a count of zero.
    pub fn new(path: String, count: u64) -> (r: Option<VolumeMount>)
        ensures
            count == 0 <==> r is None,
            r matches Some(m) ==> {
                &&& m.path_view() == path@
                &&& m.count_spec() == count
                &&& m.well_formed()
            },
    {
        if count == 0 {
            None
        } else {
            Some(VolumeMount { path, count })
        }
    }

    /// The number of users of the mount.
    pub fn count(&self) -> (r: u64)
        ensures
            r == self.count_spec(),
    {
        self.count
    }
}

/// What the cache knows of a volume.
#[derive(Clone, Debug)]
pub struct VolumeState {
    pub id: VolumeId,
    /// Never filled in: mounts are not tracked yet.
    pub mount: Option<VolumeMount>,
}

/// The listing `r` holds exactly the mapping `m`, once per name, with no
/// mount.
pub open spec fn listing_of(r: Seq<(String, VolumeState)>, m: Map<Seq<char>, Seq<char>>) -> bool {
    &&& forall|i: int|
        0 <= i < r.len() ==> {
            &&& m.contains_key((#[trigger] r[i]).0@)
            &&& m[r[i].0@] == r[i].1.id@
            &&& r[i].1.mount is None
        }
    &&& forall|k: Seq<char>| #[trigger]
        m.contains_key(k) ==> exists|i: int| 0 <= i < r.len() && (#[trigger] r[i]).0@ == k
    &&& forall|i: int, j: int|
        0 <= i < j < r.len() ==> (#[trigger] r[i]).0@ != (#[trigger] r[j]).0@
}

/// The entry of index `i` is in the mapping.
proof fn lemma_map_of_index(vs: Seq<Volume>, i: int)
    requires
        names_unique(vs),
        0 <= i < vs.len(),
    ensures
        map_of(vs).contains_key(vs[i].name@),
        map_of(vs)[vs[i].name@] == vs[i].id@,
    decreases vs.len(),
{
    if i < vs.len() - 1 {
        let p = vs.drop_last();
        assert(names_unique(p));
        assert(p[i] == vs[i]);
        lemma_map_of_index(p, i);
        assert(vs.last().name@ != vs[i].name@);
    }
}

/// A name that no entry has is not in the mapping.
proof fn lemma_map_of_absent(vs: Seq<Volume>, k: Seq<char>)
    requires
        forall|i: int| 0 <= i < vs.len() ==> (#[trigger] vs[i]).name@ != k,
    ensures
        !map_of(vs).contains_key(k),
    decreases vs.len(),
{
    if vs.len() > 0 {
        let p = vs.drop_last();
        assert forall|i: int| 0 <= i < p.len() implies (#[trigger] p[i]).name@ != k by {
            assert(p[i] == vs[i]);
        }
        lemma_map_of_absent(p, k);
    }
}

/// A name in the mapping belongs to some entry.
proof fn lemma_map_of_present(vs: Seq<Volume>, k: Seq<char>)
    requires
        map_of(vs).contains_key(k),
    ensures
        exists|i: int| 0 <= i < vs.len() && (#[trigger] vs[i]).name@ == k,
{
    if forall|i: int| 0 <= i < vs.len() ==> (#[trigger] vs[i]).name@ != k {
        lemma_map_of_absent(vs, k);
    }
}

/// Replacing the identifier of the entry at `i` replaces it in the mapping.
proof fn lemma_map_of_update(before: Seq<Volume>, i: int, v: Volume)
    requires
        names_unique(before),
        0 <= i < before.len(),
        before[i].name@ == v.name@,
    ensures
        names_unique(before.update(i, v)),
        map_of(before.update(i, v)) == map_of(before).insert(v.name@, v.id@),
{
    let after = before.update(i, v);
    let expected = map_of(before).insert(v.name@, v.id@);
    assert forall|a: int, b: int| 0 <= a < b < after.len() implies #[trigger] after[a].name@
        != #[trigger] after[b].name@ by {
        assert(before[a].name@ != before[b].name@);
    }
    assert forall|k: Seq<char>| #[trigger]
        map_of(after).contains_key(k) <==> expected.contains_key(k) by {
        if map_of(after).contains_key(k) {
            lemma_map_of_present(after, k);
            let j = choose|j: int| 0 <= j < after.len() && (#[trigger] after[j]).name@ == k;
            if j != i {
                lemma_map_of_index(before, j);
            }
        }
        if map_of(before).contains_key(k) {
            lemma_map_of_present(before, k);
            let j = choose|j: int| 0 <= j < before.len() && (#[trigger] before[j]).name@ == k;
            lemma_map_of_index(after, j);
        }
        if k == v.name@ {
            lemma_map_of_index(after, i);
        }
    }
    assert forall|k: Seq<char>| #[trigger]
        map_of(after).contains_key(k) implies map_of(after)[k] == expected[k] by {
        lemma_map_of_present(after, k);
        let j = choose|j: int| 0 <= j < after.len() && (#[trigger] after[j]).name@ == k;
        lemma_map_of_index(after, j);
        if j != i {
            lemma_map_of_index(before, j);
        }
    }
    assert(map_of(after) =~= expected);
}

/// Appending an entry under a new name keeps the names unique.
proof fn lemma_map_of_push(before: Seq<Volume>, v: Volume)
    requires
        names_unique(before),
        forall|i: int| 0 <= i < before.len() ==> (#[trigger] before[i]).name@ != v.name@,
    ensures
        names_unique(before.push(v)),
        map_of(before.push(v)) == map_of(before).insert(v.name@, v.id@),
{
    let after = before.push(v);
    assert(after.drop_last() =~= before);
    assert forall|a: int, b: int| 0 <= a < b < after.len() implies #[trigger] after[a].name@
        != #[trigger] after[b].name@ by {
        if b < before.len() {
            assert(before[a].name@ != before[b].name@);
        } else {
            assert(before[a].name@ != v.name@);
        }
    }
}

/// Removing the entry at `i` removes its name from the mapping.
proof fn lemma_map_of_remove(before: Seq<Volume>, i: int)
    requires
        names_unique(before),
        0 <= i < before.len(),
    ensures
        names_unique(before.remove(i)),
        map_of(before.remove(i)) == map_of(before).remove(before[i].name@),
{
    let after = before.remove(i);
    let name = before[i].name@;
    let expected = map_of(before).remove(name);
    assert forall|a: int, b: int| 0 <= a < b < after.len() implies #[trigger] after[a].name@
        != #[trigger] after[b].name@ by {
        if b < i {
            assert(before[a].name@ != before[b].name@);
        } else if a < i {
            assert(before[a].name@ != before[b + 1].name@);
        } else {
            assert(before[a + 1].name@ != before[b + 1].name@);
        }
    }
    assert forall|k: Seq<char>| #[trigger]
        map_of(after).contains_key(k) <==> expected.contains_key(k) by {
        if map_of(after).contains_key(k) {
            lemma_map_of_present(after, k);
            let j = choose|j: int| 0 <= j < after.len() && (#[trigger] after[j]).name@ == k;
            if j < i {
                lemma_map_of_index(before, j);
                assert(before[j].name@ != name);
            } else {
                lemma_map_of_index(before, j + 1);
                assert(before[j + 1].name@ != name);
            }
        }
        if expected.contains_key(k) {
            lemma_map_of_present(before, k);
            let j = choose|j: int| 0 <= j < before.len() && (#[trigger] before[j]).name@ == k;
            if j < i {
                lemma_map_of_index(after, j);
            } else {
                assert(j != i);
                lemma_map_of_index(after, j - 1);
            }
        }
    }
    assert forall|k: Seq<char>| #[trigger]
        map_of(after).contains_key(k) implies map_of(after)[k] == expected[k] by {
        lemma_map_of_present(after, k);
        let j = choose|j: int| 0 <= j < after.len() && (#[trigger] after[j]).name@ == k;
        lemma_map_of_index(after, j);
        if j < i {
            lemma_map_of_index(before, j);
        } else {
            lemma_map_of_index(before, j + 1);
        }
    }
    assert(map_of(after) =~= expected);
}

/// After a refresh from `volumes` whose names are distinct, the mapping
/// holds every volume under its name with its identifier, and nothing else.
pub proof fn lemma_refresh_consistent(volumes: Seq<Volume>)
    requires
        names_unique(volumes),
    ensures
        forall|i: int|
            0 <= i < volumes.len() ==> {
                &&& map_of(volumes).contains_key((#[trigger] volumes[i]).name@)
                &&& map_of(volumes)[volumes[i].name@] == volumes[i].id@
            },
        forall|k: Seq<char>| #[trigger]
            map_of(volumes).contains_key(k) ==> exists|i: int|
                0 <= i < volumes.len() && (#[trigger] volumes[i]).name@ == k,
{
    assert forall|i: int| 0 <= i < volumes.len() implies {
        &&& map_of(volumes).contains_key((#[trigger] volumes[i]).name@)
        &&& map_of(volumes)[volumes[i].name@] == volumes[i].id@
    } by {
        lemma_map_of_index(volumes, i);
    }
    assert forall|k: Seq<char>| #[trigger] map_of(volumes).contains_key(k) implies exists|i: int|
        0 <= i < volumes.len() && (#[trigger] volumes[i]).name@ == k by {
        lemma_map_of_present(volumes, k);
    }
}

/// After a refresh from `volumes` whose names are distinct, a listing of the
/// cache holds, for each of them, an entry with its name and identifier.
pub proof fn lemma_list_after_refresh(volumes: Seq<Volume>, listing: Seq<(String, VolumeState)>)
    requires
        names_unique(volumes),
        listing_of(listing, map_of(volumes)),
    ensures
        forall|i: int|
            0 <= i < volumes.len() ==> exists|j: int|
                0 <= j < listing.len()
                    && (#[trigger] listing[j]).0@ == (#[trigger] volumes[i]).name@
                    && listing[j].1.id@ == volumes[i].id@,
{
    lemma_refresh_consistent(volumes);
    assert forall|i: int| 0 <= i < volumes.len() implies exists|j: int|
        0 <= j < listing.len() && (#[trigger] listing[j]).0@ == (#[trigger] volumes[i]).name@
            && listing[j].1.id@ == volumes[i].id@ by {
        let k = volumes[i].name@;
        assert(map_of(volumes).contains_key(k));
        let j = choose|j: int| 0 <= j < listing.len() && (#[trigger] listing[j]).0@ == k;
        assert(listing[j].1.id@ == volumes[i].id@);
    }
}

/// The cache of volume identifiers by name.
pub struct State {
    volume_ids: Vec<Volume>,
}

impl View for State {
    type V = Map<Seq<char>, Seq<char>>;

    closed spec fn view(&self) -> Map<Seq<char>, Seq<char>> {
        map_of(self.volume_ids@)
    }
}

impl State {
    /// Each name is held once.
    pub closed spec fn well_formed(&self) -> bool {
        names_unique(self.volume_ids@)
    }

    /// An empty cache.
    pub fn new() -> (r: State)
        ensures
            r.well_formed(),
            r@ == Map::<Seq<char>, Seq<char>>::empty(),
    {
        State { volume_ids: Vec::new() }
    }

    /// The index of the entry named `name`, if any.
    fn find(&self, name: &str) -> (r: Option<usize>)
        requires
            self.well_formed(),
        ensures
            r matches Some(i) ==> i < self.volume_ids@.len() && self.volume_ids@[i as int].name@
                == name@,
            r is None ==> forall|i: int|
                0 <= i < self.volume_ids@.len() ==> (#[trigger] self.volume_ids@[i]).name@
                    != name@,
    {
        let key = name.to_owned();
        let mut i: usize = 0;
        while i < self.volume_ids.len()
            invariant
                i <= self.volume_ids@.len(),
                key@ == name@,
                forall|j: int| 0 <= j < i ==> (#[trigger] self.volume_ids@[j]).name@ != name@,
            decreases self.volume_ids@.len() - i,
        {
            if self.volume_ids[i].name == key {
                return Some(i);
            }
            i = i + 1;
        }
        None
    }

    /// The identifier cached under `name`, without a refresh.
    pub fn get_id(&self, name: &str) -> (r: Option<VolumeId>)
        requires
            self.well_formed(),
        ensures
            r is Some <==> self@.contains_key(name@),
            r matches Some(id) ==> id@ == self@[name@],
    {
        match self.find(name) {
            Some(i) => {
                proof {
                    lemma_map_of_index(self.volume_ids@, i as int);
                }
                Some(self.volume_ids[i].id.duplicate())
            },
            None => {
                proof {
                    lemma_map_of_absent(self.volume_ids@, name@);
                }
                None
            },
        }
    }

    /// What the cache holds of `name`, without a refresh.
    pub fn get(&self, name: &str) -> (r: Option<VolumeState>)
        requires
            self.well_formed(),
        ensures
            r is Some <==> self@.contains_key(name@),
            r matches Some(st) ==> st.id@ == self@[name@] && st.mount is None,
    {
        match self.get_id(name) {
            Some(id) => Some(VolumeState { id, mount: None }),
            None => None,
        }
    }

    /// Records `id` under `name`, replacing what was there.
    pub fn set_id(&mut self, name: String, id: VolumeId)
        requires
            old(self).well_formed(),
        ensures
            final(self).well_formed(),
            final(self)@ == old(self)@.insert(name@, id@),
    {
        let ghost before = self.volume_ids@;
        let v = Volume { id, name };
        match self.find(v.name.as_str()) {
            Some(i) => {
                self.volume_ids.set(i, v);
                proof {
                    lemma_map_of_update(before, i as int, v);
                }
            },
            None => {
                self.volume_ids.push(v);
                proof {
                    lemma_map_of_push(before, v);
                }
            },
        }
    }

    /// Removes and returns the identifier cached under `name`, without a
    /// refresh.
    pub fn pop_id(&mut self, name: &str) -> (r: Option<VolumeId>)
        requires
            old(self).well_formed(),
        ensures
            final(self).well_formed(),
            r is Some <==> old(self)@.contains_key(name@),
            r matches Some(id) ==> id@ == old(self)@[name@],
            final(self)@ == old(self)@.remove(name@),
    {
        let ghost before = self.volume_ids@;
        match self.find(name) {
            Some(i) => {
                proof {
                    lemma_map_of_index(before, i as int);
                }
                let v = self.volume_ids.remove(i);
                proof {
                    lemma_map_of_remove(before, i as int);
                }
                Some(v.id)
            },
            None => {
                proof {
                    lemma_map_of_absent(before, name@);
                    assert(map_of(before).remove(name@) =~= map_of(before));
                }
                None
            },
        }
    }
    /// Replaces the whole mapping by the one that `volumes` gives: the
    /// volumes that the manager reported, read one by one after its list.
    pub fn refresh(&mut self, volumes: &Vec<Volume>)
        ensures
            final(self).well_formed(),
            final(self)@ == map_of(volumes@),
    {
        let mut fresh = State::new();
        let mut i: usize = 0;
        while i < volumes.len()
            invariant
                i <= volumes@.len(),
                fresh.well_formed(),
                fresh@ == map_of(volumes@.subrange(0, i as int)),
            decreases volumes@.len() - i,
        {
            let v = &volumes[i];
            fresh.set_id(v.name.clone(), v.id.duplicate());
            assert(volumes@.subrange(0, i + 1).drop_last() =~= volumes@.subrange(0, i as int));
            i = i + 1;
        }
        assert(volumes@.subrange(0, i as int) =~= volumes@);
        *self = fresh;
    }

    /// Every cached name with what the cache holds of it, without a refresh.
    pub fn list(&self) -> (r: Vec<(String, VolumeState)>)
        requires
            self.well_formed(),
        ensures
            listing_of(r@, self@),
    {
        let mut r: Vec<(String, VolumeState)> = Vec::new();
        let mut i: usize = 0;
        while i < self.volume_ids.len()
            invariant
                i <= self.volume_ids@.len(),
                r@.len() == i,
                forall|j: int|
                    0 <= j < i ==> {
                        &&& (#[trigger] r@[j]).0@ == self.volume_ids@[j].name@
                        &&& r@[j].1.id@ == self.volume_ids@[j].id@
                        &&& r@[j].1.mount is None
                    },
            decreases self.volume_ids@.len() - i,
        {
            let v = &self.volume_ids[i];
            r.push((v.name.clone(), VolumeState { id: v.id.duplicate(), mount: None }));
            i = i + 1;
        }
        proof {
            let vs = self.volume_ids@;
            assert forall|j: int| 0 <= j < r@.len() implies {
                &&& self@.contains_key((#[trigger] r@[j]).0@)
                &&& self@[r@[j].0@] == r@[j].1.id@
                &&& r@[j].1.mount is None
            } by {
                lemma_map_of_index(vs, j);
            }
            assert forall|k: Seq<char>| #[trigger] self@.contains_key(k) implies exists|j: int|
                0 <= j < r@.len() && (#[trigger] r@[j]).0@ == k by {
                lemma_map_of_present(vs, k);
                let j = choose|j: int| 0 <= j < vs.len() && (#[trigger] vs[j]).name@ == k;
                assert(r@[j].0@ == k);
            }
            assert forall|a: int, b: int| 0 <= a < b < r@.len() implies (#[trigger] r@[a]).0@
                != (#[trigger] r@[b]).0@ by {
                assert(vs[a].name@ != vs[b].name@);
            }
        }
        r
    }

    /// The identifier of `name` after a refresh from `volumes`: the second
    /// try of a lookup that missed.
    pub fn get_id_refreshed(&mut self, name: &str, volumes: &Vec<Volume>) -> (r: Option<VolumeId>)
        ensures
            final(self).well_formed(),
            final(self)@ == map_of(volumes@),
            r is Some <==> map_of(volumes@).contains_key(name@),
            r matches Some(id) ==> id@ == map_of(volumes@)[name@],
    {
        self.refresh(volumes);
        self.get_id(name)
    }

    /// What the cache holds of `name` after a refresh from `volumes`.
    pub fn get_refreshed(&mut self, name: &str, volumes: &Vec<Volume>) -> (r: Option<VolumeState>)
        ensures
            final(self).well_formed(),
            final(self)@ == map_of(volumes@),
            r is Some <==> map_of(volumes@).contains_key(name@),
            r matches Some(st) ==> st.id@ == map_of(volumes@)[name@] && st.mount is None,
    {
        self.refresh(volumes);
        self.get(name)
    }

    /// Removes and returns the identifier of `name` after a refresh from
    /// `volumes`: the second try of a removal that missed.
    pub fn pop_id_refreshed(&mut self, name: &str, volumes: &Vec<Volume>) -> (r: Option<VolumeId>)
        ensures
            final(self).well_formed(),
            final(self)@ == map_of(volumes@).remove(name@),
            r is Some <==> map_of(volumes@).contains_key(name@),
            r matches Some(id) ==> id@ == map_of(volumes@)[name@],
    {
        self.refresh(volumes);
        self.pop_id(name)
    }

    /// Every name with its volume, after a refresh from `volumes`.
    pub fn list_refreshed(&mut self, volumes: &Vec<Volume>) -> (r: Vec<(String, VolumeState)>)
        ensures
            final(self).well_formed(),
            final(self)@ == map_of(volumes@),
            listing_of(r@, map_of(volumes@)),
    {
        self.refresh(volumes);
        self.list()
    }
}

} // verus!
