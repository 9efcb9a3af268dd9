//! The identity index: a persisted map from the fingerprint of a
//! username/email pair to the name of the profile that owns the pair.
use crate::codec::{decode_index, encode_index, index_of_bytes};
use crate::profile::{Profile, ProfileError};
use std::collections::hash_map::DefaultHasher;
use std::collections::HashMap;
use std::hash::Hasher;
use vstd::prelude::*;
use vstd::std_specs::hash::DefaultHasherAdditionalSpecFns;
use vstd::utf8::encode_utf8;

verus! {

/// Fingerprint of a username/email pair: std's default hasher fed the UTF-8
/// bytes of each string followed by a `0xff` byte, as `Hash` for `str` does.
pub open spec fn pair_key(username: Seq<char>, email: Seq<char>) -> u64 {
    DefaultHasher::spec_finish(
        seq![encode_utf8(username), seq![0xffu8], encode_utf8(email), seq![0xffu8]],
    )
}

/// The entries of `index` whose profile is not `name`.
pub open spec fn without_name(index: Map<u64, Seq<char>>, name: Seq<char>) -> Map<u64, Seq<char>> {
    Map::new(|k: u64| index.contains_key(k) && index[k] != name, |k: u64| index[k])
}

/// Fingerprint of a username/email pair.
pub fn key(username: &str, email: &str) -> (r: u64)
    ensures
        r == pair_key(username@, email@),
{
    let sep: [u8; 1] = [0xff];
    let mut hasher = DefaultHasher::new();
    hasher.write(username.as_bytes());
    hasher.write(sep.as_slice());
    hasher.write(email.as_bytes());
    hasher.write(sep.as_slice());
    proof {
        assert(sep@ == seq![0xffu8]);
        assert(hasher@ =~= seq![encode_utf8(username@), seq![0xffu8], encode_utf8(email@), seq![0xffu8]]);
    }
    hasher.finish()
}

/// The identity index, one entry per fingerprint.
pub struct Index {
    entries: HashMap<u64, String>,
}

impl View for Index {
    type V = Map<u64, Seq<char>>;

    closed spec fn view(&self) -> Map<u64, Seq<char>> {
        self.entries@.map_values(|v: String| v@)
    }
}

impl Index {
    /// The empty index, as when no index file exists yet.
    pub fn new() -> (r: Index)
        ensures
            r@ == Map::<u64, Seq<char>>::empty(),
    {
        let r = Index { entries: HashMap::new() };
        assert(r@ =~= Map::<u64, Seq<char>>::empty());
        r
    }

    /// The profile that owns the pair `(username, email)`, if any.
    pub fn get(&self, username: &str, email: &str) -> (r: Option<String>)
        ensures
            r is Some <==> self@.contains_key(pair_key(username@, email@)),
            r matches Some(n) ==> n@ == self@[pair_key(username@, email@)],
    {
        let k = key(username, email);
        match self.entries.get(&k) {
            Some(n) => Some(n.clone()),
            None => None,
        }
    }

    /// Reads the index from the bytes of its file.
    pub fn from_bytes(bytes: &[u8]) -> (r: Result<Index, ProfileError>)
        ensures
            r is Ok <==> index_of_bytes(bytes@) is Some,
            r matches Ok(i) ==> index_of_bytes(bytes@) == Some(i@),
            r matches Err(e) ==> e is Serde,
    {
        match decode_index(bytes) {
            Ok(entries) => Ok(Index { entries }),
            Err(e) => Err(ProfileError::Serde(e)),
        }
    }

    /// The bytes of the index file.
    pub fn to_bytes(&self) -> (r: Result<Vec<u8>, ProfileError>)
        ensures
            r matches Ok(b) && index_of_bytes(b@) == Some(self@),
    {
        match encode_index(&self.entries) {
            Ok(b) => Ok(b),
            Err(e) => Err(ProfileError::Serde(e)),
        }
    }

    /// Points the pair of `profile` at its name, replacing any earlier owner.
    pub fn insert(&mut self, profile: &Profile)
        ensures
            final(self)@ == old(self)@.insert(
                pair_key(profile.username@, profile.email@),
                profile.name@,
            ),
    {
        let k = key(profile.username.as_str(), profile.email.as_str());
        self.entries.insert(k, profile.name.clone());
        assert(self@ =~= old(self)@.insert(pair_key(profile.username@, profile.email@), profile.name@));
    }

    /// The owner of every entry, one name per entry, in the map's own order:
    /// there is a listing `keys` of all fingerprints, each once, with
    /// `r[i]` the owner of `keys[i]`.
    pub fn get_all(&self) -> (r: Vec<String>)
        ensures
            exists|keys: Seq<u64>|
                #![trigger keys.to_set()]
                keys.no_duplicates() && keys.to_set() == self@.dom() && keys.len() == r.len()
                    && forall|i: int| 0 <= i < r.len() ==> r[i]@ == self@[#[trigger] keys[i]],
    {
        let mut names: Vec<String> = Vec::new();
        let ghost mut visited: Seq<u64> = Seq::empty();
        for pair in it: self.entries.iter()
            invariant
                it.seq().len() == self.entries@.dom().len(),
                it.seq().no_duplicates(),
                visited.len() == names.len(),
                forall|i: int| 0 <= i < visited.len() ==> visited[i] == *it.seq()[i].0,
                forall|i: int|
                    0 <= i < it.seq().len() ==> #[trigger] self.entries@.contains_key(*it.seq()[i].0)
                        && self.entries@[*it.seq()[i].0] == *it.seq()[i].1,
                forall|k: u64|
                    #[trigger] self.entries@.contains_key(k) ==> it.seq().contains(
                        (&k, &self.entries@[k]),
                    ),
                forall|i: int| 0 <= i < names.len() ==> names[i]@ == self@[#[trigger] visited[i]],
                forall|i: int| 0 <= i < visited.len() ==> self.entries@.contains_key(#[trigger] visited[i]),
                visited.len() == it.index(),
                forall|i: int, j: int| 0 <= i < j < visited.len() ==> visited[i] != visited[j],
                forall|k: u64| #[trigger] self.entries@.contains_key(k) && visited.len() == it.seq().len() ==> visited.contains(k),
        {
            let (k, v) = pair;
            proof {
                assert(pair == it.seq()[visited.len() as int]);
                assert(self.entries@.contains_key(*it.seq()[visited.len() as int].0));
                assert(self@[*k] == self.entries@[*k]@);
            }
            names.push(v.clone());
            proof {
                let n = visited.len() as int;
                assert forall|i: int| 0 <= i < n implies visited[i] != *k by {
                    assert(it.seq()[i] != it.seq()[n]);
                    assert(self.entries@[*it.seq()[i].0] == *it.seq()[i].1);
                }
                visited = visited.push(*k);
                assert forall|k2: u64| #[trigger] self.entries@.contains_key(k2) && visited.len() == it.seq().len() implies visited.contains(k2) by {
                    assert(it.seq().contains((&k2, &self.entries@[k2])));
                    let i = choose|i: int| 0 <= i < it.seq().len() && it.seq()[i] == (&k2, &self.entries@[k2]);
                    assert(visited[i] == k2);
                }
            }
        }
        proof {
            assert(visited.no_duplicates());
            assert forall|k: u64| visited.to_set().contains(k) <==> self@.dom().contains(k) by {
                if visited.to_set().contains(k) {
                    let i = choose|i: int| 0 <= i < visited.len() && visited[i] == k;
                    assert(self.entries@.contains_key(visited[i]));
                }
            }
            assert(visited.to_set() =~= self@.dom());
        }
        names
    }

    /// Drops every entry that names `name`, however many there are.
    pub fn remove(&mut self, name: &str)
        ensures
            final(self)@ == without_name(old(self)@, name@),
    {
        let ghost start = self@;
        let ghost mut count: int = 0;
        let ghost mut visited: Seq<u64> = Seq::empty();
        let target = String::from_str(name);
        let mut doomed: Vec<u64> = Vec::new();
        for pair in it: self.entries.iter()
            invariant
                start == self@,
                target@ == name@,
                it.seq().len() == self.entries@.dom().len(),
                count == it.index(),
                visited.len() == count,
                forall|i: int| 0 <= i < count ==> visited[i] == *it.seq()[i].0,
                forall|i: int|
                    0 <= i < it.seq().len() ==> #[trigger] self.entries@.contains_key(*it.seq()[i].0)
                        && self.entries@[*it.seq()[i].0] == *it.seq()[i].1,
                forall|k: u64|
                    #[trigger] self.entries@.contains_key(k) ==> it.seq().contains(
                        (&k, &self.entries@[k]),
                    ),
                forall|j: int|
                    0 <= j < doomed.len() ==> self@.contains_key(#[trigger] doomed@[j])
                        && self@[doomed@[j]] == name@,
                forall|i: int|
                    0 <= i < count && (*it.seq()[i].1)@ == name@ ==> doomed@.contains(
                        #[trigger] visited[i],
                    ),
                forall|k: u64| #[trigger] self.entries@.contains_key(k) && count == it.seq().len() ==> visited.contains(k),
        {
            let (k, v) = pair;
            proof {
                assert(pair == it.seq()[count]);
                assert(self.entries@.contains_key(*it.seq()[count].0));
            }
            let ghost doomed_before = doomed@;
            if *v == target {
                proof {
                    assert(self.entries@[*k] == *v);
                    assert(self@.contains_key(*k));
                    assert(self@[*k] == self.entries@[*k]@);
                    assert((*v)@ == target@);
                    assert(self@[*k] == name@);
                }
                doomed.push(*k);
            }
            proof {
                visited = visited.push(*k);
                count = count + 1;
                assert forall|i: int| 0 <= i < count && (*it.seq()[i].1)@ == name@ implies doomed@.contains(#[trigger] visited[i]) by {
                    if i < count - 1 {
                        let w = choose|w: int| 0 <= w < doomed_before.len() && doomed_before[w] == visited[i];
                        assert(doomed@[w] == visited[i]);
                    } else {
                        assert(doomed@[doomed@.len() - 1] == visited[i]);
                    }
                }
                assert forall|k2: u64| #[trigger] self.entries@.contains_key(k2) && count == it.seq().len() implies visited.contains(k2) by {
                    assert(it.seq().contains((&k2, &self.entries@[k2])));
                    let i = choose|i: int| 0 <= i < it.seq().len() && it.seq()[i] == (&k2, &self.entries@[k2]);
                    assert(visited[i] == k2);
                }
            }
        }
        assert(count == self.entries@.dom().len());
        assert forall|k: u64| #[trigger] start.contains_key(k) && start[k] == name@ implies doomed@.contains(k) by {
            assert(self.entries@.contains_key(k));
            assert(visited.contains(k));
        }
        let mut j: usize = 0;
        while j < doomed.len()
            invariant
                j <= doomed.len(),
                forall|i: int|
                    0 <= i < doomed.len() ==> start.contains_key(#[trigger] doomed@[i])
                        && start[doomed@[i]] == name@,
                forall|k: u64| #[trigger] start.contains_key(k) && start[k] == name@ ==> doomed@.contains(k),
                self@ == Map::new(
                    |k: u64| start.contains_key(k) && !doomed@.subrange(0, j as int).contains(k),
                    |k: u64| start[k],
                ),
            decreases doomed.len() - j,
        {
            let k = doomed[j];
            let ghost before = self.entries@;
            let ghost before_view = self@;
            self.entries.remove(&k);
            assert(self.entries@ == before.remove(k));
            assert(doomed@.subrange(0, j + 1) =~= doomed@.subrange(0, j as int).push(k));
            assert forall|x: u64| doomed@.subrange(0, j + 1).contains(x) <==> (doomed@.subrange(0, j as int).contains(x) || x == k) by {
                if x == k {
                    assert(doomed@.subrange(0, j + 1)[j as int] == k);
                }
                if doomed@.subrange(0, j as int).contains(x) {
                    let i = choose|i: int| 0 <= i < j && doomed@.subrange(0, j as int)[i] == x;
                    assert(doomed@.subrange(0, j + 1)[i] == x);
                }
            }
            let ghost goal = Map::new(
                |x: u64| start.contains_key(x) && !doomed@.subrange(0, j + 1).contains(x),
                |x: u64| start[x],
            );
            assert forall|x: u64| #[trigger] self@.contains_key(x) <==> goal.contains_key(x) by {
                assert(self@.contains_key(x) <==> self.entries@.contains_key(x));
                assert(before_view.contains_key(x) <==> before.contains_key(x));
                assert(before_view.contains_key(x) <==> start.contains_key(x) && !doomed@.subrange(0, j as int).contains(x));
            }
            assert forall|x: u64| #[trigger] self@.contains_key(x) implies self@[x] == goal[x] by {
                assert(self@[x] == self.entries@[x]@);
                assert(before_view.contains_key(x) <==> before.contains_key(x));
                assert(before.contains_key(x));
                assert(before_view[x] == before[x]@);
                assert(before_view[x] == start[x]);
            }
            assert(self@ =~= goal);
            j = j + 1;
        }
        assert(doomed@.subrange(0, doomed.len() as int) =~= doomed@);
        assert(self@ =~= without_name(start, name@)) by {
            assert forall|k: u64| #[trigger] doomed@.contains(k) implies start.contains_key(k) && start[k] == name@ by {
                let i = choose|i: int| 0 <= i < doomed.len() && doomed@[i] == k;
            }
        }
    }
}

/// An index written to bytes and read back answers every lookup as before.
pub proof fn lemma_index_round_trip(written: Map<u64, Seq<char>>, bytes: Seq<u8>, read: Map<u64, Seq<char>>)
    requires
        index_of_bytes(bytes) == Some(written),
        index_of_bytes(bytes) == Some(read),
    ensures
        read == written,
{
}

} // verus!
