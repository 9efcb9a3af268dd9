//! The profile record and its lifecycle: creation, the record written to the
//! profile file, saving against the identity index, editing and removal.
use crate::codec::{decode_record, encode_record, record_bytes};
use crate::index::{pair_key, without_name, Index};
use crate::paths::{path_private, path_public, private_key_path_view, profile_path, profile_path_view, public_key_path_view};
use vstd::prelude::*;
use vstd::string::*;

verus! {

/// A named identity: the profile name, the git username and the git email.
#[derive(Debug, Clone, PartialEq, Eq)]
pub struct Profile {
    pub name: String,
    pub username: String,
    pub email: String,
}

impl View for Profile {
    type V = (Seq<char>, Seq<char>, Seq<char>);

    /// Name, username and email.
    open spec fn view(&self) -> (Seq<char>, Seq<char>, Seq<char>) {
        (self.name@, self.username@, self.email@)
    }
}

/// Why a profile operation was refused.
#[derive(Debug)]
pub enum ProfileError {
    /// The name starts with `.` or holds a path separator.
    InvalidName,
    /// The username/email pair already belongs to the profile `existing`.
    CombinationExists { username: String, email: String, existing: String },
    /// A profile file with this name exists and overwriting was not asked for.
    ProfileExists(String),
    /// The file at this path does not exist.
    NotFound(String),
    /// Reading or writing the file at `path` failed.
    Io { path: String, reason: String },
    /// The bytes of a profile record or of the index could not be encoded or decoded.
    Serde(bincode::Error),
}

/// A path separator: `/` or `\`.
pub open spec fn is_separator(c: char) -> bool {
    c == '/' || c == '\\'
}

/// A profile name does not start with `.` (kept for internal files) and holds
/// no path separator.
pub open spec fn valid_name(name: Seq<char>) -> bool {
    &&& !(name.len() > 0 && name[0] == '.')
    &&& forall|i: int| 0 <= i < name.len() ==> !is_separator(#[trigger] name[i])
}

impl Profile {
    /// Validates `name` and builds the profile.
    pub fn new(name: &str, username: &str, email: &str) -> (r: Result<Profile, ProfileError>)
        ensures
            r is Ok <==> valid_name(name@),
            r matches Ok(p) ==> p.name@ == name@ && p.username@ == username@ && p.email@
                == email@,
            r matches Err(e) ==> e is InvalidName,
    {
        let n = name.unicode_len();
        if n > 0 && name.get_char(0) == '.' {
            return Err(ProfileError::InvalidName);
        }
        let mut i: usize = 0;
        while i < n
            invariant
                n == name@.len(),
                i <= n,
                forall|j: int| 0 <= j < i ==> !is_separator(#[trigger] name@[j]),
            decreases n - i,
        {
            let c = name.get_char(i);
            if c == '/' || c == '\\' {
                return Err(ProfileError::InvalidName);
            }
            i = i + 1;
        }
        Ok(Profile {
            name: String::from_str(name),
            username: String::from_str(username),
            email: String::from_str(email),
        })
    }
}

/// The profile other than `p` that owns the pair of `p` in `index`, if any.
pub open spec fn conflict(index: Map<u64, Seq<char>>, p: Profile) -> Option<Seq<char>> {
    let k = pair_key(p.username@, p.email@);
    if index.contains_key(k) && index[k] != p.name@ {
        Some(index[k])
    } else {
        None
    }
}

/// The index once `p` is saved: entries naming `p` dropped, its pair pointed at it.
pub open spec fn registered(index: Map<u64, Seq<char>>, p: Profile) -> Map<u64, Seq<char>> {
    without_name(index, p.name@).insert(pair_key(p.username@, p.email@), p.name@)
}

/// `p` with the fields that an edit provides put in place.
pub open spec fn edited(p: Profile, username: Option<String>, email: Option<String>) -> Profile {
    Profile {
        name: p.name,
        username: match username {
            Some(u) => u,
            None => p.username,
        },
        email: match email {
            Some(e) => e,
            None => p.email,
        },
    }
}

/// What saving `p` against `index` gives, as stated by [`Profile::save`]
/// once the profile-file check has passed.
pub open spec fn save_outcome(
    index: Map<u64, Seq<char>>,
    p: Profile,
    r: Result<Vec<u8>, ProfileError>,
    after: Map<u64, Seq<char>>,
) -> bool {
    match conflict(index, p) {
        Some(owner) => {
            &&& r matches Err(ProfileError::CombinationExists { username, email, existing })
            &&& username@ == p.username@
            &&& email@ == p.email@
            &&& existing@ == owner
            &&& after == index
        },
        None => r matches Ok(b) && b@ == record_bytes(p.username@, p.email@) && after == registered(
            index,
            p,
        ),
    }
}

/// What reading the profile `name` from the bytes of its file gives, as
/// stated by [`Profile::load`]: the record's username and email under that
/// name, or a decoding error where the bytes are no record.
pub open spec fn loads_as(name: Seq<char>, bytes: Seq<u8>, r: Result<Profile, ProfileError>) -> bool {
    &&& r matches Ok(p) ==> p.name@ == name
    &&& r matches Err(e) ==> e is Serde
    &&& forall|f: (Seq<char>, Seq<char>)|
        #[trigger] record_bytes(f.0, f.1) == bytes ==> (r matches Ok(p) && p.username@ == f.0
            && p.email@ == f.1)
}

impl Profile {
    /// Rebuilds the profile `name` from the bytes of its file.
    pub fn load(name: &str, bytes: &[u8]) -> (r: Result<Profile, ProfileError>)
        ensures
            loads_as(name@, bytes@, r),
    {
        match decode_record(bytes) {
            Ok(fields) => {
                let (username, email) = fields;
                Ok(Profile { name: String::from_str(name), username, email })
            },
            Err(e) => Err(ProfileError::Serde(e)),
        }
    }

    /// Checks the profile against the profile file and the identity index and
    /// gives the bytes to write to its file. `file_exists` tells whether the
    /// profile file is already there. On success the index drops any entry
    /// naming this profile and points the profile's pair at it; on failure
    /// the index is left as it was.
    pub fn save(&self, index: &mut Index, file_exists: bool, overwrite: bool) -> (r: Result<Vec<u8>, ProfileError>)
        ensures
            file_exists && !overwrite ==> (r matches Err(ProfileError::ProfileExists(n)) && n@
                == self.name@ && final(index)@ == old(index)@),
            !(file_exists && !overwrite) ==> save_outcome(old(index)@, *self, r, final(index)@),
    {
        if file_exists && !overwrite {
            return Err(ProfileError::ProfileExists(self.name.clone()));
        }
        match index.get(self.username.as_str(), self.email.as_str()) {
            Some(existing) => {
                if !(existing == self.name) {
                    return Err(
                        ProfileError::CombinationExists {
                            username: self.username.clone(),
                            email: self.email.clone(),
                            existing,
                        },
                    );
                }
            },
            None => {},
        }
        let bytes = match encode_record(self.username.as_str(), self.email.as_str()) {
            Ok(b) => b,
            Err(e) => return Err(ProfileError::Serde(e)),
        };
        index.remove(self.name.as_str());
        index.insert(self);
        Ok(bytes)
    }
}

/// Applies the provided fields to the stored `profile` and saves it over its
/// file. With neither field there is nothing to do: `Ok(None)`, index unchanged.
/// Otherwise the edited profile is saved as [`Profile::save`] with overwriting,
/// and `Ok(Some(bytes))` carries its new record.
pub fn edit(
    index: &mut Index,
    profile: Profile,
    username: Option<String>,
    email: Option<String>,
) -> (r: Result<Option<Vec<u8>>, ProfileError>)
    ensures
        username is None && email is None ==> (r matches Ok(None) && final(index)@ == old(index)@),
        !(username is None && email is None) ==> match r {
            Ok(Some(b)) => save_outcome(old(index)@, edited(profile, username, email), Ok(b), final(index)@),
            Ok(None) => false,
            Err(e) => save_outcome(old(index)@, edited(profile, username, email), Err(e), final(index)@),
        },
{
    if username.is_none() && email.is_none() {
        return Ok(None);
    }
    let ghost target = edited(profile, username, email);
    let mut p = profile;
    match username {
        Some(u) => p.username = u,
        None => {},
    }
    match email {
        Some(e) => p.email = e,
        None => {},
    }
    assert(p == target);
    match p.save(index, true, true) {
        Ok(b) => Ok(Some(b)),
        Err(e) => Err(e),
    }
}

/// A profile that was created with a valid name and saved reads back, from
/// the bytes that the save gave, as the same profile.
pub proof fn lemma_save_then_load(
    p: Profile,
    index: Map<u64, Seq<char>>,
    saved: Result<Vec<u8>, ProfileError>,
    after: Map<u64, Seq<char>>,
    loaded: Result<Profile, ProfileError>,
)
    requires
        valid_name(p.name@),
        save_outcome(index, p, saved, after),
        saved is Ok,
        loads_as(p.name@, saved->Ok_0@, loaded),
    ensures
        loaded matches Ok(q) && q@ == p@,
{
    let f = (p.username@, p.email@);
    assert(record_bytes(f.0, f.1) == saved->Ok_0@);
}

/// Once one profile is saved, saving a second profile with another name and
/// the same username and email is refused, naming the first, and the index
/// stays as it was. A second profile whose pair has another fingerprint, and
/// that the index did not know before, is not refused for its pair.
pub proof fn lemma_pair_taken(
    first: Profile,
    second: Profile,
    index: Map<u64, Seq<char>>,
    r1: Result<Vec<u8>, ProfileError>,
    after1: Map<u64, Seq<char>>,
    r2: Result<Vec<u8>, ProfileError>,
    after2: Map<u64, Seq<char>>,
)
    requires
        first.name@ != second.name@,
        save_outcome(index, first, r1, after1),
        r1 is Ok,
        save_outcome(after1, second, r2, after2),
    ensures
        first.username@ == second.username@ && first.email@ == second.email@ ==> (r2 matches Err(
            ProfileError::CombinationExists { existing, .. },
        ) && existing@ == first.name@ && after2 == after1),
        pair_key(first.username@, first.email@) != pair_key(second.username@, second.email@)
            && !index.contains_key(pair_key(second.username@, second.email@)) ==> r2 is Ok,
{
    let k1 = pair_key(first.username@, first.email@);
    let k2 = pair_key(second.username@, second.email@);
    assert(after1 == registered(index, first));
    assert(after1.contains_key(k1) && after1[k1] == first.name@);
    if k1 != k2 && !index.contains_key(k2) {
        assert(!after1.contains_key(k2));
        assert(conflict(after1, second) is None);
    }
}

/// Removing a profile twice leaves the index as removing it once, and after
/// a removal no entry names the profile.
pub proof fn lemma_remove_idempotent(index: Map<u64, Seq<char>>, name: Seq<char>)
    ensures
        without_name(without_name(index, name), name) == without_name(index, name),
        forall|k: u64| #[trigger] without_name(index, name).contains_key(k) ==> without_name(index, name)[k] != name,
{
    assert(without_name(without_name(index, name), name) =~= without_name(index, name));
}

/// An edit that provides neither field leaves the profile as it was.
pub proof fn lemma_edit_nothing(p: Profile)
    ensures
        edited(p, None, None) == p,
{
}

/// A directory entry hidden from the profile list: its name starts with `.`.
pub open spec fn hidden(name: Seq<char>) -> bool {
    name.len() > 0 && name[0] == '.'
}

/// The profile names among the file names of the profile directory: all but
/// the hidden ones, in the given order.
pub fn list(names: &Vec<String>) -> (r: Vec<String>)
    ensures
        r@.map_values(|s: String| s@) == names@.map_values(|s: String| s@).filter(
            |s: Seq<char>| !hidden(s),
        ),
{
    let mut out: Vec<String> = Vec::new();
    let mut i: usize = 0;
    while i < names.len()
        invariant
            i <= names.len(),
            out@.map_values(|s: String| s@) == names@.map_values(|s: String| s@).subrange(
                0,
                i as int,
            ).filter(|s: Seq<char>| !hidden(s)),
        decreases names.len() - i,
    {
        let name = &names[i];
        let keep = name.as_str().unicode_len() == 0 || name.as_str().get_char(0) != '.';
        proof {
            let all = names@.map_values(|s: String| s@);
            assert(all.subrange(0, i + 1) =~= all.subrange(0, i as int).push(name@));
            assert(all.subrange(0, i + 1).drop_last() =~= all.subrange(0, i as int));
            reveal(Seq::filter);
        }
        if keep {
            out.push(name.clone());
        }
        i = i + 1;
    }
    proof {
        assert(names@.map_values(|s: String| s@).subrange(0, names.len() as int) =~= names@.map_values(|s: String| s@));
    }
    out
}

/// Files that removing the profile `name` deletes, in this order: the profile
/// file, the private key, the public key.
pub fn removal_targets(home: &str, name: &str) -> (r: Vec<String>)
    ensures
        r.len() == 3,
        r[0]@ == profile_path_view(home@, name@),
        r[1]@ == private_key_path_view(home@, name@),
        r[2]@ == public_key_path_view(home@, name@),
{
    let mut targets: Vec<String> = Vec::new();
    targets.push(profile_path(home, name));
    targets.push(path_private(home, name));
    targets.push(path_public(home, name));
    targets
}

/// Removes the profile `name`: gives its files, as [`removal_targets`], and
/// drops every index entry that names it.
pub fn remove(index: &mut Index, home: &str, name: &str) -> (r: Vec<String>)
    ensures
        r.len() == 3,
        r[0]@ == profile_path_view(home@, name@),
        r[1]@ == private_key_path_view(home@, name@),
        r[2]@ == public_key_path_view(home@, name@),
        final(index)@ == without_name(old(index)@, name@),
{
    index.remove(name);
    removal_targets(home, name)
}

/// The line that reports one file of a removal: `removed: <path>` or
/// `skipped: <path>` where the file was not there.
pub fn removal_note(path: &str, removed: bool) -> (r: String)
    ensures
        r@ == (if removed { "removed: "@ } else { "skipped: "@ }) + path@,
{
    let mut r = if removed { String::from_str("removed: ") } else { String::from_str("skipped: ") };
    r.append(path);
    r
}

} // verus!
