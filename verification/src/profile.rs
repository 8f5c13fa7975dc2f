//! The launcher's profile store, and the one profile that an installation
//! writes into it.
//!
//! The store maps profile names to profiles. Its file belongs to the
//! launcher: an installation adds or replaces the profile under its own
//! name and leaves every other entry as it found it, in its place.

use vstd::prelude::*;
use crate::installer::ClientInstallation;
use crate::version::{LoaderVersion, MinecraftVersion};

verus! {

/// A launcher profile, as the installer writes it.
#[derive(Debug)]
pub struct Profile {
    pub name: String,
    pub icon: Option<String>,
    pub last_version_id: String,
    pub game_dir: Option<String>,
    pub java_args: Option<String>,
}

/// What the store holds under a name.
#[derive(Debug)]
pub enum ProfileValue {
    /// A profile that the installer did not write in this run, as the text
    /// that stands in the store's file.
    Foreign(String),
    /// The profile that the installer writes.
    Own(Profile),
}

/// One entry of the store.
#[derive(Debug)]
pub struct StoreEntry {
    pub key: String,
    pub value: ProfileValue,
}

/// The profile store: its entries, in the order of the file.
#[derive(Debug)]
pub struct ProfileStore {
    pub entries: Vec<StoreEntry>,
}

/// Whether the entry at place `i` stands under the name `key`.
pub open spec fn holds_key(entries: Seq<StoreEntry>, key: Seq<char>, i: int) -> bool {
    0 <= i < entries.len() && entries[i].key@ == key
}

/// Whether no two entries stand under one name.
pub open spec fn distinct_keys(entries: Seq<StoreEntry>) -> bool {
    forall|i: int, j: int|
        0 <= i < j < entries.len() ==> (#[trigger] entries[i]).key@ != (#[trigger] entries[j]).key@
}

/// Whether some entry stands under the name `key`.
pub open spec fn has_key(entries: Seq<StoreEntry>, key: Seq<char>) -> bool {
    exists|i: int| holds_key(entries, key, i)
}

/// The place of the entry under the name `key`, where there is one.
pub open spec fn key_place(entries: Seq<StoreEntry>, key: Seq<char>) -> int {
    choose|i: int| holds_key(entries, key, i)
}

/// The entries after `entry` is written: it takes the place of the entry
/// under its name, or comes last where there is none.
pub open spec fn upserted(entries: Seq<StoreEntry>, entry: StoreEntry) -> Seq<StoreEntry> {
    if has_key(entries, entry.key@) {
        entries.update(key_place(entries, entry.key@), entry)
    } else {
        entries.push(entry)
    }
}

/// What stands under a name, if anything.
pub open spec fn lookup(entries: Seq<StoreEntry>, key: Seq<char>) -> Option<ProfileValue> {
    if has_key(entries, key) {
        Some(entries[key_place(entries, key)].value)
    } else {
        None
    }
}

/// Among distinct names, a name stands at one place only.
pub proof fn lemma_key_place_unique(entries: Seq<StoreEntry>, key: Seq<char>, i: int)
    requires
        distinct_keys(entries),
        holds_key(entries, key, i),
    ensures
        has_key(entries, key),
        key_place(entries, key) == i,
{
    let j = key_place(entries, key);
    assert(holds_key(entries, key, j));
    if i < j {
        assert(entries[i].key@ != entries[j].key@);
    } else if j < i {
        assert(entries[j].key@ != entries[i].key@);
    }
}

impl ProfileStore {
    /// Whether the store is one that a file can hold: no name stands twice.
    pub open spec fn wf(&self) -> bool {
        distinct_keys(self.entries@)
    }

    /// A store without entries.
    pub fn new() -> (res: ProfileStore)
        ensures
            res.entries@.len() == 0,
            res.wf(),
    {
        ProfileStore { entries: Vec::new() }
    }

    /// The place of the entry under `key`.
    pub fn position(&self, key: &String) -> (res: Option<usize>)
        ensures
            res matches Some(i) ==> holds_key(self.entries@, key@, i as int) && forall|j: int|
                0 <= j < i ==> !holds_key(self.entries@, key@, j),
            res is None ==> !has_key(self.entries@, key@),
    {
        let mut i: usize = 0;
        while i < self.entries.len()
            invariant
                i <= self.entries.len(),
                forall|j: int| 0 <= j < i ==> !holds_key(self.entries@, key@, j),
            decreases self.entries.len() - i,
        {
            if self.entries[i].key == *key {
                return Some(i);
            }
            i += 1;
        }
        None
    }

    /// What stands under `key`, if anything.
    pub fn get(&self, key: &String) -> (res: Option<&ProfileValue>)
        requires
            self.wf(),
        ensures
            lookup(self.entries@, key@) == match res {
                Some(value) => Some(*value),
                None => None,
            },
    {
        match self.position(key) {
            Some(i) => {
                proof {
                    lemma_key_place_unique(self.entries@, key@, i as int);
                }
                Some(&self.entries[i].value)
            },
            None => None,
        }
    }

    /// Writes `value` under `key`: in the place of the entry under that
    /// name, or last where there is none. No other entry changes or moves.
    pub fn upsert(&mut self, key: String, value: ProfileValue)
        requires
            old(self).wf(),
        ensures
            final(self).wf(),
            final(self).entries@ == upserted(old(self).entries@, StoreEntry { key, value }),
    {
        let ghost before = self.entries@;
        let ghost entry = StoreEntry { key, value };
        match self.position(&key) {
            Some(i) => {
                proof {
                    lemma_key_place_unique(before, key@, i as int);
                }
                self.entries.set(i, StoreEntry { key, value });
                assert(self.entries@ =~= before.update(i as int, entry));
                assert(self.entries@ == upserted(before, entry));
                assert(distinct_keys(self.entries@)) by {
                    assert forall|a: int, b: int| 0 <= a < b < self.entries@.len() implies (
                    #[trigger] self.entries@[a]).key@ != (#[trigger] self.entries@[b]).key@ by {
                        assert(before[a].key@ != before[b].key@);
                    }
                }
            },
            None => {
                self.entries.push(StoreEntry { key, value });
                assert(!has_key(before, entry.key@));
                assert(self.entries@ =~= before.push(entry));
                assert(distinct_keys(self.entries@)) by {
                    assert forall|a: int, b: int| 0 <= a < b < self.entries@.len() implies (
                    #[trigger] self.entries@[a]).key@ != (#[trigger] self.entries@[b]).key@ by {
                        if b < before.len() {
                            assert(before[a].key@ != before[b].key@);
                        } else {
                            assert(!holds_key(before, key@, a));
                        }
                    }
                }
            },
        }
    }
}

/// The name under which an installation of these two versions is known to
/// the launcher: both as the profile's name and as the version it starts.
pub open spec fn profile_id(loader_version: &LoaderVersion, minecraft_version: &MinecraftVersion) -> Seq<
    char,
> {
    "quilt-loader-"@ + loader_version.id() + "-"@ + minecraft_version.version@
}

/// The name under which an installation of these two versions is known to
/// the launcher.
pub fn make_profile_id(loader_version: &LoaderVersion, minecraft_version: &MinecraftVersion) -> (res:
    String)
    ensures
        res@ == profile_id(loader_version, minecraft_version),
{
    let mut id = String::from_str("quilt-loader-");
    id.append(loader_version.to_string().as_str());
    id.append("-");
    id.append(minecraft_version.version.as_str());
    id
}

/// Whether `entry` is the entry that a client installation writes: it stands
/// under the installation's name and holds a profile of that name which
/// starts the version of that name, with nothing else set.
pub open spec fn is_client_entry(entry: StoreEntry, target: &ClientInstallation) -> bool {
    let id = profile_id(&target.loader_version, &target.minecraft_version);
    &&& entry.key@ == id
    &&& entry.value matches ProfileValue::Own(profile)
    &&& profile.name@ == id
    &&& profile.last_version_id@ == id
    &&& profile.icon is None
    &&& profile.game_dir is None
    &&& profile.java_args is None
}

/// The entry that a client installation writes.
pub fn client_entry(target: &ClientInstallation) -> (res: StoreEntry)
    ensures
        is_client_entry(res, target),
{
    let id = make_profile_id(&target.loader_version, &target.minecraft_version);
    StoreEntry {
        key: id.clone(),
        value: ProfileValue::Own(
            Profile {
                name: id.clone(),
                icon: None,
                last_version_id: id,
                game_dir: None,
                java_args: None,
            },
        ),
    }
}

/// Brings the store up to date with a client installation: where the
/// installation asks for a profile, its entry is written; where it does not,
/// the store stays as it is.
pub fn install_profile(store: &mut ProfileStore, target: &ClientInstallation)
    requires
        old(store).wf(),
    ensures
        final(store).wf(),
        !target.generate_profile ==> final(store).entries@ == old(store).entries@,
        target.generate_profile ==> exists|entry: StoreEntry| #[trigger]
            is_client_entry(entry, target) && final(store).entries@ == upserted(
                old(store).entries@,
                entry,
            ),
{
    if target.generate_profile {
        let StoreEntry { key, value } = client_entry(target);
        let ghost entry = StoreEntry { key, value };
        store.upsert(key, value);
        assert(is_client_entry(entry, target));
    }
}

/// Writing an entry leaves every entry under another name as it was, in its
/// place, and adds one entry at most.
pub proof fn law_upsert_keeps_other_entries(entries: Seq<StoreEntry>, entry: StoreEntry, j: int)
    requires
        distinct_keys(entries),
        0 <= j < entries.len(),
        entries[j].key@ != entry.key@,
    ensures
        entries.len() <= upserted(entries, entry).len() <= entries.len() + 1,
        upserted(entries, entry)[j] == entries[j],
{
    if has_key(entries, entry.key@) {
        assert(holds_key(entries, entry.key@, key_place(entries, entry.key@)));
    }
}

/// Writing an entry puts it under its name, and under that name alone.
pub proof fn law_upsert_writes_entry(entries: Seq<StoreEntry>, entry: StoreEntry)
    requires
        distinct_keys(entries),
    ensures
        distinct_keys(upserted(entries, entry)),
        lookup(upserted(entries, entry), entry.key@) == Some(entry.value),
{
    let after = upserted(entries, entry);
    let place = if has_key(entries, entry.key@) {
        key_place(entries, entry.key@)
    } else {
        entries.len() as int
    };
    if has_key(entries, entry.key@) {
        assert(holds_key(entries, entry.key@, place));
    }
    assert forall|a: int, b: int| 0 <= a < b < after.len() implies (#[trigger] after[a]).key@ != (
    #[trigger] after[b]).key@ by {
        if b < entries.len() {
            assert(entries[a].key@ != entries[b].key@);
        } else {
            assert(!holds_key(entries, entry.key@, a));
        }
    }
    assert(holds_key(after, entry.key@, place));
    lemma_key_place_unique(after, entry.key@, place);
}

/// An installation that runs twice writes under one name both times. The
/// second run then changes that entry alone: the store keeps its length, and
/// every entry under another name is after the second run what it was
/// before it, in the same place.
pub proof fn law_second_run_keeps_other_profiles(
    entries: Seq<StoreEntry>,
    first: StoreEntry,
    second: StoreEntry,
    j: int,
)
    requires
        distinct_keys(entries),
        first.key@ == second.key@,
        0 <= j < upserted(entries, first).len(),
        upserted(entries, first)[j].key@ != second.key@,
    ensures
        upserted(upserted(entries, first), second).len() == upserted(entries, first).len(),
        upserted(upserted(entries, first), second)[j] == upserted(entries, first)[j],
        lookup(upserted(upserted(entries, first), second), second.key@) == Some(second.value),
{
    let middle = upserted(entries, first);
    law_upsert_writes_entry(entries, first);
    law_upsert_keeps_other_entries(middle, second, j);
    law_upsert_writes_entry(middle, second);
    assert(has_key(middle, second.key@)) by {
        if has_key(entries, first.key@) {
            assert(holds_key(middle, second.key@, key_place(entries, first.key@))) by {
                assert(holds_key(entries, first.key@, key_place(entries, first.key@)));
            }
        } else {
            assert(holds_key(middle, second.key@, entries.len() as int));
        }
    }
}

} // verus!
