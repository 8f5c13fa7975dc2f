//! Choosing one version out of a catalog.
//!
//! A catalog is a sequence of entries in the order in which the remote feed
//! lists them, newest first. A selection picks the first entry that answers
//! the policy; the catalog itself is never changed.

use vstd::prelude::*;
use crate::version::{LoaderVersion, MinecraftVersion};

verus! {

/// What a catalog entry must tell for a selection to be made among entries.
pub trait Versioned {
    /// Whether the entry is a stable release.
    spec fn stable(&self) -> bool;

    /// The identifier of the entry.
    spec fn ident(&self) -> Seq<char>;

    fn check_stable(&self) -> (res: bool)
        ensures
            res == self.stable(),
    ;

    fn has_ident(&self, id: &String) -> (res: bool)
        ensures
            res == (self.ident() == id@),
    ;
}

impl Versioned for MinecraftVersion {
    open spec fn stable(&self) -> bool {
        self.stable
    }

    open spec fn ident(&self) -> Seq<char> {
        self.version@
    }

    fn check_stable(&self) -> (res: bool) {
        self.stable
    }

    fn has_ident(&self, id: &String) -> (res: bool) {
        self.version == *id
    }
}

impl Versioned for LoaderVersion {
    open spec fn stable(&self) -> bool {
        self.pre@.len() == 0
    }

    open spec fn ident(&self) -> Seq<char> {
        self.id()
    }

    fn check_stable(&self) -> (res: bool) {
        self.is_stable()
    }

    fn has_ident(&self, id: &String) -> (res: bool) {
        self.to_string() == *id
    }
}

/// The policy by which a version is chosen.
#[derive(Debug)]
pub enum VersionSelection {
    /// The first stable release.
    Stable,
    /// The first entry that is not a stable release.
    PreRelease,
    /// The entry with exactly this identifier.
    Explicit(String),
}

/// Why no version was chosen.
#[derive(Debug)]
pub enum SelectError {
    /// The catalog holds no stable release.
    NoStable,
    /// The catalog holds no pre-release.
    NoPreRelease,
    /// The catalog holds no entry with the requested identifier.
    NotFound { requested: String },
}

/// Whether an entry answers a policy.
pub open spec fn answers<V: Versioned>(entry: &V, policy: &VersionSelection) -> bool {
    match policy {
        VersionSelection::Stable => entry.stable(),
        VersionSelection::PreRelease => !entry.stable(),
        VersionSelection::Explicit(id) => entry.ident() == id@,
    }
}

/// Whether `i` is the place of the first entry of `catalog` that answers
/// `policy`.
pub open spec fn first_answer<V: Versioned>(
    catalog: Seq<V>,
    policy: &VersionSelection,
    i: int,
) -> bool {
    &&& 0 <= i < catalog.len()
    &&& answers(&catalog[i], policy)
    &&& forall|j: int| 0 <= j < i ==> !answers(&#[trigger] catalog[j], policy)
}

/// Whether any entry of `catalog` answers `policy`.
pub open spec fn has_answer<V: Versioned>(catalog: Seq<V>, policy: &VersionSelection) -> bool {
    exists|i: int| 0 <= i < catalog.len() && answers(&#[trigger] catalog[i], policy)
}

/// The place of the entry that `policy` chooses from `catalog`, if any entry
/// answers it: the first such entry in catalog order.
pub open spec fn selection<V: Versioned>(catalog: Seq<V>, policy: &VersionSelection) -> Option<
    int,
> {
    if has_answer(catalog, policy) {
        Some(choose|i: int| first_answer(catalog, policy, i))
    } else {
        None
    }
}

/// A catalog has one first answer at most, and the selection is that one.
pub proof fn lemma_first_answer_is_selection<V: Versioned>(
    catalog: Seq<V>,
    policy: &VersionSelection,
    i: int,
)
    requires
        first_answer(catalog, policy, i),
    ensures
        selection(catalog, policy) == Some(i),
{
    assert(has_answer(catalog, policy));
    let c = choose|k: int| first_answer(catalog, policy, k);
    assert(first_answer(catalog, policy, c));
    if c < i {
        assert(!answers(&catalog[c], policy));
    } else if i < c {
        assert(!answers(&catalog[i], policy));
    }
}

/// The error that a policy fails with where no entry answers it.
pub open spec fn is_failure_of(error: &SelectError, policy: &VersionSelection) -> bool {
    match policy {
        VersionSelection::Stable => error is NoStable,
        VersionSelection::PreRelease => error is NoPreRelease,
        VersionSelection::Explicit(id) => error matches SelectError::NotFound { requested }
            && requested@ == id@,
    }
}

fn entry_answers<V: Versioned>(entry: &V, policy: &VersionSelection) -> (res: bool)
    ensures
        res == answers(entry, policy),
{
    match policy {
        VersionSelection::Stable => entry.check_stable(),
        VersionSelection::PreRelease => !entry.check_stable(),
        VersionSelection::Explicit(id) => entry.has_ident(id),
    }
}

/// The place in `catalog` of the first entry that answers `policy`.
pub fn select_index<V: Versioned>(catalog: &Vec<V>, policy: &VersionSelection) -> (res: Option<
    usize,
>)
    ensures
        res is Some <==> has_answer(catalog@, policy),
        res matches Some(i) ==> first_answer(catalog@, policy, i as int),
        selection(catalog@, policy) == match res {
            Some(i) => Some(i as int),
            None => None,
        },
{
    let mut i: usize = 0;
    while i < catalog.len()
        invariant
            i <= catalog.len(),
            forall|j: int| 0 <= j < i ==> !answers(&#[trigger] catalog@[j], policy),
        decreases catalog.len() - i,
    {
        if entry_answers(&catalog[i], policy) {
            proof {
                lemma_first_answer_is_selection(catalog@, policy, i as int);
            }
            return Some(i);
        }
        i += 1;
    }
    None
}

/// Chooses the first entry of `catalog` that answers `policy`.
///
/// Fails exactly where no entry answers it, with the error of that policy;
/// for an explicit identifier the error carries the identifier.
pub fn select<'a, V: Versioned>(catalog: &'a Vec<V>, policy: &VersionSelection) -> (res: Result<
    &'a V,
    SelectError,
>)
    ensures
        res is Ok <==> has_answer(catalog@, policy),
        res matches Ok(entry) ==> selection(catalog@, policy) matches Some(i) && first_answer(
            catalog@,
            policy,
            i,
        ) && *entry == catalog@[i],
        res matches Err(error) ==> is_failure_of(&error, policy),
{
    match select_index(catalog, policy) {
        Some(i) => {
            assert(first_answer(catalog@, policy, i as int));
            Ok(&catalog[i])
        },
        None => Err(
            match policy {
                VersionSelection::Stable => SelectError::NoStable,
                VersionSelection::PreRelease => SelectError::NoPreRelease,
                VersionSelection::Explicit(id) => SelectError::NotFound { requested: id.clone() },
            },
        ),
    }
}

/// A catalog that holds a stable release has a stable selection: the entry
/// chosen under the stable policy is a stable release, and it is the same
/// entry whenever the catalog is the same, being a function of the catalog.
pub proof fn law_stable_selection_is_stable<V: Versioned>(catalog: Seq<V>, k: int)
    requires
        0 <= k < catalog.len(),
        catalog[k].stable(),
    ensures
        selection(catalog, &VersionSelection::Stable) matches Some(i) && 0 <= i <= k
            && catalog[i].stable(),
{
    let policy = VersionSelection::Stable;
    assert(answers(&catalog[k], &policy));
    lemma_selection_in_catalog(catalog, &policy);
    let i = selection(catalog, &policy)->Some_0;
    if k < i {
        assert(!answers(&catalog[k], &policy));
    }
}

/// Where some entry answers the policy, the selection is the first such entry.
pub proof fn lemma_selection_in_catalog<V: Versioned>(catalog: Seq<V>, policy: &VersionSelection)
    requires
        has_answer(catalog, policy),
    ensures
        selection(catalog, policy) matches Some(i) && first_answer(catalog, policy, i),
{
    let k = choose|k: int| 0 <= k < catalog.len() && answers(&#[trigger] catalog[k], policy);
    lemma_first_answer_exists(catalog, policy, k);
}

proof fn lemma_first_answer_exists<V: Versioned>(
    catalog: Seq<V>,
    policy: &VersionSelection,
    k: int,
)
    requires
        0 <= k < catalog.len(),
        answers(&catalog[k], policy),
    ensures
        exists|i: int| first_answer(catalog, policy, i),
    decreases k,
{
    if exists|j: int| 0 <= j < k && answers(&#[trigger] catalog[j], policy) {
        let j = choose|j: int| 0 <= j < k && answers(&#[trigger] catalog[j], policy);
        lemma_first_answer_exists(catalog, policy, j);
    } else {
        assert(first_answer(catalog, policy, k));
    }
}

/// An identifier that the catalog holds is found: the selection under the
/// explicit policy is an entry with exactly that identifier.
pub proof fn law_explicit_selection_present<V: Versioned>(catalog: Seq<V>, id: String, k: int)
    requires
        0 <= k < catalog.len(),
        catalog[k].ident() == id@,
    ensures
        selection(catalog, &VersionSelection::Explicit(id)) matches Some(i) && 0 <= i <= k
            && catalog[i].ident() == id@,
{
    let policy = VersionSelection::Explicit(id);
    assert(answers(&catalog[k], &policy));
    lemma_selection_in_catalog(catalog, &policy);
    let i = selection(catalog, &policy)->Some_0;
    if k < i {
        assert(!answers(&catalog[k], &policy));
    }
}

/// An identifier that the catalog does not hold is not found: there is no
/// selection under the explicit policy, and the only error that stands for
/// this failure carries the identifier.
pub proof fn law_explicit_selection_absent<V: Versioned>(
    catalog: Seq<V>,
    id: String,
    error: SelectError,
)
    requires
        forall|k: int| 0 <= k < catalog.len() ==> (#[trigger] catalog[k]).ident() != id@,
        is_failure_of(&error, &VersionSelection::Explicit(id)),
    ensures
        selection(catalog, &VersionSelection::Explicit(id)) is None,
        error matches SelectError::NotFound { requested } && requested@ == id@,
{
    let policy = VersionSelection::Explicit(id);
    if has_answer(catalog, &policy) {
        let k = choose|k: int| 0 <= k < catalog.len() && answers(&#[trigger] catalog[k], &policy);
        assert(catalog[k].ident() != id@);
    }
}

} // verus!
