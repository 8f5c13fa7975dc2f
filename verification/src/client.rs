//! What a client installation consists of.
//!
//! The launcher finds a version by its name: the version's description
//! stands under `versions`, in a directory and a file of that name, and the
//! libraries that the description lists stand under `libraries`, each where
//! its repository keeps it.

use vstd::prelude::*;
use crate::fetch::{brings, Artifact, Source};
use crate::installer::{ClientInstallation, PlanError};
use crate::maven::{is_name, library_path, path_of};
use crate::profile::{make_profile_id, profile_id};

verus! {

/// A library of the loader, as the version's description lists it.
#[derive(Debug)]
pub struct Library {
    /// The library's name: group, artifact and version.
    pub name: String,
    /// The root of the repository that holds the library.
    pub url: String,
    /// The checksum of the library's file, if the description gives it.
    pub checksum: Option<String>,
}

/// Where the files of a client installation come from.
#[derive(Debug)]
pub struct ClientSources {
    /// The description of the version that the launcher is to start.
    pub description: Source,
    /// The loader and the libraries it needs.
    pub libraries: Vec<Library>,
}

/// The file that holds the description of the version named `id`,
/// relative to the launcher's directory.
pub open spec fn description_file(id: Seq<char>) -> Seq<char> {
    "versions/"@ + id + "/"@ + id + ".json"@
}

/// The file of a library, relative to the launcher's directory.
pub open spec fn library_file(path: Seq<char>) -> Seq<char> {
    "libraries/"@ + path
}

/// A repository's root as the beginning of an address: with a slash at its
/// end.
pub open spec fn with_slash(url: Seq<char>) -> Seq<char> {
    if url.len() > 0 && url.last() == '/' {
        url
    } else {
        url + "/"@
    }
}

/// Whether `artifact` is the file of `library`: it comes from the
/// library's place in its repository, goes to the same place below the
/// launcher's library directory, and must have the library's checksum.
pub open spec fn is_library_artifact(artifact: Artifact, library: Library) -> bool {
    &&& artifact.source_url@ == with_slash(library.url@) + path_of(library.name@)
    &&& artifact.destination_path@ == library_file(path_of(library.name@))
    &&& artifact.expected_checksum == library.checksum
}

/// Whether the library at place `i` is the first whose name is no name.
pub open spec fn is_first_invalid(libraries: Seq<Library>, i: int) -> bool {
    &&& 0 <= i < libraries.len()
    &&& !is_name(libraries[i].name@)
    &&& forall|k: int| 0 <= k < i ==> is_name(#[trigger] libraries[k].name@)
}

/// The place of the first library whose name is no name, if there is one.
pub open spec fn first_invalid(libraries: Seq<Library>) -> Option<int> {
    if exists|i: int| is_first_invalid(libraries, i) {
        Some(choose|i: int| is_first_invalid(libraries, i))
    } else {
        None
    }
}

/// The first invalid library is the only one that is first.
pub proof fn lemma_first_invalid(libraries: Seq<Library>, i: int)
    requires
        is_first_invalid(libraries, i),
    ensures
        first_invalid(libraries) == Some(i),
{
    let c = choose|c: int| is_first_invalid(libraries, c);
    if c < i {
        assert(is_name(libraries[c].name@));
    } else if i < c {
        assert(is_name(libraries[i].name@));
    }
}

/// Whether `artifacts` are the files of `target`: first the description of
/// the version under the installation's name, then each library, in the
/// order given.
pub open spec fn is_client_plan(
    artifacts: Seq<Artifact>,
    target: &ClientInstallation,
    sources: &ClientSources,
) -> bool {
    &&& artifacts.len() == sources.libraries@.len() + 1
    &&& brings(
        artifacts[0],
        sources.description,
        description_file(profile_id(&target.loader_version, &target.minecraft_version)),
    )
    &&& forall|i: int|
        0 <= i < sources.libraries@.len() ==> is_library_artifact(
            #[trigger] artifacts[i + 1],
            sources.libraries@[i],
        )
}

/// The artifact that is the file of `library`, where the library's name is
/// a name.
pub fn library_artifact(library: &Library) -> (res: Option<Artifact>)
    ensures
        res is Some <==> is_name(library.name@),
        res matches Some(artifact) ==> is_library_artifact(artifact, *library),
{
    match library_path(library.name.as_str()) {
        Some(path) => {
            let mut source_url = library.url.clone();
            let len = library.url.as_str().unicode_len();
            if len == 0 || library.url.as_str().get_char(len - 1) != '/' {
                source_url.append("/");
            }
            source_url.append(path.as_str());
            let mut destination_path = String::from_str("libraries/");
            destination_path.append(path.as_str());
            Some(
                Artifact {
                    source_url,
                    destination_path,
                    expected_checksum: match &library.checksum {
                        Some(checksum) => Some(checksum.clone()),
                        None => None,
                    },
                },
            )
        },
        None => None,
    }
}

/// Plans a client installation: the artifacts to fetch.
///
/// Fails exactly where a library's name is no name, with the first such
/// name. Otherwise the artifacts are the files of the target.
pub fn client_plan(target: &ClientInstallation, sources: &ClientSources) -> (res: Result<
    Vec<Artifact>,
    PlanError,
>)
    ensures
        match first_invalid(sources.libraries@) {
            Some(i) => res matches Err(PlanError::InvalidLibraryName(name)) && name
                == sources.libraries@[i].name,
            None => res matches Ok(artifacts) && is_client_plan(artifacts@, target, sources),
        },
{
    let id = make_profile_id(&target.loader_version, &target.minecraft_version);
    let mut file = String::from_str("versions/");
    file.append(id.as_str());
    file.append("/");
    file.append(id.as_str());
    file.append(".json");
    let mut artifacts: Vec<Artifact> = Vec::new();
    artifacts.push(Artifact::new(sources.description.clone(), file));
    let mut i: usize = 0;
    while i < sources.libraries.len()
        invariant
            i <= sources.libraries@.len(),
            artifacts@.len() == i + 1,
            brings(
                artifacts@[0],
                sources.description,
                description_file(profile_id(&target.loader_version, &target.minecraft_version)),
            ),
            forall|k: int| 0 <= k < i ==> is_name(#[trigger] sources.libraries@[k].name@),
            forall|k: int|
                0 <= k < i ==> is_library_artifact(
                    #[trigger] artifacts@[k + 1],
                    sources.libraries@[k],
                ),
        decreases sources.libraries@.len() - i,
    {
        let library = &sources.libraries[i];
        let ghost before = artifacts@;
        match library_artifact(library) {
            Some(artifact) => {
                artifacts.push(artifact);
            },
            None => {
                proof {
                    lemma_first_invalid(sources.libraries@, i as int);
                }
                return Err(PlanError::InvalidLibraryName(library.name.clone()));
            },
        }
        proof {
            assert forall|k: int| 0 <= k < i + 1 implies is_library_artifact(
                #[trigger] artifacts@[k + 1],
                sources.libraries@[k],
            ) by {
                if k < i {
                    assert(artifacts@[k + 1] == before[k + 1]);
                }
            }
        }
        i += 1;
    }
    proof {
        if exists|c: int| is_first_invalid(sources.libraries@, c) {
            let c = choose|c: int| is_first_invalid(sources.libraries@, c);
            assert(is_name(sources.libraries@[c].name@));
        }
    }
    Ok(artifacts)
}

} // verus!
