//! Maven coordinates, and the place of an artifact in a repository.
//!
//! A library is named by three parts with colons between them: its group,
//! its artifact and its version. A repository, and the launcher's library
//! directory alike, keep the library's file under the group's names as
//! directories, then the artifact, then the version.

use vstd::prelude::*;

verus! {

/// The three parts of a library's name.
#[derive(Debug)]
pub struct Coordinates {
    pub group: String,
    pub artifact: String,
    pub version: String,
}

/// Whether a text can be a part of a name: it is not empty and holds no
/// colon.
pub open spec fn is_part(text: Seq<char>) -> bool {
    text.len() > 0 && forall|i: int| 0 <= i < text.len() ==> text[i] != ':'
}

/// The name that three parts make.
pub open spec fn joined(group: Seq<char>, artifact: Seq<char>, version: Seq<char>) -> Seq<char> {
    group + seq![':'] + artifact + seq![':'] + version
}

/// Whether three parts are the parts of `name`.
pub open spec fn are_parts_of(
    name: Seq<char>,
    group: Seq<char>,
    artifact: Seq<char>,
    version: Seq<char>,
) -> bool {
    &&& is_part(group)
    &&& is_part(artifact)
    &&& is_part(version)
    &&& name == joined(group, artifact, version)
}

/// Whether a text is a name: three parts with colons between them.
pub open spec fn is_name(name: Seq<char>) -> bool {
    exists|group: Seq<char>, artifact: Seq<char>, version: Seq<char>|
        are_parts_of(name, group, artifact, version)
}

/// The three parts of a name.
pub open spec fn parts_of(name: Seq<char>) -> (Seq<char>, Seq<char>, Seq<char>) {
    choose|group: Seq<char>, artifact: Seq<char>, version: Seq<char>|
        are_parts_of(name, group, artifact, version)
}

/// The place of the first colon of `name` at or after `from`; the length of
/// `name` where there is none.
fn find_colon(name: &str, from: usize) -> (res: usize)
    requires
        from <= name@.len(),
    ensures
        from <= res <= name@.len(),
        forall|i: int| from <= i < res ==> name@[i] != ':',
        res < name@.len() ==> name@[res as int] == ':',
{
    let len = name.unicode_len();
    let mut i: usize = from;
    while i < len
        invariant
            len == name@.len(),
            from <= i <= len,
            forall|k: int| from <= k < i ==> name@[k] != ':',
        decreases len - i,
    {
        if name.get_char(i) == ':' {
            return i;
        }
        i += 1;
    }
    i
}

/// Where the colons of a name stand: the first behind the group, the
/// second behind the artifact, and none elsewhere.
proof fn lemma_colons_of_name(
    name: Seq<char>,
    group: Seq<char>,
    artifact: Seq<char>,
    version: Seq<char>,
)
    requires
        are_parts_of(name, group, artifact, version),
    ensures
        name.len() == group.len() + artifact.len() + version.len() + 2,
        forall|i: int|
            0 <= i < name.len() ==> (name[i] == ':' <==> (i == group.len() || i == group.len()
                + 1 + artifact.len())),
        name.subrange(0, group.len() as int) == group,
        name.subrange(group.len() as int + 1, group.len() as int + 1 + artifact.len()) == artifact,
        name.subrange(group.len() as int + 2 + artifact.len(), name.len() as int) == version,
{
    let first = group.len() as int;
    let second = first + 1 + artifact.len();
    assert forall|i: int| 0 <= i < name.len() implies (name[i] == ':' <==> (i == first || i
        == second)) by {
        if i < first {
            assert(name[i] == group[i]);
        } else if i == first {
        } else if i < second {
            assert(name[i] == artifact[i - first - 1]);
        } else if i == second {
        } else {
            assert(name[i] == version[i - second - 1]);
        }
    }
    assert(name.subrange(0, first) =~= group);
    assert(name.subrange(first + 1, second) =~= artifact);
    assert(name.subrange(second + 1, name.len() as int) =~= version);
}

/// A name has its three parts in one way only.
pub proof fn lemma_parts_unique(
    name: Seq<char>,
    group: Seq<char>,
    artifact: Seq<char>,
    version: Seq<char>,
)
    requires
        are_parts_of(name, group, artifact, version),
    ensures
        is_name(name),
        parts_of(name) == (group, artifact, version),
{
    let (g, a, v) = parts_of(name);
    assert(are_parts_of(name, g, a, v));
    lemma_colons_of_name(name, group, artifact, version);
    lemma_colons_of_name(name, g, a, v);
    assert(name[g.len() as int] == ':');
    assert(name[group.len() as int] == ':');
    assert(g.len() == group.len());
    assert(name[g.len() as int + 1 + a.len()] == ':');
    assert(name[group.len() as int + 1 + artifact.len()] == ':');
    assert(a.len() == artifact.len());
}

/// Takes a library's name apart.
///
/// Succeeds exactly on a name, and then gives its three parts.
pub fn parse(name: &str) -> (res: Option<Coordinates>)
    ensures
        res is Some <==> is_name(name@),
        res matches Some(parts) ==> are_parts_of(
            name@,
            parts.group@,
            parts.artifact@,
            parts.version@,
        ) && parts_of(name@) == (parts.group@, parts.artifact@, parts.version@),
{
    let len = name.unicode_len();
    let first = find_colon(name, 0);
    if first == 0 || first >= len {
        proof {
            if is_name(name@) {
                let (g, a, v) = choose|g: Seq<char>, a: Seq<char>, v: Seq<char>|
                    are_parts_of(name@, g, a, v);
                lemma_colons_of_name(name@, g, a, v);
                assert(name@[g.len() as int] == ':');
            }
        }
        return None;
    }
    let second = find_colon(name, first + 1);
    if second == first + 1 || second >= len || second + 1 >= len {
        proof {
            if is_name(name@) {
                let (g, a, v) = choose|g: Seq<char>, a: Seq<char>, v: Seq<char>|
                    are_parts_of(name@, g, a, v);
                lemma_colons_of_name(name@, g, a, v);
                assert(name@[g.len() as int] == ':');
                assert(name@[g.len() as int + 1 + a.len()] == ':');
                assert(name@[first as int] == ':');
            }
        }
        return None;
    }
    let third = find_colon(name, second + 1);
    if third < len {
        proof {
            if is_name(name@) {
                let (g, a, v) = choose|g: Seq<char>, a: Seq<char>, v: Seq<char>|
                    are_parts_of(name@, g, a, v);
                lemma_colons_of_name(name@, g, a, v);
                assert(name@[first as int] == ':');
                assert(name@[second as int] == ':');
                assert(name@[third as int] == ':');
            }
        }
        return None;
    }
    let group = name.substring_char(0, first);
    let artifact = name.substring_char(first + 1, second);
    let version = name.substring_char(second + 1, len);
    proof {
        assert(name@ =~= joined(group@, artifact@, version@));
        assert(are_parts_of(name@, group@, artifact@, version@));
        lemma_parts_unique(name@, group@, artifact@, version@);
    }
    Some(
        Coordinates {
            group: String::from_str(group),
            artifact: String::from_str(artifact),
            version: String::from_str(version),
        },
    )
}

/// A group as directories: each dot becomes a slash.
pub open spec fn as_directories(group: Seq<char>) -> Seq<char> {
    Seq::new(
        group.len(),
        |i: int|
            if group[i] == '.' {
                '/'
            } else {
                group[i]
            },
    )
}

/// The file of a library below the root of a repository: the group as
/// directories, the artifact, the version, and in there the jar named
/// after artifact and version.
pub open spec fn file_path(group: Seq<char>, artifact: Seq<char>, version: Seq<char>) -> Seq<
    char,
> {
    as_directories(group) + "/"@ + artifact + "/"@ + version + "/"@ + artifact + "-"@ + version
        + ".jar"@
}

/// The file of the library named `name` below the root of a repository.
pub open spec fn path_of(name: Seq<char>) -> Seq<char> {
    file_path(parts_of(name).0, parts_of(name).1, parts_of(name).2)
}

/// Appends `group` as directories to `out`.
fn push_directories(out: &mut String, group: &str)
    ensures
        final(out)@ == old(out)@ + as_directories(group@),
{
    let len = group.unicode_len();
    let mut start: usize = 0;
    let mut i: usize = 0;
    while i < len
        invariant
            len == group@.len(),
            start <= i <= len,
            out@ == old(out)@ + as_directories(group@.subrange(0, start as int)),
            forall|k: int| start <= k < i ==> group@[k] != '.',
        decreases len - i,
    {
        if group.get_char(i) == '.' {
            let ghost before = out@;
            out.append(group.substring_char(start, i));
            out.append("/");
            proof {
                reveal_strlit("/");
                assert("/"@ =~= seq!['/']);
                assert(as_directories(group@.subrange(0, i + 1)) =~= as_directories(
                    group@.subrange(0, start as int),
                ) + group@.subrange(start as int, i as int) + seq!['/']);
                assert(out@ =~= before + group@.subrange(start as int, i as int) + seq!['/']);
            }
            start = i + 1;
        }
        i += 1;
    }
    let ghost before = out@;
    out.append(group.substring_char(start, len));
    proof {
        assert(as_directories(group@) =~= as_directories(group@.subrange(0, start as int))
            + group@.subrange(start as int, len as int));
        assert(out@ =~= before + group@.subrange(start as int, len as int));
    }
}

impl Coordinates {
    /// The file of the library below the root of a repository.
    pub fn path(&self) -> (res: String)
        ensures
            res@ == file_path(self.group@, self.artifact@, self.version@),
    {
        let mut path = String::new();
        push_directories(&mut path, self.group.as_str());
        assert(path@ =~= as_directories(self.group@));
        path.append("/");
        path.append(self.artifact.as_str());
        path.append("/");
        path.append(self.version.as_str());
        path.append("/");
        path.append(self.artifact.as_str());
        path.append("-");
        path.append(self.version.as_str());
        path.append(".jar");
        path
    }
}

/// The file of the library named `name` below the root of a repository,
/// where `name` is a name.
pub fn library_path(name: &str) -> (res: Option<String>)
    ensures
        res is Some <==> is_name(name@),
        res matches Some(path) ==> path@ == path_of(name@),
{
    match parse(name) {
        Some(parts) => Some(parts.path()),
        None => None,
    }
}

} // verus!
