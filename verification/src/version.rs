//! The two kinds of version the installer works with.

use vstd::prelude::*;

verus! {

/// One entry of the Minecraft version catalog.
#[derive(Debug)]
pub struct MinecraftVersion {
    pub version: String,
    pub stable: bool,
    pub release_time: u64,
}

impl MinecraftVersion {
    /// Whether the entry is a stable release.
    pub open spec fn spec_is_stable(&self) -> bool {
        self.stable
    }

    #[verifier::when_used_as_spec(spec_is_stable)]
    pub fn is_stable(&self) -> (res: bool)
        ensures
            res == self.stable,
    {
        self.stable
    }

    /// The identifier by which the entry is found in a catalog.
    pub open spec fn id(&self) -> Seq<char> {
        self.version@
    }
}

impl Clone for MinecraftVersion {
    fn clone(&self) -> (res: Self)
        ensures
            res == *self,
    {
        MinecraftVersion {
            version: self.version.clone(),
            stable: self.stable,
            release_time: self.release_time,
        }
    }
}

/// The character that stands for a decimal digit.
pub open spec fn digit_char(d: nat) -> char {
    if d == 0 {
        '0'
    } else if d == 1 {
        '1'
    } else if d == 2 {
        '2'
    } else if d == 3 {
        '3'
    } else if d == 4 {
        '4'
    } else if d == 5 {
        '5'
    } else if d == 6 {
        '6'
    } else if d == 7 {
        '7'
    } else if d == 8 {
        '8'
    } else {
        '9'
    }
}

/// A number written in base ten, without leading zeros.
pub open spec fn decimal(n: nat) -> Seq<char>
    decreases n,
{
    if n < 10 {
        seq![digit_char(n)]
    } else {
        decimal(n / 10).push(digit_char(n % 10))
    }
}

fn digit_text(d: u64) -> (res: &'static str)
    requires
        d < 10,
    ensures
        res@ == seq![digit_char(d as nat)],
{
    proof {
        reveal_strlit("0");
        reveal_strlit("1");
        reveal_strlit("2");
        reveal_strlit("3");
        reveal_strlit("4");
        reveal_strlit("5");
        reveal_strlit("6");
        reveal_strlit("7");
        reveal_strlit("8");
        reveal_strlit("9");
    }
    let res = if d == 0 {
        "0"
    } else if d == 1 {
        "1"
    } else if d == 2 {
        "2"
    } else if d == 3 {
        "3"
    } else if d == 4 {
        "4"
    } else if d == 5 {
        "5"
    } else if d == 6 {
        "6"
    } else if d == 7 {
        "7"
    } else if d == 8 {
        "8"
    } else {
        "9"
    };
    assert(res@ =~= seq![digit_char(d as nat)]);
    res
}

/// Appends `n`, written in base ten, to `out`.
pub fn push_decimal(out: &mut String, n: u64)
    ensures
        final(out)@ == old(out)@ + decimal(n as nat),
    decreases n,
{
    if n >= 10 {
        push_decimal(out, n / 10);
    }
    out.append(digit_text(n % 10));
    proof {
        if n >= 10 {
            assert(old(out)@ + decimal(n as nat / 10).push(digit_char(n as nat % 10)) =~= (old(
                out,
            )@ + decimal(n as nat / 10)) + seq![digit_char(n as nat % 10)]);
        }
    }
}

/// One entry of the Quilt Loader version catalog.
///
/// The version is held by its parts: three numbers, the pre-release tag and
/// the build metadata, each of the last two empty where the version has none.
#[derive(Debug)]
pub struct LoaderVersion {
    pub major: u64,
    pub minor: u64,
    pub patch: u64,
    pub pre: String,
    pub build: String,
    pub maven: String,
}

/// The text of a version: `major.minor.patch`, then `-` and the pre-release
/// tag where there is one, then `+` and the build metadata where there is any.
pub open spec fn version_text(
    major: nat,
    minor: nat,
    patch: nat,
    pre: Seq<char>,
    build: Seq<char>,
) -> Seq<char> {
    decimal(major) + seq!['.'] + decimal(minor) + seq!['.'] + decimal(patch) + (if pre.len() > 0 {
        seq!['-'] + pre
    } else {
        Seq::<char>::empty()
    }) + (if build.len() > 0 {
        seq!['+'] + build
    } else {
        Seq::<char>::empty()
    })
}

/// What a text is as a semantic version: its three numbers, its
/// pre-release tag and its build metadata; or nothing where the text is not
/// a semantic version.
pub uninterp spec fn semver_of(text: Seq<char>) -> Option<(u64, u64, u64, Seq<char>, Seq<char>)>;

/// Calls `Version::parse` of the semver crate and hands out the fields of
/// the version that it read. The result depends on the text alone; the
/// contract names it, and a text that the crate refuses gives nothing.
#[verifier::external_body]
fn parse_semver(text: &str) -> (res: Option<(u64, u64, u64, String, String)>)
    ensures
        semver_of(text@) == match res {
            Some((major, minor, patch, pre, build)) => Some((major, minor, patch, pre@, build@)),
            None => None,
        },
{
    match semver::Version::parse(text) {
        Ok(version) => Some(
            (
                version.major,
                version.minor,
                version.patch,
                version.pre.as_str().to_string(),
                version.build.as_str().to_string(),
            ),
        ),
        Err(_) => None,
    }
}

impl LoaderVersion {
    /// The entry of the catalog that a version's text and its Maven name
    /// stand for: the version that the text is, where it is one.
    pub fn parse(text: &str, maven: String) -> (res: Option<LoaderVersion>)
        ensures
            match semver_of(text@) {
                Some((major, minor, patch, pre, build)) => res matches Some(version)
                    && version.major == major && version.minor == minor && version.patch
                    == patch && version.pre@ == pre && version.build@ == build && version.maven
                    == maven,
                None => res is None,
            },
    {
        match parse_semver(text) {
            Some((major, minor, patch, pre, build)) => Some(
                LoaderVersion { major, minor, patch, pre, build, maven },
            ),
            None => None,
        }
    }

    /// Whether the version is a stable release: it has no pre-release tag.
    pub open spec fn spec_is_stable(&self) -> bool {
        self.pre@.len() == 0
    }

    #[verifier::when_used_as_spec(spec_is_stable)]
    pub fn is_stable(&self) -> (res: bool)
        ensures
            res == (self.pre@.len() == 0),
    {
        self.pre.as_str().is_empty()
    }

    /// The identifier by which the entry is found in a catalog.
    pub open spec fn id(&self) -> Seq<char> {
        version_text(
            self.major as nat,
            self.minor as nat,
            self.patch as nat,
            self.pre@,
            self.build@,
        )
    }

    /// The version as text.
    pub fn to_string(&self) -> (res: String)
        ensures
            res@ == self.id(),
    {
        proof {
            reveal_strlit(".");
            reveal_strlit("-");
            reveal_strlit("+");
        }
        let mut out = String::new();
        push_decimal(&mut out, self.major);
        out.append(".");
        push_decimal(&mut out, self.minor);
        out.append(".");
        push_decimal(&mut out, self.patch);
        let ghost numbers = out@;
        assert(numbers =~= decimal(self.major as nat) + seq!['.'] + decimal(self.minor as nat)
            + seq!['.'] + decimal(self.patch as nat));
        assert("."@ =~= seq!['.']);
        assert("-"@ =~= seq!['-']);
        assert("+"@ =~= seq!['+']);
        if !self.pre.as_str().is_empty() {
            out.append("-");
            out.append(self.pre.as_str());
        }
        let ghost tagged = out@;
        assert(tagged =~= numbers + (if self.pre@.len() > 0 {
            seq!['-'] + self.pre@
        } else {
            Seq::<char>::empty()
        }));
        if !self.build.as_str().is_empty() {
            out.append("+");
            out.append(self.build.as_str());
        }
        assert(out@ =~= tagged + (if self.build@.len() > 0 {
            seq!['+'] + self.build@
        } else {
            Seq::<char>::empty()
        }));
        out
    }
}

impl Clone for LoaderVersion {
    fn clone(&self) -> (res: Self)
        ensures
            res == *self,
    {
        LoaderVersion {
            major: self.major,
            minor: self.minor,
            patch: self.patch,
            pre: self.pre.clone(),
            build: self.build.clone(),
            maven: self.maven.clone(),
        }
    }
}

} // verus!
