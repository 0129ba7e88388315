use crate::text::{
    decimal, decimal_string, is_u32_text, join, join_path, parse_u32, str_eq, u32_text_value,
};
use crate::properties::{lookup, properties_of, Lookup};
use vstd::prelude::*;
use vstd::string::{StrSliceExecFns, StringExecFns};

verus! {

/// The NDK's name for the prebuilt toolchain of each kind of host.
#[derive(Clone, Copy, Debug, PartialEq, Eq, Structural)]
pub enum HostTag {
    Darwin,
    Linux,
    Windows32,
    Windows64,
}

pub open spec fn host_tag_text(host: HostTag) -> Seq<char> {
    match host {
        HostTag::Darwin => "darwin-x86_64"@,
        HostTag::Linux => "linux-x86_64"@,
        HostTag::Windows32 => "windows"@,
        HostTag::Windows64 => "windows-x86_64"@,
    }
}

/// The directory name of the prebuilt toolchain for `host`.
pub fn host_tag(host: HostTag) -> (r: &'static str)
    ensures
        r@ == host_tag_text(host),
{
    match host {
        HostTag::Darwin => "darwin-x86_64",
        HostTag::Linux => "linux-x86_64",
        HostTag::Windows32 => "windows",
        HostTag::Windows64 => "windows-x86_64",
    }
}

pub open spec fn detected_host(os: Seq<char>, pointer_width: u32) -> Option<HostTag> {
    if os == "macos"@ {
        Some(HostTag::Darwin)
    } else if os == "linux"@ {
        Some(HostTag::Linux)
    } else if os == "windows"@ && pointer_width == 32 {
        Some(HostTag::Windows32)
    } else if os == "windows"@ && pointer_width == 64 {
        Some(HostTag::Windows64)
    } else {
        None
    }
}

impl HostTag {
    /// The host kind for an operating system name (as Rust's `target_os` spells
    /// it) and a pointer width in bits; `None` for a host the NDK has no
    /// toolchain for.
    pub fn detect(os: &str, pointer_width: u32) -> (r: Option<HostTag>)
        ensures
            r == detected_host(os@, pointer_width),
    {
        if str_eq(os, "macos") {
            Some(HostTag::Darwin)
        } else if str_eq(os, "linux") {
            Some(HostTag::Linux)
        } else if str_eq(os, "windows") && pointer_width == 32 {
            Some(HostTag::Windows32)
        } else if str_eq(os, "windows") && pointer_width == 64 {
            Some(HostTag::Windows64)
        } else {
            None
        }
    }
}

/// The compiler drivers looked up in the toolchain.
#[derive(Clone, Copy, Debug, PartialEq, Eq, Structural)]
pub enum Compiler {
    Clang,
    Clangxx,
}

pub open spec fn compiler_name(c: Compiler) -> Seq<char> {
    match c {
        Compiler::Clang => "clang"@,
        Compiler::Clangxx => "clang++"@,
    }
}

impl Compiler {
    pub fn as_str(&self) -> (r: &'static str)
        ensures
            r@ == compiler_name(*self),
    {
        match self {
            Compiler::Clang => "clang",
            Compiler::Clangxx => "clang++",
        }
    }
}

/// The binary utilities looked up in the toolchain.
#[derive(Clone, Copy, Debug, PartialEq, Eq, Structural)]
pub enum Binutil {
    Ar,
    Ld,
}

pub open spec fn binutil_name(b: Binutil) -> Seq<char> {
    match b {
        Binutil::Ar => "ar"@,
        Binutil::Ld => "ld"@,
    }
}

impl Binutil {
    pub fn as_str(&self) -> (r: &'static str)
        ensures
            r@ == binutil_name(*self),
    {
        match self {
            Binutil::Ar => "ar",
            Binutil::Ld => "ld",
        }
    }
}

/// The name given for a missing tool when the whole tool directory is absent.
pub const ALL_TOOLS: &'static str = "literally all of them";

/// A tool that was looked for and not found, with the exact path that was tried.
#[derive(Clone, Debug, PartialEq, Eq)]
pub struct MissingToolError {
    pub name: &'static str,
    pub tried_path: String,
}

impl MissingToolError {
    pub fn name(&self) -> (r: &'static str)
        ensures
            r == self.name,
    {
        self.name
    }

    pub fn tried_path(&self) -> (r: &str)
        ensures
            r@ == self.tried_path@,
    {
        self.tried_path.as_str()
    }
}

/// What a look at the file system found for one tool lookup: whether the tool
/// directory exists, and whether the tool's file exists in it.
#[derive(Clone, Copy, Debug, PartialEq, Eq, Structural)]
pub struct Probe {
    pub dir_found: bool,
    pub file_found: bool,
}

/// The relative location of the prebuilt toolchains under the NDK root.
pub const PREBUILT_DIR: &'static str = "toolchains/llvm/prebuilt/";

/// The last part of the tool directory's relative location.
pub const BIN_DIR: &'static str = "/bin";

/// The name of the properties file that holds the NDK's revision.
pub const PROPERTIES_FILE: &'static str = "source.properties";

pub open spec fn tool_dir_of(home: Seq<char>, host: HostTag) -> Seq<char> {
    join(home, PREBUILT_DIR@ + host_tag_text(host) + BIN_DIR@)
}

/// The file name of a compiler driver: the triple, the API level, a dash and the
/// compiler's name.
pub open spec fn compiler_file_name(compiler: Compiler, triple: Seq<char>, min_api: u32) -> Seq<
    char,
> {
    triple + decimal(min_api as nat) + "-"@ + compiler_name(compiler)
}

/// The file name of a binary utility: the triple, a dash and the tool's name.
pub open spec fn binutil_file_name(binutil: Binutil, triple: Seq<char>) -> Seq<char> {
    triple + "-"@ + binutil_name(binutil)
}

/// The result of a lookup of the file `file` inside the tool directory `dir`,
/// under what `probe` found.
pub open spec fn lookup_result(
    dir: Seq<char>,
    file: Seq<char>,
    name: Seq<char>,
    probe: Probe,
    r: Result<String, MissingToolError>,
) -> bool {
    if !probe.dir_found {
        r matches Err(e) && e.name@ == ALL_TOOLS@ && e.tried_path@ == dir
    } else if !probe.file_found {
        r matches Err(e) && e.name@ == name && e.tried_path@ == join(dir, file)
    } else {
        r matches Ok(p) && p@ == join(dir, file)
    }
}

/// A located NDK installation.
#[derive(Clone, Debug)]
pub struct Env {
    pub ndk_home: String,
}

impl Env {
    pub fn home(&self) -> (r: &str)
        ensures
            r@ == self.ndk_home@,
    {
        self.ndk_home.as_str()
    }

    /// The path of the tool directory for `host`, whether or not it exists.
    pub fn tool_dir_path(&self, host: HostTag) -> (r: String)
        ensures
            r@ == tool_dir_of(self.ndk_home@, host),
    {
        let mut rel = String::from_str(PREBUILT_DIR);
        rel.append(host_tag(host));
        rel.append(BIN_DIR);
        join_path(self.ndk_home.as_str(), rel.as_str())
    }

    /// The tool directory for `host`; `dir_found` says whether it exists.
    pub fn tool_dir(&self, host: HostTag, dir_found: bool) -> (r: Result<String, MissingToolError>)
        ensures
            dir_found ==> (r matches Ok(p) && p@ == tool_dir_of(self.ndk_home@, host)),
            !dir_found ==> (r matches Err(e) && e.name@ == ALL_TOOLS@ && e.tried_path@
                == tool_dir_of(self.ndk_home@, host)),
    {
        let path = self.tool_dir_path(host);
        if dir_found {
            Ok(path)
        } else {
            Err(MissingToolError { name: ALL_TOOLS, tried_path: path })
        }
    }

    /// The path at which the compiler driver for `triple` and `min_api` is looked for.
    pub fn compiler_file(&self, host: HostTag, compiler: Compiler, triple: &str, min_api: u32) -> (r:
        String)
        ensures
            r@ == join(
                tool_dir_of(self.ndk_home@, host),
                compiler_file_name(compiler, triple@, min_api),
            ),
    {
        let dir = self.tool_dir_path(host);
        let mut file = String::from_str(triple);
        let api = decimal_string(min_api);
        file.append(api.as_str());
        file.append("-");
        file.append(compiler.as_str());
        join_path(dir.as_str(), file.as_str())
    }

    /// The compiler driver for `triple` and `min_api`, under what `probe` found of
    /// the tool directory and of that file.
    pub fn compiler_path(
        &self,
        host: HostTag,
        compiler: Compiler,
        triple: &str,
        min_api: u32,
        probe: Probe,
    ) -> (r: Result<String, MissingToolError>)
        ensures
            lookup_result(
                tool_dir_of(self.ndk_home@, host),
                compiler_file_name(compiler, triple@, min_api),
                compiler_name(compiler),
                probe,
                r,
            ),
    {
        let dir = self.tool_dir(host, probe.dir_found)?;
        let path = self.compiler_file(host, compiler, triple, min_api);
        if probe.file_found {
            Ok(path)
        } else {
            Err(MissingToolError { name: compiler.as_str(), tried_path: path })
        }
    }

    /// The path at which the binary utility for `triple` is looked for.
    pub fn binutil_file(&self, host: HostTag, binutil: Binutil, triple: &str) -> (r: String)
        ensures
            r@ == join(tool_dir_of(self.ndk_home@, host), binutil_file_name(binutil, triple@)),
    {
        let dir = self.tool_dir_path(host);
        let mut file = String::from_str(triple);
        file.append("-");
        file.append(binutil.as_str());
        join_path(dir.as_str(), file.as_str())
    }

    /// The binary utility for `triple`, under what `probe` found of the tool
    /// directory and of that file.
    pub fn binutil_path(&self, host: HostTag, binutil: Binutil, triple: &str, probe: Probe) -> (r:
        Result<String, MissingToolError>)
        ensures
            lookup_result(
                tool_dir_of(self.ndk_home@, host),
                binutil_file_name(binutil, triple@),
                binutil_name(binutil),
                probe,
                r,
            ),
    {
        let dir = self.tool_dir(host, probe.dir_found)?;
        let path = self.binutil_file(host, binutil, triple);
        if probe.file_found {
            Ok(path)
        } else {
            Err(MissingToolError { name: binutil.as_str(), tried_path: path })
        }
    }
}

/// An NDK release: a major number and a minor number, which the NDK writes as a
/// letter after the major one (`r21`, `r21b`, ...). Versions order by major, then
/// minor.
#[derive(Clone, Copy, Debug, PartialEq, Eq, Structural, Ord, Hash)]
pub struct Version {
    pub major: u32,
    pub minor: u32,
}

/// The least NDK major version this library works with.
pub const MIN_NDK_MAJOR: u32 = 19;

/// The least minor version that goes with `MIN_NDK_MAJOR`.
pub const MIN_NDK_MINOR: u32 = 0;

pub open spec fn version_less(a: Version, b: Version) -> bool {
    a.major < b.major || (a.major == b.major && a.minor < b.minor)
}

pub open spec fn version_cmp(a: Version, b: Version) -> core::cmp::Ordering {
    if version_less(a, b) {
        core::cmp::Ordering::Less
    } else if a == b {
        core::cmp::Ordering::Equal
    } else {
        core::cmp::Ordering::Greater
    }
}

impl PartialOrd for Version {
    fn partial_cmp(&self, other: &Version) -> (r: Option<core::cmp::Ordering>) {
        if self.major < other.major || (self.major == other.major && self.minor < other.minor) {
            Some(core::cmp::Ordering::Less)
        } else if self.major == other.major && self.minor == other.minor {
            Some(core::cmp::Ordering::Equal)
        } else {
            Some(core::cmp::Ordering::Greater)
        }
    }
}

impl vstd::std_specs::cmp::PartialOrdSpecImpl for Version {
    open spec fn obeys_partial_cmp_spec() -> bool {
        true
    }

    open spec fn partial_cmp_spec(&self, other: &Version) -> Option<core::cmp::Ordering> {
        Some(version_cmp(*self, *other))
    }
}

/// The letter for a minor version from 1 on: `a` for 1, `b` for 2, and so on.
pub open spec fn minor_letter(minor: nat) -> char {
    ('a' as u32 + minor - 1) as char
}

/// How a version is written: `r`, the major number, then the minor version's
/// letter unless the minor version is 0.
pub open spec fn version_text(v: Version) -> Seq<char> {
    seq!['r'] + decimal(v.major as nat) + if v.minor == 0 {
        Seq::<char>::empty()
    } else {
        seq![minor_letter(v.minor as nat)]
    }
}

/// The letters that minor versions are written with.
pub const MINOR_LETTERS: &'static str = "abcdefghijklmnopqrstuvwxyz";

proof fn lemma_minor_letters()
    ensures
        MINOR_LETTERS@.len() == 26,
        forall|i: int| 0 <= i < 26 ==> #[trigger] MINOR_LETTERS@[i] == minor_letter((i + 1) as nat),
{
    reveal_strlit("abcdefghijklmnopqrstuvwxyz");
}

impl Version {
    pub fn new(major: u32, minor: u32) -> (r: Version)
        ensures
            r.major == major && r.minor == minor,
    {
        Version { major, minor }
    }

    pub fn major(&self) -> (r: u32)
        ensures
            r == self.major,
    {
        self.major
    }

    pub fn minor(&self) -> (r: u32)
        ensures
            r == self.minor,
    {
        self.minor
    }

    /// The least version of the NDK that this library works with.
    pub fn min_supported() -> (r: Version)
        ensures
            r.major == MIN_NDK_MAJOR && r.minor == MIN_NDK_MINOR,
    {
        Version { major: MIN_NDK_MAJOR, minor: MIN_NDK_MINOR }
    }

    /// Whether `self` comes before `other`.
    pub fn is_older_than(&self, other: &Version) -> (r: bool)
        ensures
            r == version_less(*self, *other),
    {
        self.major < other.major || (self.major == other.major && self.minor < other.minor)
    }

    /// The letter of a minor version from 1 to 25.
    pub fn minor_letter(minor: u32) -> (r: &'static str)
        requires
            1 <= minor < 26,
        ensures
            r@ == seq![minor_letter(minor as nat)],
    {
        proof {
            lemma_minor_letters();
        }
        let r = MINOR_LETTERS.substring_char((minor - 1) as usize, minor as usize);
        assert(r@ =~= seq![minor_letter(minor as nat)]);
        r
    }

    /// The version as the NDK writes it, such as `r21` or `r21d`. The minor version
    /// must have a letter.
    pub fn to_string(&self) -> (r: String)
        requires
            self.minor < 26,
        ensures
            r@ == version_text(*self),
    {
        let mut r = String::from_str("r");
        proof {
            reveal_strlit("r");
        }
        let major = decimal_string(self.major);
        r.append(major.as_str());
        if self.minor != 0 {
            r.append(Version::minor_letter(self.minor));
        }
        assert(r@ =~= version_text(*self));
        r
    }
}

/// The index of the first `.` at or after `from`, or the length where none follows.
pub open spec fn field_end(s: Seq<char>, from: int) -> int
    decreases s.len() - from,
{
    if from >= s.len() || s[from] == '.' {
        from
    } else {
        field_end(s, from + 1)
    }
}

/// The text before the first `.` of a revision.
pub open spec fn first_component(s: Seq<char>) -> Seq<char> {
    s.subrange(0, field_end(s, 0))
}

/// Whether a revision has a second component, that is, a `.` at all.
pub open spec fn has_second_component(s: Seq<char>) -> bool {
    field_end(s, 0) < s.len()
}

/// The text between the first and the second `.` of a revision (or its end).
pub open spec fn second_component(s: Seq<char>) -> Seq<char> {
    s.subrange(field_end(s, 0) + 1, field_end(s, field_end(s, 0) + 1))
}

/// Whether a revision string is read as a version: its first two components are
/// unsigned integers.
pub open spec fn is_valid_revision(s: Seq<char>) -> bool {
    is_u32_text(first_component(s)) && has_second_component(s) && is_u32_text(
        second_component(s),
    )
}

/// The version that a valid revision string stands for.
pub open spec fn revision_version(s: Seq<char>) -> Version {
    Version {
        major: u32_text_value(first_component(s)) as u32,
        minor: u32_text_value(second_component(s)) as u32,
    }
}

/// Why the revision of an NDK could not be learned, with the properties file's path.
#[derive(Debug)]
pub enum VersionError {
    OpenFailed { path: String, cause: std::io::Error },
    ParseFailed { path: String, cause: java_properties::PropertiesError },
    VersionMissing { path: String },
    ComponentNotNumerical { path: String, component: String },
    TooFewComponents { path: String, version: String },
}

/// What reading the revision string `rev` gives, with `path` named in its errors:
/// the first of the first two components that is not an unsigned integer, else too
/// few components where there is one, else the version of the first two.
pub open spec fn revision_result(
    path: Seq<char>,
    rev: Seq<char>,
    r: Result<Version, VersionError>,
) -> bool {
    if !is_u32_text(first_component(rev)) {
        r matches Err(VersionError::ComponentNotNumerical { path: p, component: c }) && p@ == path
            && c@ == first_component(rev)
    } else if !has_second_component(rev) {
        r matches Err(VersionError::TooFewComponents { path: p, version: v }) && p@ == path && v@
            == rev
    } else if !is_u32_text(second_component(rev)) {
        r matches Err(VersionError::ComponentNotNumerical { path: p, component: c }) && p@ == path
            && c@ == second_component(rev)
    } else {
        r == Ok::<Version, VersionError>(revision_version(rev))
    }
}

/// The index of the first `.` in `s` at or after `from`, or the length.
fn find_field_end(s: &str, from: usize) -> (r: usize)
    requires
        from <= s@.len(),
    ensures
        r == field_end(s@, from as int),
        from <= r <= s@.len(),
{
    let n = s.unicode_len();
    let mut i = from;
    while i < n && s.get_char(i) != '.'
        invariant
            n == s@.len(),
            from <= i <= n,
            field_end(s@, from as int) == field_end(s@, i as int),
        decreases n - i,
    {
        i = i + 1;
    }
    i
}

/// Reads a version out of the NDK's revision string `revision` (such as
/// `21.4.7075529`): its first two `.`-separated components are the major and the
/// minor version, and whatever follows them is ignored. `path` names the file the
/// revision was read from, in errors.
pub fn parse_revision(path: &str, revision: &str) -> (r: Result<Version, VersionError>)
    ensures
        revision_result(path@, revision@, r),
{
    let n = revision.unicode_len();
    let end0 = find_field_end(revision, 0);
    let first = revision.substring_char(0, end0);
    let major = match parse_u32(first) {
        Some(v) => v,
        None => {
            return Err(
                VersionError::ComponentNotNumerical {
                    path: String::from_str(path),
                    component: String::from_str(first),
                },
            );
        },
    };
    if end0 == n {
        return Err(
            VersionError::TooFewComponents {
                path: String::from_str(path),
                version: String::from_str(revision),
            },
        );
    }
    let end1 = find_field_end(revision, end0 + 1);
    let second = revision.substring_char(end0 + 1, end1);
    match parse_u32(second) {
        Some(minor) => Ok(Version { major, minor }),
        None => Err(
            VersionError::ComponentNotNumerical {
                path: String::from_str(path),
                component: String::from_str(second),
            },
        ),
    }
}

/// The key of the NDK's revision in its properties file.
pub const REVISION_KEY: &'static str = "Pkg.Revision";

/// What reading the properties file of the NDK at `home` gives, where `contents` is
/// what opening and reading that file gave.
pub open spec fn version_result(
    home: Seq<char>,
    contents: Result<Vec<u8>, std::io::Error>,
    r: Result<Version, VersionError>,
) -> bool {
    let path = join(home, PROPERTIES_FILE@);
    match contents {
        Err(_) => r matches Err(VersionError::OpenFailed { path: p, .. }) && p@ == path,
        Ok(bytes) => match properties_of(bytes@) {
            None => r matches Err(VersionError::ParseFailed { path: p, .. }) && p@ == path,
            Some(m) => if m.contains_key(REVISION_KEY@) {
                revision_result(path, m[REVISION_KEY@], r)
            } else {
                r matches Err(VersionError::VersionMissing { path: p }) && p@ == path
            },
        },
    }
}

/// Why an NDK environment could not be set up.
#[derive(Debug)]
pub enum EnvError {
    NdkHomeNotSet,
    NdkHomeNotADir,
    VersionLookupFailed(VersionError),
    VersionTooLow { you_have: Version, you_need: Version },
}

/// The name of the environment variable that holds the NDK's root.
pub const NDK_HOME_VAR: &'static str = "NDK_HOME";

impl Env {
    /// The NDK named by the root variable's value `ndk_home`, where `home_is_dir`
    /// says whether that value names an existing directory. Its version is not
    /// looked at yet: see `validate`.
    pub fn locate(ndk_home: Option<String>, home_is_dir: bool) -> (r: Result<Env, EnvError>)
        ensures
            ndk_home is None ==> r matches Err(EnvError::NdkHomeNotSet),
            ndk_home is Some && !home_is_dir ==> r matches Err(EnvError::NdkHomeNotADir),
            ndk_home is Some && home_is_dir ==> (r matches Ok(env) && env.ndk_home
                == ndk_home.unwrap()),
    {
        match ndk_home {
            None => Err(EnvError::NdkHomeNotSet),
            Some(home) => if home_is_dir {
                Ok(Env { ndk_home: home })
            } else {
                Err(EnvError::NdkHomeNotADir)
            },
        }
    }

    /// The path of the properties file that holds the NDK's revision.
    pub fn properties_path(&self) -> (r: String)
        ensures
            r@ == join(self.ndk_home@, PROPERTIES_FILE@),
    {
        join_path(self.ndk_home.as_str(), PROPERTIES_FILE)
    }

    /// The NDK's version, from `contents`: what opening and reading its properties
    /// file gave.
    pub fn version(&self, contents: Result<Vec<u8>, std::io::Error>) -> (r: Result<
        Version,
        VersionError,
    >)
        ensures
            version_result(self.ndk_home@, contents, r),
    {
        let path = self.properties_path();
        match contents {
            Err(cause) => Err(VersionError::OpenFailed { path, cause }),
            Ok(bytes) => match lookup(bytes.as_slice(), REVISION_KEY) {
                Lookup::Malformed(cause) => Err(VersionError::ParseFailed { path, cause }),
                Lookup::Absent => Err(VersionError::VersionMissing { path }),
                Lookup::Found(revision) => parse_revision(path.as_str(), revision.as_str()),
            },
        }
    }

    /// The located NDK, once its version is known to be supported; `contents` is
    /// what opening and reading its properties file gave.
    pub fn validate(self, contents: Result<Vec<u8>, std::io::Error>) -> (r: Result<Env, EnvError>)
        ensures
            forall|v: Version|
                version_result(self.ndk_home@, contents, Ok(v)) ==> (if version_less(
                    v,
                    Version { major: MIN_NDK_MAJOR, minor: MIN_NDK_MINOR },
                ) {
                    r matches Err(EnvError::VersionTooLow { you_have, you_need }) && you_have == v
                        && you_need == Version { major: MIN_NDK_MAJOR, minor: MIN_NDK_MINOR }
                } else {
                    r matches Ok(env) && env.ndk_home == self.ndk_home
                }),
            (forall|v: Version| !version_result(self.ndk_home@, contents, Ok(v))) ==> (
            r matches Err(EnvError::VersionLookupFailed(e)) && version_result(
                self.ndk_home@,
                contents,
                Err(e),
            )),
    {
        match self.version(contents) {
            Err(e) => Err(EnvError::VersionLookupFailed(e)),
            Ok(version) => {
                let min = Version::min_supported();
                if version.is_older_than(&min) {
                    Err(EnvError::VersionTooLow { you_have: version, you_need: min })
                } else {
                    Ok(self)
                }
            },
        }
    }
}

/// Reading a valid revision and writing its version back depends on the values of
/// the revision's first two components alone: two revisions whose first two
/// components have the same values give the same version and the same text.
pub proof fn lemma_revision_display_depends_on_numbers(s: Seq<char>, t: Seq<char>)
    requires
        is_valid_revision(s),
        is_valid_revision(t),
        u32_text_value(first_component(s)) == u32_text_value(first_component(t)),
        u32_text_value(second_component(s)) == u32_text_value(second_component(t)),
    ensures
        revision_version(s) == revision_version(t),
        version_text(revision_version(s)) == version_text(revision_version(t)),
{
}

} // verus!
