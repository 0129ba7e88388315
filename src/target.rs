use crate::ndk::{
    binutil_file_name, compiler_file_name, tool_dir_of, Binutil, Compiler, Env, HostTag,
    MissingToolError, Probe, ALL_TOOLS,
};
use crate::text::{decimal, decimal_string, join, join_path, str_eq};
use vstd::prelude::*;
use vstd::string::StringExecFns;

verus! {

/// An Android architecture that code can be built for.
#[derive(Clone, Copy, Debug, PartialEq, Eq, PartialOrd, Ord, Hash)]
pub struct Target {
    pub triple: &'static str,
    pub clang_triple_override: Option<&'static str>,
    pub binutils_triple_override: Option<&'static str>,
    pub abi: &'static str,
    pub arch: &'static str,
}

/// The key of the target used where none is named.
pub const DEFAULT_KEY: &'static str = "aarch64";

/// The supported targets under their keys, in the order of the keys.
pub open spec fn registry_entries() -> Seq<(&'static str, Target)> {
    seq![
        ("aarch64", Target {
            triple: "aarch64-linux-android",
            clang_triple_override: None,
            binutils_triple_override: None,
            abi: "arm64-v8a",
            arch: "arm64",
        }),
        ("armv7", Target {
            triple: "armv7-linux-androideabi",
            clang_triple_override: Some("armv7a-linux-androideabi"),
            binutils_triple_override: Some("arm-linux-androideabi"),
            abi: "armeabi-v7a",
            arch: "arm",
        }),
        ("i686", Target {
            triple: "i686-linux-android",
            clang_triple_override: None,
            binutils_triple_override: None,
            abi: "x86",
            arch: "x86",
        }),
        ("x86_64", Target {
            triple: "x86_64-linux-android",
            clang_triple_override: None,
            binutils_triple_override: None,
            abi: "x86_64",
            arch: "x86_64",
        }),
    ]
}

/// The first target among `entries` whose ABI is `abi`.
pub open spec fn first_with_abi(entries: Seq<(&'static str, Target)>, abi: Seq<char>) -> Option<
    Target,
>
    decreases entries.len(),
{
    if entries.len() == 0 {
        None
    } else if entries[0].1.abi@ == abi {
        Some(entries[0].1)
    } else {
        first_with_abi(entries.drop_first(), abi)
    }
}

/// The first target among `entries` whose key is `key`.
pub open spec fn first_with_key(entries: Seq<(&'static str, Target)>, key: Seq<char>) -> Option<
    Target,
>
    decreases entries.len(),
{
    if entries.len() == 0 {
        None
    } else if entries[0].0@ == key {
        Some(entries[0].1)
    } else {
        first_with_key(entries.drop_first(), key)
    }
}

/// The supported targets, built once and then shared read-only.
pub struct TargetRegistry {
    entries: Vec<(&'static str, Target)>,
}

impl TargetRegistry {
    pub closed spec fn view(&self) -> Seq<(&'static str, Target)> {
        self.entries@
    }

    /// The keys and targets, in the order of the keys.
    pub fn entries(&self) -> (r: &[(&'static str, Target)])
        ensures
            r@ == self.view(),
    {
        self.entries.as_slice()
    }

    /// The target under `key`, if any.
    pub fn get(&self, key: &str) -> (r: Option<Target>)
        ensures
            r == first_with_key(self.view(), key@),
    {
        let mut i: usize = 0;
        assert(self.entries@.subrange(0, self.entries@.len() as int) =~= self.entries@);
        while i < self.entries.len()
            invariant
                i <= self.entries@.len(),
                first_with_key(self.entries@, key@) == first_with_key(
                    self.entries@.subrange(i as int, self.entries@.len() as int),
                    key@,
                ),
            decreases self.entries@.len() - i,
        {
            let ghost rest = self.entries@.subrange(i as int, self.entries@.len() as int);
            assert(rest.drop_first() =~= self.entries@.subrange(
                i as int + 1,
                self.entries@.len() as int,
            ));
            if str_eq(self.entries[i].0, key) {
                return Some(self.entries[i].1);
            }
            i = i + 1;
        }
        None
    }
}

impl Target {
    /// All supported targets. Build this once and pass it to whatever needs it.
    pub fn all() -> (r: TargetRegistry)
        ensures
            r@ == registry_entries(),
    {
        let mut entries: Vec<(&'static str, Target)> = Vec::new();
        entries.push(
            (
                "aarch64",
                Target {
                    triple: "aarch64-linux-android",
                    clang_triple_override: None,
                    binutils_triple_override: None,
                    abi: "arm64-v8a",
                    arch: "arm64",
                },
            ),
        );
        entries.push(
            (
                "armv7",
                Target {
                    triple: "armv7-linux-androideabi",
                    clang_triple_override: Some("armv7a-linux-androideabi"),
                    binutils_triple_override: Some("arm-linux-androideabi"),
                    abi: "armeabi-v7a",
                    arch: "arm",
                },
            ),
        );
        entries.push(
            (
                "i686",
                Target {
                    triple: "i686-linux-android",
                    clang_triple_override: None,
                    binutils_triple_override: None,
                    abi: "x86",
                    arch: "x86",
                },
            ),
        );
        entries.push(
            (
                "x86_64",
                Target {
                    triple: "x86_64-linux-android",
                    clang_triple_override: None,
                    binutils_triple_override: None,
                    abi: "x86_64",
                    arch: "x86_64",
                },
            ),
        );
        assert(entries@ =~= registry_entries());
        TargetRegistry { entries }
    }

    /// The first registered target whose ABI is `abi`; `None` where there is none.
    pub fn for_abi(all: &TargetRegistry, abi: &str) -> (r: Option<Target>)
        ensures
            r == first_with_abi(all@, abi@),
    {
        let entries = all.entries();
        let mut i: usize = 0;
        assert(entries@.subrange(0, entries@.len() as int) =~= entries@);
        while i < entries.len()
            invariant
                entries@ == all@,
                i <= entries@.len(),
                first_with_abi(entries@, abi@) == first_with_abi(
                    entries@.subrange(i as int, entries@.len() as int),
                    abi@,
                ),
            decreases entries@.len() - i,
        {
            let ghost rest = entries@.subrange(i as int, entries@.len() as int);
            assert(rest.drop_first() =~= entries@.subrange(i as int + 1, entries@.len() as int));
            if str_eq(entries[i].1.abi, abi) {
                return Some(entries[i].1);
            }
            i = i + 1;
        }
        None
    }

    pub fn triple(&self) -> (r: &'static str)
        ensures
            r == self.triple,
    {
        self.triple
    }

    pub fn arch(&self) -> (r: &'static str)
        ensures
            r == self.arch,
    {
        self.arch
    }

    /// The triple that the target's compiler drivers are named after.
    pub fn clang_triple(&self) -> (r: &'static str)
        ensures
            r == clang_triple_of(*self),
    {
        match self.clang_triple_override {
            Some(t) => t,
            None => self.triple,
        }
    }

    /// The triple that the target's binary utilities are named after.
    pub fn binutils_triple(&self) -> (r: &'static str)
        ensures
            r == binutils_triple_of(*self),
    {
        match self.binutils_triple_override {
            Some(t) => t,
            None => self.triple,
        }
    }
}

pub open spec fn clang_triple_of(t: Target) -> &'static str {
    match t.clang_triple_override {
        Some(o) => o,
        None => t.triple,
    }
}

pub open spec fn binutils_triple_of(t: Target) -> &'static str {
    match t.binutils_triple_override {
        Some(o) => o,
        None => t.triple,
    }
}

/// Each registered target is what a lookup by its own ABI finds: no two targets
/// share an ABI.
pub proof fn lemma_for_abi_finds_each_target(i: int)
    requires
        0 <= i < registry_entries().len(),
    ensures
        first_with_abi(registry_entries(), registry_entries()[i].1.abi@) == Some(
            registry_entries()[i].1,
        ),
{
    reveal_strlit("arm64-v8a");
    reveal_strlit("armeabi-v7a");
    reveal_strlit("x86");
    reveal_strlit("x86_64");
    let e = registry_entries();
    let abi = e[i].1.abi@;
    assert(e[0].1.abi@.len() == 9);
    assert(e[1].1.abi@.len() == 11);
    assert(e[2].1.abi@.len() == 3);
    assert(e[3].1.abi@.len() == 6);
    let e1 = e.drop_first();
    let e2 = e1.drop_first();
    let e3 = e2.drop_first();
    assert(e1[0] == e[1] && e2[0] == e[2] && e3[0] == e[3]);
    if i == 0 {
        assert(first_with_abi(e, abi) == Some(e[0].1));
    } else {
        assert(e[0].1.abi@ != abi);
        if i == 1 {
            assert(first_with_abi(e1, abi) == Some(e[1].1));
        } else {
            assert(e[1].1.abi@ != abi);
            if i == 2 {
                assert(first_with_abi(e2, abi) == Some(e[2].1));
            } else {
                assert(e[2].1.abi@ != abi);
                assert(first_with_abi(e3, abi) == Some(e[3].1));
                assert(first_with_abi(e2, abi) == Some(e[3].1));
            }
            assert(first_with_abi(e1, abi) == Some(e[i].1));
        }
    }
}

/// An ABI that no registered target has is found nowhere: the lookup gives
/// `None`, as it does for `nonexistent-abi`.
pub proof fn lemma_for_abi_unknown(abi: Seq<char>)
    requires
        forall|i: int| 0 <= i < registry_entries().len() ==> registry_entries()[i].1.abi@ != abi,
    ensures
        first_with_abi(registry_entries(), abi) is None,
{
    let e = registry_entries();
    assert(e[0].1.abi@ != abi);
    assert(e[1].1.abi@ != abi);
    assert(e[2].1.abi@ != abi);
    assert(e[3].1.abi@ != abi);
    assert(e.drop_first().drop_first().drop_first().drop_first().len() == 0);
    reveal_with_fuel(first_with_abi, 5);
}

/// The name `nonexistent-abi` is no registered target's ABI.
pub proof fn lemma_nonexistent_abi_absent()
    ensures
        first_with_abi(registry_entries(), "nonexistent-abi"@) is None,
{
    reveal_strlit("nonexistent-abi");
    reveal_strlit("arm64-v8a");
    reveal_strlit("armeabi-v7a");
    reveal_strlit("x86");
    reveal_strlit("x86_64");
    let e = registry_entries();
    assert forall|i: int| 0 <= i < e.len() implies e[i].1.abi@ != "nonexistent-abi"@ by {
        assert(e[i].1.abi@.len() != "nonexistent-abi"@.len());
    }
    lemma_for_abi_unknown("nonexistent-abi"@);
}

#[verifier::external_type_specification]
#[verifier::external_body]
pub struct ExBossyError(bossy::Error);

/// Whether cargo only checks the code or builds it.
#[derive(Clone, Copy, Debug, PartialEq, Eq, Structural)]
pub enum CargoMode {
    Check,
    Build,
}

pub open spec fn mode_name(mode: CargoMode) -> Seq<char> {
    match mode {
        CargoMode::Check => "check"@,
        CargoMode::Build => "build"@,
    }
}

impl CargoMode {
    /// The cargo subcommand of the mode.
    pub fn as_str(&self) -> (r: &'static str)
        ensures
            r@ == mode_name(*self),
    {
        match self {
            CargoMode::Check => "check",
            CargoMode::Build => "build",
        }
    }
}

/// Whether a build is a debug or a release build.
#[derive(Clone, Copy, Debug, PartialEq, Eq, Structural)]
pub enum Profile {
    Debug,
    Release,
}

pub open spec fn profile_name(profile: Profile) -> Seq<char> {
    match profile {
        Profile::Debug => "debug"@,
        Profile::Release => "release"@,
    }
}

impl Profile {
    /// The name of the profile's output directory.
    pub fn as_str(&self) -> (r: &'static str)
        ensures
            r@ == profile_name(*self),
    {
        match self {
            Profile::Debug => "debug",
            Profile::Release => "release",
        }
    }

    pub fn release(&self) -> (r: bool)
        ensures
            r == (*self == Profile::Release),
    {
        match self {
            Profile::Debug => false,
            Profile::Release => true,
        }
    }
}

/// What the build needs to know of the app and its Android project.
#[derive(Clone, Debug)]
pub struct Config {
    /// The app's package name.
    pub app_name: String,
    /// The app's name in snake case, as its library is named.
    pub app_name_snake: String,
    /// The directory of the app's crate.
    pub app_root: String,
    /// The app's cargo manifest.
    pub manifest_path: String,
    /// The directory of the generated Android project.
    pub project_dir: String,
    /// The least Android API level the app runs on.
    pub min_sdk_version: u32,
}

/// The cargo features the Android build asks for.
#[derive(Clone, Debug)]
pub struct Metadata {
    pub no_default_features: bool,
    pub features: Option<Vec<String>>,
}

/// What a look at the file system found for each tool a compile needs.
#[derive(Clone, Copy, Debug, PartialEq, Eq, Structural)]
pub struct ToolProbes {
    pub ar: Probe,
    pub cc: Probe,
    pub cxx: Probe,
}

/// A target's section of a cargo configuration file.
#[derive(Clone, Debug)]
pub struct DotCargoTarget {
    pub ar: Option<String>,
    pub linker: Option<String>,
    pub rustflags: Vec<String>,
}

/// A cargo run to make: its arguments, the subcommand first, and the environment
/// variables to set for it.
#[derive(Clone, Debug)]
pub struct CargoInvocation {
    pub args: Vec<String>,
    pub env_vars: Vec<(String, String)>,
}

/// Why checking or building a target's library failed.
#[derive(Debug)]
pub enum CompileLibError {
    MissingTool(MissingToolError),
    CargoFailed { mode: CargoMode, cause: bossy::Error },
}

/// Why a built library could not be put where the Android project expects it.
#[derive(Debug)]
pub enum LibSymlinkError {
    JniLibsSubDirCreationFailed(std::io::Error),
    SourceMissing { src: String },
    SymlinkFailed(std::io::Error),
}

/// Why building a target failed.
#[derive(Debug)]
pub enum BuildError {
    BuildFailed(CompileLibError),
    LibSymlinkFailed(LibSymlinkError),
}

/// A link to make: `dest` is to point at `src`, replacing whatever is at `dest`.
#[derive(Clone, Debug)]
pub struct LibLink {
    pub src: String,
    pub dest: String,
}

pub open spec fn strings(v: Seq<String>) -> Seq<Seq<char>> {
    v.map_values(|s: String| s@)
}

pub open spec fn string_pairs(v: Seq<(String, String)>) -> Seq<(Seq<char>, Seq<char>)> {
    v.map_values(|p: (String, String)| (p.0@, p.1@))
}

/// Parts joined with single spaces.
pub open spec fn joined(parts: Seq<Seq<char>>) -> Seq<char>
    decreases parts.len(),
{
    if parts.len() == 0 {
        Seq::<char>::empty()
    } else if parts.len() == 1 {
        parts[0]
    } else {
        joined(parts.drop_last()) + seq![' '] + parts.last()
    }
}

pub open spec fn verbose_args(verbose: bool) -> Seq<Seq<char>> {
    if verbose {
        seq!["-vv"@]
    } else {
        Seq::<Seq<char>>::empty()
    }
}

/// The arguments that pick the package, its manifest and the target triple.
pub open spec fn selector_args(config: Config, triple: Seq<char>) -> Seq<Seq<char>> {
    seq![
        "--package"@,
        config.app_name@,
        "--manifest-path"@,
        config.manifest_path@,
        "--target"@,
        triple,
    ]
}

pub open spec fn feature_args(metadata: Metadata) -> Seq<Seq<char>> {
    (if metadata.no_default_features {
        seq!["--no-default-features"@]
    } else {
        Seq::<Seq<char>>::empty()
    }) + match metadata.features {
        Some(f) => seq!["--features"@, joined(strings(f@))],
        None => Seq::<Seq<char>>::empty(),
    }
}

pub open spec fn release_args(profile: Profile) -> Seq<Seq<char>> {
    if profile == Profile::Release {
        seq!["--release"@]
    } else {
        Seq::<Seq<char>>::empty()
    }
}

/// The color arguments: always colored where color is forced, else as cargo sees fit.
pub open spec fn color_args(force_color: bool) -> Seq<Seq<char>> {
    seq![
        "--color"@,
        if force_color {
            "always"@
        } else {
            "auto"@
        },
    ]
}

/// The arguments of a cargo run for a target.
pub open spec fn cargo_args(
    mode: CargoMode,
    verbose: bool,
    config: Config,
    metadata: Metadata,
    triple: Seq<char>,
    profile: Profile,
    force_color: bool,
) -> Seq<Seq<char>> {
    seq![mode_name(mode)] + verbose_args(verbose) + selector_args(config, triple) + feature_args(
        metadata,
    ) + release_args(profile) + color_args(force_color)
}

/// The environment of a cargo run: the API level and the three tool paths.
pub open spec fn cargo_env(min_api: u32, ar: Seq<char>, cc: Seq<char>, cxx: Seq<char>) -> Seq<
    (Seq<char>, Seq<char>),
> {
    seq![
        ("ANDROID_NATIVE_API_LEVEL"@, decimal(min_api as nat)),
        ("TARGET_AR"@, ar),
        ("TARGET_CC"@, cc),
        ("TARGET_CXX"@, cxx),
    ]
}

pub open spec fn probe_ok(p: Probe) -> bool {
    p.dir_found && p.file_found
}

/// The name and path that a failed lookup of `file` in `dir` reports.
pub open spec fn missing_tool(dir: Seq<char>, file: Seq<char>, name: Seq<char>, probe: Probe) -> (
    Seq<char>,
    Seq<char>,
) {
    if !probe.dir_found {
        (ALL_TOOLS@, dir)
    } else {
        (name, join(dir, file))
    }
}

pub open spec fn is_missing(e: MissingToolError, m: (Seq<char>, Seq<char>)) -> bool {
    e.name@ == m.0 && e.tried_path@ == m.1
}

impl Target {
    /// The archiver's file name for this target.
    pub open spec fn ar_file(self) -> Seq<char> {
        binutil_file_name(Binutil::Ar, binutils_triple_of(self)@)
    }

    /// The file name of the compiler driver `compiler` for this target at `min_api`.
    pub open spec fn compiler_file(self, compiler: Compiler, min_api: u32) -> Seq<char> {
        compiler_file_name(compiler, clang_triple_of(self)@, min_api)
    }

    /// What compiling the target's library under `probes` gives: the first tool of
    /// archiver, C compiler and C++ compiler that was not found, else the run.
    pub open spec fn compile_result(
        self,
        config: Config,
        metadata: Metadata,
        env: Env,
        host: HostTag,
        probes: ToolProbes,
        verbose: bool,
        force_color: bool,
        profile: Profile,
        mode: CargoMode,
        r: Result<CargoInvocation, MissingToolError>,
    ) -> bool {
        let dir = tool_dir_of(env.ndk_home@, host);
        let api = config.min_sdk_version;
        let cc = self.compiler_file(Compiler::Clang, api);
        let cxx = self.compiler_file(Compiler::Clangxx, api);
        if !probe_ok(probes.ar) {
            r matches Err(e) && is_missing(e, missing_tool(dir, self.ar_file(), "ar"@, probes.ar))
        } else if !probe_ok(probes.cc) {
            r matches Err(e) && is_missing(e, missing_tool(dir, cc, "clang"@, probes.cc))
        } else if !probe_ok(probes.cxx) {
            r matches Err(e) && is_missing(e, missing_tool(dir, cxx, "clang++"@, probes.cxx))
        } else {
            r matches Ok(inv) && strings(inv.args@) == cargo_args(
                mode,
                verbose,
                config,
                metadata,
                self.triple@,
                profile,
                force_color,
            ) && string_pairs(inv.env_vars@) == cargo_env(
                api,
                join(dir, self.ar_file()),
                join(dir, cc),
                join(dir, cxx),
            )
        }
    }
}

proof fn lemma_strings_push(v: Seq<String>, x: String)
    ensures
        strings(v.push(x)) == strings(v).push(x@),
{
    assert(strings(v.push(x)) =~= strings(v).push(x@));
}

/// Adds the argument `a` to `args`.
fn push_arg(args: &mut Vec<String>, a: &str)
    ensures
        strings(final(args)@) == strings(old(args)@).push(a@),
{
    let ghost before = args@;
    args.push(String::from_str(a));
    proof {
        lemma_strings_push(before, args@.last());
    }
}

/// The words of `parts` joined with single spaces.
pub fn join_words(parts: &Vec<String>) -> (r: String)
    ensures
        r@ == joined(strings(parts@)),
{
    let mut r = String::new();
    let mut i: usize = 0;
    while i < parts.len()
        invariant
            i <= parts@.len(),
            r@ == joined(strings(parts@).subrange(0, i as int)),
        decreases parts@.len() - i,
    {
        let ghost done = strings(parts@).subrange(0, i as int + 1);
        assert(done.drop_last() =~= strings(parts@).subrange(0, i as int));
        if i > 0 {
            r.append(" ");
            proof {
                reveal_strlit(" ");
            }
        } else {
            assert(done.drop_last().len() == 0);
        }
        r.append(parts[i].as_str());
        assert(r@ =~= joined(done));
        i = i + 1;
    }
    assert(strings(parts@).subrange(0, i as int) =~= strings(parts@));
    r
}

/// The arguments of a cargo run for a target.
fn cargo_arg_list(
    mode: CargoMode,
    verbose: bool,
    config: &Config,
    metadata: &Metadata,
    triple: &str,
    profile: Profile,
    force_color: bool,
) -> (r: Vec<String>)
    ensures
        strings(r@) == cargo_args(mode, verbose, *config, *metadata, triple@, profile, force_color),
{
    let mut args: Vec<String> = Vec::new();
    assert(strings(args@) =~= Seq::<Seq<char>>::empty());
    push_arg(&mut args, mode.as_str());
    let ghost done = seq![mode_name(mode)];
    assert(strings(args@) =~= done);
    if verbose {
        push_arg(&mut args, "-vv");
    }
    let ghost done = done + verbose_args(verbose);
    assert(strings(args@) =~= done);
    push_arg(&mut args, "--package");
    push_arg(&mut args, config.app_name.as_str());
    push_arg(&mut args, "--manifest-path");
    push_arg(&mut args, config.manifest_path.as_str());
    push_arg(&mut args, "--target");
    push_arg(&mut args, triple);
    let ghost done = done + selector_args(*config, triple@);
    assert(strings(args@) =~= done);
    if metadata.no_default_features {
        push_arg(&mut args, "--no-default-features");
    }
    match &metadata.features {
        Some(f) => {
            push_arg(&mut args, "--features");
            let words = join_words(f);
            push_arg(&mut args, words.as_str());
        },
        None => {},
    }
    let ghost done = done + feature_args(*metadata);
    assert(strings(args@) =~= done);
    if profile.release() {
        push_arg(&mut args, "--release");
    }
    let ghost done = done + release_args(profile);
    assert(strings(args@) =~= done);
    push_arg(&mut args, "--color");
    if force_color {
        push_arg(&mut args, "always");
    } else {
        push_arg(&mut args, "auto");
    }
    assert(strings(args@) =~= done + color_args(force_color));
    args
}

fn cargo_env_list(min_api: u32, ar: String, cc: String, cxx: String) -> (r: Vec<(String, String)>)
    ensures
        string_pairs(r@) == cargo_env(min_api, ar@, cc@, cxx@),
{
    let mut vars: Vec<(String, String)> = Vec::new();
    vars.push((String::from_str("ANDROID_NATIVE_API_LEVEL"), decimal_string(min_api)));
    vars.push((String::from_str("TARGET_AR"), ar));
    vars.push((String::from_str("TARGET_CC"), cc));
    vars.push((String::from_str("TARGET_CXX"), cxx));
    assert(string_pairs(vars@) =~= cargo_env(min_api, ar@, cc@, cxx@));
    vars
}

/// The flags every Android build links with.
pub open spec fn android_rustflags() -> Seq<Seq<char>> {
    seq!["-Clink-arg=-landroid"@, "-Clink-arg=-llog"@, "-Clink-arg=-lOpenSLES"@]
}

impl Target {
    /// The cargo configuration for this target: the NDK's archiver, and its C
    /// compiler as the linker, under what `ar` and `linker` found of them.
    pub fn generate_cargo_config(
        &self,
        config: &Config,
        env: &Env,
        host: HostTag,
        ar: Probe,
        linker: Probe,
    ) -> (r: Result<DotCargoTarget, MissingToolError>)
        ensures
            ({
                let dir = tool_dir_of(env.ndk_home@, host);
                let cc = self.compiler_file(Compiler::Clang, config.min_sdk_version);
                if !probe_ok(ar) {
                    r matches Err(e) && is_missing(e, missing_tool(dir, self.ar_file(), "ar"@, ar))
                } else if !probe_ok(linker) {
                    r matches Err(e) && is_missing(e, missing_tool(dir, cc, "clang"@, linker))
                } else {
                    r matches Ok(t) && t.ar is Some && t.ar.unwrap()@ == join(
                        dir,
                        self.ar_file(),
                    ) && t.linker is Some && t.linker.unwrap()@ == join(dir, cc)
                        && strings(t.rustflags@) == android_rustflags()
                }
            }),
    {
        let ar = match env.binutil_path(host, Binutil::Ar, self.binutils_triple(), ar) {
            Ok(p) => p,
            Err(e) => {
                return Err(e);
            },
        };
        let linker = match env.compiler_path(
            host,
            Compiler::Clang,
            self.clang_triple(),
            config.min_sdk_version,
            linker,
        ) {
            Ok(p) => p,
            Err(e) => {
                return Err(e);
            },
        };
        let mut rustflags: Vec<String> = Vec::new();
        assert(strings(rustflags@) =~= Seq::<Seq<char>>::empty());
        push_arg(&mut rustflags, "-Clink-arg=-landroid");
        push_arg(&mut rustflags, "-Clink-arg=-llog");
        push_arg(&mut rustflags, "-Clink-arg=-lOpenSLES");
        assert(strings(rustflags@) =~= android_rustflags());
        Ok(DotCargoTarget { ar: Some(ar), linker: Some(linker), rustflags })
    }

    /// The cargo run that checks or builds this target's library, with the NDK's
    /// archiver and compilers in its environment; `probes` is what a look at the
    /// file system found of those three tools.
    pub fn compile_lib(
        &self,
        config: &Config,
        metadata: &Metadata,
        env: &Env,
        host: HostTag,
        probes: ToolProbes,
        verbose: bool,
        force_color: bool,
        profile: Profile,
        mode: CargoMode,
    ) -> (r: Result<CargoInvocation, MissingToolError>)
        ensures
            self.compile_result(
                *config,
                *metadata,
                *env,
                host,
                probes,
                verbose,
                force_color,
                profile,
                mode,
                r,
            ),
    {
        let api = config.min_sdk_version;
        let ar = match env.binutil_path(host, Binutil::Ar, self.binutils_triple(), probes.ar) {
            Ok(p) => p,
            Err(e) => {
                return Err(e);
            },
        };
        let cc = match env.compiler_path(host, Compiler::Clang, self.clang_triple(), api, probes.cc) {
            Ok(p) => p,
            Err(e) => {
                return Err(e);
            },
        };
        let cxx = match env.compiler_path(
            host,
            Compiler::Clangxx,
            self.clang_triple(),
            api,
            probes.cxx,
        ) {
            Ok(p) => p,
            Err(e) => {
                return Err(e);
            },
        };
        let args = cargo_arg_list(mode, verbose, config, metadata, self.triple, profile, force_color);
        let env_vars = cargo_env_list(api, ar, cc, cxx);
        Ok(CargoInvocation { args, env_vars })
    }

    /// The cargo run that checks this target's code, in the debug profile.
    pub fn check(
        &self,
        config: &Config,
        metadata: &Metadata,
        env: &Env,
        host: HostTag,
        probes: ToolProbes,
        verbose: bool,
        force_color: bool,
    ) -> (r: Result<CargoInvocation, CompileLibError>)
        ensures
            exists|c: Result<CargoInvocation, MissingToolError>|
                self.compile_result(
                    *config,
                    *metadata,
                    *env,
                    host,
                    probes,
                    verbose,
                    force_color,
                    Profile::Debug,
                    CargoMode::Check,
                    c,
                ) && match c {
                    Ok(inv) => r == Ok::<CargoInvocation, CompileLibError>(inv),
                    Err(e) => r matches Err(CompileLibError::MissingTool(m)) && m == e,
                },
    {
        let c = self.compile_lib(
            config,
            metadata,
            env,
            host,
            probes,
            verbose,
            force_color,
            Profile::Debug,
            CargoMode::Check,
        );
        match c {
            Ok(inv) => Ok(inv),
            Err(e) => Err(CompileLibError::MissingTool(e)),
        }
    }

    /// The cargo run that builds this target's library in `profile`. Once it has
    /// succeeded, `symlink_lib` places the library.
    pub fn build(
        &self,
        config: &Config,
        metadata: &Metadata,
        env: &Env,
        host: HostTag,
        probes: ToolProbes,
        verbose: bool,
        force_color: bool,
        profile: Profile,
    ) -> (r: Result<CargoInvocation, BuildError>)
        ensures
            exists|c: Result<CargoInvocation, MissingToolError>|
                self.compile_result(
                    *config,
                    *metadata,
                    *env,
                    host,
                    probes,
                    verbose,
                    force_color,
                    profile,
                    CargoMode::Build,
                    c,
                ) && match c {
                    Ok(inv) => r == Ok::<CargoInvocation, BuildError>(inv),
                    Err(e) => r matches Err(BuildError::BuildFailed(CompileLibError::MissingTool(m)))
                        && m == e,
                },
    {
        let c = self.compile_lib(
            config,
            metadata,
            env,
            host,
            probes,
            verbose,
            force_color,
            profile,
            CargoMode::Build,
        );
        match c {
            Ok(inv) => Ok(inv),
            Err(e) => Err(BuildError::BuildFailed(CompileLibError::MissingTool(e))),
        }
    }
}

/// The file name of the app's built library: `lib<name>.so`.
pub open spec fn so_name_of(config: Config) -> Seq<char> {
    "lib"@ + config.app_name_snake@ + ".so"@
}

/// The file name of the app's built library.
pub fn so_name(config: &Config) -> (r: String)
    ensures
        r@ == so_name_of(*config),
{
    let mut r = String::from_str("lib");
    r.append(config.app_name_snake.as_str());
    r.append(".so");
    r
}

/// Where the Android project keeps the native libraries of each ABI.
pub const JNI_LIBS_DIR: &'static str = "app/src/main/jniLibs/";

/// The directory of the Android project for the libraries of `target`'s ABI.
pub open spec fn jnilibs_dir_of(target: Target, config: Config) -> Seq<char> {
    join(config.project_dir@, JNI_LIBS_DIR@ + target.abi@)
}

/// Where cargo puts the app's library for `target` in `profile`.
pub open spec fn lib_source_of(target: Target, config: Config, profile: Profile) -> Seq<char> {
    join(
        config.app_root@,
        "target/"@ + target.triple@ + "/"@ + profile_name(profile) + "/"@ + so_name_of(config),
    )
}

/// Where the Android project looks for the app's library for `target`.
pub open spec fn lib_dest_of(target: Target, config: Config) -> Seq<char> {
    join(jnilibs_dir_of(target, config), so_name_of(config))
}

/// What placing the built library gives, where `dir_made` says whether making its
/// directory succeeded and `source_exists` whether the built library is there.
pub open spec fn placement_result(
    target: Target,
    config: Config,
    profile: Profile,
    dir_made: bool,
    source_exists: bool,
    r: Result<LibLink, LibSymlinkError>,
) -> bool {
    if !dir_made {
        r matches Err(LibSymlinkError::JniLibsSubDirCreationFailed(_))
    } else if !source_exists {
        r matches Err(LibSymlinkError::SourceMissing { src }) && src@ == lib_source_of(
            target,
            config,
            profile,
        )
    } else {
        r matches Ok(link) && link.src@ == lib_source_of(target, config, profile) && link.dest@
            == lib_dest_of(target, config)
    }
}

/// What a look at a library's place in the Android project found.
#[derive(Clone, Copy, Debug, PartialEq, Eq, Structural)]
pub enum LinkState {
    /// No symbolic link is there.
    NoLink,
    /// A symbolic link is there and what it points at exists.
    Live,
    /// A symbolic link is there and what it points at is gone.
    Broken,
}

/// The links among `found` whose state is `Broken`, in order.
pub open spec fn broken_links(found: Seq<(String, LinkState)>) -> Seq<Seq<char>>
    decreases found.len(),
{
    if found.len() == 0 {
        Seq::<Seq<char>>::empty()
    } else {
        let rest = broken_links(found.drop_last());
        if found.last().1 == LinkState::Broken {
            rest.push(found.last().0@)
        } else {
            rest
        }
    }
}

impl Target {
    /// The directory of the Android project for the libraries of this target's ABI.
    pub fn get_jnilibs_subdir(&self, config: &Config) -> (r: String)
        ensures
            r@ == jnilibs_dir_of(*self, *config),
    {
        let mut rel = String::from_str(JNI_LIBS_DIR);
        rel.append(self.abi);
        join_path(config.project_dir.as_str(), rel.as_str())
    }

    /// Where cargo puts the app's library for this target in `profile`.
    pub fn lib_source(&self, config: &Config, profile: Profile) -> (r: String)
        ensures
            r@ == lib_source_of(*self, *config, profile),
    {
        let mut rel = String::from_str("target/");
        rel.append(self.triple);
        rel.append("/");
        rel.append(profile.as_str());
        rel.append("/");
        let name = so_name(config);
        rel.append(name.as_str());
        join_path(config.app_root.as_str(), rel.as_str())
    }

    /// Where the Android project looks for the app's library for this target.
    pub fn lib_dest(&self, config: &Config) -> (r: String)
        ensures
            r@ == lib_dest_of(*self, *config),
    {
        let dir = self.get_jnilibs_subdir(config);
        let name = so_name(config);
        join_path(dir.as_str(), name.as_str())
    }

    /// The link that puts the built library where the Android project looks for
    /// it. `dir_made` is what making the library's directory gave, and
    /// `source_exists` whether the built library exists; the link is made by the
    /// caller, replacing whatever is at its destination.
    pub fn symlink_lib(
        &self,
        config: &Config,
        profile: Profile,
        dir_made: Result<(), std::io::Error>,
        source_exists: bool,
    ) -> (r: Result<LibLink, LibSymlinkError>)
        ensures
            placement_result(*self, *config, profile, dir_made is Ok, source_exists, r),
    {
        match dir_made {
            Err(e) => Err(LibSymlinkError::JniLibsSubDirCreationFailed(e)),
            Ok(()) => {
                let src = self.lib_source(config, profile);
                if source_exists {
                    let dest = self.lib_dest(config);
                    Ok(LibLink { src, dest })
                } else {
                    Err(LibSymlinkError::SourceMissing { src })
                }
            },
        }
    }

    /// The place of the app's library for each registered target, in order.
    pub fn jnilibs_links(all: &TargetRegistry, config: &Config) -> (r: Vec<String>)
        ensures
            r@.len() == all@.len(),
            forall|i: int|
                0 <= i < all@.len() ==> (#[trigger] r@[i])@ == lib_dest_of(all@[i].1, *config),
    {
        let entries = all.entries();
        let mut links: Vec<String> = Vec::new();
        let mut i: usize = 0;
        while i < entries.len()
            invariant
                entries@ == all@,
                i <= entries@.len(),
                links@.len() == i,
                forall|j: int|
                    0 <= j < i ==> (#[trigger] links@[j])@ == lib_dest_of(entries@[j].1, *config),
            decreases entries@.len() - i,
        {
            links.push(entries[i].1.lib_dest(config));
            i = i + 1;
        }
        links
    }

    /// The links to delete before a build: of `found`, the places found by
    /// `jnilibs_links` each with what a look at it found, those whose state is
    /// `Broken`, in order.
    pub fn clean_jnilibs(found: &Vec<(String, LinkState)>) -> (r: Vec<String>)
        ensures
            strings(r@) == broken_links(found@),
    {
        let mut doomed: Vec<String> = Vec::new();
        let mut i: usize = 0;
        assert(strings(doomed@) =~= broken_links(found@.subrange(0, 0)));
        while i < found.len()
            invariant
                i <= found@.len(),
                strings(doomed@) == broken_links(found@.subrange(0, i as int)),
            decreases found@.len() - i,
        {
            let ghost done = found@.subrange(0, i as int + 1);
            assert(done.drop_last() =~= found@.subrange(0, i as int));
            if found[i].1 == LinkState::Broken {
                push_arg(&mut doomed, found[i].0.as_str());
            }
            i = i + 1;
        }
        assert(found@.subrange(0, i as int) =~= found@);
        doomed
    }
}

/// Placing a build's library twice, after the same successful build, gives the
/// same link both times: one destination, pointing at one source, so the second
/// placement replaces the first link rather than adding another.
pub proof fn lemma_placement_repeatable(
    target: Target,
    config: Config,
    profile: Profile,
    first: Result<LibLink, LibSymlinkError>,
    second: Result<LibLink, LibSymlinkError>,
)
    requires
        placement_result(target, config, profile, true, true, first),
        placement_result(target, config, profile, true, true, second),
    ensures
        first matches Ok(a) && second matches Ok(b) && a.src@ == b.src@ && a.dest@ == b.dest@,
{
}

} // verus!
