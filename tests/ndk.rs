use cargo_android::ndk::{
    host_tag, Binutil, Compiler, Env, EnvError, HostTag, Probe, Version, VersionError, ALL_TOOLS,
};
use cargo_android::ndk::parse_revision;
use cargo_android::text::{decimal_string, join_path, parse_u32, str_eq};

fn located(home: &str) -> Env {
    match Env::locate(Some(home.to_string()), true) {
        Ok(env) => env,
        Err(e) => panic!("could not locate {:?}: {:?}", home, e),
    }
}

fn props(text: &str) -> Result<Vec<u8>, std::io::Error> {
    Ok(text.as_bytes().to_vec())
}

#[test]
fn versions_order_by_major_then_minor() {
    assert!(Version::new(19, 0) < Version::new(20, 3));
    assert!(Version::new(20, 0) < Version::new(20, 1));
    assert!(Version::new(19, 0).is_older_than(&Version::new(20, 3)));
    assert!(Version::new(20, 0).is_older_than(&Version::new(20, 1)));
    assert!(!Version::new(20, 1).is_older_than(&Version::new(20, 1)));
    assert!(Version::new(21, 0) > Version::new(20, 25));
    assert!(!Version::new(21, 0).is_older_than(&Version::new(20, 25)));
}

#[test]
fn unset_root_fails_before_any_version_lookup() {
    assert!(matches!(Env::locate(None, false), Err(EnvError::NdkHomeNotSet)));
    assert!(matches!(Env::locate(None, true), Err(EnvError::NdkHomeNotSet)));
}

#[test]
fn root_that_is_no_directory_is_refused() {
    assert!(matches!(
        Env::locate(Some("/nowhere".to_string()), false),
        Err(EnvError::NdkHomeNotADir)
    ));
}

#[test]
fn revision_with_build_number_reads_major_and_minor() {
    let env = located("/opt/ndk");
    let v = env.version(props("Pkg.Desc = Android NDK\nPkg.Revision = 21.4.7075529\n")).unwrap();
    assert_eq!(v, Version::new(21, 4));
    assert_eq!(v.major(), 21);
    assert_eq!(v.minor(), 4);
    assert_eq!(v.to_string(), "r21d");
}

#[test]
fn single_component_revision_has_too_few_components() {
    let env = located("/opt/ndk");
    match env.version(props("Pkg.Revision=19\n")) {
        Err(VersionError::TooFewComponents { path, version }) => {
            assert_eq!(path, "/opt/ndk/source.properties");
            assert_eq!(version, "19");
        }
        other => panic!("unexpected {:?}", other),
    }
}

#[test]
fn unreadable_properties_file_fails_to_open() {
    let env = located("/opt/ndk/");
    let gone = std::io::Error::new(std::io::ErrorKind::NotFound, "gone");
    match env.version(Err(gone)) {
        Err(VersionError::OpenFailed { path, .. }) => {
            assert_eq!(path, "/opt/ndk/source.properties")
        }
        other => panic!("unexpected {:?}", other),
    }
}

#[test]
fn malformed_properties_fail_to_parse() {
    let env = located("/opt/ndk");
    match env.version(props("Pkg.Revision=\\uZZZZ\n")) {
        Err(VersionError::ParseFailed { path, .. }) => {
            assert_eq!(path, "/opt/ndk/source.properties")
        }
        other => panic!("unexpected {:?}", other),
    }
}

#[test]
fn missing_revision_key_is_reported() {
    let env = located("/opt/ndk");
    match env.version(props("Pkg.Desc=Android NDK\n")) {
        Err(VersionError::VersionMissing { path }) => {
            assert_eq!(path, "/opt/ndk/source.properties")
        }
        other => panic!("unexpected {:?}", other),
    }
}

#[test]
fn non_numeric_components_are_named() {
    match parse_revision("p", "21.x.1") {
        Err(VersionError::ComponentNotNumerical { path, component }) => {
            assert_eq!(path, "p");
            assert_eq!(component, "x");
        }
        other => panic!("unexpected {:?}", other),
    }
    match parse_revision("p", "r21.4") {
        Err(VersionError::ComponentNotNumerical { component, .. }) => assert_eq!(component, "r21"),
        other => panic!("unexpected {:?}", other),
    }
    match parse_revision("p", "") {
        Err(VersionError::ComponentNotNumerical { component, .. }) => assert_eq!(component, ""),
        other => panic!("unexpected {:?}", other),
    }
    match parse_revision("p", "21.") {
        Err(VersionError::ComponentNotNumerical { component, .. }) => assert_eq!(component, ""),
        other => panic!("unexpected {:?}", other),
    }
    match parse_revision("p", "21.4294967296") {
        Err(VersionError::ComponentNotNumerical { component, .. }) => {
            assert_eq!(component, "4294967296")
        }
        other => panic!("unexpected {:?}", other),
    }
}

#[test]
fn only_first_two_components_count() {
    assert_eq!(parse_revision("p", "22.1.7171670-beta1").unwrap(), Version::new(22, 1));
    assert_eq!(parse_revision("p", "22.1").unwrap(), Version::new(22, 1));
    assert_eq!(parse_revision("p", "+22.01.x").unwrap(), Version::new(22, 1));
}

#[test]
fn equal_numbers_give_equal_text() {
    let a = parse_revision("p", "21.4.7075529").unwrap();
    let b = parse_revision("q", "21.04").unwrap();
    assert_eq!(a, b);
    assert_eq!(a.to_string(), b.to_string());
    assert_eq!(a.to_string(), a.to_string());
}

#[test]
fn minor_versions_render_as_letters() {
    assert_eq!(Version::new(5, 0).to_string(), "r5");
    assert_eq!(Version::new(5, 1).to_string(), "r5a");
    assert_eq!(Version::new(5, 2).to_string(), "r5b");
    assert_eq!(Version::new(5, 25).to_string(), "r5y");
    assert_eq!(Version::new(0, 3).to_string(), "r0c");
    assert_eq!(Version::new(4294967295, 0).to_string(), "r4294967295");
    assert_eq!(Version::minor_letter(1), "a");
    assert_eq!(Version::minor_letter(25), "y");
}

#[test]
fn old_ndk_is_too_low() {
    let env = located("/opt/ndk");
    match env.validate(props("Pkg.Revision=18.1.5063045\n")) {
        Err(EnvError::VersionTooLow { you_have, you_need }) => {
            assert_eq!(you_have, Version::new(18, 1));
            assert_eq!(you_need, Version::new(19, 0));
            assert_eq!(you_need, Version::min_supported());
        }
        other => panic!("unexpected {:?}", other),
    }
}

#[test]
fn minimum_ndk_is_accepted() {
    let env = located("/opt/ndk");
    let env = env.validate(props("Pkg.Revision=19.0.5232133\n")).unwrap();
    assert_eq!(env.home(), "/opt/ndk");
}

#[test]
fn version_failure_is_reported_by_validate() {
    let env = located("/opt/ndk");
    assert!(matches!(
        env.validate(props("Pkg.Revision=19\n")),
        Err(EnvError::VersionLookupFailed(VersionError::TooFewComponents { .. }))
    ));
}

#[test]
fn missing_compiler_names_the_exact_path() {
    let env = located("/ndk");
    let probe = Probe { dir_found: true, file_found: false };
    let err = env
        .compiler_path(HostTag::Linux, Compiler::Clang, "armv7a-linux-androideabi", 21, probe)
        .unwrap_err();
    assert_eq!(err.name(), "clang");
    assert_eq!(
        err.tried_path(),
        "/ndk/toolchains/llvm/prebuilt/linux-x86_64/bin/armv7a-linux-androideabi21-clang"
    );
}

#[test]
fn found_compiler_and_binutil_paths() {
    let env = located("/ndk");
    let found = Probe { dir_found: true, file_found: true };
    assert_eq!(
        env.compiler_path(HostTag::Darwin, Compiler::Clangxx, "aarch64-linux-android", 24, found)
            .unwrap(),
        "/ndk/toolchains/llvm/prebuilt/darwin-x86_64/bin/aarch64-linux-android24-clang++"
    );
    assert_eq!(
        env.binutil_path(HostTag::Windows64, Binutil::Ar, "arm-linux-androideabi", found).unwrap(),
        "/ndk/toolchains/llvm/prebuilt/windows-x86_64/bin/arm-linux-androideabi-ar"
    );
    assert_eq!(
        env.binutil_path(HostTag::Windows32, Binutil::Ld, "x86_64-linux-android", found).unwrap(),
        "/ndk/toolchains/llvm/prebuilt/windows/bin/x86_64-linux-android-ld"
    );
}

#[test]
fn missing_binutil_names_the_exact_path() {
    let env = located("/ndk");
    let probe = Probe { dir_found: true, file_found: false };
    let err = env.binutil_path(HostTag::Linux, Binutil::Ar, "i686-linux-android", probe).unwrap_err();
    assert_eq!(err.name(), "ar");
    assert_eq!(err.tried_path(), "/ndk/toolchains/llvm/prebuilt/linux-x86_64/bin/i686-linux-android-ar");
}

#[test]
fn missing_tool_directory_blames_all_tools() {
    let env = located("/ndk");
    let probe = Probe { dir_found: false, file_found: true };
    let err = env
        .compiler_path(HostTag::Linux, Compiler::Clang, "aarch64-linux-android", 21, probe)
        .unwrap_err();
    assert_eq!(err.name(), ALL_TOOLS);
    assert_eq!(err.tried_path(), "/ndk/toolchains/llvm/prebuilt/linux-x86_64/bin");
    let err = env.tool_dir(HostTag::Linux, false).unwrap_err();
    assert_eq!(err.name(), "literally all of them");
    assert_eq!(env.tool_dir(HostTag::Linux, true).unwrap(), "/ndk/toolchains/llvm/prebuilt/linux-x86_64/bin");
}

#[test]
fn host_tags() {
    assert_eq!(host_tag(HostTag::Darwin), "darwin-x86_64");
    assert_eq!(host_tag(HostTag::Linux), "linux-x86_64");
    assert_eq!(host_tag(HostTag::Windows32), "windows");
    assert_eq!(host_tag(HostTag::Windows64), "windows-x86_64");
    assert_eq!(HostTag::detect("macos", 64), Some(HostTag::Darwin));
    assert_eq!(HostTag::detect("linux", 64), Some(HostTag::Linux));
    assert_eq!(HostTag::detect("windows", 32), Some(HostTag::Windows32));
    assert_eq!(HostTag::detect("windows", 64), Some(HostTag::Windows64));
    assert_eq!(HostTag::detect("windows", 16), None);
    assert_eq!(HostTag::detect("freebsd", 64), None);
}

#[test]
fn tool_names() {
    assert_eq!(Compiler::Clang.as_str(), "clang");
    assert_eq!(Compiler::Clangxx.as_str(), "clang++");
    assert_eq!(Binutil::Ar.as_str(), "ar");
    assert_eq!(Binutil::Ld.as_str(), "ld");
}

#[test]
fn properties_path_joins_root() {
    assert_eq!(located("/opt/ndk").properties_path(), "/opt/ndk/source.properties");
    assert_eq!(located("ndk/").properties_path(), "ndk/source.properties");
}

#[test]
fn unsigned_text() {
    assert_eq!(parse_u32("0"), Some(0));
    assert_eq!(parse_u32("007"), Some(7));
    assert_eq!(parse_u32("+7"), Some(7));
    assert_eq!(parse_u32("4294967295"), Some(4294967295));
    assert_eq!(parse_u32("4294967296"), None);
    assert_eq!(parse_u32("99999999999999999999"), None);
    assert_eq!(parse_u32(""), None);
    assert_eq!(parse_u32("+"), None);
    assert_eq!(parse_u32("-1"), None);
    assert_eq!(parse_u32("1a"), None);
    assert_eq!(parse_u32(" 1"), None);
}

#[test]
fn decimal_and_paths() {
    assert_eq!(decimal_string(0), "0");
    assert_eq!(decimal_string(10), "10");
    assert_eq!(decimal_string(4294967295), "4294967295");
    assert_eq!(join_path("a", "b"), "a/b");
    assert_eq!(join_path("a/", "b"), "a/b");
    assert_eq!(join_path("", "b"), "b");
    assert_eq!(join_path("a", "/b"), "/b");
    assert!(str_eq("abc", "abc"));
    assert!(!str_eq("abc", "abd"));
    assert!(!str_eq("abc", "ab"));
}
