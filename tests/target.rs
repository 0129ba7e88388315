use cargo_android::apple::rust_version_check;
use cargo_android::ndk::{Env, HostTag, Probe, ALL_TOOLS};
use cargo_android::target::{
    join_words, so_name, BuildError, CargoMode, CompileLibError, Config, LibSymlinkError,
    LinkState, Metadata, Profile, Target, ToolProbes, DEFAULT_KEY,
};

const FOUND: Probe = Probe { dir_found: true, file_found: true };
const ABSENT: Probe = Probe { dir_found: true, file_found: false };

fn config() -> Config {
    Config {
        app_name: "my-app".to_string(),
        app_name_snake: "my_app".to_string(),
        app_root: "/work/my-app".to_string(),
        manifest_path: "/work/my-app/Cargo.toml".to_string(),
        project_dir: "/work/my-app/gen/android".to_string(),
        min_sdk_version: 21,
    }
}

fn plain_metadata() -> Metadata {
    Metadata { no_default_features: false, features: None }
}

fn ndk() -> Env {
    Env::locate(Some("/ndk".to_string()), true).unwrap()
}

fn all_found() -> ToolProbes {
    ToolProbes { ar: FOUND, cc: FOUND, cxx: FOUND }
}

fn armv7() -> Target {
    Target::all().get("armv7").unwrap()
}

fn strs(v: &[String]) -> Vec<&str> {
    v.iter().map(|s| s.as_str()).collect()
}

#[test]
fn every_target_is_found_by_its_abi() {
    let all = Target::all();
    assert_eq!(all.entries().len(), 4);
    for (_, target) in all.entries() {
        assert_eq!(Target::for_abi(&all, target.abi), Some(*target));
    }
}

#[test]
fn unknown_abi_is_absent() {
    let all = Target::all();
    assert_eq!(Target::for_abi(&all, "nonexistent-abi"), None);
    assert_eq!(Target::for_abi(&all, ""), None);
}

#[test]
fn registry_contents() {
    let all = Target::all();
    let keys: Vec<&str> = all.entries().iter().map(|(k, _)| *k).collect();
    assert_eq!(keys, vec!["aarch64", "armv7", "i686", "x86_64"]);
    let arm = all.get("armv7").unwrap();
    assert_eq!(arm.triple(), "armv7-linux-androideabi");
    assert_eq!(arm.clang_triple(), "armv7a-linux-androideabi");
    assert_eq!(arm.binutils_triple(), "arm-linux-androideabi");
    assert_eq!(arm.abi, "armeabi-v7a");
    assert_eq!(arm.arch(), "arm");
    let x86 = Target::for_abi(&all, "x86").unwrap();
    assert_eq!(x86.triple(), "i686-linux-android");
    assert_eq!(x86.clang_triple(), "i686-linux-android");
    assert_eq!(x86.binutils_triple(), "i686-linux-android");
    assert_eq!(all.get(DEFAULT_KEY).unwrap().abi, "arm64-v8a");
    assert_eq!(all.get("mips"), None);
}

#[test]
fn mode_and_profile_names() {
    assert_eq!(CargoMode::Check.as_str(), "check");
    assert_eq!(CargoMode::Build.as_str(), "build");
    assert_eq!(Profile::Debug.as_str(), "debug");
    assert_eq!(Profile::Release.as_str(), "release");
    assert!(Profile::Release.release());
    assert!(!Profile::Debug.release());
}

#[test]
fn check_invocation_carries_tools_and_selectors() {
    let inv = armv7()
        .check(&config(), &plain_metadata(), &ndk(), HostTag::Linux, all_found(), false, true)
        .unwrap();
    assert_eq!(
        strs(&inv.args),
        vec![
            "check",
            "--package",
            "my-app",
            "--manifest-path",
            "/work/my-app/Cargo.toml",
            "--target",
            "armv7-linux-androideabi",
            "--color",
            "always",
        ]
    );
    let bin = "/ndk/toolchains/llvm/prebuilt/linux-x86_64/bin/";
    let vars: Vec<(&str, &str)> =
        inv.env_vars.iter().map(|(k, v)| (k.as_str(), v.as_str())).collect();
    assert_eq!(
        vars,
        vec![
            ("ANDROID_NATIVE_API_LEVEL", "21"),
            ("TARGET_AR", format!("{}arm-linux-androideabi-ar", bin).as_str()),
            ("TARGET_CC", format!("{}armv7a-linux-androideabi21-clang", bin).as_str()),
            ("TARGET_CXX", format!("{}armv7a-linux-androideabi21-clang++", bin).as_str()),
        ]
    );
}

#[test]
fn build_invocation_passes_profile_and_features() {
    let metadata = Metadata {
        no_default_features: true,
        features: Some(vec!["vulkan".to_string(), "audio".to_string()]),
    };
    let aarch64 = Target::all().get("aarch64").unwrap();
    let inv = aarch64
        .build(&config(), &metadata, &ndk(), HostTag::Darwin, all_found(), true, false, Profile::Release)
        .unwrap();
    assert_eq!(
        strs(&inv.args),
        vec![
            "build",
            "-vv",
            "--package",
            "my-app",
            "--manifest-path",
            "/work/my-app/Cargo.toml",
            "--target",
            "aarch64-linux-android",
            "--no-default-features",
            "--features",
            "vulkan audio",
            "--release",
            "--color",
            "auto",
        ]
    );
    assert_eq!(inv.env_vars[2].1, "/ndk/toolchains/llvm/prebuilt/darwin-x86_64/bin/aarch64-linux-android21-clang");
}

#[test]
fn missing_compiler_stops_check() {
    let probes = ToolProbes { ar: FOUND, cc: ABSENT, cxx: FOUND };
    match armv7().check(&config(), &plain_metadata(), &ndk(), HostTag::Linux, probes, false, false) {
        Err(CompileLibError::MissingTool(e)) => {
            assert_eq!(e.name(), "clang");
            assert_eq!(
                e.tried_path(),
                "/ndk/toolchains/llvm/prebuilt/linux-x86_64/bin/armv7a-linux-androideabi21-clang"
            );
        }
        other => panic!("unexpected {:?}", other),
    }
}

#[test]
fn archiver_is_looked_up_first() {
    let probes = ToolProbes { ar: ABSENT, cc: ABSENT, cxx: ABSENT };
    match armv7().build(&config(), &plain_metadata(), &ndk(), HostTag::Linux, probes, false, false, Profile::Debug) {
        Err(BuildError::BuildFailed(CompileLibError::MissingTool(e))) => {
            assert_eq!(e.name(), "ar");
            assert_eq!(e.tried_path(), "/ndk/toolchains/llvm/prebuilt/linux-x86_64/bin/arm-linux-androideabi-ar");
        }
        other => panic!("unexpected {:?}", other),
    }
    let probes = ToolProbes { ar: FOUND, cc: FOUND, cxx: ABSENT };
    match armv7().compile_lib(&config(), &plain_metadata(), &ndk(), HostTag::Linux, probes, false, false, Profile::Debug, CargoMode::Build) {
        Err(e) => assert_eq!(e.name(), "clang++"),
        other => panic!("unexpected {:?}", other),
    }
    let gone = Probe { dir_found: false, file_found: false };
    let probes = ToolProbes { ar: gone, cc: gone, cxx: gone };
    match armv7().compile_lib(&config(), &plain_metadata(), &ndk(), HostTag::Linux, probes, false, false, Profile::Debug, CargoMode::Check) {
        Err(e) => {
            assert_eq!(e.name(), ALL_TOOLS);
            assert_eq!(e.tried_path(), "/ndk/toolchains/llvm/prebuilt/linux-x86_64/bin");
        }
        other => panic!("unexpected {:?}", other),
    }
}

#[test]
fn cargo_config_uses_clang_as_linker() {
    let cfg = armv7().generate_cargo_config(&config(), &ndk(), HostTag::Linux, FOUND, FOUND).unwrap();
    let bin = "/ndk/toolchains/llvm/prebuilt/linux-x86_64/bin/";
    assert_eq!(cfg.ar.unwrap(), format!("{}arm-linux-androideabi-ar", bin));
    assert_eq!(cfg.linker.unwrap(), format!("{}armv7a-linux-androideabi21-clang", bin));
    assert_eq!(
        strs(&cfg.rustflags),
        vec!["-Clink-arg=-landroid", "-Clink-arg=-llog", "-Clink-arg=-lOpenSLES"]
    );
    let err = armv7().generate_cargo_config(&config(), &ndk(), HostTag::Linux, FOUND, ABSENT).unwrap_err();
    assert_eq!(err.name(), "clang");
}

#[test]
fn missing_build_output_is_not_linked() {
    match armv7().symlink_lib(&config(), Profile::Debug, Ok(()), false) {
        Err(LibSymlinkError::SourceMissing { src }) => assert_eq!(
            src,
            "/work/my-app/target/armv7-linux-androideabi/debug/libmy_app.so"
        ),
        other => panic!("unexpected {:?}", other),
    }
}

#[test]
fn failed_directory_creation_is_reported() {
    let denied = std::io::Error::new(std::io::ErrorKind::PermissionDenied, "denied");
    assert!(matches!(
        armv7().symlink_lib(&config(), Profile::Release, Err(denied), true),
        Err(LibSymlinkError::JniLibsSubDirCreationFailed(_))
    ));
}

#[test]
fn placing_twice_gives_the_same_link() {
    let target = armv7();
    let first = target.symlink_lib(&config(), Profile::Release, Ok(()), true).unwrap();
    let second = target.symlink_lib(&config(), Profile::Release, Ok(()), true).unwrap();
    assert_eq!(first.src, second.src);
    assert_eq!(first.dest, second.dest);
    assert_eq!(first.src, "/work/my-app/target/armv7-linux-androideabi/release/libmy_app.so");
    assert_eq!(first.dest, "/work/my-app/gen/android/app/src/main/jniLibs/armeabi-v7a/libmy_app.so");
}

#[test]
fn jnilibs_layout() {
    assert_eq!(so_name(&config()), "libmy_app.so");
    assert_eq!(
        armv7().get_jnilibs_subdir(&config()),
        "/work/my-app/gen/android/app/src/main/jniLibs/armeabi-v7a"
    );
}

#[test]
fn only_broken_links_are_pruned() {
    let all = Target::all();
    let links = Target::jnilibs_links(&all, &config());
    assert_eq!(links.len(), 4);
    assert_eq!(links[2], "/work/my-app/gen/android/app/src/main/jniLibs/x86/libmy_app.so");
    let states = [LinkState::Broken, LinkState::Live, LinkState::NoLink, LinkState::Broken];
    let found: Vec<(String, LinkState)> = links.iter().cloned().zip(states).collect();
    let doomed = Target::clean_jnilibs(&found);
    assert_eq!(doomed, vec![links[0].clone(), links[3].clone()]);
    let live: Vec<(String, LinkState)> = links.iter().map(|l| (l.clone(), LinkState::Live)).collect();
    assert!(Target::clean_jnilibs(&live).is_empty());
    assert!(Target::clean_jnilibs(&vec![]).is_empty());
}

#[test]
fn words_join_with_spaces() {
    assert_eq!(join_words(&vec![]), "");
    assert_eq!(join_words(&vec!["a".to_string()]), "a");
    assert_eq!(join_words(&vec!["a".to_string(), "b c".to_string()]), "a b c");
}

#[test]
fn rust_versions_after_last_working_are_flagged() {
    assert!(!rust_version_check((1, 45, 2)));
    assert!(!rust_version_check((1, 44, 9)));
    assert!(rust_version_check((1, 45, 3)));
    assert!(rust_version_check((1, 46, 0)));
    assert!(rust_version_check((2, 0, 0)));
    assert!(!rust_version_check((0, 99, 99)));
}
