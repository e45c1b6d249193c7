use build_support::{
    build_release, crate_directory, env_var, host, output_directory, target, BuildError,
    Environment,
};

fn with(vars: &[(&str, &str)]) -> Environment {
    let mut env = Environment::new();
    for (name, value) in vars {
        env.set(name, value);
    }
    env
}

fn missing(name: &str) -> BuildError {
    BuildError::MissingVariable { name: name.to_string() }
}

#[test]
fn empty_environment_has_nothing() {
    let env = Environment::new();
    assert_eq!(env.get("PATH"), None);
    assert_eq!(env.get(""), None);
}

#[test]
fn get_finds_what_was_set() {
    let env = with(&[("A", "1"), ("B", "2"), ("AB", "3")]);
    assert_eq!(env.get("A"), Some("1"));
    assert_eq!(env.get("B"), Some("2"));
    assert_eq!(env.get("AB"), Some("3"));
    assert_eq!(env.get("a"), None);
    assert_eq!(env.get("C"), None);
}

#[test]
fn set_replaces_the_value() {
    let mut env = with(&[("A", "1"), ("B", "2")]);
    env.set("A", "one");
    assert_eq!(env.get("A"), Some("one"));
    assert_eq!(env.get("B"), Some("2"));
    env.set("A", "");
    assert_eq!(env.get("A"), Some(""));
}

#[test]
fn output_directory_is_out_dir() {
    let env = with(&[("OUT_DIR", "/tmp/build/out"), ("CARGO_MANIFEST_DIR", "/src/pkg")]);
    assert_eq!(output_directory(&env), Ok("/tmp/build/out".to_string()));
    let env = with(&[("CARGO_MANIFEST_DIR", "/src/pkg")]);
    assert_eq!(output_directory(&env), Err(missing("OUT_DIR")));
}

#[test]
fn crate_directory_is_manifest_dir() {
    let env = with(&[("OUT_DIR", "/tmp/build/out"), ("CARGO_MANIFEST_DIR", "/src/pkg")]);
    assert_eq!(crate_directory(&env), Ok("/src/pkg".to_string()));
    assert_eq!(crate_directory(&Environment::new()), Err(missing("CARGO_MANIFEST_DIR")));
}

#[test]
fn env_var_asks_for_rerun_and_gives_value() {
    let env = with(&[("CC", "clang")]);
    assert_eq!(
        env_var(&env, "CC"),
        ("cargo:rerun-if-env-changed=CC".to_string(), Some("clang".to_string()))
    );
}

#[test]
fn env_var_tolerates_absence() {
    let env = with(&[("CC", "clang")]);
    assert_eq!(env_var(&env, "CXX"), ("cargo:rerun-if-env-changed=CXX".to_string(), None));
}

#[test]
fn release_and_debug_profiles() {
    assert_eq!(build_release(&with(&[("PROFILE", "release")])), Ok(true));
    assert_eq!(build_release(&with(&[("PROFILE", "debug")])), Ok(false));
}

#[test]
fn other_profiles_are_refused() {
    for profile in ["", "Release", "DEBUG", "bench", "release ", "dev"] {
        assert_eq!(
            build_release(&with(&[("PROFILE", profile)])),
            Err(BuildError::UnsupportedProfile { profile: profile.to_string() })
        );
    }
}

#[test]
fn missing_profile_is_refused() {
    assert_eq!(build_release(&Environment::new()), Err(missing("PROFILE")));
    assert_eq!(build_release(&with(&[("profile", "release")])), Err(missing("PROFILE")));
}

#[test]
fn target_reads_target_variable() {
    let env = with(&[("TARGET", "x86_64-pc-windows-msvc"), ("HOST", "aarch64-apple-darwin")]);
    let target = target(&env).unwrap();
    assert_eq!(target.as_strs(), ("x86_64", "pc", "windows", Some("msvc")));
}

#[test]
fn target_fails_when_unset_or_malformed() {
    assert_eq!(target(&with(&[("HOST", "aarch64-apple-darwin")])), Err(missing("TARGET")));
    assert_eq!(
        target(&with(&[("TARGET", "x86_64-pc")])),
        Err(BuildError::MalformedTriple { input: "x86_64-pc".to_string() })
    );
}

#[test]
fn host_reads_host_variable_and_reports_it() {
    let env = with(&[("TARGET", "x86_64-pc-windows-msvc"), ("HOST", "aarch64-apple-darwin")]);
    let (line, host) = host(&env);
    assert_eq!(line, Some("HOST: aarch64-apple-darwin".to_string()));
    assert_eq!(host.unwrap().as_strs(), ("aarch64", "apple", "darwin", None));
}

#[test]
fn host_reports_a_malformed_value_too() {
    let (line, host) = host(&with(&[("HOST", "nonsense")]));
    assert_eq!(line, Some("HOST: nonsense".to_string()));
    assert_eq!(host, Err(BuildError::MalformedTriple { input: "nonsense".to_string() }));
}

#[test]
fn host_fails_when_unset() {
    let (line, host) = host(&with(&[("TARGET", "x86_64-pc-windows-msvc")]));
    assert_eq!(line, None);
    assert_eq!(host, Err(missing("HOST")));
}

#[test]
fn error_messages() {
    assert_eq!(
        missing("OUT_DIR").message(),
        "environment variable OUT_DIR is missing or is not valid text"
    );
    assert_eq!(
        BuildError::MalformedTriple { input: "a-b".to_string() }.message(),
        "Failed to parse TARGET a-b"
    );
    assert_eq!(
        BuildError::UnsupportedProfile { profile: "bench".to_string() }.message(),
        "PROFILE 'bench' is not supported by this build script"
    );
}
