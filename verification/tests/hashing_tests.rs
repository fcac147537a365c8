use foundry::hashing::{compute_ast_hash, compute_dependency_hash, compute_environment_hash, BuildEnvironment};
use std::collections::hash_map::DefaultHasher;
use std::hash::{Hash, Hasher};

fn reference_text_hash(text: &str) -> u64 {
    let mut hasher = DefaultHasher::new();
    text.hash(&mut hasher);
    hasher.finish()
}

fn sample_env(lockfile_hash: Option<u64>) -> BuildEnvironment {
    BuildEnvironment {
        pkg_version: "0.1.0".to_string(),
        pkg_name: "demo".to_string(),
        target: "x86_64-unknown-linux-gnu".to_string(),
        profile: "debug".to_string(),
        opt_level: "0".to_string(),
        debug: "true".to_string(),
        lockfile_hash,
    }
}

#[test]
fn ast_hash_is_the_default_hash_of_the_source() {
    let src = "fn f() -> u32 { 42 }";
    assert_eq!(compute_ast_hash(src), reference_text_hash(src));
    assert_ne!(compute_ast_hash("a"), compute_ast_hash("b"));
    assert_eq!(compute_ast_hash(""), reference_text_hash(""));
}

#[test]
fn dependency_hash_agrees_with_ast_hash_on_the_same_text() {
    let lock = "[[package]]\nname = \"demo\"\n";
    assert_eq!(compute_dependency_hash(lock), compute_ast_hash(lock));
    assert_eq!(compute_dependency_hash(lock), reference_text_hash(lock));
}

#[test]
fn environment_hash_feeds_settings_in_order() {
    let env = sample_env(None);
    let mut hasher = DefaultHasher::new();
    env.pkg_version.hash(&mut hasher);
    env.pkg_name.hash(&mut hasher);
    env.target.hash(&mut hasher);
    env.profile.hash(&mut hasher);
    env.opt_level.hash(&mut hasher);
    env.debug.hash(&mut hasher);
    assert_eq!(compute_environment_hash(&env), hasher.finish());

    let with_lock = sample_env(Some(99));
    99u64.hash(&mut hasher);
    assert_eq!(compute_environment_hash(&with_lock), hasher.finish());
    assert_ne!(compute_environment_hash(&with_lock), compute_environment_hash(&env));
}
