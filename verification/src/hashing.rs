//! Signatures that identify the state of the source code, the dependency
//! lockfile and the build environment.
//!
//! A `DefaultHasher` is modelled, as vstd models it, by the sequence of byte
//! writes it has received; its digest is `DefaultHasher::spec_finish` of that
//! sequence.
use vstd::prelude::*;
use std::collections::hash_map::DefaultHasher;
use std::hash::{Hash, Hasher};
use vstd::std_specs::hash::DefaultHasherAdditionalSpecFns;
use crate::mold_runtime::{native_order, Endianness};

verus! {

/// The writes that `<str as Hash>::hash` performs on a `DefaultHasher` for a
/// text.
pub uninterp spec fn str_hash_writes(text: Seq<char>) -> Seq<Seq<u8>>;

/// The writes that `<u64 as Hash>::hash` performs on a `DefaultHasher` for a
/// value, on a machine of byte order `order`.
pub uninterp spec fn u64_hash_writes(value: u64, order: Endianness) -> Seq<Seq<u8>>;

/// `<str as Hash>::hash`: feeds `text` to `hasher`. `Hash` requires equal
/// values to be fed alike, so what is appended to what the hasher had
/// received is a function of the text alone, named `str_hash_writes`. How a
/// text is encoded (std leaves the choice between a length prefix and a
/// trailing `0xFF` open) is not stated.
#[verifier::external_body]
fn feed_text(hasher: &mut DefaultHasher, text: &str)
    ensures
        final(hasher)@ == old(hasher)@ + str_hash_writes(text@),
{
    text.hash(hasher)
}

/// `<u64 as Hash>::hash`: feeds `value` to `hasher` through
/// `Hasher::write_u64`. What is appended to what the hasher had received is a
/// function of the value and of the machine's byte order (vstd's
/// `endianness`), named `u64_hash_writes`; which bytes those are is not
/// stated.
#[verifier::external_body]
fn feed_u64(hasher: &mut DefaultHasher, value: u64)
    ensures
        final(hasher)@ == old(hasher)@ + u64_hash_writes(value, native_order()),
{
    value.hash(hasher)
}

/// Digest of a single text with a fresh `DefaultHasher`.
pub open spec fn text_digest(text: Seq<char>) -> u64 {
    DefaultHasher::spec_finish(str_hash_writes(text))
}

fn digest_of_text(text: &str) -> (digest: u64)
    ensures
        digest == text_digest(text@),
{
    let mut hasher = DefaultHasher::new();
    feed_text(&mut hasher, text);
    assert(Seq::<Seq<u8>>::empty() + str_hash_writes(text@) =~= str_hash_writes(text@));
    hasher.finish()
}

/// Semantic hash of a function body, computed from its source text.
pub fn compute_ast_hash(source: &str) -> (hash: u64)
    ensures
        hash == text_digest(source@),
{
    digest_of_text(source)
}

/// Hash of the dependency lockfile, computed from its contents.
pub fn compute_dependency_hash(lockfile: &str) -> (hash: u64)
    ensures
        hash == text_digest(lockfile@),
{
    digest_of_text(lockfile)
}

/// The values of the build environment that identify a build: the package
/// version and name, the target, the profile, the optimisation level, the
/// debug setting (each empty where unset), and the hash of the lockfile when
/// one could be read.
pub struct BuildEnvironment {
    pub pkg_version: String,
    pub pkg_name: String,
    pub target: String,
    pub profile: String,
    pub opt_level: String,
    pub debug: String,
    pub lockfile_hash: Option<u64>,
}

/// The writes that hashing the textual settings of `env` performs, in order.
pub open spec fn environment_text_writes(env: BuildEnvironment) -> Seq<Seq<u8>> {
    str_hash_writes(env.pkg_version@) + str_hash_writes(env.pkg_name@) + str_hash_writes(
        env.target@,
    ) + str_hash_writes(env.profile@) + str_hash_writes(env.opt_level@) + str_hash_writes(
        env.debug@,
    )
}

/// Combined hash of the build environment: the textual settings in order,
/// then the lockfile hash when there is one.
pub fn compute_environment_hash(env: &BuildEnvironment) -> (hash: u64)
    ensures
        env.lockfile_hash is None ==> hash == DefaultHasher::spec_finish(environment_text_writes(*env)),
        env.lockfile_hash matches Some(lock) ==> hash == DefaultHasher::spec_finish(
            environment_text_writes(*env) + u64_hash_writes(lock, native_order()),
        ),
{
    let mut hasher = DefaultHasher::new();
    feed_text(&mut hasher, env.pkg_version.as_str());
    feed_text(&mut hasher, env.pkg_name.as_str());
    feed_text(&mut hasher, env.target.as_str());
    feed_text(&mut hasher, env.profile.as_str());
    feed_text(&mut hasher, env.opt_level.as_str());
    feed_text(&mut hasher, env.debug.as_str());
    let ghost texts = hasher@;
    assert(texts =~= environment_text_writes(*env));
    match env.lockfile_hash {
        Some(lock) => {
            feed_u64(&mut hasher, lock);
        },
        None => {},
    }
    hasher.finish()
}

} // verus!
