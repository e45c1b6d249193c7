//! The variables that cargo sets for a build script, and what a script reads
//! from them.

use crate::directive::rerun_if_env_changed;
use crate::error::{viewed, BuildError, BuildErrorView};
use crate::target::{parse_target, Target, TargetView};
use crate::text::same_text;
use vstd::prelude::*;

verus! {

/// The environment variables of a build script that hold valid text, by
/// name.
#[derive(Debug)]
pub struct Environment {
    vars: Vec<(String, String)>,
}

/// The variables that `entries` bind, a later entry replacing an earlier one
/// of the same name.
spec fn bindings(entries: Seq<(String, String)>) -> Map<Seq<char>, Seq<char>>
    decreases entries.len(),
{
    if entries.len() == 0 {
        Map::empty()
    } else {
        bindings(entries.drop_last()).insert(entries.last().0@, entries.last().1@)
    }
}

/// Where the last entry for `name` is at `at`, `name` is bound to that
/// entry's value.
proof fn lemma_bound(entries: Seq<(String, String)>, name: Seq<char>, at: int)
    requires
        0 <= at < entries.len(),
        entries[at].0@ == name,
        forall|k: int| at < k < entries.len() ==> entries[k].0@ != name,
    ensures
        bindings(entries).contains_key(name),
        bindings(entries)[name] == entries[at].1@,
    decreases entries.len(),
{
    if at < entries.len() - 1 {
        lemma_bound(entries.drop_last(), name, at);
    }
}

/// Where no entry is for `name`, `name` is not bound.
proof fn lemma_unbound(entries: Seq<(String, String)>, name: Seq<char>)
    requires
        forall|k: int| 0 <= k < entries.len() ==> entries[k].0@ != name,
    ensures
        !bindings(entries).contains_key(name),
    decreases entries.len(),
{
    if entries.len() > 0 {
        lemma_unbound(entries.drop_last(), name);
    }
}

impl View for Environment {
    type V = Map<Seq<char>, Seq<char>>;

    closed spec fn view(&self) -> Map<Seq<char>, Seq<char>> {
        bindings(self.vars@)
    }
}

impl Environment {
    /// An environment in which no variable is set.
    pub fn new() -> (env: Environment)
        ensures
            env@ == Map::<Seq<char>, Seq<char>>::empty(),
    {
        Environment { vars: Vec::new() }
    }

    /// Sets `name` to `value`, in place of any value it had.
    pub fn set(&mut self, name: &str, value: &str)
        ensures
            final(self)@ == old(self)@.insert(name@, value@),
    {
        self.vars.push((name.to_owned(), value.to_owned()));
        assert(self.vars@.drop_last() == old(self).vars@);
    }

    /// The value of `name`, if it is set.
    pub fn get(&self, name: &str) -> (value: Option<&str>)
        ensures
            match value {
                Some(text) => self@.contains_key(name@) && self@[name@] == text@,
                None => !self@.contains_key(name@),
            },
    {
        let mut i = self.vars.len();
        while i > 0
            invariant
                i <= self.vars.len(),
                forall|k: int| i <= k < self.vars.len() ==> self.vars[k].0@ != name@,
            decreases i,
        {
            i = i - 1;
            if same_text(self.vars[i].0.as_str(), name) {
                proof {
                    lemma_bound(self.vars@, name@, i as int);
                }
                return Some(self.vars[i].1.as_str());
            }
        }
        proof {
            lemma_unbound(self.vars@, name@);
        }
        None
    }
}

/// The value of a variable that the build cannot do without.
pub open spec fn required(env: Map<Seq<char>, Seq<char>>, name: Seq<char>) -> Result<
    Seq<char>,
    BuildErrorView,
> {
    if env.contains_key(name) {
        Ok(env[name])
    } else {
        Err(BuildErrorView::MissingVariable { name })
    }
}

/// The platform that the variable `name` holds as a triple.
pub open spec fn required_target(env: Map<Seq<char>, Seq<char>>, name: Seq<char>) -> Result<
    TargetView,
    BuildErrorView,
> {
    match required(env, name) {
        Ok(triple) => TargetView::parse(triple),
        Err(error) => Err(error),
    }
}

/// Whether `PROFILE` asks for a release build: yes for `release`, no for
/// `debug`. There is no third profile.
pub open spec fn release_profile(env: Map<Seq<char>, Seq<char>>) -> Result<bool, BuildErrorView> {
    match required(env, "PROFILE"@) {
        Ok(profile) => if profile == "release"@ {
            Ok(true)
        } else if profile == "debug"@ {
            Ok(false)
        } else {
            Err(BuildErrorView::UnsupportedProfile { profile })
        },
        Err(error) => Err(error),
    }
}

fn require<'a>(env: &'a Environment, name: &str) -> (result: Result<&'a str, BuildError>)
    ensures
        viewed(result) == required(env@, name@),
{
    match env.get(name) {
        Some(text) => Ok(text),
        None => Err(BuildError::MissingVariable { name: name.to_owned() }),
    }
}

/// The directory in which the build script is to put what it makes: the
/// value of `OUT_DIR`.
pub fn output_directory(env: &Environment) -> (result: Result<String, BuildError>)
    ensures
        viewed(result) == required(env@, "OUT_DIR"@),
{
    match require(env, "OUT_DIR") {
        Ok(dir) => Ok(dir.to_owned()),
        Err(error) => Err(error),
    }
}

/// The directory that holds the package's manifest: the value of
/// `CARGO_MANIFEST_DIR`.
pub fn crate_directory(env: &Environment) -> (result: Result<String, BuildError>)
    ensures
        viewed(result) == required(env@, "CARGO_MANIFEST_DIR"@),
{
    match require(env, "CARGO_MANIFEST_DIR") {
        Ok(dir) => Ok(dir.to_owned()),
        Err(error) => Err(error),
    }
}

/// Looks up any variable on behalf of the build script. The first result is
/// the line that makes cargo run the script again when the variable changes,
/// to be written whether or not the variable is set; the second is the value.
pub fn env_var(env: &Environment, name: &str) -> (result: (String, Option<String>))
    ensures
        result.0@ == "cargo:rerun-if-env-changed="@ + name@,
        match result.1 {
            Some(value) => env@.contains_key(name@) && env@[name@] == value@,
            None => !env@.contains_key(name@),
        },
{
    let line = rerun_if_env_changed(name);
    let value = match env.get(name) {
        Some(text) => Some(text.to_owned()),
        None => None,
    };
    (line, value)
}

/// Whether this is a release build, as `PROFILE` says.
pub fn build_release(env: &Environment) -> (result: Result<bool, BuildError>)
    ensures
        viewed(result) == release_profile(env@),
{
    match require(env, "PROFILE") {
        Ok(profile) => {
            if same_text(profile, "release") {
                Ok(true)
            } else if same_text(profile, "debug") {
                Ok(false)
            } else {
                Err(BuildError::UnsupportedProfile { profile: profile.to_owned() })
            }
        },
        Err(error) => Err(error),
    }
}

/// The platform that is built for: the triple in `TARGET`.
pub fn target(env: &Environment) -> (result: Result<Target, BuildError>)
    ensures
        viewed(result) == required_target(env@, "TARGET"@),
{
    match require(env, "TARGET") {
        Ok(triple) => parse_target(triple),
        Err(error) => Err(error),
    }
}

/// The platform that the build runs on: the triple in `HOST`.
///
/// Where `HOST` is set, the first result is the line `HOST: ` with its
/// value, to be written out for whoever reads the build's output, also when
/// the value then turns out to be no triple.
pub fn host(env: &Environment) -> (result: (Option<String>, Result<Target, BuildError>))
    ensures
        match result.0 {
            Some(line) => env@.contains_key("HOST"@) && line@ == "HOST: "@ + env@["HOST"@],
            None => !env@.contains_key("HOST"@),
        },
        viewed(result.1) == required_target(env@, "HOST"@),
{
    match require(env, "HOST") {
        Ok(triple) => {
            let mut line = String::from_str("HOST: ");
            line.append(triple);
            (Some(line), parse_target(triple))
        },
        Err(error) => (None, Err(error)),
    }
}

} // verus!
