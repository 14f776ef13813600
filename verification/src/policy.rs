//! The ignore policy: glob-style rules from each repository's ignore file,
//! plus the built-in protection of the core's own bookkeeping files.
//!
//! The glob matcher itself is an oracle supplied by an outside crate; its
//! verdict for a rule set and a path is given the name [`ignore_match`]
//! and everything built on top of it is verified against that name.

use vstd::prelude::*;

verus! {

/// The conventional name of the tracking record inside the target root.
pub fn config_file_name() -> (r: String)
    ensures
        r@ == ".gitskel.toml"@,
{
    ".gitskel.toml".to_owned()
}

/// The conventional name of the per-repository ignore file.
pub fn ignore_file_name() -> (r: String)
    ensures
        r@ == ".gitskelignore"@,
{
    ".gitskelignore".to_owned()
}

/// The verdict of the glob matcher for a rule set and a path: `true` when
/// the path is ignored. The matcher's semantics (glob-pattern-per-line,
/// directory scoping, negation) take pages to state; the verdict is a
/// function of the rules and the path alone, so it only gets this name.
pub uninterp spec fn ignore_match(rules: Seq<Seq<char>>, path: Seq<char>) -> bool;

/// Relies on ignore::gitignore::GitignoreBuilder (new, add_line, build)
/// and ignore::gitignore::Gitignore::matched: builds a matcher rooted at
/// the empty path from the given rule lines and asks whether it ignores
/// the given relative path. With a fixed root the verdict depends on the
/// rules and the path alone; lines that fail to parse as globs add no
/// rule, which is likewise deterministic.
#[verifier::external_body]
fn glob_is_ignored(rules: &Vec<String>, path: &str) -> (r: bool)
    ensures
        r == ignore_match(rules.deep_view(), path@),
{
    let mut builder = ignore::gitignore::GitignoreBuilder::new("");
    for line in rules.iter() {
        let _ = builder.add_line(None, line);
    }
    match builder.build() {
        Ok(matcher) => matcher.matched(path, false).is_ignore(),
        Err(_) => false,
    }
}

/// The built-in rule: the tracking record and the ignore file themselves
/// are never copied or deleted by the engine, whatever the rule sets say.
pub open spec fn protected(path: Seq<char>) -> bool {
    path == ".gitskel.toml"@ || path == ".gitskelignore"@
}

/// Decides [`protected`] for a concrete path.
pub fn is_protected(path: &str) -> (r: bool)
    ensures
        r == protected(path@),
{
    let p: String = path.to_owned();
    p == config_file_name() || p == ignore_file_name()
}

/// One side's ignore policy: the rule lines read from that repository's
/// ignore file (the shell reads the file; the rules live here).
#[derive(Debug, Clone)]
pub struct IgnorePolicy {
    pub rules: Vec<String>,
}

impl IgnorePolicy {
    /// Wraps the rule lines of one repository's ignore file.
    pub fn new(rules: Vec<String>) -> (p: IgnorePolicy)
        ensures
            p.rules@ == rules@,
    {
        IgnorePolicy { rules }
    }

    /// Asks the glob matcher whether this side ignores the path.
    pub fn matches(&self, path: &str) -> (r: bool)
        ensures
            r == ignore_match(self.rules.deep_view(), path@),
    {
        glob_is_ignored(&self.rules, path)
    }
}

/// Both sides' policies. A path is ignored for an operation when either
/// side matches it, or when it is one of the core's own files: ignoring
/// is a union, so either repository can opt a path out of synchronization.
#[derive(Debug, Clone)]
pub struct PolicyPair {
    pub src: IgnorePolicy,
    pub tgt: IgnorePolicy,
}

/// Whether the pair of policies ignores a path for purposes of an
/// operation: the union of both sides plus the built-in protection.
pub open spec fn pair_ignored(pp: PolicyPair, path: Seq<char>) -> bool {
    ||| protected(path)
    ||| ignore_match(pp.src.rules.deep_view(), path)
    ||| ignore_match(pp.tgt.rules.deep_view(), path)
}

impl PolicyPair {
    /// Builds the pair from the two sides' rule lines.
    pub fn new(src: IgnorePolicy, tgt: IgnorePolicy) -> (pp: PolicyPair)
        ensures
            pp.src == src,
            pp.tgt == tgt,
    {
        PolicyPair { src, tgt }
    }

    /// Decides [`pair_ignored`] for a concrete path.
    pub fn is_ignored(&self, path: &str) -> (r: bool)
        ensures
            r == pair_ignored(*self, path@),
    {
        is_protected(path) || self.src.matches(path) || self.tgt.matches(path)
    }
}

} // verus!
