//! Names of branches on remotes, and patterns that select them.

use crate::text::{glue, rsplit_once, spec_rsplit_once, spec_split_once, split_once};
use vstd::prelude::*;
use vstd::string::*;

verus! {

/// Pattern to be tested against a string property like a branch name.
#[derive(Debug, PartialEq, Eq)]
pub enum StringPattern {
    /// Matches strings exactly equal to `string`.
    Exact(String),
    /// Unix-style shell wildcard pattern.
    Glob(String),
    /// Matches strings that contain `substring`.
    Substring(String),
}

pub enum StringPatternView {
    Exact(Seq<char>),
    Glob(Seq<char>),
    Substring(Seq<char>),
}

impl View for StringPattern {
    type V = StringPatternView;

    open spec fn view(&self) -> StringPatternView {
        match self {
            StringPattern::Exact(s) => StringPatternView::Exact(s@),
            StringPattern::Glob(s) => StringPatternView::Glob(s@),
            StringPattern::Substring(s) => StringPatternView::Substring(s@),
        }
    }
}

impl StringPatternView {
    /// The text that the pattern was made of.
    pub open spec fn text(self) -> Seq<char> {
        match self {
            StringPatternView::Exact(s) => s,
            StringPatternView::Glob(s) => s,
            StringPatternView::Substring(s) => s,
        }
    }
}

/// Error occurred during pattern string parsing.
#[derive(Debug, PartialEq, Eq)]
pub enum StringPatternParseError {
    /// Unknown pattern kind is specified.
    InvalidKind(String),
    /// Failed to parse glob pattern; the message says why.
    GlobPattern(String),
}

pub enum StringPatternParseErrorView {
    InvalidKind(Seq<char>),
    GlobPattern(Seq<char>),
}

impl View for StringPatternParseError {
    type V = StringPatternParseErrorView;

    open spec fn view(&self) -> StringPatternParseErrorView {
        match self {
            StringPatternParseError::InvalidKind(kind) => StringPatternParseErrorView::InvalidKind(
                kind@,
            ),
            StringPatternParseError::GlobPattern(message) => {
                StringPatternParseErrorView::GlobPattern(message@)
            },
        }
    }
}

impl StringPatternParseErrorView {
    /// The message of the error.
    pub open spec fn message(self) -> Seq<char> {
        match self {
            StringPatternParseErrorView::InvalidKind(kind) => "Invalid string pattern kind \""@
                + kind + "\""@,
            StringPatternParseErrorView::GlobPattern(message) => message,
        }
    }
}

impl StringPatternParseError {
    /// The message of the error.
    pub fn to_string(&self) -> (message: String)
        ensures
            message@ == self@.message(),
    {
        match self {
            StringPatternParseError::InvalidKind(kind) => {
                let mut message = glue("Invalid string pattern kind \"", kind.as_str());
                message.append("\"");
                message
            },
            StringPatternParseError::GlobPattern(message) => message.clone(),
        }
    }
}

/// The message with which `glob::Pattern::new` refuses a text, or nothing
/// where it accepts it.
pub uninterp spec fn glob_pattern_error(src: Seq<char>) -> Option<Seq<char>>;

/// The view of a pattern or an error.
pub open spec fn pattern_result_view(outcome: Result<StringPattern, StringPatternParseError>) -> Result<
    StringPatternView,
    StringPatternParseErrorView,
> {
    match outcome {
        Ok(pattern) => Ok(pattern@),
        Err(error) => Err(error@),
    }
}

/// The pattern of a kind for a text: `exact`, `glob` or `substring`; any
/// other kind is an error, and so is a glob that was refused with
/// `glob_error`.
pub open spec fn spec_pattern_of_kind(
    src: Seq<char>,
    kind: Seq<char>,
    glob_error: Option<Seq<char>>,
) -> Result<StringPatternView, StringPatternParseErrorView> {
    if kind == "exact"@ {
        Ok(StringPatternView::Exact(src))
    } else if kind == "glob"@ {
        match glob_error {
            None => Ok(StringPatternView::Glob(src)),
            Some(message) => Err(StringPatternParseErrorView::GlobPattern(message)),
        }
    } else if kind == "substring"@ {
        Ok(StringPatternView::Substring(src))
    } else {
        Err(StringPatternParseErrorView::InvalidKind(kind))
    }
}

/// The pattern of a kind for a text.
pub open spec fn spec_from_str_kind(src: Seq<char>, kind: Seq<char>) -> Result<
    StringPatternView,
    StringPatternParseErrorView,
> {
    spec_pattern_of_kind(src, kind, glob_pattern_error(src))
}

/// Parses the given string as pattern of the specified `kind`.
///
/// Trusted: calls `StringPattern::from_str_kind` of `jj_lib` and copies
/// what it gives, variant by variant. It makes an exact pattern of the text
/// for the kind `exact`, a substring pattern for `substring`, and for `glob`
/// the pattern that `glob::Pattern::new` compiles of the text, which keeps
/// the text, or that function's error, of which the message is kept. Any
/// other kind is refused by its name.
#[verifier::external_body]
fn pattern_from_str_kind(src: &str, kind: &str) -> (outcome: Result<
    StringPattern,
    StringPatternParseError,
>)
    ensures
        pattern_result_view(outcome) == spec_pattern_of_kind(src@, kind@, glob_pattern_error(src@)),
{
    match jj_lib::str_util::StringPattern::from_str_kind(src, kind) {
        Ok(jj_lib::str_util::StringPattern::Exact(s)) => Ok(StringPattern::Exact(s)),
        Ok(jj_lib::str_util::StringPattern::Glob(p)) => Ok(StringPattern::Glob(p.as_str().to_owned())),
        Ok(jj_lib::str_util::StringPattern::Substring(s)) => Ok(StringPattern::Substring(s)),
        Err(jj_lib::str_util::StringPatternParseError::InvalidKind(k)) => Err(
            StringPatternParseError::InvalidKind(k),
        ),
        Err(jj_lib::str_util::StringPatternParseError::GlobPattern(e)) => Err(
            StringPatternParseError::GlobPattern(e.to_string()),
        ),
    }
}

impl StringPattern {
    /// Creates pattern that matches exactly.
    pub fn exact(src: &str) -> (pattern: Self)
        ensures
            pattern@ == StringPatternView::Exact(src@),
    {
        StringPattern::Exact(src.to_owned())
    }

    /// Parses the given string as pattern of the specified `kind`.
    pub fn from_str_kind(src: &str, kind: &str) -> (outcome: Result<Self, StringPatternParseError>)
        ensures
            pattern_result_view(outcome) == spec_from_str_kind(src@, kind@),
    {
        pattern_from_str_kind(src, kind)
    }

    /// Returns true if this pattern matches input strings exactly.
    pub fn is_exact(&self) -> (exact: bool)
        ensures
            exact == (self@ is Exact),
    {
        match self {
            StringPattern::Exact(_) => true,
            StringPattern::Glob(_) | StringPattern::Substring(_) => false,
        }
    }

    /// Returns the text that this pattern was made of.
    pub fn as_str(&self) -> (text: &str)
        ensures
            text@ == self@.text(),
    {
        match self {
            StringPattern::Exact(literal) => literal.as_str(),
            StringPattern::Glob(pattern) => pattern.as_str(),
            StringPattern::Substring(needle) => needle.as_str(),
        }
    }
}

/// What [`parse_string_pattern`] returns.
pub open spec fn spec_parse_string_pattern(src: Seq<char>) -> Result<
    StringPatternView,
    StringPatternParseErrorView,
> {
    match spec_split_once(src, ':') {
        Some((kind, pat)) => spec_from_str_kind(pat, kind),
        None => Ok(StringPatternView::Exact(src)),
    }
}

/// Parses a pattern written as `kind:text`, or as a text alone, which is
/// then matched exactly.
pub fn parse_string_pattern(src: &str) -> (outcome: Result<StringPattern, StringPatternParseError>)
    ensures
        pattern_result_view(outcome) == spec_parse_string_pattern(src@),
{
    match split_once(src, ':') {
        Some((kind, pat)) => StringPattern::from_str_kind(pat.as_str(), kind.as_str()),
        None => Ok(StringPattern::exact(src)),
    }
}

/// A branch on a remote.
#[derive(Debug, PartialEq, Eq, Hash, PartialOrd, Ord)]
pub struct RemoteBranchName {
    pub branch: String,
    pub remote: String,
}

impl RemoteBranchName {
    /// The name as it is written: the branch, `@`, the remote.
    pub fn to_string(&self) -> (text: String)
        ensures
            text@ == self.branch@ + "@"@ + self.remote@,
    {
        let mut text = glue(self.branch.as_str(), "@");
        text.append(self.remote.as_str());
        text
    }
}

impl Clone for RemoteBranchName {
    fn clone(&self) -> (copy: Self)
        ensures
            copy.branch@ == self.branch@,
            copy.remote@ == self.remote@,
    {
        RemoteBranchName { branch: self.branch.clone(), remote: self.remote.clone() }
    }
}

/// A pattern for the branch and one for the remote.
#[derive(Debug, PartialEq, Eq)]
pub struct RemoteBranchNamePattern {
    pub branch: StringPattern,
    pub remote: StringPattern,
}

pub struct RemoteBranchNamePatternView {
    pub branch: StringPatternView,
    pub remote: StringPatternView,
}

impl View for RemoteBranchNamePattern {
    type V = RemoteBranchNamePatternView;

    open spec fn view(&self) -> RemoteBranchNamePatternView {
        RemoteBranchNamePatternView { branch: self.branch@, remote: self.remote@ }
    }
}

/// The message for a pattern without `@`.
pub open spec fn spec_missing_remote() -> Seq<char> {
    "remote branch must be specified in branch@remote form"@
}

/// The pattern for one of the two names: of the kind that was written
/// before the colon, or exact where none was.
pub open spec fn spec_to_pattern(kind: Option<Seq<char>>, pat: Seq<char>) -> Result<
    StringPatternView,
    Seq<char>,
> {
    match kind {
        Some(k) => match spec_from_str_kind(pat, k) {
            Ok(pattern) => Ok(pattern),
            Err(error) => Err(error.message()),
        },
        None => Ok(StringPatternView::Exact(pat)),
    }
}

/// What [`RemoteBranchNamePattern::from_str`] returns.
pub open spec fn spec_remote_branch_pattern(src: Seq<char>) -> Result<
    RemoteBranchNamePatternView,
    Seq<char>,
> {
    let (kind, pat) = match spec_split_once(src, ':') {
        Some((kind, pat)) => (Some(kind), pat),
        None => (None, src),
    };
    match spec_rsplit_once(pat, '@') {
        None => Err(spec_missing_remote()),
        Some((branch, remote)) => match spec_to_pattern(kind, branch) {
            Err(message) => Err(message),
            Ok(branch_pattern) => match spec_to_pattern(kind, remote) {
                Err(message) => Err(message),
                Ok(remote_pattern) => Ok(
                    RemoteBranchNamePatternView { branch: branch_pattern, remote: remote_pattern },
                ),
            },
        },
    }
}

/// The view of a pattern for remote branches or a message.
pub open spec fn remote_pattern_result_view(outcome: Result<RemoteBranchNamePattern, String>) -> Result<
    RemoteBranchNamePatternView,
    Seq<char>,
> {
    match outcome {
        Ok(pattern) => Ok(pattern@),
        Err(message) => Err(message@),
    }
}

fn to_pattern(kind: &Option<String>, pat: &str) -> (outcome: Result<StringPattern, String>)
    ensures
        match outcome {
            Ok(pattern) => spec_to_pattern(
                match kind {
                    Some(k) => Some(k@),
                    None => None,
                },
                pat@,
            ) == Ok::<StringPatternView, Seq<char>>(pattern@),
            Err(message) => spec_to_pattern(
                match kind {
                    Some(k) => Some(k@),
                    None => None,
                },
                pat@,
            ) == Err::<StringPatternView, Seq<char>>(message@),
        },
{
    match kind {
        Some(k) => match StringPattern::from_str_kind(pat, k.as_str()) {
            Ok(pattern) => Ok(pattern),
            Err(error) => Err(error.to_string()),
        },
        None => Ok(StringPattern::exact(pat)),
    }
}

impl RemoteBranchNamePattern {
    /// Parses a pattern written as `branch@remote`, or as
    /// `kind:branch@remote`, where the kind holds for both names. The names
    /// are split at the last `@`.
    pub fn from_str(src: &str) -> (outcome: Result<Self, String>)
        ensures
            remote_pattern_result_view(outcome) == spec_remote_branch_pattern(src@),
    {
        // The kind prefix applies to both branch and remote fragments.
        let (maybe_kind, pat) = match split_once(src, ':') {
            Some((kind, pat)) => (Some(kind), pat),
            None => (None, src.to_owned()),
        };
        let (branch, remote) = match rsplit_once(pat.as_str(), '@') {
            Some(names) => names,
            None => {
                return Err("remote branch must be specified in branch@remote form".to_owned());
            },
        };
        let branch_pattern = match to_pattern(&maybe_kind, branch.as_str()) {
            Ok(pattern) => pattern,
            Err(message) => {
                return Err(message);
            },
        };
        let remote_pattern = match to_pattern(&maybe_kind, remote.as_str()) {
            Ok(pattern) => pattern,
            Err(message) => {
                return Err(message);
            },
        };
        Ok(RemoteBranchNamePattern { branch: branch_pattern, remote: remote_pattern })
    }

    pub fn is_exact(&self) -> (exact: bool)
        ensures
            exact == (self@.branch is Exact && self@.remote is Exact),
    {
        self.branch.is_exact() && self.remote.is_exact()
    }

    /// The pattern as it is written: the text of the branch pattern, `@`,
    /// the text of the remote pattern.
    pub fn to_string(&self) -> (text: String)
        ensures
            text@ == self@.branch.text() + "@"@ + self@.remote.text(),
    {
        let mut text = glue(self.branch.as_str(), "@");
        text.append(self.remote.as_str());
        text
    }
}

} // verus!
