//! What one run searches for, where, and how it reports.

use crate::error::SearchError;
use crate::error::SearchErrorView;
use crate::pattern::invalid_pattern;
use crate::pattern::Pattern;
use crate::pattern::PatternView;
use crate::text::texts;
use vstd::pervasive::unreached;
use vstd::prelude::*;

verus! {

/// The argument values of one invocation, as they were given.
#[derive(Clone, Debug, PartialEq, Eq)]
pub struct Args {
    pub pattern: String,
    pub files: Vec<String>,
    pub insensitive: bool,
    pub recursive: bool,
    pub count: bool,
    pub invert_match: bool,
}

/// The settings of one run. Made once and never changed.
#[derive(Debug)]
pub struct Config {
    pattern: Pattern,
    files: Vec<String>,
    recursive: bool,
    count: bool,
    invert_match: bool,
}

/// The view of a [`Config`].
pub struct ConfigView {
    pub pattern: PatternView,
    pub files: Seq<Seq<char>>,
    pub recursive: bool,
    pub count: bool,
    pub invert_match: bool,
}

impl View for Config {
    type V = ConfigView;

    closed spec fn view(&self) -> ConfigView {
        ConfigView {
            pattern: self.pattern@,
            files: texts(self.files@),
            recursive: self.recursive,
            count: self.count,
            invert_match: self.invert_match,
        }
    }
}

impl Default for Config {
    /// The empty pattern, no files, every flag off.
    fn default() -> (config: Config)
        ensures
            config@ == (ConfigView {
                pattern: PatternView { source: Seq::empty(), case_insensitive: false },
                files: Seq::empty(),
                recursive: false,
                count: false,
                invert_match: false,
            }),
    {
        proof {
            reveal_strlit("");
        }
        let pattern = match Pattern::new("", false) {
            Ok(pattern) => pattern,
            Err(_) => unreached(),
        };
        let files: Vec<String> = Vec::new();
        assert(texts(files@) =~= Seq::<Seq<char>>::empty());
        assert(""@ =~= Seq::<char>::empty());
        Config { pattern, files, recursive: false, count: false, invert_match: false }
    }
}

impl Config {
    /// The pattern to search for.
    pub fn pattern(&self) -> (pattern: &Pattern)
        ensures
            pattern@ == self@.pattern,
    {
        &self.pattern
    }

    /// The requested paths, in the order given.
    pub fn files(&self) -> (files: &Vec<String>)
        ensures
            texts(files@) == self@.files,
    {
        &self.files
    }

    /// Whether directories are searched through.
    pub fn recursive(&self) -> (flag: bool)
        ensures
            flag == self@.recursive,
    {
        self.recursive
    }

    /// Whether only the number of selected lines is reported.
    pub fn count(&self) -> (flag: bool)
        ensures
            flag == self@.count,
    {
        self.count
    }

    /// Whether the lines that do not match are the ones selected.
    pub fn invert_match(&self) -> (flag: bool)
        ensures
            flag == self@.invert_match,
    {
        self.invert_match
    }
}

/// Makes the settings of a run from the argument values: compiles the
/// pattern, without regard to case where `insensitive` is set, and keeps the
/// rest as given. A pattern that does not compile is the one failure, and it
/// is fatal; the empty pattern always compiles.
pub fn get_args(args: Args) -> (made: Result<Config, SearchError>)
    ensures
        match made {
            Ok(config) => config@ == (ConfigView {
                pattern: PatternView { source: args.pattern@, case_insensitive: args.insensitive },
                files: texts(args.files@),
                recursive: args.recursive,
                count: args.count,
                invert_match: args.invert_match,
            }),
            Err(error) => error@ == (SearchErrorView::Config {
                message: invalid_pattern(args.pattern@),
            }),
        },
        args.pattern@.len() == 0 ==> made is Ok,
{
    match Pattern::new(args.pattern.as_str(), args.insensitive) {
        Ok(pattern) => Ok(
            Config {
                pattern,
                files: args.files,
                recursive: args.recursive,
                count: args.count,
                invert_match: args.invert_match,
            },
        ),
        Err(error) => Err(error),
    }
}

} // verus!
