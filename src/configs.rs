//! The configuration snapshot: both pattern tables, the parsed command line
//! and the rule tree, assembled once and read by every later stage.
use vstd::prelude::*;
use crate::arguments::{ArgumentError, ArgumentResult, command_line_result, parse_arguments};
use crate::patterns::{PatternLoadError, PatternSource, load_pattern_table, table_of_source};

verus! {

/// The file of regular-expression patterns.
pub const REGEX_FILE: &'static str = "regexes.txt";

/// The file of whitelisted patterns.
pub const WHITELIST_FILE: &'static str = "whitelist.txt";

/// The directory of rule documents.
pub const RULES_DIR: &'static str = "rules";

/// The output language selected on the command line.
#[derive(Clone, Copy, Debug, PartialEq, Eq)]
pub enum Lang {
    Ja,
    En,
}

/// The configuration snapshot. `R` is the rule tree, which the rule loader
/// owns and this library only carries.
#[derive(Clone, Debug)]
pub struct SingletonReader<R> {
    pub regex: Vec<Vec<String>>,
    pub whitelist: Vec<Vec<String>>,
    pub args: ArgumentResult,
    pub rules: R,
}

/// Why no snapshot could be built; both are fatal.
#[derive(Debug)]
pub enum ConfigError {
    /// A pattern file is missing.
    Pattern(PatternLoadError),
    /// The command line was refused.
    Arguments(ArgumentError),
}

/// Assembles the snapshot from the rule tree, what was read of the regex
/// and whitelist files, and the command line. A missing pattern file (the
/// regex file first) or a refused command line yields an error, and no
/// snapshot.
pub fn assemble_snapshot<R>(
    rules: R,
    regex: PatternSource,
    whitelist: PatternSource,
    argv: &Vec<String>,
) -> (r: Result<SingletonReader<R>, ConfigError>)
    ensures
        regex is Missing ==> (r matches Err(ConfigError::Pattern(PatternLoadError::FileNotFound(p)))
            && p@ == REGEX_FILE@),
        !(regex is Missing) && whitelist is Missing ==> (r matches Err(
            ConfigError::Pattern(PatternLoadError::FileNotFound(p)),
        ) && p@ == WHITELIST_FILE@),
        !(regex is Missing) && !(whitelist is Missing) ==> ((r is Ok) <==> command_line_result(
            argv.deep_view(),
        ) is Some),
        !(regex is Missing) && !(whitelist is Missing) && command_line_result(argv.deep_view())
            is None ==> r matches Err(ConfigError::Arguments(_)),
        r matches Ok(s) ==> {
            &&& s.regex.deep_view() == table_of_source(regex)
            &&& s.whitelist.deep_view() == table_of_source(whitelist)
            &&& Some(s.args@) == command_line_result(argv.deep_view())
            &&& s.rules == rules
        },
{
    let regex_table = match load_pattern_table(REGEX_FILE, regex) {
        Ok(t) => t,
        Err(e) => {
            return Err(ConfigError::Pattern(e));
        },
    };
    let whitelist_table = match load_pattern_table(WHITELIST_FILE, whitelist) {
        Ok(t) => t,
        Err(e) => {
            return Err(ConfigError::Pattern(e));
        },
    };
    let args = match parse_arguments(argv) {
        Ok(a) => a,
        Err(e) => {
            return Err(ConfigError::Arguments(e));
        },
    };
    Ok(SingletonReader { regex: regex_table, whitelist: whitelist_table, args, rules })
}

} // verus!
