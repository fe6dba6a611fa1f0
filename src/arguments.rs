//! The command-line surface: the flag schema handed to clap, and the
//! structured result read back from what clap matched.
use vstd::prelude::*;

verus! {

#[verifier::external_type_specification]
#[verifier::external_body]
pub struct ExClapError(clap::Error);

/// The flags, in schema order, as clap usage strings.
pub open spec fn usage_lines() -> Seq<Seq<char>> {
    seq![
        "-f --filepath=[FILEPATH] 'event file path'"@,
        "--attackhunt=[ATTACK_HUNT] 'Attack Hunt'"@,
        "--csv-timeline=[CSV_TIMELINE] 'csv output timeline'"@,
        "--human-readable-timeline=[HUMAN_READABLE_TIMELINE] 'human readable timeline'"@,
        "-l --lang=[LANG] 'output language'"@,
        "-t --timezone=[TIMEZONE] 'timezone setting'"@,
        "-d --directory 'event log files directory'"@,
        "-s --statistics 'event statistics'"@,
        "-u --update 'signature update'"@,
        "--credits 'Zachary Mathis, Akira Nishikawa'"@,
    ]
}

/// The names under which clap reports each flag, in schema order.
pub open spec fn flag_names() -> Seq<Seq<char>> {
    seq![
        "filepath"@,
        "attackhunt"@,
        "csv-timeline"@,
        "human-readable-timeline"@,
        "lang"@,
        "timezone"@,
        "directory"@,
        "statistics"@,
        "update"@,
        "credits"@,
    ]
}

/// The flag schema as clap usage strings, in schema order.
pub fn flag_usages() -> (r: Vec<String>)
    ensures
        r.deep_view() == usage_lines(),
{
    let r = vec![
        "-f --filepath=[FILEPATH] 'event file path'".to_string(),
        "--attackhunt=[ATTACK_HUNT] 'Attack Hunt'".to_string(),
        "--csv-timeline=[CSV_TIMELINE] 'csv output timeline'".to_string(),
        "--human-readable-timeline=[HUMAN_READABLE_TIMELINE] 'human readable timeline'".to_string(),
        "-l --lang=[LANG] 'output language'".to_string(),
        "-t --timezone=[TIMEZONE] 'timezone setting'".to_string(),
        "-d --directory 'event log files directory'".to_string(),
        "-s --statistics 'event statistics'".to_string(),
        "-u --update 'signature update'".to_string(),
        "--credits 'Zachary Mathis, Akira Nishikawa'".to_string(),
    ];
    assert(r.deep_view() =~= usage_lines());
    r
}

/// The flag names, in schema order.
pub fn flag_name_list() -> (r: Vec<String>)
    ensures
        r.deep_view() == flag_names(),
{
    let r = vec![
        "filepath".to_string(),
        "attackhunt".to_string(),
        "csv-timeline".to_string(),
        "human-readable-timeline".to_string(),
        "lang".to_string(),
        "timezone".to_string(),
        "directory".to_string(),
        "statistics".to_string(),
        "update".to_string(),
        "credits".to_string(),
    ];
    assert(r.deep_view() =~= flag_names());
    r
}

/// What clap reports of one flag: whether it was given, and its first
/// value if it takes one.
pub type FlagView = (bool, Option<Seq<char>>);

/// The parsed command line, one field per flag of the schema. A value flag
/// that was not given is `None`; a switch that was not given is `false`.
#[derive(Clone, Debug)]
pub struct ArgumentResult {
    pub filepath: Option<String>,
    pub attackhunt: Option<String>,
    pub csv_timeline: Option<String>,
    pub human_readable_timeline: Option<String>,
    pub lang: Option<String>,
    pub timezone: Option<String>,
    pub directory: bool,
    pub statistics: bool,
    pub update: bool,
    pub credits: bool,
}

/// The mathematical value of an [`ArgumentResult`]: its strings as
/// character sequences.
pub struct ArgumentsView {
    pub filepath: Option<Seq<char>>,
    pub attackhunt: Option<Seq<char>>,
    pub csv_timeline: Option<Seq<char>>,
    pub human_readable_timeline: Option<Seq<char>>,
    pub lang: Option<Seq<char>>,
    pub timezone: Option<Seq<char>>,
    pub directory: bool,
    pub statistics: bool,
    pub update: bool,
    pub credits: bool,
}

impl View for ArgumentResult {
    type V = ArgumentsView;

    open spec fn view(&self) -> ArgumentsView {
        ArgumentsView {
            filepath: self.filepath.deep_view(),
            attackhunt: self.attackhunt.deep_view(),
            csv_timeline: self.csv_timeline.deep_view(),
            human_readable_timeline: self.human_readable_timeline.deep_view(),
            lang: self.lang.deep_view(),
            timezone: self.timezone.deep_view(),
            directory: self.directory,
            statistics: self.statistics,
            update: self.update,
            credits: self.credits,
        }
    }
}

/// The result that the per-flag reports `v` (in schema order) describe:
/// value flags take their value, switches whether they were given.
pub open spec fn arguments_of(v: Seq<FlagView>) -> ArgumentsView {
    ArgumentsView {
        filepath: v[0].1,
        attackhunt: v[1].1,
        csv_timeline: v[2].1,
        human_readable_timeline: v[3].1,
        lang: v[4].1,
        timezone: v[5].1,
        directory: v[6].0,
        statistics: v[7].0,
        update: v[8].0,
        credits: v[9].0,
    }
}

impl ArgumentResult {
    /// Reads the result from clap's per-flag reports, given in schema order.
    pub fn from_flag_values(values: &Vec<(bool, Option<String>)>) -> (r: ArgumentResult)
        requires
            values@.len() == flag_names().len(),
        ensures
            r@ == arguments_of(values.deep_view()),
    {
        ArgumentResult {
            filepath: values[0].1.clone(),
            attackhunt: values[1].1.clone(),
            csv_timeline: values[2].1.clone(),
            human_readable_timeline: values[3].1.clone(),
            lang: values[4].1.clone(),
            timezone: values[5].1.clone(),
            directory: values[6].0,
            statistics: values[7].0,
            update: values[8].0,
            credits: values[9].0,
        }
    }
}

/// Why a command line was not turned into a result.
#[derive(Debug)]
pub enum ArgumentError {
    /// The argument vector is empty, or its first entry names no file
    /// from which a program name can be taken.
    NoProgramName,
    /// clap refused the command line, or answered it with help or version
    /// text; the error carries the text and the exit status to use.
    Usage(clap::Error),
}

/// The per-flag reports (given, first value) that clap gives for the
/// command line `argv`, whose first entry is the binary, under an app named
/// `program` with the flags `usages`, asked for the flags `names`; `None`
/// where clap refuses the command line or answers it with help or version
/// text.
pub uninterp spec fn clap_outcome(
    program: Seq<char>,
    usages: Seq<Seq<char>>,
    names: Seq<Seq<char>>,
    argv: Seq<Seq<char>>,
) -> Option<Seq<FlagView>>;

/// Relies on clap's App::get_matches_from_safe, with one Arg::from_usage per
/// usage string, then ArgMatches::is_present and ArgMatches::value_of_lossy
/// for each name: one report per name, in order. Only the schema's own
/// usage strings are handed over: clap panics on a malformed one.
#[verifier::external_body]
fn clap_parse(program: &str, usages: &Vec<String>, names: &Vec<String>, argv: &Vec<String>) -> (r:
    Result<Vec<(bool, Option<String>)>, clap::Error>)
    requires
        usages.deep_view() == usage_lines(),
        names.deep_view() == flag_names(),
        argv@.len() > 0,
    ensures
        match r {
            Ok(v) => clap_outcome(program@, usages.deep_view(), names.deep_view(), argv.deep_view())
                == Some(v.deep_view()),
            Err(_) => clap_outcome(
                program@,
                usages.deep_view(),
                names.deep_view(),
                argv.deep_view(),
            ) is None,
        },
        r matches Ok(v) ==> v@.len() == names@.len(),
{
    let app = clap::App::new(program).about(ABOUT).version(VERSION).author(AUTHOR).setting(
        clap::AppSettings::VersionlessSubcommands,
    );
    let app = usages.iter().fold(app, |a, u| a.arg(clap::Arg::from_usage(u)));
    app.get_matches_from_safe(argv.iter()).map(
        |m| names.iter().map(|n| (m.is_present(n), m.value_of_lossy(n).map(|v| v.into_owned()))).collect(),
    )
}

/// The description shown in the help text.
pub const ABOUT: &'static str = "Yea! (Yamato Event Analyzer). Aiming to be the world's greatest Windows event log analysis tool!";

/// The version shown by `--version`.
pub const VERSION: &'static str = "0.0.1";

/// The author line of the help text.
pub const AUTHOR: &'static str = "Author name <author@example.com>";

/// The file stem of the path `p`: its last component without the extension.
pub uninterp spec fn path_stem(p: Seq<char>) -> Option<Seq<char>>;

/// Relies on std::path::Path::file_stem, read back as text.
#[verifier::external_body]
fn file_stem(path: &str) -> (r: Option<String>)
    ensures
        r.deep_view() == path_stem(path@),
{
    std::path::Path::new(path).file_stem().map(|s| s.to_string_lossy().into_owned())
}

/// The program name taken from an argument vector: the stem of its first
/// entry.
pub open spec fn program_of(argv: Seq<Seq<char>>) -> Option<Seq<char>> {
    if argv.len() == 0 {
        None
    } else {
        path_stem(argv[0])
    }
}

/// The program name under which the command line `argv` is parsed.
pub fn program_name(argv: &Vec<String>) -> (r: Option<String>)
    ensures
        r.deep_view() == program_of(argv.deep_view()),
{
    if argv.len() == 0 {
        None
    } else {
        file_stem(argv[0].as_str())
    }
}

/// The result that parsing `argv` gives, or `None` where it fails.
pub open spec fn command_line_result(argv: Seq<Seq<char>>) -> Option<ArgumentsView> {
    match program_of(argv) {
        None => None,
        Some(p) => match clap_outcome(p, usage_lines(), flag_names(), argv) {
            Some(v) => Some(arguments_of(v)),
            None => None,
        },
    }
}

/// Parses the command line `argv` (first entry: the binary) against the
/// flag schema, under the program name taken from the binary's path.
pub fn parse_arguments(argv: &Vec<String>) -> (r: Result<ArgumentResult, ArgumentError>)
    ensures
        (r matches Err(ArgumentError::NoProgramName)) <==> program_of(argv.deep_view()) is None,
        program_of(argv.deep_view()) matches Some(p) ==> match clap_outcome(
            p,
            usage_lines(),
            flag_names(),
            argv.deep_view(),
        ) {
            Some(v) => r matches Ok(a) && a@ == arguments_of(v),
            None => r matches Err(ArgumentError::Usage(_)),
        },
        (r is Ok) <==> command_line_result(argv.deep_view()) is Some,
        r matches Ok(a) ==> command_line_result(argv.deep_view()) == Some(a@),
{
    let program = match program_name(argv) {
        Some(p) => p,
        None => {
            return Err(ArgumentError::NoProgramName);
        },
    };
    let usages = flag_usages();
    let names = flag_name_list();
    match clap_parse(program.as_str(), &usages, &names, argv) {
        Ok(values) => Ok(ArgumentResult::from_flag_values(&values)),
        Err(e) => Err(ArgumentError::Usage(e)),
    }
}

} // verus!
