use yea_config::arguments::{
    flag_name_list, flag_usages, parse_arguments, program_name, ArgumentError, ArgumentResult,
};

fn argv(items: &[&str]) -> Vec<String> {
    items.iter().map(|s| s.to_string()).collect()
}

#[test]
fn file_language_and_statistics() {
    let a = parse_arguments(&argv(&["yea", "-f", "foo.evtx", "-l", "en", "-s"])).unwrap();
    assert_eq!(a.filepath.as_deref(), Some("foo.evtx"));
    assert_eq!(a.lang.as_deref(), Some("en"));
    assert!(a.statistics);
    assert_eq!(a.attackhunt, None);
    assert_eq!(a.csv_timeline, None);
    assert_eq!(a.human_readable_timeline, None);
    assert_eq!(a.timezone, None);
    assert!(!a.directory);
    assert!(!a.update);
    assert!(!a.credits);
}

#[test]
fn long_forms_are_accepted() {
    let a = parse_arguments(&argv(&[
        "/opt/bin/yea",
        "--filepath=x.evtx",
        "--attackhunt",
        "hunt",
        "--csv-timeline",
        "out.csv",
        "--human-readable-timeline",
        "out.txt",
        "--lang",
        "ja",
        "-t",
        "UTC",
        "--directory",
        "--update",
        "--credits",
    ]))
    .unwrap();
    assert_eq!(a.filepath.as_deref(), Some("x.evtx"));
    assert_eq!(a.attackhunt.as_deref(), Some("hunt"));
    assert_eq!(a.csv_timeline.as_deref(), Some("out.csv"));
    assert_eq!(a.human_readable_timeline.as_deref(), Some("out.txt"));
    assert_eq!(a.lang.as_deref(), Some("ja"));
    assert_eq!(a.timezone.as_deref(), Some("UTC"));
    assert!(a.directory && a.update && a.credits);
    assert!(!a.statistics);
}

#[test]
fn no_flags_means_all_absent() {
    let a = parse_arguments(&argv(&["yea"])).unwrap();
    assert!(a.filepath.is_none() && a.lang.is_none() && a.timezone.is_none());
    assert!(!a.directory && !a.statistics && !a.update && !a.credits);
}

#[test]
fn unknown_flag_is_refused() {
    match parse_arguments(&argv(&["yea", "--bogus"])) {
        Err(ArgumentError::Usage(e)) => {
            assert_eq!(e.kind, clap::ErrorKind::UnknownArgument);
            assert!(e.use_stderr());
            assert!(e.message.contains("USAGE"));
        }
        other => panic!("expected a usage error, got {:?}", other.map(|_| ())),
    }
}

#[test]
fn missing_value_is_refused() {
    match parse_arguments(&argv(&["yea", "-f"])) {
        Err(ArgumentError::Usage(e)) => assert_eq!(e.kind, clap::ErrorKind::EmptyValue),
        other => panic!("expected a usage error, got {:?}", other.map(|_| ())),
    }
}

#[test]
fn usage_names_the_program_stem() {
    match parse_arguments(&argv(&["/usr/local/bin/analyzer.exe", "--bogus"])) {
        Err(ArgumentError::Usage(e)) => assert!(e.message.contains("analyzer")),
        other => panic!("expected a usage error, got {:?}", other.map(|_| ())),
    }
}

#[test]
fn empty_argv_has_no_program_name() {
    assert!(matches!(parse_arguments(&vec![]), Err(ArgumentError::NoProgramName)));
    assert_eq!(program_name(&vec![]), None);
}

#[test]
fn program_name_is_the_file_stem() {
    assert_eq!(program_name(&argv(&["/usr/bin/yea.exe", "-s"])).as_deref(), Some("yea"));
    assert_eq!(program_name(&argv(&["target/debug/yea"])).as_deref(), Some("yea"));
}

#[test]
fn schema_lists_every_flag() {
    let names = flag_name_list();
    assert_eq!(
        names,
        argv(&[
            "filepath",
            "attackhunt",
            "csv-timeline",
            "human-readable-timeline",
            "lang",
            "timezone",
            "directory",
            "statistics",
            "update",
            "credits",
        ])
    );
    let usages = flag_usages();
    assert_eq!(usages.len(), names.len());
    for (u, n) in usages.iter().zip(names.iter()) {
        assert!(u.contains(&format!("--{}", n)));
    }
}

#[test]
fn flag_values_map_by_position() {
    let mut values: Vec<(bool, Option<String>)> = vec![(false, None); 10];
    values[0] = (true, Some("f.evtx".to_string()));
    values[5] = (true, Some("JST".to_string()));
    values[7] = (true, None);
    values[9] = (true, None);
    let a = ArgumentResult::from_flag_values(&values);
    assert_eq!(a.filepath.as_deref(), Some("f.evtx"));
    assert_eq!(a.timezone.as_deref(), Some("JST"));
    assert!(a.statistics && a.credits);
    assert!(!a.directory && !a.update);
    assert_eq!(a.lang, None);
}
