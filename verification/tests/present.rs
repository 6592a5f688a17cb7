use whatyoumean::colour::{paint, Role};
use whatyoumean::{
    announce, get_data, render, report, ApiError, Definition, Options, Reply, Syllable, WordInfo,
};

fn plain() -> Options {
    Options {
        max: 10,
        examples: false,
        phonetics: false,
        syllables: false,
        synonyms: false,
        antonyms: false,
        no_types: false,
        colour: false,
        verbose: false,
    }
}

fn words(items: &[&str]) -> Vec<String> {
    items.iter().map(|w| w.to_string()).collect()
}

fn sense(text: &str, kind: &str, examples: &[&str]) -> Definition {
    Definition::new(Some(text.to_string()), Some(kind.to_string()), words(examples), None, None)
}

fn info_of(definitions: Vec<Definition>) -> WordInfo {
    WordInfo::fetch("hello", Ok(definitions), Ok(vec![]), Ok(vec![]), Ok(vec![]), Ok(vec![])).unwrap()
}

fn hello() -> WordInfo {
    WordInfo::fetch(
        "hello",
        Ok(vec![
            sense("a greeting", "exclamation", &["hello there", "hello again"]),
            Definition::new(None, Some("noun".to_string()), vec![], None, None),
            sense("a call for attention", "noun", &[]),
        ]),
        Ok(words(&["həˈləʊ", "hɛˈloʊ"])),
        Ok(words(&["hi", "howdy"])),
        Ok(words(&["goodbye"])),
        Ok(vec![
            Syllable { text: "hel".to_string(), ty: Some("stress".to_string()) },
            Syllable { text: "lo".to_string(), ty: None },
        ]),
    )
    .unwrap()
}

#[test]
fn one_definition_is_one_line() {
    let info = info_of(vec![sense("a greeting", "exclamation", &[])]);
    assert_eq!(render(&info, &plain()), vec!["1. exclamation - a greeting".to_string()]);
}

#[test]
fn at_most_max_definitions_are_shown() {
    let definitions: Vec<Definition> =
        (0..12).map(|i| sense(&format!("sense {}", i), "noun", &[])).collect();
    let lines = render(&info_of(definitions), &Options { max: 3, ..plain() });
    assert_eq!(
        lines,
        vec![
            "1. noun - sense 0".to_string(),
            "2. noun - sense 1".to_string(),
            "3. noun - sense 2".to_string(),
        ]
    );
}

#[test]
fn max_of_zero_shows_no_definition() {
    let info = info_of(vec![sense("a greeting", "exclamation", &[])]);
    assert!(render(&info, &Options { max: 0, ..plain() }).is_empty());
}

#[test]
fn numbers_run_past_nine() {
    let definitions: Vec<Definition> =
        (0..12).map(|i| sense(&format!("sense {}", i), "noun", &[])).collect();
    let lines = render(&info_of(definitions), &Options { max: 100, ..plain() });
    assert_eq!(lines.len(), 12);
    assert_eq!(lines[8], "9. noun - sense 8");
    assert_eq!(lines[9], "10. noun - sense 9");
    assert_eq!(lines[11], "12. noun - sense 11");
}

#[test]
fn definitions_without_text_are_passed_over_and_not_counted() {
    let definitions = vec![
        Definition::new(None, None, vec![], None, None),
        sense("first", "noun", &[]),
        Definition::new(None, None, vec![], None, None),
        sense("second", "verb", &[]),
        sense("third", "noun", &[]),
    ];
    let lines = render(&info_of(definitions), &Options { max: 2, ..plain() });
    assert_eq!(lines, vec!["1. noun - first".to_string(), "2. verb - second".to_string()]);
}

#[test]
fn a_missing_part_of_speech_shows_as_the_sentinel() {
    let info = info_of(vec![Definition::new(Some("a greeting".to_string()), None, vec![], None, None)]);
    assert_eq!(render(&info, &plain()), vec!["1. [None] - a greeting".to_string()]);
}

#[test]
fn the_part_of_speech_can_be_left_out() {
    let info = info_of(vec![sense("a greeting", "exclamation", &[])]);
    assert_eq!(render(&info, &Options { no_types: true, ..plain() }), vec!["1. a greeting".to_string()]);
}

#[test]
fn each_definition_is_followed_by_its_first_example() {
    let lines = render(&hello(), &Options { examples: true, ..plain() });
    assert_eq!(
        lines,
        vec![
            "1. exclamation - a greeting".to_string(),
            "e.g. hello there".to_string(),
            "2. noun - a call for attention".to_string(),
            "[No example]".to_string(),
        ]
    );
}

#[test]
fn phonetics_come_first_and_are_joined_by_commas() {
    let lines = render(&hello(), &Options { phonetics: true, max: 1, ..plain() });
    assert_eq!(
        lines,
        vec!["həˈləʊ, hɛˈloʊ".to_string(), String::new(), "1. exclamation - a greeting".to_string()]
    );
}

#[test]
fn missing_phonetics_are_said_to_be_missing() {
    let info = info_of(vec![sense("a greeting", "exclamation", &[])]);
    let lines = render(&info, &Options { phonetics: true, ..plain() });
    assert_eq!(
        lines,
        vec![
            "[No phonetics available]".to_string(),
            String::new(),
            "1. exclamation - a greeting".to_string(),
        ]
    );
}

#[test]
fn syllables_are_joined_by_dashes() {
    let lines = render(&hello(), &Options { syllables: true, max: 0, ..plain() });
    assert_eq!(lines, vec!["Syllables: hel (stress) - lo ".to_string(), String::new()]);
    let lines = render(&info_of(vec![]), &Options { syllables: true, ..plain() });
    assert_eq!(lines, vec!["[No syllables available]".to_string(), String::new()]);
}

#[test]
fn synonyms_and_antonyms_follow_the_definitions() {
    let lines = render(&hello(), &Options { synonyms: true, antonyms: true, max: 1, ..plain() });
    assert_eq!(
        lines,
        vec![
            "1. exclamation - a greeting".to_string(),
            "Synonyms: hi, howdy".to_string(),
            "Antonyms: goodbye".to_string(),
        ]
    );
}

#[test]
fn an_empty_list_of_synonyms_is_said_to_be_empty() {
    let info = info_of(vec![sense("a greeting", "exclamation", &[])]);
    let lines = render(&info, &Options { synonyms: true, ..plain() });
    assert_eq!(
        lines,
        vec!["1. exclamation - a greeting".to_string(), "[No synonyms available]".to_string()]
    );
    assert!(lines.iter().all(|line| !line.contains("Synonyms:") && !line.contains(',')));
    let lines = render(&info, &Options { antonyms: true, ..plain() });
    assert_eq!(
        lines,
        vec!["1. exclamation - a greeting".to_string(), "[No antonyms available]".to_string()]
    );
}

#[test]
fn verbose_shows_examples_phonetics_synonyms_and_antonyms() {
    let lines = render(&hello(), &Options { verbose: true, ..plain() });
    assert_eq!(
        lines,
        vec![
            "həˈləʊ, hɛˈloʊ".to_string(),
            String::new(),
            "1. exclamation - a greeting".to_string(),
            "e.g. hello there".to_string(),
            "2. noun - a call for attention".to_string(),
            "[No example]".to_string(),
            "Synonyms: hi, howdy".to_string(),
            "Antonyms: goodbye".to_string(),
        ]
    );
    let all_four = Options { examples: true, phonetics: true, synonyms: true, antonyms: true, ..plain() };
    assert_eq!(lines, render(&hello(), &all_four));
}

#[test]
fn colour_wraps_each_part_in_its_escape_sequences() {
    let on = Options { colour: true, verbose: true, syllables: true, ..plain() };
    let lines = render(&hello(), &on);
    assert_eq!(
        lines,
        vec![
            "\x1b[33mhəˈləʊ\x1b[39m, \x1b[33mhɛˈloʊ\x1b[39m".to_string(),
            String::new(),
            "Syllables: \x1b[93mhel (stress)\x1b[39m - \x1b[93mlo \x1b[39m".to_string(),
            String::new(),
            "\x1b[1m\x1b[36m1.\x1b[39m\x1b[0m \x1b[35mexclamation\x1b[39m - a greeting".to_string(),
            "\x1b[32me.g. hello there\x1b[39m".to_string(),
            "\x1b[1m\x1b[36m2.\x1b[39m\x1b[0m \x1b[35mnoun\x1b[39m - a call for attention".to_string(),
            "\x1b[3m\x1b[31m[No example]\x1b[39m\x1b[0m".to_string(),
            "Synonyms: \x1b[33mhi\x1b[39m, \x1b[33mhowdy\x1b[39m".to_string(),
            "Antonyms: \x1b[33mgoodbye\x1b[39m".to_string(),
        ]
    );
}

#[test]
fn colour_changes_no_line_but_for_its_escape_sequences() {
    let strip = |line: &String| -> String {
        let mut out = String::new();
        let mut chars = line.chars();
        while let Some(c) = chars.next() {
            if c == '\x1b' {
                for d in chars.by_ref() {
                    if d == 'm' {
                        break;
                    }
                }
            } else {
                out.push(c);
            }
        }
        out
    };
    for max in [0usize, 1, 5] {
        for flags in 0..64u32 {
            let options = Options {
                max,
                examples: flags & 1 != 0,
                phonetics: flags & 2 != 0,
                syllables: flags & 4 != 0,
                synonyms: flags & 8 != 0,
                antonyms: flags & 16 != 0,
                no_types: flags & 32 != 0,
                colour: false,
                verbose: false,
            };
            let without = render(&hello(), &options);
            let with = render(&hello(), &Options { colour: true, ..options });
            assert_eq!(with.len(), without.len());
            assert_eq!(with.iter().map(strip).collect::<Vec<_>>(), without);
        }
    }
}

#[test]
fn each_role_has_its_colour() {
    assert_eq!(paint(Role::Index, "1.", true), "\x1b[1m\x1b[36m1.\x1b[39m\x1b[0m");
    assert_eq!(paint(Role::PartOfSpeech, "noun", true), "\x1b[35mnoun\x1b[39m");
    assert_eq!(paint(Role::Example, "e.g. x", true), "\x1b[32me.g. x\x1b[39m");
    assert_eq!(paint(Role::Missing, "[none]", true), "\x1b[3m\x1b[31m[none]\x1b[39m\x1b[0m");
    assert_eq!(paint(Role::Related, "hi", true), "\x1b[33mhi\x1b[39m");
    assert_eq!(paint(Role::Syllable, "lo", true), "\x1b[93mlo\x1b[39m");
    assert_eq!(paint(Role::Word, "hello", true), "\x1b[35mhello\x1b[39m");
    assert_eq!(paint(Role::Failure, "Error", true), "\x1b[1m\x1b[31mError\x1b[39m\x1b[0m");
    for role in [
        Role::Index,
        Role::PartOfSpeech,
        Role::Example,
        Role::Missing,
        Role::Related,
        Role::Syllable,
        Role::Word,
        Role::Failure,
    ] {
        assert_eq!(paint(role, "text", false), "text");
        assert_eq!(paint(role, "", false), "");
    }
}

#[test]
fn a_chosen_word_is_announced() {
    assert_eq!(announce("hello", true, false, false), Some("Got 'hello'".to_string()));
    assert_eq!(announce("hello", true, true, false), Some("Got 'hello'".to_string()));
    assert_eq!(announce("hello", false, true, false), Some("Word of the Day is 'hello'".to_string()));
    assert_eq!(announce("hello", false, false, false), None);
    assert_eq!(announce("hello", true, false, true), Some("Got '\x1b[35mhello\x1b[39m'".to_string()));
}

#[test]
fn a_failure_is_reported_in_one_line() {
    assert_eq!(report("HTTP status 404", false), "Error: HTTP status 404");
    assert_eq!(report(&ApiError::Upstream(404).message(), false), "Error: HTTP status 404");
    assert_eq!(report("x", true), "\x1b[1m\x1b[31mError\x1b[39m\x1b[0m: x");
}

#[test]
fn a_lookup_of_hello_ends_in_one_numbered_line() {
    let body = r#"[{"text": "a greeting", "partOfSpeech": "exclamation"}]"#;
    let served = get_data(Ok(Reply { status: 200, body: body.to_string() })).unwrap();
    let decoded: serde_json::Value = serde_json::from_str(&served).unwrap();
    let definitions: Vec<Definition> = decoded
        .as_array()
        .unwrap()
        .iter()
        .map(|d| {
            Definition::new(
                d["text"].as_str().map(str::to_owned),
                d["partOfSpeech"].as_str().map(str::to_owned),
                vec![],
                None,
                None,
            )
        })
        .collect();
    let info = WordInfo::fetch(
        "hello",
        Ok(definitions),
        Err(ApiError::NoPhonetics),
        Err(ApiError::Upstream(404)),
        Err(ApiError::Upstream(404)),
        Err(ApiError::Upstream(404)),
    )
    .unwrap();
    let options = Options { max: 10, examples: false, ..plain() };
    assert_eq!(render(&info, &options), vec!["1. exclamation - a greeting".to_string()]);
}

#[test]
fn a_lookup_of_an_unknown_word_ends_in_one_reported_failure() {
    let definitions = get_data(Ok(Reply { status: 404, body: "{}".to_string() })).map(|_| vec![]);
    let out = WordInfo::fetch("qwxzy", definitions, Ok(vec![]), Ok(vec![]), Ok(vec![]), Ok(vec![]));
    let failure = out.err().unwrap();
    assert_eq!(failure, ApiError::Upstream(404));
    assert_eq!(report(&failure.message(), false), "Error: HTTP status 404");
}
