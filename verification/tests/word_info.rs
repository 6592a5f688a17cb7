use whatyoumean::{ApiError, Definition, SourceDict, Syllable, WordInfo};

fn text(s: &str) -> Option<String> {
    Some(s.to_string())
}

fn greeting() -> Definition {
    Definition::new(text("a greeting"), text("exclamation"), vec![], None, None)
}

fn failed() -> ApiError {
    ApiError::Upstream(404)
}

#[test]
fn a_definition_hands_back_what_it_was_made_of() {
    let d = Definition::new(
        text("a greeting"),
        text("exclamation"),
        vec!["hello there".to_string(), "hello again".to_string()],
        Some(SourceDict::Wiktionary),
        text("https://example.org"),
    );
    assert_eq!(d.text(), Some("a greeting"));
    assert_eq!(d.part_of_speech(), "exclamation");
    assert_eq!(d.examples(), vec!["hello there".to_string(), "hello again".to_string()]);
    assert_eq!(d.top_example(), Some("hello there"));
    assert_eq!(d.source(), Some(SourceDict::Wiktionary));
    assert_eq!(d.attrib_url(), Some("https://example.org"));
}

#[test]
fn a_definition_without_part_of_speech_gets_the_sentinel() {
    let d = Definition::new(None, None, vec![], None, None);
    assert_eq!(Definition::no_pos(), "[None]");
    assert_eq!(d.part_of_speech(), "[None]");
    assert_eq!(d.text(), None);
    assert_eq!(d.top_example(), None);
    assert!(d.examples().is_empty());
    assert_eq!(d.source(), None);
    assert_eq!(d.attrib_url(), None);
}

#[test]
fn cleaning_takes_tags_out_of_text_and_examples_only() {
    let d = Definition::new(
        text("<em>a</em> greeting"),
        text("<i>noun</i>"),
        vec!["<b>hello</b> there".to_string(), "plain".to_string()],
        Some(SourceDict::Ahd5),
        text("<url>"),
    )
    .cleaned();
    assert_eq!(d.text(), Some("a greeting"));
    assert_eq!(d.part_of_speech(), "<i>noun</i>");
    assert_eq!(d.examples(), vec!["hello there".to_string(), "plain".to_string()]);
    assert_eq!(d.source(), Some(SourceDict::Ahd5));
    assert_eq!(d.attrib_url(), Some("<url>"));
}

#[test]
fn a_syllable_is_shown_with_its_kind_in_parentheses() {
    let stressed = Syllable { text: "hel".to_string(), ty: text("stress") };
    let plain = Syllable { text: "lo".to_string(), ty: None };
    assert_eq!(stressed.to_string(), "hel (stress)");
    assert_eq!(plain.to_string(), "lo ");
    let cleaned = Syllable { text: "<b>hel</b>".to_string(), ty: text("<x>") }.cleaned();
    assert_eq!(cleaned.text, "hel");
    assert_eq!(cleaned.ty, text("<x>"));
}

#[test]
fn fetch_puts_all_replies_together() {
    let info = WordInfo::fetch(
        "hello",
        Ok(vec![
            Definition::new(text("a <i>greeting</i>"), text("exclamation"), vec!["<b>hello</b>!".to_string()], None, None),
            Definition::new(None, None, vec![], None, None),
        ]),
        Ok(vec!["həˈləʊ".to_string()]),
        Ok(vec!["\"hi\"".to_string(), "howdy".to_string()]),
        Ok(vec!["\"goodbye\"".to_string()]),
        Ok(vec![Syllable { text: "<b>hel</b>".to_string(), ty: text("stress") }, Syllable { text: "lo".to_string(), ty: None }]),
    )
    .unwrap();
    assert_eq!(info.word(), "hello");
    assert_eq!(info.definitions().len(), 2);
    assert_eq!(info.definitions()[0].text(), Some("a greeting"));
    assert_eq!(info.definitions()[0].top_example(), Some("hello!"));
    assert_eq!(info.definitions()[1].text(), None);
    assert_eq!(info.definitions()[1].part_of_speech(), "[None]");
    assert_eq!(info.pronunciations(), ["həˈləʊ".to_string()]);
    assert_eq!(info.synonyms(), ["hi".to_string(), "howdy".to_string()]);
    assert_eq!(info.antonyms(), ["goodbye".to_string()]);
    assert_eq!(info.syllables().len(), 2);
    assert_eq!(info.syllables()[0].text, "hel");
    assert_eq!(info.syllables()[0].ty, text("stress"));
    assert_eq!(info.syllables()[1].text, "lo");
}

#[test]
fn fetch_keeps_the_order_of_the_definitions() {
    let given: Vec<Definition> = (0..5)
        .map(|i| Definition::new(Some(format!("sense {}", i)), None, vec![], None, None))
        .collect();
    let info = WordInfo::fetch("w", Ok(given), Err(failed()), Err(failed()), Err(failed()), Err(failed())).unwrap();
    let texts: Vec<Option<&str>> = info.definitions().iter().map(|d| d.text()).collect();
    assert_eq!(texts, vec![Some("sense 0"), Some("sense 1"), Some("sense 2"), Some("sense 3"), Some("sense 4")]);
}

#[test]
fn fetch_goes_on_without_phonetics() {
    let info = WordInfo::fetch(
        "hello",
        Ok(vec![greeting()]),
        Err(ApiError::NoPhonetics),
        Ok(vec![]),
        Ok(vec![]),
        Ok(vec![]),
    )
    .unwrap();
    assert!(info.pronunciations().is_empty());
    assert_eq!(info.definitions().len(), 1);
    assert_eq!(info.definitions()[0].text(), Some("a greeting"));
}

#[test]
fn fetch_goes_on_without_any_of_the_extras() {
    let info = WordInfo::fetch(
        "hello",
        Ok(vec![greeting()]),
        Err(ApiError::Transport("timed out".to_string())),
        Err(ApiError::Upstream(500)),
        Err(ApiError::Parse("not a list".to_string())),
        Err(failed()),
    )
    .unwrap();
    assert_eq!(info.definitions().len(), 1);
    assert!(info.pronunciations().is_empty());
    assert!(info.synonyms().is_empty());
    assert!(info.antonyms().is_empty());
    assert!(info.syllables().is_empty());
}

#[test]
fn fetch_fails_where_the_definitions_failed() {
    let out = WordInfo::fetch(
        "qwxzy",
        Err(ApiError::Upstream(404)),
        Ok(vec!["x".to_string()]),
        Ok(vec!["y".to_string()]),
        Ok(vec![]),
        Ok(vec![]),
    );
    assert_eq!(out.err(), Some(ApiError::Upstream(404)));
    let out = WordInfo::fetch("w", Err(ApiError::Transport("no route".to_string())), Ok(vec![]), Ok(vec![]), Ok(vec![]), Ok(vec![]));
    assert_eq!(out.err(), Some(ApiError::Transport("no route".to_string())));
    let out = WordInfo::fetch("w", Err(ApiError::Parse("bad".to_string())), Ok(vec![]), Ok(vec![]), Ok(vec![]), Ok(vec![]));
    assert_eq!(out.err(), Some(ApiError::Parse("bad".to_string())));
}

#[test]
fn fetch_takes_an_empty_list_of_definitions_as_it_is() {
    let info = WordInfo::fetch("hello", Ok(vec![]), Ok(vec![]), Ok(vec![]), Ok(vec![]), Ok(vec![])).unwrap();
    assert_eq!(info.word(), "hello");
    assert!(info.definitions().is_empty());
}
