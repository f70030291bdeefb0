use taskwrap::task_args::burndown::Burndown;
use taskwrap::task_args::history::History;
use taskwrap::task_args::modifier::{description, modifiers, Modifier, Modifiers};
use taskwrap::task_args::project::Project;
use taskwrap::task_args::ParseError;

#[test]
fn test_description() {
    let input = "foo bar test project:test foo:bar";
    let expected = Modifier::Description(String::from("foo"));
    let (actual, input) = description(input).unwrap();
    assert_eq!(expected, actual);
    assert_eq!(" bar test project:test foo:bar", input);
}

#[test]
fn test_modifiers_1() {
    let mods = Modifiers::with_modifiers(vec![
        Modifier::Description(String::from("foo")),
        Modifier::Description(String::from("bar")),
    ]);

    let input = "foo bar";

    let (actual, input) = modifiers(input);
    assert_eq!(mods, actual);
    assert_eq!("", input);
}

#[test]
fn test_modifiers_2() {
    let mods = Modifiers::with_modifiers(vec![
        Modifier::Description(String::from("foo")),
        Modifier::Description(String::from("bar")),
        Modifier::Description(String::from("test")),
    ]);

    let input = "foo bar test";

    let (actual, input) = modifiers(input);
    assert_eq!(mods, actual);
    assert_eq!("", input);
}

#[test]
fn test_modifiers_3() {
    let mods = Modifiers::with_modifiers(vec![
        Modifier::Description(String::from("foo")),
        Modifier::Description(String::from("bar")),
        Modifier::Description(String::from("test")),
        Modifier::Project(Project::with_name("test")),
    ]);

    let input = "foo bar test project:test";

    let (actual, input) = modifiers(input);
    assert_eq!(mods, actual);
    assert_eq!("", input);
}

#[test]
fn test_multicall_modifier_4() {
    let mods = Modifiers::with_modifiers(vec![
        Modifier::Description(String::from("foo")),
        Modifier::Description(String::from("bar")),
        Modifier::Description(String::from("test")),
        Modifier::Project(Project::with_name("test")),
        Modifier::Other { name: String::from("foo"), value: String::from("bar") },
    ]);

    let input = "foo bar test project:test foo:bar";

    let (actual, input) = modifiers(input);
    assert_eq!(mods, actual);
    assert_eq!("", input);
}

#[test]
fn modifier_from_str_reads_one_modifier() {
    assert_eq!(Ok(Modifier::Description(String::from("water"))), Modifier::from_str("water"));
    assert_eq!(Ok(Modifier::Project(Project::with_name("home"))), Modifier::from_str("proj:home"));
    assert_eq!(
        Ok(Modifier::Other { name: String::from("due"), value: String::from("2024-01-01") }),
        Modifier::from_str("due:2024-01-01")
    );
}

#[test]
fn modifier_from_str_wants_all_of_the_input() {
    assert_eq!(Err(ParseError::Modifier), Modifier::from_str(""));
    assert_eq!(Err(ParseError::Modifier), Modifier::from_str("two words"));
    assert_eq!(Err(ParseError::Modifier), Modifier::from_str("water "));
    assert_eq!(Err(ParseError::Modifier), Modifier::from_str("a:b:c"));
    assert_eq!(Err(ParseError::Modifier), Modifier::from_str("due:"));
    assert_eq!(Err(ParseError::Modifier), Modifier::from_str("+tag"));
}

#[test]
fn an_attribute_is_not_read_again_as_a_word() {
    let (found, rest) = modifiers("one a:b:c two");
    assert_eq!(Modifiers::with_modifiers(vec![Modifier::Description(String::from("one"))]), found);
    assert_eq!("a:b:c two", rest);
}

#[test]
fn modifiers_from_str_wants_all_of_the_input() {
    assert_eq!(Ok(Modifiers::with_modifiers(vec![])), Modifiers::from_str(""));
    assert_eq!(Err(ParseError::Modifier), Modifiers::from_str("one, two"));
    assert_eq!(
        Ok(Modifiers::with_modifiers(vec![
            Modifier::Description(String::from("one")),
            Modifier::Other { name: String::from("a"), value: String::from("b") },
        ])),
        Modifiers::from_str("one\ta:b ")
    );
}

#[test]
fn modifier_text() {
    assert_eq!("word", Modifier::Description(String::from("word")).to_string());
    assert_eq!("project:p", Modifier::Project(Project::with_name("p")).to_string());
    let other = Modifier::Other { name: String::from("pri"), value: String::from("H") };
    assert_eq!("pri:H", other.to_string());
    assert!(!other.is_project());
    assert!(Modifier::Project(Project::with_name("p")).is_project());
}

#[test]
fn modifiers_grow_one_by_one() {
    let mut found = Modifiers::initial(None);
    assert!(found.modifiers().is_empty());
    found.accumulate(Modifier::Description(String::from("a")));
    found.accumulate(Modifier::Project(Project::with_name("p")));
    assert_eq!(Modifiers::from_str("a project:p").unwrap(), found);
    assert!(Modifiers::initial(Some(8)).modifiers().is_empty());
}

#[test]
fn burndown_periods() {
    assert_eq!(Ok(Burndown::Daily), Burndown::from_str("daily"));
    assert_eq!(Ok(Burndown::Monthly), Burndown::from_str("monthly"));
    assert_eq!(Ok(Burndown::Weekly), Burndown::from_str("weekly"));
    assert_eq!(Err(ParseError::Burndown), Burndown::from_str("annual"));
    assert_eq!(Err(ParseError::Burndown), Burndown::from_str("daily "));
    assert_eq!(Err(ParseError::Burndown), Burndown::from_str("dailyx"));
    assert_eq!(Err(ParseError::Burndown), Burndown::from_str("dail"));
    assert_eq!(Err(ParseError::Burndown), Burndown::from_str(""));
    assert_eq!("weekly", Burndown::Weekly.name());
}

#[test]
fn history_periods() {
    assert_eq!(Ok(History::Daily), History::from_str("daily"));
    assert_eq!(Ok(History::Monthly), History::from_str("monthly"));
    assert_eq!(Ok(History::Weekly), History::from_str("weekly"));
    assert_eq!(Ok(History::Annual), History::from_str("annual"));
    assert_eq!(Err(ParseError::History), History::from_str("yearly"));
    assert_eq!(Err(ParseError::History), History::from_str(" annual"));
    assert_eq!(Err(ParseError::History), History::from_str("Annual"));
    assert_eq!("annual", History::Annual.name());
}

#[test]
fn a_written_modifier_is_read_back() {
    let written = vec![
        Modifier::Description(String::from("water")),
        Modifier::Description(String::from("project")),
        Modifier::Description(String::from("v1.2-rc_3")),
        Modifier::Project(Project::with_name("home.garden")),
        Modifier::Project(Project::with_name("project")),
        Modifier::Other { name: String::from("due"), value: String::from("2024-01-01") },
        Modifier::Other { name: String::from("projects"), value: String::from("x") },
        Modifier::Other { name: String::from("pro"), value: String::from("x") },
    ];
    for m in written {
        assert_eq!(Ok(m.clone()), Modifier::from_str(&m.to_string()));
        let line = format!("{} next", m.to_string());
        let (found, rest) = modifiers(&line);
        assert_eq!(m, found.modifiers()[0]);
        assert_eq!("", rest);
    }
    for period in [Burndown::Daily, Burndown::Monthly, Burndown::Weekly] {
        assert_eq!(Ok(period), Burndown::from_str(period.name()));
    }
    for period in [History::Annual, History::Daily, History::Monthly, History::Weekly] {
        assert_eq!(Ok(period), History::from_str(period.name()));
    }
}

#[test]
fn an_attribute_named_like_the_project_keyword_is_read_as_a_project() {
    for keyword in ["project", "proj"] {
        let m = Modifier::Other { name: String::from(keyword), value: String::from("x") };
        assert_eq!(
            Ok(Modifier::Project(Project::with_name("x"))),
            Modifier::from_str(&m.to_string())
        );
    }
}
