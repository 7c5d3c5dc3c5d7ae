use tempo_core::Format;
use tempo_core::Profile;
use tempo_core::Template;
use tempo_core::TemplateError;
use tempo_core::apply_format;
use tempo_core::apply_format_at;
use tempo_core::clock::LocalInstant;
use tempo_core::text::replace_all;

fn test_profile() -> Profile {
    Profile::new("test", "test.txt", vec![])
}

// 2024-01-01T00:00:00 UTC.
fn new_year_2024() -> LocalInstant {
    LocalInstant { secs: 1704067200, nanos: 0, offset_secs: 0 }
}

#[test]
fn raw_template() {
    let profile = test_profile()
        .add_match(Template::raw("h", "hello"))
        .add_match(Template::raw("tem", "tempo"))
        .add_match(Template::date_time(":now", "%Y-%m-%d %H:%M:%S"));
    println!("{}", profile.apply("now is :now"));
    assert_eq!(profile.apply("h, tem"), "hello, tempo");
}

#[test]
fn ordered_rules_compose() {
    let profile = test_profile()
        .add_match(Template::raw("h", "hello"))
        .add_match(Template::raw("tem", "tempo"));
    assert_eq!(profile.apply("h, tem"), "hello, tempo");
}

#[test]
fn disabled_rule_is_skipped() {
    let mut rule = Template::raw("h", "hello");
    rule.set_enabled(false);
    assert!(!rule.is_enabled());
    let profile = Profile::new("test", "test.txt", vec![rule]);
    assert_eq!(profile.apply("h, tem"), "h, tem");
}

#[test]
fn mocked_instant_renders_once_for_all_occurrences() {
    let profile = test_profile().add_match(Template::date_time(":now", "%Y-%m-%d"));
    let out = profile.apply_at("today is :now and :now again", &new_year_2024());
    assert_eq!(out, "today is 2024-01-01 and 2024-01-01 again");
}

#[test]
fn empty_profile_is_identity() {
    let profile = test_profile();
    assert_eq!(profile.apply("anything at all"), "anything at all");
}

#[test]
fn missing_selection_fails() {
    assert_eq!(apply_format("h, tem", &None), Err(TemplateError::MatchError));
    assert_eq!(
        apply_format_at("h, tem", &None, &new_year_2024()),
        Err(TemplateError::MatchError)
    );
}

#[test]
fn selected_profile_is_applied() {
    let profile = test_profile().add_match(Template::raw("a", "b"));
    assert_eq!(apply_format("aaa", &Some(profile)), Ok(String::from("bbb")));
}

#[test]
fn replacement_is_non_overlapping_left_to_right() {
    assert_eq!(replace_all("aaa", "aa", "b"), "ba");
    assert_eq!(replace_all("banana", "an", "x"), "bxxa");
}

#[test]
fn empty_pattern_is_a_no_op() {
    let profile = test_profile().add_match(Template::raw("", "x"));
    assert_eq!(profile.apply("abc"), "abc");
    assert_eq!(replace_all("abc", "", "x"), "abc");
}

#[test]
fn absent_pattern_is_identity() {
    assert_eq!(replace_all("h, tem", "now", "later"), "h, tem");
}

#[test]
fn format_reads_the_clock() {
    let rule = Template::date_time(":now", "%Y");
    let out = rule.format(String::from(":now"));
    assert_ne!(out, ":now");
    assert_eq!(out.len(), 4);
}

#[test]
fn raw_format_replaces() {
    let rule = Template::raw("h", "hello");
    assert_eq!(rule.format(String::from("h!")), "hello!");
}

#[test]
fn unrenderable_rule_leaves_input() {
    // An unrecognized strftime directive cannot be rendered.
    let profile = test_profile().add_match(Template::date_time(":now", "%Q"));
    assert_eq!(profile.apply_at(":now", &new_year_2024()), ":now");
    // An out-of-range UTC offset cannot be rendered either.
    let far = LocalInstant { secs: 0, nanos: 0, offset_secs: 100_000 };
    let profile = test_profile().add_match(Template::date_time(":now", "%Y"));
    assert_eq!(profile.apply_at(":now", &far), ":now");
}

#[test]
fn describe_names_the_rule() {
    assert_eq!(Template::raw("h", "hello").describe(), "h -> hello");
    assert_eq!(Template::date_time(":now", "%Y").describe(), ":now -> %Y");
    assert_eq!(test_profile().describe(), "test");
}

#[test]
fn templates_can_be_inspected_and_toggled() {
    let mut profile = test_profile()
        .add_match(Template::raw("h", "hello"))
        .add_match(Template::raw("tem", "tempo"));
    assert_eq!(profile.get_templates().len(), 2);
    assert!(profile.get_templates()[0].is_enabled());
    profile.get_templates_mut()[0].set_enabled(false);
    assert!(!profile.get_templates()[0].is_enabled());
    assert_eq!(profile.apply("h, tem"), "h, tempo");
}
