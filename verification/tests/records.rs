use tempo_core::Format;
use tempo_core::Profile;
use tempo_core::Template;
use tempo_core::record::MatchRecord;
use tempo_core::record::ProfileRecord;

#[test]
fn record_round_trip() {
    let mut toggled = Template::raw("tem", "tempo");
    toggled.set_enabled(false);
    let profile = Profile::new("trip", "trip.toml", vec![])
        .add_match(Template::raw("h", "hello"))
        .add_match(toggled)
        .add_match(Template::date_time(":now", "%Y-%m-%d"));
    let record = profile.to_record();
    let reloaded = Profile::from_record(&record);
    assert_eq!(reloaded, profile);
}

#[test]
fn stored_entries_carry_the_enabled_flag() {
    let mut toggled = Template::raw("h", "hello");
    toggled.set_enabled(false);
    let profile = Profile::new("flags", "flags.toml", vec![toggled]);
    let record = profile.to_record();
    assert_eq!(record.label, "flags");
    assert_eq!(record.path, "flags.toml");
    assert_eq!(
        record.matches,
        vec![MatchRecord::Raw {
            raw: String::from("h"),
            replace: String::from("hello"),
            is_enabled: Some(false),
        }]
    );
}

#[test]
fn omitted_enabled_flag_defaults_to_true() {
    let record = ProfileRecord {
        label: String::from("default"),
        path: String::from("default.toml"),
        matches: vec![
            MatchRecord::Raw {
                raw: String::from("h"),
                replace: String::from("hello"),
                is_enabled: None,
            },
            MatchRecord::DateTime {
                raw: String::from(":now"),
                format: String::from("%Y"),
                is_enabled: None,
            },
        ],
    };
    let profile = Profile::from_record(&record);
    assert!(profile.get_templates()[0].is_enabled());
    assert!(profile.get_templates()[1].is_enabled());
    assert_eq!(profile.apply("h"), "hello");
}
