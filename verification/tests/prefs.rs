use jamstream_client::prefs::{AppPrefs, Bucket, Loaded, RecordingPrefs, Retention};

/// The preferences as the file has them, and back.
fn encode(prefs: &RecordingPrefs) -> String {
    let mut buckets = serde_json::Map::new();
    for (provider, bucket) in &prefs.buckets {
        let mut fields = serde_json::Map::new();
        fields.insert("name".to_owned(), bucket.name.clone().into());
        fields.insert("region".to_owned(), bucket.region.clone().into());
        buckets.insert(provider.clone(), fields.into());
    }
    let mut whole = serde_json::Map::new();
    whole.insert("buckets".to_owned(), buckets.into());
    whole.insert("retention".to_owned(), prefs.retention.clone().into());
    serde_json::Value::from(whole).to_string()
}

fn decode(text: &str) -> RecordingPrefs {
    let value: serde_json::Value = serde_json::from_str(text).expect("decode");
    let mut entries = Vec::new();
    if let Some(buckets) = value.get("buckets").and_then(|b| b.as_object()) {
        for (provider, bucket) in buckets {
            entries.push((
                provider.clone(),
                Bucket {
                    name: bucket["name"].as_str().unwrap_or_default().to_owned(),
                    region: bucket["region"].as_str().unwrap_or_default().to_owned(),
                },
            ));
        }
    }
    RecordingPrefs::of(
        entries,
        value.get("retention").and_then(|r| r.as_str()).map(str::to_owned),
    )
}

#[test]
fn a_bucket_is_kept_per_provider_and_needs_both_halves() {
    let mut prefs = RecordingPrefs::default();
    assert_eq!(prefs.bucket("aws"), None);
    prefs.set_bucket("aws", " my-jams ", " eu-west-1 ");
    prefs.set_bucket("digitalocean", "our-takes", "nyc3");
    let aws = prefs.bucket("aws").expect("a saved bucket");
    assert_eq!(aws.name, "my-jams");
    assert_eq!(aws.region, "eu-west-1");
    assert_eq!(
        prefs.bucket("digitalocean").map(|b| b.region.as_str()),
        Some("nyc3")
    );
    // A name with no region cannot be signed for, so it is not a bucket.
    prefs.set_bucket("aws", "my-jams", "");
    assert_eq!(prefs.bucket("aws"), None);
    prefs.set_bucket("aws", "", "");
    assert!(!prefs.holds("aws"));
}

#[test]
fn retention_defaults_to_thirty_days_and_round_trips_through_the_file() {
    let mut prefs = RecordingPrefs::default();
    assert_eq!(prefs.retention(), Retention::Days30);
    prefs.set_retention(Retention::Days90);
    prefs.set_bucket("gcp", "takes", "europe-west1");
    let json = encode(&prefs);
    assert!(json.contains("\"90d\""), "{json}");
    let read = decode(&json);
    assert_eq!(read, prefs);
    assert_eq!(read.retention(), Retention::Days90);
}

#[test]
fn the_preferences_file_has_nowhere_to_put_a_key() {
    let mut prefs = RecordingPrefs::default();
    prefs.set_bucket("aws", "my-jams", "eu-west-1");
    prefs.set_retention(Retention::Days7);
    let json = encode(&prefs);
    for word in ["key", "secret", "token", "credential"] {
        assert!(
            !json.contains(word),
            "{word:?} appears in the preferences file: {json}"
        );
    }
}

#[test]
fn an_unreadable_retention_falls_back_rather_than_becoming_another_rule() {
    let prefs = decode("{\"retention\":\"whenever\"}");
    assert_eq!(prefs.retention(), Retention::Days30);
    assert_eq!(prefs.retention.as_deref(), Some("whenever"), "kept verbatim");
}

#[test]
fn every_retention_reads_back_as_it_was_set() {
    for (rule, token) in [
        (Retention::Days7, "7d"),
        (Retention::Days30, "30d"),
        (Retention::Days90, "90d"),
        (Retention::Forever, "forever"),
    ] {
        let mut prefs = RecordingPrefs::default();
        prefs.set_retention(rule);
        assert_eq!(prefs.retention.as_deref(), Some(token));
        assert_eq!(prefs.retention(), rule);
        assert_eq!(Retention::parse(token), Some(rule));
    }
    assert_eq!(Retention::parse(" 7d"), None);
    assert_eq!(Retention::default(), Retention::Days30);
}

#[test]
fn a_file_that_is_not_there_yet_reads_as_the_defaults_and_one_that_is_broken_says_so() {
    assert_eq!(
        RecordingPrefs::load_from("/x/recording.json", Loaded::Missing)
            .expect("no file is not an error"),
        RecordingPrefs::default()
    );
    let mut prefs = RecordingPrefs::default();
    prefs.set_bucket("aws", "my-jams", "eu-west-1");
    let saved = decode(&encode(&prefs));
    assert_eq!(
        RecordingPrefs::load_from("/x/recording.json", Loaded::Decoded(saved)).expect("read back"),
        prefs
    );
    let err = RecordingPrefs::load_from(
        "/x/recording.json",
        Loaded::Failed("key must be a string".to_owned()),
    )
    .expect_err("a broken file is not defaults");
    assert_eq!(err, "cannot read /x/recording.json: key must be a string");
}

#[test]
fn audio_preferences_round_trip_and_a_broken_file_reads_as_defaults() {
    assert_eq!(AppPrefs::load_from(Loaded::Missing), AppPrefs::default());
    let prefs = || AppPrefs {
        capture_id: Some("coreaudio:scarlett-in".to_owned()),
        playback_id: None,
        buffer_frames: Some(240),
        allow_exclusive: Some(false),
        display_name: Some("Ana".to_owned()),
    };
    assert_eq!(AppPrefs::load_from(Loaded::Decoded(prefs())), prefs());
    assert_eq!(
        AppPrefs::load_from(Loaded::Failed("expected value".to_owned())),
        AppPrefs::default()
    );
    assert_eq!(AppPrefs::default().allow_exclusive, None);
}

#[test]
fn a_half_of_space_is_no_half() {
    assert!(Bucket { name: "a".to_owned(), region: "b".to_owned() }.is_set());
    assert!(!Bucket { name: " \t".to_owned(), region: "b".to_owned() }.is_set());
    assert!(!Bucket { name: "a".to_owned(), region: "\u{3000}".to_owned() }.is_set());
}

#[test]
fn setting_one_bucket_leaves_the_others() {
    let mut prefs = RecordingPrefs::default();
    prefs.set_retention(Retention::Forever);
    prefs.set_bucket("aws", "a", "r");
    prefs.set_bucket("gcp", "g", "q");
    prefs.set_bucket("aws", "b", "s");
    assert_eq!(prefs.bucket("gcp").map(|b| b.name.as_str()), Some("g"));
    assert_eq!(prefs.bucket("aws").map(|b| b.name.as_str()), Some("b"));
    prefs.set_bucket("gcp", "  ", "");
    assert!(!prefs.holds("gcp"));
    assert!(prefs.holds("aws"));
    assert_eq!(prefs.retention(), Retention::Forever);
    prefs.set_bucket("local", "only-a-name", "");
    assert!(prefs.holds("local"));
    assert_eq!(prefs.bucket("local"), None);
}

#[test]
fn the_order_buckets_are_set_in_makes_no_difference() {
    let names = ["gcp", "aws", "local", "digitalocean", "aw", "h\u{e9}", "z"];
    let mut there = RecordingPrefs::default();
    for name in names {
        there.set_bucket(name, name, "r");
    }
    let mut back = RecordingPrefs::default();
    for name in names.iter().rev() {
        back.set_bucket(name, "first", "r");
    }
    assert_ne!(there, back);
    for name in names {
        back.set_bucket(name, name, "r");
    }
    assert_eq!(there, back);
    let kept: Vec<&str> = there.buckets.iter().map(|(name, _)| name.as_str()).collect();
    let mut sorted = names.to_vec();
    sorted.sort();
    assert_eq!(kept, sorted, "each name once, in the order of a sorted map");
    back.set_bucket("aws", "", "");
    assert_eq!(back.buckets.len(), names.len() - 1);
    back.set_bucket("aws", "aws", "r");
    assert_eq!(there, back);
}

#[test]
fn the_last_entry_under_a_name_is_kept() {
    let bucket = |name: &str| Bucket { name: name.to_owned(), region: "r".to_owned() };
    let prefs = RecordingPrefs::of(
        vec![
            ("b".to_owned(), bucket("one")),
            ("a".to_owned(), bucket("two")),
            ("b".to_owned(), bucket("three")),
        ],
        Some("7d".to_owned()),
    );
    assert_eq!(prefs.buckets.len(), 2);
    assert_eq!(prefs.buckets[0].0, "a");
    assert_eq!(prefs.bucket("b").map(|b| b.name.as_str()), Some("three"));
    assert_eq!(prefs.retention(), Retention::Days7);
    assert_eq!(prefs.clone(), prefs);
}

#[test]
fn preferences_are_copied_whole() {
    let prefs = AppPrefs {
        capture_id: Some("in".to_owned()),
        playback_id: None,
        buffer_frames: Some(240),
        allow_exclusive: Some(false),
        display_name: Some("Ana".to_owned()),
    };
    assert_eq!(prefs.clone(), prefs);
    assert!(!Bucket::default().is_set());
    assert_eq!(Bucket::default().name, "");
}
