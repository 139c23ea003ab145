use std::collections::{BTreeSet, HashMap};

use jamstream_client::creds::{
    build_provider, build_provider_for_port, forget_storage_credential, gcp_from_json, gcp_project,
    has_storage_credential, lookup, save_storage_credential, storage_credential,
    storage_key_fields, stream_key_field, system_env, unreadable_key, CredStore, EnvReader,
    MemStore, ProviderKind, ProviderPlan, StorageCredential, AWS_ACCESS_KEY_ID,
    AWS_SECRET_ACCESS_KEY, DO_TOKEN, GCP_SERVICE_ACCOUNT_JSON,
};
use jamstream_client::runtime::StreamPlatform;
use jamstream_client::vault::{
    account, read_fallback, FileRead, KeychainAnswer, KeyringStore, ReadEvent, ReadStep,
    SaveEvent, SaveStep,
};

fn env_of(pairs: &[(&str, &str)]) -> EnvReader {
    EnvReader {
        vars: pairs
            .iter()
            .map(|(k, v)| ((*k).to_owned(), (*v).to_owned()))
            .collect(),
    }
}

/// Every provider there is.
const ALL: [ProviderKind; 4] = [
    ProviderKind::Local,
    ProviderKind::DigitalOcean,
    ProviderKind::Aws,
    ProviderKind::Gcp,
];

/// The recording variables as the command line reads them, for DigitalOcean.
fn from_env(env: &EnvReader) -> Result<StorageCredential, String> {
    match (
        env.var("SPACES_ACCESS_KEY_ID"),
        env.var("SPACES_SECRET_ACCESS_KEY"),
    ) {
        (Some(access_key_id), Some(secret_access_key)) => Ok(StorageCredential {
            access_key_id,
            secret_access_key,
        }),
        _ => Err("set SPACES_ACCESS_KEY_ID and SPACES_SECRET_ACCESS_KEY.".to_owned()),
    }
}

#[test]
fn store_wins_over_environment() {
    let mut store = MemStore::default();
    store
        .set(DO_TOKEN.0, DO_TOKEN.1, "from-keychain")
        .expect("set");
    let env = env_of(&[("DIGITALOCEAN_TOKEN", "from-env")]);
    assert_eq!(
        lookup(&store, &env, DO_TOKEN, "DIGITALOCEAN_TOKEN").as_deref(),
        Some("from-keychain")
    );
}

#[test]
fn environment_is_the_silent_fallback() {
    let store = MemStore::default();
    let env = env_of(&[("DIGITALOCEAN_TOKEN", "from-env")]);
    assert_eq!(
        lookup(&store, &env, DO_TOKEN, "DIGITALOCEAN_TOKEN").as_deref(),
        Some("from-env")
    );
    assert_eq!(lookup(&store, &env_of(&[]), DO_TOKEN, "X"), None);
}

#[test]
fn empty_values_do_not_count() {
    let mut store = MemStore::default();
    store.set(DO_TOKEN.0, DO_TOKEN.1, "").expect("set");
    assert_eq!(lookup(&store, &env_of(&[]), DO_TOKEN, "X"), None);
    store.set(DO_TOKEN.0, DO_TOKEN.1, "t").expect("set");
    store.delete(DO_TOKEN.0, DO_TOKEN.1);
    assert_eq!(store.get(DO_TOKEN.0, DO_TOKEN.1), None);
}

#[test]
fn local_needs_no_credentials() {
    let p = build_provider("local", &MemStore::default(), &env_of(&[])).expect("local");
    assert_eq!(p.kind(), ProviderKind::Local);
}

#[test]
fn clouds_without_credentials_explain_themselves() {
    let env = env_of(&[]);
    let store = MemStore::default();
    for (name, hint) in [
        ("digitalocean", "DIGITALOCEAN_TOKEN"),
        ("aws", "AWS_ACCESS_KEY_ID"),
        ("gcp", "GCP"),
    ] {
        let err = build_provider(name, &store, &env)
            .err()
            .expect("must not build");
        assert!(err.contains(hint), "error for {name} was {err:?}");
    }
}

#[test]
fn the_names_are_the_provider_kinds_and_nothing_else_parses() {
    let (store, env) = (MemStore::default(), env_of(&[]));
    for kind in ALL {
        let result = build_provider(kind.as_str(), &store, &env);
        if let Err(err) = &result {
            assert!(
                !err.contains("unknown provider"),
                "{kind:?} did not parse: {err}"
            );
        }
    }
    let err = build_provider("azure", &store, &env)
        .err()
        .expect("azure is not a provider");
    assert!(err.contains("azure"), "error was {err:?}");
    for kind in ALL {
        assert!(
            err.contains(kind.as_str()),
            "the refusal does not name {kind:?}: {err:?}"
        );
    }
    assert!(build_provider("mock", &store, &env).is_err());
}

#[test]
fn stored_do_token_builds_the_provider() {
    let mut store = MemStore::default();
    store.set(DO_TOKEN.0, DO_TOKEN.1, "dop_v1_x").expect("set");
    let p = build_provider("digitalocean", &store, &env_of(&[])).expect("do");
    assert_eq!(p.kind(), ProviderKind::DigitalOcean);
}

#[test]
fn aws_needs_both_fields() {
    let mut store = MemStore::default();
    store
        .set(AWS_ACCESS_KEY_ID.0, AWS_ACCESS_KEY_ID.1, "AKIA")
        .expect("set");
    let err = build_provider("aws", &store, &env_of(&[]))
        .err()
        .expect("half a key");
    assert!(err.contains("AWS_SECRET_ACCESS_KEY"));
    // Mixed sources are fine: id from the store, secret from env.
    let env = env_of(&[("AWS_SECRET_ACCESS_KEY", "s")]);
    assert!(build_provider("aws", &store, &env).is_ok());
}

#[test]
fn each_platform_gets_its_own_stream_key_slot() {
    let mut store = MemStore::default();
    let twitch = stream_key_field(StreamPlatform::Twitch);
    let youtube = stream_key_field(StreamPlatform::YouTube);
    assert_ne!(twitch, youtube);
    store.set(twitch.0, twitch.1, "live_000_fake").expect("set");
    assert_eq!(store.get(youtube.0, youtube.1), None);
    // And a stream key shares no slot with a provider credential.
    assert_ne!(twitch, DO_TOKEN);
    store.delete(twitch.0, twitch.1);
    assert_eq!(store.get(twitch.0, twitch.1), None);
}

#[test]
fn a_storage_key_shares_no_slot_with_the_credential_that_launches_machines() {
    let mut store = MemStore::default();
    let (id, secret) = storage_key_fields(ProviderKind::Aws);
    assert_ne!(id, AWS_ACCESS_KEY_ID);
    assert_ne!(secret, AWS_SECRET_ACCESS_KEY);
    store
        .set(AWS_ACCESS_KEY_ID.0, AWS_ACCESS_KEY_ID.1, "AKIA-launch")
        .expect("set");
    assert_eq!(
        store.get(id.0, id.1),
        None,
        "the launch key must not read back as a storage key"
    );
    // Each provider gets its own pair, and no two providers share one.
    let mut slots = Vec::new();
    for provider in [
        ProviderKind::Aws,
        ProviderKind::DigitalOcean,
        ProviderKind::Gcp,
    ] {
        let (id, secret) = storage_key_fields(provider);
        slots.push(id);
        slots.push(secret);
    }
    let unique: BTreeSet<_> = slots.iter().collect();
    assert_eq!(unique.len(), slots.len(), "{slots:?} has a shared slot");
}

#[test]
fn a_saved_storage_key_reads_back_and_the_environment_is_the_fallback() {
    let mut store = MemStore::default();
    let none = env_of(&[]);
    assert!(!has_storage_credential(
        &store,
        ProviderKind::DigitalOcean,
        from_env(&none)
    ));
    save_storage_credential(
        &mut store,
        ProviderKind::DigitalOcean,
        " DO00ID ",
        " secret ",
    )
    .expect("save");
    let credential = storage_credential(&store, ProviderKind::DigitalOcean, from_env(&none))
        .expect("a saved pair");
    let StorageCredential {
        access_key_id,
        secret_access_key,
    } = credential;
    // Trimmed on the way in, so a pasted key with a stray newline works.
    assert_eq!(access_key_id, "DO00ID");
    assert_eq!(secret_access_key, "secret");

    forget_storage_credential(&mut store, ProviderKind::DigitalOcean);
    assert!(!has_storage_credential(
        &store,
        ProviderKind::DigitalOcean,
        from_env(&none)
    ));
    let env = env_of(&[
        ("SPACES_ACCESS_KEY_ID", "DO00ENV"),
        ("SPACES_SECRET_ACCESS_KEY", "s"),
    ]);
    assert!(has_storage_credential(
        &store,
        ProviderKind::DigitalOcean,
        from_env(&env)
    ));
}

#[test]
fn half_a_storage_key_is_refused_and_no_secret_is_in_the_reason() {
    let mut store = MemStore::default();
    let (id, _) = storage_key_fields(ProviderKind::Aws);
    store.set(id.0, id.1, "AKIDSTORAGE").expect("set");
    let missing =
        || Err("set JAMSTREAM_RECORDING_ID and JAMSTREAM_RECORDING_SECRET.".to_owned());
    let err = storage_credential(&store, ProviderKind::Aws, missing())
        .expect_err("half a pair cannot write a bucket");
    assert!(err.contains("JAMSTREAM_RECORDING_SECRET"), "{err}");
    assert!(err.contains("Recording tab"), "{err}");
    assert!(
        !err.contains("AKIDSTORAGE"),
        "the reason quoted a key: {err}"
    );
    // Local has no bucket, so it has no key slot either.
    assert!(storage_credential(&store, ProviderKind::Local, missing()).is_err());
    assert!(!has_storage_credential(&store, ProviderKind::Aws, missing()));
    // The environment's own pair is taken whole, never to complete a half.
    let pair = StorageCredential {
        access_key_id: "ENVID".to_owned(),
        secret_access_key: "env-secret".to_owned(),
    };
    let found = storage_credential(&store, ProviderKind::Aws, Ok(pair)).expect("a whole pair");
    assert_eq!(found.access_key_id, "ENVID");
    assert_eq!(
        err,
        "set JAMSTREAM_RECORDING_ID and JAMSTREAM_RECORDING_SECRET. The Recording tab in \
         Settings takes a key for this computer."
    );
}

#[test]
fn a_plan_carries_what_it_was_built_from() {
    let mut store = MemStore::default();
    store.set(AWS_ACCESS_KEY_ID.0, AWS_ACCESS_KEY_ID.1, "id").expect("set");
    let env = env_of(&[
        ("AWS_ACCESS_KEY_ID", "other"),
        ("AWS_SECRET_ACCESS_KEY", "secret"),
        ("DIGITALOCEAN_TOKEN", "token"),
    ]);
    assert_eq!(
        build_provider_for_port("aws", 40_000, &store, &env),
        Ok(ProviderPlan::Aws {
            id: "id".to_owned(),
            secret: "secret".to_owned(),
            session_port: Some(40_000),
        })
    );
    assert_eq!(
        build_provider("digitalocean", &store, &env),
        Ok(ProviderPlan::DigitalOcean {
            token: "token".to_owned(),
            session_port: None,
        })
    );
    assert_eq!(
        build_provider("azure", &store, &env),
        Err("unknown provider \"azure\": expected local, digitalocean, aws, or gcp".to_owned())
    );
}

#[test]
fn google_cloud_is_looked_for_in_three_places_in_order() {
    let mut store = MemStore::default();
    let all = env_of(&[
        ("GOOGLE_CLOUD_PROJECT", "p"),
        ("GCP_ACCESS_TOKEN", "t"),
        ("GOOGLE_APPLICATION_CREDENTIALS", "/key.json"),
    ]);
    assert_eq!(
        build_provider_for_port("gcp", 7, &store, &all),
        Ok(ProviderPlan::GcpToken {
            project: "p".to_owned(),
            token: "t".to_owned(),
            session_port: Some(7),
        })
    );
    let half = env_of(&[
        ("GCP_ACCESS_TOKEN", "t"),
        ("GOOGLE_APPLICATION_CREDENTIALS", "/key.json"),
    ]);
    assert_eq!(
        build_provider("gcp", &store, &half),
        Ok(ProviderPlan::GcpKeyFile {
            path: "/key.json".to_owned(),
            session_port: None,
        })
    );
    store
        .set(
            GCP_SERVICE_ACCOUNT_JSON.0,
            GCP_SERVICE_ACCOUNT_JSON.1,
            "{}",
        )
        .expect("set");
    let plan = build_provider("gcp", &store, &all).expect("a kept key");
    assert_eq!(plan.kind(), ProviderKind::Gcp);
    assert_eq!(
        plan,
        ProviderPlan::GcpKey {
            json: "{}".to_owned(),
            session_port: None,
        }
    );
    assert_eq!(
        build_provider("gcp", &MemStore::default(), &env_of(&[])),
        Err(
            "no GCP service account key saved and no GCP credentials in the environment"
                .to_owned()
        )
    );
}

#[test]
fn the_project_is_the_environments_before_the_keys_own() {
    let env = env_of(&[("GOOGLE_CLOUD_PROJECT", "from-env")]);
    assert_eq!(gcp_project(&env, Some("in-key".to_owned())), Ok("from-env".to_owned()));
    let none = env_of(&[]);
    assert_eq!(gcp_project(&none, Some("in-key".to_owned())), Ok("in-key".to_owned()));
    assert_eq!(
        gcp_project(&none, None),
        Err(
            "the service account key has no project_id field and GOOGLE_CLOUD_PROJECT is not set"
                .to_owned()
        )
    );
    assert_eq!(
        unreadable_key("/key.json", "gone"),
        "cannot read service account key /key.json: gone"
    );
}

#[test]
fn a_variable_set_to_nothing_is_not_set() {
    let env = system_env(vec![
        ("A".to_owned(), String::new()),
        ("B".to_owned(), "b".to_owned()),
        ("A".to_owned(), "second".to_owned()),
    ]);
    assert_eq!(env.var("A").as_deref(), Some("second"));
    assert_eq!(env.var("B").as_deref(), Some("b"));
    assert_eq!(env.var("C"), None);
}

#[test]
fn every_name_is_its_own() {
    for kind in ALL {
        assert_eq!(ProviderKind::parse(kind.as_str()), Ok(kind));
    }
    let names: BTreeSet<_> = ALL.iter().map(|kind| kind.as_str()).collect();
    assert_eq!(names.len(), ALL.len());
}

// ------------------------------------------------------------------ the vault

/// The blob cap of a keychain that stores passwords as UTF-16.
const BLOB_CAP_BYTES: usize = 2560;

/// A keychain that refuses what is past its cap, a directory, and the store
/// that decides between them.
struct Machine {
    store: KeyringStore,
    entries: HashMap<String, String>,
    files: HashMap<String, Vec<u8>>,
    directory: bool,
    private: bool,
}

impl Machine {
    fn new() -> Machine {
        Machine {
            store: KeyringStore {
                fallback_dir: Ok("/data/credentials".to_owned()),
            },
            entries: HashMap::new(),
            files: HashMap::new(),
            directory: false,
            private: true,
        }
    }

    fn file(&self, name: &str) -> FileRead {
        match self.files.get(name) {
            None => FileRead::Absent,
            Some(_) if !self.private => FileRead::Refused("not private".to_owned()),
            Some(bytes) => FileRead::Bytes(bytes.clone()),
        }
    }

    fn get(&self, field: (&str, &str)) -> Option<String> {
        let name = account(field.0, field.1);
        let mut event = ReadEvent::Begun;
        loop {
            event = match self.store.get(event) {
                ReadStep::Read(value) => return value,
                ReadStep::Refused(_) => return None,
                ReadStep::AskKeychain => ReadEvent::Held(self.entries.get(&name).cloned()),
                ReadStep::LookInFile => ReadEvent::File(self.file(&name)),
            };
        }
    }

    fn set(&mut self, field: (&str, &str), value: &str) -> Result<(), String> {
        let name = account(field.0, field.1);
        let mut event = SaveEvent::Begun;
        loop {
            event = match self.store.set(&name, event) {
                SaveStep::Done => return Ok(()),
                SaveStep::Refused(reason) => return Err(reason),
                SaveStep::AskKeychain => {
                    if value.encode_utf16().count() * 2 > BLOB_CAP_BYTES {
                        SaveEvent::Keychain(KeychainAnswer::TooLong)
                    } else {
                        self.entries.insert(name.clone(), value.to_owned());
                        SaveEvent::Keychain(KeychainAnswer::Saved)
                    }
                }
                SaveStep::DropFile => {
                    self.files.remove(&name);
                    SaveEvent::Dropped
                }
                SaveStep::WriteFile => {
                    self.directory = true;
                    self.files.insert(name.clone(), value.as_bytes().to_vec());
                    SaveEvent::Wrote(Ok(()))
                }
                SaveStep::DropEntry => {
                    self.entries.remove(&name);
                    SaveEvent::Dropped
                }
            };
        }
    }

    fn delete(&mut self, field: (&str, &str)) {
        let name = account(field.0, field.1);
        self.entries.remove(&name);
        if self.store.has_directory() {
            self.files.remove(&name);
        }
    }
}

#[test]
fn a_secret_the_keychain_refuses_round_trips_through_a_private_file() {
    let mut machine = Machine::new();
    let secret = "x".repeat(2500);
    machine.set(GCP_SERVICE_ACCOUNT_JSON, &secret).expect("set");
    assert!(
        machine.files.contains_key("gcp.service_account_json"),
        "the fallback file was not written"
    );
    assert_eq!(
        machine.entries.get("gcp.service_account_json"),
        None,
        "the keychain must hold nothing for a slot the file owns"
    );
    assert_eq!(machine.get(GCP_SERVICE_ACCOUNT_JSON), Some(secret));

    machine.delete(GCP_SERVICE_ACCOUNT_JSON);
    assert!(machine.files.is_empty(), "delete left the file behind");
    assert_eq!(machine.get(GCP_SERVICE_ACCOUNT_JSON), None);
}

#[test]
fn a_fallback_directory_that_stopped_being_private_is_not_read_back() {
    let mut machine = Machine::new();
    let secret = "x".repeat(2500);
    machine.set(GCP_SERVICE_ACCOUNT_JSON, &secret).expect("set");
    assert_eq!(
        machine.get(GCP_SERVICE_ACCOUNT_JSON).as_deref(),
        Some(secret.as_str())
    );
    machine.private = false;
    assert_eq!(
        machine.get(GCP_SERVICE_ACCOUNT_JSON),
        None,
        "a key read back out of a world writable directory"
    );
    assert!(
        read_fallback(machine.file("gcp.service_account_json")).is_err(),
        "a directory that cannot be trusted is a refusal, not an empty slot"
    );
    machine.private = true;
    assert_eq!(
        machine.get(GCP_SERVICE_ACCOUNT_JSON).as_deref(),
        Some(secret.as_str())
    );
}

#[test]
fn no_credentials_directory_is_nothing_saved_rather_than_a_refusal() {
    let machine = Machine::new();
    for field in [
        DO_TOKEN,
        AWS_ACCESS_KEY_ID,
        AWS_SECRET_ACCESS_KEY,
        GCP_SERVICE_ACCOUNT_JSON,
    ] {
        let name = account(field.0, field.1);
        assert_eq!(
            read_fallback(machine.file(&name)).expect("an absent path is not a refusal"),
            None
        );
        assert_eq!(machine.get(field), None);
    }
    assert!(
        !machine.directory,
        "looking for a credential created the directory"
    );
}

#[test]
fn a_keychain_sized_secret_never_touches_the_file_path() {
    let mut machine = Machine::new();
    machine.set(DO_TOKEN, "dop_v1_x").expect("set");
    assert!(
        !machine.directory,
        "a fitting secret created the fallback dir"
    );
    assert_eq!(machine.get(DO_TOKEN).as_deref(), Some("dop_v1_x"));
    machine.delete(DO_TOKEN);
    assert_eq!(machine.get(DO_TOKEN), None);
}

#[test]
fn the_fallback_starts_exactly_past_the_blob_cap_and_evicts_the_stale_entry() {
    let mut machine = Machine::new();
    machine
        .set(GCP_SERVICE_ACCOUNT_JSON, &"a".repeat(1280))
        .expect("set");
    assert!(!machine.directory, "1280 chars fits the cap");

    let grown = "b".repeat(1281);
    machine.set(GCP_SERVICE_ACCOUNT_JSON, &grown).expect("set");
    assert!(machine.files.contains_key("gcp.service_account_json"));
    assert_eq!(
        machine.get(GCP_SERVICE_ACCOUNT_JSON),
        Some(grown),
        "the keychain's stale value shadowed the file"
    );
}

#[test]
fn a_shorter_secret_saved_over_an_oversized_one_removes_the_file() {
    let mut machine = Machine::new();
    machine
        .set(GCP_SERVICE_ACCOUNT_JSON, &"x".repeat(2500))
        .expect("set");
    assert!(machine.files.contains_key("gcp.service_account_json"));
    machine.set(GCP_SERVICE_ACCOUNT_JSON, "small").expect("set");
    assert!(
        machine.files.is_empty(),
        "the oversized copy stayed on disk"
    );
    assert_eq!(
        machine.get(GCP_SERVICE_ACCOUNT_JSON).as_deref(),
        Some("small")
    );
}

#[test]
fn a_save_that_is_refused_says_where_it_failed() {
    let nowhere = KeyringStore {
        fallback_dir: Err("no data directory".to_owned()),
    };
    assert_eq!(
        nowhere.set("", SaveEvent::Keychain(KeychainAnswer::TooLong)),
        SaveStep::Refused(
            "this key is longer than the keychain allows, and there is no private directory to \
             keep it in instead: no data directory"
                .to_owned()
        )
    );
    assert_eq!(
        nowhere.set("", SaveEvent::Keychain(KeychainAnswer::Saved)),
        SaveStep::Done
    );
    assert_eq!(
        nowhere.set("", SaveEvent::Keychain(KeychainAnswer::Failed("locked".to_owned()))),
        SaveStep::Refused("keychain: locked".to_owned())
    );
    assert_eq!(nowhere.get(ReadEvent::Held(None)), ReadStep::Read(None));
    let machine = Machine::new();
    assert_eq!(
        machine
            .store
            .set("/data/x", SaveEvent::Wrote(Err("disk full".to_owned()))),
        SaveStep::Refused(
            "this key is longer than the keychain allows, and keeping it as a private file \
             failed: cannot write /data/x: disk full"
                .to_owned()
        )
    );
}

#[test]
fn saving_one_slot_leaves_the_others_where_they_rest() {
    let mut machine = Machine::new();
    let long = "k".repeat(3000);
    machine.set(GCP_SERVICE_ACCOUNT_JSON, &long).expect("set");
    machine.set(DO_TOKEN, "short").expect("set");
    machine.set(DO_TOKEN, &long).expect("set");
    machine.set(DO_TOKEN, "shorter").expect("set");
    assert_eq!(machine.get(DO_TOKEN).as_deref(), Some("shorter"));
    assert_eq!(machine.get(GCP_SERVICE_ACCOUNT_JSON), Some(long));
    assert_eq!(machine.entries.len(), 1);
    assert_eq!(machine.files.len(), 1);
    machine.delete(DO_TOKEN);
    assert_eq!(machine.get(DO_TOKEN), None);
    assert_eq!(machine.files.len(), 1);
}

#[test]
fn a_file_that_will_not_be_read_is_told_apart() {
    let machine = Machine::new();
    assert_eq!(machine.store.get(ReadEvent::Begun), ReadStep::AskKeychain);
    assert_eq!(machine.store.set("", SaveEvent::Begun), SaveStep::AskKeychain);
    assert_eq!(
        machine
            .store
            .get(ReadEvent::File(FileRead::Refused("not private".to_owned()))),
        ReadStep::Refused("not private".to_owned())
    );
    assert_eq!(
        machine.store.get(ReadEvent::File(FileRead::Absent)),
        ReadStep::Read(None)
    );
}

#[test]
fn a_file_that_is_not_text_is_nothing_saved() {
    assert_eq!(read_fallback(FileRead::Bytes(vec![0xff, 0xfe])), Ok(None));
    assert_eq!(read_fallback(FileRead::Bytes(Vec::new())), Ok(None));
    assert_eq!(
        read_fallback(FileRead::Bytes("h\u{e9}l\u{e8}ne".as_bytes().to_vec())),
        Ok(Some("h\u{e9}l\u{e8}ne".to_owned()))
    );
    assert_eq!(account("gcp", "token"), "gcp.token");
}

#[test]
fn an_empty_keychain_entry_falls_through_to_the_file() {
    let machine = Machine::new();
    assert_eq!(
        machine.store.get(ReadEvent::Held(Some(String::new()))),
        ReadStep::LookInFile
    );
    assert_eq!(
        machine.store.get(ReadEvent::Held(Some("s".to_owned()))),
        ReadStep::Read(Some("s".to_owned()))
    );
}

#[test]
fn a_pasted_key_gets_the_default_port() {
    assert_eq!(
        gcp_from_json("{}"),
        ProviderPlan::GcpKey {
            json: "{}".to_owned(),
            session_port: None
        }
    );
}
