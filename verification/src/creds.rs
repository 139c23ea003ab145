//! Credential storage for the host wizard. Secrets live in the platform
//! keychain; the environment variables the command line reads remain a silent
//! fallback, so a terminal-configured machine works with no extra setup. A
//! secret the keychain itself refuses as too long lands in a private file
//! instead; see [`crate::vault`].
//!
//! No field in this product reveals a secret, and no refusal quotes one.

use vstd::prelude::*;

use crate::runtime::StreamPlatform;
use crate::text::{same_text, trim, trimmed};

verus! {

// --------------------------------------------------------------------- fields

/// The provisioning credentials that are kept, each as its provider and field.
pub const DO_TOKEN: (&'static str, &'static str) = ("digitalocean", "token");
pub const AWS_ACCESS_KEY_ID: (&'static str, &'static str) = ("aws", "access_key_id");
pub const AWS_SECRET_ACCESS_KEY: (&'static str, &'static str) = ("aws", "secret_access_key");
pub const GCP_SERVICE_ACCOUNT_JSON: (&'static str, &'static str) = ("gcp", "service_account_json");

/// A slot, as its provider and field.
pub type Slot = (Seq<char>, Seq<char>);

/// The slot a field names.
pub open spec fn slot(field: (&str, &str)) -> Slot {
    (field.0@, field.1@)
}

/// Where a session machine runs.
#[derive(Debug, Clone, Copy, PartialEq, Eq, Structural)]
pub enum ProviderKind {
    Local,
    DigitalOcean,
    Aws,
    Gcp,
}

impl ProviderKind {
    /// The name a provider goes by everywhere.
    pub open spec fn name(self) -> Seq<char> {
        match self {
            ProviderKind::Local => "local"@,
            ProviderKind::DigitalOcean => "digitalocean"@,
            ProviderKind::Aws => "aws"@,
            ProviderKind::Gcp => "gcp"@,
        }
    }

    pub fn as_str(&self) -> (s: &'static str)
        ensures
            s@ == self.name(),
            match self {
                ProviderKind::Local => s@ == "local"@,
                ProviderKind::DigitalOcean => s@ == "digitalocean"@,
                ProviderKind::Aws => s@ == "aws"@,
                ProviderKind::Gcp => s@ == "gcp"@,
            },
    {
        match self {
            ProviderKind::Local => "local",
            ProviderKind::DigitalOcean => "digitalocean",
            ProviderKind::Aws => "aws",
            ProviderKind::Gcp => "gcp",
        }
    }

    /// The provider of a name, or the refusal, which says what would have been
    /// taken.
    pub fn parse(name: &str) -> (r: Result<ProviderKind, String>)
        ensures
            match r {
                Ok(kind) => kind.name() == name@,
                Err(reason) => reason@ == unknown_provider(name@) && forall|kind: ProviderKind|
                    kind.name() != name@,
            },
            r matches Err(reason) ==> reason@ == "unknown provider \""@ + name@
                + "\": expected local, digitalocean, aws, or gcp"@,
    {
        if same_text(name, "local") {
            return Ok(ProviderKind::Local);
        }
        if same_text(name, "digitalocean") {
            return Ok(ProviderKind::DigitalOcean);
        }
        if same_text(name, "aws") {
            return Ok(ProviderKind::Aws);
        }
        if same_text(name, "gcp") {
            return Ok(ProviderKind::Gcp);
        }
        assert forall|kind: ProviderKind| kind.name() != name@ by {
            match kind {
                ProviderKind::Local => {},
                ProviderKind::DigitalOcean => {},
                ProviderKind::Aws => {},
                ProviderKind::Gcp => {},
            }
        }
        let mut reason = "unknown provider \"".to_owned();
        reason.append(name);
        reason.append("\": expected local, digitalocean, aws, or gcp");
        Err(reason)
    }
}

/// What a name that is no provider's is answered.
pub open spec fn unknown_provider(name: Seq<char>) -> Seq<char> {
    "unknown provider \""@ + name + "\": expected local, digitalocean, aws, or gcp"@
}

/// Where one platform's stream key is kept between sessions, so a host pastes
/// it once per computer rather than once per session.
pub fn stream_key_field(platform: StreamPlatform) -> (field: (&'static str, &'static str))
    ensures
        slot(field) == stream_key_slot(platform),
        field.0@ == platform.name() && field.1@ == "stream_key"@,
{
    (platform.as_str(), "stream_key")
}

pub open spec fn stream_key_slot(platform: StreamPlatform) -> Slot {
    (platform.name(), "stream_key"@)
}

/// Where one provider's object storage key pair lives: two slots of its own,
/// beside that provider's provisioning credential and never the same slot, with
/// no fallback from one to the other.
pub fn storage_key_fields(provider: ProviderKind) -> (fields: (
    (&'static str, &'static str),
    (&'static str, &'static str),
))
    ensures
        slot(fields.0) == storage_id_slot(provider),
        slot(fields.1) == storage_secret_slot(provider),
        fields.0.0@ == provider.name() && fields.1.0@ == provider.name(),
        fields.0.1@ == "storage_access_key_id"@,
        fields.1.1@ == "storage_secret_access_key"@,
{
    (
        (provider.as_str(), "storage_access_key_id"),
        (provider.as_str(), "storage_secret_access_key"),
    )
}

pub open spec fn storage_id_slot(provider: ProviderKind) -> Slot {
    (provider.name(), "storage_access_key_id"@)
}

pub open spec fn storage_secret_slot(provider: ProviderKind) -> Slot {
    (provider.name(), "storage_secret_access_key"@)
}

// ---------------------------------------------------------------- environment

/// The environment, as the variables that are set.
#[derive(Debug, PartialEq)]
pub struct EnvReader {
    pub vars: Vec<(String, String)>,
}

/// The value of the first variable of a name.
pub open spec fn var_among(vars: Seq<(Seq<char>, Seq<char>)>, key: Seq<char>) -> Option<Seq<char>>
    decreases vars.len(),
{
    if vars.len() == 0 {
        None
    } else if vars[0].0 == key {
        Some(vars[0].1)
    } else {
        var_among(vars.drop_first(), key)
    }
}

/// The variables that hold something.
pub open spec fn set_among(vars: Seq<(Seq<char>, Seq<char>)>) -> Seq<(Seq<char>, Seq<char>)>
    decreases vars.len(),
{
    if vars.len() == 0 {
        Seq::empty()
    } else if vars.last().1.len() > 0 {
        set_among(vars.drop_last()).push(vars.last())
    } else {
        set_among(vars.drop_last())
    }
}

proof fn lemma_var_at(vars: Seq<(Seq<char>, Seq<char>)>, key: Seq<char>, at: int)
    requires
        0 <= at < vars.len(),
        vars[at].0 == key,
        forall|j: int| 0 <= j < at ==> (#[trigger] vars[j]).0 != key,
    ensures
        var_among(vars, key) == Some(vars[at].1),
    decreases vars.len(),
{
    if at > 0 {
        let rest = vars.drop_first();
        assert(vars[0].0 != key);
        assert forall|j: int| 0 <= j < at - 1 implies (#[trigger] rest[j]).0 != key by {
            assert(rest[j] == vars[j + 1]);
        }
        assert(rest[at - 1] == vars[at]);
        lemma_var_at(rest, key, at - 1);
    }
}

proof fn lemma_no_var(vars: Seq<(Seq<char>, Seq<char>)>, key: Seq<char>)
    requires
        forall|j: int| 0 <= j < vars.len() ==> (#[trigger] vars[j]).0 != key,
    ensures
        var_among(vars, key) is None,
    decreases vars.len(),
{
    if vars.len() > 0 {
        let rest = vars.drop_first();
        assert(vars[0].0 != key);
        assert forall|j: int| 0 <= j < rest.len() implies (#[trigger] rest[j]).0 != key by {
            assert(rest[j] == vars[j + 1]);
        }
        lemma_no_var(rest, key);
    }
}

impl EnvReader {
    /// What a variable reads as.
    pub open spec fn reads(self, key: Seq<char>) -> Option<Seq<char>> {
        var_among(self.vars.deep_view(), key)
    }

    /// Reads one variable.
    pub fn var(&self, key: &str) -> (value: Option<String>)
        ensures
            value.deep_view() == self.reads(key@),
            match value {
                Some(v) => exists|i: int|
                    0 <= i < self.vars@.len() && (#[trigger] self.vars.deep_view()[i]) == (
                        key@,
                        v@,
                    ) && forall|j: int|
                        0 <= j < i ==> (#[trigger] self.vars.deep_view()[j]).0 != key@,
                None => forall|j: int|
                    0 <= j < self.vars@.len() ==> (#[trigger] self.vars.deep_view()[j]).0 != key@,
            },
    {
        let ghost all = self.vars.deep_view();
        let mut i: usize = 0;
        while i < self.vars.len()
            invariant
                i <= self.vars@.len(),
                all == self.vars.deep_view(),
                forall|j: int| 0 <= j < i ==> (#[trigger] all[j]).0 != key@,
            decreases self.vars.len() - i,
        {
            assert(all[i as int] == (self.vars@[i as int].0@, self.vars@[i as int].1@));
            if same_text(self.vars[i].0.as_str(), key) {
                proof {
                    lemma_var_at(all, key@, i as int);
                }
                return Some(self.vars[i].1.clone());
            }
            i += 1;
        }
        proof {
            lemma_no_var(all, key@);
        }
        None
    }
}

/// The process environment: a variable that is set to nothing reads as not set.
pub fn system_env(vars: Vec<(String, String)>) -> (env: EnvReader)
    ensures
        env.vars.deep_view() == set_among(vars.deep_view()),
{
    let ghost all = vars.deep_view();
    let mut kept: Vec<(String, String)> = Vec::new();
    let mut i: usize = 0;
    assert(kept.deep_view() =~= Seq::empty());
    while i < vars.len()
        invariant
            i <= vars@.len(),
            all == vars.deep_view(),
            kept.deep_view() == set_among(all.take(i as int)),
        decreases vars.len() - i,
    {
        let ghost sofar = kept.deep_view();
        assert(all[i as int] == (vars@[i as int].0@, vars@[i as int].1@));
        assert(all.take(i + 1).drop_last() =~= all.take(i as int));
        assert(all.take(i + 1).last() == all[i as int]);
        if !vars[i].1.as_str().is_empty() {
            kept.push((vars[i].0.clone(), vars[i].1.clone()));
            assert(kept.deep_view() =~= sofar.push(all[i as int]));
        }
        i += 1;
    }
    assert(all.take(i as int) =~= all);
    EnvReader { vars: kept }
}

// --------------------------------------------------------------------- stores

/// What came of writing, with the refusal as text.
pub open spec fn said(r: Result<(), String>) -> Result<(), Seq<char>> {
    match r {
        Ok(()) => Ok(()),
        Err(reason) => Err(reason@),
    }
}

/// What a written value reads back as: nothing, when it is empty.
pub open spec fn written(value: Seq<char>) -> Option<Seq<char>> {
    if value.len() > 0 {
        Some(value)
    } else {
        None
    }
}

/// Somewhere credentials are kept. Each store says for itself what writing and
/// deleting do to it.
pub trait CredStore: Sized {
    /// What a slot reads as.
    spec fn reads(&self, at: Slot) -> Option<Seq<char>>;

    /// Whether writing may answer `r` and leave the store as `next`.
    spec fn sets(&self, at: Slot, value: Seq<char>, r: Result<(), Seq<char>>, next: &Self) -> bool;

    /// Whether deleting may leave the store as `next`.
    spec fn deletes(&self, at: Slot, next: &Self) -> bool;

    fn get(&self, provider: &str, field: &str) -> (value: Option<String>)
        ensures
            value.deep_view() == self.reads((provider@, field@)),
    ;

    fn set(&mut self, provider: &str, field: &str, value: &str) -> (r: Result<(), String>)
        ensures
            old(self).sets((provider@, field@), value@, said(r), final(self)),
    ;

    fn delete(&mut self, provider: &str, field: &str)
        ensures
            old(self).deletes((provider@, field@), final(self)),
    ;
}

/// One kept value.
pub struct Kept {
    pub provider: String,
    pub field: String,
    pub value: String,
}

#[verifier::ext_equal]
pub struct KeptModel {
    pub at: Slot,
    pub value: Seq<char>,
}

impl DeepView for Kept {
    type V = KeptModel;

    open spec fn deep_view(&self) -> KeptModel {
        KeptModel { at: (self.provider@, self.field@), value: self.value@ }
    }
}

/// In-memory store for tests and demo runs.
pub struct MemStore {
    pub values: Vec<Kept>,
}

/// The newest value of a slot; an empty one counts as none.
pub open spec fn newest(values: Seq<KeptModel>, at: Slot) -> Option<Seq<char>>
    decreases values.len(),
{
    if values.len() == 0 {
        None
    } else if values.last().at == at {
        written(values.last().value)
    } else {
        newest(values.drop_last(), at)
    }
}

/// The values of every other slot.
pub open spec fn without_slot(values: Seq<KeptModel>, at: Slot) -> Seq<KeptModel>
    decreases values.len(),
{
    if values.len() == 0 {
        Seq::empty()
    } else if values.last().at == at {
        without_slot(values.drop_last(), at)
    } else {
        without_slot(values.drop_last(), at).push(values.last())
    }
}

proof fn lemma_without_slot(values: Seq<KeptModel>, at: Slot, other: Slot)
    ensures
        newest(without_slot(values, at), other) == (if other == at {
            None
        } else {
            newest(values, other)
        }),
    decreases values.len(),
{
    if values.len() > 0 {
        lemma_without_slot(values.drop_last(), at, other);
        let rest = without_slot(values.drop_last(), at);
        if values.last().at != at {
            assert(rest.push(values.last()).drop_last() =~= rest);
        }
    }
}

impl Default for MemStore {
    fn default() -> (s: MemStore)
        ensures
            s.values.deep_view() == Seq::<KeptModel>::empty(),
            forall|at: Slot| s.reads(at) is None,
    {
        let s = MemStore { values: Vec::new() };
        assert(s.values.deep_view() =~= Seq::empty());
        s
    }
}

impl MemStore {
    fn drop_slot(&mut self, provider: &str, field: &str)
        ensures
            final(self).values.deep_view() == without_slot(
                old(self).values.deep_view(),
                (provider@, field@),
            ),
    {
        let ghost all = self.values.deep_view();
        let ghost at = (provider@, field@);
        let mut kept: Vec<Kept> = Vec::new();
        let mut i: usize = 0;
        assert(kept.deep_view() =~= Seq::empty());
        while i < self.values.len()
            invariant
                i <= self.values@.len(),
                all == self.values.deep_view(),
                at == (provider@, field@),
                kept.deep_view() == without_slot(all.take(i as int), at),
            decreases self.values.len() - i,
        {
            let ghost sofar = kept.deep_view();
            let v = &self.values[i];
            assert(all[i as int] == v.deep_view());
            assert(all.take(i + 1).drop_last() =~= all.take(i as int));
            assert(all.take(i + 1).last() == all[i as int]);
            if !(same_text(v.provider.as_str(), provider) && same_text(v.field.as_str(), field)) {
                kept.push(
                    Kept {
                        provider: v.provider.clone(),
                        field: v.field.clone(),
                        value: v.value.clone(),
                    },
                );
                assert(kept.deep_view() =~= sofar.push(all[i as int]));
            }
            i += 1;
        }
        assert(all.take(i as int) =~= all);
        self.values = kept;
    }
}

impl CredStore for MemStore {
    open spec fn reads(&self, at: Slot) -> Option<Seq<char>> {
        newest(self.values.deep_view(), at)
    }

    /// Writing always succeeds, and touches no other slot.
    open spec fn sets(
        &self,
        at: Slot,
        value: Seq<char>,
        r: Result<(), Seq<char>>,
        next: &MemStore,
    ) -> bool {
        &&& r is Ok
        &&& forall|other: Slot| #[trigger]
            next.reads(other) == (if other == at {
                written(value)
            } else {
                self.reads(other)
            })
    }

    /// A deleted slot reads as nothing, and no other is touched.
    open spec fn deletes(&self, at: Slot, next: &MemStore) -> bool {
        forall|other: Slot| #[trigger]
            next.reads(other) == (if other == at {
                None
            } else {
                self.reads(other)
            })
    }

    fn get(&self, provider: &str, field: &str) -> (value: Option<String>) {
        let ghost all = self.values.deep_view();
        let ghost at = (provider@, field@);
        let mut i: usize = self.values.len();
        assert(all.take(i as int) =~= all);
        while i > 0
            invariant
                i <= self.values@.len(),
                all == self.values.deep_view(),
                at == (provider@, field@),
                newest(all.take(i as int), at) == newest(all, at),
            decreases i,
        {
            let v = &self.values[i - 1];
            assert(all[i - 1] == v.deep_view());
            assert(all.take(i as int).drop_last() =~= all.take(i - 1));
            assert(all.take(i as int).last() == all[i - 1]);
            if same_text(v.provider.as_str(), provider) && same_text(v.field.as_str(), field) {
                if v.value.as_str().is_empty() {
                    return None;
                }
                return Some(v.value.clone());
            }
            i -= 1;
        }
        None
    }

    fn set(&mut self, provider: &str, field: &str, value: &str) -> (r: Result<(), String>) {
        let ghost all = self.values.deep_view();
        let ghost at = (provider@, field@);
        self.drop_slot(provider, field);
        let ghost rest = self.values.deep_view();
        self.values.push(
            Kept {
                provider: provider.to_owned(),
                field: field.to_owned(),
                value: value.to_owned(),
            },
        );
        proof {
            let now = self.values.deep_view();
            assert(now =~= rest.push(KeptModel { at, value: value@ }));
            assert(now.drop_last() =~= rest);
            assert forall|other: Slot| #[trigger]
                self.reads(other) == (if other == at {
                    written(value@)
                } else {
                    newest(all, other)
                }) by {
                lemma_without_slot(all, at, other);
            }
        }
        Ok(())
    }

    fn delete(&mut self, provider: &str, field: &str) {
        let ghost all = self.values.deep_view();
        let ghost at = (provider@, field@);
        self.drop_slot(provider, field);
        assert forall|other: Slot| #[trigger]
            self.reads(other) == (if other == at {
                None
            } else {
                newest(all, other)
            }) by {
            lemma_without_slot(all, at, other);
        }
    }
}

// -------------------------------------------------------------------- lookups

/// The lookup order for one field: the store first, then the variable.
pub open spec fn looked_up<S: CredStore>(creds: &S, env: EnvReader, at: Slot, var: Seq<char>) -> Option<
    Seq<char>,
> {
    match creds.reads(at) {
        Some(value) => Some(value),
        None => env.reads(var),
    }
}

/// Looks one field up: the credential store first, then the environment
/// variable as a silent fallback.
pub fn lookup<S: CredStore>(creds: &S, env: &EnvReader, field: (&str, &str), var: &str) -> (value:
    Option<String>)
    ensures
        value.deep_view() == looked_up(creds, *env, slot(field), var@),
{
    match creds.get(field.0, field.1) {
        Some(value) => Some(value),
        None => env.var(var),
    }
}

/// The key pair that writes a provider's bucket.
#[derive(Debug, PartialEq, Eq)]
pub struct StorageCredential {
    pub access_key_id: String,
    pub secret_access_key: String,
}

/// The key pair as text.
pub open spec fn pair(c: StorageCredential) -> (Seq<char>, Seq<char>) {
    (c.access_key_id@, c.secret_access_key@)
}

/// What a search for a key pair came to, as text.
pub open spec fn pair_or_reason(r: Result<StorageCredential, String>) -> Result<
    (Seq<char>, Seq<char>),
    Seq<char>,
> {
    match r {
        Ok(c) => Ok(pair(c)),
        Err(reason) => Err(reason@),
    }
}

/// The storage key pair for one provider. Both halves have to come from the
/// same place: completing a kept id with an environment secret is how a host
/// ends up handing a machine a key they never chose.
pub open spec fn storage_pair<S: CredStore>(
    creds: &S,
    provider: ProviderKind,
    from_env: Result<(Seq<char>, Seq<char>), Seq<char>>,
) -> Result<(Seq<char>, Seq<char>), Seq<char>> {
    match (creds.reads(storage_id_slot(provider)), creds.reads(storage_secret_slot(provider))) {
        (Some(id), Some(secret)) => Ok((id, secret)),
        _ => match from_env {
            Ok(found) => Ok(found),
            Err(reason) => Err(
                reason + " The Recording tab in Settings takes a key for this computer."@,
            ),
        },
    }
}

/// The storage key pair for one provider: this computer's store first, then
/// what the recording variables gave, which `from_env` is.
pub fn storage_credential<S: CredStore>(
    creds: &S,
    provider: ProviderKind,
    from_env: Result<StorageCredential, String>,
) -> (r: Result<StorageCredential, String>)
    ensures
        pair_or_reason(r) == storage_pair(creds, provider, pair_or_reason(from_env)),
        ({
            let id = creds.reads((provider.name(), "storage_access_key_id"@));
            let secret = creds.reads((provider.name(), "storage_secret_access_key"@));
            if id is Some && secret is Some {
                r matches Ok(c) && c.access_key_id@ == id->0 && c.secret_access_key@ == secret->0
            } else {
                match from_env {
                    Ok(found) => r matches Ok(c) && c.access_key_id@ == found.access_key_id@
                        && c.secret_access_key@ == found.secret_access_key@,
                    Err(reason) => r matches Err(text) && text@ == reason@
                        + " The Recording tab in Settings takes a key for this computer."@,
                }
            }
        }),
{
    let (id_field, secret_field) = storage_key_fields(provider);
    let id = creds.get(id_field.0, id_field.1);
    let secret = creds.get(secret_field.0, secret_field.1);
    match (id, secret) {
        (Some(access_key_id), Some(secret_access_key)) => Ok(
            StorageCredential { access_key_id, secret_access_key },
        ),
        _ => match from_env {
            Ok(found) => Ok(found),
            Err(reason) => {
                let mut reason = reason;
                reason.append(" The Recording tab in Settings takes a key for this computer.");
                Err(reason)
            },
        },
    }
}

/// Whether recording to a bucket on `provider` has a key at all.
pub fn has_storage_credential<S: CredStore>(
    creds: &S,
    provider: ProviderKind,
    from_env: Result<StorageCredential, String>,
) -> (b: bool)
    ensures
        b == storage_pair(creds, provider, pair_or_reason(from_env)) is Ok,
{
    match storage_credential(creds, provider, from_env) {
        Ok(found) => true,
        Err(reason) => false,
    }
}

/// Whether saving a pair may answer `r` and leave the store as `next`: the id
/// first, then the secret, each as it is without the space around it, stopping
/// at a refusal.
pub open spec fn pair_saved<S: CredStore>(
    creds: &S,
    provider: ProviderKind,
    id: Seq<char>,
    secret: Seq<char>,
    r: Result<(), Seq<char>>,
    next: &S,
) -> bool {
    exists|first: Result<(), Seq<char>>, mid: S| #[trigger]
        creds.sets(storage_id_slot(provider), trimmed(id), first, &mid) && (if first is Ok {
            mid.sets(storage_secret_slot(provider), trimmed(secret), r, next)
        } else {
            r == first && *next == mid
        })
}

/// Writes one provider's storage key pair. Called only after a check has proved
/// the pair can write the bucket.
pub fn save_storage_credential<S: CredStore>(
    creds: &mut S,
    provider: ProviderKind,
    access_key_id: &str,
    secret_access_key: &str,
) -> (r: Result<(), String>)
    ensures
        pair_saved(
            &*old(creds),
            provider,
            access_key_id@,
            secret_access_key@,
            said(r),
            &*final(creds),
        ),
{
    let (id_field, secret_field) = storage_key_fields(provider);
    let ghost before = *creds;
    let first = creds.set(id_field.0, id_field.1, trim(access_key_id).as_str());
    let ghost mid = *creds;
    assert(before.sets(storage_id_slot(provider), trimmed(access_key_id@), said(first), &mid));
    if let Err(reason) = first {
        return Err(reason);
    }
    creds.set(secret_field.0, secret_field.1, trim(secret_access_key).as_str())
}

/// Whether forgetting a pair may leave the store as `next`.
pub open spec fn pair_forgotten<S: CredStore>(creds: &S, provider: ProviderKind, next: &S) -> bool {
    exists|mid: S| #[trigger]
        creds.deletes(storage_id_slot(provider), &mid) && mid.deletes(
            storage_secret_slot(provider),
            next,
        )
}

/// Forgets one provider's storage key pair.
pub fn forget_storage_credential<S: CredStore>(creds: &mut S, provider: ProviderKind)
    ensures
        pair_forgotten(&*old(creds), provider, &*final(creds)),
{
    let (id_field, secret_field) = storage_key_fields(provider);
    let ghost before = *creds;
    creds.delete(id_field.0, id_field.1);
    let ghost mid = *creds;
    assert(before.deletes(storage_id_slot(provider), &mid));
    creds.delete(secret_field.0, secret_field.1);
}

// ------------------------------------------------------------------ providers

/// What a provider is built from. Without a session port, the provider opens
/// its own default one.
#[derive(Debug, PartialEq, Eq)]
pub enum ProviderPlan {
    /// A process on this computer, which opens no firewall.
    Local,
    DigitalOcean { token: String, session_port: Option<u16> },
    Aws { id: String, secret: String, session_port: Option<u16> },
    /// A service account key, as its own text.
    GcpKey { json: String, session_port: Option<u16> },
    GcpToken { project: String, token: String, session_port: Option<u16> },
    /// A service account key in a file.
    GcpKeyFile { path: String, session_port: Option<u16> },
}

#[verifier::ext_equal]
pub enum PlanModel {
    Local,
    DigitalOcean { token: Seq<char>, session_port: Option<u16> },
    Aws { id: Seq<char>, secret: Seq<char>, session_port: Option<u16> },
    GcpKey { json: Seq<char>, session_port: Option<u16> },
    GcpToken { project: Seq<char>, token: Seq<char>, session_port: Option<u16> },
    GcpKeyFile { path: Seq<char>, session_port: Option<u16> },
}

impl DeepView for ProviderPlan {
    type V = PlanModel;

    open spec fn deep_view(&self) -> PlanModel {
        match self {
            ProviderPlan::Local => PlanModel::Local,
            ProviderPlan::DigitalOcean { token, session_port } => PlanModel::DigitalOcean {
                token: token@,
                session_port: *session_port,
            },
            ProviderPlan::Aws { id, secret, session_port } => PlanModel::Aws {
                id: id@,
                secret: secret@,
                session_port: *session_port,
            },
            ProviderPlan::GcpKey { json, session_port } => PlanModel::GcpKey {
                json: json@,
                session_port: *session_port,
            },
            ProviderPlan::GcpToken { project, token, session_port } => PlanModel::GcpToken {
                project: project@,
                token: token@,
                session_port: *session_port,
            },
            ProviderPlan::GcpKeyFile { path, session_port } => PlanModel::GcpKeyFile {
                path: path@,
                session_port: *session_port,
            },
        }
    }
}

impl PlanModel {
    /// The provider a plan is for.
    pub open spec fn kind(self) -> ProviderKind {
        match self {
            PlanModel::Local => ProviderKind::Local,
            PlanModel::DigitalOcean { .. } => ProviderKind::DigitalOcean,
            PlanModel::Aws { .. } => ProviderKind::Aws,
            _ => ProviderKind::Gcp,
        }
    }
}

impl ProviderPlan {
    /// The provider a plan is for.
    pub fn kind(&self) -> (kind: ProviderKind)
        ensures
            kind == self.deep_view().kind(),
    {
        match self {
            ProviderPlan::Local => ProviderKind::Local,
            ProviderPlan::DigitalOcean { .. } => ProviderKind::DigitalOcean,
            ProviderPlan::Aws { .. } => ProviderKind::Aws,
            ProviderPlan::GcpKey { .. } => ProviderKind::Gcp,
            ProviderPlan::GcpToken { .. } => ProviderKind::Gcp,
            ProviderPlan::GcpKeyFile { .. } => ProviderKind::Gcp,
        }
    }
}

/// What a search for a plan came to, as text.
pub open spec fn plan_or_reason(r: Result<ProviderPlan, String>) -> Result<PlanModel, Seq<char>> {
    match r {
        Ok(plan) => Ok(plan.deep_view()),
        Err(reason) => Err(reason@),
    }
}

/// Google Cloud: a kept service account key first, then a project with an
/// access token, then a key file, the last two from the environment.
pub open spec fn gcp_plan<S: CredStore>(
    session_port: Option<u16>,
    creds: &S,
    env: EnvReader,
) -> Result<PlanModel, Seq<char>> {
    match creds.reads(slot(GCP_SERVICE_ACCOUNT_JSON)) {
        Some(json) => Ok(PlanModel::GcpKey { json, session_port }),
        None => match (env.reads("GOOGLE_CLOUD_PROJECT"@), env.reads("GCP_ACCESS_TOKEN"@)) {
            (Some(project), Some(token)) => Ok(
                PlanModel::GcpToken { project, token, session_port },
            ),
            _ => match env.reads("GOOGLE_APPLICATION_CREDENTIALS"@) {
                Some(path) => Ok(PlanModel::GcpKeyFile { path, session_port }),
                None => Err(
                    "no GCP service account key saved and no GCP credentials in the environment"@,
                ),
            },
        },
    }
}

/// What a provider of a kind is built from.
pub open spec fn plan_of<S: CredStore>(
    kind: ProviderKind,
    session_port: Option<u16>,
    creds: &S,
    env: EnvReader,
) -> Result<PlanModel, Seq<char>> {
    match kind {
        ProviderKind::Local => Ok(PlanModel::Local),
        ProviderKind::DigitalOcean => match looked_up(
            creds,
            env,
            slot(DO_TOKEN),
            "DIGITALOCEAN_TOKEN"@,
        ) {
            Some(token) => Ok(PlanModel::DigitalOcean { token, session_port }),
            None => Err("no DigitalOcean token saved and DIGITALOCEAN_TOKEN is not set"@),
        },
        ProviderKind::Aws => match looked_up(
            creds,
            env,
            slot(AWS_ACCESS_KEY_ID),
            "AWS_ACCESS_KEY_ID"@,
        ) {
            None => Err("no AWS access key saved and AWS_ACCESS_KEY_ID is not set"@),
            Some(id) => match looked_up(
                creds,
                env,
                slot(AWS_SECRET_ACCESS_KEY),
                "AWS_SECRET_ACCESS_KEY"@,
            ) {
                None => Err("no AWS secret key saved and AWS_SECRET_ACCESS_KEY is not set"@),
                Some(secret) => Ok(PlanModel::Aws { id, secret, session_port }),
            },
        },
        ProviderKind::Gcp => gcp_plan(session_port, creds, env),
    }
}

/// Whether `r` is what building a provider of this name comes to.
pub open spec fn planned<S: CredStore>(
    name: Seq<char>,
    session_port: Option<u16>,
    creds: &S,
    env: EnvReader,
    r: Result<PlanModel, Seq<char>>,
) -> bool {
    ||| exists|kind: ProviderKind| #[trigger]
        kind.name() == name && r == plan_of(kind, session_port, creds, env)
    ||| (forall|kind: ProviderKind| #[trigger] kind.name() != name) && r == Err::<
        PlanModel,
        Seq<char>,
    >(unknown_provider(name))
}

fn build_gcp<S: CredStore>(session_port: Option<u16>, creds: &S, env: &EnvReader) -> (r: Result<
    ProviderPlan,
    String,
>)
    ensures
        plan_or_reason(r) == gcp_plan(session_port, creds, *env),
{
    if let Some(json) = creds.get(GCP_SERVICE_ACCOUNT_JSON.0, GCP_SERVICE_ACCOUNT_JSON.1) {
        return Ok(ProviderPlan::GcpKey { json, session_port });
    }
    let project = env.var("GOOGLE_CLOUD_PROJECT");
    let token = env.var("GCP_ACCESS_TOKEN");
    if let (Some(project), Some(token)) = (project, token) {
        return Ok(ProviderPlan::GcpToken { project, token, session_port });
    }
    if let Some(path) = env.var("GOOGLE_APPLICATION_CREDENTIALS") {
        return Ok(ProviderPlan::GcpKeyFile { path, session_port });
    }
    Err("no GCP service account key saved and no GCP credentials in the environment".to_owned())
}

fn build_plan<S: CredStore>(
    name: &str,
    session_port: Option<u16>,
    creds: &S,
    env: &EnvReader,
) -> (r: Result<ProviderPlan, String>)
    ensures
        planned(name@, session_port, creds, *env, plan_or_reason(r)),
{
    let kind = match ProviderKind::parse(name) {
        Ok(kind) => kind,
        Err(reason) => {
            return Err(reason);
        },
    };
    match kind {
        ProviderKind::Local => Ok(ProviderPlan::Local),
        ProviderKind::DigitalOcean => {
            match lookup(creds, env, DO_TOKEN, "DIGITALOCEAN_TOKEN") {
                Some(token) => Ok(ProviderPlan::DigitalOcean { token, session_port }),
                None => Err(
                    "no DigitalOcean token saved and DIGITALOCEAN_TOKEN is not set".to_owned(),
                ),
            }
        },
        ProviderKind::Aws => {
            let id = match lookup(creds, env, AWS_ACCESS_KEY_ID, "AWS_ACCESS_KEY_ID") {
                Some(id) => id,
                None => {
                    return Err(
                        "no AWS access key saved and AWS_ACCESS_KEY_ID is not set".to_owned(),
                    );
                },
            };
            match lookup(creds, env, AWS_SECRET_ACCESS_KEY, "AWS_SECRET_ACCESS_KEY") {
                Some(secret) => Ok(ProviderPlan::Aws { id, secret, session_port }),
                None => Err(
                    "no AWS secret key saved and AWS_SECRET_ACCESS_KEY is not set".to_owned(),
                ),
            }
        },
        ProviderKind::Gcp => build_gcp(session_port, creds, env),
    }
}

/// What a provider is built from, out of kept or environment credentials, for
/// everything that is not a launch: readiness, the credential check, the region
/// survey, the teardown.
pub fn build_provider<S: CredStore>(name: &str, creds: &S, env: &EnvReader) -> (r: Result<
    ProviderPlan,
    String,
>)
    ensures
        planned(name@, None, creds, *env, plan_or_reason(r)),
{
    build_plan(name, None, creds, env)
}

/// The same for a launch, which has to name the port the session will listen
/// on: that is the one port the provider opens in the firewall it creates.
pub fn build_provider_for_port<S: CredStore>(
    name: &str,
    session_port: u16,
    creds: &S,
    env: &EnvReader,
) -> (r: Result<ProviderPlan, String>)
    ensures
        planned(name@, Some(session_port), creds, *env, plan_or_reason(r)),
{
    build_plan(name, Some(session_port), creds, env)
}

/// A provider from a pasted service account key, as the wizard's setup pane
/// holds it. The pane checks credentials and launches nothing, so the provider
/// opens its own default port.
pub fn gcp_from_json(json: &str) -> (plan: ProviderPlan)
    ensures
        plan.deep_view() == (PlanModel::GcpKey { json: json@, session_port: None }),
{
    ProviderPlan::GcpKey { json: json.to_owned(), session_port: None }
}

/// The project a service account key is used in: the environment's, or else the
/// key's own, which is `in_key`.
pub fn gcp_project(env: &EnvReader, in_key: Option<String>) -> (r: Result<String, String>)
    ensures
        match (env.reads("GOOGLE_CLOUD_PROJECT"@), in_key) {
            (Some(project), _) => r matches Ok(p) && p@ == project,
            (None, Some(project)) => r matches Ok(p) && p@ == project@,
            (None, None) => r matches Err(reason) && reason@
                == "the service account key has no project_id field and GOOGLE_CLOUD_PROJECT is not set"@,
        },
{
    match env.var("GOOGLE_CLOUD_PROJECT") {
        Some(project) => Ok(project),
        None => match in_key {
            Some(project) => Ok(project),
            None => Err(
                "the service account key has no project_id field and GOOGLE_CLOUD_PROJECT is not set".to_owned(),
            ),
        },
    }
}

/// What a service account key file that cannot be read is answered.
pub fn unreadable_key(path: &str, reason: &str) -> (s: String)
    ensures
        s@ == "cannot read service account key "@ + path@ + ": "@ + reason@,
{
    let mut s = "cannot read service account key ".to_owned();
    s.append(path);
    s.append(": ");
    s.append(reason);
    s
}

// ----------------------------------------------------------------------- laws

/// What is written to an in-memory store reads back, and deleting it leaves
/// nothing; no other slot is touched by either.
pub proof fn a_written_value_reads_back(
    store: MemStore,
    at: Slot,
    value: Seq<char>,
    set: MemStore,
    deleted: MemStore,
    other: Slot,
)
    requires
        store.sets(at, value, Ok(()), &set),
        set.deletes(at, &deleted),
        other != at,
    ensures
        set.reads(at) == written(value),
        deleted.reads(at) is None,
        set.reads(other) == store.reads(other),
        deleted.reads(other) == store.reads(other),
{
}

/// The store wins over the environment, and the environment is the fallback.
pub proof fn the_store_wins<S: CredStore>(creds: S, env: EnvReader, at: Slot, var: Seq<char>)
    ensures
        creds.reads(at) is Some ==> looked_up(&creds, env, at, var) == creds.reads(at),
        creds.reads(at) is None ==> looked_up(&creds, env, at, var) == env.reads(var),
{
}

/// Half a kept pair is no credential, and never completes itself from the
/// environment: where either half is missing, what the environment has as a
/// pair is what is used.
pub proof fn half_a_pair_is_no_credential<S: CredStore>(
    creds: S,
    provider: ProviderKind,
    from_env: Result<(Seq<char>, Seq<char>), Seq<char>>,
)
    requires
        creds.reads(storage_id_slot(provider)) is None || creds.reads(
            storage_secret_slot(provider),
        ) is None,
    ensures
        storage_pair(&creds, provider, from_env) is Ok <==> from_env is Ok,
        from_env is Ok ==> storage_pair(&creds, provider, from_env) == from_env,
{
}

/// A pair that was saved is the pair that is found, without the space around
/// either half, and one that was forgotten is not.
pub proof fn a_saved_pair_is_found_until_it_is_forgotten(
    store: MemStore,
    provider: ProviderKind,
    id: Seq<char>,
    secret: Seq<char>,
    r: Result<(), Seq<char>>,
    saved: MemStore,
    forgotten: MemStore,
    from_env: Result<(Seq<char>, Seq<char>), Seq<char>>,
)
    requires
        pair_saved(&store, provider, id, secret, r, &saved),
        trimmed(id).len() > 0,
        trimmed(secret).len() > 0,
        pair_forgotten(&saved, provider, &forgotten),
    ensures
        r is Ok,
        storage_pair(&saved, provider, from_env) == Ok::<(Seq<char>, Seq<char>), Seq<char>>(
            (trimmed(id), trimmed(secret)),
        ),
        storage_pair(&forgotten, provider, from_env) is Ok <==> from_env is Ok,
{
    reveal_strlit("storage_access_key_id");
    reveal_strlit("storage_secret_access_key");
    assert(storage_id_slot(provider).1.len() != storage_secret_slot(provider).1.len());
    let (first, mid) = choose|first: Result<(), Seq<char>>, mid: MemStore| #[trigger]
        store.sets(storage_id_slot(provider), trimmed(id), first, &mid) && (if first is Ok {
            mid.sets(storage_secret_slot(provider), trimmed(secret), r, &saved)
        } else {
            r == first && saved == mid
        });
    assert(saved.reads(storage_id_slot(provider)) == mid.reads(storage_id_slot(provider)));
    assert(saved.reads(storage_secret_slot(provider)) == Some(trimmed(secret)));
    let half = choose|mid: MemStore| #[trigger]
        saved.deletes(storage_id_slot(provider), &mid) && mid.deletes(
            storage_secret_slot(provider),
            &forgotten,
        );
    assert(forgotten.reads(storage_secret_slot(provider)) is None);
}

/// A storage key shares no slot with the credentials that launch machines, with
/// a stream key, with its own other half, or with another provider's.
pub proof fn storage_keys_have_slots_of_their_own(
    provider: ProviderKind,
    other: ProviderKind,
    platform: StreamPlatform,
)
    ensures
        ({
            let id = storage_id_slot(provider);
            let secret = storage_secret_slot(provider);
            &&& id != secret
            &&& provider != other ==> id != storage_id_slot(other) && secret
                != storage_secret_slot(other)
            &&& id != storage_secret_slot(other)
            &&& id != slot(DO_TOKEN) && secret != slot(DO_TOKEN)
            &&& id != slot(AWS_ACCESS_KEY_ID) && secret != slot(AWS_ACCESS_KEY_ID)
            &&& id != slot(AWS_SECRET_ACCESS_KEY) && secret != slot(AWS_SECRET_ACCESS_KEY)
            &&& id != slot(GCP_SERVICE_ACCOUNT_JSON) && secret != slot(GCP_SERVICE_ACCOUNT_JSON)
            &&& id != stream_key_slot(platform) && secret != stream_key_slot(platform)
        }),
{
    reveal_strlit("storage_access_key_id");
    reveal_strlit("storage_secret_access_key");
    reveal_strlit("token");
    reveal_strlit("access_key_id");
    reveal_strlit("secret_access_key");
    reveal_strlit("service_account_json");
    reveal_strlit("stream_key");
    lemma_names_differ(provider, other);
    assert("storage_access_key_id"@[1] == 't');
    assert("storage_secret_access_key"@[1] == 't');
    assert("storage_access_key_id"@.len() == 21);
    assert("storage_secret_access_key"@.len() == 25);
    assert("token"@.len() == 5);
    assert("access_key_id"@.len() == 13);
    assert("secret_access_key"@.len() == 17);
    assert("service_account_json"@.len() == 20);
    assert("stream_key"@.len() == 10);
}

proof fn lemma_names_differ(a: ProviderKind, b: ProviderKind)
    ensures
        a != b ==> a.name() != b.name(),
{
    reveal_strlit("local");
    reveal_strlit("digitalocean");
    reveal_strlit("aws");
    reveal_strlit("gcp");
    assert("local"@.len() == 5);
    assert("digitalocean"@.len() == 12);
    assert("aws"@[0] == 'a');
    assert("gcp"@[0] == 'g');
}

/// Each platform has a stream key slot of its own, and none of them is a
/// provider's.
pub proof fn each_platform_has_a_stream_key_slot(
    platform: StreamPlatform,
    other: StreamPlatform,
)
    ensures
        platform != other ==> stream_key_slot(platform) != stream_key_slot(other),
        stream_key_slot(platform) != slot(DO_TOKEN),
        stream_key_slot(platform) != slot(AWS_ACCESS_KEY_ID),
        stream_key_slot(platform) != slot(AWS_SECRET_ACCESS_KEY),
        stream_key_slot(platform) != slot(GCP_SERVICE_ACCOUNT_JSON),
{
    reveal_strlit("twitch");
    reveal_strlit("youtube");
    reveal_strlit("stream_key");
    reveal_strlit("token");
    reveal_strlit("access_key_id");
    reveal_strlit("secret_access_key");
    reveal_strlit("service_account_json");
    assert("twitch"@.len() == 6);
    assert("youtube"@.len() == 7);
    assert("stream_key"@.len() == 10);
    assert("token"@.len() == 5);
    assert("access_key_id"@.len() == 13);
    assert("secret_access_key"@.len() == 17);
    assert("service_account_json"@.len() == 20);
}

/// A name is a provider's or it is refused, never both, and two providers have
/// two names: what a name builds is settled.
pub proof fn a_name_builds_one_thing<S: CredStore>(
    name: Seq<char>,
    session_port: Option<u16>,
    creds: S,
    env: EnvReader,
    a: Result<PlanModel, Seq<char>>,
    b: Result<PlanModel, Seq<char>>,
)
    requires
        planned(name, session_port, &creds, env, a),
        planned(name, session_port, &creds, env, b),
    ensures
        a == b,
        a matches Ok(plan) ==> plan.kind().name() == name,
{
    if exists|kind: ProviderKind| #[trigger] kind.name() == name {
        let x = choose|kind: ProviderKind| #[trigger]
            kind.name() == name && a == plan_of(kind, session_port, &creds, env);
        let y = choose|kind: ProviderKind| #[trigger]
            kind.name() == name && b == plan_of(kind, session_port, &creds, env);
        lemma_names_differ(x, y);
        assert(x == y);
    }
}

/// Local needs no credentials at all.
pub proof fn local_needs_no_credentials<S: CredStore>(
    session_port: Option<u16>,
    creds: S,
    env: EnvReader,
    r: Result<PlanModel, Seq<char>>,
)
    requires
        planned("local"@, session_port, &creds, env, r),
    ensures
        r == Ok::<PlanModel, Seq<char>>(PlanModel::Local),
{
    assert(ProviderKind::Local.name() == "local"@);
    let kind = choose|kind: ProviderKind| #[trigger]
        kind.name() == "local"@ && r == plan_of(kind, session_port, &creds, env);
    lemma_names_differ(kind, ProviderKind::Local);
}

/// The value of a variable added last is read where no earlier one has its
/// name, and one that is set to nothing is as good as not there.
pub proof fn an_empty_variable_is_not_set(
    vars: Seq<(Seq<char>, Seq<char>)>,
    name: Seq<char>,
    value: Seq<char>,
)
    ensures
        set_among(Seq::empty()).len() == 0,
        value.len() == 0 ==> set_among(vars.push((name, value))) == set_among(vars),
        value.len() > 0 ==> set_among(vars.push((name, value))) == set_among(vars).push(
            (name, value),
        ),
{
    assert(vars.push((name, value)).drop_last() =~= vars);
}

/// The value kept last in a slot is the one it reads as, and nothing kept
/// elsewhere changes it; an empty value reads as none.
pub proof fn the_value_kept_last_is_read(
    values: Seq<KeptModel>,
    at: Slot,
    value: Seq<char>,
    other: Slot,
)
    ensures
        newest(Seq::empty(), at) is None,
        value.len() > 0 ==> newest(values.push(KeptModel { at, value }), at) == Some(value),
        value.len() == 0 ==> newest(values.push(KeptModel { at, value }), at) is None,
        other != at ==> newest(values.push(KeptModel { at, value }), other) == newest(
            values,
            other,
        ),
{
    assert(values.push(KeptModel { at, value }).drop_last() =~= values);
}

/// What one of two places has: the store's where it has one, and the
/// variable's otherwise.
pub open spec fn stored_or_set<S: CredStore>(
    creds: &S,
    env: EnvReader,
    provider: Seq<char>,
    field: Seq<char>,
    var: Seq<char>,
) -> Option<Seq<char>> {
    if creds.reads((provider, field)) is Some {
        creds.reads((provider, field))
    } else {
        env.reads(var)
    }
}

/// Each provider is built from its own credentials and from nothing else, each
/// in its own place and with the port that was asked for. Where one is missing
/// the refusal names it.
pub proof fn each_provider_is_built_from_its_own<S: CredStore>(
    kind: ProviderKind,
    session_port: Option<u16>,
    creds: S,
    env: EnvReader,
    r: Result<PlanModel, Seq<char>>,
)
    requires
        planned(kind.name(), session_port, &creds, env, r),
    ensures
        match kind {
            ProviderKind::Local => r == Ok::<PlanModel, Seq<char>>(PlanModel::Local),
            ProviderKind::DigitalOcean => match stored_or_set(
                &creds,
                env,
                "digitalocean"@,
                "token"@,
                "DIGITALOCEAN_TOKEN"@,
            ) {
                Some(token) => r == Ok::<PlanModel, Seq<char>>(
                    PlanModel::DigitalOcean { token, session_port },
                ),
                None => r == Err::<PlanModel, Seq<char>>(
                    "no DigitalOcean token saved and DIGITALOCEAN_TOKEN is not set"@,
                ),
            },
            ProviderKind::Aws => {
                let id = stored_or_set(
                    &creds,
                    env,
                    "aws"@,
                    "access_key_id"@,
                    "AWS_ACCESS_KEY_ID"@,
                );
                let secret = stored_or_set(
                    &creds,
                    env,
                    "aws"@,
                    "secret_access_key"@,
                    "AWS_SECRET_ACCESS_KEY"@,
                );
                if id is None {
                    r == Err::<PlanModel, Seq<char>>(
                        "no AWS access key saved and AWS_ACCESS_KEY_ID is not set"@,
                    )
                } else if secret is None {
                    r == Err::<PlanModel, Seq<char>>(
                        "no AWS secret key saved and AWS_SECRET_ACCESS_KEY is not set"@,
                    )
                } else {
                    r == Ok::<PlanModel, Seq<char>>(
                        PlanModel::Aws { id: id->0, secret: secret->0, session_port },
                    )
                }
            },
            ProviderKind::Gcp => {
                let json = creds.reads(("gcp"@, "service_account_json"@));
                let project = env.reads("GOOGLE_CLOUD_PROJECT"@);
                let token = env.reads("GCP_ACCESS_TOKEN"@);
                let path = env.reads("GOOGLE_APPLICATION_CREDENTIALS"@);
                if json is Some {
                    r == Ok::<PlanModel, Seq<char>>(
                        PlanModel::GcpKey { json: json->0, session_port },
                    )
                } else if project is Some && token is Some {
                    r == Ok::<PlanModel, Seq<char>>(
                        PlanModel::GcpToken { project: project->0, token: token->0, session_port },
                    )
                } else if path is Some {
                    r == Ok::<PlanModel, Seq<char>>(
                        PlanModel::GcpKeyFile { path: path->0, session_port },
                    )
                } else {
                    r is Err
                }
            },
        },
{
    let named = choose|k: ProviderKind| #[trigger]
        k.name() == kind.name() && r == plan_of(k, session_port, &creds, env);
    lemma_names_differ(named, kind);
}

/// A plan is what contracts take it for, part for part, and is for the provider
/// it names.
pub proof fn a_plan_is_read_part_for_part(plan: ProviderPlan)
    ensures
        match plan {
            ProviderPlan::Local => plan.deep_view() is Local && plan.deep_view().kind() is Local,
            ProviderPlan::DigitalOcean { token, session_port } => plan.deep_view() == (
            PlanModel::DigitalOcean { token: token@, session_port })
                && plan.deep_view().kind() is DigitalOcean,
            ProviderPlan::Aws { id, secret, session_port } => plan.deep_view() == (PlanModel::Aws {
                id: id@,
                secret: secret@,
                session_port,
            }) && plan.deep_view().kind() is Aws,
            ProviderPlan::GcpKey { json, session_port } => plan.deep_view() == (
            PlanModel::GcpKey { json: json@, session_port }) && plan.deep_view().kind() is Gcp,
            ProviderPlan::GcpToken { project, token, session_port } => plan.deep_view() == (
            PlanModel::GcpToken { project: project@, token: token@, session_port })
                && plan.deep_view().kind() is Gcp,
            ProviderPlan::GcpKeyFile { path, session_port } => plan.deep_view() == (
            PlanModel::GcpKeyFile { path: path@, session_port }) && plan.deep_view().kind() is Gcp,
        },
{
}

/// Saving a pair writes its two slots, and forgetting one empties them both; no
/// other slot is touched by either.
pub proof fn a_pair_is_saved_and_forgotten_whole(
    store: MemStore,
    provider: ProviderKind,
    id: Seq<char>,
    secret: Seq<char>,
    r: Result<(), Seq<char>>,
    saved: MemStore,
    forgotten: MemStore,
    other: Slot,
)
    requires
        pair_saved(&store, provider, id, secret, r, &saved),
        pair_forgotten(&saved, provider, &forgotten),
        other != (provider.name(), "storage_access_key_id"@),
        other != (provider.name(), "storage_secret_access_key"@),
    ensures
        saved.reads((provider.name(), "storage_access_key_id"@)) == written(trimmed(id)),
        saved.reads((provider.name(), "storage_secret_access_key"@)) == written(trimmed(secret)),
        saved.reads(other) == store.reads(other),
        forgotten.reads((provider.name(), "storage_access_key_id"@)) is None,
        forgotten.reads((provider.name(), "storage_secret_access_key"@)) is None,
        forgotten.reads(other) == store.reads(other),
        trimmed(id).len() > 0 ==> written(trimmed(id)) == Some(trimmed(id)),
        trimmed(id).len() == 0 ==> written(trimmed(id)) is None,
{
    reveal_strlit("storage_access_key_id");
    reveal_strlit("storage_secret_access_key");
    assert(storage_id_slot(provider).1.len() != storage_secret_slot(provider).1.len());
    let (first, mid) = choose|first: Result<(), Seq<char>>, mid: MemStore| #[trigger]
        store.sets(storage_id_slot(provider), trimmed(id), first, &mid) && (if first is Ok {
            mid.sets(storage_secret_slot(provider), trimmed(secret), r, &saved)
        } else {
            r == first && saved == mid
        });
    assert(saved.reads(storage_id_slot(provider)) == mid.reads(storage_id_slot(provider)));
    assert(saved.reads(other) == mid.reads(other));
    let half = choose|mid: MemStore| #[trigger]
        saved.deletes(storage_id_slot(provider), &mid) && mid.deletes(
            storage_secret_slot(provider),
            &forgotten,
        );
    assert(forgotten.reads(storage_id_slot(provider)) == half.reads(storage_id_slot(provider)));
    assert(forgotten.reads(other) == half.reads(other));
}

/// A pair is written id first. A store that refuses the id is the answer and
/// the end of it; one that takes it is handed the secret, and what it says to
/// that is the answer.
pub proof fn a_refused_half_is_the_answer<S: CredStore>(
    creds: S,
    provider: ProviderKind,
    id: Seq<char>,
    secret: Seq<char>,
    r: Result<(), Seq<char>>,
    next: S,
)
    requires
        pair_saved(&creds, provider, id, secret, r, &next),
    ensures
        exists|first: Result<(), Seq<char>>, mid: S| #[trigger]
            creds.sets((provider.name(), "storage_access_key_id"@), trimmed(id), first, &mid) && (
            first is Err ==> r == first && next == mid) && (first is Ok ==> mid.sets(
                (provider.name(), "storage_secret_access_key"@),
                trimmed(secret),
                r,
                &next,
            )),
{
    let (first, mid) = choose|first: Result<(), Seq<char>>, mid: S| #[trigger]
        creds.sets(storage_id_slot(provider), trimmed(id), first, &mid) && (if first is Ok {
            mid.sets(storage_secret_slot(provider), trimmed(secret), r, &next)
        } else {
            r == first && next == mid
        });
    assert(creds.sets((provider.name(), "storage_access_key_id"@), trimmed(id), first, &mid));
}

} // verus!
