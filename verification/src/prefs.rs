//! Machine-local preferences: which bucket a provider's takes go to and how
//! long they are kept ([`RecordingPrefs`]), and the audio setup this computer
//! uses ([`AppPrefs`]).
//!
//! None of it is secret: nothing here can hold a key.

use vstd::prelude::*;

use crate::text::{before, same_text, stands_before, texts_are_in_order, trim, trimmed};

verus! {

/// One provider's bucket: its name and the region it lives in. The region is
/// kept because it decides which endpoint gets signed.
#[derive(Debug, PartialEq, Eq)]
pub struct Bucket {
    pub name: String,
    pub region: String,
}

#[verifier::ext_equal]
pub struct BucketModel {
    pub name: Seq<char>,
    pub region: Seq<char>,
}

impl DeepView for Bucket {
    type V = BucketModel;

    open spec fn deep_view(&self) -> BucketModel {
        BucketModel { name: self.name@, region: self.region@ }
    }
}

impl BucketModel {
    /// A bucket needs both halves to be usable at all.
    pub open spec fn usable(self) -> bool {
        trimmed(self.name).len() > 0 && trimmed(self.region).len() > 0
    }
}

impl Bucket {
    /// A bucket needs both halves to be usable at all.
    pub fn is_set(&self) -> (b: bool)
        ensures
            b == self.deep_view().usable(),
            b <==> trimmed(self.name@).len() > 0 && trimmed(self.region@).len() > 0,
    {
        !trim(self.name.as_str()).as_str().is_empty() && !trim(
            self.region.as_str(),
        ).as_str().is_empty()
    }
}

impl Clone for Bucket {
    fn clone(&self) -> (b: Bucket)
        ensures
            b == *self,
    {
        Bucket { name: self.name.clone(), region: self.region.clone() }
    }
}

/// No bucket: neither half of one.
impl Default for Bucket {
    fn default() -> (b: Bucket)
        ensures
            b.deep_view() == (BucketModel { name: Seq::empty(), region: Seq::empty() }),
    {
        Bucket { name: String::new(), region: String::new() }
    }
}

/// How long takes are kept.
#[derive(Debug, Clone, Copy, PartialEq, Eq, Structural)]
pub enum Retention {
    Days7,
    Days30,
    Days90,
    Forever,
}

impl Retention {
    /// The token a rule goes by everywhere.
    pub open spec fn token(self) -> Seq<char> {
        match self {
            Retention::Days7 => "7d"@,
            Retention::Days30 => "30d"@,
            Retention::Days90 => "90d"@,
            Retention::Forever => "forever"@,
        }
    }

    pub fn as_str(&self) -> (s: &'static str)
        ensures
            s@ == self.token(),
            match self {
                Retention::Days7 => s@ == "7d"@,
                Retention::Days30 => s@ == "30d"@,
                Retention::Days90 => s@ == "90d"@,
                Retention::Forever => s@ == "forever"@,
            },
    {
        match self {
            Retention::Days7 => "7d",
            Retention::Days30 => "30d",
            Retention::Days90 => "90d",
            Retention::Forever => "forever",
        }
    }

    /// The rule of a token.
    pub fn parse(token: &str) -> (r: Option<Retention>)
        ensures
            match r {
                Some(rule) => rule.token() == token@,
                None => forall|rule: Retention| rule.token() != token@,
            },
    {
        if same_text(token, "7d") {
            return Some(Retention::Days7);
        }
        if same_text(token, "30d") {
            return Some(Retention::Days30);
        }
        if same_text(token, "90d") {
            return Some(Retention::Days90);
        }
        if same_text(token, "forever") {
            return Some(Retention::Forever);
        }
        assert forall|rule: Retention| rule.token() != token@ by {
            match rule {
                Retention::Days7 => {},
                Retention::Days30 => {},
                Retention::Days90 => {},
                Retention::Forever => {},
            }
        }
        None
    }
}

/// Thirty days, where nobody has said otherwise.
impl Default for Retention {
    fn default() -> (r: Retention)
        ensures
            r == Retention::Days30,
    {
        Retention::Days30
    }
}

proof fn lemma_tokens_differ(a: Retention, b: Retention)
    ensures
        a != b ==> a.token() != b.token(),
{
    reveal_strlit("7d");
    reveal_strlit("30d");
    reveal_strlit("90d");
    reveal_strlit("forever");
    assert("7d"@.len() == 2);
    assert("forever"@.len() == 7);
    assert("30d"@[0] == '3');
    assert("90d"@[0] == '9');
}

/// What the Recording tab keeps between runs.
#[derive(Debug, PartialEq, Eq)]
pub struct RecordingPrefs {
    /// Bucket per provider, under the provider's name, each name once and in
    /// order. A host with two clouds keeps one for each rather than retyping
    /// when they switch.
    pub buckets: Vec<(String, Bucket)>,
    /// Retention for new sessions, as its token. Text, so a value this build
    /// does not know is kept verbatim rather than turning into a silently
    /// different rule.
    pub retention: Option<String>,
}

/// The bucket kept under a name, usable or not.
pub open spec fn kept_at(buckets: Seq<(Seq<char>, BucketModel)>, provider: Seq<char>) -> Option<
    BucketModel,
>
    decreases buckets.len(),
{
    if buckets.len() == 0 {
        None
    } else if buckets.last().0 == provider {
        Some(buckets.last().1)
    } else {
        kept_at(buckets.drop_last(), provider)
    }
}

/// Each name once and in order.
pub open spec fn in_order(buckets: Seq<(Seq<char>, BucketModel)>) -> bool {
    forall|i: int, j: int|
        0 <= i < j < buckets.len() ==> before((#[trigger] buckets[i]).0, (#[trigger] buckets[j]).0)
}

/// Whether a bucket is kept under a name.
pub open spec fn names(buckets: Seq<(Seq<char>, BucketModel)>, provider: Seq<char>) -> bool {
    exists|i: int| 0 <= i < buckets.len() && (#[trigger] buckets[i]).0 == provider
}

proof fn lemma_kept_where_named(buckets: Seq<(Seq<char>, BucketModel)>, provider: Seq<char>)
    ensures
        kept_at(buckets, provider) is Some <==> names(buckets, provider),
    decreases buckets.len(),
{
    if buckets.len() > 0 {
        let front = buckets.drop_last();
        lemma_kept_where_named(front, provider);
        if names(front, provider) {
            let i = choose|i: int| 0 <= i < front.len() && (#[trigger] front[i]).0 == provider;
            assert(buckets[i].0 == provider);
        }
        if buckets.last().0 == provider {
            assert(buckets[buckets.len() - 1].0 == provider);
        } else if names(buckets, provider) {
            let i = choose|i: int| 0 <= i < buckets.len() && (#[trigger] buckets[i]).0 == provider;
            assert(front[i].0 == provider);
        }
    }
}

proof fn lemma_kept_as_named(buckets: Seq<(Seq<char>, BucketModel)>, at: int)
    requires
        in_order(buckets),
        0 <= at < buckets.len(),
    ensures
        kept_at(buckets, buckets[at].0) == Some(buckets[at].1),
    decreases buckets.len(),
{
    if at < buckets.len() - 1 {
        let front = buckets.drop_last();
        texts_are_in_order(buckets[at].0, buckets.last().0, buckets.last().0);
        assert(before(buckets[at].0, buckets[buckets.len() - 1].0));
        assert(in_order(front));
        lemma_kept_as_named(front, at);
    }
}

/// What is kept under a name, given that it is kept under it at `at` or not at
/// all.
proof fn lemma_kept(
    buckets: Seq<(Seq<char>, BucketModel)>,
    provider: Seq<char>,
    kept: Option<BucketModel>,
    at: int,
)
    requires
        in_order(buckets),
        match kept {
            Some(bucket) => 0 <= at < buckets.len() && buckets[at] == (provider, bucket),
            None => !names(buckets, provider),
        },
    ensures
        kept_at(buckets, provider) == kept,
{
    match kept {
        Some(bucket) => lemma_kept_as_named(buckets, at),
        None => lemma_kept_where_named(buckets, provider),
    }
}

/// The place a name has, or would have: everything before it stands before the
/// name, and nothing from it on does.
pub open spec fn place_of(
    buckets: Seq<(Seq<char>, BucketModel)>,
    provider: Seq<char>,
    at: int,
) -> bool {
    &&& 0 <= at <= buckets.len()
    &&& forall|i: int| 0 <= i < at ==> before((#[trigger] buckets[i]).0, provider)
    &&& at < buckets.len() ==> !before(buckets[at].0, provider)
}

/// Putting a bucket in the place of its name, or in place of what was kept
/// there, keeps every name once and in order and changes nothing else.
proof fn lemma_put(
    buckets: Seq<(Seq<char>, BucketModel)>,
    provider: Seq<char>,
    at: int,
    entry: Option<BucketModel>,
)
    requires
        in_order(buckets),
        place_of(buckets, provider, at),
    ensures
        ({
            let after = put(buckets, provider, at, entry);
            &&& in_order(after)
            &&& forall|other: Seq<char>| #[trigger]
                kept_at(after, other) == (if other == provider {
                    entry
                } else {
                    kept_at(buckets, other)
                })
        }),
{
    let after = put(buckets, provider, at, entry);
    let held = at < buckets.len() && buckets[at].0 == provider;
    let shift: int = if entry is Some {
        1
    } else {
        0
    };
    let gone: int = if held {
        1
    } else {
        0
    };
    assert(after.len() == buckets.len() + shift - gone);
    assert forall|i: int| 0 <= i < at implies (#[trigger] after[i]) == buckets[i] by {}
    assert forall|i: int| at + shift <= i < after.len() implies (#[trigger] after[i]) == buckets[i
        - shift + gone] by {}
    assert forall|j: int| at + gone <= j < buckets.len() implies before(
        provider,
        (#[trigger] buckets[j]).0,
    ) by {
        texts_are_in_order(provider, buckets[at].0, buckets[j].0);
        if j > at {
            assert(before(buckets[at].0, buckets[j].0));
        }
    }
    assert forall|i: int, j: int| 0 <= i < j < after.len() implies before(
        (#[trigger] after[i]).0,
        (#[trigger] after[j]).0,
    ) by {
        let old_at = |k: int| if k < at {
            k
        } else {
            k - shift + gone
        };
        if entry is Some && i == at {
            assert(after[j] == buckets[old_at(j)]);
        } else if entry is Some && j == at {
            assert(after[i] == buckets[i]);
        } else {
            assert(after[i] == buckets[old_at(i)]);
            assert(after[j] == buckets[old_at(j)]);
        }
    }
    assert forall|other: Seq<char>| #[trigger]
        kept_at(after, other) == (if other == provider {
            entry
        } else {
            kept_at(buckets, other)
        }) by {
        if other == provider {
            if entry is None && names(after, provider) {
                let i = choose|i: int| 0 <= i < after.len() && (#[trigger] after[i]).0 == provider;
                texts_are_in_order(provider, provider, provider);
                if i < at {
                    assert(before(buckets[i].0, provider));
                } else {
                    assert(before(provider, buckets[i - shift + gone].0));
                }
            }
            lemma_kept(after, provider, entry, at);
        } else {
            lemma_kept_where_named(buckets, other);
            if names(buckets, other) {
                let i = choose|i: int| 0 <= i < buckets.len() && (#[trigger] buckets[i]).0 == other;
                lemma_kept_as_named(buckets, i);
                let now = if i < at {
                    i
                } else {
                    i + shift - gone
                };
                assert(after[now] == buckets[i]);
                lemma_kept(after, other, Some(buckets[i].1), now);
            } else {
                if names(after, other) {
                    let i = choose|i: int| 0 <= i < after.len() && (#[trigger] after[i]).0 == other;
                    let then = if i < at {
                        i
                    } else {
                        i - shift + gone
                    };
                    assert(buckets[then].0 == other);
                }
                lemma_kept(after, other, None, 0);
            }
        }
    }
}

/// The buckets with what is kept under a name, whose place is `at`, replaced.
pub open spec fn put(
    buckets: Seq<(Seq<char>, BucketModel)>,
    provider: Seq<char>,
    at: int,
    entry: Option<BucketModel>,
) -> Seq<(Seq<char>, BucketModel)> {
    let rest = if at < buckets.len() && buckets[at].0 == provider {
        buckets.skip(at + 1)
    } else {
        buckets.skip(at)
    };
    match entry {
        Some(bucket) => buckets.take(at).push((provider, bucket)) + rest,
        None => buckets.take(at) + rest,
    }
}

#[verifier::ext_equal]
pub struct RecordingModel {
    pub buckets: Seq<(Seq<char>, BucketModel)>,
    pub retention: Option<Seq<char>>,
}

impl DeepView for RecordingPrefs {
    type V = RecordingModel;

    open spec fn deep_view(&self) -> RecordingModel {
        RecordingModel {
            buckets: self.buckets.deep_view(),
            retention: self.retention.deep_view(),
        }
    }
}

impl Default for RecordingPrefs {
    fn default() -> (p: RecordingPrefs)
        ensures
            p.wf(),
            p.deep_view() == (RecordingModel { buckets: Seq::empty(), retention: None }),
            forall|provider: Seq<char>| p.at(provider) is None,
    {
        let p = RecordingPrefs { buckets: Vec::new(), retention: None };
        assert(p.buckets.deep_view() =~= Seq::empty());
        p
    }
}

impl Clone for RecordingPrefs {
    fn clone(&self) -> (p: RecordingPrefs)
        ensures
            p.deep_view() == self.deep_view(),
    {
        let ghost all = self.buckets.deep_view();
        let mut buckets: Vec<(String, Bucket)> = Vec::new();
        let mut i: usize = 0;
        while i < self.buckets.len()
            invariant
                i <= self.buckets@.len(),
                all == self.buckets.deep_view(),
                buckets.deep_view() == all.take(i as int),
            decreases self.buckets.len() - i,
        {
            let entry = &self.buckets[i];
            buckets.push((entry.0.clone(), entry.1.clone()));
            assert(all.take(i + 1) =~= all.take(i as int).push(all[i as int]));
            assert(buckets.deep_view() =~= all.take(i + 1));
            i += 1;
        }
        assert(all.take(i as int) =~= all);
        RecordingPrefs { buckets, retention: self.retention.clone() }
    }
}

impl RecordingPrefs {
    pub open spec fn wf(self) -> bool {
        in_order(self.buckets.deep_view())
    }

    /// The bucket kept for a provider, usable or not.
    pub open spec fn at(self, provider: Seq<char>) -> Option<BucketModel> {
        kept_at(self.buckets.deep_view(), provider)
    }

    /// The bucket for a provider, if both halves of one are set.
    pub open spec fn usable_at(self, provider: Seq<char>) -> Option<BucketModel> {
        match self.at(provider) {
            Some(bucket) if bucket.usable() => Some(bucket),
            _ => None,
        }
    }

    /// Where a provider's bucket is kept.
    fn place(&self, provider: &str) -> (at: Option<usize>)
        ensures
            match at {
                Some(i) => i < self.buckets@.len() && self.at(provider@) == Some(
                    self.buckets@[i as int].1.deep_view(),
                ),
                None => self.at(provider@) is None,
            },
    {
        let ghost all = self.buckets.deep_view();
        let mut i: usize = self.buckets.len();
        assert(all.take(i as int) =~= all);
        while i > 0
            invariant
                i <= self.buckets@.len(),
                all == self.buckets.deep_view(),
                kept_at(all.take(i as int), provider@) == kept_at(all, provider@),
            decreases i,
        {
            let entry = &self.buckets[i - 1];
            assert(all[i - 1] == (entry.0@, entry.1.deep_view()));
            assert(all.take(i as int).drop_last() =~= all.take(i - 1));
            assert(all.take(i as int).last() == all[i - 1]);
            if same_text(entry.0.as_str(), provider) {
                return Some(i - 1);
            }
            i -= 1;
        }
        None
    }

    /// Whether anything is kept for a provider, usable or not.
    pub fn holds(&self, provider: &str) -> (b: bool)
        ensures
            b == self.at(provider@) is Some,
    {
        self.place(provider).is_some()
    }

    /// The bucket for one provider, if both halves of one are set.
    pub fn bucket(&self, provider: &str) -> (bucket: Option<&Bucket>)
        ensures
            match bucket {
                Some(b) => self.usable_at(provider@) == Some(b.deep_view()),
                None => self.usable_at(provider@) is None,
            },
            bucket matches Some(b) ==> self.at(provider@) == Some(b.deep_view()) && trimmed(
                b.name@,
            ).len() > 0 && trimmed(b.region@).len() > 0,
            bucket is None ==> (self.at(provider@) matches Some(kept) ==> trimmed(kept.name).len()
                == 0 || trimmed(kept.region).len() == 0),
    {
        match self.place(provider) {
            Some(i) => {
                let bucket = &self.buckets[i].1;
                if bucket.is_set() {
                    Some(bucket)
                } else {
                    None
                }
            },
            None => None,
        }
    }

    /// The place a name has, or would have.
    fn slot(&self, provider: &str) -> (at: usize)
        ensures
            place_of(self.buckets.deep_view(), provider@, at as int),
    {
        let ghost all = self.buckets.deep_view();
        let mut at: usize = 0;
        while at < self.buckets.len() && stands_before(self.buckets[at].0.as_str(), provider)
            invariant
                at <= self.buckets@.len(),
                all == self.buckets.deep_view(),
                forall|i: int| 0 <= i < at ==> before((#[trigger] all[i]).0, provider@),
            decreases self.buckets.len() - at,
        {
            assert(all[at as int].0 == self.buckets@[at as int].0@);
            at += 1;
        }
        if at < self.buckets.len() {
            assert(all[at as int].0 == self.buckets@[at as int].0@);
        }
        at
    }

    /// Keeps what is given for a provider, or nothing.
    fn keep(&mut self, provider: &str, bucket: Option<Bucket>)
        requires
            old(self).wf(),
        ensures
            final(self).wf(),
            final(self).retention == old(self).retention,
            forall|other: Seq<char>| #[trigger]
                final(self).at(other) == (if other == provider@ {
                    bucket.deep_view()
                } else {
                    old(self).at(other)
                }),
    {
        let ghost all = self.buckets.deep_view();
        let ghost entry = bucket.deep_view();
        let at: usize = self.slot(provider);
        let held = at < self.buckets.len() && same_text(self.buckets[at].0.as_str(), provider);
        if held {
            let gone = self.buckets.remove(at);
            assert(all[at as int].0 == provider@);
        } else if at < self.buckets.len() {
            assert(all[at as int].0 == self.buckets@[at as int].0@);
        }
        if let Some(bucket) = bucket {
            self.buckets.insert(at, (provider.to_owned(), bucket));
        }
        assert(self.buckets.deep_view() =~= put(all, provider@, at as int, entry));
        proof {
            lemma_put(all, provider@, at as int, entry);
        }
    }

    /// The preferences that hold these buckets, the last one given under a name
    /// being the one that is kept.
    pub fn of(entries: Vec<(String, Bucket)>, retention: Option<String>) -> (p: RecordingPrefs)
        ensures
            p.wf(),
            p.retention.deep_view() == retention.deep_view(),
            forall|provider: Seq<char>| #[trigger]
                p.at(provider) == kept_at(entries.deep_view(), provider),
    {
        let ghost all = entries.deep_view();
        let mut p = RecordingPrefs::default();
        p.retention = retention;
        let mut i: usize = 0;
        while i < entries.len()
            invariant
                i <= entries@.len(),
                all == entries.deep_view(),
                p.wf(),
                p.retention == retention,
                forall|provider: Seq<char>| #[trigger]
                    p.at(provider) == kept_at(all.take(i as int), provider),
            decreases entries.len() - i,
        {
            let entry = &entries[i];
            p.keep(entry.0.as_str(), Some(entry.1.clone()));
            assert(all.take(i + 1).drop_last() =~= all.take(i as int));
            assert(all.take(i + 1).last() == (entry.0@, entry.1.deep_view()));
            i += 1;
        }
        assert(all.take(i as int) =~= all);
        p
    }

    /// Keeps a bucket for a provider, without the space around either half. One
    /// with neither half is forgotten.
    pub fn set_bucket(&mut self, provider: &str, name: &str, region: &str)
        requires
            old(self).wf(),
        ensures
            final(self).wf(),
            final(self).retention == old(self).retention,
            forall|other: Seq<char>| #[trigger]
                final(self).at(other) == (if other != provider@ {
                    old(self).at(other)
                } else if trimmed(name@).len() == 0 && trimmed(region@).len() == 0 {
                    None
                } else {
                    Some(BucketModel { name: trimmed(name@), region: trimmed(region@) })
                }),
    {
        let bucket = Bucket { name: trim(name), region: trim(region) };
        if bucket.name.as_str().is_empty() && bucket.region.as_str().is_empty() {
            self.keep(provider, None);
        } else {
            self.keep(provider, Some(bucket));
        }
    }

    /// The saved retention, or the shared default when there is none or it is
    /// none this build knows.
    pub open spec fn rule(self) -> Retention {
        match self.retention {
            Some(token) => rule_of(token@),
            None => Retention::Days30,
        }
    }

    pub fn retention(&self) -> (rule: Retention)
        ensures
            rule == self.rule(),
    {
        match &self.retention {
            Some(token) => {
                match Retention::parse(token.as_str()) {
                    Some(rule) => {
                        proof {
                            let chosen = choose|rule: Retention| rule.token() == token@;
                            lemma_tokens_differ(rule, chosen);
                        }
                        rule
                    },
                    None => Retention::default(),
                }
            },
            None => Retention::default(),
        }
    }

    pub fn set_retention(&mut self, rule: Retention)
        ensures
            final(self).buckets == old(self).buckets,
            final(self).retention.deep_view() == Some(rule.token()),
            final(self).rule() == rule,
    {
        self.retention = Some(rule.as_str().to_owned());
        proof {
            let chosen = choose|r: Retention| r.token() == rule.token();
            lemma_tokens_differ(rule, chosen);
        }
    }

    /// What the file at `path` gives: the defaults where there is none. One
    /// that will not decode is an error rather than silent defaults: a host who
    /// set a bucket should not find recording quietly off.
    pub fn load_from(path: &str, read: Loaded<RecordingPrefs>) -> (r: Result<RecordingPrefs, String>)
        ensures
            match read {
                Loaded::Missing => r matches Ok(prefs) && prefs.wf() && prefs.deep_view() == (
                RecordingModel { buckets: Seq::empty(), retention: None }),
                Loaded::Decoded(prefs) => r == Ok::<RecordingPrefs, String>(prefs),
                Loaded::Failed(reason) => r matches Err(said) && said@ == cannot_read(
                    path@,
                    reason@,
                ) && said@ == "cannot read "@ + path@ + ": "@ + reason@,
            },
    {
        match read {
            Loaded::Missing => Ok(RecordingPrefs::default()),
            Loaded::Decoded(prefs) => Ok(prefs),
            Loaded::Failed(reason) => {
                let mut said = "cannot read ".to_owned();
                said.append(path);
                said.append(": ");
                said.append(reason.as_str());
                Err(said)
            },
        }
    }
}

/// The rule of a token, thirty days where it is none of this build's.
pub open spec fn rule_of(token: Seq<char>) -> Retention {
    if exists|rule: Retention| rule.token() == token {
        choose|rule: Retention| rule.token() == token
    } else {
        Retention::Days30
    }
}

/// What a preferences file that cannot be read or decoded is answered.
pub open spec fn cannot_read(path: Seq<char>, reason: Seq<char>) -> Seq<char> {
    "cannot read "@ + path + ": "@ + reason
}

/// What reading and decoding a preferences file came to.
#[derive(Debug, PartialEq, Eq)]
pub enum Loaded<T> {
    /// There is no file there.
    Missing,
    Decoded(T),
    /// It could not be read, or what it holds did not decode.
    Failed(String),
}

/// The audio setup this computer uses, restored at the next launch: the
/// selected devices by id (`None` is the system default entry), and the buffer
/// size.
#[derive(Debug, PartialEq, Eq)]
pub struct AppPrefs {
    pub capture_id: Option<String>,
    pub playback_id: Option<String>,
    /// Applied only when it is one of the picker's own choices.
    pub buffer_frames: Option<u32>,
    /// The exclusive-access answer. `None`, a file from before the setting
    /// existed, reads as the default: allowed.
    pub allow_exclusive: Option<bool>,
    /// The display name last joined with.
    pub display_name: Option<String>,
}

#[verifier::ext_equal]
pub struct AppPrefsModel {
    pub capture_id: Option<Seq<char>>,
    pub playback_id: Option<Seq<char>>,
    pub buffer_frames: Option<u32>,
    pub allow_exclusive: Option<bool>,
    pub display_name: Option<Seq<char>>,
}

impl DeepView for AppPrefs {
    type V = AppPrefsModel;

    open spec fn deep_view(&self) -> AppPrefsModel {
        AppPrefsModel {
            capture_id: self.capture_id.deep_view(),
            playback_id: self.playback_id.deep_view(),
            buffer_frames: self.buffer_frames,
            allow_exclusive: self.allow_exclusive,
            display_name: self.display_name.deep_view(),
        }
    }
}

/// Nothing remembered.
pub open spec fn no_prefs() -> AppPrefsModel {
    AppPrefsModel {
        capture_id: None,
        playback_id: None,
        buffer_frames: None,
        allow_exclusive: None,
        display_name: None,
    }
}

impl Default for AppPrefs {
    fn default() -> (p: AppPrefs)
        ensures
            p.deep_view() == no_prefs(),
    {
        AppPrefs {
            capture_id: None,
            playback_id: None,
            buffer_frames: None,
            allow_exclusive: None,
            display_name: None,
        }
    }
}

impl Clone for AppPrefs {
    fn clone(&self) -> (p: AppPrefs)
        ensures
            p.deep_view() == self.deep_view(),
    {
        AppPrefs {
            capture_id: self.capture_id.clone(),
            playback_id: self.playback_id.clone(),
            buffer_frames: self.buffer_frames,
            allow_exclusive: self.allow_exclusive,
            display_name: self.display_name.clone(),
        }
    }
}

impl AppPrefs {
    /// What the file gives: the defaults where there is none yet, and also
    /// where it will not decode. Nothing in here is a promise whose silent loss
    /// costs data, and refusing the audio setup over it would punish the wrong
    /// thing.
    pub fn load_from(read: Loaded<AppPrefs>) -> (prefs: AppPrefs)
        ensures
            match read {
                Loaded::Decoded(saved) => prefs == saved,
                _ => prefs.deep_view() == no_prefs(),
            },
    {
        match read {
            Loaded::Missing => AppPrefs::default(),
            Loaded::Decoded(prefs) => prefs,
            Loaded::Failed(reason) => AppPrefs::default(),
        }
    }
}

// ----------------------------------------------------------------------- laws

/// A rule is the rule of its own token, so what was set is what is read back,
/// and text that is no token falls back to thirty days rather than becoming
/// another rule.
pub proof fn a_token_means_its_rule(rule: Retention, token: Seq<char>)
    ensures
        rule_of(rule.token()) == rule,
        (forall|r: Retention| r.token() != token) ==> rule_of(token) == Retention::Days30,
{
    let chosen = choose|r: Retention| r.token() == rule.token();
    assert(rule.token() == rule.token());
    lemma_tokens_differ(rule, chosen);
}

/// Preferences that keep the same buckets under the same names are the same
/// preferences, in whatever order they were set: what tells two apart is what
/// they keep and nothing else.
pub proof fn the_same_buckets_are_the_same_preferences(a: RecordingModel, b: RecordingModel)
    requires
        in_order(a.buckets),
        in_order(b.buckets),
        forall|provider: Seq<char>| #[trigger]
            kept_at(a.buckets, provider) == kept_at(b.buckets, provider),
        a.retention == b.retention,
    ensures
        a == b,
{
    lemma_same_buckets(a.buckets, b.buckets);
}

proof fn lemma_same_buckets(a: Seq<(Seq<char>, BucketModel)>, b: Seq<(Seq<char>, BucketModel)>)
    requires
        in_order(a),
        in_order(b),
        forall|provider: Seq<char>| #[trigger] kept_at(a, provider) == kept_at(b, provider),
    ensures
        a == b,
    decreases a.len(),
{
    if a.len() == 0 {
        if b.len() > 0 {
            lemma_kept_as_named(b, b.len() - 1);
            assert(kept_at(a, b.last().0) is None);
        }
        assert(a =~= b);
    } else {
        let k = a.last().0;
        lemma_kept_as_named(a, a.len() - 1);
        lemma_kept_where_named(b, k);
        let j = choose|j: int| 0 <= j < b.len() && (#[trigger] b[j]).0 == k;
        let m = b.last().0;
        lemma_kept_as_named(b, b.len() - 1);
        lemma_kept_where_named(a, m);
        let i = choose|i: int| 0 <= i < a.len() && (#[trigger] a[i]).0 == m;
        texts_are_in_order(k, m, k);
        if j < b.len() - 1 {
            assert(before(b[j].0, b[b.len() - 1].0));
            if i < a.len() - 1 {
                assert(before(a[i].0, a[a.len() - 1].0));
            }
        }
        assert(k == m);
        assert(a.last() == b.last());
        let x = a.drop_last();
        let y = b.drop_last();
        assert(in_order(x));
        assert(in_order(y));
        assert forall|provider: Seq<char>| #[trigger] kept_at(x, provider) == kept_at(
            y,
            provider,
        ) by {
            if provider == k {
                lemma_last_only(a);
                lemma_last_only(b);
            } else {
                assert(kept_at(a, provider) == kept_at(b, provider));
            }
        }
        lemma_same_buckets(x, y);
        assert(a =~= x.push(a.last()));
        assert(b =~= y.push(b.last()));
    }
}

proof fn lemma_last_only(buckets: Seq<(Seq<char>, BucketModel)>)
    requires
        in_order(buckets),
        buckets.len() > 0,
    ensures
        kept_at(buckets.drop_last(), buckets.last().0) is None,
{
    let front = buckets.drop_last();
    let k = buckets.last().0;
    lemma_kept_where_named(front, k);
    if names(front, k) {
        let i = choose|i: int| 0 <= i < front.len() && (#[trigger] front[i]).0 == k;
        assert(before(buckets[i].0, buckets[buckets.len() - 1].0));
        texts_are_in_order(k, k, k);
    }
}

/// A bucket that is kept is usable exactly where both halves say something.
pub proof fn a_bucket_needs_both_halves(name: Seq<char>, region: Seq<char>)
    ensures
        (BucketModel { name: trimmed(name), region: trimmed(region) }).usable() <==> trimmed(
            name,
        ).len() > 0 && trimmed(region).len() > 0,
{
    crate::text::trimming_twice_is_trimming_once(name);
    crate::text::trimming_twice_is_trimming_once(region);
}

/// The bucket given last under a name is the one kept under it, and what is
/// given under one name changes nothing under another.
pub proof fn the_bucket_given_last_is_kept(
    buckets: Seq<(Seq<char>, BucketModel)>,
    provider: Seq<char>,
    bucket: BucketModel,
    other: Seq<char>,
)
    ensures
        kept_at(Seq::empty(), provider) is None,
        kept_at(buckets.push((provider, bucket)), provider) == Some(bucket),
        other != provider ==> kept_at(buckets.push((provider, bucket)), other) == kept_at(
            buckets,
            other,
        ),
{
    assert(buckets.push((provider, bucket)).drop_last() =~= buckets);
}

/// Preferences are what contracts take them for, part for part.
pub proof fn preferences_are_read_part_for_part(prefs: AppPrefs, bucket: Bucket)
    ensures
        prefs.deep_view().capture_id is Some <==> prefs.capture_id is Some,
        prefs.capture_id matches Some(id) ==> prefs.deep_view().capture_id->0 == id@,
        prefs.deep_view().playback_id is Some <==> prefs.playback_id is Some,
        prefs.playback_id matches Some(id) ==> prefs.deep_view().playback_id->0 == id@,
        prefs.deep_view().buffer_frames == prefs.buffer_frames,
        prefs.deep_view().allow_exclusive == prefs.allow_exclusive,
        prefs.deep_view().display_name is Some <==> prefs.display_name is Some,
        prefs.display_name matches Some(name) ==> prefs.deep_view().display_name->0 == name@,
        bucket.deep_view().name == bucket.name@,
        bucket.deep_view().region == bucket.region@,
        no_prefs().capture_id is None && no_prefs().playback_id is None,
        no_prefs().buffer_frames is None && no_prefs().allow_exclusive is None,
        no_prefs().display_name is None,
{
}

} // verus!
