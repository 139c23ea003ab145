//! The keychain, with a private file as the fallback for the one secret the
//! keychain refuses to hold.
//!
//! A keychain may cap what it takes far below the size of a service account
//! key. It stays primary: only a refusal for length diverts a secret to a file
//! in the private directory. Reads ask the keychain first and fall through to
//! the file, so which place holds a secret is never recorded anywhere.
//!
//! The keychain and the files are used elsewhere; which of them to use next,
//! and what is made of their answers, is decided here.

use vstd::prelude::*;
use vstd::utf8::{decode_utf8, encode_utf8, valid_utf8};

verus! {

/// Where an oversized secret lands, or why there is no such place.
pub struct KeyringStore {
    pub fallback_dir: Result<String, String>,
}

/// What a read has heard last.
#[derive(Debug, PartialEq, Eq)]
pub enum ReadEvent {
    /// Nothing yet.
    Begun,
    /// What the keychain holds.
    Held(Option<String>),
    /// What the fallback file came to.
    File(FileRead),
}

/// What the fallback file came to.
#[derive(Debug, PartialEq, Eq)]
pub enum FileRead {
    /// There is no such file, which is nothing saved.
    Absent,
    Bytes(Vec<u8>),
    /// Something is saved that will not be read: the directory is no longer
    /// private, say.
    Refused(String),
}

/// Where a read goes on.
#[derive(Debug, PartialEq, Eq)]
pub enum ReadStep {
    AskKeychain,
    LookInFile,
    /// Nothing is left to do: what is saved, or that nothing is.
    Read(Option<String>),
    /// Something is saved that will not be read. It reads as nothing saved, and
    /// the reason is there to be told.
    Refused(String),
}

/// What the keychain made of a secret.
#[derive(Debug, PartialEq, Eq)]
pub enum KeychainAnswer {
    Saved,
    TooLong,
    Failed(String),
}

/// What a save has heard last.
#[derive(Debug, PartialEq, Eq)]
pub enum SaveEvent {
    /// Nothing yet.
    Begun,
    Keychain(KeychainAnswer),
    /// Whether the private file was written.
    Wrote(Result<(), String>),
    /// What was to be dropped is gone.
    Dropped,
}

/// Where a save goes on.
#[derive(Debug, PartialEq, Eq)]
pub enum SaveStep {
    /// Hand the secret to the keychain.
    AskKeychain,
    /// The keychain has it. A shorter secret saved over an oversized one must
    /// not leave the old one on disk: remove the file, and the save is done.
    DropFile,
    /// Write the private file.
    WriteFile,
    /// The file has it. A refused save leaves the keychain's previous value in
    /// place, which would shadow the file: drop the entry, and the save is
    /// done.
    DropEntry,
    Done,
    Refused(String),
}

#[verifier::ext_equal]
pub enum FileModel {
    Absent,
    Bytes(Seq<u8>),
    Refused(Seq<char>),
}

#[verifier::ext_equal]
pub enum ReadEventModel {
    Begun,
    Held(Option<Seq<char>>),
    File(FileModel),
}

#[verifier::ext_equal]
pub enum ReadStepModel {
    AskKeychain,
    LookInFile,
    Read(Option<Seq<char>>),
    Refused(Seq<char>),
}

#[verifier::ext_equal]
pub enum AnswerModel {
    Saved,
    TooLong,
    Failed(Seq<char>),
}

#[verifier::ext_equal]
pub enum SaveEventModel {
    Begun,
    Keychain(AnswerModel),
    Wrote(Result<(), Seq<char>>),
    Dropped,
}

#[verifier::ext_equal]
pub enum SaveStepModel {
    AskKeychain,
    DropFile,
    WriteFile,
    DropEntry,
    Done,
    Refused(Seq<char>),
}

impl DeepView for FileRead {
    type V = FileModel;

    open spec fn deep_view(&self) -> FileModel {
        match self {
            FileRead::Absent => FileModel::Absent,
            FileRead::Bytes(bytes) => FileModel::Bytes(bytes@),
            FileRead::Refused(reason) => FileModel::Refused(reason@),
        }
    }
}

impl DeepView for ReadEvent {
    type V = ReadEventModel;

    open spec fn deep_view(&self) -> ReadEventModel {
        match self {
            ReadEvent::Begun => ReadEventModel::Begun,
            ReadEvent::Held(value) => ReadEventModel::Held(value.deep_view()),
            ReadEvent::File(found) => ReadEventModel::File(found.deep_view()),
        }
    }
}

impl DeepView for ReadStep {
    type V = ReadStepModel;

    open spec fn deep_view(&self) -> ReadStepModel {
        match self {
            ReadStep::AskKeychain => ReadStepModel::AskKeychain,
            ReadStep::LookInFile => ReadStepModel::LookInFile,
            ReadStep::Read(value) => ReadStepModel::Read(value.deep_view()),
            ReadStep::Refused(reason) => ReadStepModel::Refused(reason@),
        }
    }
}

impl DeepView for KeychainAnswer {
    type V = AnswerModel;

    open spec fn deep_view(&self) -> AnswerModel {
        match self {
            KeychainAnswer::Saved => AnswerModel::Saved,
            KeychainAnswer::TooLong => AnswerModel::TooLong,
            KeychainAnswer::Failed(reason) => AnswerModel::Failed(reason@),
        }
    }
}

impl DeepView for SaveEvent {
    type V = SaveEventModel;

    open spec fn deep_view(&self) -> SaveEventModel {
        match self {
            SaveEvent::Begun => SaveEventModel::Begun,
            SaveEvent::Keychain(answer) => SaveEventModel::Keychain(answer.deep_view()),
            SaveEvent::Wrote(wrote) => SaveEventModel::Wrote(
                match wrote {
                    Ok(()) => Ok(()),
                    Err(reason) => Err(reason@),
                },
            ),
            SaveEvent::Dropped => SaveEventModel::Dropped,
        }
    }
}

impl DeepView for SaveStep {
    type V = SaveStepModel;

    open spec fn deep_view(&self) -> SaveStepModel {
        match self {
            SaveStep::AskKeychain => SaveStepModel::AskKeychain,
            SaveStep::DropFile => SaveStepModel::DropFile,
            SaveStep::WriteFile => SaveStepModel::WriteFile,
            SaveStep::DropEntry => SaveStepModel::DropEntry,
            SaveStep::Done => SaveStepModel::Done,
            SaveStep::Refused(reason) => SaveStepModel::Refused(reason@),
        }
    }
}

/// The directory an oversized secret lands in, or why there is none.
impl DeepView for KeyringStore {
    type V = Result<Seq<char>, Seq<char>>;

    open spec fn deep_view(&self) -> Result<Seq<char>, Seq<char>> {
        match self.fallback_dir {
            Ok(dir) => Ok(dir@),
            Err(reason) => Err(reason@),
        }
    }
}

/// The name an entry goes by, in the keychain and as a file.
pub open spec fn account_of(provider: Seq<char>, field: Seq<char>) -> Seq<char> {
    provider + "."@ + field
}

/// The name an entry goes by, in the keychain and as a file.
pub fn account(provider: &str, field: &str) -> (s: String)
    ensures
        s@ == account_of(provider@, field@),
        s@ == provider@ + "."@ + field@,
{
    let mut s = provider.to_owned();
    s.append(".");
    s.append(field);
    s
}

/// The text of a file: nothing where it is empty or not UTF-8.
pub open spec fn text_in(bytes: Seq<u8>) -> Option<Seq<char>> {
    if valid_utf8(bytes) && decode_utf8(bytes).len() > 0 {
        Some(decode_utf8(bytes))
    } else {
        None
    }
}

/// `String::from_utf8` gives the text that bytes encode, and an error exactly
/// where they are not valid UTF-8.
#[verifier::external_body]
fn from_utf8(bytes: Vec<u8>) -> (s: Option<String>)
    ensures
        match s {
            Some(s) => valid_utf8(bytes@) && s@ == decode_utf8(bytes@),
            None => !valid_utf8(bytes@),
        },
{
    String::from_utf8(bytes).ok()
}

/// What the fallback file gives: nothing saved, what is saved, or a refusal to
/// read it. A refusal is a refusal and not an empty slot, so that it can be
/// told.
pub fn read_fallback(found: FileRead) -> (r: Result<Option<String>, String>)
    ensures
        match found {
            FileRead::Absent => r == Ok::<Option<String>, String>(None),
            FileRead::Bytes(bytes) => r matches Ok(text) && text.deep_view() == text_in(bytes@),
            FileRead::Refused(reason) => r == Err::<Option<String>, String>(reason),
        },
{
    match found {
        FileRead::Absent => Ok(None),
        FileRead::Bytes(bytes) => {
            match from_utf8(bytes) {
                Some(text) => if text.as_str().is_empty() {
                    Ok(None)
                } else {
                    Ok(Some(text))
                },
                None => Ok(None),
            }
        },
        FileRead::Refused(reason) => Err(reason),
    }
}

/// What a keychain holds counts unless it is empty.
pub open spec fn found_in_keychain(value: Option<Seq<char>>) -> bool {
    value matches Some(text) && text.len() > 0
}

/// Where a read goes on: to the keychain, to what it holds, and otherwise to
/// the file, where there is a place for one.
pub open spec fn next_read(dir: Result<Seq<char>, Seq<char>>, event: ReadEventModel) -> ReadStepModel {
    match event {
        ReadEventModel::Begun => ReadStepModel::AskKeychain,
        ReadEventModel::Held(value) => if found_in_keychain(value) {
            ReadStepModel::Read(value)
        } else if dir is Ok {
            ReadStepModel::LookInFile
        } else {
            ReadStepModel::Read(None)
        },
        ReadEventModel::File(FileModel::Absent) => ReadStepModel::Read(None),
        ReadEventModel::File(FileModel::Bytes(bytes)) => ReadStepModel::Read(text_in(bytes)),
        ReadEventModel::File(FileModel::Refused(reason)) => ReadStepModel::Refused(reason),
    }
}

/// What every refusal for length begins with.
pub open spec fn too_long() -> Seq<char> {
    "this key is longer than the keychain allows"@
}

/// Where a save goes on: to the keychain; once it has the secret, to the file
/// that may be left from before; once it has refused the secret for length, to
/// the file at `path`, where there is a place for one, and from there to the
/// entry that would shadow it.
pub open spec fn next_save(
    dir: Result<Seq<char>, Seq<char>>,
    path: Seq<char>,
    event: SaveEventModel,
) -> SaveStepModel {
    match event {
        SaveEventModel::Begun => SaveStepModel::AskKeychain,
        SaveEventModel::Keychain(AnswerModel::Saved) => if dir is Ok {
            SaveStepModel::DropFile
        } else {
            SaveStepModel::Done
        },
        SaveEventModel::Keychain(AnswerModel::TooLong) => match dir {
            Ok(_) => SaveStepModel::WriteFile,
            Err(e) => SaveStepModel::Refused(
                too_long() + ", and there is no private directory to keep it in instead: "@ + e,
            ),
        },
        SaveEventModel::Keychain(AnswerModel::Failed(e)) => SaveStepModel::Refused(
            "keychain: "@ + e,
        ),
        SaveEventModel::Wrote(Ok(_)) => SaveStepModel::DropEntry,
        SaveEventModel::Wrote(Err(e)) => SaveStepModel::Refused(
            too_long() + ", and keeping it as a private file failed: cannot write "@ + path + ": "@
                + e,
        ),
        SaveEventModel::Dropped => SaveStepModel::Done,
    }
}

impl KeyringStore {
    /// Where a read goes on, given what it has heard last.
    pub fn get(&self, event: ReadEvent) -> (step: ReadStep)
        ensures
            step.deep_view() == next_read(self.deep_view(), event.deep_view()),
            match event {
                ReadEvent::Begun => step is AskKeychain,
                ReadEvent::Held(value) => if value is Some && value->0@.len() > 0 {
                    step matches ReadStep::Read(Some(text)) && text@ == value->0@
                } else if self.fallback_dir is Ok {
                    step is LookInFile
                } else {
                    step == ReadStep::Read(None)
                },
                ReadEvent::File(FileRead::Absent) => step == ReadStep::Read(None),
                ReadEvent::File(FileRead::Bytes(bytes)) => step matches ReadStep::Read(value) && (
                if valid_utf8(bytes@) && decode_utf8(bytes@).len() > 0 {
                    value is Some && value->0@ == decode_utf8(bytes@)
                } else {
                    value is None
                }),
                ReadEvent::File(FileRead::Refused(reason)) => step matches ReadStep::Refused(text)
                    && text@ == reason@,
            },
    {
        match event {
            ReadEvent::Begun => ReadStep::AskKeychain,
            ReadEvent::Held(value) => {
                if let Some(text) = value {
                    if !text.as_str().is_empty() {
                        return ReadStep::Read(Some(text));
                    }
                }
                match self.fallback_dir {
                    Ok(_) => ReadStep::LookInFile,
                    Err(_) => ReadStep::Read(None),
                }
            },
            ReadEvent::File(found) => match read_fallback(found) {
                Ok(value) => ReadStep::Read(value),
                Err(reason) => ReadStep::Refused(reason),
            },
        }
    }

    /// Where the save of a secret goes on, given what it has heard last; `path`
    /// is the private file's.
    pub fn set(&self, path: &str, event: SaveEvent) -> (step: SaveStep)
        ensures
            step.deep_view() == next_save(self.deep_view(), path@, event.deep_view()),
            match event {
                SaveEvent::Begun => step is AskKeychain,
                SaveEvent::Keychain(KeychainAnswer::Saved) => if self.fallback_dir is Ok {
                    step is DropFile
                } else {
                    step is Done
                },
                SaveEvent::Keychain(KeychainAnswer::TooLong) => match self.fallback_dir {
                    Ok(_) => step is WriteFile,
                    Err(e) => step matches SaveStep::Refused(text) && text@
                        == "this key is longer than the keychain allows"@
                        + ", and there is no private directory to keep it in instead: "@ + e@,
                },
                SaveEvent::Keychain(KeychainAnswer::Failed(e)) => step matches SaveStep::Refused(
                    text,
                ) && text@ == "keychain: "@ + e@,
                SaveEvent::Wrote(Ok(_)) => step is DropEntry,
                SaveEvent::Wrote(Err(e)) => step matches SaveStep::Refused(text) && text@
                    == "this key is longer than the keychain allows"@
                    + ", and keeping it as a private file failed: cannot write "@ + path@ + ": "@
                    + e@,
                SaveEvent::Dropped => step is Done,
            },
    {
        match event {
            SaveEvent::Begun => SaveStep::AskKeychain,
            SaveEvent::Keychain(KeychainAnswer::Saved) => match self.fallback_dir {
                Ok(_) => SaveStep::DropFile,
                Err(_) => SaveStep::Done,
            },
            SaveEvent::Keychain(KeychainAnswer::TooLong) => match &self.fallback_dir {
                Ok(_) => SaveStep::WriteFile,
                Err(e) => {
                    let mut reason = "this key is longer than the keychain allows".to_owned();
                    reason.append(", and there is no private directory to keep it in instead: ");
                    reason.append(e.as_str());
                    SaveStep::Refused(reason)
                },
            },
            SaveEvent::Keychain(KeychainAnswer::Failed(e)) => {
                let mut reason = "keychain: ".to_owned();
                reason.append(e.as_str());
                SaveStep::Refused(reason)
            },
            SaveEvent::Wrote(Ok(())) => SaveStep::DropEntry,
            SaveEvent::Wrote(Err(e)) => {
                let mut reason = "this key is longer than the keychain allows".to_owned();
                reason.append(", and keeping it as a private file failed: cannot write ");
                reason.append(path);
                reason.append(": ");
                reason.append(e.as_str());
                SaveStep::Refused(reason)
            },
            SaveEvent::Dropped => SaveStep::Done,
        }
    }

    /// Whether there is a file to remove beside the keychain entry.
    pub fn has_directory(&self) -> (b: bool)
        ensures
            b == self.fallback_dir is Ok,
    {
        self.fallback_dir.is_ok()
    }
}

// ----------------------------------------------------------------------- laws

/// What rests on a machine: entries in the keychain, and files in the private
/// directory.
#[verifier::ext_equal]
pub struct Resting {
    pub entries: Map<Seq<char>, Seq<char>>,
    pub files: Map<Seq<char>, Seq<u8>>,
}

/// What a keychain holds under an account.
pub open spec fn entry_at(at: Resting, account: Seq<char>) -> Option<Seq<char>> {
    if at.entries.contains_key(account) {
        Some(at.entries[account])
    } else {
        None
    }
}

/// What a file of the private directory comes to, while that is private.
pub open spec fn file_at(at: Resting, account: Seq<char>) -> FileModel {
    if at.files.contains_key(account) {
        FileModel::Bytes(at.files[account])
    } else {
        FileModel::Absent
    }
}

/// What the rest of a read comes to, over what rests on the machine, once it
/// has got to a step.
pub open spec fn read_on(
    dir: Result<Seq<char>, Seq<char>>,
    at: Resting,
    account: Seq<char>,
    step: ReadStepModel,
) -> Option<Seq<char>>
    decreases match step {
        ReadStepModel::AskKeychain => 2int,
        ReadStepModel::LookInFile => 1,
        _ => 0,
    },
{
    match step {
        ReadStepModel::AskKeychain => read_on(
            dir,
            at,
            account,
            next_read(dir, ReadEventModel::Held(entry_at(at, account))),
        ),
        ReadStepModel::LookInFile => read_on(
            dir,
            at,
            account,
            next_read(dir, ReadEventModel::File(file_at(at, account))),
        ),
        ReadStepModel::Read(value) => value,
        ReadStepModel::Refused(_) => None,
    }
}

/// What reading an account comes to.
pub open spec fn read_back(
    dir: Result<Seq<char>, Seq<char>>,
    at: Resting,
    account: Seq<char>,
) -> Option<Seq<char>> {
    read_on(dir, at, account, next_read(dir, ReadEventModel::Begun))
}

/// A secret to be saved, with what the machine will make of it: what the
/// keychain answers, and whether the private file gets written.
#[verifier::ext_equal]
pub struct Saving {
    pub account: Seq<char>,
    pub path: Seq<char>,
    pub secret: Seq<char>,
    pub answer: AnswerModel,
    pub wrote: Result<(), Seq<char>>,
}

/// What rests on the machine after the rest of a save, and what that comes to,
/// once it has got to a step. A keychain that refuses a secret and a file that
/// does not get written are left as they were, and what is dropped is gone.
pub open spec fn save_on(
    dir: Result<Seq<char>, Seq<char>>,
    at: Resting,
    s: Saving,
    step: SaveStepModel,
) -> (Resting, Result<(), Seq<char>>)
    decreases match step {
        SaveStepModel::AskKeychain => 3int,
        SaveStepModel::WriteFile => 2,
        SaveStepModel::DropFile => 1,
        SaveStepModel::DropEntry => 1,
        _ => 0,
    },
{
    match step {
        SaveStepModel::AskKeychain => save_on(
            dir,
            if s.answer is Saved {
                Resting { entries: at.entries.insert(s.account, s.secret), ..at }
            } else {
                at
            },
            s,
            next_save(dir, s.path, SaveEventModel::Keychain(s.answer)),
        ),
        SaveStepModel::WriteFile => save_on(
            dir,
            if s.wrote is Ok {
                Resting { files: at.files.insert(s.account, encode_utf8(s.secret)), ..at }
            } else {
                at
            },
            s,
            next_save(dir, s.path, SaveEventModel::Wrote(s.wrote)),
        ),
        SaveStepModel::DropFile => save_on(
            dir,
            Resting { files: at.files.remove(s.account), ..at },
            s,
            next_save(dir, s.path, SaveEventModel::Dropped),
        ),
        SaveStepModel::DropEntry => save_on(
            dir,
            Resting { entries: at.entries.remove(s.account), ..at },
            s,
            next_save(dir, s.path, SaveEventModel::Dropped),
        ),
        SaveStepModel::Done => (at, Ok(())),
        SaveStepModel::Refused(reason) => (at, Err(reason)),
    }
}

/// What rests on the machine after a save, and what the save comes to.
pub open spec fn saved(dir: Result<Seq<char>, Seq<char>>, at: Resting, s: Saving) -> (
    Resting,
    Result<(), Seq<char>>,
) {
    save_on(dir, at, s, next_save(dir, s.path, SaveEventModel::Begun))
}

/// What rests there once an account has been deleted.
pub open spec fn erased(at: Resting, account: Seq<char>) -> Resting {
    Resting { entries: at.entries.remove(account), files: at.files.remove(account) }
}

proof fn lemma_saved(dir: Result<Seq<char>, Seq<char>>, at: Resting, s: Saving)
    ensures
        saved(dir, at, s) == (match s.answer {
            AnswerModel::Saved => (
                Resting {
                    entries: at.entries.insert(s.account, s.secret),
                    files: if dir is Ok {
                        at.files.remove(s.account)
                    } else {
                        at.files
                    },
                },
                Ok(()),
            ),
            AnswerModel::TooLong if dir is Ok && s.wrote is Ok => (
                Resting {
                    entries: at.entries.remove(s.account),
                    files: at.files.insert(s.account, encode_utf8(s.secret)),
                },
                Ok(()),
            ),
            _ => (at, saved(dir, at, s).1),
        }),
        saved(dir, at, s).1 is Ok <==> (s.answer is Saved || (s.answer is TooLong && dir is Ok
            && s.wrote is Ok)),
{
    reveal_with_fuel(save_on, 5);
}

/// What was saved is what reads back, whichever place took it and whatever was
/// there before, and it rests in one place only: in the keychain where that
/// took it, and in the private file where the keychain refused it for length. A
/// save that is refused leaves both places as they were.
pub proof fn a_saved_secret_reads_back_from_one_place(
    dir: Result<Seq<char>, Seq<char>>,
    at: Resting,
    s: Saving,
)
    requires
        s.secret.len() > 0,
    ensures
        ({
            let (after, outcome) = saved(dir, at, s);
            let kept = after.entries.contains_key(s.account);
            let filed = after.files.contains_key(s.account);
            &&& outcome is Ok <==> (s.answer is Saved || (s.answer is TooLong && dir is Ok
                && s.wrote is Ok))
            &&& outcome is Ok ==> read_back(dir, after, s.account) == Some(s.secret)
            &&& outcome is Ok && dir is Ok ==> kept == s.answer is Saved && filed
                == s.answer is TooLong
            &&& outcome is Err ==> after == at
        }),
{
    lemma_saved(dir, at, s);
    vstd::utf8::encode_utf8_valid_utf8(s.secret);
    vstd::utf8::encode_utf8_decode_utf8(s.secret);
    reveal_with_fuel(read_on, 4);
}

/// Saving over and over, longer or shorter, leaves what was saved last to be
/// read.
pub proof fn the_last_secret_saved_is_the_one_that_reads_back(
    dir: Result<Seq<char>, Seq<char>>,
    at: Resting,
    first: Saving,
    last: Saving,
)
    requires
        last.secret.len() > 0,
        first.account == last.account,
        saved(dir, saved(dir, at, first).0, last).1 is Ok,
    ensures
        read_back(dir, saved(dir, saved(dir, at, first).0, last).0, last.account) == Some(
            last.secret,
        ),
{
    a_saved_secret_reads_back_from_one_place(dir, saved(dir, at, first).0, last);
}

/// Saving and deleting touch one account.
pub proof fn other_accounts_are_left_alone(
    dir: Result<Seq<char>, Seq<char>>,
    at: Resting,
    s: Saving,
    other: Seq<char>,
)
    requires
        other != s.account,
    ensures
        entry_at(saved(dir, at, s).0, other) == entry_at(at, other),
        file_at(saved(dir, at, s).0, other) == file_at(at, other),
        read_back(dir, saved(dir, at, s).0, other) == read_back(dir, at, other),
        read_back(dir, erased(at, s.account), other) == read_back(dir, at, other),
        read_back(dir, erased(at, s.account), s.account) is None,
{
    lemma_saved(dir, at, s);
    reveal_with_fuel(read_on, 4);
}

/// The keychain is asked first: what it holds is read whatever the file says,
/// and the file is read where it holds nothing and there is a place for one.
pub proof fn the_keychain_is_asked_first(
    dir: Result<Seq<char>, Seq<char>>,
    at: Resting,
    account: Seq<char>,
    text: Seq<char>,
)
    requires
        text.len() > 0,
    ensures
        at.entries.contains_key(account) && at.entries[account] == text ==> read_back(
            dir,
            at,
            account,
        ) == Some(text),
        !at.entries.contains_key(account) && dir is Ok && at.files.contains_key(account)
            && at.files[account] == encode_utf8(text) ==> read_back(dir, at, account) == Some(text),
        !at.entries.contains_key(account) && (dir is Err || !at.files.contains_key(account))
            ==> read_back(dir, at, account) is None,
{
    vstd::utf8::encode_utf8_valid_utf8(text);
    vstd::utf8::encode_utf8_decode_utf8(text);
    reveal_with_fuel(read_on, 4);
}

} // verus!
