//! The device pickers: what is selected, what a rescan makes of it, and what is
//! remembered of it between launches.

use vstd::prelude::*;

use crate::live::{same_option, AudioSettings, SettingsModel};
use crate::prefs::{AppPrefs, AppPrefsModel};
use crate::text::{trim, trimmed};

verus! {

/// One entry of a picker. No id is the system default.
#[derive(Debug, PartialEq, Eq)]
pub struct DeviceInfo {
    pub id: Option<String>,
    pub name: String,
}

#[verifier::ext_equal]
pub struct DeviceModel {
    pub id: Option<Seq<char>>,
    pub name: Seq<char>,
}

impl DeepView for DeviceInfo {
    type V = DeviceModel;

    open spec fn deep_view(&self) -> DeviceModel {
        DeviceModel { id: self.id.deep_view(), name: self.name@ }
    }
}

impl Clone for DeviceInfo {
    fn clone(&self) -> (d: DeviceInfo)
        ensures
            d == *self,
    {
        DeviceInfo { id: self.id.clone(), name: self.name.clone() }
    }
}

/// The devices there are, each list headed by the system default.
#[derive(Debug, PartialEq, Eq)]
pub struct DeviceCatalog {
    pub capture: Vec<DeviceInfo>,
    pub playback: Vec<DeviceInfo>,
}

/// The first entry of an id, or past the end.
pub open spec fn place_of(list: Seq<DeviceModel>, id: Option<Seq<char>>) -> int
    decreases list.len(),
{
    if list.len() == 0 {
        0
    } else if list[0].id == id {
        0
    } else {
        1 + place_of(list.drop_first(), id)
    }
}

/// Where a picker stands for an id, and whether that is the device itself: the
/// first entry otherwise.
pub open spec fn found(list: Seq<DeviceModel>, id: Option<Seq<char>>) -> (int, bool) {
    if place_of(list, id) < list.len() {
        (place_of(list, id), true)
    } else {
        (0, false)
    }
}

proof fn lemma_place(list: Seq<DeviceModel>, id: Option<Seq<char>>)
    ensures
        0 <= place_of(list, id) <= list.len(),
        place_of(list, id) < list.len() ==> list[place_of(list, id)].id == id,
        forall|i: int| 0 <= i < place_of(list, id) ==> (#[trigger] list[i]).id != id,
    decreases list.len(),
{
    if list.len() > 0 && list[0].id != id {
        lemma_place(list.drop_first(), id);
        assert forall|i: int| 0 <= i < place_of(list, id) implies (#[trigger] list[i]).id
            != id by {
            if i > 0 {
                assert(list.drop_first()[i - 1] == list[i]);
            }
        }
    }
}

impl DeviceCatalog {
    /// Where a picker stands for an id, and whether that is the device itself.
    pub fn find(list: &Vec<DeviceInfo>, id: &Option<String>) -> (at: (usize, bool))
        ensures
            (at.0 as int, at.1) == found(list.deep_view(), id.deep_view()),
            at.1 ==> at.0 < list@.len() && list@[at.0 as int].id.deep_view() == id.deep_view()
                && forall|i: int|
                0 <= i < at.0 ==> (#[trigger] list.deep_view()[i]).id != id.deep_view(),
            !at.1 ==> at.0 == 0 && forall|i: int|
                0 <= i < list@.len() ==> (#[trigger] list.deep_view()[i]).id != id.deep_view(),
    {
        let ghost all = list.deep_view();
        let mut i: usize = 0;
        proof {
            lemma_place(all, id.deep_view());
        }
        while i < list.len()
            invariant
                i <= list@.len(),
                all == list.deep_view(),
                i <= place_of(all, id.deep_view()) <= all.len(),
                place_of(all, id.deep_view()) < all.len() ==> all[place_of(
                    all,
                    id.deep_view(),
                )].id == id.deep_view(),
                forall|j: int|
                    0 <= j < place_of(all, id.deep_view()) ==> (#[trigger] all[j]).id
                        != id.deep_view(),
            decreases list.len() - i,
        {
            assert(all[i as int] == list@[i as int].deep_view());
            if same_option(&list[i].id, id) {
                return (i, true);
            }
            i += 1;
        }
        (0, false)
    }
}

/// The pickers as they stand.
#[derive(Debug, PartialEq, Eq)]
pub struct DeviceSetup {
    pub catalog: DeviceCatalog,
    pub capture_idx: usize,
    pub playback_idx: usize,
    pub buffer_frames: u32,
    pub allow_exclusive: bool,
    /// What the last rescan has to say, under the pickers.
    pub rescan_note: Option<String>,
}

#[verifier::ext_equal]
pub struct SetupModel {
    pub capture: Seq<DeviceModel>,
    pub playback: Seq<DeviceModel>,
    pub capture_idx: int,
    pub playback_idx: int,
    pub buffer_frames: u32,
    pub allow_exclusive: bool,
    pub rescan_note: Option<Seq<char>>,
}

impl DeepView for DeviceSetup {
    type V = SetupModel;

    open spec fn deep_view(&self) -> SetupModel {
        SetupModel {
            capture: self.catalog.capture.deep_view(),
            playback: self.catalog.playback.deep_view(),
            capture_idx: self.capture_idx as int,
            playback_idx: self.playback_idx as int,
            buffer_frames: self.buffer_frames,
            allow_exclusive: self.allow_exclusive,
            rescan_note: self.rescan_note.deep_view(),
        }
    }
}

/// The id of the entry a picker stands on; none past the end of its list.
pub open spec fn id_at(list: Seq<DeviceModel>, idx: int) -> Option<Seq<char>> {
    if idx < list.len() {
        list[idx].id
    } else {
        None
    }
}

/// The selection as a stream is opened with it. The cushion is free to move.
pub open spec fn selected(s: SetupModel) -> SettingsModel {
    SettingsModel {
        capture_id: id_at(s.capture, s.capture_idx),
        playback_id: id_at(s.playback, s.playback_idx),
        buffer_frames: s.buffer_frames,
        allow_exclusive: s.allow_exclusive,
        auto_cushion: true,
    }
}

/// Where a picker goes for a saved id: to that device while the catalog holds
/// it, and nowhere otherwise.
pub open spec fn restored_idx(list: Seq<DeviceModel>, idx: int, saved: Option<Seq<char>>) -> int {
    if saved is Some && found(list, saved).1 {
        found(list, saved).0
    } else {
        idx
    }
}

/// The pickers with a saved setup put back: each device by id and only while
/// the catalog still holds it, so a selection whose interface is unplugged
/// quietly stays on the system default; the buffer only when it is one of the
/// picker's own choices.
pub open spec fn restored(s: SetupModel, prefs: AppPrefsModel, choices: Seq<u32>) -> SetupModel {
    SetupModel {
        capture_idx: restored_idx(s.capture, s.capture_idx, prefs.capture_id),
        playback_idx: restored_idx(s.playback, s.playback_idx, prefs.playback_id),
        buffer_frames: match prefs.buffer_frames {
            Some(frames) if choices.contains(frames) => frames,
            _ => s.buffer_frames,
        },
        allow_exclusive: match prefs.allow_exclusive {
            Some(allow) => allow,
            None => s.allow_exclusive,
        },
        ..s
    }
}

/// What a rescan finds of one picker's selection: where it stands now, and the
/// name of the device if it is gone.
pub open spec fn placed(before: Seq<DeviceModel>, idx: int, now: Seq<DeviceModel>) -> (
    int,
    Option<Seq<char>>,
) {
    if idx < before.len() {
        let at = found(now, before[idx].id);
        (
            at.0,
            if at.1 {
                None
            } else {
                Some(before[idx].name)
            },
        )
    } else {
        (0, None)
    }
}

/// What is said of devices that are gone.
pub open spec fn lost_note(capture: Option<Seq<char>>, playback: Option<Seq<char>>) -> Option<
    Seq<char>,
> {
    match (capture, playback) {
        (None, None) => None,
        (Some(name), None) => Some(name + " is no longer present; using the system default"@),
        (None, Some(name)) => Some(name + " is no longer present; using the system default"@),
        (Some(a), Some(b)) => Some(
            a + " and "@ + b + " is no longer present; using the system default"@,
        ),
    }
}

/// The pickers after a rescan that found `capture` and `playback`. The
/// selection is kept by id; one that is gone falls back to the system default
/// and says so.
pub open spec fn rescanned(
    s: SetupModel,
    capture: Seq<DeviceModel>,
    playback: Seq<DeviceModel>,
) -> SetupModel {
    let c = placed(s.capture, s.capture_idx, capture);
    let p = placed(s.playback, s.playback_idx, playback);
    SetupModel {
        capture,
        playback,
        capture_idx: c.0,
        playback_idx: p.0,
        rescan_note: lost_note(c.1, p.1),
        ..s
    }
}

/// What is remembered of a setup and a name.
pub open spec fn remembered(s: SetupModel, name: Seq<char>) -> AppPrefsModel {
    AppPrefsModel {
        capture_id: selected(s).capture_id,
        playback_id: selected(s).playback_id,
        buffer_frames: Some(s.buffer_frames),
        allow_exclusive: Some(s.allow_exclusive),
        display_name: if trimmed(name).len() > 0 {
            Some(trimmed(name))
        } else {
            None
        },
    }
}

fn id_of(list: &Vec<DeviceInfo>, idx: usize) -> (id: Option<String>)
    ensures
        id.deep_view() == id_at(list.deep_view(), idx as int),
{
    if idx < list.len() {
        assert(list.deep_view()[idx as int] == list@[idx as int].deep_view());
        list[idx].id.clone()
    } else {
        None
    }
}

fn is_choice(choices: &Vec<u32>, frames: u32) -> (b: bool)
    ensures
        b == choices@.contains(frames),
{
    let mut i: usize = 0;
    while i < choices.len()
        invariant
            i <= choices@.len(),
            forall|j: int| 0 <= j < i ==> choices@[j] != frames,
        decreases choices.len() - i,
    {
        if choices[i] == frames {
            return true;
        }
        i += 1;
    }
    false
}

/// Where one picker's selection stands in a new list, and the name of the
/// device if it is gone.
fn place(before: &Vec<DeviceInfo>, idx: usize, now: &Vec<DeviceInfo>) -> (r: (usize, Option<String>))
    ensures
        (r.0 as int, r.1.deep_view()) == placed(before.deep_view(), idx as int, now.deep_view()),
{
    if idx < before.len() {
        assert(before.deep_view()[idx as int] == before@[idx as int].deep_view());
        let (at, there) = DeviceCatalog::find(now, &before[idx].id);
        if there {
            (at, None)
        } else {
            (at, Some(before[idx].name.clone()))
        }
    } else {
        (0, None)
    }
}

fn say_lost(capture: Option<String>, playback: Option<String>) -> (note: Option<String>)
    ensures
        note.deep_view() == lost_note(capture.deep_view(), playback.deep_view()),
{
    let mut note = match (capture, playback) {
        (None, None) => {
            return None;
        },
        (Some(name), None) => name,
        (None, Some(name)) => name,
        (Some(a), Some(b)) => {
            let mut both = a;
            both.append(" and ");
            both.append(b.as_str());
            both
        },
    };
    note.append(" is no longer present; using the system default");
    Some(note)
}

impl DeviceSetup {
    /// The device and buffer selection as a stream is opened with it.
    pub fn audio_settings(&self) -> (settings: AudioSettings)
        ensures
            settings.deep_view() == selected(self.deep_view()),
            settings.buffer_frames == self.buffer_frames,
            settings.allow_exclusive == self.allow_exclusive,
            settings.auto_cushion,
            settings.capture_id.deep_view() == (if self.capture_idx < self.catalog.capture@.len() {
                self.catalog.capture@[self.capture_idx as int].id.deep_view()
            } else {
                None
            }),
            settings.playback_id.deep_view() == (if self.playback_idx
                < self.catalog.playback@.len() {
                self.catalog.playback@[self.playback_idx as int].id.deep_view()
            } else {
                None
            }),
    {
        AudioSettings {
            capture_id: id_of(&self.catalog.capture, self.capture_idx),
            playback_id: id_of(&self.catalog.playback, self.playback_idx),
            buffer_frames: self.buffer_frames,
            allow_exclusive: self.allow_exclusive,
            auto_cushion: true,
        }
    }

    /// Puts a saved setup back; `choices` are the buffer sizes the picker
    /// offers.
    pub fn restore_audio_prefs(&mut self, prefs: &AppPrefs, choices: &Vec<u32>)
        ensures
            final(self).deep_view() == restored(
                old(self).deep_view(),
                prefs.deep_view(),
                choices@,
            ),
    {
        let ghost s = self.deep_view();
        if prefs.capture_id.is_some() {
            let (idx, there) = DeviceCatalog::find(&self.catalog.capture, &prefs.capture_id);
            if there {
                self.capture_idx = idx;
            }
        }
        if prefs.playback_id.is_some() {
            let (idx, there) = DeviceCatalog::find(&self.catalog.playback, &prefs.playback_id);
            if there {
                self.playback_idx = idx;
            }
        }
        if let Some(frames) = prefs.buffer_frames {
            if is_choice(choices, frames) {
                self.buffer_frames = frames;
            }
        }
        if let Some(allow) = prefs.allow_exclusive {
            self.allow_exclusive = allow;
        }
        assert(self.deep_view() =~= restored(s, prefs.deep_view(), choices@));
    }

    /// What the next launch reads: the setup, and the name without the space
    /// around it.
    pub fn audio_prefs(&self, own_name: &str) -> (prefs: AppPrefs)
        ensures
            prefs.deep_view() == remembered(self.deep_view(), own_name@),
            prefs.buffer_frames == Some(self.buffer_frames),
            prefs.allow_exclusive == Some(self.allow_exclusive),
            prefs.capture_id.deep_view() == (if self.capture_idx < self.catalog.capture@.len() {
                self.catalog.capture@[self.capture_idx as int].id.deep_view()
            } else {
                None
            }),
            prefs.playback_id.deep_view() == (if self.playback_idx < self.catalog.playback@.len() {
                self.catalog.playback@[self.playback_idx as int].id.deep_view()
            } else {
                None
            }),
            prefs.display_name is Some <==> trimmed(own_name@).len() > 0,
            prefs.display_name matches Some(name) ==> name@ == trimmed(own_name@),
    {
        let name = trim(own_name);
        let display_name = if name.as_str().is_empty() {
            None
        } else {
            Some(name)
        };
        AppPrefs {
            capture_id: id_of(&self.catalog.capture, self.capture_idx),
            playback_id: id_of(&self.catalog.playback, self.playback_idx),
            buffer_frames: Some(self.buffer_frames),
            allow_exclusive: Some(self.allow_exclusive),
            display_name,
        }
    }

    /// Takes in a rescan. A scan that failed says so, which otherwise looks
    /// like a button that does nothing.
    pub fn rescan_devices(&mut self, scan: Result<DeviceCatalog, String>)
        ensures
            final(self).deep_view() == (match scan {
                Ok(catalog) => rescanned(
                    old(self).deep_view(),
                    catalog.capture.deep_view(),
                    catalog.playback.deep_view(),
                ),
                Err(err) => SetupModel {
                    rescan_note: Some("device scan failed: "@ + err@),
                    ..old(self).deep_view()
                },
            }),
    {
        let ghost s = self.deep_view();
        match scan {
            Ok(catalog) => {
                let (capture_idx, capture_lost) = place(
                    &self.catalog.capture,
                    self.capture_idx,
                    &catalog.capture,
                );
                let (playback_idx, playback_lost) = place(
                    &self.catalog.playback,
                    self.playback_idx,
                    &catalog.playback,
                );
                let ghost capture = catalog.capture.deep_view();
                let ghost playback = catalog.playback.deep_view();
                self.catalog = catalog;
                self.capture_idx = capture_idx;
                self.playback_idx = playback_idx;
                self.rescan_note = say_lost(capture_lost, playback_lost);
                assert(self.deep_view() =~= rescanned(s, capture, playback));
            },
            Err(err) => {
                let mut note = "device scan failed: ".to_owned();
                note.append(err.as_str());
                self.rescan_note = Some(note);
                assert(self.deep_view() =~= SetupModel {
                    rescan_note: Some("device scan failed: "@ + err@),
                    ..s
                });
            },
        }
    }

    /// Whether the selection is another one than was last handed on, which it
    /// then is. Compared by id, so a rescan that only reordered the catalog
    /// does not reopen a healthy stream.
    pub fn apply(&self, applied: &mut AudioSettings) -> (changed: bool)
        ensures
            changed == (selected(self.deep_view()) != old(applied).deep_view()),
            final(applied).deep_view() == selected(self.deep_view()),
    {
        let now = self.audio_settings();
        let changed = now.reopens_for(&*applied) || !applied.auto_cushion;
        *applied = now;
        changed
    }
}

// ----------------------------------------------------------------------- laws

/// A rescan that still holds the selected devices changes nothing of what a
/// stream is opened with, however it orders them, and has nothing to say.
pub proof fn a_reordered_catalog_moves_no_selection(
    s: SetupModel,
    capture: Seq<DeviceModel>,
    playback: Seq<DeviceModel>,
)
    requires
        0 <= s.capture_idx < s.capture.len(),
        0 <= s.playback_idx < s.playback.len(),
        found(capture, s.capture[s.capture_idx].id).1,
        found(playback, s.playback[s.playback_idx].id).1,
    ensures
        selected(rescanned(s, capture, playback)) == selected(s),
        rescanned(s, capture, playback).rescan_note is None,
{
    lemma_place(capture, s.capture[s.capture_idx].id);
    lemma_place(playback, s.playback[s.playback_idx].id);
}

/// A device that is gone is never left showing: the picker stands on the first
/// entry, and a note names what is missing.
pub proof fn a_lost_device_falls_back_and_says_so(
    s: SetupModel,
    capture: Seq<DeviceModel>,
    playback: Seq<DeviceModel>,
)
    requires
        0 <= s.capture_idx < s.capture.len(),
        !found(capture, s.capture[s.capture_idx].id).1,
    ensures
        rescanned(s, capture, playback).capture_idx == 0,
        rescanned(s, capture, playback).rescan_note is Some,
{
}

/// What was remembered is what comes back: while the catalog still holds the
/// selected devices and the buffer is on offer, the next launch opens the
/// stream the way this one did.
pub proof fn a_remembered_setup_comes_back(
    s: SetupModel,
    fresh: SetupModel,
    name: Seq<char>,
    choices: Seq<u32>,
)
    requires
        0 <= s.capture_idx < s.capture.len(),
        0 <= s.playback_idx < s.playback.len(),
        fresh.capture == s.capture,
        fresh.playback == s.playback,
        fresh.capture_idx == 0,
        fresh.playback_idx == 0,
        fresh.capture[0].id is None,
        fresh.playback[0].id is None,
        choices.contains(s.buffer_frames),
    ensures
        selected(restored(fresh, remembered(s, name), choices)) == selected(s),
{
    lemma_place(s.capture, s.capture[s.capture_idx].id);
    lemma_place(s.playback, s.playback[s.playback_idx].id);
    lemma_is_placed(s.capture, s.capture_idx);
    lemma_is_placed(s.playback, s.playback_idx);
}

proof fn lemma_is_placed(list: Seq<DeviceModel>, at: int)
    requires
        0 <= at < list.len(),
    ensures
        found(list, list[at].id).1,
{
    lemma_place(list, list[at].id);
    if place_of(list, list[at].id) >= list.len() {
        assert(list[at].id != list[at].id);
    }
}

/// A saved setup moves a picker only onto the very device it was saved for, and
/// a buffer size only onto one that is on offer. What was not saved, and what
/// is not there any more, leaves the picker where it stood.
pub proof fn a_picker_moves_only_onto_what_was_saved(
    s: SetupModel,
    prefs: AppPrefsModel,
    choices: Seq<u32>,
)
    requires
        0 <= s.capture_idx,
        0 <= s.playback_idx,
    ensures
        ({
            let after = restored(s, prefs, choices);
            &&& after.capture == s.capture && after.playback == s.playback
            &&& after.rescan_note == s.rescan_note
            &&& after.capture_idx != s.capture_idx ==> prefs.capture_id is Some
                && after.capture_idx < s.capture.len() && s.capture[after.capture_idx].id
                == prefs.capture_id
            &&& after.playback_idx != s.playback_idx ==> prefs.playback_id is Some
                && after.playback_idx < s.playback.len() && s.playback[after.playback_idx].id
                == prefs.playback_id
            &&& prefs.capture_id is Some && (exists|i: int|
                0 <= i < s.capture.len() && (#[trigger] s.capture[i]).id == prefs.capture_id)
                ==> after.capture_idx < s.capture.len() && s.capture[after.capture_idx].id
                == prefs.capture_id
            &&& prefs.playback_id is Some && (exists|i: int|
                0 <= i < s.playback.len() && (#[trigger] s.playback[i]).id == prefs.playback_id)
                ==> after.playback_idx < s.playback.len() && s.playback[after.playback_idx].id
                == prefs.playback_id
            &&& prefs.buffer_frames matches Some(frames) ==> after.buffer_frames == (
            if choices.contains(frames) {
                frames
            } else {
                s.buffer_frames
            })
            &&& prefs.buffer_frames is None ==> after.buffer_frames == s.buffer_frames
            &&& prefs.allow_exclusive matches Some(allow) ==> after.allow_exclusive == allow
            &&& prefs.allow_exclusive is None ==> after.allow_exclusive == s.allow_exclusive
        }),
{
    lemma_place(s.capture, prefs.capture_id);
    lemma_place(s.playback, prefs.playback_id);
}

/// A rescan takes the lists it found. Each picker follows its device to where
/// it stands now, and one whose device is gone stands on the first entry, with
/// its name in the note, the capture device's before the playback device's. It
/// touches neither the buffer nor the exclusive answer.
pub proof fn a_rescan_follows_each_device(
    s: SetupModel,
    capture: Seq<DeviceModel>,
    playback: Seq<DeviceModel>,
)
    requires
        0 <= s.capture_idx < s.capture.len(),
        0 <= s.playback_idx < s.playback.len(),
    ensures
        ({
            let after = rescanned(s, capture, playback);
            let c = s.capture[s.capture_idx];
            let p = s.playback[s.playback_idx];
            let c_there = exists|i: int| 0 <= i < capture.len() && (#[trigger] capture[i]).id == c.id;
            let p_there = exists|i: int|
                0 <= i < playback.len() && (#[trigger] playback[i]).id == p.id;
            let tail = " is no longer present; using the system default"@;
            &&& after.capture == capture && after.playback == playback
            &&& after.buffer_frames == s.buffer_frames && after.allow_exclusive
                == s.allow_exclusive
            &&& c_there ==> 0 <= after.capture_idx < capture.len()
                && capture[after.capture_idx].id == c.id
            &&& !c_there ==> after.capture_idx == 0
            &&& p_there ==> 0 <= after.playback_idx < playback.len()
                && playback[after.playback_idx].id == p.id
            &&& !p_there ==> after.playback_idx == 0
            &&& c_there && p_there ==> after.rescan_note is None
            &&& !c_there && p_there ==> after.rescan_note == Some(c.name + tail)
            &&& c_there && !p_there ==> after.rescan_note == Some(p.name + tail)
            &&& !c_there && !p_there ==> after.rescan_note == Some(
                c.name + " and "@ + p.name + tail,
            )
        }),
{
    lemma_place(capture, s.capture[s.capture_idx].id);
    lemma_place(playback, s.playback[s.playback_idx].id);
}

/// A picker that stood past the end of its list had no device to lose: a rescan
/// puts it on the first entry and has nothing to say of it.
pub proof fn a_picker_past_its_list_goes_to_the_first_entry(
    s: SetupModel,
    capture: Seq<DeviceModel>,
    playback: Seq<DeviceModel>,
)
    requires
        s.capture_idx >= s.capture.len(),
        s.playback_idx >= s.playback.len(),
    ensures
        rescanned(s, capture, playback).capture_idx == 0,
        rescanned(s, capture, playback).playback_idx == 0,
        rescanned(s, capture, playback).rescan_note is None,
{
}

} // verus!
