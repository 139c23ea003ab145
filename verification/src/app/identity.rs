//! Who you are to the others: the name on the roster and the picture on your
//! strip, picked here and announced to a session.

use vstd::prelude::*;
use vstd::utf8::encode_utf8;

use crate::avatar::{Picture, PictureModel, FIT_DIM};
use crate::model::{AvatarModel, CommandModel};
use crate::picker::{Picked, PickedModel};
use crate::runtime::{bytes_model, copy_bytes, AvatarHandle, Command};
use crate::text::{chars_of, decimal, push_decimal, same_text, string_of, trim, trimmed};

verus! {

pub struct Identity {
    /// Your display name, as the join screen's field holds it. Empty means
    /// unset and nothing is sent.
    pub own_name: String,
    /// The name the session was last told. `None` until the first
    /// announcement, which is why a first name always goes out.
    pub announced_name: Option<String>,
    /// Why the last picture was refused, shown inline under the row.
    pub avatar_error: Option<String>,
    /// The picture picked this run, for the line under the row.
    pub picture: Option<Picture>,
    /// The picture you picked, decoded for the settings disc.
    pub own_avatar: Option<AvatarHandle>,
    /// The same picture's fitted bytes, kept so a join can announce it.
    pub own_avatar_bytes: Option<Vec<u8>>,
}

#[verifier::ext_equal]
pub struct IdentityModel {
    pub own_name: Seq<char>,
    pub announced_name: Option<Seq<char>>,
    pub avatar_error: Option<Seq<char>>,
    pub picture: Option<PictureModel>,
    pub own_avatar: Option<AvatarModel>,
    pub own_avatar_bytes: Option<Seq<u8>>,
}

impl IdentityModel {
    /// Nobody in particular yet.
    pub open spec fn nobody() -> IdentityModel {
        IdentityModel {
            own_name: Seq::empty(),
            announced_name: None,
            avatar_error: None,
            picture: None,
            own_avatar: None,
            own_avatar_bytes: None,
        }
    }
}

impl DeepView for Identity {
    type V = IdentityModel;

    open spec fn deep_view(&self) -> IdentityModel {
        IdentityModel {
            own_name: self.own_name@,
            announced_name: self.announced_name.deep_view(),
            avatar_error: self.avatar_error.deep_view(),
            picture: self.picture.deep_view(),
            own_avatar: self.own_avatar.deep_view(),
            own_avatar_bytes: bytes_model(self.own_avatar_bytes),
        }
    }
}

/// The longest beginning of a name that fits a byte cap.
pub open spec fn cut(name: Seq<char>, cap: nat) -> Seq<char>
    decreases name.len(),
{
    if encode_utf8(name).len() <= cap || name.len() == 0 {
        name
    } else {
        cut(name.drop_last(), cap)
    }
}

/// The name that goes out: without the space around it, cut to the byte cap.
pub open spec fn name_to_send(name: Seq<char>, cap: nat) -> Seq<char> {
    cut(trimmed(name), cap)
}

/// The identity once the name was announced, and what is sent. Only a change is
/// news, and only a session can be told.
pub open spec fn name_announced(m: IdentityModel, in_session: bool, cap: nat) -> (
    IdentityModel,
    Option<CommandModel>,
) {
    let name = name_to_send(m.own_name, cap);
    if name.len() == 0 || m.announced_name == Some(name) || !in_session {
        (m, None)
    } else {
        (
            IdentityModel { announced_name: Some(name), ..m },
            Some(CommandModel::SetOwnName(name)),
        )
    }
}

/// The identity once a picture is shown.
pub open spec fn pictured(m: IdentityModel, picture: PictureModel) -> IdentityModel {
    IdentityModel {
        avatar_error: None,
        picture: Some(picture),
        own_avatar: Some(picture.handle),
        own_avatar_bytes: Some(picture.bytes),
        ..m
    }
}

/// The identity without a picture.
pub open spec fn bare(m: IdentityModel) -> IdentityModel {
    IdentityModel {
        avatar_error: None,
        picture: None,
        own_avatar: None,
        own_avatar_bytes: None,
        ..m
    }
}

/// What is sent of a picture, or of its removal: nothing without a session.
pub open spec fn sent(bytes: Option<Seq<u8>>, in_session: bool) -> Option<CommandModel> {
    if in_session {
        Some(CommandModel::SetOwnAvatar(bytes))
    } else {
        None
    }
}

/// The identity once the dialog came back, and what is sent.
pub open spec fn after_pick(m: IdentityModel, picked: PickedModel, in_session: bool) -> (
    IdentityModel,
    Option<CommandModel>,
) {
    match picked {
        PickedModel::Cancelled => (m, None),
        PickedModel::Loaded(picture) => (
            pictured(m, picture),
            sent(Some(picture.bytes), in_session),
        ),
        PickedModel::Failed(reason) => (
            IdentityModel { avatar_error: Some(reason), ..m },
            None,
        ),
    }
}

/// The line under the row: what a picture is, and what it was.
pub open spec fn size_line(source: (u32, u32), fitted: (u32, u32)) -> Seq<char> {
    let now = decimal(fitted.0 as nat) + "x"@ + decimal(fitted.1 as nat);
    if source == fitted {
        now
    } else {
        decimal(source.0 as nat) + "x"@ + decimal(source.1 as nat) + " fitted to "@ + now
    }
}

/// Cuts a name to a byte cap, on a character boundary, so a name the field
/// accepted is never silently refused further down.
pub fn cut_name(name: &str, cap: usize) -> (s: String)
    ensures
        s@ == cut(name@, cap as nat),
{
    let mut chars = chars_of(name);
    loop
        invariant
            cut(chars@, cap as nat) == cut(name@, cap as nat),
        decreases chars@.len(),
    {
        let s = string_of(&chars);
        let fits = s.as_str().as_bytes().len() <= cap;
        if fits || chars.len() == 0 {
            assert(cut(chars@, cap as nat) == chars@);
            return s;
        }
        let ghost before = chars@;
        chars.pop();
        assert(chars@ =~= before.drop_last());
    }
}

impl Identity {
    /// Nobody in particular yet.
    pub fn new() -> (id: Identity)
        ensures
            id.deep_view() == IdentityModel::nobody(),
            id.own_name@.len() == 0 && id.announced_name is None && id.avatar_error is None,
            id.picture is None && id.own_avatar is None && id.own_avatar_bytes is None,
    {
        let id = Identity {
            own_name: String::new(),
            announced_name: None,
            avatar_error: None,
            picture: None,
            own_avatar: None,
            own_avatar_bytes: None,
        };
        assert(id.own_name@ =~= Seq::<char>::empty());
        id
    }

    /// Puts a remembered name back onto the field.
    pub fn restore_name(&mut self, saved: Option<String>)
        ensures
            final(self).deep_view() == (match saved {
                Some(name) => IdentityModel { own_name: name@, ..old(self).deep_view() },
                None => old(self).deep_view(),
            }),
    {
        if let Some(name) = saved {
            self.own_name = name;
        }
    }

    /// Announces the name, beside the picture: the runtime keeps it and
    /// announces it again on reconnect. `cap` is the wire's byte cap.
    pub fn announce_own_name(&mut self, in_session: bool, cap: usize) -> (cmd: Option<Command>)
        ensures
            (final(self).deep_view(), cmd.deep_view()) == name_announced(
                old(self).deep_view(),
                in_session,
                cap as nat,
            ),
            cmd is Some ==> in_session && (cmd->0 matches Command::SetOwnName(name) && final(self).announced_name is Some && final(self).announced_name->0@ == name@ && name@.len() > 0
                && name@ == cut(trimmed(old(self).own_name@), cap as nat)),
            cmd is None ==> final(self).announced_name.deep_view() == old(
                self,
            ).announced_name.deep_view(),
            final(self).own_name@ == old(self).own_name@,
    {
        let ghost m = self.deep_view();
        let name = cut_name(trim(self.own_name.as_str()).as_str(), cap);
        if name.as_str().is_empty() {
            return None;
        }
        if let Some(announced) = &self.announced_name {
            if same_text(announced.as_str(), name.as_str()) {
                return None;
            }
        }
        if !in_session {
            return None;
        }
        self.announced_name = Some(name.clone());
        assert(self.deep_view() =~= name_announced(m, in_session, cap as nat).0);
        Some(Command::SetOwnName(name))
    }

    /// Announces the picture that was picked before this session started.
    /// Called right after a join, the one moment the runtime is new.
    pub fn announce_own_avatar(&self, in_session: bool) -> (cmd: Option<Command>)
        ensures
            cmd.deep_view() == (match self.deep_view().own_avatar_bytes {
                Some(bytes) => sent(Some(bytes), in_session),
                None => None,
            }),
            cmd is Some <==> in_session && self.own_avatar_bytes is Some,
            cmd matches Some(Command::SetOwnAvatar(bytes)) ==> bytes is Some && bytes->0@
                == self.own_avatar_bytes->0@,
            cmd is Some ==> cmd->0 is SetOwnAvatar,
    {
        if !in_session {
            return None;
        }
        match &self.own_avatar_bytes {
            Some(bytes) => {
                let copy = copy_bytes(bytes);
                let cmd = Command::SetOwnAvatar(Some(copy));
                assert(cmd.deep_view() == CommandModel::SetOwnAvatar(Some(bytes@)));
                Some(cmd)
            },
            None => None,
        }
    }

    /// Shows a picture and announces it. Its bytes are the fitted ones, so they
    /// are inside the transfer layer's caps.
    pub fn set_avatar(&mut self, picture: Picture, in_session: bool) -> (cmd: Option<Command>)
        ensures
            final(self).deep_view() == pictured(old(self).deep_view(), picture.deep_view()),
            cmd.deep_view() == sent(Some(picture.bytes@), in_session),
            cmd is Some <==> in_session,
            cmd is Some ==> (cmd->0 matches Command::SetOwnAvatar(Some(bytes)) && bytes@
                == picture.bytes@),
            final(self).avatar_error is None,
            final(self).own_avatar is Some && final(self).own_avatar->0.deep_view()
                == picture.handle.deep_view(),
            final(self).own_avatar_bytes is Some && final(self).own_avatar_bytes->0@
                == picture.bytes@,
            final(self).own_name@ == old(self).own_name@,
    {
        let ghost m = self.deep_view();
        let ghost p = picture.deep_view();
        self.avatar_error = None;
        self.own_avatar = Some(picture.handle.clone());
        let cmd = if in_session {
            let cmd = Command::SetOwnAvatar(Some(copy_bytes(&picture.bytes)));
            assert(cmd.deep_view() == CommandModel::SetOwnAvatar(Some(picture.bytes@)));
            Some(cmd)
        } else {
            None
        };
        self.own_avatar_bytes = Some(copy_bytes(&picture.bytes));
        self.picture = Some(picture);
        assert(self.deep_view() =~= pictured(m, p));
        cmd
    }

    /// Drops the picture, here and on the next join.
    pub fn remove_avatar(&mut self, in_session: bool) -> (cmd: Option<Command>)
        ensures
            final(self).deep_view() == bare(old(self).deep_view()),
            cmd.deep_view() == sent(None, in_session),
            cmd is Some <==> in_session,
            cmd is Some ==> cmd->0 == Command::SetOwnAvatar(None),
            final(self).avatar_error is None && final(self).picture is None && final(self).own_avatar is None && final(self).own_avatar_bytes is None,
            final(self).own_name@ == old(self).own_name@,
            final(self).announced_name.deep_view() == old(self).announced_name.deep_view(),
    {
        let ghost m = self.deep_view();
        self.avatar_error = None;
        self.picture = None;
        self.own_avatar = None;
        self.own_avatar_bytes = None;
        assert(self.deep_view() =~= bare(m));
        if in_session {
            Some(Command::SetOwnAvatar(None))
        } else {
            None
        }
    }

    /// Takes what the dialog came back with.
    pub fn take_pick(&mut self, picked: Picked, in_session: bool) -> (cmd: Option<Command>)
        ensures
            (final(self).deep_view(), cmd.deep_view()) == after_pick(
                old(self).deep_view(),
                picked.deep_view(),
                in_session,
            ),
            picked is Cancelled || picked is Failed ==> cmd is None,
            picked matches Picked::Failed(reason) ==> final(self).avatar_error is Some && final(self).avatar_error->0@ == reason@,
            picked matches Picked::Loaded(picture) ==> final(self).avatar_error is None && final(self).own_avatar_bytes is Some && final(self).own_avatar_bytes->0@ == picture.bytes@
                && final(self).own_avatar is Some && (cmd is Some <==> in_session),
            final(self).own_name@ == old(self).own_name@,
    {
        let ghost m = self.deep_view();
        match picked {
            Picked::Cancelled => None,
            Picked::Loaded(picture) => self.set_avatar(*picture, in_session),
            Picked::Failed(reason) => {
                self.avatar_error = Some(reason);
                assert(self.deep_view() =~= IdentityModel { avatar_error: Some(reason@), ..m });
                None
            },
        }
    }

    /// What the row shows on the disc: the local pick while it is in hand, else
    /// what the roster has of you.
    pub fn shown_avatar(&self, on_roster: Option<AvatarHandle>) -> (handle: Option<AvatarHandle>)
        ensures
            handle == (if self.own_avatar is Some {
                self.own_avatar
            } else {
                on_roster
            }),
    {
        match &self.own_avatar {
            Some(handle) => Some(handle.clone()),
            None => on_roster,
        }
    }

    /// The line under the row: what the picked file became or, before anything
    /// is picked, what will happen to one.
    pub fn avatar_line(&self) -> (line: String)
        ensures
            line@ == (match self.deep_view().picture {
                Some(picture) => size_line(picture.source, picture.fitted),
                None => "PNG or JPEG. A photo is cropped square and fitted to "@ + decimal(
                    FIT_DIM as nat,
                ) + "x"@ + decimal(FIT_DIM as nat) + "."@,
            }),
            self.picture matches Some(picture) ==> (if picture.source == picture.fitted {
                line@ == decimal(picture.fitted.0 as nat) + "x"@ + decimal(
                    picture.fitted.1 as nat,
                )
            } else {
                line@ == decimal(picture.source.0 as nat) + "x"@ + decimal(
                    picture.source.1 as nat,
                ) + " fitted to "@ + (decimal(picture.fitted.0 as nat) + "x"@ + decimal(
                    picture.fitted.1 as nat,
                ))
            }),
    {
        let mut line = String::new();
        match &self.picture {
            Some(picture) => {
                let (w, h) = picture.fitted;
                let (sw, sh) = picture.source;
                if !(sw == w && sh == h) {
                    push_decimal(&mut line, sw as u64);
                    line.append("x");
                    push_decimal(&mut line, sh as u64);
                    line.append(" fitted to ");
                }
                push_decimal(&mut line, w as u64);
                line.append("x");
                push_decimal(&mut line, h as u64);
                assert(line@ =~= size_line(picture.source, picture.fitted));
            },
            None => {
                line.append("PNG or JPEG. A photo is cropped square and fitted to ");
                push_decimal(&mut line, FIT_DIM as u64);
                line.append("x");
                push_decimal(&mut line, FIT_DIM as u64);
                line.append(".");
                assert(line@ =~= "PNG or JPEG. A photo is cropped square and fitted to "@
                    + decimal(FIT_DIM as nat) + "x"@ + decimal(FIT_DIM as nat) + "."@);
            },
        }
        line
    }
}

// ----------------------------------------------------------------------- laws

/// A name that is cut is a beginning of the name, fits the cap, and one
/// character more would not.
pub proof fn a_cut_name_is_the_longest_that_fits(name: Seq<char>, cap: nat)
    ensures
        ({
            let kept = cut(name, cap);
            &&& kept.len() <= name.len()
            &&& kept == name.take(kept.len() as int)
            &&& encode_utf8(kept).len() <= cap
            &&& kept.len() < name.len() ==> encode_utf8(name.take(kept.len() as int + 1)).len()
                > cap
        }),
    decreases name.len(),
{
    if encode_utf8(name).len() <= cap || name.len() == 0 {
        assert(name.take(name.len() as int) =~= name);
    } else {
        let shorter = name.drop_last();
        a_cut_name_is_the_longest_that_fits(shorter, cap);
        let kept = cut(name, cap);
        assert(shorter.take(kept.len() as int) =~= name.take(kept.len() as int));
        if kept.len() < shorter.len() {
            assert(shorter.take(kept.len() as int + 1) =~= name.take(kept.len() as int + 1));
        } else {
            assert(name.take(kept.len() as int + 1) =~= name);
        }
    }
}

/// Only a change is news: announcing again what was just announced sends
/// nothing and changes nothing.
pub proof fn a_name_is_announced_once(m: IdentityModel, cap: nat)
    ensures
        ({
            let (told, first) = name_announced(m, true, cap);
            name_announced(told, true, cap) == (told, None::<CommandModel>)
        }),
{
}

/// A name made of nothing but space is never announced, nor is any before
/// there is a session.
pub proof fn no_empty_name_goes_out(m: IdentityModel, in_session: bool, cap: nat)
    requires
        trimmed(m.own_name).len() == 0 || !in_session,
    ensures
        name_announced(m, in_session, cap) == (m, None::<CommandModel>),
{
}

/// A refused picture leaves the one you have alone, and a cancelled dialog
/// leaves everything.
pub proof fn a_refused_picture_changes_no_picture(
    m: IdentityModel,
    picked: PickedModel,
    in_session: bool,
)
    requires
        !(picked is Loaded),
    ensures
        after_pick(m, picked, in_session).1 is None,
        after_pick(m, picked, in_session).0.picture == m.picture,
        after_pick(m, picked, in_session).0.own_avatar == m.own_avatar,
        after_pick(m, picked, in_session).0.own_avatar_bytes == m.own_avatar_bytes,
        picked is Cancelled ==> after_pick(m, picked, in_session).0 == m,
{
}

/// A name goes out to a session that has not been told it: the name in the
/// field without the space around it, whole where it fits. What was told is
/// remembered, and nothing else changes.
pub proof fn a_new_name_goes_out_whole(m: IdentityModel, cap: nat)
    requires
        trimmed(m.own_name).len() > 0,
        encode_utf8(trimmed(m.own_name)).len() <= cap,
        m.announced_name != Some(trimmed(m.own_name)),
    ensures
        name_announced(m, true, cap).1 == Some(CommandModel::SetOwnName(trimmed(m.own_name))),
        name_announced(m, true, cap).0 == (IdentityModel {
            announced_name: Some(trimmed(m.own_name)),
            ..m
        }),
{
}

/// A picked picture is the one shown and the one sent, with any refusal
/// cleared; dropping it clears all there is of it. Neither touches the name,
/// and without a session nothing is sent.
pub proof fn a_picked_picture_is_shown_and_sent(
    m: IdentityModel,
    picture: PictureModel,
    reason: Seq<char>,
)
    ensures
        ({
            let (shown, cmd) = after_pick(m, PickedModel::Loaded(picture), true);
            &&& shown.own_avatar == Some(picture.handle)
            &&& shown.own_avatar_bytes == Some(picture.bytes)
            &&& shown.picture == Some(picture)
            &&& shown.avatar_error is None
            &&& shown.own_name == m.own_name && shown.announced_name == m.announced_name
            &&& cmd == Some(CommandModel::SetOwnAvatar(Some(picture.bytes)))
            &&& after_pick(m, PickedModel::Loaded(picture), false).1 is None
            &&& after_pick(m, PickedModel::Loaded(picture), false).0 == shown
        }),
        after_pick(m, PickedModel::Failed(reason), true).0.avatar_error == Some(reason),
        after_pick(m, PickedModel::Failed(reason), true).0.own_name == m.own_name,
        bare(m).own_avatar is None && bare(m).own_avatar_bytes is None && bare(m).picture is None,
        bare(m).avatar_error is None && bare(m).own_name == m.own_name,
        bare(m).announced_name == m.announced_name,
        sent(None, true) == Some(CommandModel::SetOwnAvatar(None)),
        sent(None, false) is None,
{
}

} // verus!
