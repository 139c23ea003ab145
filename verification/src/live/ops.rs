//! What the worker does with a message: which call on the session core a
//! command becomes.

use vstd::prelude::*;

use crate::live::AudioSettings;
use crate::model::CommandModel;
use crate::runtime::{
    Command, DestinationId, FaderView, MemberId, StreamKey, StreamPlatform, TokenId,
};

verus! {

/// What a host asks of the outbound stream.
pub enum StreamOp {
    AddDestination { id: DestinationId, platform: StreamPlatform, key: StreamKey },
    RemoveDestination { id: DestinationId },
    Start,
    Stop,
}

/// What a host asks of the recorder.
#[derive(Debug, Clone, Copy, PartialEq, Eq, Structural)]
pub enum RecordOp {
    Start,
    Stop,
}

/// A call on the session core.
pub enum CoreOp {
    SetFader { member: MemberId, fader: FaderView },
    SetClick(bool),
    SetMetronome { bpm: u16, beats_per_bar: u8, enabled: bool },
    SetBroadcastFader { member: MemberId, fader: FaderView },
    SetBroadcastAudition(bool),
    SetHearSelf(bool),
    SendChat(String),
    Revoke(TokenId),
    SetAvatar(Vec<u8>),
    /// The control protocol has no way to unset an avatar, so nothing is sent:
    /// your own strip falls back to the initials disc, and the others keep the
    /// last picture.
    DropAvatarLocally,
    SetName(String),
    Stream(StreamOp),
    Record(RecordOp),
}

/// What a call carries out.
pub open spec fn carried(op: CoreOp) -> CommandModel {
    match op {
        CoreOp::SetFader { member, fader } => CommandModel::SetFader { member, fader },
        CoreOp::SetClick(on) => CommandModel::SetClick(on),
        CoreOp::SetMetronome { bpm, beats_per_bar, enabled } => CommandModel::SetMetronome {
            bpm,
            beats_per_bar,
            enabled,
        },
        CoreOp::SetBroadcastFader { member, fader } => CommandModel::SetBroadcastFader {
            member,
            fader,
        },
        CoreOp::SetBroadcastAudition(on) => CommandModel::SetBroadcastAudition(on),
        CoreOp::SetHearSelf(on) => CommandModel::SetHearSelf(on),
        CoreOp::SendChat(text) => CommandModel::SendChat(text@),
        CoreOp::Revoke(token) => CommandModel::Revoke(token.0@),
        CoreOp::SetAvatar(bytes) => CommandModel::SetOwnAvatar(Some(bytes@)),
        CoreOp::DropAvatarLocally => CommandModel::SetOwnAvatar(None),
        CoreOp::SetName(name) => CommandModel::SetOwnName(name@),
        CoreOp::Stream(StreamOp::AddDestination { id, platform, key }) =>
            CommandModel::AddDestination { id, platform, key: key.0@ },
        CoreOp::Stream(StreamOp::RemoveDestination { id }) => CommandModel::RemoveDestination(id),
        CoreOp::Stream(StreamOp::Start) => CommandModel::StartStream,
        CoreOp::Stream(StreamOp::Stop) => CommandModel::StopStream,
        CoreOp::Record(RecordOp::Start) => CommandModel::StartRecord,
        CoreOp::Record(RecordOp::Stop) => CommandModel::StopRecord,
    }
}

/// What reaches the worker.
pub enum ThreadMsg {
    Cmd(Command),
    Reconfigure(AudioSettings),
    /// Whether the playout cushion may move itself. Its own message, because
    /// the depth is read without the device being touched.
    AutoCushion(bool),
}

/// What the worker does next.
pub enum Work {
    /// Say goodbye, close the device, and end.
    Shutdown,
    Call(CoreOp),
    Reopen(AudioSettings),
    SetAutoCushion(bool),
}

/// The call a command becomes; none for leaving, which ends the worker.
pub fn core_op(cmd: Command) -> (op: Option<CoreOp>)
    ensures
        match op {
            Some(op) => carried(op) == cmd.deep_view(),
            None => cmd is Leave,
        },
        op is None <==> cmd is Leave,
        match cmd {
            Command::SetFader { member, gain_db, pan, muted } => op == Some(
                CoreOp::SetFader { member, fader: FaderView { gain_db, pan, muted } },
            ),
            Command::SetClick(on) => op == Some(CoreOp::SetClick(on)),
            Command::SetMetronome { bpm, beats_per_bar, enabled } => op == Some(
                CoreOp::SetMetronome { bpm, beats_per_bar, enabled },
            ),
            Command::SetBroadcastFader { member, gain_db, pan, muted } => op == Some(
                CoreOp::SetBroadcastFader { member, fader: FaderView { gain_db, pan, muted } },
            ),
            Command::SetBroadcastAudition(on) => op == Some(CoreOp::SetBroadcastAudition(on)),
            Command::SetHearSelf(on) => op == Some(CoreOp::SetHearSelf(on)),
            Command::SendChat(text) => op == Some(CoreOp::SendChat(text)),
            Command::Revoke(token) => op == Some(CoreOp::Revoke(token)),
            Command::SetOwnAvatar(Some(bytes)) => op == Some(CoreOp::SetAvatar(bytes)),
            Command::SetOwnAvatar(None) => op == Some(CoreOp::DropAvatarLocally),
            Command::SetOwnName(name) => op == Some(CoreOp::SetName(name)),
            Command::AddDestination { id, platform, key } => op == Some(
                CoreOp::Stream(StreamOp::AddDestination { id, platform, key }),
            ),
            Command::RemoveDestination(id) => op == Some(
                CoreOp::Stream(StreamOp::RemoveDestination { id }),
            ),
            Command::StartStream => op == Some(CoreOp::Stream(StreamOp::Start)),
            Command::StopStream => op == Some(CoreOp::Stream(StreamOp::Stop)),
            Command::StartRecord => op == Some(CoreOp::Record(RecordOp::Start)),
            Command::StopRecord => op == Some(CoreOp::Record(RecordOp::Stop)),
            Command::Leave => op is None,
        },
{
    let op = match cmd {
        Command::SetFader { member, gain_db, pan, muted } => CoreOp::SetFader {
            member,
            fader: FaderView { gain_db, pan, muted },
        },
        Command::SetClick(on) => CoreOp::SetClick(on),
        Command::SetMetronome { bpm, beats_per_bar, enabled } => CoreOp::SetMetronome {
            bpm,
            beats_per_bar,
            enabled,
        },
        Command::SetBroadcastFader { member, gain_db, pan, muted } => CoreOp::SetBroadcastFader {
            member,
            fader: FaderView { gain_db, pan, muted },
        },
        Command::SetBroadcastAudition(on) => CoreOp::SetBroadcastAudition(on),
        Command::SetHearSelf(on) => CoreOp::SetHearSelf(on),
        Command::SendChat(text) => CoreOp::SendChat(text),
        Command::Revoke(jti) => CoreOp::Revoke(jti),
        // The bytes go out raw: hashing, caching and the announcement are the
        // core's job, and it refuses anything outside the transfer caps.
        Command::SetOwnAvatar(Some(bytes)) => CoreOp::SetAvatar(bytes),
        Command::SetOwnAvatar(None) => CoreOp::DropAvatarLocally,
        Command::SetOwnName(name) => CoreOp::SetName(name),
        // The key is moved into the call and kept nowhere here.
        Command::AddDestination { id, platform, key } => CoreOp::Stream(
            StreamOp::AddDestination { id, platform, key },
        ),
        Command::RemoveDestination(id) => CoreOp::Stream(StreamOp::RemoveDestination { id }),
        Command::StartStream => CoreOp::Stream(StreamOp::Start),
        Command::StopStream => CoreOp::Stream(StreamOp::Stop),
        Command::StartRecord => CoreOp::Record(RecordOp::Start),
        Command::StopRecord => CoreOp::Record(RecordOp::Stop),
        Command::Leave => {
            return None;
        },
    };
    Some(op)
}

/// What the worker does with a message.
pub fn work_of(msg: ThreadMsg) -> (work: Work)
    ensures
        match msg {
            ThreadMsg::Cmd(cmd) => match work {
                Work::Shutdown => cmd is Leave,
                Work::Call(op) => !(cmd is Leave) && carried(op) == cmd.deep_view(),
                _ => false,
            },
            ThreadMsg::Reconfigure(settings) => work == Work::Reopen(settings),
            ThreadMsg::AutoCushion(auto) => work == Work::SetAutoCushion(auto),
        },
{
    match msg {
        ThreadMsg::Cmd(cmd) => match core_op(cmd) {
            Some(op) => Work::Call(op),
            None => Work::Shutdown,
        },
        ThreadMsg::Reconfigure(settings) => Work::Reopen(settings),
        ThreadMsg::AutoCushion(auto) => Work::SetAutoCushion(auto),
    }
}

/// Leaving is the one command no call carries out, so it is the one message
/// that ends the worker.
pub proof fn only_leaving_ends_the_worker(op: CoreOp)
    ensures
        carried(op) != CommandModel::Leave,
{
}

/// Two calls that carry out the same command are one call: no two differ in
/// what they ask of the core and agree in what they carry out.
pub proof fn a_call_carries_out_one_command(one: CoreOp, other: CoreOp)
    requires
        carried(one) == carried(other),
    ensures
        one is SetFader <==> other is SetFader,
        one is SetClick <==> other is SetClick,
        one is SetMetronome <==> other is SetMetronome,
        one is SetBroadcastFader <==> other is SetBroadcastFader,
        one is SetBroadcastAudition <==> other is SetBroadcastAudition,
        one is SetHearSelf <==> other is SetHearSelf,
        one is SendChat <==> other is SendChat,
        one is Revoke <==> other is Revoke,
        one is SetAvatar <==> other is SetAvatar,
        one is DropAvatarLocally <==> other is DropAvatarLocally,
        one is SetName <==> other is SetName,
        one is Stream <==> other is Stream,
        one is Record <==> other is Record,
        one is SetFader || one is SetClick || one is SetMetronome || one is SetBroadcastFader
            || one is SetBroadcastAudition || one is SetHearSelf || one is Record ==> one == other,
{
}

} // verus!
