//! The host's view over a running session: what the machine costs, and which
//! token admits whom.

use std::collections::HashMap;

use vstd::prelude::*;

use crate::model::{CommandModel, MemberModel, SnapshotModel};
use crate::runtime::{Command, ConnState, CostView, Runtime, Snapshot, TokenId};

verus! {

broadcast use vstd::std_specs::hash::group_hash_axioms;

/// Injects the running cost and the seats' tokens into every snapshot of the
/// runtime underneath. The wire roster carries no tokens, so which one to
/// revoke can only come from the host's own records.
pub struct CostedRuntime<R: Runtime> {
    pub inner: R,
    pub hourly_microusd: u64,
    /// When the machine was created, and what time it is, in seconds since the
    /// epoch. A clock that cannot be read leaves the second at the first.
    pub created_unix: u64,
    pub now_unix: u64,
    /// The token that admits each member, as the invites have it now.
    pub tokens: HashMap<u16, TokenId>,
}

/// What the record of a session this computer launched says of it: what its
/// machine costs, since when it has been up, and the token that admits each
/// seat.
pub struct Hosting {
    pub hourly_microusd: u64,
    pub created_unix: u64,
    pub tokens: HashMap<u16, TokenId>,
}

#[verifier::ext_equal]
pub struct HostingModel {
    pub hourly_microusd: u64,
    pub created_unix: u64,
    pub tokens: Map<u16, TokenId>,
}

impl DeepView for Hosting {
    type V = HostingModel;

    open spec fn deep_view(&self) -> HostingModel {
        HostingModel {
            hourly_microusd: self.hourly_microusd,
            created_unix: self.created_unix,
            tokens: self.tokens@,
        }
    }
}

/// Seconds the machine has been up.
pub open spec fn up_secs(created_unix: u64, now_unix: u64) -> int {
    if now_unix >= created_unix {
        now_unix - created_unix
    } else {
        0
    }
}

/// Whether the machine counts what a session costs.
pub open spec fn affordable(hourly_microusd: u64, created_unix: u64, now_unix: u64) -> bool {
    hourly_microusd * up_secs(created_unix, now_unix) <= u64::MAX
}

/// What a session costs.
pub open spec fn cost_of(hourly_microusd: u64, created_unix: u64, now_unix: u64) -> CostView {
    let elapsed = up_secs(created_unix, now_unix);
    CostView {
        hourly_microusd,
        accrued_microusd: ((hourly_microusd * elapsed) / 3600) as u64,
        elapsed_secs: elapsed as u64,
    }
}

/// A member with the token that admits them, where the roster has none.
pub open spec fn with_token(member: MemberModel, tokens: Map<u16, TokenId>) -> MemberModel {
    MemberModel {
        token: if member.token is Some {
            member.token
        } else if tokens.contains_key(member.id.0) {
            Some(tokens[member.id.0].0@)
        } else {
            None
        },
        ..member
    }
}

/// The snapshot a host is shown.
pub open spec fn costed(s: SnapshotModel, cost: CostView, tokens: Map<u16, TokenId>) -> SnapshotModel {
    SnapshotModel {
        members: Seq::new(s.members.len(), |i: int| with_token(s.members[i], tokens)),
        cost: Some(cost),
        ..s
    }
}

impl<R: Runtime> CostedRuntime<R> {
    pub fn new(
        inner: R,
        hourly_microusd: u64,
        created_unix: u64,
        tokens: HashMap<u16, TokenId>,
    ) -> (rt: CostedRuntime<R>)
        requires
            inner.wf(),
        ensures
            rt.wf(),
            rt == (CostedRuntime {
                inner,
                hourly_microusd,
                created_unix,
                now_unix: created_unix,
                tokens,
            }),
    {
        assert(hourly_microusd * 0 == 0);
        CostedRuntime { inner, hourly_microusd, created_unix, now_unix: created_unix, tokens }
    }

    /// The host's view over a session that was just joined, by its record.
    pub fn hosting(inner: R, hosting: Hosting) -> (rt: CostedRuntime<R>)
        requires
            inner.wf(),
        ensures
            rt.wf(),
            rt == (CostedRuntime {
                inner,
                hourly_microusd: hosting.hourly_microusd,
                created_unix: hosting.created_unix,
                now_unix: hosting.created_unix,
                tokens: hosting.tokens,
            }),
    {
        CostedRuntime::new(inner, hosting.hourly_microusd, hosting.created_unix, hosting.tokens)
    }

    /// What time it is.
    pub fn set_now(&mut self, now_unix: u64)
        requires
            old(self).wf(),
            affordable(old(self).hourly_microusd, old(self).created_unix, now_unix),
        ensures
            final(self).wf(),
            *final(self) == (CostedRuntime { now_unix, ..*old(self) }),
    {
        self.now_unix = now_unix;
    }

    /// The token that admits a seat now: a seat revoked and minted into again
    /// carries a new one.
    pub fn set_token(&mut self, member: u16, token: TokenId)
        requires
            old(self).wf(),
        ensures
            final(self).wf(),
            final(self).tokens@ == old(self).tokens@.insert(member, token),
            *final(self) == (CostedRuntime { tokens: final(self).tokens, ..*old(self) }),
    {
        self.tokens.insert(member, token);
    }
}

impl<R: Runtime> Runtime for CostedRuntime<R> {
    open spec fn wf(&self) -> bool {
        self.inner.wf() && affordable(self.hourly_microusd, self.created_unix, self.now_unix)
    }

    open spec fn shown(&self) -> SnapshotModel {
        costed(
            self.inner.shown(),
            cost_of(self.hourly_microusd, self.created_unix, self.now_unix),
            self.tokens@,
        )
    }

    open spec fn takes(&self, cmd: CommandModel, next: &CostedRuntime<R>) -> bool {
        &&& self.inner.takes(cmd, &next.inner)
        &&& *next == (CostedRuntime { inner: next.inner, ..*self })
    }

    fn snapshot(&self) -> (s: Snapshot) {
        let mut snap = self.inner.snapshot();
        let ghost before = snap.deep_view();
        let elapsed_secs: u64 = if self.now_unix >= self.created_unix {
            self.now_unix - self.created_unix
        } else {
            0
        };
        snap.cost = Some(
            CostView {
                hourly_microusd: self.hourly_microusd,
                accrued_microusd: self.hourly_microusd * elapsed_secs / 3600,
                elapsed_secs,
            },
        );
        let ghost held = snap.members@;
        let mut i: usize = 0;
        while i < snap.members.len()
            invariant
                i <= snap.members@.len(),
                snap.members@.len() == held.len(),
                snap == (Snapshot { members: snap.members, ..snap }),
                held.len() == before.members.len(),
                forall|j: int| 0 <= j < held.len() ==> (#[trigger] held[j]).deep_view() == before.members[j],
                forall|j: int|
                    0 <= j < i ==> (#[trigger] snap.members@[j]).deep_view() == with_token(
                        before.members[j],
                        self.tokens@,
                    ),
                forall|j: int| i <= j < held.len() ==> #[trigger] snap.members@[j] == held[j],
                (Snapshot { members: snap.members, ..snap }).deep_view() == (SnapshotModel {
                    members: snap.members.deep_view(),
                    cost: Some(cost_of(self.hourly_microusd, self.created_unix, self.now_unix)),
                    ..before
                }),
            decreases snap.members.len() - i,
        {
            if snap.members[i].token.is_none() {
                let id: u16 = snap.members[i].id.0;
                snap.members[i].token = match self.tokens.get(&id) {
                    Some(token) => Some(*token),
                    None => None,
                };
            }
            i += 1;
        }
        assert(snap.deep_view() =~= self.shown());
        snap
    }

    fn send(&mut self, cmd: Command) {
        self.inner.send(cmd);
    }

    /// Neither the meter nor the tokens can change the connection state.
    fn conn_state(&self) -> (state: ConnState) {
        self.inner.conn_state()
    }
}

/// The meter shows the rate for as long as the machine has been up, and never
/// runs backward while the clock does not.
pub proof fn the_meter_never_runs_backward(
    hourly_microusd: u64,
    created_unix: u64,
    earlier: u64,
    later: u64,
)
    requires
        earlier <= later,
        affordable(hourly_microusd, created_unix, earlier),
        affordable(hourly_microusd, created_unix, later),
    ensures
        cost_of(hourly_microusd, created_unix, earlier).accrued_microusd <= cost_of(
            hourly_microusd,
            created_unix,
            later,
        ).accrued_microusd,
        cost_of(hourly_microusd, created_unix, created_unix).accrued_microusd == 0,
{
    let a = up_secs(created_unix, earlier);
    let b = up_secs(created_unix, later);
    assert(hourly_microusd * a <= hourly_microusd * b) by (nonlinear_arith)
        requires
            0 <= a <= b,
            hourly_microusd >= 0,
    ;
    assert(hourly_microusd * a >= 0) by (nonlinear_arith)
        requires
            a >= 0,
            hourly_microusd >= 0,
    ;
    assert(hourly_microusd * 0 == 0);
}

/// A seat that was minted into again is shown with its new token, so what the
/// host revokes is the credential that is live.
pub proof fn the_newest_token_is_shown(
    s: SnapshotModel,
    cost: CostView,
    tokens: Map<u16, TokenId>,
    i: int,
    token: TokenId,
)
    requires
        0 <= i < s.members.len(),
        s.members[i].token is None,
    ensures
        costed(s, cost, tokens.insert(s.members[i].id.0, token)).members[i].token == Some(token.0@),
{
}

/// The meter is the hourly rate over the seconds the machine has been up, cut
/// to whole millionths; a clock behind the machine's start reads as none.
pub proof fn the_meter_is_the_rate_over_the_time(
    hourly_microusd: u64,
    created_unix: u64,
    now_unix: u64,
)
    requires
        affordable(hourly_microusd, created_unix, now_unix),
    ensures
        ({
            let cost = cost_of(hourly_microusd, created_unix, now_unix);
            &&& cost.hourly_microusd == hourly_microusd
            &&& now_unix >= created_unix ==> cost.elapsed_secs == now_unix - created_unix
            &&& now_unix < created_unix ==> cost.elapsed_secs == 0
            &&& 3600 * cost.accrued_microusd <= hourly_microusd * cost.elapsed_secs < 3600 * (
            cost.accrued_microusd + 1)
        }),
{
    let total = hourly_microusd * up_secs(created_unix, now_unix);
    assert(total >= 0) by (nonlinear_arith)
        requires
            total == hourly_microusd * up_secs(created_unix, now_unix),
            hourly_microusd >= 0,
            up_secs(created_unix, now_unix) >= 0,
    ;
    assert(3600 * (total / 3600) <= total < 3600 * (total / 3600 + 1));
}

/// A host's view adds the cost and, on strips that carry none, the token of
/// their seat. Everything else is what the runtime underneath shows.
pub proof fn a_hosts_view_adds_cost_and_tokens<R: Runtime>(rt: CostedRuntime<R>, i: int)
    requires
        0 <= i < rt.inner.shown().members.len(),
    ensures
        ({
            let under = rt.inner.shown();
            let shown = rt.shown();
            let was = under.members[i];
            let strip = shown.members[i];
            &&& shown == (SnapshotModel {
                members: shown.members,
                cost: Some(cost_of(rt.hourly_microusd, rt.created_unix, rt.now_unix)),
                ..under
            })
            &&& shown.members.len() == under.members.len()
            &&& strip == (MemberModel { token: strip.token, ..was })
            &&& was.token is Some ==> strip.token == was.token
            &&& was.token is None && rt.tokens@.contains_key(was.id.0) ==> strip.token == Some(
                rt.tokens@[was.id.0].0@,
            )
            &&& was.token is None && !rt.tokens@.contains_key(was.id.0) ==> strip.token is None
        }),
{
}

/// A command goes to the runtime underneath, and neither the meter nor the
/// tokens change with it.
pub proof fn a_command_goes_underneath<R: Runtime>(
    rt: CostedRuntime<R>,
    cmd: CommandModel,
    next: CostedRuntime<R>,
)
    requires
        rt.takes(cmd, &next),
    ensures
        rt.inner.takes(cmd, &next.inner),
        next.hourly_microusd == rt.hourly_microusd,
        next.created_unix == rt.created_unix,
        next.now_unix == rt.now_unix,
        next.tokens == rt.tokens,
{
}

} // verus!
