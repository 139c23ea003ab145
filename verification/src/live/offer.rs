//! When hearing yourself through the server is worth offering.

use vstd::prelude::*;

use crate::live::{elapsed, since, Nanos, SECOND};
use crate::single::Single;

verus! {

/// Mouth to ear at which hearing yourself through the server is worth
/// offering: 30 ms, where a band stops holding together by ear. The pattern of
/// 30.0 in single precision.
pub const HEAR_SELF_OFFER_MS_BITS: u32 = 0x41f0_0000;
/// How long the figure holds above the threshold before the offer goes out. Of
/// the terms in the figure only the jitter buffer's depth moves on its own, and
/// it walks its whole range back down in under a second, so ten seconds is an
/// order of magnitude clear of anything the buffer can do.
pub const HEAR_SELF_OFFER_WINDOW: u64 = 10 * SECOND;

/// Where the offer stands for the rest of the session.
#[derive(Debug, Clone, Copy, PartialEq, Eq, Structural)]
pub enum Offer {
    /// Watching the figure, nothing said.
    Watching,
    /// On the Audio tab, and staying there.
    Standing,
    /// The control has been used, so there is nothing left to offer.
    Settled,
}

/// Whether this session has been far enough apart, for long enough, that
/// hearing yourself through the server is worth offering. A reading over the
/// threshold with somebody else playing starts a run and anything else ends
/// it, so a spike buys nothing; a run that holds [`HEAR_SELF_OFFER_WINDOW`]
/// puts the offer out, and it then stands, because the person it is for is
/// holding an instrument and looks up when they look up.
///
/// Whoever has used the control has met the question and is never asked again.
#[derive(Debug, Clone, Copy, PartialEq, Eq, Structural)]
pub struct HearSelfOffer {
    /// When the run now building started; `None` between runs.
    pub since: Option<Nanos>,
    pub state: Offer,
}

impl Default for HearSelfOffer {
    fn default() -> (o: HearSelfOffer)
        ensures
            o == (HearSelfOffer { since: None, state: Offer::Watching }),
    {
        HearSelfOffer { since: None, state: Offer::Watching }
    }
}

/// Somebody else is playing, and the latency figure is over the threshold. No
/// figure is no evidence rather than good news.
pub open spec fn apart(mouth_to_ear_ms: Option<Single>, playing_with_others: bool) -> bool {
    playing_with_others && (mouth_to_ear_ms matches Some(ms) && ms.exceeds(
        Single { bits: HEAR_SELF_OFFER_MS_BITS },
    ))
}

impl HearSelfOffer {
    /// The offer after one tick.
    pub open spec fn after(
        self,
        now: Nanos,
        mouth_to_ear_ms: Option<Single>,
        hear_self: bool,
        playing_with_others: bool,
    ) -> HearSelfOffer {
        if hear_self || self.state is Settled {
            HearSelfOffer { since: None, state: Offer::Settled }
        } else if self.state is Standing {
            self
        } else if !apart(mouth_to_ear_ms, playing_with_others) {
            HearSelfOffer { since: None, state: Offer::Watching }
        } else {
            let from = match self.since {
                Some(from) => from,
                None => now,
            };
            HearSelfOffer {
                since: Some(from),
                state: if elapsed(now, from) >= HEAR_SELF_OFFER_WINDOW {
                    Offer::Standing
                } else {
                    Offer::Watching
                },
            }
        }
    }

    /// Whether the offer stands as of this tick.
    pub fn observe(
        &mut self,
        now: Nanos,
        mouth_to_ear_ms: Option<Single>,
        hear_self: bool,
        playing_with_others: bool,
    ) -> (stands: bool)
        ensures
            *final(self) == old(self).after(now, mouth_to_ear_ms, hear_self, playing_with_others),
            stands == (final(self).state is Standing),
    {
        if hear_self {
            self.state = Offer::Settled;
        }
        match self.state {
            Offer::Settled => {
                self.since = None;
                false
            },
            Offer::Standing => true,
            Offer::Watching => {
                let far = match mouth_to_ear_ms {
                    Some(ms) => ms.over(Single { bits: HEAR_SELF_OFFER_MS_BITS }),
                    None => false,
                };
                if !playing_with_others || !far {
                    self.since = None;
                    return false;
                }
                let from: u64 = match self.since {
                    Some(from) => from,
                    None => now,
                };
                self.since = Some(from);
                if since(now, from) >= HEAR_SELF_OFFER_WINDOW {
                    self.state = Offer::Standing;
                    true
                } else {
                    false
                }
            },
        }
    }
}

/// One tick of what [`HearSelfOffer`] is handed.
pub struct OfferTick {
    pub now: Nanos,
    pub mouth_to_ear_ms: Option<Single>,
    pub hear_self: bool,
    pub playing_with_others: bool,
}

/// The offer after a run of ticks.
pub open spec fn offer_run(o: HearSelfOffer, ticks: Seq<OfferTick>) -> HearSelfOffer
    decreases ticks.len(),
{
    if ticks.len() == 0 {
        o
    } else {
        let t = ticks.last();
        offer_run(o, ticks.drop_last()).after(
            t.now,
            t.mouth_to_ear_ms,
            t.hear_self,
            t.playing_with_others,
        )
    }
}

/// Whoever has used the control is never offered it again, whatever the
/// latency does afterwards.
pub proof fn a_settled_offer_stays_settled(o: HearSelfOffer, ticks: Seq<OfferTick>)
    requires
        o.state is Settled,
    ensures
        offer_run(o, ticks).state is Settled,
    decreases ticks.len(),
{
    if ticks.len() > 0 {
        a_settled_offer_stays_settled(o, ticks.drop_last());
    }
}

/// An offer that is out stands for as long as the control is not used, however
/// good the latency becomes.
pub proof fn an_offer_that_is_out_stands(o: HearSelfOffer, ticks: Seq<OfferTick>)
    requires
        o.state is Standing,
        forall|i: int| 0 <= i < ticks.len() ==> !(#[trigger] ticks[i]).hear_self,
    ensures
        offer_run(o, ticks).state is Standing,
    decreases ticks.len(),
{
    if ticks.len() > 0 {
        let head = ticks.drop_last();
        assert forall|i: int| 0 <= i < head.len() implies !(#[trigger] head[i]).hear_self by {
            assert(head[i] == ticks[i]);
        }
        an_offer_that_is_out_stands(o, head);
        assert(!ticks[ticks.len() - 1].hear_self);
    }
}

/// A spike buys nothing: one tick that is not apart starts the wait over.
pub proof fn a_tick_together_starts_the_wait_over(
    o: HearSelfOffer,
    now: Nanos,
    mouth_to_ear_ms: Option<Single>,
    playing_with_others: bool,
)
    requires
        o.state is Watching,
        !apart(mouth_to_ear_ms, playing_with_others),
    ensures
        o.after(now, mouth_to_ear_ms, false, playing_with_others) == (HearSelfOffer {
            since: None,
            state: Offer::Watching,
        }),
{
}

/// Whether a tick finds somebody else playing at more than 30 ms from mouth to
/// ear, with the control not in use.
pub open spec fn far_apart(t: OfferTick) -> bool {
    t.playing_with_others && !t.hear_self && t.mouth_to_ear_ms is Some
        && t.mouth_to_ear_ms->0.exceeds(Single { bits: 0x41f0_0000 })
}

/// The offer goes out once a run of ticks far apart has lasted ten seconds,
/// counted from the first of them, and not before.
pub proof fn the_offer_goes_out_after_ten_seconds_apart(o: HearSelfOffer, ticks: Seq<OfferTick>)
    requires
        o.state is Watching,
        o.since is None,
        forall|i: int| 0 <= i < ticks.len() ==> far_apart(#[trigger] ticks[i]),
    ensures
        offer_run(o, ticks).state is Standing <==> exists|i: int|
            0 <= i < ticks.len() && elapsed((#[trigger] ticks[i]).now, ticks[0].now)
                >= 10_000_000_000,
        !(offer_run(o, ticks).state is Settled),
        ticks.len() > 0 ==> offer_run(o, ticks).since == Some(ticks[0].now),
    decreases ticks.len(),
{
    if ticks.len() > 0 {
        let head = ticks.drop_last();
        assert forall|i: int| 0 <= i < head.len() implies far_apart(#[trigger] head[i]) by {
            assert(head[i] == ticks[i]);
        }
        the_offer_goes_out_after_ten_seconds_apart(o, head);
        let last = ticks.len() - 1;
        assert(far_apart(ticks[last]));
        if head.len() > 0 {
            assert(head[0] == ticks[0]);
        }
        if offer_run(o, head).state is Standing {
            let i = choose|i: int|
                0 <= i < head.len() && elapsed((#[trigger] head[i]).now, head[0].now)
                    >= 10_000_000_000;
            assert(ticks[i] == head[i]);
        } else if offer_run(o, ticks).state is Standing {
            assert(elapsed(ticks[last].now, ticks[0].now) >= 10_000_000_000);
        } else {
            assert forall|i: int| 0 <= i < ticks.len() implies elapsed(
                (#[trigger] ticks[i]).now,
                ticks[0].now,
            ) < 10_000_000_000 by {
                if i < head.len() {
                    assert(head[i] == ticks[i]);
                }
            }
        }
    }
}

/// Nobody playing alone, at thirty milliseconds or less, or without a figure is
/// ever offered anything; using the control settles the question at once.
pub proof fn nothing_is_offered_to_those_who_are_not_apart(o: HearSelfOffer, t: OfferTick)
    ensures
        ({
            let next = o.after(t.now, t.mouth_to_ear_ms, t.hear_self, t.playing_with_others);
            &&& t.hear_self ==> next.state is Settled
            &&& next.state is Settled ==> t.hear_self || o.state is Settled
            &&& !(o.state is Standing) && next.state is Standing ==> t.playing_with_others
                && t.mouth_to_ear_ms is Some && t.mouth_to_ear_ms->0.exceeds(
                Single { bits: 0x41f0_0000 },
            ) && o.since is Some
        }),
{
}

} // verus!
