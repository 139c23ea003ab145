use jamstream_client::live::offer::{HearSelfOffer, HEAR_SELF_OFFER_WINDOW};
use jamstream_client::live::TICK;
use jamstream_client::single::Single;

/// Measured mouth to ear across one region, which is a band that holds
/// together, and across the country on DSL, which is one that does not.
const REGION_MS: f32 = 24.3;
const CROSS_COUNTRY_MS: f32 = 69.8;
/// Ticks in the window the offer waits out.
const OFFER_TICKS: u64 = HEAR_SELF_OFFER_WINDOW / TICK;

fn ms(value: f32) -> Option<Single> {
    Some(Single {
        bits: value.to_bits(),
    })
}

/// One reading per tick, band playing, nobody hearing themselves yet.
fn offer_readings(figures: impl Iterator<Item = f32>) -> Vec<bool> {
    let mut offer = HearSelfOffer::default();
    figures
        .enumerate()
        .map(|(tick, value)| offer.observe(TICK * tick as u64, ms(value), false, true))
        .collect()
}

#[test]
fn a_session_that_holds_together_is_never_offered_anything() {
    let readings = offer_readings(std::iter::repeat_n(REGION_MS, OFFER_TICKS as usize * 3));
    assert!(
        readings.iter().all(|&on| !on),
        "a session reading {REGION_MS} ms must never be offered the other arrangement"
    );
}

#[test]
fn a_spike_over_the_threshold_offers_nothing() {
    // Most of the window over, then one reading under it, then the rest of
    // the window over again: two runs, neither of them whole.
    let spike = OFFER_TICKS - 10;
    let readings = offer_readings(
        std::iter::repeat_n(CROSS_COUNTRY_MS, spike as usize)
            .chain(std::iter::once(REGION_MS))
            .chain(std::iter::repeat_n(CROSS_COUNTRY_MS, spike as usize)),
    );
    assert!(
        readings.iter().all(|&on| !on),
        "two part windows are not one window"
    );
}

#[test]
fn a_session_far_enough_apart_is_offered_it_once_and_the_offer_stands() {
    let readings = offer_readings(std::iter::repeat_n(
        CROSS_COUNTRY_MS,
        OFFER_TICKS as usize * 2,
    ));
    let went_out = readings
        .iter()
        .position(|&on| on)
        .expect("a whole window over the threshold must put the offer out");
    assert_eq!(
        went_out, OFFER_TICKS as usize,
        "the offer waits out the window and no longer"
    );
    assert!(
        readings[went_out..].iter().all(|&on| on),
        "the offer stands once it is out"
    );
    assert_eq!(
        readings.windows(2).filter(|w| w[0] != w[1]).count(),
        1,
        "the offer goes out once, so the state changes once"
    );
}

#[test]
fn a_session_already_hearing_itself_is_offered_nothing() {
    let mut offer = HearSelfOffer::default();
    for tick in 0..OFFER_TICKS * 2 {
        assert!(
            !offer.observe(TICK * tick, ms(CROSS_COUNTRY_MS), true, true),
            "a session already hearing itself must stay quiet"
        );
    }

    // And the offer that is already out goes away when it is acted on,
    // rather than standing over a control that now reads the other way.
    let mut offer = HearSelfOffer::default();
    for tick in 0..=OFFER_TICKS {
        offer.observe(TICK * tick, ms(CROSS_COUNTRY_MS), false, true);
    }
    assert!(
        !offer.observe(TICK * (OFFER_TICKS + 1), ms(CROSS_COUNTRY_MS), true, true),
        "the offer must go once the control has been used"
    );
    assert!(
        !offer.observe(TICK * (OFFER_TICKS + 2), ms(CROSS_COUNTRY_MS), false, true),
        "and must not come back when it is turned off again"
    );
}

#[test]
fn a_musician_with_nobody_to_play_with_is_offered_nothing() {
    let mut offer = HearSelfOffer::default();
    for tick in 0..OFFER_TICKS * 2 {
        assert!(
            !offer.observe(TICK * tick, ms(CROSS_COUNTRY_MS), false, false),
            "nobody else is playing, so there is nothing to keep together with"
        );
    }
    let mut offer = HearSelfOffer::default();
    for tick in 0..OFFER_TICKS * 2 {
        assert!(
            !offer.observe(TICK * tick, None, false, true),
            "no round trip has been measured, which is no evidence"
        );
    }
}

#[test]
fn no_figure_at_all_is_no_evidence() {
    let readings = offer_readings(std::iter::repeat_n(f32::NAN, OFFER_TICKS as usize * 2));
    assert!(readings.iter().all(|&on| !on));
}
