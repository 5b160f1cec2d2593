//! One turn of the console loop: what it does with whatever woke it.

use vstd::prelude::*;
use crate::console::{event_effect, event_input, event_scroll, effect_view, Console, Effect, EffectView, UiEvent};
use crate::shutdown::{signals_after, Signals};

verus! {

/// What ended a wait of the console loop.
#[derive(Debug, Clone, PartialEq, Eq)]
pub enum Wake {
    /// An event from the input poller.
    Input(UiEvent),
    /// The input poller is gone.
    Closed,
    /// New output is to be shown.
    Redraw,
}

/// Handles one wake-up. Carries out on `signals` the cancellation it calls
/// for, and returns the effect the loop has to carry out outside: the
/// cancellation to pass on, or the command to echo and dispatch. The loop
/// goes on while `signals.running()`.
pub fn on_wake(console: &mut Console, wake: &Wake, signals: &mut Signals) -> (e: Effect)
    requires
        old(console).wf(),
    ensures
        final(console).wf(),
        match *wake {
            Wake::Input(ev) => {
                &&& effect_view(e) == event_effect(old(console).input_view()@.0, ev, old(signals).server)
                &&& final(console).input_view()@ == event_input(old(console).input_view()@, ev)
                &&& final(console).scroll_view() == event_scroll(old(console).scroll_view(), ev)
                &&& *final(signals) == signals_after(*old(signals), effect_view(e))
            },
            Wake::Closed => {
                &&& e == Effect::CancelApp
                &&& final(console).input_view() == old(console).input_view()
                &&& final(console).scroll_view() == old(console).scroll_view()
                &&& *final(signals) == signals_after(*old(signals), EffectView::CancelApp)
            },
            Wake::Redraw => {
                &&& e == Effect::Nothing
                &&& final(console).input_view() == old(console).input_view()
                &&& final(console).scroll_view() == old(console).scroll_view()
                &&& *final(signals) == *old(signals)
            },
        },
{
    match wake {
        Wake::Input(ev) => {
            let e = console.handle_event(ev, signals.server);
            signals.apply(&e);
            e
        },
        Wake::Closed => {
            let e = Effect::CancelApp;
            signals.apply(&e);
            e
        },
        Wake::Redraw => Effect::Nothing,
    }
}

} // verus!
