//! The application controller: the orchestrator that turns slider-change
//! events and bridged control events into state transitions and platform
//! effects.
//!
//! The controller owns the current intensity level (the sole user-facing
//! control value, shown by the slider), the overlay controller's state, and
//! a running flag. Brightness and alpha commands are derived from the level
//! on every slider event and never stored. On every slider event the
//! hardware brightness effect comes before the overlay alpha effect.
//! Bridged show/hide requests flip the overlay's visibility; a bridged quit
//! request reaches the terminal state, after which nothing is processed any
//! more and the platform layer exits the process.

use vstd::prelude::*;
use crate::bridge::BridgeAction;
use crate::mapper::map_intensity;
use crate::mapper::spec_alpha;
use crate::mapper::spec_brightness;
use crate::mapper::spec_clamp_level;
use crate::overlay::OverlayAction;
use crate::overlay::OverlayState;

verus! {

/// An event handled by the UI's own event loop.
#[derive(Clone, Copy, Debug, PartialEq, Eq, Structural)]
pub enum Message {
    /// The slider moved to the given intensity level.
    SliderChanged(u8),
    /// A bridged request to flip the overlay's visibility.
    ToggleVisibility,
}

/// A platform effect the event loop must perform after a transition.
#[derive(Clone, Copy, Debug, PartialEq, Eq, Structural)]
pub enum Effect {
    /// Dispatch this brightness command to every attached display.
    ApplyBrightness(u8),
    /// Perform this mutation on the overlay surface.
    Overlay(OverlayAction),
}

/// What the UI must render on every redraw: a label, and the slider's
/// current position within its bounds.
#[derive(Clone, Copy, Debug)]
pub struct ViewModel {
    pub label: &'static str,
    pub level: u8,
    pub min: u8,
    pub max: u8,
}

/// The UI thread's whole mutable state: the current intensity level, the
/// overlay controller's state, and whether the application is still
/// running. All of it is owned by the single event loop; no two
/// transitions ever run concurrently.
#[derive(Clone, Copy, Debug, PartialEq, Eq, Structural)]
pub struct Controller {
    pub level: u8,
    pub overlay: OverlayState,
    pub running: bool,
}

/// The transition a live controller makes for one UI event: a slider
/// change stores the clamped level and re-derives the overlay's alpha,
/// leaving visibility alone; a visibility toggle flips the overlay,
/// leaving level and alpha alone.
pub open spec fn spec_msg_transition(c: Controller, msg: Message) -> Controller {
    match msg {
        Message::SliderChanged(v) => Controller {
            level: spec_clamp_level(v as int) as u8,
            overlay: OverlayState {
                alpha: spec_alpha(spec_clamp_level(v as int)) as u8,
                ..c.overlay
            },
            ..c
        },
        Message::ToggleVisibility => Controller {
            overlay: OverlayState { visible: !c.overlay.visible, ..c.overlay },
            ..c
        },
    }
}

/// Alpha/visibility independence at the controller: a slider change and a
/// visibility toggle yield the same final state in either order, since the
/// toggle never changes the alpha and the slider never changes visibility.
pub proof fn lemma_slider_toggle_commute(c: Controller, v: u8)
    ensures
        spec_msg_transition(
            spec_msg_transition(c, Message::SliderChanged(v)),
            Message::ToggleVisibility,
        ) == spec_msg_transition(
            spec_msg_transition(c, Message::ToggleVisibility),
            Message::SliderChanged(v),
        ),
{
}

impl Controller {
    /// The intensity level is always within the slider's range.
    pub open spec fn wf(self) -> bool {
        self.level <= 100
    }

    /// The state at startup: the slider at its midpoint, the overlay fully
    /// transparent and hidden, the application running.
    pub fn new() -> (c: Self)
        ensures
            c.level == 50,
            c.overlay.alpha == 0,
            !c.overlay.visible,
            c.running,
            c.wf(),
    {
        Controller { level: 50, overlay: OverlayState::new(), running: true }
    }

    /// The application's window title.
    pub fn title(&self) -> (t: &'static str)
        ensures
            t@ == "LuxFlex"@,
    {
        "LuxFlex"
    }

    /// The view description owed on every redraw: the label and a slider
    /// over the full 0-100 range, bound to the current intensity level.
    pub fn view(&self) -> (v: ViewModel)
        ensures
            v.level == self.level,
            v.min == 0,
            v.max == 100,
            v.label@ == "Brightness/Dimness"@,
    {
        ViewModel { label: "Brightness/Dimness", level: self.level, min: 0, max: 100 }
    }

    /// One UI event. A slider change stores the (clamped) level and yields
    /// the mapper's brightness dispatch before its overlay opacity change;
    /// a visibility toggle flips the overlay and yields its show/hide
    /// action. Once the controller has terminated, nothing is processed
    /// any more.
    pub fn update(&mut self, msg: Message) -> (effects: Vec<Effect>)
        ensures
            final(self).running == old(self).running,
            old(self).wf() ==> final(self).wf(),
            !old(self).running ==> *final(self) == *old(self) && effects@ == Seq::<Effect>::empty(),
            old(self).running ==> *final(self) == spec_msg_transition(*old(self), msg),
            msg matches Message::SliderChanged(v) ==> old(self).running ==> {
                &&& final(self).level == spec_clamp_level(v as int)
                &&& final(self).overlay.alpha == spec_alpha(spec_clamp_level(v as int))
                &&& final(self).overlay.visible == old(self).overlay.visible
                &&& effects@.len() == 2
                &&& effects@[0] == Effect::ApplyBrightness(
                    spec_brightness(spec_clamp_level(v as int)) as u8,
                )
                &&& effects@[1] == Effect::Overlay(
                    OverlayAction::SetOpacity(final(self).overlay.alpha),
                )
            },
            msg is ToggleVisibility ==> old(self).running ==> {
                &&& final(self).overlay.visible == !old(self).overlay.visible
                &&& final(self).overlay.alpha == old(self).overlay.alpha
                &&& final(self).level == old(self).level
                &&& effects@.len() == 1
                &&& effects@[0] == Effect::Overlay(
                    if old(self).overlay.visible {
                        OverlayAction::Hide
                    } else {
                        OverlayAction::Show
                    },
                )
            },
    {
        let mut effects: Vec<Effect> = Vec::new();
        if !self.running {
            return effects;
        }
        match msg {
            Message::SliderChanged(v) => {
                let l: u8 = if v > 100 {
                    100
                } else {
                    v
                };
                self.level = l;
                let (b, a) = map_intensity(v);
                let act = self.overlay.set_alpha(a);
                effects.push(Effect::ApplyBrightness(b));
                effects.push(Effect::Overlay(act));
            }
            Message::ToggleVisibility => {
                let act = self.overlay.toggle_visibility();
                effects.push(Effect::Overlay(act));
            }
        }
        effects
    }

    /// One bridged action. A toggle request is handled like the UI event;
    /// a terminate request reaches the terminal state, which short-circuits
    /// all further processing; a stopped bridge changes nothing.
    pub fn on_bridge_action(&mut self, a: BridgeAction) -> (effects: Vec<Effect>)
        ensures
            old(self).wf() ==> final(self).wf(),
            !old(self).running ==> *final(self) == *old(self) && effects@ == Seq::<Effect>::empty(),
            old(self).running && a is ToggleVisibility ==> {
                &&& final(self).running
                &&& final(self).overlay.visible == !old(self).overlay.visible
                &&& final(self).overlay.alpha == old(self).overlay.alpha
                &&& final(self).level == old(self).level
                &&& effects@.len() == 1
                &&& effects@[0] == Effect::Overlay(
                    if old(self).overlay.visible {
                        OverlayAction::Hide
                    } else {
                        OverlayAction::Show
                    },
                )
            },
            old(self).running && a is Terminate ==> {
                &&& !final(self).running
                &&& final(self).overlay == old(self).overlay
                &&& final(self).level == old(self).level
                &&& effects@ == Seq::<Effect>::empty()
            },
            old(self).running && a is Stop ==> *final(self) == *old(self) && effects@ == Seq::<
                Effect,
            >::empty(),
    {
        match a {
            BridgeAction::ToggleVisibility => self.update(Message::ToggleVisibility),
            BridgeAction::Terminate => {
                if self.running {
                    self.running = false;
                }
                Vec::new()
            }
            BridgeAction::Stop => Vec::new(),
        }
    }
}

} // verus!
