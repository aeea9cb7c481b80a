//! The trigger state machine: decides which key events belong to the
//! trigger, which are forwarded, and when firing starts and stops.
use crate::device::{InputEvent, KEY_PRESS, KEY_RELEASE};
use vstd::prelude::*;

verus! {

/// Which keys trigger firing.
#[derive(Debug, Clone, Copy, PartialEq, Eq, Structural)]
pub enum TriggerMode {
    /// One key: its events are taken out of the stream, and firing lasts
    /// while it is held.
    Single { code: u16 },
    /// Two keys: the aim key is always forwarded; the fire key is forwarded
    /// only while aim is not held; firing lasts while both are held.
    Dual { aim: u16, fire: u16 },
}

/// Whether a key is held after an event with `value`: a release clears it,
/// a press sets it, and a repeat or any other value leaves it as it was.
pub open spec fn key_level(value: i32, held: bool) -> bool {
    if value == KEY_RELEASE {
        false
    } else if value == KEY_PRESS {
        true
    } else {
        held
    }
}

/// What a trigger state holds: the mode, whether the primary key (the single
/// trigger, or aim) is held, and whether the secondary key (fire) is held.
pub struct TriggerModel {
    pub mode: TriggerMode,
    pub primary: bool,
    pub secondary: bool,
}

impl TriggerModel {
    /// Whether synthetic clicks should be produced.
    pub open spec fn firing(self) -> bool {
        match self.mode {
            TriggerMode::Single { .. } => self.primary,
            TriggerMode::Dual { .. } => self.primary && self.secondary,
        }
    }

    /// Whether `e` is passed on to the virtual device.
    pub open spec fn forwards(self, e: InputEvent) -> bool {
        match e {
            InputEvent::Key { code, .. } => match self.mode {
                TriggerMode::Single { code: t } => code != t,
                TriggerMode::Dual { aim, fire } => code == aim || code != fire || !self.primary,
            },
            _ => true,
        }
    }

    /// The state after `e`.
    pub open spec fn next(self, e: InputEvent) -> TriggerModel {
        match e {
            InputEvent::Key { code, value } => match self.mode {
                TriggerMode::Single { code: t } => if code == t {
                    TriggerModel { primary: key_level(value, self.primary), ..self }
                } else {
                    self
                },
                TriggerMode::Dual { aim, fire } => if code == aim {
                    TriggerModel { primary: key_level(value, self.primary), ..self }
                } else if code == fire {
                    TriggerModel { secondary: key_level(value, self.secondary), ..self }
                } else {
                    self
                },
            },
            _ => self,
        }
    }
}

/// What the trigger machine decided for one event.
#[derive(Debug, Clone, Copy, PartialEq, Eq, Structural)]
pub struct Classified {
    /// Pass the event on.
    pub forward: bool,
    /// Firing stopped on this event: any click in flight must be released
    /// and the fatigue and burst state cleared.
    pub stopped: bool,
}

pub struct TriggerState {
    mode: TriggerMode,
    primary_held: bool,
    secondary_held: bool,
}

impl View for TriggerState {
    type V = TriggerModel;

    closed spec fn view(&self) -> TriggerModel {
        TriggerModel { mode: self.mode, primary: self.primary_held, secondary: self.secondary_held }
    }
}

impl TriggerState {
    /// A trigger with no key held.
    pub fn new(mode: TriggerMode) -> (r: Self)
        ensures
            r@ == (TriggerModel { mode, primary: false, secondary: false }),
    {
        TriggerState { mode, primary_held: false, secondary_held: false }
    }

    pub fn is_firing(&self) -> (r: bool)
        ensures
            r == self@.firing(),
    {
        match self.mode {
            TriggerMode::Single { .. } => self.primary_held,
            TriggerMode::Dual { .. } => self.primary_held && self.secondary_held,
        }
    }

    /// Feeds one event from the physical device.
    pub fn handle(&mut self, e: &InputEvent) -> (r: Classified)
        ensures
            final(self)@ == old(self)@.next(*e),
            r.forward == old(self)@.forwards(*e),
            r.stopped == (old(self)@.firing() && !final(self)@.firing()),
    {
        let was_firing = self.is_firing();
        let forward = match *e {
            InputEvent::Key { code, value } => match self.mode {
                TriggerMode::Single { code: t } => {
                    if code == t {
                        self.primary_held = level(value, self.primary_held);
                        false
                    } else {
                        true
                    }
                },
                TriggerMode::Dual { aim, fire } => {
                    if code == aim {
                        self.primary_held = level(value, self.primary_held);
                        true
                    } else if code == fire {
                        let forward = !self.primary_held;
                        self.secondary_held = level(value, self.secondary_held);
                        forward
                    } else {
                        true
                    }
                },
            },
            _ => true,
        };
        let firing = self.is_firing();
        Classified { forward, stopped: was_firing && !firing }
    }
}

fn level(value: i32, held: bool) -> (r: bool)
    ensures
        r == key_level(value, held),
{
    if value == KEY_RELEASE {
        false
    } else if value == KEY_PRESS {
        true
    } else {
        held
    }
}

/// Dual-trigger mode: firing holds exactly when both keys are held; an
/// edge of the aim key is always forwarded; an edge of the fire key is
/// forwarded exactly when aim is not held; releasing either key while
/// firing stops firing.
pub proof fn lemma_dual_trigger(s: TriggerModel, e: InputEvent)
    requires
        s.mode is Dual,
    ensures
        s.firing() == (s.primary && s.secondary),
        e matches InputEvent::Key { code, .. } && code == s.mode->aim ==> s.forwards(e),
        e matches InputEvent::Key { code, .. } && code == s.mode->fire && code != s.mode->aim
            ==> s.forwards(e) == !s.primary,
        s.firing() ==> (e matches InputEvent::Key { code, value } && value == KEY_RELEASE && (
        code == s.mode->aim || code == s.mode->fire) ==> !s.next(e).firing()),
{
}

/// Whether the key `code` is held after `events`, starting from `held`:
/// the value of the last event of that key that was a press or a release.
pub open spec fn key_held_after(code: u16, held: bool, events: Seq<InputEvent>) -> bool
    decreases events.len(),
{
    if events.len() == 0 {
        held
    } else {
        let h = match events[0] {
            InputEvent::Key { code: c, value } => if c == code {
                key_level(value, held)
            } else {
                held
            },
            _ => held,
        };
        key_held_after(code, h, events.drop_first())
    }
}

impl TriggerModel {
    /// The state after `events`, in order.
    pub open spec fn after(self, events: Seq<InputEvent>) -> TriggerModel
        decreases events.len(),
    {
        if events.len() == 0 {
            self
        } else {
            self.next(events[0]).after(events.drop_first())
        }
    }
}

/// Dual-trigger mode with two distinct keys, over any run of events: aim
/// (fire) is held exactly when the last press or release of the aim (fire)
/// key was a press, and firing holds exactly when both are held.
pub proof fn lemma_dual_trigger_history(s: TriggerModel, events: Seq<InputEvent>)
    requires
        s.mode is Dual,
        s.mode->aim != s.mode->fire,
    ensures
        s.after(events).mode == s.mode,
        s.after(events).primary == key_held_after(s.mode->aim, s.primary, events),
        s.after(events).secondary == key_held_after(s.mode->fire, s.secondary, events),
        s.after(events).firing() == (key_held_after(s.mode->aim, s.primary, events)
            && key_held_after(s.mode->fire, s.secondary, events)),
    decreases events.len(),
{
    if events.len() > 0 {
        lemma_dual_trigger_history(s.next(events[0]), events.drop_first());
    }
}

} // verus!
