//! How statuses start, stack, age and hurt.
use vstd::prelude::*;
use crate::model::{Event, StatusKind, StatusTurns, Vitals};

verus! {

/// Turns of poison added by each application.
pub const POISON_TURNS: usize = 18;

/// Turns of burn added by each application.
pub const BURN_TURNS: usize = 8;

/// Turns of falter set when it starts.
pub const FALTER_TURNS: usize = 2;

/// Turns of blackout set when it starts.
pub const BLACKOUT_TURNS: usize = 2;

/// Turns of frost set when it starts.
pub const FROST_TURNS: usize = 2;

/// Turns of feather added by each application.
pub const FEATHER_TURNS: usize = 5;

/// The guard shared by Falter and Frozen: not faltering and a negative frost
/// counter. The frost counter is unsigned, so this guard never opens and
/// neither status can be inflicted; the condition is kept as the game's
/// rules state it.
pub open spec fn falter_frost_gate(t: StatusTurns) -> bool {
    t.falter < 1 && t.frost < 0
}

/// The note for a status that is new or prolonged.
pub open spec fn start_or_prolong(active: usize, kind: StatusKind) -> Option<Event> {
    if active < 1 {
        Some(Event::Afflicted(kind))
    } else {
        Some(Event::Prolonged(kind))
    }
}

/// The timers after `kind` is applied to a combatant with timers `t`.
/// Poison, burn and feather stack (their duration is added, stopping at the
/// largest counter); blackout starts only when inactive; falter and frost
/// start only when the shared guard opens.
pub open spec fn applied(t: StatusTurns, kind: StatusKind) -> StatusTurns {
    match kind {
        StatusKind::Poisoned => StatusTurns { poisoned: t.poisoned.saturating_add(POISON_TURNS), ..t },
        StatusKind::Burned => StatusTurns { burned: t.burned.saturating_add(BURN_TURNS), ..t },
        StatusKind::Falter => if falter_frost_gate(t) {
            StatusTurns { falter: FALTER_TURNS, ..t }
        } else {
            t
        },
        StatusKind::BlackOut => if t.blackout < 1 {
            StatusTurns { blackout: BLACKOUT_TURNS, ..t }
        } else {
            t
        },
        StatusKind::Frozen => if falter_frost_gate(t) {
            StatusTurns { frost: FROST_TURNS, ..t }
        } else {
            t
        },
        StatusKind::Feather => StatusTurns { feather: t.feather.saturating_add(FEATHER_TURNS), ..t },
    }
}

/// The narration of applying `kind` to a combatant with timers `t`, if any.
pub open spec fn application_note(t: StatusTurns, kind: StatusKind) -> Option<Event> {
    match kind {
        StatusKind::Poisoned => start_or_prolong(t.poisoned, kind),
        StatusKind::Burned => start_or_prolong(t.burned, kind),
        StatusKind::Falter => if falter_frost_gate(t) { Some(Event::Afflicted(kind)) } else { None },
        StatusKind::BlackOut => if t.blackout < 1 { Some(Event::Afflicted(kind)) } else { None },
        StatusKind::Frozen => if falter_frost_gate(t) { Some(Event::Afflicted(kind)) } else { None },
        StatusKind::Feather => start_or_prolong(t.feather, kind),
    }
}

/// One less turn, unless already zero.
pub open spec fn tick_down(n: usize) -> usize {
    if n > 0 { (n - 1) as usize } else { 0 }
}

impl StatusTurns {
    /// The timers after the owner starts its turn: poison, burn, falter and
    /// blackout each lose one turn if active; frost and feather do not age.
    pub open spec fn aged(self) -> StatusTurns {
        StatusTurns {
            poisoned: tick_down(self.poisoned),
            burned: tick_down(self.burned),
            falter: tick_down(self.falter),
            blackout: tick_down(self.blackout),
            ..self
        }
    }

    /// Applies `kind` and returns the narration of it, if any.
    #[allow(unused_comparisons)]
    pub fn apply(&mut self, kind: StatusKind) -> (note: Option<Event>)
        ensures
            *final(self) == applied(*old(self), kind),
            note == application_note(*old(self), kind),
    {
        match kind {
            StatusKind::Poisoned => {
                let note = if self.poisoned < 1 { Event::Afflicted(kind) } else { Event::Prolonged(kind) };
                self.poisoned = self.poisoned.saturating_add(POISON_TURNS);
                Some(note)
            },
            StatusKind::Burned => {
                let note = if self.burned < 1 { Event::Afflicted(kind) } else { Event::Prolonged(kind) };
                self.burned = self.burned.saturating_add(BURN_TURNS);
                Some(note)
            },
            StatusKind::Falter => {
                if self.falter < 1 && self.frost < 0 {
                    self.falter = FALTER_TURNS;
                    Some(Event::Afflicted(kind))
                } else {
                    None
                }
            },
            StatusKind::BlackOut => {
                if self.blackout < 1 {
                    self.blackout = BLACKOUT_TURNS;
                    Some(Event::Afflicted(kind))
                } else {
                    None
                }
            },
            StatusKind::Frozen => {
                if self.falter < 1 && self.frost < 0 {
                    self.frost = FROST_TURNS;
                    Some(Event::Afflicted(kind))
                } else {
                    None
                }
            },
            StatusKind::Feather => {
                let note = if self.feather < 1 { Event::Afflicted(kind) } else { Event::Prolonged(kind) };
                self.feather = self.feather.saturating_add(FEATHER_TURNS);
                Some(note)
            },
        }
    }

    /// Ages the timers at the start of the owner's turn.
    pub fn age(&mut self)
        ensures
            *final(self) == old(self).aged(),
    {
        if self.poisoned > 0 {
            self.poisoned = self.poisoned - 1;
        }
        if self.burned > 0 {
            self.burned = self.burned - 1;
        }
        if self.falter > 0 {
            self.falter = self.falter - 1;
        }
        if self.blackout > 0 {
            self.blackout = self.blackout - 1;
        }
    }
}

impl Vitals {
    /// Damage of one poison tick: a sixteenth of the maximum hit points.
    pub open spec fn poison_tick(self) -> int {
        self.hp_max as int / 16
    }

    /// Damage of one burn tick: an eighth of the maximum hit points.
    pub open spec fn burn_tick(self) -> int {
        self.hp_max as int / 8
    }

    /// The state after the owner's action: a poison tick if poisoned, then a
    /// burn tick if burned.
    pub open spec fn after_turn(self) -> Vitals {
        let p = if self.turns.poisoned > 0 {
            Vitals { hp: self.hp_after_loss(self.poison_tick()), ..self }
        } else {
            self
        };
        if p.turns.burned > 0 {
            Vitals { hp: p.hp_after_loss(p.burn_tick()), ..p }
        } else {
            p
        }
    }

    /// Status aging at the start of the owner's turn.
    pub fn effect_before_skill(&mut self)
        ensures
            *final(self) == (Vitals { turns: old(self).turns.aged(), ..*old(self) }),
    {
        self.turns.age();
    }

    /// Status damage at the end of the owner's turn.
    pub fn effect_after_skill(&mut self)
        ensures
            *final(self) == old(self).after_turn(),
    {
        let hp_max = self.hp_max;
        if self.turns.poisoned > 0 {
            self.hp_decrease((hp_max / 16) as u128);
        }
        if self.turns.burned > 0 {
            self.hp_decrease((hp_max / 8) as u128);
        }
    }
}

} // verus!
