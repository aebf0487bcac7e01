//! Contactor sequencer: the precharge sequence that connects the MPPT and the motor once the
//! safety loop is ready, and the postcharge sequence that disconnects them. Ticks come every
//! 250 ms.
use vstd::prelude::*;

use super::can::BoatState;
use super::safety::SafetyState;

verus! {

/// Ticks in two seconds.
pub const SHORT_DELAY_TICKS: u32 = 4 * 2;
/// Ticks in thirty seconds.
pub const LONG_DELAY_TICKS: u32 = 4 * 30;

#[derive(Debug, Clone, Copy, PartialEq, Eq, Structural)]
pub enum ContactorsState {
    Idle,
    WaitingForDmsTest,
    MpptInitialization,
    FuelCellInitialization,
    /// 1. precharge resistor
    MpptPrecharge1,
    /// 2. full power
    MpptPrecharge2,
    /// 1. precharge resistor
    MotorPrecharge1,
    /// 2. braking resistor
    MotorPrecharge2,
    /// 3. full power
    MotorPrecharge3,
    Ready,
    /// 1. precharge resistor
    MotorPostcharge1,
    /// 2. cut full power
    MotorPostcharge2,
    /// 3. braking resistor
    MotorPostcharge3,
    FuelCellShutdown,
    /// 1. precharge resistor
    MpptPostcharge1,
    /// 2. full power
    MpptPostcharge2,
    MpptShutdown,
}

/// Levels of the contactor driver outputs (`true` is high). The outputs whose name starts
/// with `n_` are active low.
#[derive(Debug, Clone, Copy, PartialEq, Eq, Structural)]
pub struct ContactorLevels {
    pub bop: bool,
    pub storage_battery: bool,
    pub mppt_stage_1: bool,
    pub mppt_stage_2: bool,
    pub n_motor_stage_1: bool,
    pub n_motor_stage_2: bool,
    pub n_braking_resistor: bool,
    pub n_auxiliary_battery: bool,
}

/// Every contactor open: the levels of the idle state.
pub open spec fn all_open() -> ContactorLevels {
    ContactorLevels {
        bop: false,
        storage_battery: false,
        mppt_stage_1: false,
        mppt_stage_2: false,
        n_motor_stage_1: true,
        n_motor_stage_2: true,
        n_braking_resistor: true,
        n_auxiliary_battery: true,
    }
}

/// The levels set on entering `target` from levels `l`.
pub open spec fn entry_levels(l: ContactorLevels, target: ContactorsState) -> ContactorLevels {
    match target {
        ContactorsState::Idle => all_open(),
        ContactorsState::WaitingForDmsTest => l,
        ContactorsState::MpptInitialization => ContactorLevels { n_auxiliary_battery: false, ..l },
        ContactorsState::FuelCellInitialization => ContactorLevels { bop: true, ..l },
        ContactorsState::MpptPrecharge1 => ContactorLevels {
            mppt_stage_1: true,
            storage_battery: true,
            ..l
        },
        ContactorsState::MpptPrecharge2 => ContactorLevels { mppt_stage_2: true, ..l },
        ContactorsState::MotorPrecharge1 => ContactorLevels { n_motor_stage_1: false, ..l },
        ContactorsState::MotorPrecharge2 => ContactorLevels { n_braking_resistor: false, ..l },
        ContactorsState::MotorPrecharge3 => ContactorLevels { n_motor_stage_2: false, ..l },
        ContactorsState::MotorPostcharge1 => ContactorLevels { n_motor_stage_1: false, ..l },
        ContactorsState::MotorPostcharge2 => ContactorLevels { n_motor_stage_2: true, ..l },
        ContactorsState::MotorPostcharge3 => ContactorLevels { n_braking_resistor: true, ..l },
        ContactorsState::FuelCellShutdown => ContactorLevels { bop: false, ..l },
        ContactorsState::MpptPostcharge1 => ContactorLevels { mppt_stage_1: true, ..l },
        ContactorsState::MpptPostcharge2 => ContactorLevels { mppt_stage_2: false, ..l },
        ContactorsState::MpptShutdown => ContactorLevels { n_auxiliary_battery: true, ..l },
        ContactorsState::Ready => l,
    }
}

/// The levels set when leaving `state` on a tick, before the next state is entered.
pub open spec fn exit_levels(state: ContactorsState, l: ContactorLevels) -> ContactorLevels {
    match state {
        ContactorsState::MpptPrecharge2 => ContactorLevels { mppt_stage_1: false, ..l },
        ContactorsState::MotorPrecharge3 => ContactorLevels { n_motor_stage_1: true, ..l },
        ContactorsState::MotorPostcharge3 => ContactorLevels { n_motor_stage_1: true, ..l },
        ContactorsState::MpptPostcharge2 => ContactorLevels {
            mppt_stage_1: false,
            storage_battery: false,
            ..l
        },
        _ => l,
    }
}

/// The state a tick moves to from `state`, when `ticks` ticks (this one included) have passed
/// in it and the safety state machine is in `safety`; `None` to stay.
pub open spec fn tick_transition(state: ContactorsState, ticks: u32, safety: Option<SafetyState>) -> Option<ContactorsState> {
    match state {
        ContactorsState::WaitingForDmsTest => if safety == Some(SafetyState::Ready) {
            Some(ContactorsState::MpptInitialization)
        } else {
            None
        },
        ContactorsState::MpptInitialization => if ticks >= SHORT_DELAY_TICKS {
            Some(ContactorsState::FuelCellInitialization)
        } else {
            None
        },
        ContactorsState::FuelCellInitialization => Some(ContactorsState::MpptPrecharge1),
        ContactorsState::MpptPrecharge1 => if ticks >= LONG_DELAY_TICKS {
            Some(ContactorsState::MpptPrecharge2)
        } else {
            None
        },
        ContactorsState::MpptPrecharge2 => if ticks >= SHORT_DELAY_TICKS {
            Some(ContactorsState::MotorPrecharge1)
        } else {
            None
        },
        ContactorsState::MotorPrecharge1 => if ticks >= LONG_DELAY_TICKS {
            Some(ContactorsState::MotorPrecharge2)
        } else {
            None
        },
        ContactorsState::MotorPrecharge2 => if ticks >= SHORT_DELAY_TICKS {
            Some(ContactorsState::MotorPrecharge3)
        } else {
            None
        },
        ContactorsState::MotorPrecharge3 => if ticks >= SHORT_DELAY_TICKS {
            Some(ContactorsState::Ready)
        } else {
            None
        },
        ContactorsState::MotorPostcharge1 => if ticks >= SHORT_DELAY_TICKS {
            Some(ContactorsState::MotorPostcharge2)
        } else {
            None
        },
        ContactorsState::MotorPostcharge2 => if ticks >= SHORT_DELAY_TICKS {
            Some(ContactorsState::MotorPostcharge3)
        } else {
            None
        },
        ContactorsState::MotorPostcharge3 => if ticks >= SHORT_DELAY_TICKS {
            Some(ContactorsState::FuelCellShutdown)
        } else {
            None
        },
        ContactorsState::FuelCellShutdown => Some(ContactorsState::MpptPostcharge1),
        ContactorsState::MpptPostcharge1 => if ticks >= SHORT_DELAY_TICKS {
            Some(ContactorsState::MpptPostcharge2)
        } else {
            None
        },
        ContactorsState::MpptPostcharge2 => if ticks >= SHORT_DELAY_TICKS {
            Some(ContactorsState::MpptShutdown)
        } else {
            None
        },
        ContactorsState::MpptShutdown => if ticks >= SHORT_DELAY_TICKS {
            Some(ContactorsState::Idle)
        } else {
            None
        },
        ContactorsState::Idle => None,
        ContactorsState::Ready => None,
    }
}

/// The sequencer: its state, the ticks spent in it, and the output levels.
#[derive(Debug, Clone, Copy, PartialEq, Eq, Structural)]
pub struct Contactors {
    pub state: ContactorsState,
    pub tick_count: u32,
    pub levels: ContactorLevels,
}

impl Contactors {
    /// The sequencer at start-up: idle, with the outputs at `levels`.
    pub fn new(levels: ContactorLevels) -> (r: Self)
        ensures
            r == (Contactors { state: ContactorsState::Idle, tick_count: 0, levels }),
    {
        Contactors { state: ContactorsState::Idle, tick_count: 0, levels }
    }

    fn enter_levels(l: ContactorLevels, target: ContactorsState) -> (r: ContactorLevels)
        ensures
            r == entry_levels(l, target),
    {
        match target {
            ContactorsState::Idle => ContactorLevels {
                bop: false,
                storage_battery: false,
                mppt_stage_1: false,
                mppt_stage_2: false,
                n_motor_stage_1: true,
                n_motor_stage_2: true,
                n_braking_resistor: true,
                n_auxiliary_battery: true,
            },
            ContactorsState::WaitingForDmsTest => l,
            ContactorsState::MpptInitialization => ContactorLevels { n_auxiliary_battery: false, ..l },
            ContactorsState::FuelCellInitialization => ContactorLevels { bop: true, ..l },
            ContactorsState::MpptPrecharge1 => ContactorLevels {
                mppt_stage_1: true,
                storage_battery: true,
                ..l
            },
            ContactorsState::MpptPrecharge2 => ContactorLevels { mppt_stage_2: true, ..l },
            ContactorsState::MotorPrecharge1 => ContactorLevels { n_motor_stage_1: false, ..l },
            ContactorsState::MotorPrecharge2 => ContactorLevels { n_braking_resistor: false, ..l },
            ContactorsState::MotorPrecharge3 => ContactorLevels { n_motor_stage_2: false, ..l },
            ContactorsState::MotorPostcharge1 => ContactorLevels { n_motor_stage_1: false, ..l },
            ContactorsState::MotorPostcharge2 => ContactorLevels { n_motor_stage_2: true, ..l },
            ContactorsState::MotorPostcharge3 => ContactorLevels { n_braking_resistor: true, ..l },
            ContactorsState::FuelCellShutdown => ContactorLevels { bop: false, ..l },
            ContactorsState::MpptPostcharge1 => ContactorLevels { mppt_stage_1: true, ..l },
            ContactorsState::MpptPostcharge2 => ContactorLevels { mppt_stage_2: false, ..l },
            ContactorsState::MpptShutdown => ContactorLevels { n_auxiliary_battery: true, ..l },
            ContactorsState::Ready => l,
        }
    }

    /// Enters `target`: sets its outputs and restarts the tick count.
    pub fn goto_state(&mut self, target: ContactorsState)
        ensures
            *final(self) == (Contactors {
                state: target,
                tick_count: 0,
                levels: entry_levels(old(self).levels, target),
            }),
    {
        self.levels = Self::enter_levels(self.levels, target);
        self.tick_count = 0;
        self.state = target;
    }

    /// A tick: counts it, and moves on when the current state's delay or condition is met.
    /// Returns the state entered, if any (to be announced). The tick count must not be at its
    /// maximum.
    pub fn state_tick(&mut self, safety: Option<SafetyState>) -> (entered: Option<ContactorsState>)
        requires
            old(self).tick_count < u32::MAX,
        ensures
            ({
                let ticks = (old(self).tick_count + 1) as u32;
                &&& entered == tick_transition(old(self).state, ticks, safety)
                &&& entered matches Some(t) ==> *final(self) == (Contactors {
                    state: t,
                    tick_count: 0,
                    levels: entry_levels(exit_levels(old(self).state, old(self).levels), t),
                })
                &&& entered is None ==> *final(self) == (Contactors { tick_count: ticks, ..*old(self) })
            }),
    {
        self.tick_count = self.tick_count + 1;
        let ticks = self.tick_count;
        let next: Option<ContactorsState> = match self.state {
            ContactorsState::WaitingForDmsTest => {
                if safety == Some(SafetyState::Ready) {
                    Some(ContactorsState::MpptInitialization)
                } else {
                    None
                }
            },
            ContactorsState::MpptInitialization => {
                if ticks >= SHORT_DELAY_TICKS {
                    Some(ContactorsState::FuelCellInitialization)
                } else {
                    None
                }
            },
            ContactorsState::FuelCellInitialization => Some(ContactorsState::MpptPrecharge1),
            ContactorsState::MpptPrecharge1 => {
                if ticks >= LONG_DELAY_TICKS {
                    Some(ContactorsState::MpptPrecharge2)
                } else {
                    None
                }
            },
            ContactorsState::MpptPrecharge2 => {
                if ticks >= SHORT_DELAY_TICKS {
                    self.levels.mppt_stage_1 = false;
                    Some(ContactorsState::MotorPrecharge1)
                } else {
                    None
                }
            },
            ContactorsState::MotorPrecharge1 => {
                if ticks >= LONG_DELAY_TICKS {
                    Some(ContactorsState::MotorPrecharge2)
                } else {
                    None
                }
            },
            ContactorsState::MotorPrecharge2 => {
                if ticks >= SHORT_DELAY_TICKS {
                    Some(ContactorsState::MotorPrecharge3)
                } else {
                    None
                }
            },
            ContactorsState::MotorPrecharge3 => {
                if ticks >= SHORT_DELAY_TICKS {
                    self.levels.n_motor_stage_1 = true;
                    Some(ContactorsState::Ready)
                } else {
                    None
                }
            },
            ContactorsState::MotorPostcharge1 => {
                if ticks >= SHORT_DELAY_TICKS {
                    Some(ContactorsState::MotorPostcharge2)
                } else {
                    None
                }
            },
            ContactorsState::MotorPostcharge2 => {
                if ticks >= SHORT_DELAY_TICKS {
                    Some(ContactorsState::MotorPostcharge3)
                } else {
                    None
                }
            },
            ContactorsState::MotorPostcharge3 => {
                if ticks >= SHORT_DELAY_TICKS {
                    self.levels.n_motor_stage_1 = true;
                    Some(ContactorsState::FuelCellShutdown)
                } else {
                    None
                }
            },
            ContactorsState::FuelCellShutdown => Some(ContactorsState::MpptPostcharge1),
            ContactorsState::MpptPostcharge1 => {
                if ticks >= SHORT_DELAY_TICKS {
                    Some(ContactorsState::MpptPostcharge2)
                } else {
                    None
                }
            },
            ContactorsState::MpptPostcharge2 => {
                if ticks >= SHORT_DELAY_TICKS {
                    self.levels.mppt_stage_1 = false;
                    self.levels.storage_battery = false;
                    Some(ContactorsState::MpptShutdown)
                } else {
                    None
                }
            },
            ContactorsState::MpptShutdown => {
                if ticks >= SHORT_DELAY_TICKS {
                    Some(ContactorsState::Idle)
                } else {
                    None
                }
            },
            ContactorsState::Idle => None,
            ContactorsState::Ready => None,
        };
        match next {
            Some(target) => {
                self.goto_state(target);
            },
            None => {},
        }
        next
    }

    /// A new boat state: a start-up while idle starts the sequence (waiting for the safety
    /// loop's test). Returns the state entered, if any.
    pub fn on_boat_state(&mut self, new_state: BoatState) -> (entered: Option<ContactorsState>)
        ensures
            new_state == BoatState::Startup && old(self).state == ContactorsState::Idle ==> {
                &&& entered == Some(ContactorsState::WaitingForDmsTest)
                &&& *final(self) == (Contactors {
                    state: ContactorsState::WaitingForDmsTest,
                    tick_count: 0,
                    levels: old(self).levels,
                })
            },
            !(new_state == BoatState::Startup && old(self).state == ContactorsState::Idle) ==> {
                &&& entered is None
                &&& *final(self) == *old(self)
            },
    {
        if new_state == BoatState::Startup && self.state == ContactorsState::Idle {
            self.goto_state(ContactorsState::WaitingForDmsTest);
            return Some(ContactorsState::WaitingForDmsTest);
        }
        None
    }
}

/// Entering the idle state opens every contactor, whatever the outputs were before.
pub proof fn lemma_idle_opens_everything(l: ContactorLevels)
    ensures
        entry_levels(l, ContactorsState::Idle) == all_open(),
{
}

/// Idle and Ready are resting states: no tick leaves them, however long the wait; the
/// sequence leaves Idle only on a start-up announcement.
pub proof fn lemma_resting_states(ticks: u32, safety: Option<SafetyState>)
    ensures
        tick_transition(ContactorsState::Idle, ticks, safety) is None,
        tick_transition(ContactorsState::Ready, ticks, safety) is None,
{
}

/// The motor is never precharged before the safety loop is ready: from the wait for the DMS
/// test, a tick moves on only when the safety state machine is Ready.
pub proof fn lemma_waits_for_safety(ticks: u32, safety: Option<SafetyState>)
    ensures
        tick_transition(ContactorsState::WaitingForDmsTest, ticks, safety) is Some <==> safety
            == Some(SafetyState::Ready),
{
}

/// The start-up sequence runs in its documented order and ends ready: once the safety loop is
/// ready, each state moves on to the next after its delay (MPPT initialisation, fuel cell,
/// MPPT precharge resistor then full power, motor precharge resistor, braking resistor, full
/// power), and no state moves on before its delay.
pub proof fn lemma_precharge_reaches_ready(safety: Option<SafetyState>, ticks: u32)
    ensures
        tick_transition(ContactorsState::WaitingForDmsTest, ticks, Some(SafetyState::Ready)) == Some(
            ContactorsState::MpptInitialization,
        ),
        tick_transition(ContactorsState::MpptInitialization, SHORT_DELAY_TICKS, safety) == Some(
            ContactorsState::FuelCellInitialization,
        ),
        tick_transition(ContactorsState::FuelCellInitialization, ticks, safety) == Some(
            ContactorsState::MpptPrecharge1,
        ),
        tick_transition(ContactorsState::MpptPrecharge1, LONG_DELAY_TICKS, safety) == Some(
            ContactorsState::MpptPrecharge2,
        ),
        tick_transition(ContactorsState::MpptPrecharge2, SHORT_DELAY_TICKS, safety) == Some(
            ContactorsState::MotorPrecharge1,
        ),
        tick_transition(ContactorsState::MotorPrecharge1, LONG_DELAY_TICKS, safety) == Some(
            ContactorsState::MotorPrecharge2,
        ),
        tick_transition(ContactorsState::MotorPrecharge2, SHORT_DELAY_TICKS, safety) == Some(
            ContactorsState::MotorPrecharge3,
        ),
        tick_transition(ContactorsState::MotorPrecharge3, SHORT_DELAY_TICKS, safety) == Some(
            ContactorsState::Ready,
        ),
        ticks < LONG_DELAY_TICKS ==> tick_transition(ContactorsState::MotorPrecharge1, ticks, safety) is None,
        ticks < SHORT_DELAY_TICKS ==> tick_transition(ContactorsState::MotorPrecharge2, ticks, safety) is None,
        ticks < SHORT_DELAY_TICKS ==> tick_transition(ContactorsState::MotorPrecharge3, ticks, safety) is None,
{
}

/// Entering a state drives only the outputs its step names, and leaves the others as they
/// were: initialisation connects the auxiliary battery (active low) then starts the fuel cell
/// balance of plant; the MPPT precharge closes stage 1 with the storage battery, then stage 2
/// (full power) alongside it; the motor precharge closes stage 1 (precharge resistor), then the
/// braking resistor, then stage 2 (full power); the postcharge reverses them; idle opens
/// everything.
pub proof fn lemma_entry_drives_named_outputs(l: ContactorLevels)
    ensures
        entry_levels(l, ContactorsState::WaitingForDmsTest) == l,
        entry_levels(l, ContactorsState::Ready) == l,
        entry_levels(l, ContactorsState::MpptInitialization) == (ContactorLevels { n_auxiliary_battery: false, ..l }),
        entry_levels(l, ContactorsState::FuelCellInitialization) == (ContactorLevels { bop: true, ..l }),
        entry_levels(l, ContactorsState::MpptPrecharge1) == (ContactorLevels { mppt_stage_1: true, storage_battery: true, ..l }),
        entry_levels(l, ContactorsState::MpptPrecharge2) == (ContactorLevels { mppt_stage_2: true, ..l }),
        entry_levels(l, ContactorsState::MotorPrecharge1) == (ContactorLevels { n_motor_stage_1: false, ..l }),
        entry_levels(l, ContactorsState::MotorPrecharge2) == (ContactorLevels { n_braking_resistor: false, ..l }),
        entry_levels(l, ContactorsState::MotorPrecharge3) == (ContactorLevels { n_motor_stage_2: false, ..l }),
        entry_levels(l, ContactorsState::MotorPostcharge1) == (ContactorLevels { n_motor_stage_1: false, ..l }),
        entry_levels(l, ContactorsState::MotorPostcharge2) == (ContactorLevels { n_motor_stage_2: true, ..l }),
        entry_levels(l, ContactorsState::MotorPostcharge3) == (ContactorLevels { n_braking_resistor: true, ..l }),
        entry_levels(l, ContactorsState::FuelCellShutdown) == (ContactorLevels { bop: false, ..l }),
        entry_levels(l, ContactorsState::MpptPostcharge1) == (ContactorLevels { mppt_stage_1: true, ..l }),
        entry_levels(l, ContactorsState::MpptPostcharge2) == (ContactorLevels { mppt_stage_2: false, ..l }),
        entry_levels(l, ContactorsState::MpptShutdown) == (ContactorLevels { n_auxiliary_battery: true, ..l }),
        entry_levels(l, ContactorsState::Idle) == (ContactorLevels {
            bop: false,
            storage_battery: false,
            mppt_stage_1: false,
            mppt_stage_2: false,
            n_motor_stage_1: true,
            n_motor_stage_2: true,
            n_braking_resistor: true,
            n_auxiliary_battery: true,
        }),
{
}

/// Leaving a state on a tick opens only the precharge path it no longer needs: stage 1 of the
/// MPPT once its full power is in (and with the storage battery at the end of the postcharge),
/// stage 1 of the motor (active low) once its full power is in or cut; every other state
/// leaves the outputs alone.
pub proof fn lemma_exit_opens_precharge_only(state: ContactorsState, l: ContactorLevels)
    ensures
        state == ContactorsState::MpptPrecharge2 ==> exit_levels(state, l) == (ContactorLevels { mppt_stage_1: false, ..l }),
        state == ContactorsState::MotorPrecharge3 ==> exit_levels(state, l) == (ContactorLevels { n_motor_stage_1: true, ..l }),
        state == ContactorsState::MotorPostcharge3 ==> exit_levels(state, l) == (ContactorLevels { n_motor_stage_1: true, ..l }),
        state == ContactorsState::MpptPostcharge2 ==> exit_levels(state, l) == (ContactorLevels { mppt_stage_1: false, storage_battery: false, ..l }),
        state != ContactorsState::MpptPrecharge2 && state != ContactorsState::MotorPrecharge3 && state
            != ContactorsState::MotorPostcharge3 && state != ContactorsState::MpptPostcharge2 ==> exit_levels(state, l) == l,
{
}

/// The levels after a tick that moves from `from` to `to`.
pub open spec fn moved(l: ContactorLevels, from: ContactorsState, to: ContactorsState) -> ContactorLevels {
    entry_levels(exit_levels(from, l), to)
}

/// The start-up sequence from every contactor open: the MPPT's precharge stage stays closed
/// while its full-power stage closes, and opens only when the motor precharge begins; the
/// motor's full power closes only with the precharge resistor and the braking resistor in;
/// once ready, the motor precharge resistor is bypassed, and the balance of plant, the storage
/// and auxiliary batteries, the MPPT's full power and the motor's full power and braking
/// resistor are connected.
pub proof fn lemma_startup_levels()
    ensures
        ({
            let l0 = ContactorLevels {
                bop: false,
                storage_battery: false,
                mppt_stage_1: false,
                mppt_stage_2: false,
                n_motor_stage_1: true,
                n_motor_stage_2: true,
                n_braking_resistor: true,
                n_auxiliary_battery: true,
            };
            let l1 = moved(l0, ContactorsState::WaitingForDmsTest, ContactorsState::MpptInitialization);
            let l2 = moved(l1, ContactorsState::MpptInitialization, ContactorsState::FuelCellInitialization);
            let l3 = moved(l2, ContactorsState::FuelCellInitialization, ContactorsState::MpptPrecharge1);
            let l4 = moved(l3, ContactorsState::MpptPrecharge1, ContactorsState::MpptPrecharge2);
            let l5 = moved(l4, ContactorsState::MpptPrecharge2, ContactorsState::MotorPrecharge1);
            let l6 = moved(l5, ContactorsState::MotorPrecharge1, ContactorsState::MotorPrecharge2);
            let l7 = moved(l6, ContactorsState::MotorPrecharge2, ContactorsState::MotorPrecharge3);
            let l8 = moved(l7, ContactorsState::MotorPrecharge3, ContactorsState::Ready);
            &&& !l1.n_auxiliary_battery && !l1.bop
            &&& l2.bop && !l2.mppt_stage_1
            &&& l3.mppt_stage_1 && l3.storage_battery && !l3.mppt_stage_2
            &&& l4.mppt_stage_1 && l4.mppt_stage_2
            &&& !l5.mppt_stage_1 && l5.mppt_stage_2 && !l5.n_motor_stage_1 && l5.n_braking_resistor
                && l5.n_motor_stage_2
            &&& !l6.n_motor_stage_1 && !l6.n_braking_resistor && l6.n_motor_stage_2
            &&& !l7.n_motor_stage_1 && !l7.n_braking_resistor && !l7.n_motor_stage_2
            &&& l8 == (ContactorLevels {
                bop: true,
                storage_battery: true,
                mppt_stage_1: false,
                mppt_stage_2: true,
                n_motor_stage_1: true,
                n_motor_stage_2: false,
                n_braking_resistor: false,
                n_auxiliary_battery: false,
            })
        }),
{
}

/// The shutdown sequence from the ready levels: the motor's precharge resistor comes back in
/// first, then its full power is cut, then the braking resistor is taken out and the
/// precharge resistor opened; the fuel cell stops; the MPPT goes back through its precharge
/// stage before its full power is cut, then both and the storage battery open, and the
/// auxiliary battery is disconnected: every contactor ends open.
pub proof fn lemma_shutdown_levels()
    ensures
        ({
            let r = ContactorLevels {
                bop: true,
                storage_battery: true,
                mppt_stage_1: false,
                mppt_stage_2: true,
                n_motor_stage_1: true,
                n_motor_stage_2: false,
                n_braking_resistor: false,
                n_auxiliary_battery: false,
            };
            let p1 = entry_levels(r, ContactorsState::MotorPostcharge1);
            let p2 = moved(p1, ContactorsState::MotorPostcharge1, ContactorsState::MotorPostcharge2);
            let p3 = moved(p2, ContactorsState::MotorPostcharge2, ContactorsState::MotorPostcharge3);
            let p4 = moved(p3, ContactorsState::MotorPostcharge3, ContactorsState::FuelCellShutdown);
            let p5 = moved(p4, ContactorsState::FuelCellShutdown, ContactorsState::MpptPostcharge1);
            let p6 = moved(p5, ContactorsState::MpptPostcharge1, ContactorsState::MpptPostcharge2);
            let p7 = moved(p6, ContactorsState::MpptPostcharge2, ContactorsState::MpptShutdown);
            let p8 = moved(p7, ContactorsState::MpptShutdown, ContactorsState::Idle);
            &&& !p1.n_motor_stage_1 && !p1.n_motor_stage_2 && !p1.n_braking_resistor
            &&& !p2.n_motor_stage_1 && p2.n_motor_stage_2 && !p2.n_braking_resistor
            &&& !p3.n_motor_stage_1 && p3.n_motor_stage_2 && p3.n_braking_resistor
            &&& p4.n_motor_stage_1 && !p4.bop
            &&& p5.mppt_stage_1 && p5.mppt_stage_2
            &&& p6.mppt_stage_1 && !p6.mppt_stage_2
            &&& !p7.mppt_stage_1 && !p7.storage_battery && p7.n_auxiliary_battery
            &&& p8 == (ContactorLevels {
                bop: false,
                storage_battery: false,
                mppt_stage_1: false,
                mppt_stage_2: false,
                n_motor_stage_1: true,
                n_motor_stage_2: true,
                n_braking_resistor: true,
                n_auxiliary_battery: true,
            })
        }),
{
}

/// How long each state lasts, in ticks of 250 ms, and where it leads: two seconds for each step
/// but the precharge resistors' (thirty seconds); the fuel cell steps take one tick; the wait
/// for the DMS test ends only when the safety loop is ready.
pub proof fn lemma_tick_delays(ticks: u32, safety: Option<SafetyState>)
    ensures
        tick_transition(ContactorsState::MpptInitialization, ticks, safety) == (if ticks >= 8 { Some(ContactorsState::FuelCellInitialization) } else { None }),
        tick_transition(ContactorsState::FuelCellInitialization, ticks, safety) == Some(ContactorsState::MpptPrecharge1),
        tick_transition(ContactorsState::MpptPrecharge1, ticks, safety) == (if ticks >= 120 { Some(ContactorsState::MpptPrecharge2) } else { None }),
        tick_transition(ContactorsState::MpptPrecharge2, ticks, safety) == (if ticks >= 8 { Some(ContactorsState::MotorPrecharge1) } else { None }),
        tick_transition(ContactorsState::MotorPrecharge1, ticks, safety) == (if ticks >= 120 { Some(ContactorsState::MotorPrecharge2) } else { None }),
        tick_transition(ContactorsState::MotorPrecharge2, ticks, safety) == (if ticks >= 8 { Some(ContactorsState::MotorPrecharge3) } else { None }),
        tick_transition(ContactorsState::MotorPrecharge3, ticks, safety) == (if ticks >= 8 { Some(ContactorsState::Ready) } else { None }),
        tick_transition(ContactorsState::MotorPostcharge1, ticks, safety) == (if ticks >= 8 { Some(ContactorsState::MotorPostcharge2) } else { None }),
        tick_transition(ContactorsState::MotorPostcharge2, ticks, safety) == (if ticks >= 8 { Some(ContactorsState::MotorPostcharge3) } else { None }),
        tick_transition(ContactorsState::MotorPostcharge3, ticks, safety) == (if ticks >= 8 { Some(ContactorsState::FuelCellShutdown) } else { None }),
        tick_transition(ContactorsState::FuelCellShutdown, ticks, safety) == Some(ContactorsState::MpptPostcharge1),
        tick_transition(ContactorsState::MpptPostcharge1, ticks, safety) == (if ticks >= 8 { Some(ContactorsState::MpptPostcharge2) } else { None }),
        tick_transition(ContactorsState::MpptPostcharge2, ticks, safety) == (if ticks >= 8 { Some(ContactorsState::MpptShutdown) } else { None }),
        tick_transition(ContactorsState::MpptShutdown, ticks, safety) == (if ticks >= 8 { Some(ContactorsState::Idle) } else { None }),
        tick_transition(ContactorsState::WaitingForDmsTest, ticks, safety) == (if safety == Some(SafetyState::Ready) { Some(ContactorsState::MpptInitialization) } else { None }),
{
}

} // verus!
