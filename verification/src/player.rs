//! The per-combatant state machine.
//!
//! A `Player` owns its stage position, win count, resource meter, logical
//! state, three independent input buffers and the two dash-timing
//! counters, all by value.  Once per simulation tick the orchestrator
//! feeds it the raw input, ages the buffers, advances the state and
//! dereferences the move table of whatever state came out; everything in
//! between is deterministic integer arithmetic.

use vstd::prelude::*;
use crate::framedata::{
    MoveData, MoveDataV, bdash_spec, bdash_table, bwalk_spec, bwalk_table, dead_data, dead_spec,
    fdash_spec, fdash_table, fwalk_spec, fwalk_table, idle_spec, idle_table,
    lemma_lookup_defined, lemma_table_totals, mnormal_spec, mnormal_table, move_data, move_length,
    mspecial_spec, mspecial_table, nnormal_spec, nnormal_table, nspecial_spec, nspecial_table,
    table_lookup, table_total,
};
use crate::input::{
    ActionBuffer, BUFFER_TIME, FgInput, buffer_age, buffer_new, buffer_resolve, buffer_wf,
};

verus! {

/// Double-tap window, in ticks, of a human-controlled combatant.
pub const PLAYER_DASH_TIME: u8 = 10;

/// Double-tap window, in ticks, of a bot-controlled combatant: sized down
/// so automated decisions are detected with less latency.
pub const BOT_DASH_TIME: u8 = 3;

/// Resource meter cap; a special action asks for exactly this much.
pub const METER_MAX: u16 = 1000;

/// The closed set of logical states.  The `u8` payload is the frame
/// counter inside the state, reset to zero on every transition into a new
/// variant; the `bool` on an attack is its hit-confirmed flag and on a
/// death state the one-shot "already played" flag.
#[derive(Clone, Copy, PartialEq, Eq, Structural, Debug)]
pub enum PlayerState {
    Idle(u8),
    FWalk(u8),
    BWalk(u8),
    FDash(u8),
    BDash(u8),
    NNormal(u8, bool),
    MNormal(u8, bool),
    NSpecial(u8, bool),
    MSpecial(u8, bool),
    NormalDead(bool),
    SpecialDead(bool),
}

/// The move table a state dereferences.
pub open spec fn table_of(s: PlayerState) -> Seq<MoveDataV> {
    match s {
        PlayerState::Idle(_) => idle_spec(),
        PlayerState::FWalk(_) => fwalk_spec(),
        PlayerState::BWalk(_) => bwalk_spec(),
        PlayerState::FDash(_) => fdash_spec(),
        PlayerState::BDash(_) => bdash_spec(),
        PlayerState::NNormal(_, _) => nnormal_spec(),
        PlayerState::MNormal(_, _) => mnormal_spec(),
        PlayerState::NSpecial(_, _) => nspecial_spec(),
        PlayerState::MSpecial(_, _) => mspecial_spec(),
        PlayerState::NormalDead(_) => dead_spec(),
        PlayerState::SpecialDead(_) => dead_spec(),
    }
}

/// The frame counter inside a state; a death state counts no frames.
pub open spec fn frame_of(s: PlayerState) -> int {
    match s {
        PlayerState::Idle(f) => f as int,
        PlayerState::FWalk(f) => f as int,
        PlayerState::BWalk(f) => f as int,
        PlayerState::FDash(f) => f as int,
        PlayerState::BDash(f) => f as int,
        PlayerState::NNormal(f, _) => f as int,
        PlayerState::MNormal(f, _) => f as int,
        PlayerState::NSpecial(f, _) => f as int,
        PlayerState::MSpecial(f, _) => f as int,
        PlayerState::NormalDead(_) => 0,
        PlayerState::SpecialDead(_) => 0,
    }
}

/// Total duration of the table a state dereferences.
pub open spec fn state_total(s: PlayerState) -> int {
    table_total(table_of(s))
}

/// The frame counter is a valid index into the state's move table.
pub open spec fn frame_in_range(s: PlayerState) -> bool {
    frame_of(s) < state_total(s)
}

/// The neutral stances, the only states from which actions trigger.
pub open spec fn is_neutral(s: PlayerState) -> bool {
    s matches PlayerState::Idle(_) || s matches PlayerState::FWalk(_) || s
        matches PlayerState::BWalk(_)
}

/// One frame of in-state progress: the frame counter grows by one; a
/// death state instead flips its one-shot "already played" flag.
pub open spec fn inc_state(s: PlayerState) -> PlayerState {
    match s {
        PlayerState::Idle(f) => PlayerState::Idle((f + 1) as u8),
        PlayerState::FWalk(f) => PlayerState::FWalk((f + 1) as u8),
        PlayerState::BWalk(f) => PlayerState::BWalk((f + 1) as u8),
        PlayerState::FDash(f) => PlayerState::FDash((f + 1) as u8),
        PlayerState::BDash(f) => PlayerState::BDash((f + 1) as u8),
        PlayerState::NNormal(f, hit) => PlayerState::NNormal((f + 1) as u8, hit),
        PlayerState::MNormal(f, hit) => PlayerState::MNormal((f + 1) as u8, hit),
        PlayerState::NSpecial(f, hit) => PlayerState::NSpecial((f + 1) as u8, hit),
        PlayerState::MSpecial(f, hit) => PlayerState::MSpecial((f + 1) as u8, hit),
        PlayerState::NormalDead(_) => PlayerState::NormalDead(true),
        PlayerState::SpecialDead(_) => PlayerState::SpecialDead(true),
    }
}

/// Stance resolution: while neutral, the held raw direction selects among
/// idle and the two walks; entering a new stance resets its frame counter,
/// staying in the same stance preserves it.  Non-neutral states are
/// untouched.
pub open spec fn stance_state(s: PlayerState, movement: i8) -> PlayerState {
    match s {
        PlayerState::Idle(f) => if movement == 0 {
            PlayerState::Idle(f)
        } else if movement >= 1 {
            PlayerState::FWalk(0)
        } else {
            PlayerState::BWalk(0)
        },
        PlayerState::FWalk(f) => if movement == 0 {
            PlayerState::Idle(0)
        } else if movement >= 1 {
            PlayerState::FWalk(f)
        } else {
            PlayerState::BWalk(0)
        },
        PlayerState::BWalk(f) => if movement == 0 {
            PlayerState::Idle(0)
        } else if movement >= 1 {
            PlayerState::FWalk(0)
        } else {
            PlayerState::BWalk(f)
        },
        _ => s,
    }
}

/// Action trigger, in strict priority order: the special buffer first and
/// only on a full meter, then the normal-attack buffer, then the dash
/// buffer; the buffered direction selects the light (neutral) or heavy
/// (directional) variant, and a dash goes the way of the buffered sign.
pub open spec fn action_choice(
    special: Option<ActionBuffer>,
    normal: Option<ActionBuffer>,
    dash: Option<ActionBuffer>,
    meter: u16,
) -> Option<PlayerState> {
    match special {
        Some(b) if meter == METER_MAX => Some(
            if b.movement == 0 {
                PlayerState::NSpecial(0, false)
            } else {
                PlayerState::MSpecial(0, false)
            },
        ),
        _ => match normal {
            Some(b) => Some(
                if b.movement == 0 {
                    PlayerState::NNormal(0, false)
                } else {
                    PlayerState::MNormal(0, false)
                },
            ),
            None => match dash {
                Some(b) => Some(
                    if b.movement >= 1 {
                        PlayerState::FDash(0)
                    } else {
                        PlayerState::BDash(0)
                    },
                ),
                None => None,
            },
        },
    }
}

/// The special variants trigger only on a meter of exactly `METER_MAX`,
/// whatever else is buffered.
pub proof fn lemma_special_needs_full_meter(
    special: Option<ActionBuffer>,
    normal: Option<ActionBuffer>,
    dash: Option<ActionBuffer>,
    meter: u16,
)
    ensures
        match action_choice(special, normal, dash, meter) {
            Some(PlayerState::NSpecial(_, _)) => meter == METER_MAX,
            Some(PlayerState::MSpecial(_, _)) => meter == METER_MAX,
            _ => true,
        },
{
}

/// The double-tap window that starts on a directional edge.
pub open spec fn dash_window(bot: bool) -> u8 {
    if bot {
        BOT_DASH_TIME
    } else {
        PLAYER_DASH_TIME
    }
}

/// One saturating countdown step.
pub open spec fn count_down(x: u8) -> u8 {
    if x >= 1 {
        (x - 1) as u8
    } else {
        0
    }
}

/// Dash bookkeeping on one tick: `press` is the directional edge (zero
/// when the direction merely continues).  A second edge inside a still
/// running window buffers the dash and clears both windows; a first edge
/// starts the window on its side; no edge ages both windows out.
/// The result is (dash buffer, forward window, backward window).
pub open spec fn dash_update(
    dash: Option<ActionBuffer>,
    fdash_timer: u8,
    bdash_timer: u8,
    press: i8,
    bot: bool,
) -> (Option<ActionBuffer>, u8, u8) {
    if press >= 1 {
        if fdash_timer > 0 {
            (Some(ActionBuffer { movement: 1, buff_time: BUFFER_TIME }), 0, 0)
        } else {
            (dash, dash_window(bot), 0)
        }
    } else if press <= -1 {
        if bdash_timer > 0 {
            (Some(ActionBuffer { movement: (-1) as i8, buff_time: BUFFER_TIME }), 0, 0)
        } else {
            (dash, 0, dash_window(bot))
        }
    } else {
        (dash, count_down(fdash_timer), count_down(bdash_timer))
    }
}

/// The audio cue key a state owes on the tick it is entered: the cue of
/// a dash or attack at frame zero, the ender cue on the first frame of a
/// death state, nothing otherwise.
pub open spec fn audio_cue(s: PlayerState) -> Option<Seq<char>> {
    match s {
        PlayerState::FDash(0) => Some("fdash"@),
        PlayerState::BDash(0) => Some("bdash"@),
        PlayerState::NNormal(0, _) => Some("nnormal"@),
        PlayerState::MNormal(0, _) => Some("mnormal"@),
        PlayerState::NSpecial(0, _) => Some("nspecial"@),
        PlayerState::MSpecial(0, _) => Some("mspecial"@),
        PlayerState::NormalDead(false) => Some("ender_hit"@),
        PlayerState::SpecialDead(false) => Some("ender_hit"@),
        _ => None,
    }
}

/// The opaque integer code of a state variant, for host-side diagnostics.
pub open spec fn state_code(s: PlayerState) -> i64 {
    match s {
        PlayerState::Idle(_) => 0,
        PlayerState::FWalk(_) => 1,
        PlayerState::BWalk(_) => 2,
        PlayerState::FDash(_) => 3,
        PlayerState::BDash(_) => 4,
        PlayerState::NNormal(_, _) => 8,
        PlayerState::MNormal(_, _) => 9,
        PlayerState::NSpecial(_, _) => 10,
        PlayerState::MSpecial(_, _) => 11,
        PlayerState::NormalDead(_) => 12,
        PlayerState::SpecialDead(_) => 13,
    }
}

impl PlayerState {
    /// The frame counter inside the variant; a death state reports zero.
    pub fn state_len(self) -> (r: u8)
        ensures
            r == frame_of(self),
    {
        match self {
            PlayerState::Idle(f) => f,
            PlayerState::FWalk(f) => f,
            PlayerState::BWalk(f) => f,
            PlayerState::FDash(f) => f,
            PlayerState::BDash(f) => f,
            PlayerState::NNormal(f, _) => f,
            PlayerState::MNormal(f, _) => f,
            PlayerState::NSpecial(f, _) => f,
            PlayerState::MSpecial(f, _) => f,
            PlayerState::NormalDead(_) => 0,
            PlayerState::SpecialDead(_) => 0,
        }
    }
}

/// A combatant: plain owned data only, so the whole value can be
/// snapshotted and restored by structural copy for rollback.
#[derive(Clone, Copy, Debug)]
pub struct Player {
    pub position: i16,
    pub wins: u8,
    pub meter: u16,
    pub state: PlayerState,
    pub normal_buff: Option<ActionBuffer>,
    pub special_buff: Option<ActionBuffer>,
    pub dash_buff: Option<ActionBuffer>,
    pub fdash_timer: u8,
    pub bdash_timer: u8,
    pub movement: i8,
    pub last_dir: i8,
    pub bot: bool,
}

/// Every present input buffer carries a positive time-to-live.
pub open spec fn buffers_wf(p: Player) -> bool {
    buffer_wf(p.normal_buff) && buffer_wf(p.special_buff) && buffer_wf(p.dash_buff)
}

impl Player {
    /// A fresh combatant: idle at frame zero, empty meter and buffers.
    pub fn new(start_pos: i16, bot: bool) -> (r: Player)
        ensures
            r == (Player {
                position: start_pos,
                wins: 0,
                meter: 0,
                state: PlayerState::Idle(0),
                normal_buff: None,
                special_buff: None,
                dash_buff: None,
                fdash_timer: 0,
                bdash_timer: 0,
                movement: 0,
                last_dir: 0,
                bot,
            }),
            frame_in_range(r.state),
            buffers_wf(r),
    {
        proof {
            lemma_table_totals();
        }
        Player {
            position: start_pos,
            wins: 0,
            meter: 0,
            state: PlayerState::Idle(0),
            normal_buff: None,
            special_buff: None,
            dash_buff: None,
            fdash_timer: 0,
            bdash_timer: 0,
            movement: 0,
            last_dir: 0,
            bot,
        }
    }

    /// Between-rounds reset: the win count carries over, the meter is
    /// halved, and every transient field returns to its fresh value.
    pub fn reset(&mut self, start_pos: i16)
        requires
            old(self).meter <= METER_MAX,
        ensures
            *final(self) == (Player {
                position: start_pos,
                wins: old(self).wins,
                meter: (old(self).meter * 2 / 4) as u16,
                state: PlayerState::Idle(0),
                normal_buff: None,
                special_buff: None,
                dash_buff: None,
                fdash_timer: 0,
                bdash_timer: 0,
                movement: 0,
                last_dir: 0,
                bot: old(self).bot,
            }),
            final(self).meter == old(self).meter / 2,
    {
        let carried: u16 = self.meter * 2 / 4;
        let wins = self.wins;
        let bot = self.bot;
        *self = Player::new(start_pos, bot);
        self.wins = wins;
        self.meter = carried;
    }

    /// Add orchestrator-granted meter, saturating at the cap.
    pub fn inc_meter(&mut self, amount: u16)
        requires
            old(self).meter + amount <= u16::MAX,
        ensures
            *final(self) == (Player {
                meter: if old(self).meter + amount <= METER_MAX {
                    (old(self).meter + amount) as u16
                } else {
                    METER_MAX
                },
                ..*old(self)
            }),
    {
        let m = self.meter + amount;
        self.meter = if m <= METER_MAX {
            m
        } else {
            METER_MAX
        };
    }

    /// Apply an orchestrator-computed displacement, clamped to the stage
    /// bounds the orchestrator owns.
    pub fn move_position(&mut self, movement: i16, stage_len: i16)
        requires
            i16::MIN <= old(self).position + movement <= i16::MAX,
            0 <= stage_len,
        ensures
            *final(self) == (Player {
                position: ({
                    let p = old(self).position + movement;
                    if p < 0 {
                        0i16
                    } else if p > stage_len {
                        stage_len
                    } else {
                        p as i16
                    }
                }),
                ..*old(self)
            }),
    {
        let p = self.position + movement;
        self.position = if p < 0 {
            0
        } else if p > stage_len {
            stage_len
        } else {
            p
        };
    }

    /// Clear the attack buffers, as entering any action does.
    pub fn reset_input(&mut self)
        ensures
            *final(self) == (Player { normal_buff: None, special_buff: None, ..*old(self) }),
    {
        self.normal_buff = None;
        self.special_buff = None;
    }

    /// Clear both dash-timing windows.
    pub fn reset_dash_timer(&mut self)
        ensures
            *final(self) == (Player { fdash_timer: 0, bdash_timer: 0, ..*old(self) }),
    {
        self.fdash_timer = 0;
        self.bdash_timer = 0;
    }

    /// A connected attack kills: force the matching death state.
    pub fn get_attacked(&mut self, special: bool)
        ensures
            *final(self) == (Player {
                state: if special {
                    PlayerState::SpecialDead(false)
                } else {
                    PlayerState::NormalDead(false)
                },
                ..*old(self)
            }),
    {
        self.state = if special {
            PlayerState::SpecialDead(false)
        } else {
            PlayerState::NormalDead(false)
        };
    }

    /// Whether an action could trigger: true exactly in a neutral stance.
    pub fn can_attack(&self) -> (r: bool)
        ensures
            r == is_neutral(self.state),
    {
        match self.state {
            PlayerState::Idle(_) | PlayerState::BWalk(_) | PlayerState::FWalk(_) => true,
            _ => false,
        }
    }

    /// Whether the combatant is in either death state.
    pub fn is_dead(&self) -> (r: bool)
        ensures
            r == (self.state matches PlayerState::NormalDead(_) || self.state
                matches PlayerState::SpecialDead(_)),
    {
        match self.state {
            PlayerState::SpecialDead(_) | PlayerState::NormalDead(_) => true,
            _ => false,
        }
    }

    /// Whether the combatant is inside either special attack.
    pub fn is_special(&self) -> (r: bool)
        ensures
            r == (self.state matches PlayerState::NSpecial(_, _) || self.state
                matches PlayerState::MSpecial(_, _)),
    {
        match self.state {
            PlayerState::NSpecial(_, _) | PlayerState::MSpecial(_, _) => true,
            _ => false,
        }
    }

    /// Whether a death state was entered this very tick: its one-shot
    /// flag has not been played yet.
    pub fn newly_dead(&self) -> (r: bool)
        ensures
            r == (self.state == PlayerState::SpecialDead(false) || self.state
                == PlayerState::NormalDead(false)),
    {
        match self.state {
            PlayerState::SpecialDead(false) | PlayerState::NormalDead(false) => true,
            _ => false,
        }
    }

    /// Mark the current attack as having connected.  The orchestrator
    /// consumes the flag for its bookkeeping; outside an attack state
    /// nothing changes.
    pub fn set_hit(&mut self)
        ensures
            *final(self) == (Player {
                state: match old(self).state {
                    PlayerState::NNormal(f, _) => PlayerState::NNormal(f, true),
                    PlayerState::MNormal(f, _) => PlayerState::MNormal(f, true),
                    PlayerState::NSpecial(f, _) => PlayerState::NSpecial(f, true),
                    PlayerState::MSpecial(f, _) => PlayerState::MSpecial(f, true),
                    s => s,
                },
                ..*old(self)
            }),
    {
        self.state = match self.state {
            PlayerState::NNormal(f, _) => PlayerState::NNormal(f, true),
            PlayerState::MNormal(f, _) => PlayerState::MNormal(f, true),
            PlayerState::NSpecial(f, _) => PlayerState::NSpecial(f, true),
            PlayerState::MSpecial(f, _) => PlayerState::MSpecial(f, true),
            s => s,
        };
    }

    /// The hit-confirmed flag of the current attack, false elsewhere.
    pub fn get_hit(&self) -> (r: bool)
        ensures
            r == match self.state {
                PlayerState::NNormal(_, hit) => hit,
                PlayerState::MNormal(_, hit) => hit,
                PlayerState::NSpecial(_, hit) => hit,
                PlayerState::MSpecial(_, hit) => hit,
                _ => false,
            },
    {
        match self.state {
            PlayerState::NNormal(_, hit) => hit,
            PlayerState::MNormal(_, hit) => hit,
            PlayerState::NSpecial(_, hit) => hit,
            PlayerState::MSpecial(_, hit) => hit,
            _ => false,
        }
    }

    /// The double-tap window this combatant runs on.
    fn dash_time(&self) -> (r: u8)
        ensures
            r == dash_window(self.bot),
    {
        if self.bot {
            BOT_DASH_TIME
        } else {
            PLAYER_DASH_TIME
        }
    }

    /// Input intake for one tick: record the raw direction, merge the two
    /// attack presses into their buffers (latest press wins) and run the
    /// dash bookkeeping on the directional edge.
    pub fn set_input(&mut self, input: FgInput)
        ensures
            *final(self) == (Player {
                movement: input.movement,
                last_dir: input.movement,
                normal_buff: buffer_resolve(
                    old(self).normal_buff,
                    buffer_new(input.movement, input.attack_press),
                ),
                special_buff: buffer_resolve(
                    old(self).special_buff,
                    buffer_new(input.movement, input.special_press),
                ),
                dash_buff: ({
                    let press: i8 = if old(self).last_dir != input.movement {
                        input.movement
                    } else {
                        0
                    };
                    dash_update(
                        old(self).dash_buff,
                        old(self).fdash_timer,
                        old(self).bdash_timer,
                        press,
                        old(self).bot,
                    ).0
                }),
                fdash_timer: ({
                    let press: i8 = if old(self).last_dir != input.movement {
                        input.movement
                    } else {
                        0
                    };
                    dash_update(
                        old(self).dash_buff,
                        old(self).fdash_timer,
                        old(self).bdash_timer,
                        press,
                        old(self).bot,
                    ).1
                }),
                bdash_timer: ({
                    let press: i8 = if old(self).last_dir != input.movement {
                        input.movement
                    } else {
                        0
                    };
                    dash_update(
                        old(self).dash_buff,
                        old(self).fdash_timer,
                        old(self).bdash_timer,
                        press,
                        old(self).bot,
                    ).2
                }),
                ..*old(self)
            }),
    {
        self.movement = input.movement;
        self.normal_buff = ActionBuffer::compare(self.normal_buff, input.to_attack_buffer());
        self.special_buff = ActionBuffer::compare(self.special_buff, input.to_special_buffer());
        let movement_press: i8 = if self.last_dir != input.movement {
            input.movement
        } else {
            0
        };

        if movement_press >= 1 {
            if self.fdash_timer > 0 {
                self.dash_buff = ActionBuffer::new(1, true);
                self.reset_dash_timer();
            } else {
                self.reset_dash_timer();
                self.fdash_timer = self.dash_time();
            }
        } else if movement_press <= -1 {
            if self.bdash_timer > 0 {
                self.dash_buff = ActionBuffer::new(-1, true);
                self.reset_dash_timer();
            } else {
                self.reset_dash_timer();
                self.bdash_timer = self.dash_time();
            }
        } else {
            self.fdash_timer = if self.fdash_timer >= 1 {
                self.fdash_timer - 1
            } else {
                0
            };
            self.bdash_timer = if self.bdash_timer >= 1 {
                self.bdash_timer - 1
            } else {
                0
            };
        }

        self.last_dir = input.movement;
    }

    /// Age all three buffers independently by one tick.
    pub fn update_buffer(&mut self)
        requires
            buffers_wf(*old(self)),
        ensures
            *final(self) == (Player {
                normal_buff: match old(self).normal_buff {
                    Some(b) => buffer_age(b),
                    None => None,
                },
                special_buff: match old(self).special_buff {
                    Some(b) => buffer_age(b),
                    None => None,
                },
                dash_buff: match old(self).dash_buff {
                    Some(b) => buffer_age(b),
                    None => None,
                },
                ..*old(self)
            }),
            buffers_wf(*final(self)),
    {
        self.normal_buff = match self.normal_buff {
            Some(b) => b.update_buffer(),
            None => None,
        };
        self.special_buff = match self.special_buff {
            Some(b) => b.update_buffer(),
            None => None,
        };
        self.dash_buff = match self.dash_buff {
            Some(b) => b.update_buffer(),
            None => None,
        };
    }

    /// One frame of in-state progress.
    pub fn inc_stance(&mut self)
        requires
            frame_in_range(old(self).state),
        ensures
            *final(self) == (Player { state: inc_state(old(self).state), ..*old(self) }),
    {
        proof {
            lemma_table_totals();
        }
        self.state = match self.state {
            PlayerState::Idle(frame) => PlayerState::Idle(frame + 1),
            PlayerState::FWalk(frame) => PlayerState::FWalk(frame + 1),
            PlayerState::BWalk(frame) => PlayerState::BWalk(frame + 1),
            PlayerState::FDash(frame) => PlayerState::FDash(frame + 1),
            PlayerState::BDash(frame) => PlayerState::BDash(frame + 1),
            PlayerState::NNormal(frame, hit) => PlayerState::NNormal(frame + 1, hit),
            PlayerState::MNormal(frame, hit) => PlayerState::MNormal(frame + 1, hit),
            PlayerState::NSpecial(frame, hit) => PlayerState::NSpecial(frame + 1, hit),
            PlayerState::MSpecial(frame, hit) => PlayerState::MSpecial(frame + 1, hit),
            PlayerState::NormalDead(_) => PlayerState::NormalDead(true),
            PlayerState::SpecialDead(_) => PlayerState::SpecialDead(true),
        };
    }

    /// Stance resolution against the held raw direction.
    fn update_stance(&mut self)
        ensures
            *final(self) == (Player {
                state: stance_state(old(self).state, old(self).movement),
                ..*old(self)
            }),
    {
        self.state = match self.state {
            PlayerState::Idle(frame) => if self.movement == 0 {
                PlayerState::Idle(frame)
            } else if self.movement >= 1 {
                PlayerState::FWalk(0)
            } else {
                PlayerState::BWalk(0)
            },
            PlayerState::FWalk(frame) => if self.movement == 0 {
                PlayerState::Idle(0)
            } else if self.movement >= 1 {
                PlayerState::FWalk(frame)
            } else {
                PlayerState::BWalk(0)
            },
            PlayerState::BWalk(frame) => if self.movement == 0 {
                PlayerState::Idle(0)
            } else if self.movement >= 1 {
                PlayerState::FWalk(0)
            } else {
                PlayerState::BWalk(frame)
            },
            s => s,
        };
    }

    /// The action the buffers select, spending the meter when the special
    /// branch takes it.
    fn which_action(&mut self) -> (r: Option<PlayerState>)
        ensures
            r == action_choice(
                old(self).special_buff,
                old(self).normal_buff,
                old(self).dash_buff,
                old(self).meter,
            ),
            *final(self) == (Player {
                meter: if old(self).special_buff is Some && old(self).meter == METER_MAX {
                    0u16
                } else {
                    old(self).meter
                },
                ..*old(self)
            }),
    {
        let special = self.special_buff;
        let normal = self.normal_buff;
        let dash = self.dash_buff;
        if special.is_some() && self.meter == METER_MAX {
            let buffer = special.unwrap();
            self.meter = 0;
            Some(
                if buffer.movement == 0 {
                    PlayerState::NSpecial(0, false)
                } else {
                    PlayerState::MSpecial(0, false)
                },
            )
        } else if normal.is_some() {
            let buffer = normal.unwrap();
            Some(
                if buffer.movement == 0 {
                    PlayerState::NNormal(0, false)
                } else {
                    PlayerState::MNormal(0, false)
                },
            )
        } else if dash.is_some() {
            let buffer = dash.unwrap();
            Some(
                if buffer.movement >= 1 {
                    PlayerState::FDash(0)
                } else {
                    PlayerState::BDash(0)
                },
            )
        } else {
            None
        }
    }

    /// Action trigger: only from a neutral stance; entering an action
    /// clears the attack buffers (not the dash buffer or its windows).
    fn update_action(&mut self)
        ensures
            *final(self) == if is_neutral(old(self).state) && action_choice(
                old(self).special_buff,
                old(self).normal_buff,
                old(self).dash_buff,
                old(self).meter,
            ) is Some {
                (Player {
                    state: action_choice(
                        old(self).special_buff,
                        old(self).normal_buff,
                        old(self).dash_buff,
                        old(self).meter,
                    )->Some_0,
                    normal_buff: None,
                    special_buff: None,
                    meter: if old(self).special_buff is Some && old(self).meter == METER_MAX {
                        0u16
                    } else {
                        old(self).meter
                    },
                    ..*old(self)
                })
            } else {
                *old(self)
            },
    {
        match self.state {
            PlayerState::Idle(_) | PlayerState::FWalk(_) | PlayerState::BWalk(_) => {
                if let Some(state) = self.which_action() {
                    self.reset_input();
                    self.state = state;
                }
            },
            _ => {},
        }
    }

    /// Steps three to five of the tick: frame increment, stance
    /// resolution, action trigger.
    pub fn update_state(&mut self)
        requires
            frame_in_range(old(self).state),
        ensures
            *final(self) == ({
                let stanced = stance_state(inc_state(old(self).state), old(self).movement);
                let choice = action_choice(
                    old(self).special_buff,
                    old(self).normal_buff,
                    old(self).dash_buff,
                    old(self).meter,
                );
                if is_neutral(stanced) && choice is Some {
                    (Player {
                        state: choice->Some_0,
                        normal_buff: None,
                        special_buff: None,
                        meter: if old(self).special_buff is Some && old(self).meter
                            == METER_MAX {
                            0u16
                        } else {
                            old(self).meter
                        },
                        ..*old(self)
                    })
                } else {
                    (Player { state: stanced, ..*old(self) })
                }
            }),
    {
        self.inc_stance();
        self.update_stance();
        self.update_action();
    }

    /// Step six of the tick: dereference the current state's move table.
    /// In range, the entry holds and the state is untouched; exhausted,
    /// the state is forced back to idle at frame zero and idle's first
    /// entry is returned instead — every table funnels back to neutral,
    /// recovery is simply the frames left in the current table.
    pub fn update_move(&mut self) -> (r: MoveData)
        ensures
            match table_lookup(table_of(old(self).state), frame_of(old(self).state)) {
                Some(v) => *final(self) == *old(self) && r@ == v,
                None => *final(self) == (Player { state: PlayerState::Idle(0), ..*old(self) })
                    && r@ == idle_spec()[0],
            },
            frame_in_range(final(self).state),
            table_lookup(table_of(final(self).state), frame_of(final(self).state)) == Some(r@),
    {
        proof {
            lemma_table_totals();
            lemma_lookup_defined(table_of(self.state), frame_of(self.state));
            lemma_lookup_defined(idle_spec(), 0);
        }
        let looked: Option<MoveData> = match self.state {
            PlayerState::Idle(frame) => {
                let t = idle_table();
                move_data(frame, &t)
            },
            PlayerState::FWalk(frame) => {
                let t = fwalk_table();
                move_data(frame, &t)
            },
            PlayerState::BWalk(frame) => {
                let t = bwalk_table();
                move_data(frame, &t)
            },
            PlayerState::FDash(frame) => {
                let t = fdash_table();
                move_data(frame, &t)
            },
            PlayerState::BDash(frame) => {
                let t = bdash_table();
                move_data(frame, &t)
            },
            PlayerState::NNormal(frame, _) => {
                let t = nnormal_table();
                move_data(frame, &t)
            },
            PlayerState::MNormal(frame, _) => {
                let t = mnormal_table();
                move_data(frame, &t)
            },
            PlayerState::NSpecial(frame, _) => {
                let t = nspecial_table();
                move_data(frame, &t)
            },
            PlayerState::MSpecial(frame, _) => {
                let t = mspecial_table();
                move_data(frame, &t)
            },
            PlayerState::NormalDead(_) => Some(dead_data()),
            PlayerState::SpecialDead(_) => Some(dead_data()),
        };
        match looked {
            Some(data) => data,
            None => {
                self.state = PlayerState::Idle(0);
                let t = idle_table();
                move_data(0, &t).unwrap()
            },
        }
    }

    /// The current frame's entry, without advancing anything.
    pub fn get_move(&self) -> (r: MoveData)
        requires
            frame_in_range(self.state),
        ensures
            table_lookup(table_of(self.state), frame_of(self.state)) == Some(r@),
    {
        proof {
            lemma_lookup_defined(table_of(self.state), frame_of(self.state));
        }
        match self.state {
            PlayerState::Idle(frame) => {
                let t = idle_table();
                move_data(frame, &t).unwrap()
            },
            PlayerState::FWalk(frame) => {
                let t = fwalk_table();
                move_data(frame, &t).unwrap()
            },
            PlayerState::BWalk(frame) => {
                let t = bwalk_table();
                move_data(frame, &t).unwrap()
            },
            PlayerState::FDash(frame) => {
                let t = fdash_table();
                move_data(frame, &t).unwrap()
            },
            PlayerState::BDash(frame) => {
                let t = bdash_table();
                move_data(frame, &t).unwrap()
            },
            PlayerState::NNormal(frame, _) => {
                let t = nnormal_table();
                move_data(frame, &t).unwrap()
            },
            PlayerState::MNormal(frame, _) => {
                let t = mnormal_table();
                move_data(frame, &t).unwrap()
            },
            PlayerState::NSpecial(frame, _) => {
                let t = nspecial_table();
                move_data(frame, &t).unwrap()
            },
            PlayerState::MSpecial(frame, _) => {
                let t = mspecial_table();
                move_data(frame, &t).unwrap()
            },
            PlayerState::NormalDead(_) => dead_data(),
            PlayerState::SpecialDead(_) => dead_data(),
        }
    }

    /// Frames left, the current one included, before an attack or forward
    /// dash hands control back: the punishable recovery window.  Zero in
    /// any other state.
    pub fn recovery_punishable(&self) -> (r: u8)
        requires
            match self.state {
                PlayerState::NNormal(_, _) => frame_in_range(self.state),
                PlayerState::MNormal(_, _) => frame_in_range(self.state),
                PlayerState::NSpecial(_, _) => frame_in_range(self.state),
                PlayerState::MSpecial(_, _) => frame_in_range(self.state),
                PlayerState::FDash(_) => frame_in_range(self.state),
                _ => true,
            },
        ensures
            r == match self.state {
                PlayerState::NNormal(_, _) => state_total(self.state) - frame_of(self.state) - 1,
                PlayerState::MNormal(_, _) => state_total(self.state) - frame_of(self.state) - 1,
                PlayerState::NSpecial(_, _) => state_total(self.state) - frame_of(self.state) - 1,
                PlayerState::MSpecial(_, _) => state_total(self.state) - frame_of(self.state) - 1,
                PlayerState::FDash(_) => state_total(self.state) - frame_of(self.state) - 1,
                _ => 0,
            },
    {
        proof {
            lemma_table_totals();
        }
        match self.state {
            PlayerState::NNormal(frame, _) => {
                let t = nnormal_table();
                move_length(&t) - frame - 1
            },
            PlayerState::MNormal(frame, _) => {
                let t = mnormal_table();
                move_length(&t) - frame - 1
            },
            PlayerState::NSpecial(frame, _) => {
                let t = nspecial_table();
                move_length(&t) - frame - 1
            },
            PlayerState::MSpecial(frame, _) => {
                let t = mspecial_table();
                move_length(&t) - frame - 1
            },
            PlayerState::FDash(frame) => {
                let t = fdash_table();
                move_length(&t) - frame - 1
            },
            _ => 0,
        }
    }

    /// Frames left, the current one included, in any dash or attack
    /// table; zero in the neutral and death states.
    pub fn recovery(&self) -> (r: u8)
        requires
            match self.state {
                PlayerState::NNormal(_, _) => frame_in_range(self.state),
                PlayerState::MNormal(_, _) => frame_in_range(self.state),
                PlayerState::NSpecial(_, _) => frame_in_range(self.state),
                PlayerState::MSpecial(_, _) => frame_in_range(self.state),
                PlayerState::FDash(_) => frame_in_range(self.state),
                PlayerState::BDash(_) => frame_in_range(self.state),
                _ => true,
            },
        ensures
            r == match self.state {
                PlayerState::NNormal(_, _) => state_total(self.state) - frame_of(self.state) - 1,
                PlayerState::MNormal(_, _) => state_total(self.state) - frame_of(self.state) - 1,
                PlayerState::NSpecial(_, _) => state_total(self.state) - frame_of(self.state) - 1,
                PlayerState::MSpecial(_, _) => state_total(self.state) - frame_of(self.state) - 1,
                PlayerState::FDash(_) => state_total(self.state) - frame_of(self.state) - 1,
                PlayerState::BDash(_) => state_total(self.state) - frame_of(self.state) - 1,
                _ => 0,
            },
    {
        proof {
            lemma_table_totals();
        }
        match self.state {
            PlayerState::FDash(frame) => {
                let t = fdash_table();
                move_length(&t) - frame - 1
            },
            PlayerState::BDash(frame) => {
                let t = bdash_table();
                move_length(&t) - frame - 1
            },
            PlayerState::NNormal(frame, _) => {
                let t = nnormal_table();
                move_length(&t) - frame - 1
            },
            PlayerState::MNormal(frame, _) => {
                let t = mnormal_table();
                move_length(&t) - frame - 1
            },
            PlayerState::NSpecial(frame, _) => {
                let t = nspecial_table();
                move_length(&t) - frame - 1
            },
            PlayerState::MSpecial(frame, _) => {
                let t = mspecial_table();
                move_length(&t) - frame - 1
            },
            _ => 0,
        }
    }

    /// The audio cue owed this tick: fires exactly on frame zero of a
    /// dash or attack entry and on the first frame of a losing death
    /// state.
    pub fn get_audio(&self) -> (r: Option<&'static str>)
        ensures
            match r {
                Some(cue) => audio_cue(self.state) == Some(cue@),
                None => audio_cue(self.state) is None,
            },
    {
        match self.state {
            PlayerState::FDash(0) => Some("fdash"),
            PlayerState::BDash(0) => Some("bdash"),
            PlayerState::NNormal(0, _) => Some("nnormal"),
            PlayerState::MNormal(0, _) => Some("mnormal"),
            PlayerState::NSpecial(0, _) => Some("nspecial"),
            PlayerState::MSpecial(0, _) => Some("mspecial"),
            PlayerState::NormalDead(false) => Some("ender_hit"),
            PlayerState::SpecialDead(false) => Some("ender_hit"),
            _ => None,
        }
    }

    /// The state variant as the opaque integer code the host reads.
    pub fn state_int(&self) -> (r: i64)
        ensures
            r == state_code(self.state),
    {
        match self.state {
            PlayerState::Idle(_) => 0,
            PlayerState::FWalk(_) => 1,
            PlayerState::BWalk(_) => 2,
            PlayerState::FDash(_) => 3,
            PlayerState::BDash(_) => 4,
            PlayerState::NNormal(_, _) => 8,
            PlayerState::MNormal(_, _) => 9,
            PlayerState::NSpecial(_, _) => 10,
            PlayerState::MSpecial(_, _) => 11,
            PlayerState::NormalDead(_) => 12,
            PlayerState::SpecialDead(_) => 13,
        }
    }

    /// The raw frame counter, for host-side diagnostics.
    pub fn state_len(&self) -> (r: i64)
        ensures
            r == frame_of(self.state),
    {
        self.state.state_len() as i64
    }

    /// Remaining time-to-live of the buffered normal attack, zero when
    /// nothing is buffered.
    pub fn buff_time(&self) -> (r: u8)
        ensures
            r == match self.normal_buff {
                Some(b) => b.buff_time,
                None => 0u8,
            },
    {
        match self.normal_buff {
            Some(b) => b.buff_time,
            None => 0,
        }
    }
}

} // verus!
