//! Enemy blueprints, interpreter initialization records and running enemies.

use vstd::prelude::*;

verus! {

/// The record an interpreter is started from: a program, the entrypoint at
/// which execution begins, and the parameters of the enemy.
#[derive(Debug, Clone, PartialEq, Eq)]
pub struct InterpreterInit {
    pub program: Vec<u8>,
    pub pc: usize,
    pub boss: bool,
    pub difficulty: u8,
    pub shot_with_rank: bool,
    pub accel_shot_with_rank: bool,
    pub homing_shot_with_rank: bool,
    pub extra_act_with_rank: bool,
    pub accel_with_rank: bool,
    pub rank: u8,
    pub x: u8,
    pub y: u8,
}

/// Mathematical value of an [`InterpreterInit`].
pub struct InterpreterInitView {
    pub program: Seq<u8>,
    pub pc: usize,
    pub boss: bool,
    pub difficulty: u8,
    pub shot_with_rank: bool,
    pub accel_shot_with_rank: bool,
    pub homing_shot_with_rank: bool,
    pub extra_act_with_rank: bool,
    pub accel_with_rank: bool,
    pub rank: u8,
    pub x: u8,
    pub y: u8,
}

impl View for InterpreterInit {
    type V = InterpreterInitView;

    open spec fn view(&self) -> InterpreterInitView {
        InterpreterInitView {
            program: self.program@,
            pc: self.pc,
            boss: self.boss,
            difficulty: self.difficulty,
            shot_with_rank: self.shot_with_rank,
            accel_shot_with_rank: self.accel_shot_with_rank,
            homing_shot_with_rank: self.homing_shot_with_rank,
            extra_act_with_rank: self.extra_act_with_rank,
            accel_with_rank: self.accel_with_rank,
            rank: self.rank,
            x: self.x,
            y: self.y,
        }
    }
}

/// An order to start one enemy: the record for its interpreter and the
/// sprite index base that the running enemy will carry.
#[derive(Debug, Clone, PartialEq, Eq)]
pub struct SpawnOrder {
    pub sprite_idx_base: u8,
    pub interp: InterpreterInit,
}

/// Mathematical value of a [`SpawnOrder`].
pub struct SpawnOrderView {
    pub sprite_idx_base: u8,
    pub interp: InterpreterInitView,
}

impl View for SpawnOrder {
    type V = SpawnOrderView;

    open spec fn view(&self) -> SpawnOrderView {
        SpawnOrderView { sprite_idx_base: self.sprite_idx_base, interp: self.interp@ }
    }
}

/// Blueprint of an enemy. Every enemy started from it shares these values and
/// differs only in the entrypoint.
#[derive(Debug, Clone, PartialEq, Eq)]
pub struct EnemyInit {
    pub sprite_idx_base: u8,
    pub program: Vec<u8>,
    pub boss: bool,
    pub difficulty: u8,
    pub shot_with_rank: bool,
    pub accel_shot_with_rank: bool,
    pub homing_shot_with_rank: bool,
    pub extra_act_with_rank: bool,
    pub accel_with_rank: bool,
    pub rank: u8,
    pub x: u8,
    pub y: u8,
}

/// Mathematical value of an [`EnemyInit`].
pub struct EnemyInitView {
    pub sprite_idx_base: u8,
    pub program: Seq<u8>,
    pub boss: bool,
    pub difficulty: u8,
    pub shot_with_rank: bool,
    pub accel_shot_with_rank: bool,
    pub homing_shot_with_rank: bool,
    pub extra_act_with_rank: bool,
    pub accel_with_rank: bool,
    pub rank: u8,
    pub x: u8,
    pub y: u8,
}

impl EnemyInitView {
    /// The order that this blueprint gives for entrypoint `pc`: every value of
    /// the blueprint is carried over and `pc` is added.
    pub open spec fn order(self, pc: usize) -> SpawnOrderView {
        SpawnOrderView {
            sprite_idx_base: self.sprite_idx_base,
            interp: InterpreterInitView {
                program: self.program,
                pc,
                boss: self.boss,
                difficulty: self.difficulty,
                shot_with_rank: self.shot_with_rank,
                accel_shot_with_rank: self.accel_shot_with_rank,
                homing_shot_with_rank: self.homing_shot_with_rank,
                extra_act_with_rank: self.extra_act_with_rank,
                accel_with_rank: self.accel_with_rank,
                rank: self.rank,
                x: self.x,
                y: self.y,
            },
        }
    }
}

impl View for EnemyInit {
    type V = EnemyInitView;

    open spec fn view(&self) -> EnemyInitView {
        EnemyInitView {
            sprite_idx_base: self.sprite_idx_base,
            program: self.program@,
            boss: self.boss,
            difficulty: self.difficulty,
            shot_with_rank: self.shot_with_rank,
            accel_shot_with_rank: self.accel_shot_with_rank,
            homing_shot_with_rank: self.homing_shot_with_rank,
            extra_act_with_rank: self.extra_act_with_rank,
            accel_with_rank: self.accel_with_rank,
            rank: self.rank,
            x: self.x,
            y: self.y,
        }
    }
}

impl EnemyInit {
    /// Gives the order for one enemy that begins execution at `pc`. The
    /// blueprint itself is left as it is, so it can give any number of orders.
    pub fn init(&self, pc: usize) -> (order: SpawnOrder)
        ensures
            order@ == self@.order(pc),
    {
        SpawnOrder {
            sprite_idx_base: self.sprite_idx_base,
            interp: InterpreterInit {
                program: self.program.clone(),
                pc,
                boss: self.boss,
                difficulty: self.difficulty,
                shot_with_rank: self.shot_with_rank,
                accel_shot_with_rank: self.accel_shot_with_rank,
                homing_shot_with_rank: self.homing_shot_with_rank,
                extra_act_with_rank: self.extra_act_with_rank,
                accel_with_rank: self.accel_with_rank,
                rank: self.rank,
                x: self.x,
                y: self.y,
            },
        }
    }
}

/// Whether an enemy is still in play, as its interpreter tells it.
#[derive(Debug, Clone, Copy, PartialEq, Eq, Structural)]
pub enum EnemyState {
    /// The enemy is in play.
    Alive,
    /// The enemy is no longer in play and is to be removed by the host.
    NotAlive,
}

/// What an interpreter tells of its enemy: the lifecycle state, the position
/// and the sprite index relative to the enemy's sprite index base.
#[derive(Debug, Clone, Copy, PartialEq, Eq, Structural)]
pub struct InterpreterReport {
    pub state: EnemyState,
    pub x: u8,
    pub y: u8,
    pub sprite_index: u8,
}

/// Mathematical value of an [`Enemy`].
pub struct EnemyView {
    pub sprite_idx_base: u8,
    pub report: InterpreterReport,
}

/// A running enemy: its sprite index base and the latest report of its
/// interpreter. The interpreter runs outside; after every call into it the host
/// hands its report to [`Enemy::step`] or [`Enemy::damage`].
#[derive(Debug)]
pub struct Enemy {
    sprite_idx_base: u8,
    report: InterpreterReport,
}

impl View for Enemy {
    type V = EnemyView;

    closed spec fn view(&self) -> EnemyView {
        EnemyView { sprite_idx_base: self.sprite_idx_base, report: self.report }
    }
}

impl Enemy {
    /// The enemy of an interpreter that has just been started: `sprite_idx_base`
    /// comes from the order, `report` from the interpreter.
    pub fn new(sprite_idx_base: u8, report: InterpreterReport) -> (enemy: Enemy)
        ensures
            enemy@ == (EnemyView { sprite_idx_base, report }),
    {
        Enemy { sprite_idx_base, report }
    }

    /// Takes in one tick of the interpreter: `outcome` is what the
    /// interpreter's step returned and `report` what it tells afterwards. The
    /// report is kept and the outcome handed on as it is.
    pub fn step<E>(&mut self, report: InterpreterReport, outcome: Result<(), E>) -> (forwarded:
        Result<(), E>)
        ensures
            forwarded == outcome,
            final(self)@ == (EnemyView { report, ..old(self)@ }),
    {
        self.report = report;
        outcome
    }

    /// Takes in a damage event that the interpreter has handled: `report` is
    /// what the interpreter tells afterwards.
    pub fn damage(&mut self, report: InterpreterReport)
        ensures
            final(self)@ == (EnemyView { report, ..old(self)@ }),
    {
        self.report = report;
    }

    /// The lifecycle state that the interpreter told last.
    pub fn state(&self) -> (state: EnemyState)
        ensures
            state == self@.report.state,
    {
        self.report.state
    }

    /// The horizontal position that the interpreter told last.
    pub fn x(&self) -> (x: u8)
        ensures
            x == self@.report.x,
    {
        self.report.x
    }

    /// The vertical position that the interpreter told last.
    pub fn y(&self) -> (y: u8)
        ensures
            y == self@.report.y,
    {
        self.report.y
    }

    /// The sprite to draw: the sprite index base plus the relative index that
    /// the interpreter told last, modulo 256.
    pub fn sprite_index(&self) -> (index: u8)
        ensures
            index == (self@.sprite_idx_base + self@.report.sprite_index) % 256,
    {
        self.sprite_idx_base.wrapping_add(self.report.sprite_index)
    }
}

} // verus!
