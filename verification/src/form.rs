//! The settings of a play as a host holds them, and what they come to when
//! they are read: a configured spawner and environment, or the first fault.

use vstd::prelude::*;
use vstd::string::StringExecFns;

use crate::enemy::{EnemyInit, EnemyInitView};
use crate::game::Game;
use crate::settings::{
    entrypoint_readings, entrypoints_from, entrypoints_outcome, entrypoints_read, numbers_of,
    parse_u8, parse_usize, parsed_u8, parsed_usize, rank_from, rank_outcome, stage_from,
    stage_outcome, NumberError, ParseError,
};
use crate::spawner::{ConfigError, EnemySpawner, SpawnerState};

verus! {

/// The settings of a play: texts as they were typed, switches as they were set.
#[derive(Debug, Clone, PartialEq, Eq)]
pub struct Form {
    pub sprite_idx_base: String,
    pub boss: bool,
    pub difficulty: String,
    pub shot_with_rank: bool,
    pub accel_shot_with_rank: bool,
    pub homing_shot_with_rank: bool,
    pub extra_act_with_rank: bool,
    pub accel_with_rank: bool,
    pub x_ini: String,
    pub y_ini: String,
    pub spawn_interval: String,
    pub spawn_count: String,
    pub entrypoints: String,
    pub second_round: bool,
    pub stage: String,
    pub rank: String,
    pub rng_idx: String,
}

/// A text of a [`Form`].
#[derive(Debug, Clone, Copy, PartialEq, Eq, Structural)]
pub enum Field {
    SpawnInterval,
    SpawnCount,
    Entrypoints,
    SpriteIdxBase,
    Difficulty,
    XIni,
    YIni,
    Stage,
    Rank,
    RngIdx,
}

/// Why a [`Form`] does not give a play.
#[derive(Debug, Clone, Copy, PartialEq, Eq, Structural)]
pub enum FormError {
    /// A text could not be read.
    Field(Field, ParseError),
    /// The program could not be assembled.
    Assemble,
}

/// What reading each text of a [`Form`] gave, and the assembled program if
/// there is one.
#[derive(Debug, PartialEq, Eq)]
pub struct Readings {
    pub spawn_interval: Result<usize, NumberError>,
    pub spawn_count: Result<usize, NumberError>,
    pub entrypoints: Vec<Result<usize, NumberError>>,
    pub sprite_idx_base: Result<u8, NumberError>,
    pub difficulty: Result<u8, NumberError>,
    pub x_ini: Result<u8, NumberError>,
    pub y_ini: Result<u8, NumberError>,
    pub program: Option<Vec<u8>>,
    pub stage: Result<u8, NumberError>,
    pub rank: Result<u8, NumberError>,
    pub rng_idx: Result<u8, NumberError>,
}

/// Mathematical value of [`Readings`].
pub struct ReadingsView {
    pub spawn_interval: Result<usize, NumberError>,
    pub spawn_count: Result<usize, NumberError>,
    pub entrypoints: Seq<Result<usize, NumberError>>,
    pub sprite_idx_base: Result<u8, NumberError>,
    pub difficulty: Result<u8, NumberError>,
    pub x_ini: Result<u8, NumberError>,
    pub y_ini: Result<u8, NumberError>,
    pub program: Option<Seq<u8>>,
    pub stage: Result<u8, NumberError>,
    pub rank: Result<u8, NumberError>,
    pub rng_idx: Result<u8, NumberError>,
}

/// The bytes of an assembled program, if there is one.
pub open spec fn program_view(program: Option<Vec<u8>>) -> Option<Seq<u8>> {
    match program {
        Some(program) => Some(program@),
        None => None,
    }
}

impl View for Readings {
    type V = ReadingsView;

    open spec fn view(&self) -> ReadingsView {
        ReadingsView {
            spawn_interval: self.spawn_interval,
            spawn_count: self.spawn_count,
            entrypoints: self.entrypoints@,
            sprite_idx_base: self.sprite_idx_base,
            difficulty: self.difficulty,
            x_ini: self.x_ini,
            y_ini: self.y_ini,
            program: program_view(self.program),
            stage: self.stage,
            rank: self.rank,
            rng_idx: self.rng_idx,
        }
    }
}

/// A play that is ready to start: how the spawner is to be made, and what the
/// environment is to be set to.
#[derive(Debug, Clone, PartialEq, Eq)]
pub struct Play {
    pub spawn_interval: usize,
    pub spawn_count: usize,
    pub entrypoints: Vec<usize>,
    pub enemy_init: EnemyInit,
    pub second_round: bool,
    pub stage: u8,
    pub rng_idx: u8,
}

impl ReadingsView {
    /// The first fault among the readings, in the order in which a form is
    /// read: spawn interval, spawn count, entrypoints, sprite index base,
    /// difficulty, initial position, program, stage, rank, random index.
    pub open spec fn fault(self) -> Option<FormError> {
        if self.spawn_interval is Err {
            Some(FormError::Field(Field::SpawnInterval, ParseError::Number(self.spawn_interval->Err_0)))
        } else if self.spawn_count is Err {
            Some(FormError::Field(Field::SpawnCount, ParseError::Number(self.spawn_count->Err_0)))
        } else if entrypoints_outcome(self.entrypoints, self.spawn_count->Ok_0) is Err {
            Some(
                FormError::Field(
                    Field::Entrypoints,
                    entrypoints_outcome(self.entrypoints, self.spawn_count->Ok_0)->Err_0,
                ),
            )
        } else if self.sprite_idx_base is Err {
            Some(FormError::Field(Field::SpriteIdxBase, ParseError::Number(self.sprite_idx_base->Err_0)))
        } else if self.difficulty is Err {
            Some(FormError::Field(Field::Difficulty, ParseError::Number(self.difficulty->Err_0)))
        } else if self.x_ini is Err {
            Some(FormError::Field(Field::XIni, ParseError::Number(self.x_ini->Err_0)))
        } else if self.y_ini is Err {
            Some(FormError::Field(Field::YIni, ParseError::Number(self.y_ini->Err_0)))
        } else if self.program is None {
            Some(FormError::Assemble)
        } else if stage_outcome(self.stage) is Err {
            Some(FormError::Field(Field::Stage, stage_outcome(self.stage)->Err_0))
        } else if rank_outcome(self.rank) is Err {
            Some(FormError::Field(Field::Rank, rank_outcome(self.rank)->Err_0))
        } else if self.rng_idx is Err {
            Some(FormError::Field(Field::RngIdx, ParseError::Number(self.rng_idx->Err_0)))
        } else {
            None
        }
    }
}

impl Form {
    /// What reading each text of the form gives, with `program` the assembled
    /// program if there is one.
    pub open spec fn readings(self, program: Option<Seq<u8>>) -> ReadingsView {
        ReadingsView {
            spawn_interval: parsed_usize(self.spawn_interval@),
            spawn_count: parsed_usize(self.spawn_count@),
            entrypoints: entrypoint_readings(self.entrypoints@),
            sprite_idx_base: parsed_u8(self.sprite_idx_base@),
            difficulty: parsed_u8(self.difficulty@),
            x_ini: parsed_u8(self.x_ini@),
            y_ini: parsed_u8(self.y_ini@),
            program,
            stage: parsed_u8(self.stage@),
            rank: parsed_u8(self.rank@),
            rng_idx: parsed_u8(self.rng_idx@),
        }
    }
}

impl Play {
    /// Whether this play holds the switches of `form` and the numbers of
    /// `readings`, all of which were read.
    pub open spec fn holds(self, form: Form, readings: ReadingsView) -> bool {
        &&& self.spawn_interval == readings.spawn_interval->Ok_0
        &&& self.spawn_count == readings.spawn_count->Ok_0
        &&& self.entrypoints@ == numbers_of(readings.entrypoints)
        &&& self.entrypoints@.len() == self.spawn_count
        &&& self.enemy_init@ == (EnemyInitView {
            sprite_idx_base: readings.sprite_idx_base->Ok_0,
            program: readings.program->0,
            boss: form.boss,
            difficulty: readings.difficulty->Ok_0,
            shot_with_rank: form.shot_with_rank,
            accel_shot_with_rank: form.accel_shot_with_rank,
            homing_shot_with_rank: form.homing_shot_with_rank,
            extra_act_with_rank: form.extra_act_with_rank,
            accel_with_rank: form.accel_with_rank,
            rank: readings.rank->Ok_0,
            x: readings.x_ini->Ok_0,
            y: readings.y_ini->Ok_0,
        })
        &&& self.second_round == form.second_round
        &&& self.stage == readings.stage->Ok_0
        &&& self.rng_idx == readings.rng_idx->Ok_0
    }

    /// Whether `made` is what `form` and `readings` come to: the first fault
    /// of the readings if there is one, else the play that holds them.
    pub open spec fn is_made_from(
        made: Result<Play, FormError>,
        form: Form,
        readings: ReadingsView,
    ) -> bool {
        match made {
            Err(error) => readings.fault() == Some(error),
            Ok(play) => readings.fault() is None && play.holds(form, readings),
        }
    }

    /// Makes the play of a form from the readings of its texts. The first
    /// fault in the order of reading is the error, and there is a play if and
    /// only if there is no fault.
    pub fn from_readings(form: &Form, readings: Readings) -> (made: Result<Play, FormError>)
        ensures
            Play::is_made_from(made, *form, readings@),
    {
        let spawn_interval = match readings.spawn_interval {
            Ok(number) => number,
            Err(error) => {
                return Err(FormError::Field(Field::SpawnInterval, ParseError::Number(error)));
            },
        };
        let spawn_count = match readings.spawn_count {
            Ok(number) => number,
            Err(error) => {
                return Err(FormError::Field(Field::SpawnCount, ParseError::Number(error)));
            },
        };
        let entrypoints = match entrypoints_from(readings.entrypoints.as_slice(), spawn_count) {
            Ok(entrypoints) => entrypoints,
            Err(error) => {
                return Err(FormError::Field(Field::Entrypoints, error));
            },
        };
        let sprite_idx_base = match readings.sprite_idx_base {
            Ok(number) => number,
            Err(error) => {
                return Err(FormError::Field(Field::SpriteIdxBase, ParseError::Number(error)));
            },
        };
        let difficulty = match readings.difficulty {
            Ok(number) => number,
            Err(error) => {
                return Err(FormError::Field(Field::Difficulty, ParseError::Number(error)));
            },
        };
        let x_ini = match readings.x_ini {
            Ok(number) => number,
            Err(error) => {
                return Err(FormError::Field(Field::XIni, ParseError::Number(error)));
            },
        };
        let y_ini = match readings.y_ini {
            Ok(number) => number,
            Err(error) => {
                return Err(FormError::Field(Field::YIni, ParseError::Number(error)));
            },
        };
        let program = match readings.program {
            Some(program) => program,
            None => {
                return Err(FormError::Assemble);
            },
        };
        let stage = match stage_from(readings.stage) {
            Ok(stage) => stage,
            Err(error) => {
                return Err(FormError::Field(Field::Stage, error));
            },
        };
        let rank = match rank_from(readings.rank) {
            Ok(rank) => rank,
            Err(error) => {
                return Err(FormError::Field(Field::Rank, error));
            },
        };
        let rng_idx = match readings.rng_idx {
            Ok(number) => number,
            Err(error) => {
                return Err(FormError::Field(Field::RngIdx, ParseError::Number(error)));
            },
        };
        Ok(
            Play {
                spawn_interval,
                spawn_count,
                entrypoints,
                enemy_init: EnemyInit {
                    sprite_idx_base,
                    program,
                    boss: form.boss,
                    difficulty,
                    shot_with_rank: form.shot_with_rank,
                    accel_shot_with_rank: form.accel_shot_with_rank,
                    homing_shot_with_rank: form.homing_shot_with_rank,
                    extra_act_with_rank: form.extra_act_with_rank,
                    accel_with_rank: form.accel_with_rank,
                    rank,
                    x: x_ini,
                    y: y_ini,
                },
                second_round: form.second_round,
                stage,
                rng_idx,
            },
        )
    }

    /// Reads a form. `program` is the assembled program, or nothing if the
    /// assembler refused the text.
    pub fn parse(form: &Form, program: Option<Vec<u8>>) -> (made: Result<Play, FormError>)
        ensures
            Play::is_made_from(made, *form, form.readings(program_view(program))),
    {
        let readings = Readings {
            spawn_interval: parse_usize(form.spawn_interval.as_str()),
            spawn_count: parse_usize(form.spawn_count.as_str()),
            entrypoints: entrypoints_read(form.entrypoints.as_str()),
            sprite_idx_base: parse_u8(form.sprite_idx_base.as_str()),
            difficulty: parse_u8(form.difficulty.as_str()),
            x_ini: parse_u8(form.x_ini.as_str()),
            y_ini: parse_u8(form.y_ini.as_str()),
            program,
            stage: parse_u8(form.stage.as_str()),
            rank: parse_u8(form.rank.as_str()),
            rng_idx: parse_u8(form.rng_idx.as_str()),
        };
        Play::from_readings(form, readings)
    }

    /// Starts the play: makes its spawner and sets the round, the stage and
    /// the random index of `game`. If the number of entrypoints is not the
    /// spawn count there is no spawner, and `game` stays as it is.
    pub fn start(self, game: &mut Game) -> (made: Result<EnemySpawner, ConfigError>)
        ensures
            self.entrypoints@.len() != self.spawn_count ==> made == Err::<
                EnemySpawner,
                ConfigError,
            >(ConfigError::EntrypointCountMismatch) && *final(game) == *old(game),
            self.entrypoints@.len() == self.spawn_count ==> made is Ok && made->Ok_0@
                == SpawnerState::fresh(
                self.spawn_interval as nat,
                self.entrypoints@,
                self.enemy_init@,
            ) && *final(game) == (Game {
                second_round: self.second_round,
                stage: self.stage,
                rand_idx: self.rng_idx,
                ..*old(game)
            }),
    {
        let made = EnemySpawner::new(
            self.spawn_interval,
            self.spawn_count,
            self.entrypoints.as_slice(),
            self.enemy_init,
        );
        if made.is_ok() {
            game.second_round = self.second_round;
            game.stage = self.stage;
            game.rand_idx = self.rng_idx;
        }
        made
    }
}

impl Field {
    /// The words of [`Field::complaint`].
    pub open spec fn complaint_text(self) -> Seq<char> {
        match self {
            Field::SpawnInterval => "cannot parse spawn interval"@,
            Field::SpawnCount => "cannot parse spawn count"@,
            Field::Entrypoints => "entrypoints error"@,
            Field::SpriteIdxBase => "cannot parse sprite index base"@,
            Field::Difficulty => "cannot parse difficulty"@,
            Field::XIni => "cannot parse initial position x"@,
            Field::YIni => "cannot parse initial position y"@,
            Field::Stage => "cannot parse stage"@,
            Field::Rank => "cannot parse rank"@,
            Field::RngIdx => "cannot parse RNG index"@,
        }
    }

    /// What is said when this text cannot be read.
    pub fn complaint(&self) -> (text: String)
        ensures
            text@ == self.complaint_text(),
    {
        match self {
            Field::SpawnInterval => "cannot parse spawn interval".to_owned(),
            Field::SpawnCount => "cannot parse spawn count".to_owned(),
            Field::Entrypoints => "entrypoints error".to_owned(),
            Field::SpriteIdxBase => "cannot parse sprite index base".to_owned(),
            Field::Difficulty => "cannot parse difficulty".to_owned(),
            Field::XIni => "cannot parse initial position x".to_owned(),
            Field::YIni => "cannot parse initial position y".to_owned(),
            Field::Stage => "cannot parse stage".to_owned(),
            Field::Rank => "cannot parse rank".to_owned(),
            Field::RngIdx => "cannot parse RNG index".to_owned(),
        }
    }
}

impl FormError {
    /// The words of [`FormError::message`].
    pub open spec fn message_text(self) -> Seq<char> {
        match self {
            FormError::Field(field, error) => field.complaint_text() + ": "@
                + error.message_text(),
            FormError::Assemble => "assemble failed"@,
        }
    }

    /// The fault in words: what is said of the text, a colon, and why the text
    /// could not be read.
    pub fn message(&self) -> (text: String)
        ensures
            text@ == self.message_text(),
    {
        match self {
            FormError::Field(field, error) => {
                let mut text = field.complaint();
                text.append(": ");
                let cause = error.message();
                text.append(cause.as_str());
                text
            },
            FormError::Assemble => "assemble failed".to_owned(),
        }
    }
}

} // verus!
