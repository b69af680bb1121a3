//! The environment that an interpreter queries while its enemy runs.

use vstd::prelude::*;

verus! {

/// Number of entries of a random table.
pub const RAND_TABLE_LEN: usize = 128;

/// The environment shared by all enemies: the round, the stage, the position
/// of the hero, and a stream of random bytes read from a table.
///
/// The stream is driven by the cursor `rand_idx`. Only the low seven bits of
/// the cursor select the entry, so the table is run through twice while the
/// cursor runs through its 256 values.
#[derive(Debug)]
pub struct Game {
    pub second_round: bool,
    pub stage: u8,
    pub hero_x: u8,
    pub hero_y: u8,
    pub rand_idx: u8,
    pub rand_table: [u8; RAND_TABLE_LEN],
}

/// The entry of a random table that the cursor value `cursor` selects.
pub open spec fn rand_slot(cursor: u8) -> int {
    (cursor & 0x7F) as int
}

/// The cursor value that follows `cursor`.
pub open spec fn rand_successor(cursor: u8) -> u8 {
    if cursor == 255 {
        0
    } else {
        (cursor + 1) as u8
    }
}

impl Game {
    /// The byte that the next call of [`Game::rand`] returns.
    pub open spec fn next_rand(self) -> u8 {
        self.rand_table@[rand_slot(self.rand_idx)]
    }

    /// The environment after the next call of [`Game::rand`].
    pub open spec fn after_rand(self) -> Game {
        Game { rand_idx: rand_successor(self.rand_idx), ..self }
    }

    /// The environment after `n` calls of [`Game::rand`].
    pub open spec fn after_rands(self, n: nat) -> Game
        decreases n,
    {
        if n == 0 {
            self
        } else {
            self.after_rands((n - 1) as nat).after_rand()
        }
    }

    /// The byte that the call of [`Game::rand`] with number `n` returns, the
    /// first call having number 0.
    pub open spec fn nth_rand(self, n: nat) -> u8 {
        self.after_rands(n).next_rand()
    }

    /// An environment with the given random table, at the first stage of the
    /// first round, with the cursor at 0.
    pub fn with_rand_table(rand_table: [u8; RAND_TABLE_LEN]) -> (game: Game)
        ensures
            game == (Game {
                second_round: false,
                stage: 1,
                hero_x: 120,
                hero_y: 200,
                rand_idx: 0,
                rand_table,
            }),
    {
        Game { second_round: false, stage: 1, hero_x: 120, hero_y: 200, rand_idx: 0, rand_table }
    }

    /// Whether the second round is being played.
    pub fn is_second_round(&self) -> (second_round: bool)
        ensures
            second_round == self.second_round,
    {
        self.second_round
    }

    /// The stage being played.
    pub fn stage(&self) -> (stage: u8)
        ensures
            stage == self.stage,
    {
        self.stage
    }

    /// The horizontal position of the hero.
    pub fn hero_x(&self) -> (x: u8)
        ensures
            x == self.hero_x,
    {
        self.hero_x
    }

    /// The vertical position of the hero.
    pub fn hero_y(&self) -> (y: u8)
        ensures
            y == self.hero_y,
    {
        self.hero_y
    }

    /// The next byte of the random stream: the entry of the table at the low
    /// seven bits of the cursor. The cursor then moves on by one, from 255 to 0.
    pub fn rand(&mut self) -> (byte: u8)
        ensures
            byte == old(self).next_rand(),
            *final(self) == old(self).after_rand(),
    {
        let cursor = self.rand_idx;
        let slot = (cursor & 0x7F) as usize;
        assert(cursor & 0x7F < 128) by (bit_vector);
        self.rand_idx = cursor.wrapping_add(1);
        self.rand_table[slot]
    }

    /// An enemy asks to shoot at the hero. This environment has no bullets:
    /// nothing changes.
    pub fn try_shoot_aim(&mut self, x: u8, y: u8, speed_mask: u8, force_homing: bool)
        ensures
            *final(self) == *old(self),
    {
    }

    /// An enemy asks for the music to be restored. This environment has no
    /// audio: nothing changes.
    pub fn restore_music(&mut self)
        ensures
            *final(self) == *old(self),
    {
    }

    /// An enemy asks for a sound. This environment has no audio: nothing
    /// changes.
    pub fn play_sound(&mut self, sound: u8)
        ensures
            *final(self) == *old(self),
    {
    }

    /// The low seven bits of a cursor value are its remainder modulo 128.
    pub proof fn lemma_rand_slot(cursor: u8)
        ensures
            rand_slot(cursor) == cursor as int % 128,
            0 <= rand_slot(cursor) < 128,
    {
        assert(cursor & 0x7F == cursor % 128) by (bit_vector);
    }

    /// `n` calls of [`Game::rand`] move the cursor on by `n` modulo 256 and
    /// leave everything else as it is, and the call with number `n` returns
    /// the table entry at the cursor's start plus `n`, modulo 128.
    pub proof fn lemma_rand_stream(self, n: nat)
        ensures
            self.after_rands(n) == (Game {
                rand_idx: ((self.rand_idx + n) % 256) as u8,
                ..self
            }),
            self.nth_rand(n) == self.rand_table@[(self.rand_idx + n) % 128],
        decreases n,
    {
        if n > 0 {
            self.lemma_rand_stream((n - 1) as nat);
        }
        let cursor = ((self.rand_idx + n) % 256) as u8;
        Self::lemma_rand_slot(cursor);
        assert(((self.rand_idx + n) % 256) % 128 == (self.rand_idx + n) % 128) by {
            vstd::arithmetic::div_mod::lemma_mod_mod(self.rand_idx + n, 128, 2);
        }
    }

    /// With the cursor at 0 the first 128 calls of [`Game::rand`] return the
    /// table in order, and after them the table starts over: the call with
    /// number `n` returns the entry `n % 128`.
    pub proof fn lemma_fresh_rand_stream(self, n: nat)
        requires
            self.rand_idx == 0,
        ensures
            self.nth_rand(n) == self.rand_table@[n as int % 128],
            n < 128 ==> self.nth_rand(n) == self.rand_table@[n as int],
            self.nth_rand(128) == self.rand_table@[0],
            self.nth_rand(129) == self.rand_table@[1],
    {
        self.lemma_rand_stream(n);
        self.lemma_rand_stream(128);
        self.lemma_rand_stream(129);
    }
}

impl Default for Game {
    /// The environment at the first stage of the first round, with the cursor
    /// at 0 and a table of zeros, so that every random byte is 0.
    fn default() -> (game: Game)
        ensures
            game == (Game {
                second_round: false,
                stage: 1,
                hero_x: 120,
                hero_y: 200,
                rand_idx: 0,
                rand_table: game.rand_table,
            }),
            forall|i: int| 0 <= i < 128 ==> game.rand_table@[i] == 0,
    {
        Game::with_rand_table([0u8; RAND_TABLE_LEN])
    }
}

} // verus!
