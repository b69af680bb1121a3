//! The spawner: a timed release of enemies from a list of entrypoints.

use vstd::prelude::*;

use crate::enemy::{EnemyInit, EnemyInitView, SpawnOrder};

verus! {

/// Why a spawner could not be configured.
#[derive(Debug, Clone, Copy, PartialEq, Eq, Structural)]
pub enum ConfigError {
    /// The number of entrypoints differs from the number of enemies asked for.
    EntrypointCountMismatch,
}

/// Mathematical state of a spawner.
pub struct SpawnerState {
    /// Calls that give nothing between two releases.
    pub interval: nat,
    /// Calls that still give nothing before the next release.
    pub timer: nat,
    /// Enemies not released yet.
    pub remaining: nat,
    /// Entrypoints of all enemies, in the order of their release.
    pub entrypoints: Seq<usize>,
    /// Blueprint shared by all enemies.
    pub blueprint: EnemyInitView,
}

impl SpawnerState {
    /// The state of a spawner that has not been stepped yet.
    pub open spec fn fresh(interval: nat, entrypoints: Seq<usize>, blueprint: EnemyInitView) -> Self {
        SpawnerState {
            interval,
            timer: interval,
            remaining: entrypoints.len(),
            entrypoints,
            blueprint,
        }
    }

    /// The timer never exceeds the interval, and no more enemies remain than
    /// there are entrypoints.
    pub open spec fn wf(self) -> bool {
        &&& self.timer <= self.interval
        &&& self.remaining <= self.entrypoints.len()
    }

    /// Whether the next call releases an enemy.
    pub open spec fn due(self) -> bool {
        self.remaining > 0 && self.timer == 0
    }

    /// Number of enemies released so far.
    pub open spec fn released(self) -> int {
        self.entrypoints.len() - self.remaining
    }

    /// The entrypoint that the next call releases, if it releases one.
    pub open spec fn emission(self) -> Option<usize> {
        if self.due() {
            Some(self.entrypoints[self.released()])
        } else {
            None
        }
    }

    /// The state after the next call.
    pub open spec fn next(self) -> Self {
        if self.remaining == 0 {
            self
        } else if self.timer > 0 {
            SpawnerState { timer: (self.timer - 1) as nat, ..self }
        } else {
            SpawnerState { timer: self.interval, remaining: (self.remaining - 1) as nat, ..self }
        }
    }

    /// The state after `n` calls.
    pub open spec fn after(self, n: nat) -> Self
        decreases n,
    {
        if n == 0 {
            self
        } else {
            self.after((n - 1) as nat).next()
        }
    }

    /// What the call with number `n` releases, the first call having number 0.
    pub open spec fn emission_at(self, n: nat) -> Option<usize> {
        self.after(n).emission()
    }

    /// The entrypoints released by the first `n` calls, in order.
    pub open spec fn emitted(self, n: nat) -> Seq<usize>
        decreases n,
    {
        if n == 0 {
            Seq::empty()
        } else {
            let before = self.emitted((n - 1) as nat);
            match self.emission_at((n - 1) as nat) {
                Some(pc) => before.push(pc),
                None => before,
            }
        }
    }
}

/// Quotient and remainder of `n + 1` from those of `n`.
proof fn lemma_div_mod_succ(n: nat, period: nat)
    requires
        period > 0,
    ensures
        n % period < period - 1 ==> (n + 1) / period == n / period && (n + 1) % period == n
            % period + 1,
        n % period == period - 1 ==> (n + 1) / period == n / period + 1 && (n + 1) % period == 0,
        0 <= n % period < period,
        0 <= n / period,
{
    let q = n as int / period as int;
    let r = n as int % period as int;
    vstd::arithmetic::div_mod::lemma_fundamental_div_mod(n as int, period as int);
    vstd::arithmetic::div_mod::lemma_mod_bound(n as int, period as int);
    vstd::arithmetic::div_mod::lemma_div_pos_is_pos(n as int, period as int);
    assert(period * q == q * period) by (nonlinear_arith);
    if r < period - 1 {
        vstd::arithmetic::div_mod::lemma_fundamental_div_mod_converse(
            (n + 1) as int,
            period as int,
            q,
            r + 1,
        );
    } else {
        assert((q + 1) * period == q * period + period) by (nonlinear_arith);
        vstd::arithmetic::div_mod::lemma_fundamental_div_mod_converse(
            (n + 1) as int,
            period as int,
            q + 1,
            0,
        );
    }
}

impl SpawnerState {
    /// The state that a fresh spawner is in after `n` calls, in closed form:
    /// with `q` the quotient and `r` the remainder of `n` by `interval + 1`,
    /// `q` enemies have been released and the timer stands at `interval - r`,
    /// until all enemies are released.
    pub open spec fn scheduled(
        interval: nat,
        entrypoints: Seq<usize>,
        blueprint: EnemyInitView,
        n: nat,
    ) -> Self {
        let q = n / (interval + 1);
        let r = n % (interval + 1);
        if q < entrypoints.len() {
            SpawnerState {
                interval,
                timer: (interval - r) as nat,
                remaining: (entrypoints.len() - q) as nat,
                entrypoints,
                blueprint,
            }
        } else {
            SpawnerState { interval, timer: interval, remaining: 0, entrypoints, blueprint }
        }
    }

    /// What the call with number `n` (from 0) of a fresh spawner releases, in
    /// closed form: with `k` the quotient and `r` the remainder of `n` by
    /// `interval + 1`, entrypoint `k` if `r` is `interval` and there is an
    /// entrypoint `k`, and nothing otherwise.
    pub open spec fn scheduled_emission(interval: nat, entrypoints: Seq<usize>, n: nat) -> Option<
        usize,
    > {
        let k = n as int / (interval + 1) as int;
        if n % (interval + 1) == interval && k < entrypoints.len() {
            Some(entrypoints[k])
        } else {
            None
        }
    }

    /// What the first `n` calls of a fresh spawner release, in closed form:
    /// the first `n / (interval + 1)` entrypoints, or all of them if there are
    /// not so many.
    pub open spec fn scheduled_emitted(interval: nat, entrypoints: Seq<usize>, n: nat) -> Seq<
        usize,
    > {
        let k = n as int / (interval + 1) as int;
        if k < entrypoints.len() {
            entrypoints.take(k)
        } else {
            entrypoints
        }
    }

    /// A call leaves a well-formed state well-formed, and changes neither the
    /// interval nor the entrypoints nor the blueprint.
    pub proof fn lemma_next_keeps(self)
        requires
            self.wf(),
        ensures
            self.next().wf(),
            self.next().interval == self.interval,
            self.next().entrypoints == self.entrypoints,
            self.next().blueprint == self.blueprint,
            self.next().remaining <= self.remaining,
    {
    }

    /// Once no enemy remains, every further call gives nothing and leaves the
    /// state as it is.
    pub proof fn lemma_exhausted_is_terminal(self, n: nat)
        requires
            self.remaining == 0,
        ensures
            self.after(n) == self,
            self.emission_at(n) is None,
            self.emitted(n) == Seq::<usize>::empty(),
        decreases n,
    {
        if n > 0 {
            self.lemma_exhausted_is_terminal((n - 1) as nat);
        }
    }

    /// After `n` calls a fresh spawner is in the state that the closed form
    /// gives.
    pub proof fn lemma_fresh_after(
        interval: nat,
        entrypoints: Seq<usize>,
        blueprint: EnemyInitView,
        n: nat,
    )
        ensures
            Self::fresh(interval, entrypoints, blueprint).after(n) == Self::scheduled(
                interval,
                entrypoints,
                blueprint,
                n,
            ),
        decreases n,
    {
        let period = interval + 1;
        if n == 0 {
            vstd::arithmetic::div_mod::lemma_small_mod(0, period);
            vstd::arithmetic::div_mod::lemma_basic_div(0, period as int);
        } else {
            let m = (n - 1) as nat;
            Self::lemma_fresh_after(interval, entrypoints, blueprint, m);
            lemma_div_mod_succ(m, period);
        }
    }

    /// The schedule of a fresh spawner: the call with number `n` (from 0)
    /// releases an enemy exactly when `n` leaves the remainder `interval` on
    /// division by `interval + 1` and the quotient `k` is below the number of
    /// entrypoints, and then it releases entrypoint `k`. So the enemy with
    /// number `k` comes at `entrypoints[k]`, after `interval` calls that give
    /// nothing, and with `interval` 0 every call releases one until none remains.
    pub proof fn lemma_fresh_schedule(
        interval: nat,
        entrypoints: Seq<usize>,
        blueprint: EnemyInitView,
        n: nat,
    )
        ensures
            Self::fresh(interval, entrypoints, blueprint).emission_at(n)
                == Self::scheduled_emission(interval, entrypoints, n),
    {
        Self::lemma_fresh_after(interval, entrypoints, blueprint, n);
        lemma_div_mod_succ(n, interval + 1);
    }

    /// The enemy with number `k` is released by the call with number
    /// `k * (interval + 1) + interval`, at `entrypoints[k]`, and the `interval`
    /// calls before that one give nothing.
    pub proof fn lemma_fresh_release(
        interval: nat,
        entrypoints: Seq<usize>,
        blueprint: EnemyInitView,
        k: nat,
        gap: nat,
    )
        requires
            k < entrypoints.len(),
            gap <= interval,
        ensures
            gap < interval ==> Self::fresh(interval, entrypoints, blueprint).emission_at(
                k * (interval + 1) + gap,
            ) is None,
            gap == interval ==> Self::fresh(interval, entrypoints, blueprint).emission_at(
                k * (interval + 1) + gap,
            ) == Some(entrypoints[k as int]),
    {
        let n = k * (interval + 1) + gap;
        vstd::arithmetic::div_mod::lemma_fundamental_div_mod_converse(
            n as int,
            (interval + 1) as int,
            k as int,
            gap as int,
        );
        Self::lemma_fresh_schedule(interval, entrypoints, blueprint, n);
    }

    /// The first `n` calls of a fresh spawner release the first
    /// `n / (interval + 1)` entrypoints in their order, or all of them if there
    /// are not so many.
    pub proof fn lemma_fresh_emitted(
        interval: nat,
        entrypoints: Seq<usize>,
        blueprint: EnemyInitView,
        n: nat,
    )
        ensures
            Self::fresh(interval, entrypoints, blueprint).emitted(n) == Self::scheduled_emitted(
                interval,
                entrypoints,
                n,
            ),
        decreases n,
    {
        let period = interval + 1;
        let s = Self::fresh(interval, entrypoints, blueprint);
        assert(entrypoints.take(entrypoints.len() as int) =~= entrypoints);
        if n == 0 {
            vstd::arithmetic::div_mod::lemma_basic_div(0, period as int);
            assert(s.emitted(0) =~= entrypoints.take(0));
        } else {
            let m = (n - 1) as nat;
            Self::lemma_fresh_emitted(interval, entrypoints, blueprint, m);
            Self::lemma_fresh_schedule(interval, entrypoints, blueprint, m);
            lemma_div_mod_succ(m, period);
            let q = m / period;
            if m % period == interval && q < entrypoints.len() {
                assert(entrypoints.take(q as int).push(entrypoints[q as int]) =~= entrypoints.take(
                    q as int + 1,
                ));
            }
        }
    }

    /// Over its life a fresh spawner releases exactly its entrypoints, each
    /// once and in order: after `len * (interval + 1)` calls, and after any
    /// number of further calls, its emitted sequence is the entrypoints.
    pub proof fn lemma_fresh_releases_all(
        interval: nat,
        entrypoints: Seq<usize>,
        blueprint: EnemyInitView,
        n: nat,
    )
        requires
            n >= entrypoints.len() * (interval + 1),
        ensures
            Self::fresh(interval, entrypoints, blueprint).emitted(n) == entrypoints,
            Self::fresh(interval, entrypoints, blueprint).after(n).remaining == 0,
    {
        let period = (interval + 1) as int;
        let len = entrypoints.len() as int;
        Self::lemma_fresh_emitted(interval, entrypoints, blueprint, n);
        Self::lemma_fresh_after(interval, entrypoints, blueprint, n);
        vstd::arithmetic::div_mod::lemma_fundamental_div_mod(n as int, period);
        vstd::arithmetic::div_mod::lemma_mod_bound(n as int, period);
        let q = n as int / period;
        assert(q >= len) by (nonlinear_arith)
            requires
                n >= len * period,
                n == period * q + n as int % period,
                0 <= n as int % period < period,
                period > 0,
        ;
        assert(entrypoints.take(len) =~= entrypoints);
    }
}

/// Releases a fixed number of enemies, one every `interval + 1` calls of
/// [`EnemySpawner::step`], each at the next entrypoint of its list.
#[derive(Debug)]
pub struct EnemySpawner {
    spawn_interval: usize,
    spawn_timer: usize,
    spawn_remain: usize,
    entrypoints: Vec<usize>,
    enemy_init: EnemyInit,
}

impl View for EnemySpawner {
    type V = SpawnerState;

    closed spec fn view(&self) -> SpawnerState {
        SpawnerState {
            interval: self.spawn_interval as nat,
            timer: self.spawn_timer as nat,
            remaining: self.spawn_remain as nat,
            entrypoints: self.entrypoints@,
            blueprint: self.enemy_init@,
        }
    }
}

impl EnemySpawner {
    #[verifier::type_invariant]
    spec fn valid(self) -> bool {
        &&& self.spawn_timer <= self.spawn_interval
        &&& self.spawn_remain <= self.entrypoints@.len()
    }

    /// Makes a spawner that releases `count` enemies from the blueprint
    /// `enemy_init`, the enemy with number `k` at `entrypoints[k]`.
    ///
    /// Fails if and only if the number of entrypoints is not `count`.
    pub fn new(interval: usize, count: usize, entrypoints: &[usize], enemy_init: EnemyInit) -> (made:
        Result<Self, ConfigError>)
        ensures
            entrypoints@.len() != count ==> made == Err::<Self, ConfigError>(
                ConfigError::EntrypointCountMismatch,
            ),
            entrypoints@.len() == count ==> made is Ok && made->Ok_0@ == SpawnerState::fresh(
                interval as nat,
                entrypoints@,
                enemy_init@,
            ),
    {
        if entrypoints.len() != count {
            return Err(ConfigError::EntrypointCountMismatch);
        }
        Ok(
            EnemySpawner {
                spawn_interval: interval,
                spawn_timer: interval,
                spawn_remain: count,
                entrypoints: vstd::slice::slice_to_vec(entrypoints),
                enemy_init,
            },
        )
    }

    /// Advances the spawner by one tick.
    ///
    /// With no enemy remaining nothing changes and nothing is given. With the
    /// timer above zero the timer goes down by one and nothing is given.
    /// Otherwise the order for the next entrypoint is given, the timer starts
    /// over at the interval and one enemy fewer remains.
    pub fn step(&mut self) -> (order: Option<SpawnOrder>)
        ensures
            final(self)@ == old(self)@.next(),
            final(self)@.wf(),
            order is Some <==> old(self)@.due(),
            order is Some ==> order->0@ == old(self)@.blueprint.order(old(self)@.emission()->0),
    {
        proof {
            use_type_invariant(&*self);
        }
        if self.spawn_remain == 0 {
            return None;
        }
        if self.spawn_timer > 0 {
            self.spawn_timer -= 1;
            return None;
        }
        let pc = self.entrypoints[self.entrypoints.len() - self.spawn_remain];

        self.spawn_timer = self.spawn_interval;
        self.spawn_remain -= 1;

        Some(self.enemy_init.init(pc))
    }
}

} // verus!
