use vstd::prelude::*;

verus! {

/// Length of the voyage, in simulated milliseconds (thirty days).
pub const JOURNEY_DURATION_MS: u64 = 2_592_000_000;

/// Trip progress is a fraction in parts of this scale: `PROGRESS_SCALE` is the
/// whole voyage.
pub const PROGRESS_SCALE: u64 = 1_000_000_000;

/// The smallest time step a tick takes; shorter requests are raised to it.
pub const MIN_STEP_MS: u64 = 1;

/// Trip progress after `elapsed_ms` simulated milliseconds, in parts of
/// `PROGRESS_SCALE`, rounded down and capped at the end of the voyage.
pub open spec fn progress_spec(elapsed_ms: nat) -> nat {
    if elapsed_ms >= JOURNEY_DURATION_MS {
        PROGRESS_SCALE as nat
    } else {
        (elapsed_ms * (PROGRESS_SCALE as int) / (JOURNEY_DURATION_MS as int)) as nat
    }
}

/// The step a tick of `delta_ms` really takes.
pub open spec fn step_spec(delta_ms: nat) -> nat {
    if delta_ms < MIN_STEP_MS {
        MIN_STEP_MS as nat
    } else {
        delta_ms
    }
}

/// Trip progress at `elapsed_ms`: elapsed time over the voyage's length,
/// no more than the whole voyage.
pub fn calculate_progress(elapsed_ms: u64) -> (r: u64)
    ensures
        r == progress_spec(elapsed_ms as nat),
        r <= PROGRESS_SCALE,
{
    if elapsed_ms >= JOURNEY_DURATION_MS {
        PROGRESS_SCALE
    } else {
        proof {
            assert(elapsed_ms * PROGRESS_SCALE <= JOURNEY_DURATION_MS * PROGRESS_SCALE)
                by (nonlinear_arith)
                requires elapsed_ms < JOURNEY_DURATION_MS;
            assert(elapsed_ms * PROGRESS_SCALE / JOURNEY_DURATION_MS as int <= PROGRESS_SCALE)
                by (nonlinear_arith)
                requires elapsed_ms < JOURNEY_DURATION_MS;
        }
        elapsed_ms * PROGRESS_SCALE / JOURNEY_DURATION_MS
    }
}

/// The physical state of one container, advanced by the three update systems.
///
/// The engine decides when each system runs and in which order; a type of
/// this trait says what each does to one container.
pub trait Body: Sized {
    /// The state `moved` gives for `progress`: a function of the state and
    /// the progress alone.
    spec fn moved_spec(&self, progress: u64) -> Self;

    /// The state `cooled` gives for a step of `step_ms`.
    spec fn cooled_spec(&self, step_ms: u64) -> Self;

    /// The state `decayed` gives for a step of `step_ms`.
    spec fn decayed_spec(&self, step_ms: u64) -> Self;

    /// Position on the route at trip progress `progress` (parts of
    /// `PROGRESS_SCALE`); derived from the progress alone, not from the
    /// previous position.
    fn moved(&self, progress: u64) -> (r: Self)
        ensures
            r == self.moved_spec(progress),
    ;

    /// Temperature after `step_ms` of reefer control against heat leak.
    fn cooled(&self, step_ms: u64) -> (r: Self)
        ensures
            r == self.cooled_spec(step_ms),
    ;

    /// Quality after `step_ms` of decay at the current temperature.
    fn decayed(&self, step_ms: u64) -> (r: Self)
        ensures
            r == self.decayed_spec(step_ms),
    ;
}

/// One tick's update of one container: moved to `progress`, then cooled and
/// decayed for `step_ms`, in that order.
pub open spec fn advanced_spec<B: Body>(b: B, progress: u64, step_ms: u64) -> B {
    b.moved_spec(progress).cooled_spec(step_ms).decayed_spec(step_ms)
}

/// One container in the store: its identifier and its physical state.
#[derive(Clone, Copy, Debug)]
pub struct ContainerEntity<B> {
    pub id: u64,
    pub body: B,
}

/// A copy of every container and of the simulation clock, taken at one instant.
#[derive(Clone, Debug)]
pub struct WorldState<B> {
    pub containers: Vec<ContainerEntity<B>>,
    pub sim_time_ms: u64,
}

/// The engine: the store of containers, keyed by sequential identifiers, and
/// the simulation clock.
pub struct SimulationEngine<B> {
    entities: Vec<ContainerEntity<B>>,
    next_id: u64,
    sim_time_ms: u64,
}

/// `s` holds exactly the containers of `entities` and the clock `sim_time`.
pub open spec fn is_snapshot_of<B>(s: WorldState<B>, entities: Seq<ContainerEntity<B>>, sim_time: nat) -> bool {
    &&& s.containers@ == entities
    &&& s.sim_time_ms == sim_time
}

impl<B> SimulationEngine<B> {
    /// The containers, in the store's order.
    pub closed spec fn entities_spec(&self) -> Seq<ContainerEntity<B>> {
        self.entities@
    }

    /// The identifier the next spawn hands out.
    pub closed spec fn next_id_spec(&self) -> nat {
        self.next_id as nat
    }

    /// Simulated milliseconds elapsed.
    pub closed spec fn sim_time_spec(&self) -> nat {
        self.sim_time_ms as nat
    }

    /// The store's invariant: the containers are numbered 1, 2, ... in order
    /// of creation, and the next identifier follows the last.
    pub open spec fn wf(&self) -> bool {
        &&& self.next_id_spec() == self.entities_spec().len() + 1
        &&& forall|i: int|
            0 <= i < self.entities_spec().len() ==> #[trigger] self.entities_spec()[i].id == i + 1
    }

    /// An engine with no containers and the clock at zero.
    pub fn new() -> (r: Self)
        ensures
            r.wf(),
            r.entities_spec().len() == 0,
            r.sim_time_spec() == 0,
    {
        SimulationEngine { entities: Vec::new(), next_id: 1, sim_time_ms: 0 }
    }

    /// Adds a container in state `body` and returns its identifier, the next
    /// unused one.
    pub fn spawn_container(&mut self, body: B) -> (id: u64)
        requires
            old(self).wf(),
            old(self).entities_spec().len() + 1 < u64::MAX,
        ensures
            final(self).wf(),
            id == old(self).entities_spec().len() + 1,
            id == old(self).next_id_spec(),
            final(self).entities_spec() == old(self).entities_spec().push(
                ContainerEntity { id, body },
            ),
            final(self).sim_time_spec() == old(self).sim_time_spec(),
    {
        let id = self.next_id;
        self.next_id = self.next_id + 1;
        self.entities.push(ContainerEntity { id, body });
        id
    }

    /// Number of containers in the store.
    pub fn len(&self) -> (r: usize)
        ensures
            r == self.entities_spec().len(),
    {
        self.entities.len()
    }

    /// Simulated milliseconds elapsed.
    pub fn sim_time_ms(&self) -> (r: u64)
        ensures
            r == self.sim_time_spec(),
    {
        self.sim_time_ms
    }
}

impl<B> Default for SimulationEngine<B> {
    /// The same as `new`.
    fn default() -> (r: Self)
        ensures
            r.wf(),
            r.entities_spec().len() == 0,
            r.sim_time_spec() == 0,
    {
        Self::new()
    }
}

/// `after` is `before` ticked by `delta_ms`: the clock advanced by the
/// step, and each container, identifier kept, moved to the progress of the
/// advanced clock, then cooled and decayed for the step.
pub open spec fn is_tick_of<B: Body>(
    before: SimulationEngine<B>,
    after: SimulationEngine<B>,
    delta_ms: nat,
) -> bool {
    &&& after.sim_time_spec() == before.sim_time_spec() + step_spec(delta_ms)
    &&& after.entities_spec().len() == before.entities_spec().len()
    &&& forall|i: int|
        0 <= i < after.entities_spec().len() ==> #[trigger] after.entities_spec()[i].id
            == before.entities_spec()[i].id
    &&& forall|i: int|
        0 <= i < after.entities_spec().len() ==> #[trigger] after.entities_spec()[i].body
            == advanced_spec(
            before.entities_spec()[i].body,
            progress_spec(after.sim_time_spec()) as u64,
            step_spec(delta_ms) as u64,
        )
}

impl<B: Body> SimulationEngine<B> {
    /// Advances the clock by `delta_ms` (raised to `MIN_STEP_MS` if smaller),
    /// works out trip progress once, then moves, cools and decays every
    /// container, in that order.
    pub fn tick(&mut self, delta_ms: u64)
        requires
            old(self).wf(),
            old(self).sim_time_spec() + step_spec(delta_ms as nat) <= u64::MAX,
        ensures
            final(self).wf(),
            is_tick_of(*old(self), *final(self), delta_ms as nat),
    {
        let step_ms: u64 = if delta_ms < MIN_STEP_MS {
            MIN_STEP_MS
        } else {
            delta_ms
        };
        self.sim_time_ms = self.sim_time_ms + step_ms;
        let progress = calculate_progress(self.sim_time_ms);
        let n = self.entities.len();
        let mut i: usize = 0;
        while i < n
            invariant
                self.wf(),
                n == self.entities@.len(),
                i <= n,
                self.sim_time_ms == old(self).sim_time_ms + step_ms,
                step_ms == step_spec(delta_ms as nat),
                n == old(self).entities@.len(),
                progress == progress_spec(self.sim_time_ms as nat),
                forall|j: int|
                    0 <= j < i ==> #[trigger] self.entities@[j].body == advanced_spec(
                        old(self).entities@[j].body,
                        progress,
                        step_ms,
                    ),
                forall|j: int| i <= j < n ==> #[trigger] self.entities@[j] == old(self).entities@[j],
            decreases n - i,
        {
            let id = self.entities[i].id;
            let body = self.entities[i].body.moved(progress).cooled(step_ms).decayed(step_ms);
            self.entities.set(i, ContainerEntity { id, body });
            i = i + 1;
        }
    }
}

impl<B: Copy> SimulationEngine<B> {
    /// A copy of every container, in the store's order, and of the clock.
    pub fn get_state(&self) -> (r: WorldState<B>)
        ensures
            is_snapshot_of(r, self.entities_spec(), self.sim_time_spec()),
    {
        let mut containers: Vec<ContainerEntity<B>> = Vec::new();
        let mut i: usize = 0;
        while i < self.entities.len()
            invariant
                i <= self.entities@.len(),
                containers@ == self.entities@.subrange(0, i as int),
            decreases self.entities@.len() - i,
        {
            containers.push(self.entities[i]);
            i = i + 1;
            assert(containers@ =~= self.entities@.subrange(0, i as int));
        }
        assert(containers@ =~= self.entities@);
        WorldState { containers, sim_time_ms: self.sim_time_ms }
    }
}

/// Identifiers are sequential and distinct: in a well-formed engine the
/// container at place `i` has identifier `i + 1`, so the first spawn yields 1
/// and `n` spawns yield `n` distinct identifiers `1..=n`.
pub proof fn lemma_spawned_ids_sequential<B>(e: SimulationEngine<B>)
    requires
        e.wf(),
    ensures
        forall|i: int| 0 <= i < e.entities_spec().len() ==> #[trigger] e.entities_spec()[i].id == i + 1,
        forall|i: int, j: int|
            0 <= i < e.entities_spec().len() && 0 <= j < e.entities_spec().len() && i != j
                ==> #[trigger] e.entities_spec()[i].id != #[trigger] e.entities_spec()[j].id,
        e.next_id_spec() == e.entities_spec().len() + 1,
{
}

/// A snapshot of an engine that holds no containers and whose clock reads
/// zero, as `new` makes it, holds no containers and reads zero.
pub proof fn lemma_fresh_snapshot_empty<B>(e: SimulationEngine<B>, s: WorldState<B>)
    requires
        e.entities_spec().len() == 0,
        e.sim_time_spec() == 0,
        is_snapshot_of(s, e.entities_spec(), e.sim_time_spec()),
    ensures
        s.containers@.len() == 0,
        s.sim_time_ms == 0,
{
}

/// A tick is deterministic: two engines with the same containers and the same
/// clock, ticked by the same step, end with the same containers, in the same
/// order, and the same clock.
pub proof fn lemma_tick_deterministic<B: Body>(
    a0: SimulationEngine<B>,
    a1: SimulationEngine<B>,
    b0: SimulationEngine<B>,
    b1: SimulationEngine<B>,
    delta_ms: nat,
)
    requires
        a0.entities_spec() == b0.entities_spec(),
        a0.sim_time_spec() == b0.sim_time_spec(),
        is_tick_of(a0, a1, delta_ms),
        is_tick_of(b0, b1, delta_ms),
    ensures
        a1.entities_spec() == b1.entities_spec(),
        a1.sim_time_spec() == b1.sim_time_spec(),
{
    assert forall|i: int| 0 <= i < a1.entities_spec().len() implies a1.entities_spec()[i]
        == b1.entities_spec()[i] by {
        assert(a1.entities_spec()[i].id == b1.entities_spec()[i].id);
        assert(a1.entities_spec()[i].body == b1.entities_spec()[i].body);
    }
    assert(a1.entities_spec() =~= b1.entities_spec());
}

/// Once the clock has reached the journey's length, a tick moves every
/// container with the full progress: the journey is complete and the route
/// ends where it ends.
pub proof fn lemma_journey_complete<B: Body>(
    before: SimulationEngine<B>,
    after: SimulationEngine<B>,
    delta_ms: nat,
)
    requires
        is_tick_of(before, after, delta_ms),
        after.sim_time_spec() >= JOURNEY_DURATION_MS,
    ensures
        forall|i: int|
            0 <= i < after.entities_spec().len() ==> #[trigger] after.entities_spec()[i].body
                == advanced_spec(
                before.entities_spec()[i].body,
                PROGRESS_SCALE,
                step_spec(delta_ms) as u64,
            ),
{
}

} // verus!
