//! Stochastic trajectory generation.
//!
//! A trajectory is a set of sample paths of a named stochastic process,
//! discretized over `[t_0, t_n]` in `num_steps` equal increments by the
//! first-order Euler-Maruyama scheme. With an explicit seed the whole
//! trajectory is a mathematical function of the parameters, so seeded
//! sampling is bit-identical across invocations.

use vstd::prelude::*;
use vstd::wrapping::u64_specs;
use crate::errors::SimulationError;
use crate::fixed;
use crate::fixed::{clamp_i64, spec_fx_add, spec_fx_mul, spec_fx_sqrt, spec_fx_sub, tdiv};
use crate::rng;
use crate::rng::{spec_gauss, spec_mix, spec_state_after, Rng, GAUSS_DRAWS};

verus! {

/// Which stochastic differential equation drives the path, with its
/// constants in fixed point.
#[derive(Clone, Copy, Debug, PartialEq, Eq, Structural)]
pub enum ProcessParameters {
    /// Mean-reverting diffusion: `dX = theta * (mean - X) * dt + std_dev * dW`.
    MeanReverting { mean: i64, std_dev: i64, theta: i64 },
    /// Multiplicative drift-diffusion: `dX = drift * X * dt + volatility * X * dW`.
    DriftDiffusion { drift: i64, volatility: i64 },
}

/// The discretization grid and seeding of one sampling request.
#[derive(Clone, Copy, Debug, PartialEq, Eq)]
pub struct SamplingParameters {
    /// Value held at index 0 of every path.
    pub initial_price: i64,
    /// Start of the covered time span, in fixed point.
    pub t_0: i64,
    /// End of the covered time span, in fixed point.
    pub t_n: i64,
    /// Number of increments; every path holds `num_steps + 1` values.
    pub num_steps: usize,
    /// Explicit seed for a reproducible run; `None` takes fresh entropy.
    pub seed: Option<u64>,
}

impl SamplingParameters {
    /// The parameters describe a nonempty forward time span that the
    /// engine can discretize.
    pub open spec fn spec_valid(self) -> bool {
        &&& self.num_steps > 0
        &&& self.num_steps < usize::MAX
        &&& self.t_0 < self.t_n
    }

    /// The time increment: `(t_n - t_0) / num_steps`, in fixed point.
    pub open spec fn spec_dt(self) -> int {
        clamp_i64(tdiv(self.t_n - self.t_0, self.num_steps as int))
    }
}

/// The time increment of a valid grid.
fn compute_dt(tp: &SamplingParameters) -> (r: i64)
    requires
        tp.spec_valid(),
    ensures
        r as int == tp.spec_dt(),
        r >= 0,
{
    let diff: u128 = (tp.t_n as i128 - tp.t_0 as i128) as u128;
    let q: u128 = diff / (tp.num_steps as u128);
    proof {
        assert(q <= diff) by (nonlinear_arith)
            requires
                q == diff / (tp.num_steps as u128),
                tp.num_steps >= 1,
        ;
    }
    if q > i64::MAX as u128 {
        i64::MAX
    } else {
        q as i64
    }
}

/// The Brownian increment consumed by step `j`: an approximately normal
/// draw scaled by the square root of the time increment.
pub open spec fn spec_dw(seed: u64, j: nat, sdt: int) -> int {
    spec_fx_mul(spec_gauss(spec_state_after(seed, j * (GAUSS_DRAWS as nat))), sdt)
}

/// One Euler-Maruyama step of the chosen process.
pub open spec fn spec_step(p: ProcessParameters, x: int, dt: int, dw: int) -> int {
    match p {
        ProcessParameters::MeanReverting { mean, std_dev, theta } => spec_fx_add(
            spec_fx_add(
                x,
                spec_fx_mul(spec_fx_mul(theta as int, spec_fx_sub(mean as int, x)), dt),
            ),
            spec_fx_mul(std_dev as int, dw),
        ),
        ProcessParameters::DriftDiffusion { drift, volatility } => spec_fx_add(
            spec_fx_add(x, spec_fx_mul(spec_fx_mul(drift as int, x), dt)),
            spec_fx_mul(spec_fx_mul(volatility as int, x), dw),
        ),
    }
}

/// The value at index `k` of the path drawn from `seed`.
pub open spec fn spec_point(
    p: ProcessParameters,
    tp: SamplingParameters,
    seed: u64,
    k: nat,
) -> int
    decreases k,
{
    if k == 0 {
        tp.initial_price as int
    } else {
        spec_step(
            p,
            spec_point(p, tp, seed, (k - 1) as nat),
            tp.spec_dt(),
            spec_dw(seed, (k - 1) as nat, spec_fx_sqrt(tp.spec_dt())),
        )
    }
}

/// The seed of path `i` within a trajectory drawn from `seed`: decorrelated
/// so that paths do not share a draw stream.
pub open spec fn spec_path_seed(seed: u64, i: nat) -> u64 {
    spec_mix(u64_specs::wrapping_add(seed, i as u64))
}

/// One Euler-Maruyama step, executable form.
fn step(p: &ProcessParameters, x: i64, dt: i64, dw: i64) -> (r: i64)
    ensures
        r as int == spec_step(*p, x as int, dt as int, dw as int),
{
    match p {
        ProcessParameters::MeanReverting { mean, std_dev, theta } => {
            let pull: i64 = fixed::fx_mul(fixed::fx_mul(*theta, fixed::fx_sub(*mean, x)), dt);
            let noise: i64 = fixed::fx_mul(*std_dev, dw);
            fixed::fx_add(fixed::fx_add(x, pull), noise)
        },
        ProcessParameters::DriftDiffusion { drift, volatility } => {
            let pull: i64 = fixed::fx_mul(fixed::fx_mul(*drift, x), dt);
            let noise: i64 = fixed::fx_mul(fixed::fx_mul(*volatility, x), dw);
            fixed::fx_add(fixed::fx_add(x, pull), noise)
        },
    }
}

/// One seeded sample path over the full grid.
fn sample_path(p: &ProcessParameters, tp: &SamplingParameters, seed: u64) -> (v: Vec<i64>)
    requires
        tp.spec_valid(),
    ensures
        v@.len() == tp.num_steps + 1,
        forall|k: int|
            0 <= k < v@.len() ==> v@[k] as int == spec_point(*p, *tp, seed, k as nat),
{
    let dt: i64 = compute_dt(tp);
    let sdt: i64 = fixed::fx_sqrt(dt);
    let mut gen = Rng::new(seed);
    let mut v: Vec<i64> = Vec::new();
    let mut x: i64 = tp.initial_price;
    v.push(x);
    let mut k: usize = 0;
    while k < tp.num_steps
        invariant
            k <= tp.num_steps < usize::MAX,
            dt as int == tp.spec_dt(),
            sdt as int == spec_fx_sqrt(tp.spec_dt()),
            gen.state == spec_state_after(seed, (k as nat) * (GAUSS_DRAWS as nat)),
            v@.len() == k + 1,
            x as int == spec_point(*p, *tp, seed, k as nat),
            forall|j: int|
                0 <= j < v@.len() ==> v@[j] as int == spec_point(*p, *tp, seed, j as nat),
        decreases tp.num_steps - k,
    {
        let g: i64 = gen.gauss();
        proof {
            rng::lemma_state_after_add(
                seed,
                (k as nat) * (GAUSS_DRAWS as nat),
                GAUSS_DRAWS as nat,
            );
            assert((k as nat) * (GAUSS_DRAWS as nat) + (GAUSS_DRAWS as nat) == ((k + 1)
                as nat) * (GAUSS_DRAWS as nat)) by (nonlinear_arith);
        }
        let dw: i64 = fixed::fx_mul(g, sdt);
        x = step(p, x, dt, dw);
        v.push(x);
        k = k + 1;
    }
    v
}

/// An ordered set of sampled paths; each path holds `num_steps + 1` prices,
/// path index 0 of the time grid holding the initial value.
#[derive(Clone, Debug, PartialEq)]
pub struct Trajectory {
    pub paths: Vec<Vec<i64>>,
}

impl Trajectory {
    /// The paths as mathematical sequences.
    pub open spec fn view_paths(self) -> Seq<Seq<i64>> {
        self.paths@.map_values(|path: Vec<i64>| path@)
    }

    /// `self` is exactly the trajectory that `seed` determines for these
    /// parameters: `width` paths, each pinned point by point.
    pub open spec fn matches_seed(
        self,
        p: ProcessParameters,
        tp: SamplingParameters,
        seed: u64,
        width: nat,
    ) -> bool {
        &&& self.paths@.len() == width
        &&& forall|i: int|
            0 <= i < width ==> (#[trigger] self.paths@[i])@.len() == tp.num_steps + 1
        &&& forall|i: int, k: int|
            0 <= i < width && 0 <= k < tp.num_steps + 1 ==> (#[trigger] self.paths@[i]@[k])
                as int == spec_point(p, tp, spec_path_seed(seed, i as nat), k as nat)
    }

    /// Shape alone: `width` paths of `num_steps + 1` points, each opening
    /// at the initial value.
    pub open spec fn well_formed(
        self,
        tp: SamplingParameters,
        width: nat,
    ) -> bool {
        &&& self.paths@.len() == width
        &&& forall|i: int|
            0 <= i < width ==> (#[trigger] self.paths@[i])@.len() == tp.num_steps + 1
        &&& forall|i: int|
            0 <= i < width ==> (#[trigger] self.paths@[i])@[0] == tp.initial_price
    }

    /// A seeded trajectory matches its shape contract.
    pub proof fn lemma_matches_implies_well_formed(
        self,
        p: ProcessParameters,
        tp: SamplingParameters,
        seed: u64,
        width: nat,
    )
        requires
            self.matches_seed(p, tp, seed, width),
        ensures
            self.well_formed(tp, width),
    {
    }

    /// Sampling is deterministic: two trajectories drawn from the same
    /// parameters and the same seed are equal at every path and index.
    pub proof fn lemma_sampling_deterministic(
        t1: Trajectory,
        t2: Trajectory,
        p: ProcessParameters,
        tp: SamplingParameters,
        seed: u64,
        width: nat,
    )
        requires
            t1.matches_seed(p, tp, seed, width),
            t2.matches_seed(p, tp, seed, width),
        ensures
            t1.view_paths() == t2.view_paths(),
    {
        assert(t1.view_paths() =~~= t2.view_paths());
    }

    /// Sample `width` independent paths using the given seed. Fails, before
    /// any sampling work, with a `Configuration` error exactly when the
    /// grid is empty (`num_steps == 0`), backward (`t_n <= t_0`), or too
    /// large for the machine, and with a `Sampling` error when no path at
    /// all is asked for.
    pub fn generate_seeded(
        p: &ProcessParameters,
        tp: &SamplingParameters,
        width: usize,
        seed: u64,
    ) -> (r: Result<Trajectory, SimulationError>)
        ensures
            r is Ok <==> (tp.spec_valid() && width > 0),
            !tp.spec_valid() ==> r == Err::<Trajectory, SimulationError>(
                SimulationError::Configuration,
            ),
            tp.spec_valid() && width == 0 ==> r == Err::<Trajectory, SimulationError>(
                SimulationError::Sampling,
            ),
            r is Ok ==> r->Ok_0.matches_seed(*p, *tp, seed, width as nat),
    {
        if tp.num_steps == 0 || tp.num_steps == usize::MAX || tp.t_n <= tp.t_0 {
            return Err(SimulationError::Configuration);
        }
        if width == 0 {
            return Err(SimulationError::Sampling);
        }
        let mut paths: Vec<Vec<i64>> = Vec::new();
        let mut i: usize = 0;
        while i < width
            invariant
                i <= width,
                tp.spec_valid(),
                paths@.len() == i,
                forall|a: int|
                    0 <= a < i ==> (#[trigger] paths@[a])@.len() == tp.num_steps + 1,
                forall|a: int, k: int|
                    0 <= a < i && 0 <= k < tp.num_steps + 1 ==> (#[trigger] paths@[a]@[k])
                        as int == spec_point(*p, *tp, spec_path_seed(seed, a as nat), k as nat),
            decreases width - i,
        {
            let path_seed: u64 = path_seed_at(seed, i);
            let path: Vec<i64> = sample_path(p, tp, path_seed);
            paths.push(path);
            i = i + 1;
        }
        Ok(Trajectory { paths })
    }

    /// Sample `width` independent paths. An explicit seed pins the whole
    /// trajectory; without one a fresh seed is drawn, and the result is the
    /// trajectory that some seed determines.
    pub fn generate(p: &ProcessParameters, tp: &SamplingParameters, width: usize) -> (r:
        Result<Trajectory, SimulationError>)
        ensures
            r is Ok <==> (tp.spec_valid() && width > 0),
            !tp.spec_valid() ==> r == Err::<Trajectory, SimulationError>(
                SimulationError::Configuration,
            ),
            tp.spec_valid() && width == 0 ==> r == Err::<Trajectory, SimulationError>(
                SimulationError::Sampling,
            ),
            r is Ok ==> match tp.seed {
                Some(s) => r->Ok_0.matches_seed(*p, *tp, s, width as nat),
                None => exists|s: u64| r->Ok_0.matches_seed(*p, *tp, s, width as nat),
            },
    {
        match tp.seed {
            Some(s) => Self::generate_seeded(p, tp, width, s),
            None => {
                let s: u64 = rng::fresh_seed();
                let r = Self::generate_seeded(p, tp, width, s);
                proof {
                    if r is Ok {
                        assert(r->Ok_0.matches_seed(*p, *tp, s, width as nat));
                    }
                }
                r
            },
        }
    }

    /// Number of paths held.
    pub fn width(&self) -> (r: usize)
        ensures
            r == self.paths@.len(),
    {
        self.paths.len()
    }
}

/// The decorrelated seed of path `i`, executable form.
fn path_seed_at(seed: u64, i: usize) -> (r: u64)
    ensures
        r == spec_path_seed(seed, i as nat),
{
    let mut gen = Rng::new(seed.wrapping_add(i as u64));
    let mixed: u64 = gen.next_u64();
    proof {
        assert(spec_mix(u64_specs::wrapping_add(seed, i as u64)) == mixed);
    }
    mixed
}

} // verus!
