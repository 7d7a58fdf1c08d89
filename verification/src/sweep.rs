//! Parameter-sweep expansion.
//!
//! A meta configuration gives some numeric fields as a set of values; it
//! expands into the Cartesian product of those sets — one direct,
//! fully-resolved configuration per combination, in lexicographic order
//! of field declaration (first-declared field outermost), each with a
//! collision-free output directory encoding the varying values.

use vstd::prelude::*;
use crate::errors::SimulationError;
use crate::text::{spec_fx_chars, fx_to_string};

verus! {

/// Which simulation entry point a configuration drives.
#[derive(Clone, Copy, Debug, PartialEq, Eq, Structural)]
pub enum SimulationType {
    DynamicWeights,
    StablePortfolio,
}

/// A numeric field of a meta configuration: one fixed-point value, or a
/// finite set of values to sweep over.
#[derive(Clone, Debug, PartialEq)]
pub enum Param {
    Single(i64),
    Multiple(Vec<i64>),
}

impl Param {
    /// The values this field contributes to the product.
    pub open spec fn spec_values(self) -> Seq<i64> {
        match self {
            Param::Single(v) => seq![v],
            Param::Multiple(vs) => vs@,
        }
    }

    /// No value occurs twice, so combinations name distinct directories.
    pub open spec fn spec_distinct(self) -> bool {
        seq_distinct(self.spec_values())
    }

    pub fn values(&self) -> (r: Vec<i64>)
        ensures
            r@ == self.spec_values(),
    {
        match self {
            Param::Single(v) => {
                let mut out: Vec<i64> = Vec::new();
                out.push(*v);
                proof {
                    assert(out@ =~= self.spec_values());
                }
                out
            },
            Param::Multiple(vs) => {
                let n: usize = vs.len();
                let mut out: Vec<i64> = Vec::new();
                let mut i: usize = 0;
                while i < n
                    invariant
                        i <= n,
                        n == vs@.len(),
                        out@ == vs@.take(i as int),
                    decreases n - i,
                {
                    out.push(vs[i]);
                    proof {
                        assert(out@ =~= vs@.take(i as int + 1));
                    }
                    i = i + 1;
                }
                proof {
                    assert(vs@.take(n as int) =~= vs@);
                }
                out
            },
        }
    }
}

/// All elements pairwise distinct.
pub open spec fn seq_distinct(s: Seq<i64>) -> bool {
    forall|i: int, j: int| 0 <= i < j < s.len() ==> s[i] != s[j]
}

/// The geometric-drift process block: multiplicative drift and
/// volatility, in fixed point.
#[derive(Clone, Copy, Debug, PartialEq)]
pub struct GBMParameters<P> {
    pub drift: P,
    pub volatility: P,
}

/// The mean-reverting process block: mean, standard deviation, and
/// reversion rate, in fixed point.
#[derive(Clone, Copy, Debug, PartialEq)]
pub struct OUParameters<P> {
    pub mean: P,
    pub std_dev: P,
    pub theta: P,
}

/// The exogenous-trajectory block: the named process, its grid, and its
/// seeding.
#[derive(Clone, Debug, PartialEq)]
pub struct TrajectoryParameters<P> {
    /// Name of the process family driving the trajectory.
    pub process: String,
    /// Value every path opens at, in fixed point.
    pub initial_price: P,
    /// Start of the covered time span, in fixed point.
    pub t_0: i64,
    /// End of the covered time span, in fixed point.
    pub t_n: i64,
    /// Number of increments per path.
    pub num_steps: usize,
    /// Explicit seed for reproducible sampling.
    pub seed: Option<u64>,
}

/// Static pool parameters.
#[derive(Clone, Copy, Debug, PartialEq, Eq, Structural)]
pub struct PoolParameters {
    pub fee_basis_points: u64,
    /// Opening weight on the risky asset, in fixed point.
    pub weight_x: i64,
    /// Volatility the pool is steered toward, in fixed point.
    pub target_volatility: i64,
}

/// Static liquidity-provider parameters.
#[derive(Clone, Copy, Debug, PartialEq, Eq, Structural)]
pub struct LPParameters {
    /// Risky-token liquidity seeded at startup, in fixed point.
    pub x_liquidity: i64,
}

/// Static block-clock parameters.
#[derive(Clone, Copy, Debug, PartialEq, Eq, Structural)]
pub struct BlockParameters {
    /// Seconds per simulated block.
    pub timestep_size: u64,
}

/// Static weight-rebalancer parameters.
#[derive(Clone, Copy, Debug, PartialEq, Eq, Structural)]
pub struct WeightChangerParameters {
    /// Volatility the rebalancer steers toward, in fixed point.
    pub target_volatility: i64,
    /// A rebalance happens every this many ticks.
    pub update_frequency: u64,
}

impl GBMParameters<Param> {
    /// Every (drift, volatility) combination, drift outermost.
    pub fn generate(&self) -> (r: Vec<GBMParameters<i64>>)
        ensures
            r@.len() == self.drift.spec_values().len() * self.volatility.spec_values().len(),
            forall|k: int|
                0 <= k < r@.len() ==> #[trigger] r@[k] == (GBMParameters {
                    drift: self.drift.spec_values()[k / self.volatility.spec_values().len() as int],
                    volatility: self.volatility.spec_values()[k % self.volatility.spec_values().len() as int],
                }),
    {
        let drifts: Vec<i64> = self.drift.values();
        let vols: Vec<i64> = self.volatility.values();
        let nd: usize = drifts.len();
        let nv: usize = vols.len();
        let mut out: Vec<GBMParameters<i64>> = Vec::new();
        let mut a: usize = 0;
        while a < nd
            invariant
                a <= nd,
                nd == self.drift.spec_values().len(),
                nv == self.volatility.spec_values().len(),
                drifts@ == self.drift.spec_values(),
                vols@ == self.volatility.spec_values(),
                out@.len() == a * nv,
                forall|k: int|
                    0 <= k < out@.len() ==> #[trigger] out@[k] == (GBMParameters {
                        drift: drifts@[k / nv as int],
                        volatility: vols@[k % nv as int],
                    }),
            decreases nd - a,
        {
            let mut b: usize = 0;
            while b < nv
                invariant
                    a < nd,
                    b <= nv,
                    nd == self.drift.spec_values().len(),
                    nv == self.volatility.spec_values().len(),
                    drifts@ == self.drift.spec_values(),
                    vols@ == self.volatility.spec_values(),
                    out@.len() == a * nv + b,
                    forall|k: int|
                        0 <= k < out@.len() ==> #[trigger] out@[k] == (GBMParameters {
                            drift: drifts@[k / nv as int],
                            volatility: vols@[k % nv as int],
                        }),
                decreases nv - b,
            {
                out.push(GBMParameters { drift: drifts[a], volatility: vols[b] });
                proof {
                    let idx: int = a as int * nv as int + b as int;
                    vstd::arithmetic::div_mod::lemma_fundamental_div_mod_converse(
                        idx,
                        nv as int,
                        a as int,
                        b as int,
                    );
                }
                b = b + 1;
            }
            a = a + 1;
            proof {
                assert((a - 1) * nv as int + nv as int == a as int * nv as int) by (nonlinear_arith);
            }
        }
        out
    }
}

impl OUParameters<Param> {
    /// Every (mean, std_dev, theta) combination, mean outermost.
    pub fn generate(&self) -> (r: Vec<OUParameters<i64>>)
        ensures
            r@.len() == self.mean.spec_values().len() * (self.std_dev.spec_values().len()
                * self.theta.spec_values().len()),
            forall|k: int|
                0 <= k < r@.len() ==> #[trigger] r@[k] == spec_ou_at(
                    self.mean.spec_values(),
                    self.std_dev.spec_values(),
                    self.theta.spec_values(),
                    k,
                ),
    {
        let means: Vec<i64> = self.mean.values();
        let stds: Vec<i64> = self.std_dev.values();
        let thetas: Vec<i64> = self.theta.values();
        let ns: usize = stds.len();
        let nth: usize = thetas.len();
        let nm: usize = means.len();
        let mut out: Vec<OUParameters<i64>> = Vec::new();
        let mut a: usize = 0;
        while a < nm
            invariant
                a <= nm,
                nm == means@.len(),
                ns == stds@.len(),
                nth == thetas@.len(),
                means@ == self.mean.spec_values(),
                stds@ == self.std_dev.spec_values(),
                thetas@ == self.theta.spec_values(),
                out@.len() == a * (ns * nth),
                forall|k: int|
                    0 <= k < out@.len() ==> #[trigger] out@[k] == spec_ou_at(
                        means@,
                        stds@,
                        thetas@,
                        k,
                    ),
            decreases nm - a,
        {
            let mut b: usize = 0;
            while b < ns
                invariant
                    a < nm,
                    b <= ns,
                    nm == means@.len(),
                    ns == stds@.len(),
                    nth == thetas@.len(),
                    means@ == self.mean.spec_values(),
                    stds@ == self.std_dev.spec_values(),
                    thetas@ == self.theta.spec_values(),
                    out@.len() == a * (ns * nth) + b * nth,
                    forall|k: int|
                        0 <= k < out@.len() ==> #[trigger] out@[k] == spec_ou_at(
                            means@,
                            stds@,
                            thetas@,
                            k,
                        ),
                decreases ns - b,
            {
                let mut c: usize = 0;
                while c < nth
                    invariant
                        a < nm,
                        b < ns,
                        c <= nth,
                        nm == means@.len(),
                        ns == stds@.len(),
                        nth == thetas@.len(),
                        means@ == self.mean.spec_values(),
                        stds@ == self.std_dev.spec_values(),
                        thetas@ == self.theta.spec_values(),
                        out@.len() == a * (ns * nth) + b * nth + c,
                        forall|k: int|
                            0 <= k < out@.len() ==> #[trigger] out@[k] == spec_ou_at(
                                means@,
                                stds@,
                                thetas@,
                                k,
                            ),
                    decreases nth - c,
                {
                    out.push(
                        OUParameters { mean: means[a], std_dev: stds[b], theta: thetas[c] },
                    );
                    proof {
                        let idx: int = a as int * (ns as int * nth as int) + b as int * nth as int
                            + c as int;
                        assert(0 <= (b as int) * (nth as int) + (c as int) && (b as int) * (nth as int) + (c as int) < (ns as int) * (nth as int))
                            by (nonlinear_arith)
                            requires
                                0 <= b as int && (b as int) < (ns as int),
                                0 <= c as int && (c as int) < (nth as int),
                        ;
                        vstd::arithmetic::div_mod::lemma_fundamental_div_mod_converse(
                            idx,
                            ns as int * nth as int,
                            a as int,
                            b as int * nth as int + c as int,
                        );
                        vstd::arithmetic::div_mod::lemma_fundamental_div_mod_converse(
                            b as int * nth as int + c as int,
                            nth as int,
                            b as int,
                            c as int,
                        );
                    }
                    c = c + 1;
                }
                b = b + 1;
                proof {
                    assert(a as int * (ns as int * nth as int) + (b - 1) * nth as int + nth as int
                        == a as int * (ns as int * nth as int) + b as int * nth as int)
                        by (nonlinear_arith);
                }
            }
            a = a + 1;
            proof {
                assert((a - 1) * (ns as int * nth as int) + ns as int * nth as int == a as int * (
                ns as int * nth as int)) by (nonlinear_arith);
            }
        }
        out
    }
}

/// The combination a flat index names in a (mean, std_dev, theta)
/// product, mean outermost.
pub open spec fn spec_ou_at(
    means: Seq<i64>,
    stds: Seq<i64>,
    thetas: Seq<i64>,
    k: int,
) -> OUParameters<i64> {
    let inner = stds.len() as int * thetas.len() as int;
    OUParameters {
        mean: means[k / inner],
        std_dev: stds[(k % inner) / thetas.len() as int],
        theta: thetas[(k % inner) % thetas.len() as int],
    }
}

impl TrajectoryParameters<Param> {
    /// One direct trajectory block per initial-price value, in value
    /// order; the fixed fields are copied through.
    pub fn generate(&self) -> (r: Vec<TrajectoryParameters<i64>>)
        ensures
            r@.len() == self.initial_price.spec_values().len(),
            forall|t: int|
                0 <= t < r@.len() ==> ({
                    &&& (#[trigger] r@[t]).process@ == self.process@
                    &&& r@[t].initial_price == self.initial_price.spec_values()[t]
                    &&& r@[t].t_0 == self.t_0
                    &&& r@[t].t_n == self.t_n
                    &&& r@[t].num_steps == self.num_steps
                    &&& r@[t].seed == self.seed
                }),
    {
        let ips: Vec<i64> = self.initial_price.values();
        let n: usize = ips.len();
        let mut out: Vec<TrajectoryParameters<i64>> = Vec::new();
        let mut t: usize = 0;
        while t < n
            invariant
                t <= n,
                n == ips@.len(),
                ips@ == self.initial_price.spec_values(),
                out@.len() == t,
                forall|j: int|
                    0 <= j < out@.len() ==> ({
                        &&& (#[trigger] out@[j]).process@ == self.process@
                        &&& out@[j].initial_price == ips@[j]
                        &&& out@[j].t_0 == self.t_0
                        &&& out@[j].t_n == self.t_n
                        &&& out@[j].num_steps == self.num_steps
                        &&& out@[j].seed == self.seed
                    }),
            decreases n - t,
        {
            out.push(
                TrajectoryParameters {
                    process: self.process.clone(),
                    initial_price: ips[t],
                    t_0: self.t_0,
                    t_n: self.t_n,
                    num_steps: self.num_steps,
                    seed: self.seed,
                },
            );
            t = t + 1;
        }
        out
    }
}

/// Role-specific parameters of the liquidity-provisioning agent, each
/// independently sweepable.
#[derive(Clone, Copy, Debug, PartialEq)]
pub struct G3mLiquidityProviderParameters<P> {
    pub initial_x_amount: P,
    pub initial_price: P,
    pub wx: P,
}

/// The combination a flat index names in an
/// (initial_x_amount, initial_price, wx) product, first field outermost.
pub open spec fn spec_g3m_at(
    xs: Seq<i64>,
    ps: Seq<i64>,
    ws: Seq<i64>,
    k: int,
) -> G3mLiquidityProviderParameters<i64> {
    let inner = ps.len() as int * ws.len() as int;
    G3mLiquidityProviderParameters {
        initial_x_amount: xs[k / inner],
        initial_price: ps[(k % inner) / ws.len() as int],
        wx: ws[(k % inner) % ws.len() as int],
    }
}

impl G3mLiquidityProviderParameters<Param> {
    /// Every (initial_x_amount, initial_price, wx) combination, first
    /// field outermost.
    pub fn generate(&self) -> (r: Vec<G3mLiquidityProviderParameters<i64>>)
        ensures
            r@.len() == self.initial_x_amount.spec_values().len() * (
            self.initial_price.spec_values().len() * self.wx.spec_values().len()),
            forall|k: int|
                0 <= k < r@.len() ==> #[trigger] r@[k] == spec_g3m_at(
                    self.initial_x_amount.spec_values(),
                    self.initial_price.spec_values(),
                    self.wx.spec_values(),
                    k,
                ),
    {
        let xs: Vec<i64> = self.initial_x_amount.values();
        let ps: Vec<i64> = self.initial_price.values();
        let ws: Vec<i64> = self.wx.values();
        let np: usize = ps.len();
        let nw: usize = ws.len();
        let nx: usize = xs.len();
        let mut out: Vec<G3mLiquidityProviderParameters<i64>> = Vec::new();
        let mut a: usize = 0;
        while a < nx
            invariant
                a <= nx,
                nx == xs@.len(),
                np == ps@.len(),
                nw == ws@.len(),
                xs@ == self.initial_x_amount.spec_values(),
                ps@ == self.initial_price.spec_values(),
                ws@ == self.wx.spec_values(),
                out@.len() == a * (np * nw),
                forall|k: int|
                    0 <= k < out@.len() ==> #[trigger] out@[k] == spec_g3m_at(xs@, ps@, ws@, k),
            decreases nx - a,
        {
            let mut b: usize = 0;
            while b < np
                invariant
                    a < nx,
                    b <= np,
                    nx == xs@.len(),
                    np == ps@.len(),
                    nw == ws@.len(),
                    xs@ == self.initial_x_amount.spec_values(),
                    ps@ == self.initial_price.spec_values(),
                    ws@ == self.wx.spec_values(),
                    out@.len() == a * (np * nw) + b * nw,
                    forall|k: int|
                        0 <= k < out@.len() ==> #[trigger] out@[k] == spec_g3m_at(
                            xs@,
                            ps@,
                            ws@,
                            k,
                        ),
                decreases np - b,
            {
                let mut c: usize = 0;
                while c < nw
                    invariant
                        a < nx,
                        b < np,
                        c <= nw,
                        nx == xs@.len(),
                        np == ps@.len(),
                        nw == ws@.len(),
                        xs@ == self.initial_x_amount.spec_values(),
                        ps@ == self.initial_price.spec_values(),
                        ws@ == self.wx.spec_values(),
                        out@.len() == a * (np * nw) + b * nw + c,
                        forall|k: int|
                            0 <= k < out@.len() ==> #[trigger] out@[k] == spec_g3m_at(
                                xs@,
                                ps@,
                                ws@,
                                k,
                            ),
                    decreases nw - c,
                {
                    out.push(
                        G3mLiquidityProviderParameters {
                            initial_x_amount: xs[a],
                            initial_price: ps[b],
                            wx: ws[c],
                        },
                    );
                    proof {
                        let idx: int = a as int * (np as int * nw as int) + b as int * nw as int
                            + c as int;
                        assert(0 <= (b as int) * (nw as int) + (c as int) && (b as int) * (nw as int) + (c as int) < (np as int) * (nw as int))
                            by (nonlinear_arith)
                            requires
                                0 <= b as int && (b as int) < (np as int),
                                0 <= c as int && (c as int) < (nw as int),
                        ;
                        vstd::arithmetic::div_mod::lemma_fundamental_div_mod_converse(
                            idx,
                            np as int * nw as int,
                            a as int,
                            b as int * nw as int + c as int,
                        );
                        vstd::arithmetic::div_mod::lemma_fundamental_div_mod_converse(
                            b as int * nw as int + c as int,
                            nw as int,
                            b as int,
                            c as int,
                        );
                    }
                    c = c + 1;
                }
                b = b + 1;
                proof {
                    assert(a as int * (np as int * nw as int) + (b - 1) * nw as int + nw as int
                        == a as int * (np as int * nw as int) + b as int * nw as int)
                        by (nonlinear_arith);
                }
            }
            a = a + 1;
            proof {
                assert((a - 1) * (np as int * nw as int) + np as int * nw as int == a as int * (
                np as int * nw as int)) by (nonlinear_arith);
            }
        }
        out
    }
}

/// The trajectory part of an output-directory name.
pub open spec fn spec_traj_tag(ip: int) -> Seq<char> {
    "/trajectory="@ + spec_fx_chars(ip)
}

/// The directory name of one geometric-drift combination.
pub open spec fn spec_gbm_dir(base: Seq<char>, drift: int, vol: int, ip: int) -> Seq<char> {
    base + ("/gbm_drift="@ + (spec_fx_chars(drift) + ("_vol="@ + (spec_fx_chars(vol)
        + spec_traj_tag(ip)))))
}

/// The directory name of one mean-reverting combination.
pub open spec fn spec_ou_dir(
    base: Seq<char>,
    mean: int,
    std_dev: int,
    theta: int,
    ip: int,
) -> Seq<char> {
    base + ("/ou_mean="@ + (spec_fx_chars(mean) + ("_std="@ + (spec_fx_chars(std_dev) + ("_theta="@
        + (spec_fx_chars(theta) + spec_traj_tag(ip)))))))
}

/// Geometric-drift directory names are collision-free: equal names mean
/// equal drift, volatility, and initial price.
pub proof fn lemma_gbm_dir_injective(
    base: Seq<char>,
    d1: int,
    v1: int,
    i1: int,
    d2: int,
    v2: int,
    i2: int,
)
    requires
        spec_gbm_dir(base, d1, v1, i1) == spec_gbm_dir(base, d2, v2, i2),
    ensures
        d1 == d2,
        v1 == v2,
        i1 == i2,
{
    reveal_strlit("/gbm_drift=");
    reveal_strlit("_vol=");
    reveal_strlit("/trajectory=");
    crate::text::lemma_fx_chars_value_chars(d1);
    crate::text::lemma_fx_chars_value_chars(d2);
    crate::text::lemma_fx_chars_value_chars(v1);
    crate::text::lemma_fx_chars_value_chars(v2);
    let l1 = "/gbm_drift="@;
    let l2 = "_vol="@;
    let l3 = "/trajectory="@;
    let fd1 = spec_fx_chars(d1);
    let fd2 = spec_fx_chars(d2);
    let fv1 = spec_fx_chars(v1);
    let fv2 = spec_fx_chars(v2);
    let fi1 = spec_fx_chars(i1);
    let fi2 = spec_fx_chars(i2);
    crate::text::lemma_common_prefix(
        base,
        l1 + (fd1 + (l2 + (fv1 + (l3 + fi1)))),
        l1 + (fd2 + (l2 + (fv2 + (l3 + fi2)))),
    );
    crate::text::lemma_common_prefix(l1, fd1 + (l2 + (fv1 + (l3 + fi1))), fd2 + (l2 + (fv2 + (l3
        + fi2))));
    assert(fd1 + (l2 + (fv1 + (l3 + fi1))) =~= fd1 + l2 + (fv1 + (l3 + fi1)));
    assert(fd2 + (l2 + (fv2 + (l3 + fi2))) =~= fd2 + l2 + (fv2 + (l3 + fi2)));
    assert(l2[0] == '_');
    crate::text::lemma_value_sep_unambiguous(fd1, fv1 + (l3 + fi1), fd2, fv2 + (l3 + fi2), l2);
    crate::text::lemma_fx_chars_injective(d1, d2);
    assert(fv1 + (l3 + fi1) =~= fv1 + l3 + fi1);
    assert(fv2 + (l3 + fi2) =~= fv2 + l3 + fi2);
    assert(l3[0] == '/');
    crate::text::lemma_value_sep_unambiguous(fv1, fi1, fv2, fi2, l3);
    crate::text::lemma_fx_chars_injective(v1, v2);
    crate::text::lemma_fx_chars_injective(i1, i2);
}

/// Mean-reverting directory names are collision-free.
pub proof fn lemma_ou_dir_injective(
    base: Seq<char>,
    m1: int,
    s1: int,
    t1: int,
    i1: int,
    m2: int,
    s2: int,
    t2: int,
    i2: int,
)
    requires
        spec_ou_dir(base, m1, s1, t1, i1) == spec_ou_dir(base, m2, s2, t2, i2),
    ensures
        m1 == m2,
        s1 == s2,
        t1 == t2,
        i1 == i2,
{
    reveal_strlit("/ou_mean=");
    reveal_strlit("_std=");
    reveal_strlit("_theta=");
    reveal_strlit("/trajectory=");
    crate::text::lemma_fx_chars_value_chars(m1);
    crate::text::lemma_fx_chars_value_chars(m2);
    crate::text::lemma_fx_chars_value_chars(s1);
    crate::text::lemma_fx_chars_value_chars(s2);
    crate::text::lemma_fx_chars_value_chars(t1);
    crate::text::lemma_fx_chars_value_chars(t2);
    let l1 = "/ou_mean="@;
    let l2 = "_std="@;
    let l3 = "_theta="@;
    let l4 = "/trajectory="@;
    let fm1 = spec_fx_chars(m1);
    let fm2 = spec_fx_chars(m2);
    let fs1 = spec_fx_chars(s1);
    let fs2 = spec_fx_chars(s2);
    let ft1 = spec_fx_chars(t1);
    let ft2 = spec_fx_chars(t2);
    let fi1 = spec_fx_chars(i1);
    let fi2 = spec_fx_chars(i2);
    crate::text::lemma_common_prefix(
        base,
        l1 + (fm1 + (l2 + (fs1 + (l3 + (ft1 + (l4 + fi1)))))),
        l1 + (fm2 + (l2 + (fs2 + (l3 + (ft2 + (l4 + fi2)))))),
    );
    crate::text::lemma_common_prefix(
        l1,
        fm1 + (l2 + (fs1 + (l3 + (ft1 + (l4 + fi1))))),
        fm2 + (l2 + (fs2 + (l3 + (ft2 + (l4 + fi2))))),
    );
    assert(fm1 + (l2 + (fs1 + (l3 + (ft1 + (l4 + fi1))))) =~= fm1 + l2 + (fs1 + (l3 + (ft1 + (l4
        + fi1)))));
    assert(fm2 + (l2 + (fs2 + (l3 + (ft2 + (l4 + fi2))))) =~= fm2 + l2 + (fs2 + (l3 + (ft2 + (l4
        + fi2)))));
    assert(l2[0] == '_');
    crate::text::lemma_value_sep_unambiguous(
        fm1,
        fs1 + (l3 + (ft1 + (l4 + fi1))),
        fm2,
        fs2 + (l3 + (ft2 + (l4 + fi2))),
        l2,
    );
    crate::text::lemma_fx_chars_injective(m1, m2);
    assert(fs1 + (l3 + (ft1 + (l4 + fi1))) =~= fs1 + l3 + (ft1 + (l4 + fi1)));
    assert(fs2 + (l3 + (ft2 + (l4 + fi2))) =~= fs2 + l3 + (ft2 + (l4 + fi2)));
    assert(l3[0] == '_');
    crate::text::lemma_value_sep_unambiguous(fs1, ft1 + (l4 + fi1), fs2, ft2 + (l4 + fi2), l3);
    crate::text::lemma_fx_chars_injective(s1, s2);
    assert(ft1 + (l4 + fi1) =~= ft1 + l4 + fi1);
    assert(ft2 + (l4 + fi2) =~= ft2 + l4 + fi2);
    assert(l4[0] == '/');
    crate::text::lemma_value_sep_unambiguous(ft1, fi1, ft2, fi2, l4);
    crate::text::lemma_fx_chars_injective(t1, t2);
    crate::text::lemma_fx_chars_injective(i1, i2);
}

/// Build the directory name of one geometric-drift combination.
fn gbm_dir(base: &String, drift: i64, volatility: i64, initial_price: i64) -> (r: String)
    ensures
        r@ == spec_gbm_dir(base@, drift as int, volatility as int, initial_price as int),
{
    let mut s: String = base.clone();
    s.append("/gbm_drift=");
    let d: String = fx_to_string(drift);
    s.append(d.as_str());
    s.append("_vol=");
    let v: String = fx_to_string(volatility);
    s.append(v.as_str());
    s.append("/trajectory=");
    let i: String = fx_to_string(initial_price);
    s.append(i.as_str());
    proof {
        assert(s@ =~= spec_gbm_dir(base@, drift as int, volatility as int, initial_price as int));
    }
    s
}

/// Build the directory name of one mean-reverting combination.
fn ou_dir(base: &String, mean: i64, std_dev: i64, theta: i64, initial_price: i64) -> (r: String)
    ensures
        r@ == spec_ou_dir(
            base@,
            mean as int,
            std_dev as int,
            theta as int,
            initial_price as int,
        ),
{
    let mut s: String = base.clone();
    s.append("/ou_mean=");
    let m: String = fx_to_string(mean);
    s.append(m.as_str());
    s.append("_std=");
    let sd: String = fx_to_string(std_dev);
    s.append(sd.as_str());
    s.append("_theta=");
    let th: String = fx_to_string(theta);
    s.append(th.as_str());
    s.append("/trajectory=");
    let i: String = fx_to_string(initial_price);
    s.append(i.as_str());
    proof {
        assert(s@ =~= spec_ou_dir(
            base@,
            mean as int,
            std_dev as int,
            theta as int,
            initial_price as int,
        ));
    }
    s
}

/// One experiment description: when `P` is [`Param`] this is a meta
/// configuration whose fields may sweep; when `P` is `i64` every field
/// is resolved to a single value and the configuration drives one run.
#[derive(Clone, Debug, PartialEq)]
pub struct SimulationConfig<P> {
    pub simulation: SimulationType,
    pub output_directory: String,
    pub trajectory: TrajectoryParameters<P>,
    pub gbm: Option<GBMParameters<P>>,
    pub ou: Option<OUParameters<P>>,
    pub pool: PoolParameters,
    pub lp: LPParameters,
    pub block: BlockParameters,
    pub weight_changer: WeightChangerParameters,
}

/// What the direct configuration at flat index `idx` of a
/// geometric-drift expansion holds: the meta configuration's fixed
/// fields, the combination the index names (initial price outermost,
/// then drift, then volatility), and its directory name.
pub open spec fn spec_gbm_slot(
    meta: SimulationConfig<Param>,
    c: SimulationConfig<i64>,
    idx: int,
) -> bool {
    let ips = meta.trajectory.initial_price.spec_values();
    let drifts = meta.gbm->Some_0.drift.spec_values();
    let vols = meta.gbm->Some_0.volatility.spec_values();
    let inner = drifts.len() as int * vols.len() as int;
    let t = idx / inner;
    let rem = idx % inner;
    let d = drifts[rem / vols.len() as int];
    let v = vols[rem % vols.len() as int];
    &&& c.simulation == meta.simulation
    &&& c.trajectory.process@ == meta.trajectory.process@
    &&& c.trajectory.initial_price == ips[t]
    &&& c.trajectory.t_0 == meta.trajectory.t_0
    &&& c.trajectory.t_n == meta.trajectory.t_n
    &&& c.trajectory.num_steps == meta.trajectory.num_steps
    &&& c.trajectory.seed == meta.trajectory.seed
    &&& c.gbm == Some(GBMParameters { drift: d, volatility: v })
    &&& c.ou is None
    &&& c.pool == meta.pool
    &&& c.lp == meta.lp
    &&& c.block == meta.block
    &&& c.weight_changer == meta.weight_changer
    &&& c.output_directory@ == spec_gbm_dir(
        meta.output_directory@,
        d as int,
        v as int,
        ips[t] as int,
    )
}

/// The same for a mean-reverting expansion: initial price outermost,
/// then mean, then standard deviation, then reversion rate.
pub open spec fn spec_ou_slot(
    meta: SimulationConfig<Param>,
    c: SimulationConfig<i64>,
    idx: int,
) -> bool {
    let ips = meta.trajectory.initial_price.spec_values();
    let means = meta.ou->Some_0.mean.spec_values();
    let stds = meta.ou->Some_0.std_dev.spec_values();
    let thetas = meta.ou->Some_0.theta.spec_values();
    let inner = means.len() as int * (stds.len() as int * thetas.len() as int);
    let t = idx / inner;
    let rem = idx % inner;
    let combo = spec_ou_at(means, stds, thetas, rem);
    &&& c.simulation == meta.simulation
    &&& c.trajectory.process@ == meta.trajectory.process@
    &&& c.trajectory.initial_price == ips[t]
    &&& c.trajectory.t_0 == meta.trajectory.t_0
    &&& c.trajectory.t_n == meta.trajectory.t_n
    &&& c.trajectory.num_steps == meta.trajectory.num_steps
    &&& c.trajectory.seed == meta.trajectory.seed
    &&& c.gbm is None
    &&& c.ou == Some(combo)
    &&& c.pool == meta.pool
    &&& c.lp == meta.lp
    &&& c.block == meta.block
    &&& c.weight_changer == meta.weight_changer
    &&& c.output_directory@ == spec_ou_dir(
        meta.output_directory@,
        combo.mean as int,
        combo.std_dev as int,
        combo.theta as int,
        ips[t] as int,
    )
}

impl SimulationConfig<Param> {
    /// Expand into the ordered list of direct configurations covering
    /// every combination of the parameterized fields: initial price
    /// outermost, then the process block's fields in declared order.
    /// Exactly one of the two mutually exclusive process blocks must be
    /// present; providing neither or both is a configuration error and
    /// produces no configurations.
    pub fn generate(&self) -> (r: Result<Vec<SimulationConfig<i64>>, SimulationError>)
        ensures
            r is Ok <==> ((self.gbm is Some) != (self.ou is Some)),
            r is Err ==> r->Err_0 == SimulationError::Configuration,
            r is Ok && self.gbm is Some ==> ({
                let out = r->Ok_0@;
                &&& out.len() == self.trajectory.initial_price.spec_values().len() * (
                self.gbm->Some_0.drift.spec_values().len()
                    * self.gbm->Some_0.volatility.spec_values().len())
                &&& forall|idx: int|
                    0 <= idx < out.len() ==> spec_gbm_slot(*self, #[trigger] out[idx], idx)
            }),
            r is Ok && self.ou is Some ==> ({
                let out = r->Ok_0@;
                &&& out.len() == self.trajectory.initial_price.spec_values().len() * (
                self.ou->Some_0.mean.spec_values().len() * (
                self.ou->Some_0.std_dev.spec_values().len()
                    * self.ou->Some_0.theta.spec_values().len()))
                &&& forall|idx: int|
                    0 <= idx < out.len() ==> spec_ou_slot(*self, #[trigger] out[idx], idx)
            }),
    {
        match (&self.gbm, &self.ou) {
            (Some(gbm), None) => {
                let trajectories: Vec<TrajectoryParameters<i64>> = self.trajectory.generate();
                let gbms: Vec<GBMParameters<i64>> = gbm.generate();
                let nt: usize = trajectories.len();
                let ng: usize = gbms.len();
                let mut out: Vec<SimulationConfig<i64>> = Vec::new();
                let mut t: usize = 0;
                while t < nt
                    invariant
                        t <= nt,
                        self.gbm is Some,
                        self.ou is None,
                        self.gbm->Some_0 == *gbm,
                        nt == self.trajectory.initial_price.spec_values().len(),
                        ng == gbm.drift.spec_values().len() * gbm.volatility.spec_values().len(),
                        trajectory_list_ok(*self, trajectories@),
                        gbm_list_ok(*gbm, gbms@),
                        nt == trajectories@.len(),
                        ng == gbms@.len(),
                        out@.len() == t * ng,
                        forall|idx: int|
                            0 <= idx < out@.len() ==> spec_gbm_slot(*self, #[trigger] out@[idx], idx),
                    decreases nt - t,
                {
                    let mut k: usize = 0;
                    while k < ng
                        invariant
                            t < nt,
                            k <= ng,
                            self.gbm is Some,
                            self.ou is None,
                            self.gbm->Some_0 == *gbm,
                            nt == self.trajectory.initial_price.spec_values().len(),
                            ng == gbm.drift.spec_values().len()
                                * gbm.volatility.spec_values().len(),
                            trajectory_list_ok(*self, trajectories@),
                            gbm_list_ok(*gbm, gbms@),
                            nt == trajectories@.len(),
                            ng == gbms@.len(),
                            out@.len() == t * ng + k,
                            forall|idx: int|
                                0 <= idx < out@.len() ==> spec_gbm_slot(
                                    *self,
                                    #[trigger] out@[idx],
                                    idx,
                                ),
                        decreases ng - k,
                    {
                        let tp: &TrajectoryParameters<i64> = &trajectories[t];
                        let combo: &GBMParameters<i64> = &gbms[k];
                        let dir: String = gbm_dir(
                            &self.output_directory,
                            combo.drift,
                            combo.volatility,
                            tp.initial_price,
                        );
                        out.push(
                            SimulationConfig {
                                simulation: self.simulation,
                                output_directory: dir,
                                trajectory: TrajectoryParameters {
                                    process: tp.process.clone(),
                                    initial_price: tp.initial_price,
                                    t_0: tp.t_0,
                                    t_n: tp.t_n,
                                    num_steps: tp.num_steps,
                                    seed: tp.seed,
                                },
                                gbm: Some(GBMParameters { drift: combo.drift, volatility: combo.volatility }),
                                ou: None,
                                pool: self.pool,
                                lp: self.lp,
                                block: self.block,
                                weight_changer: self.weight_changer,
                            },
                        );
                        proof {
                            let idx: int = t as int * ng as int + k as int;
                            vstd::arithmetic::div_mod::lemma_fundamental_div_mod_converse(
                                idx,
                                ng as int,
                                t as int,
                                k as int,
                            );
                        }
                        k = k + 1;
                    }
                    t = t + 1;
                    proof {
                        assert((t - 1) * ng as int + ng as int == t as int * ng as int)
                            by (nonlinear_arith);
                    }
                }
                Ok(out)
            },
            (None, Some(ou)) => {
                let trajectories: Vec<TrajectoryParameters<i64>> = self.trajectory.generate();
                let ous: Vec<OUParameters<i64>> = ou.generate();
                let nt: usize = trajectories.len();
                let no: usize = ous.len();
                let mut out: Vec<SimulationConfig<i64>> = Vec::new();
                let mut t: usize = 0;
                while t < nt
                    invariant
                        t <= nt,
                        self.ou is Some,
                        self.gbm is None,
                        self.ou->Some_0 == *ou,
                        nt == self.trajectory.initial_price.spec_values().len(),
                        no == ou.mean.spec_values().len() * (ou.std_dev.spec_values().len()
                            * ou.theta.spec_values().len()),
                        trajectory_list_ok(*self, trajectories@),
                        ou_list_ok(*ou, ous@),
                        nt == trajectories@.len(),
                        no == ous@.len(),
                        out@.len() == t * no,
                        forall|idx: int|
                            0 <= idx < out@.len() ==> spec_ou_slot(*self, #[trigger] out@[idx], idx),
                    decreases nt - t,
                {
                    let mut k: usize = 0;
                    while k < no
                        invariant
                            t < nt,
                            k <= no,
                            self.ou is Some,
                            self.gbm is None,
                            self.ou->Some_0 == *ou,
                            nt == self.trajectory.initial_price.spec_values().len(),
                            no == ou.mean.spec_values().len() * (ou.std_dev.spec_values().len()
                                * ou.theta.spec_values().len()),
                            trajectory_list_ok(*self, trajectories@),
                            ou_list_ok(*ou, ous@),
                            nt == trajectories@.len(),
                            no == ous@.len(),
                            out@.len() == t * no + k,
                            forall|idx: int|
                                0 <= idx < out@.len() ==> spec_ou_slot(
                                    *self,
                                    #[trigger] out@[idx],
                                    idx,
                                ),
                        decreases no - k,
                    {
                        let tp: &TrajectoryParameters<i64> = &trajectories[t];
                        let combo: &OUParameters<i64> = &ous[k];
                        let dir: String = ou_dir(
                            &self.output_directory,
                            combo.mean,
                            combo.std_dev,
                            combo.theta,
                            tp.initial_price,
                        );
                        out.push(
                            SimulationConfig {
                                simulation: self.simulation,
                                output_directory: dir,
                                trajectory: TrajectoryParameters {
                                    process: tp.process.clone(),
                                    initial_price: tp.initial_price,
                                    t_0: tp.t_0,
                                    t_n: tp.t_n,
                                    num_steps: tp.num_steps,
                                    seed: tp.seed,
                                },
                                gbm: None,
                                ou: Some(
                                    OUParameters {
                                        mean: combo.mean,
                                        std_dev: combo.std_dev,
                                        theta: combo.theta,
                                    },
                                ),
                                pool: self.pool,
                                lp: self.lp,
                                block: self.block,
                                weight_changer: self.weight_changer,
                            },
                        );
                        proof {
                            let idx: int = t as int * no as int + k as int;
                            vstd::arithmetic::div_mod::lemma_fundamental_div_mod_converse(
                                idx,
                                no as int,
                                t as int,
                                k as int,
                            );
                        }
                        k = k + 1;
                    }
                    t = t + 1;
                    proof {
                        assert((t - 1) * no as int + no as int == t as int * no as int)
                            by (nonlinear_arith);
                    }
                }
                Ok(out)
            },
            _ => Err(SimulationError::Configuration),
        }
    }
}

/// A sweep over distinct values yields collision-free output paths: in a
/// geometric-drift expansion (as `generate` produces it), no two direct
/// configurations share a directory name.
pub proof fn lemma_gbm_paths_unique(meta: SimulationConfig<Param>, out: Seq<SimulationConfig<i64>>)
    requires
        meta.gbm is Some,
        meta.trajectory.initial_price.spec_distinct(),
        meta.gbm->Some_0.drift.spec_distinct(),
        meta.gbm->Some_0.volatility.spec_distinct(),
        out.len() == meta.trajectory.initial_price.spec_values().len() * (
        meta.gbm->Some_0.drift.spec_values().len()
            * meta.gbm->Some_0.volatility.spec_values().len()),
        forall|idx: int| 0 <= idx < out.len() ==> spec_gbm_slot(meta, #[trigger] out[idx], idx),
    ensures
        forall|i: int, j: int|
            0 <= i < j < out.len() ==> (#[trigger] out[i]).output_directory@ != (
            #[trigger] out[j]).output_directory@,
{
    let ips = meta.trajectory.initial_price.spec_values();
    let drifts = meta.gbm->Some_0.drift.spec_values();
    let vols = meta.gbm->Some_0.volatility.spec_values();
    let nip = ips.len() as int;
    let nd = drifts.len() as int;
    let nv = vols.len() as int;
    let inner = nd * nv;
    assert forall|i: int, j: int| 0 <= i < j < out.len() implies (#[trigger] out[i]).output_directory@
        != (#[trigger] out[j]).output_directory@ by {
        assert(spec_gbm_slot(meta, out[i], i));
        assert(spec_gbm_slot(meta, out[j], j));
        assert(inner > 0 && nip > 0) by (nonlinear_arith)
            requires
                nip * inner > 0,
                inner == nd * nv,
                nip >= 0,
                nd >= 0,
                nv >= 0,
        ;
        assert(nv > 0 && nd > 0) by (nonlinear_arith)
            requires
                nd * nv > 0,
                nd >= 0,
                nv >= 0,
        ;
        if out[i].output_directory@ == out[j].output_directory@ {
            vstd::arithmetic::div_mod::lemma_fundamental_div_mod(i, inner);
            vstd::arithmetic::div_mod::lemma_fundamental_div_mod(j, inner);
            vstd::arithmetic::div_mod::lemma_mod_bound(i, inner);
            vstd::arithmetic::div_mod::lemma_mod_bound(j, inner);
            let ti = i / inner;
            let tj = j / inner;
            let ri = i % inner;
            let rj = j % inner;
            assert(0 <= ti && ti < nip && 0 <= tj && tj < nip) by (nonlinear_arith)
                requires
                    i == inner * ti + ri,
                    j == inner * tj + rj,
                    0 <= ri && ri < inner,
                    0 <= rj && rj < inner,
                    0 <= i && i < nip * inner,
                    0 <= j && j < nip * inner,
                    inner > 0,
            ;
            vstd::arithmetic::div_mod::lemma_fundamental_div_mod(ri, nv);
            vstd::arithmetic::div_mod::lemma_fundamental_div_mod(rj, nv);
            vstd::arithmetic::div_mod::lemma_mod_bound(ri, nv);
            vstd::arithmetic::div_mod::lemma_mod_bound(rj, nv);
            let ai = ri / nv;
            let aj = rj / nv;
            let bi = ri % nv;
            let bj = rj % nv;
            assert(0 <= ai && ai < nd && 0 <= aj && aj < nd) by (nonlinear_arith)
                requires
                    ri == nv * ai + bi,
                    rj == nv * aj + bj,
                    0 <= bi && bi < nv,
                    0 <= bj && bj < nv,
                    0 <= ri && ri < nd * nv,
                    0 <= rj && rj < nd * nv,
                    nv > 0,
            ;
            lemma_gbm_dir_injective(
                meta.output_directory@,
                drifts[ai] as int,
                vols[bi] as int,
                ips[ti] as int,
                drifts[aj] as int,
                vols[bj] as int,
                ips[tj] as int,
            );
            assert(ti == tj);
            assert(ai == aj);
            assert(bi == bj);
            assert(i == j);
            assert(false);
        }
    }
}

/// The same for a mean-reverting expansion: with distinct value sets,
/// no two direct configurations share a directory name.
pub proof fn lemma_ou_paths_unique(meta: SimulationConfig<Param>, out: Seq<SimulationConfig<i64>>)
    requires
        meta.ou is Some,
        meta.trajectory.initial_price.spec_distinct(),
        meta.ou->Some_0.mean.spec_distinct(),
        meta.ou->Some_0.std_dev.spec_distinct(),
        meta.ou->Some_0.theta.spec_distinct(),
        out.len() == meta.trajectory.initial_price.spec_values().len() * (
        meta.ou->Some_0.mean.spec_values().len() * (meta.ou->Some_0.std_dev.spec_values().len()
            * meta.ou->Some_0.theta.spec_values().len())),
        forall|idx: int| 0 <= idx < out.len() ==> spec_ou_slot(meta, #[trigger] out[idx], idx),
    ensures
        forall|i: int, j: int|
            0 <= i < j < out.len() ==> (#[trigger] out[i]).output_directory@ != (
            #[trigger] out[j]).output_directory@,
{
    let ips = meta.trajectory.initial_price.spec_values();
    let means = meta.ou->Some_0.mean.spec_values();
    let stds = meta.ou->Some_0.std_dev.spec_values();
    let thetas = meta.ou->Some_0.theta.spec_values();
    let nip = ips.len() as int;
    let nm = means.len() as int;
    let ns = stds.len() as int;
    let nth = thetas.len() as int;
    let inner2 = ns * nth;
    let inner = nm * inner2;
    assert forall|i: int, j: int| 0 <= i < j < out.len() implies (#[trigger] out[i]).output_directory@
        != (#[trigger] out[j]).output_directory@ by {
        assert(spec_ou_slot(meta, out[i], i));
        assert(spec_ou_slot(meta, out[j], j));
        assert(inner > 0 && nip > 0) by (nonlinear_arith)
            requires
                nip * inner > 0,
                nip >= 0,
                inner >= 0,
        ;
        assert(nm > 0 && inner2 > 0) by (nonlinear_arith)
            requires
                nm * inner2 > 0,
                nm >= 0,
                inner2 >= 0,
        ;
        assert(ns > 0 && nth > 0) by (nonlinear_arith)
            requires
                ns * nth > 0,
                ns >= 0,
                nth >= 0,
        ;
        if out[i].output_directory@ == out[j].output_directory@ {
            vstd::arithmetic::div_mod::lemma_fundamental_div_mod(i, inner);
            vstd::arithmetic::div_mod::lemma_fundamental_div_mod(j, inner);
            vstd::arithmetic::div_mod::lemma_mod_bound(i, inner);
            vstd::arithmetic::div_mod::lemma_mod_bound(j, inner);
            let ti = i / inner;
            let tj = j / inner;
            let ri = i % inner;
            let rj = j % inner;
            assert(0 <= ti && ti < nip && 0 <= tj && tj < nip) by (nonlinear_arith)
                requires
                    i == inner * ti + ri,
                    j == inner * tj + rj,
                    0 <= ri && ri < inner,
                    0 <= rj && rj < inner,
                    0 <= i && i < nip * inner,
                    0 <= j && j < nip * inner,
                    inner > 0,
            ;
            vstd::arithmetic::div_mod::lemma_fundamental_div_mod(ri, inner2);
            vstd::arithmetic::div_mod::lemma_fundamental_div_mod(rj, inner2);
            vstd::arithmetic::div_mod::lemma_mod_bound(ri, inner2);
            vstd::arithmetic::div_mod::lemma_mod_bound(rj, inner2);
            let ai = ri / inner2;
            let aj = rj / inner2;
            let si = ri % inner2;
            let sj = rj % inner2;
            assert(0 <= ai && ai < nm && 0 <= aj && aj < nm) by (nonlinear_arith)
                requires
                    ri == inner2 * ai + si,
                    rj == inner2 * aj + sj,
                    0 <= si && si < inner2,
                    0 <= sj && sj < inner2,
                    0 <= ri && ri < nm * inner2,
                    0 <= rj && rj < nm * inner2,
                    inner2 > 0,
            ;
            vstd::arithmetic::div_mod::lemma_fundamental_div_mod(si, nth);
            vstd::arithmetic::div_mod::lemma_fundamental_div_mod(sj, nth);
            vstd::arithmetic::div_mod::lemma_mod_bound(si, nth);
            vstd::arithmetic::div_mod::lemma_mod_bound(sj, nth);
            let bi = si / nth;
            let bj = sj / nth;
            let ci = si % nth;
            let cj = sj % nth;
            assert(0 <= bi && bi < ns && 0 <= bj && bj < ns) by (nonlinear_arith)
                requires
                    si == nth * bi + ci,
                    sj == nth * bj + cj,
                    0 <= ci && ci < nth,
                    0 <= cj && cj < nth,
                    0 <= si && si < ns * nth,
                    0 <= sj && sj < ns * nth,
                    nth > 0,
            ;
            lemma_ou_dir_injective(
                meta.output_directory@,
                means[ai] as int,
                stds[bi] as int,
                thetas[ci] as int,
                ips[ti] as int,
                means[aj] as int,
                stds[bj] as int,
                thetas[cj] as int,
                ips[tj] as int,
            );
            assert(ti == tj);
            assert(ai == aj);
            assert(bi == bj);
            assert(ci == cj);
            assert(i == j);
            assert(false);
        }
    }
}

/// The expanded trajectory list carries the meta configuration's fixed
/// fields and the initial-price values in order.
pub open spec fn trajectory_list_ok(
    meta: SimulationConfig<Param>,
    l: Seq<TrajectoryParameters<i64>>,
) -> bool {
    &&& l.len() == meta.trajectory.initial_price.spec_values().len()
    &&& forall|t: int|
        0 <= t < l.len() ==> ({
            &&& (#[trigger] l[t]).process@ == meta.trajectory.process@
            &&& l[t].initial_price == meta.trajectory.initial_price.spec_values()[t]
            &&& l[t].t_0 == meta.trajectory.t_0
            &&& l[t].t_n == meta.trajectory.t_n
            &&& l[t].num_steps == meta.trajectory.num_steps
            &&& l[t].seed == meta.trajectory.seed
        })
}

/// The expanded geometric-drift list is the (drift, volatility) product
/// in order.
pub open spec fn gbm_list_ok(meta: GBMParameters<Param>, l: Seq<GBMParameters<i64>>) -> bool {
    &&& l.len() == meta.drift.spec_values().len() * meta.volatility.spec_values().len()
    &&& forall|k: int|
        0 <= k < l.len() ==> #[trigger] l[k] == (GBMParameters {
            drift: meta.drift.spec_values()[k / meta.volatility.spec_values().len() as int],
            volatility: meta.volatility.spec_values()[k % meta.volatility.spec_values().len() as int],
        })
}

/// The expanded mean-reverting list is the (mean, std_dev, theta)
/// product in order.
pub open spec fn ou_list_ok(meta: OUParameters<Param>, l: Seq<OUParameters<i64>>) -> bool {
    &&& l.len() == meta.mean.spec_values().len() * (meta.std_dev.spec_values().len()
        * meta.theta.spec_values().len())
    &&& forall|k: int|
        0 <= k < l.len() ==> #[trigger] l[k] == spec_ou_at(
            meta.mean.spec_values(),
            meta.std_dev.spec_values(),
            meta.theta.spec_values(),
            k,
        )
}

} // verus!
