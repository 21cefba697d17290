use vstd::prelude::*;

verus! {

/// Number of substeps each outer tick is divided into.
pub const NUM_SUB_STEPS: usize = 8;

/// One unit of work of a tick, naming the body or joint it applies to by its
/// position in the host's body (or joint) list.
#[derive(Debug, Clone, Copy, PartialEq, Eq, Structural)]
pub enum Pass {
    /// Apply the deferred-sleep policy to a body.
    ReadySleep(usize),
    /// Integrate a body over one substep.
    Step(usize),
    /// Project one distance joint.
    Solve(usize),
    /// Rebuild a body's velocities from its position change.
    UpdateVel(usize),
}

/// Integrate every body, then solve every joint in order, then rebuild every
/// body's velocity.
pub open spec fn substep_passes(n_bodies: nat, n_joints: nat) -> Seq<Pass> {
    Seq::new(n_bodies, |i: int| Pass::Step(i as usize))
        + Seq::new(n_joints, |j: int| Pass::Solve(j as usize))
        + Seq::new(n_bodies, |i: int| Pass::UpdateVel(i as usize))
}

/// `s` written out `n` times in a row.
pub open spec fn repeated(s: Seq<Pass>, n: nat) -> Seq<Pass>
    decreases n,
{
    if n == 0 {
        Seq::empty()
    } else {
        repeated(s, (n - 1) as nat) + s
    }
}

/// The passes of one tick: nothing while paused; otherwise the sleep check of
/// every body followed by `n_sub_steps` substeps.
pub open spec fn tick_passes(paused: bool, n_bodies: nat, n_joints: nat, n_sub_steps: nat) -> Seq<
    Pass,
> {
    if paused {
        Seq::empty()
    } else {
        Seq::new(n_bodies, |i: int| Pass::ReadySleep(i as usize)) + repeated(
            substep_passes(n_bodies, n_joints),
            n_sub_steps,
        )
    }
}

pub open spec fn substep_len(n_bodies: nat, n_joints: nat) -> nat {
    2 * n_bodies + n_joints
}

proof fn lemma_repeated_len(s: Seq<Pass>, n: nat)
    ensures
        repeated(s, n).len() == n * s.len(),
    decreases n,
{
    if n > 0 {
        lemma_repeated_len(s, (n - 1) as nat);
        assert(n * s.len() == (n - 1) * s.len() + s.len()) by (nonlinear_arith);
    } else {
        assert(n * s.len() == 0) by (nonlinear_arith)
            requires
                n == 0,
        ;
    }
}

proof fn lemma_repeated_index(s: Seq<Pass>, n: nat, t: nat, i: int)
    requires
        t < n,
        0 <= i < s.len(),
    ensures
        t * s.len() + i < repeated(s, n).len(),
        repeated(s, n)[t * s.len() + i] == s[i],
    decreases n,
{
    lemma_repeated_len(s, n);
    lemma_repeated_len(s, (n - 1) as nat);
    assert(n * s.len() == (n - 1) * s.len() + s.len()) by (nonlinear_arith);
    if t < n - 1 {
        lemma_repeated_index(s, (n - 1) as nat, t, i);
    } else {
        assert(t * s.len() == (n - 1) * s.len());
    }
    assert(t * s.len() + i < n * s.len()) by (nonlinear_arith)
        requires
            t < n,
            0 <= i < s.len(),
    ;
}

/// Layout of a tick that is not paused: it holds `n_bodies` sleep checks and
/// then `n_sub_steps` substeps of `2 * n_bodies + n_joints` passes each. Pass
/// `k` of substep `t` integrates body `k` for the first `n_bodies` values of
/// `k`, then solves the joints in list order, then rebuilds the velocity of
/// each body; so no joint of a substep sees a body before its integration, and
/// no velocity is rebuilt before the last joint of the substep.
pub proof fn lemma_tick_layout(n_bodies: nat, n_joints: nat, n_sub_steps: nat, t: nat, k: int)
    requires
        t < n_sub_steps,
        0 <= k < substep_len(n_bodies, n_joints),
    ensures
        ({
            let passes = tick_passes(false, n_bodies, n_joints, n_sub_steps);
            let pos = n_bodies + t * substep_len(n_bodies, n_joints) + k;
            &&& passes.len() == n_bodies + n_sub_steps * substep_len(n_bodies, n_joints)
            &&& pos < passes.len()
            &&& k < n_bodies ==> passes[k] == Pass::ReadySleep(k as usize)
            &&& k < n_bodies ==> passes[pos] == Pass::Step(k as usize)
            &&& n_bodies <= k < n_bodies + n_joints ==> passes[pos] == Pass::Solve(
                (k - n_bodies) as usize,
            )
            &&& n_bodies + n_joints <= k ==> passes[pos] == Pass::UpdateVel(
                (k - n_bodies - n_joints) as usize,
            )
        }),
{
    let sub = substep_passes(n_bodies, n_joints);
    let passes = tick_passes(false, n_bodies, n_joints, n_sub_steps);
    let sleeps = Seq::new(n_bodies, |i: int| Pass::ReadySleep(i as usize));
    assert(sub.len() == substep_len(n_bodies, n_joints));
    lemma_repeated_len(sub, n_sub_steps);
    lemma_repeated_index(sub, n_sub_steps, t, k);
    assert(passes == sleeps + repeated(sub, n_sub_steps));
    assert(passes[n_bodies + (t * sub.len() + k)] == sub[k]);
}

/// Appends the passes of one substep to `out`.
fn push_substep(out: &mut Vec<Pass>, n_bodies: usize, n_joints: usize)
    requires
        old(out)@.len() + substep_len(n_bodies as nat, n_joints as nat) <= usize::MAX,
    ensures
        final(out)@ == old(out)@ + substep_passes(n_bodies as nat, n_joints as nat),
{
    let ghost start = out@;
    let mut i: usize = 0;
    while i < n_bodies
        invariant
            i <= n_bodies,
            start.len() + substep_len(n_bodies as nat, n_joints as nat) <= usize::MAX,
            out@ == start + Seq::new(i as nat, |k: int| Pass::Step(k as usize)),
        decreases n_bodies - i,
    {
        out.push(Pass::Step(i));
        i = i + 1;
        assert(out@ =~= start + Seq::new(i as nat, |k: int| Pass::Step(k as usize)));
    }
    let ghost steps = out@;
    let mut j: usize = 0;
    while j < n_joints
        invariant
            j <= n_joints,
            steps.len() == start.len() + n_bodies,
            start.len() + substep_len(n_bodies as nat, n_joints as nat) <= usize::MAX,
            out@ == steps + Seq::new(j as nat, |k: int| Pass::Solve(k as usize)),
        decreases n_joints - j,
    {
        out.push(Pass::Solve(j));
        j = j + 1;
        assert(out@ =~= steps + Seq::new(j as nat, |k: int| Pass::Solve(k as usize)));
    }
    let ghost solves = out@;
    let mut i: usize = 0;
    while i < n_bodies
        invariant
            i <= n_bodies,
            solves.len() == start.len() + n_bodies + n_joints,
            start.len() + substep_len(n_bodies as nat, n_joints as nat) <= usize::MAX,
            out@ == solves + Seq::new(i as nat, |k: int| Pass::UpdateVel(k as usize)),
        decreases n_bodies - i,
    {
        out.push(Pass::UpdateVel(i));
        i = i + 1;
        assert(out@ =~= solves + Seq::new(i as nat, |k: int| Pass::UpdateVel(k as usize)));
    }
    assert(out@ =~= start + substep_passes(n_bodies as nat, n_joints as nat));
}

/// The ordered passes the host performs for one tick: while paused, none;
/// otherwise the sleep check of every body, then `n_sub_steps` times the
/// integrate-all, solve-all-joints-in-order, rebuild-velocity-all sequence.
pub fn tick_schedule(paused: bool, n_bodies: usize, n_joints: usize, n_sub_steps: usize) -> (r: Vec<
    Pass,
>)
    requires
        n_bodies + n_sub_steps * substep_len(n_bodies as nat, n_joints as nat) <= usize::MAX,
    ensures
        r@ == tick_passes(paused, n_bodies as nat, n_joints as nat, n_sub_steps as nat),
{
    let mut out: Vec<Pass> = Vec::new();
    if paused {
        assert(out@ =~= tick_passes(paused, n_bodies as nat, n_joints as nat, n_sub_steps as nat));
        return out;
    }
    let mut i: usize = 0;
    while i < n_bodies
        invariant
            i <= n_bodies,
            out@ == Seq::new(i as nat, |k: int| Pass::ReadySleep(k as usize)),
        decreases n_bodies - i,
    {
        out.push(Pass::ReadySleep(i));
        i = i + 1;
        assert(out@ =~= Seq::new(i as nat, |k: int| Pass::ReadySleep(k as usize)));
    }
    let ghost sleeps = out@;
    let ghost sub = substep_passes(n_bodies as nat, n_joints as nat);
    let mut s: usize = 0;
    while s < n_sub_steps
        invariant
            s <= n_sub_steps,
            sleeps.len() == n_bodies,
            sub == substep_passes(n_bodies as nat, n_joints as nat),
            n_bodies + n_sub_steps * substep_len(n_bodies as nat, n_joints as nat) <= usize::MAX,
            out@ == sleeps + repeated(sub, s as nat),
        decreases n_sub_steps - s,
    {
        proof {
            lemma_repeated_len(sub, s as nat);
            assert(sub.len() == substep_len(n_bodies as nat, n_joints as nat));
            assert((s + 1) * substep_len(n_bodies as nat, n_joints as nat) <= n_sub_steps
                * substep_len(n_bodies as nat, n_joints as nat)) by (nonlinear_arith)
                requires
                    s + 1 <= n_sub_steps,
            ;
            assert((s + 1) * substep_len(n_bodies as nat, n_joints as nat) == s * substep_len(
                n_bodies as nat,
                n_joints as nat,
            ) + substep_len(n_bodies as nat, n_joints as nat)) by (nonlinear_arith);
        }
        push_substep(&mut out, n_bodies, n_joints);
        s = s + 1;
        assert(out@ =~= sleeps + repeated(sub, s as nat));
    }
    out
}

} // verus!
