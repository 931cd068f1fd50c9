//! The laws of the accountant, stated over whole sequences of operations and
//! proved once and for all: saturation of the accumulator, exactness of the
//! rollback protocol, and purity of the root frame.

use crate::meter::AccountId;
use crate::meter::Frame;
use crate::meter::RawMeter;
use crate::meter::State;
use crate::meter::charged;
use crate::meter::fresh_frame;
use crate::meter::spec_available;
use crate::meter::unwound;
use crate::usage::Usage;
use vstd::prelude::*;

verus! {

/// An accumulator after a sequence of increments is applied in order. Each
/// increment is merged by saturating addition, so a charge of `a` is the
/// increment `Usage { charge: a, refund: 0 }` and a refund of `a` is
/// `Usage { charge: 0, refund: a }`.
pub open spec fn accumulated(init: Usage, increments: Seq<Usage>) -> Usage
    decreases increments.len(),
{
    if increments.len() == 0 {
        init
    } else {
        accumulated(init, increments.drop_last()).spec_add(increments.last())
    }
}

/// The saturation law: however many charges and refunds are applied to one
/// accumulator, its totals never exceed the representable maximum, never
/// wrap below zero, and never fall under their starting values.
pub proof fn lemma_accumulator_saturation(init: Usage, increments: Seq<Usage>)
    ensures
        0 <= accumulated(init, increments).charge <= u64::MAX,
        0 <= accumulated(init, increments).refund <= u64::MAX,
        accumulated(init, increments).charge >= init.charge,
        accumulated(init, increments).refund >= init.refund,
    decreases increments.len(),
{
    if increments.len() > 0 {
        lemma_accumulator_saturation(init, increments.drop_last());
    }
}

/// The live path after a sequence of usage deltas, each charged in order to
/// the innermost scope.
pub open spec fn charged_many(fs: Seq<Frame>, deltas: Seq<Usage>) -> Seq<Frame>
    decreases deltas.len(),
{
    if deltas.len() == 0 {
        fs
    } else {
        charged(charged_many(fs, deltas.drop_last()), deltas.last())
    }
}

/// The exact sum of the charge components of a sequence of deltas.
pub open spec fn sum_charge(deltas: Seq<Usage>) -> int
    decreases deltas.len(),
{
    if deltas.len() == 0 {
        0
    } else {
        sum_charge(deltas.drop_last()) + deltas.last().charge
    }
}

/// The exact sum of the refund components of a sequence of deltas.
pub open spec fn sum_refund(deltas: Seq<Usage>) -> int
    decreases deltas.len(),
{
    if deltas.len() == 0 {
        0
    } else {
        sum_refund(deltas.drop_last()) + deltas.last().refund
    }
}

/// While no total saturates, charging propagates exact sums: every frame's
/// total grows by exactly the summed deltas, and no frame's account, limit
/// or — below the innermost scope — own usage changes.
proof fn lemma_charged_many_exact(fs: Seq<Frame>, deltas: Seq<Usage>)
    requires
        forall|j: int|
            0 <= j < fs.len() ==> fs[j].total_usage.charge + sum_charge(deltas) <= u64::MAX
                && fs[j].total_usage.refund + sum_refund(deltas) <= u64::MAX,
    ensures
        charged_many(fs, deltas).len() == fs.len(),
        forall|j: int|
            0 <= j < fs.len() ==> {
                &&& (#[trigger] charged_many(fs, deltas)[j]).account == fs[j].account
                &&& charged_many(fs, deltas)[j].limit == fs[j].limit
                &&& charged_many(fs, deltas)[j].total_usage.charge == fs[j].total_usage.charge
                    + sum_charge(deltas)
                &&& charged_many(fs, deltas)[j].total_usage.refund == fs[j].total_usage.refund
                    + sum_refund(deltas)
            },
        forall|j: int|
            0 <= j < fs.len() - 1 ==> (#[trigger] charged_many(fs, deltas)[j]).own_usage == fs[
                j
            ].own_usage,
    decreases deltas.len(),
{
    if deltas.len() > 0 {
        lemma_charged_many_exact(fs, deltas.drop_last());
    }
}

/// Rollback exactness: open a nested scope under any live path, charge any
/// sequence of usage deltas to it, then discard it. Every remaining frame —
/// every ancestor — is restored to exactly its state from immediately before
/// the scope was opened. Stated for runs in which no total saturates: a
/// total clamped at the representable maximum has discarded the excess, and
/// no subtraction can recover it.
pub proof fn lemma_rollback_exact(fs: Seq<Frame>, contract: AccountId, deltas: Seq<Usage>)
    requires
        fs.len() >= 1,
        forall|j: int|
            0 <= j < fs.len() ==> fs[j].total_usage.charge + sum_charge(deltas) <= u64::MAX
                && fs[j].total_usage.refund + sum_refund(deltas) <= u64::MAX,
    ensures
        ({
            let worked = charged_many(
                fs.push(fresh_frame(contract, spec_available(fs.last()))),
                deltas,
            );
            unwound(worked.drop_last(), worked.last().total_usage) == fs
        }),
{
    let opened = fs.push(fresh_frame(contract, spec_available(fs.last())));
    assert(forall|j: int|
        0 <= j < opened.len() ==> opened[j].total_usage.charge + sum_charge(deltas) <= u64::MAX
            && opened[j].total_usage.refund + sum_refund(deltas) <= u64::MAX) by {
        assert(fs[0].total_usage.charge >= 0);
        assert(opened.last().total_usage == Usage::zero());
    }
    lemma_charged_many_exact(opened, deltas);
    let worked = charged_many(opened, deltas);
    assert(unwound(worked.drop_last(), worked.last().total_usage) =~= fs);
}

/// Root purity: a well-formed meter's root frame carries zero own usage —
/// the root aggregates its descendants' usage but never charges directly.
/// Every meter a library function returns is well-formed, so this holds
/// throughout a root's lifetime.
pub proof fn lemma_root_purity<S: State>(m: RawMeter<S>)
    requires
        m.wf(),
    ensures
        m.frames()[0].own_usage == Usage::zero(),
{
}

} // verus!
