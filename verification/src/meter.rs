//! The call-tree meter: frame lifecycle, charging with immediate propagation
//! to every ancestor, and the commit/rollback protocol.

use core::marker::PhantomData;
use crate::usage::Balance;
use crate::usage::Cost;
use crate::usage::Usage;
use crate::usage::sat_add;
use crate::usage::sat_sub;
use vstd::pervasive::unreached;
use vstd::prelude::*;

verus! {

/// An opaque, equality-comparable identity: the origin funding a call tree,
/// or a contract incurring usage in a nested scope.
pub type AccountId = u64;

/// Why a meter operation failed.
#[derive(Clone, Copy, Debug, PartialEq, Eq, Structural)]
pub enum MeterError {
    /// The ledger could not set the requested limit aside for the origin.
    /// Raised only when a root meter is created; no frame exists yet.
    ReservationFailed,
    /// A nested scope's accumulated net charge exceeds its limit. The caller
    /// must discard the scope; its accounting is kept until then so the
    /// unwind reverses exactly what was recorded.
    StorageExhausted,
}

/// The ledger the meter reserves, releases and settles funds against. The
/// meter defines only this interface; its users supply the implementation,
/// so nothing is assumed here about what the ledger does.
pub trait Ext {
    /// Places a hold of `limit` against `origin`'s spendable balance. An
    /// error is the ledger's own insufficient-funds condition.
    fn reserve_limit(&mut self, origin: &AccountId, limit: &Balance) -> Result<(), ()>;

    /// Removes the hold placed for `origin`, given the held limit and the
    /// whole tree's final usage. The meter invokes this exactly once per
    /// root, from [`RawMeter::destroy`].
    fn unreserve_limit(&mut self, origin: &AccountId, limit: &Balance, usage: &Usage);

    /// Applies a net charge or refund between `origin` and `contract`. The
    /// meter invokes this once per persisted nested scope.
    fn charge(&mut self, origin: &AccountId, contract: &AccountId, amount: &Cost);
}

/// Tags a meter with the kind of its current (innermost) scope, so that
/// charging the root scope directly is unrepresentable rather than checked
/// at run time.
pub trait State {
    /// Whether the tagged scope is the origin-funded root of the call tree.
    spec fn is_root() -> bool;
}

/// The current scope is the origin-funded root of the call tree. A pure
/// type-level tag; no value of it is ever made.
pub enum Root {
    Tag,
}

/// The current scope is a nested, per-contract call. A pure type-level tag;
/// no value of it is ever made.
pub enum Nested {
    Tag,
}

impl State for Root {
    open spec fn is_root() -> bool {
        true
    }
}

impl State for Nested {
    open spec fn is_root() -> bool {
        false
    }
}

/// The meter of a call tree whose current scope is the root itself.
pub type Meter = RawMeter<Root>;

/// The meter of a call tree whose current scope is a nested call.
pub type NestedMeter = RawMeter<Nested>;

/// One live node of the call tree.
#[derive(Clone, Copy, Debug, PartialEq, Eq, Structural)]
pub struct Frame {
    /// The origin that funds the tree, on the root frame; the contract of
    /// the call, on a nested frame.
    pub account: AccountId,
    /// The ceiling on the net charge this scope and its descendants may
    /// accumulate.
    pub limit: Balance,
    /// Usage of this scope plus every descendant.
    pub total_usage: Usage,
    /// Usage attributable to this scope's own account alone; always zero on
    /// the root frame, which never charges directly, only aggregates.
    pub own_usage: Usage,
}

/// The budget still available to a frame: its limit, plus what its subtree
/// refunded, minus what its subtree charged, floored at zero.
pub open spec fn spec_available(f: Frame) -> Balance {
    sat_sub(sat_add(f.limit, f.total_usage.refund), f.total_usage.charge)
}

/// Whether a frame's accumulated net cost is a charge beyond its limit.
pub open spec fn exceeds_limit(f: Frame) -> bool {
    &&& f.total_usage.charge >= f.total_usage.refund
    &&& f.total_usage.charge - f.total_usage.refund > f.limit
}

/// A fresh frame for a scope with the given ceiling and no usage yet.
pub open spec fn fresh_frame(account: AccountId, limit: Balance) -> Frame {
    Frame { account, limit, total_usage: Usage::zero(), own_usage: Usage::zero() }
}

/// The live path after a usage delta is charged to the innermost scope: the
/// delta is merged into the last frame's own usage and, immediately, into
/// every frame's total.
pub open spec fn charged(fs: Seq<Frame>, delta: Usage) -> Seq<Frame> {
    Seq::new(
        fs.len(),
        |i: int|
            Frame {
                account: fs[i].account,
                limit: fs[i].limit,
                total_usage: fs[i].total_usage.spec_add(delta),
                own_usage: if i == fs.len() - 1 {
                    fs[i].own_usage.spec_add(delta)
                } else {
                    fs[i].own_usage
                },
            },
    )
}

/// The live path after a discarded scope's contribution is unwound: the
/// contribution is subtracted from every remaining frame's total.
pub open spec fn unwound(fs: Seq<Frame>, contribution: Usage) -> Seq<Frame> {
    Seq::new(
        fs.len(),
        |i: int|
            Frame {
                account: fs[i].account,
                limit: fs[i].limit,
                total_usage: fs[i].total_usage.spec_sub(contribution),
                own_usage: fs[i].own_usage,
            },
    )
}

/// A meter for one call tree. It owns the live path of frames, from the
/// origin-funded root down to the currently executing scope; siblings are
/// fully absorbed before the next one opens, so the path is the whole live
/// tree. The tag `S` names the kind of the innermost scope.
pub struct RawMeter<S: State> {
    frames: Vec<Frame>,
    _state: PhantomData<S>,
}

impl<S: State> RawMeter<S> {
    /// The live path of frames: the root first, the current scope last.
    pub closed spec fn frames(self) -> Seq<Frame> {
        self.frames@
    }

    /// Well-formed: the root frame is live, the state tag matches the depth,
    /// and the root frame's own usage is zero.
    pub open spec fn wf(self) -> bool {
        &&& self.frames().len() >= 1
        &&& (S::is_root() <==> self.frames().len() == 1)
        &&& self.frames()[0].own_usage == Usage::zero()
    }

    /// How many frames are live: the root plus every open nested scope.
    pub fn depth(&self) -> (n: usize)
        ensures
            n == self.frames().len(),
    {
        self.frames.len()
    }

    /// The live frame at position `i`: the root at zero, the current scope
    /// at `depth() - 1`.
    pub fn frame(&self, i: usize) -> (f: Frame)
        requires
            i < self.frames().len(),
        ensures
            f == self.frames()[i as int],
    {
        self.frames[i]
    }

    /// The budget still available to the current scope; a nested scope
    /// opened now would receive exactly this as its limit.
    pub fn available(&self) -> (r: Balance)
        requires
            self.wf(),
        ensures
            r == spec_available(self.frames().last()),
    {
        let f = &self.frames[self.frames.len() - 1];
        f.limit.saturating_add(f.total_usage.refund).saturating_sub(f.total_usage.charge)
    }

    /// Opens a nested scope for `contract` under the current scope. The new
    /// frame's limit is the current scope's available budget at this instant
    /// — never more — and its usage totals start at zero.
    pub fn nested(self, contract: AccountId) -> (r: RawMeter<Nested>)
        requires
            self.wf(),
        ensures
            r.wf(),
            r.frames() == self.frames().push(
                fresh_frame(contract, spec_available(self.frames().last())),
            ),
            r.frames().last().limit <= spec_available(self.frames().last()),
    {
        let limit = self.available();
        let mut frames = self.frames;
        frames.push(Frame { account: contract, limit, total_usage: Usage::new(), own_usage: Usage::new() });
        RawMeter { frames, _state: PhantomData }
    }
}

impl RawMeter<Root> {
    /// Requests a reservation of `limit` for `origin` from the ledger and,
    /// on success, returns the root meter with zero usage. Whether the
    /// reservation succeeds is the ledger's decision alone;
    /// [`RawMeter::from_reservation`] states what each outcome yields.
    pub fn new<E: Ext>(ext: &mut E, origin: AccountId, limit: Balance) -> (r: Result<
        RawMeter<Root>,
        MeterError,
    >)
        ensures
            r matches Ok(m) ==> m.wf() && m.frames() == seq![fresh_frame(origin, limit)],
            r matches Err(e) ==> e == MeterError::ReservationFailed,
    {
        let reserved = ext.reserve_limit(&origin, &limit);
        Self::from_reservation(origin, limit, reserved)
    }

    /// Builds the root meter from the outcome of the ledger's reservation:
    /// a reservation that was placed yields the root with zero usage, one
    /// the ledger refused yields `ReservationFailed`, and nothing else.
    pub fn from_reservation(origin: AccountId, limit: Balance, reserved: Result<(), ()>) -> (r:
        Result<RawMeter<Root>, MeterError>)
        ensures
            r is Ok <==> reserved is Ok,
            r matches Ok(m) ==> m.wf() && m.frames() == seq![fresh_frame(origin, limit)],
            reserved is Err ==> r == Err::<RawMeter<Root>, MeterError>(MeterError::ReservationFailed),
    {
        match reserved {
            Ok(_) => {
                let mut frames: Vec<Frame> = Vec::new();
                frames.push(Frame {
                    account: origin,
                    limit,
                    total_usage: Usage::new(),
                    own_usage: Usage::new(),
                });
                proof {
                    assert(frames@ =~= seq![fresh_frame(origin, limit)]);
                }
                Ok(RawMeter { frames, _state: PhantomData })
            },
            Err(_) => Err(MeterError::ReservationFailed),
        }
    }

    /// Tears the root down when the whole call tree has finished, releasing
    /// the origin's reservation. The root is consumed, so the release
    /// happens exactly once per root; that its own usage is still zero is
    /// guaranteed by well-formedness rather than checked at run time.
    pub fn destroy<E: Ext>(self, ext: &mut E)
        requires
            self.wf(),
    {
        let f = &self.frames[0];
        ext.unreserve_limit(&f.account, &f.limit, &f.total_usage);
    }
}

impl RawMeter<Nested> {
    /// Charges a usage delta to the current scope: the delta is merged into
    /// this frame's own and total usage and, immediately, into every
    /// ancestor's total, up to and including the root — a limit models a
    /// hard ceiling on a real balance that must never be oversold, even
    /// transiently. Fails with `StorageExhausted` exactly when the merged
    /// net cost is a charge above this scope's limit; the accounting is
    /// retained even then, so that discarding the scope unwinds exactly
    /// what was recorded.
    pub fn charge(&mut self, usage: Usage) -> (r: Result<(), MeterError>)
        requires
            old(self).wf(),
        ensures
            final(self).wf(),
            final(self).frames() == charged(old(self).frames(), usage),
            r is Ok <==> !exceeds_limit(charged(old(self).frames(), usage).last()),
            r is Err ==> r == Err::<(), MeterError>(MeterError::StorageExhausted),
    {
        let ghost fs0 = self.frames@;
        let n = self.frames.len();
        let mut i: usize = 0;
        while i < n
            invariant
                fs0 == old(self).frames@,
                n == self.frames@.len(),
                n == fs0.len(),
                i <= n,
                forall|j: int|
                    0 <= j < i ==> self.frames@[j] == (Frame {
                        account: fs0[j].account,
                        limit: fs0[j].limit,
                        total_usage: fs0[j].total_usage.spec_add(usage),
                        own_usage: fs0[j].own_usage,
                    }),
                forall|j: int| i <= j < n ==> self.frames@[j] == fs0[j],
            decreases n - i,
        {
            let f = self.frames[i];
            self.frames[i] = Frame {
                account: f.account,
                limit: f.limit,
                total_usage: f.total_usage.saturating_add(usage),
                own_usage: f.own_usage,
            };
            i += 1;
        }
        let top = self.frames[n - 1];
        self.frames[n - 1] = Frame {
            account: top.account,
            limit: top.limit,
            total_usage: top.total_usage,
            own_usage: top.own_usage.saturating_add(usage),
        };
        proof {
            assert(self.frames@ =~= charged(fs0, usage));
        }
        let merged = &self.frames[n - 1];
        if let Cost::Charge(amount) = merged.total_usage.cost() {
            if amount > merged.limit {
                return Err(MeterError::StorageExhausted);
            }
        }
        Ok(())
    }

    /// Consumes the current scope and returns the meter for its parent; the
    /// caller names the parent's state, which must match the depth. With
    /// `persist`, the scope's own net cost is settled between the origin and
    /// the scope's contract, and the totals stand as already propagated.
    /// Without, no settlement is issued and the scope's whole contribution
    /// is subtracted from every ancestor's total, restoring the state from
    /// before the scope was opened.
    pub fn absorb<P: State, E: Ext>(self, ext: &mut E, persist: bool) -> (r: RawMeter<P>)
        requires
            self.wf(),
            P::is_root() <==> self.frames().len() == 2,
        ensures
            r.wf(),
            persist ==> r.frames() == self.frames().drop_last(),
            !persist ==> r.frames() == unwound(
                self.frames().drop_last(),
                self.frames().last().total_usage,
            ),
    {
        let ghost fs0 = self.frames@;
        let mut frames = self.frames;
        let absorbed = match frames.pop() {
            Some(f) => f,
            None => unreached(),
        };
        if persist {
            let origin = frames[0].account;
            let cost = absorbed.own_usage.cost();
            ext.charge(&origin, &absorbed.account, &cost);
            proof {
                assert(frames@ =~= fs0.drop_last());
            }
        } else {
            let n = frames.len();
            let mut i: usize = 0;
            while i < n
                invariant
                    n == frames@.len(),
                    n == fs0.len() - 1,
                    i <= n,
                    forall|j: int| i <= j < n ==> frames@[j] == fs0[j],
                    forall|j: int|
                        0 <= j < i ==> frames@[j] == (Frame {
                            account: fs0[j].account,
                            limit: fs0[j].limit,
                            total_usage: fs0[j].total_usage.spec_sub(absorbed.total_usage),
                            own_usage: fs0[j].own_usage,
                        }),
                    absorbed == fs0.last(),
                decreases n - i,
            {
                let f = frames[i];
                frames[i] = Frame {
                    account: f.account,
                    limit: f.limit,
                    total_usage: f.total_usage.saturating_sub(absorbed.total_usage),
                    own_usage: f.own_usage,
                };
                i += 1;
            }
            proof {
                assert(frames@ =~= unwound(fs0.drop_last(), fs0.last().total_usage));
            }
        }
        RawMeter { frames, _state: PhantomData }
    }
}

} // verus!
