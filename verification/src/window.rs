//! The window planner: how a test region is cut into equal, aligned windows
//! that one dispatch each can address.

use vstd::prelude::*;
use crate::params::{ELEMENT_SIZE, WG_SIZE};

verus! {

/// Why a test cannot be set up.
#[derive(Clone, Copy, Debug, PartialEq, Eq, Structural)]
pub enum ConfigurationError {
    /// No device offers a queue family that can run compute work.
    NoComputeDevice,
    /// No memory type has the properties that an allocation needs.
    NoSuitableMemoryType,
    /// The planned windows would hold no bytes.
    ZeroSizeWindow,
}

/// Number of windows needed for `total_size` bytes when none may exceed
/// `max_window_size`: the quotient rounded up.
pub open spec fn window_count_of(total_size: nat, max_window_size: nat) -> nat
    recommends
        max_window_size > 0,
{
    ((total_size + max_window_size - 1) / (max_window_size as int)) as nat
}

/// Size of each window: an equal share of `total_size`, rounded down to a
/// multiple of `granularity`.
pub open spec fn window_size_of(total_size: nat, max_window_size: nat, granularity: nat) -> nat
    recommends
        max_window_size > 0,
        granularity > 0,
        total_size > 0,
{
    (total_size / window_count_of(total_size, max_window_size) / granularity) * granularity
}

/// Whether windows of a positive size exist for these inputs.
pub open spec fn plannable(total_size: nat, max_window_size: nat, granularity: nat) -> bool {
    &&& max_window_size > 0
    &&& granularity > 0
    &&& total_size > 0
    &&& window_size_of(total_size, max_window_size, granularity) > 0
}

/// A plan as a mathematical value.
pub struct PlanView {
    pub window_count: nat,
    pub window_size: nat,
}

impl PlanView {
    /// The bytes that the plan covers, which may be fewer than were asked for.
    pub open spec fn tested_size(self) -> nat {
        self.window_count * self.window_size
    }

    /// Byte offset of window `index` in the test region.
    pub open spec fn offset_of(self, index: nat) -> nat {
        index * self.window_size
    }

    /// Window `index` of the plan.
    pub open spec fn window(self, index: nat) -> Window {
        Window {
            offset: self.offset_of(index) as u64,
            size: self.window_size as u64,
            element_count: (self.window_size / ELEMENT_SIZE as nat) as u64,
        }
    }
}

/// One window of the test region.
#[derive(Clone, Copy, Debug, PartialEq, Eq, Structural)]
pub struct Window {
    /// Byte offset into the test region.
    pub offset: u64,
    /// Size in bytes.
    pub size: u64,
    /// Number of test elements, `size / 4`.
    pub element_count: u64,
}

impl Window {
    /// Number of workgroups that one dispatch over the window launches: the
    /// element count divided by the workgroup size, where that division is
    /// exact and the quotient is a 32-bit count.
    pub open spec fn workgroups(self) -> Option<u32> {
        if self.element_count % WG_SIZE == 0 && self.element_count / WG_SIZE <= u32::MAX {
            Some((self.element_count / WG_SIZE) as u32)
        } else {
            None
        }
    }

    /// Computes the number of workgroups to dispatch for the window, if the
    /// window can be dispatched.
    pub fn workgroup_count(&self) -> (count: Option<u32>)
        ensures
            count == self.workgroups(),
    {
        if self.element_count % WG_SIZE == 0 && self.element_count / WG_SIZE <= u32::MAX as u64 {
            Some((self.element_count / WG_SIZE) as u32)
        } else {
            None
        }
    }
}

/// A plan: how many windows, and of what size.
#[derive(Clone, Copy, Debug)]
pub struct WindowPlan {
    window_count: u64,
    window_size: u64,
}

impl View for WindowPlan {
    type V = PlanView;

    closed spec fn view(&self) -> PlanView {
        PlanView { window_count: self.window_count as nat, window_size: self.window_size as nat }
    }
}

impl WindowPlan {
    /// Every plan has at least one window, of a positive size, and covers a
    /// region that 64 bits can address.
    #[verifier::type_invariant]
    pub open spec fn wf(self) -> bool {
        &&& self@.window_count > 0
        &&& self@.window_size > 0
        &&& self@.tested_size() <= u64::MAX
    }

    /// Cuts `total_size` bytes into the fewest windows of at most
    /// `max_window_size` bytes each, all of one size that is a multiple of
    /// `granularity`. Fails where such windows would be empty.
    pub fn new(total_size: u64, max_window_size: u64, granularity: u64) -> (plan: Result<
        WindowPlan,
        ConfigurationError,
    >)
        ensures
            plannable(total_size as nat, max_window_size as nat, granularity as nat) ==> plan is Ok
                && plan->Ok_0.wf() && plan->Ok_0@ == (PlanView {
                window_count: window_count_of(total_size as nat, max_window_size as nat),
                window_size: window_size_of(
                    total_size as nat,
                    max_window_size as nat,
                    granularity as nat,
                ),
            }),
            !plannable(total_size as nat, max_window_size as nat, granularity as nat) ==> plan
                == Err::<WindowPlan, ConfigurationError>(ConfigurationError::ZeroSizeWindow),
    {
        if max_window_size == 0 || granularity == 0 || total_size == 0 {
            return Err(ConfigurationError::ZeroSizeWindow);
        }
        proof {
            lemma_window_count(total_size as nat, max_window_size as nat);
        }
        let remainder: u64 = total_size % max_window_size;
        let window_count: u64 = if remainder != 0 {
            total_size / max_window_size + 1
        } else {
            total_size / max_window_size
        };
        let share: u64 = total_size / window_count;
        proof {
            vstd::arithmetic::div_mod::lemma_mod_decreases(share as nat, granularity as nat);
        }
        let window_size: u64 = share - share % granularity;
        proof {
            lemma_window_size(total_size as nat, max_window_size as nat, granularity as nat);
            assert(window_size == window_size_of(
                total_size as nat,
                max_window_size as nat,
                granularity as nat,
            )) by {
                vstd::arithmetic::div_mod::lemma_fundamental_div_mod(
                    share as int,
                    granularity as int,
                );
                vstd::arithmetic::mul::lemma_mul_is_commutative(
                    granularity as int,
                    share as int / granularity as int,
                );
            }
        }
        if window_size == 0 {
            return Err(ConfigurationError::ZeroSizeWindow);
        }
        Ok(WindowPlan { window_count, window_size })
    }

    /// Number of windows.
    pub fn window_count(&self) -> (count: u64)
        ensures
            count == self@.window_count,
            self.wf(),
    {
        proof {
            use_type_invariant(self);
        }
        self.window_count
    }

    /// Size of every window, in bytes.
    pub fn window_size(&self) -> (size: u64)
        ensures
            size == self@.window_size,
            self.wf(),
    {
        proof {
            use_type_invariant(self);
        }
        self.window_size
    }

    /// The bytes that the plan covers: all windows together.
    pub fn tested_size(&self) -> (size: u64)
        ensures
            size == self@.tested_size(),
            self.wf(),
    {
        proof {
            use_type_invariant(self);
        }
        self.window_count * self.window_size
    }

    /// Window `index` of the plan, in planner order; none past the last.
    pub fn window(&self, index: u64) -> (window: Option<Window>)
        ensures
            index >= self@.window_count ==> window is None,
            index < self@.window_count ==> window == Some(self@.window(index as nat))
                && self@.offset_of(index as nat) + self@.window_size <= self@.tested_size(),
    {
        if index < self.window_count {
            Some(self.window_within(index))
        } else {
            None
        }
    }

    /// Window `index` of the plan, for an index that the plan holds.
    pub(crate) fn window_within(&self, index: u64) -> (window: Window)
        requires
            index < self@.window_count,
        ensures
            window == self@.window(index as nat),
            self@.offset_of(index as nat) + self@.window_size <= self@.tested_size(),
    {
        proof {
            use_type_invariant(self);
            assert((index + 1) * self.window_size <= self.window_count * self.window_size)
                by (nonlinear_arith)
                requires
                    index + 1 <= self.window_count,
            ;
            assert((index + 1) * self.window_size == index * self.window_size + self.window_size)
                by (nonlinear_arith);
        }
        Window {
            offset: index * self.window_size,
            size: self.window_size,
            element_count: self.window_size / ELEMENT_SIZE,
        }
    }
}

/// The window count is the quotient rounded up: the least number of windows
/// of at most `max_window_size` bytes that hold `total_size` bytes.
pub proof fn lemma_window_count(total_size: nat, max_window_size: nat)
    requires
        max_window_size > 0,
    ensures
        ({
            let count = window_count_of(total_size, max_window_size);
            &&& count == if total_size % max_window_size == 0 {
                total_size / max_window_size
            } else {
                total_size / max_window_size + 1
            }
            &&& count * max_window_size >= total_size
            &&& total_size > 0 ==> count > 0 && (count - 1) * max_window_size < total_size
            &&& count <= total_size
        }),
{
    let t = total_size as int;
    let m = max_window_size as int;
    let q = t / m;
    let r = t % m;
    vstd::arithmetic::div_mod::lemma_fundamental_div_mod(t, m);
    assert(t == m * q + r);
    vstd::arithmetic::div_mod::lemma_mod_bound(t, m);
    if r == 0 {
        assert(t + m - 1 == q * m + (m - 1)) by (nonlinear_arith)
            requires
                t == m * q + r,
                r == 0,
        ;
        vstd::arithmetic::div_mod::lemma_fundamental_div_mod_converse(t + m - 1, m, q, m - 1);
    } else {
        assert(t + m - 1 == (q + 1) * m + (r - 1)) by (nonlinear_arith)
            requires
                t == m * q + r,
        ;
        vstd::arithmetic::div_mod::lemma_fundamental_div_mod_converse(t + m - 1, m, q + 1, r - 1);
    }
    let count = window_count_of(total_size, max_window_size) as int;
    assert(count * m >= t) by (nonlinear_arith)
        requires
            t == m * q + r,
            0 <= r < m,
            count == if r == 0 {
                q
            } else {
                q + 1
            },
    ;
    assert(t > 0 ==> count > 0) by (nonlinear_arith)
        requires
            count * m >= t,
            m > 0,
    ;
    assert((count - 1) * m < t || t == 0) by (nonlinear_arith)
        requires
            t == m * q + r,
            0 <= r < m,
            t >= 0,
            count == if r == 0 {
                q
            } else {
                q + 1
            },
    ;
    assert(count <= t) by (nonlinear_arith)
        requires
            t == m * q + r,
            0 <= r < m,
            m >= 1,
            q >= 0,
            count == if r == 0 {
                q
            } else {
                q + 1
            },
    ;
    assert(q >= 0) by (nonlinear_arith)
        requires
            t == m * q + r,
            0 <= r < m,
            t >= 0,
    ;
}

/// The windows are aligned, none exceeds the limit, and together they stay
/// within the requested size, short of it by less than one granule each.
pub proof fn lemma_window_size(total_size: nat, max_window_size: nat, granularity: nat)
    requires
        max_window_size > 0,
        granularity > 0,
        total_size > 0,
    ensures
        ({
            let count = window_count_of(total_size, max_window_size);
            let size = window_size_of(total_size, max_window_size, granularity);
            &&& count > 0
            &&& size % granularity == 0
            &&& size <= max_window_size
            &&& count * size <= total_size
            &&& total_size - count * size < count * granularity + count
            &&& size == total_size / count - (total_size / count) % granularity
        }),
{
    lemma_window_count(total_size, max_window_size);
    let t = total_size as int;
    let m = max_window_size as int;
    let g = granularity as int;
    let count = window_count_of(total_size, max_window_size) as int;
    let share = t / count;
    let size = window_size_of(total_size, max_window_size, granularity) as int;
    vstd::arithmetic::div_mod::lemma_fundamental_div_mod(t, count);
    vstd::arithmetic::div_mod::lemma_mod_bound(t, count);
    vstd::arithmetic::div_mod::lemma_fundamental_div_mod(share, g);
    vstd::arithmetic::div_mod::lemma_mod_bound(share, g);
    vstd::arithmetic::div_mod::lemma_div_pos_is_pos(t, count);
    vstd::arithmetic::div_mod::lemma_div_pos_is_pos(share, g);
    assert(size == (share / g) * g);
    vstd::arithmetic::mul::lemma_mul_is_commutative(share / g, g);
    vstd::arithmetic::div_mod::lemma_mod_multiples_basic(share / g, g);
    assert(size <= share);
    assert(share <= m) by (nonlinear_arith)
        requires
            count * m >= t,
            t == count * share + t % count,
            0 <= t % count,
            count > 0,
    ;
    assert(count * size <= t) by (nonlinear_arith)
        requires
            t == count * share + t % count,
            0 <= t % count,
            0 <= size <= share,
            count > 0,
    ;
    assert(t - count * size < count * g + count) by (nonlinear_arith)
        requires
            t == count * share + t % count,
            0 <= t % count < count,
            share == g * (share / g) + share % g,
            size == g * (share / g),
            0 <= share % g < g,
            count > 0,
    ;
}

/// For every request of at least one granule: each window is a multiple of
/// the granularity, none exceeds the limit, and all together do not exceed
/// the requested size.
pub proof fn lemma_windows_fit(total_size: u64, max_window_size: u64, granularity: u64)
    requires
        total_size >= granularity,
        granularity > 0,
        max_window_size > 0,
    ensures
        ({
            let count = window_count_of(total_size as nat, max_window_size as nat);
            let size = window_size_of(
                total_size as nat,
                max_window_size as nat,
                granularity as nat,
            );
            &&& size % (granularity as nat) == 0
            &&& size <= max_window_size
            &&& count * size <= total_size
        }),
{
    lemma_window_size(total_size as nat, max_window_size as nat, granularity as nat);
}

} // verus!
