//! How often a request is tried, and at which host next, when the host it
//! was sent to cannot be reached.

use vstd::prelude::*;

pub mod strategy;

pub use strategy::{FallbackStrategy, Priority, Random, RoundRobin, Strategy};

verus! {

/// The budget of a request: how often it may be tried before it is given
/// up. Whatever the budget, a request is tried once.
#[derive(Debug, Clone, Copy)]
pub enum FallbackCount {
    /// As often as there are hosts.
    NumHosts,
    /// Not at all beyond the first time: there is no fallback.
    NoFallback,
    /// A fixed number of times. When it exceeds the number of hosts, hosts
    /// are tried more than once.
    Count(usize),
    /// A percentage of the number of hosts, rounded up and never more than
    /// the number of hosts.
    Percentage(u8),
    /// No limit other than the strategy running out of hosts.
    Infinite,
}

/// `ceil(hosts * percentage / 100)`, and at most `hosts`.
pub open spec fn percentage_of(hosts: nat, percentage: nat) -> nat {
    let exact = (hosts * percentage + 99) / 100;
    if exact > hosts {
        hosts
    } else {
        exact
    }
}

impl FallbackCount {
    /// The budget that this setting grants for a registry of `hosts` hosts.
    pub open spec fn budget(self, hosts: nat) -> nat {
        match self {
            FallbackCount::NumHosts => hosts,
            FallbackCount::NoFallback => 0,
            FallbackCount::Count(count) => count as nat,
            FallbackCount::Percentage(percentage) => percentage_of(hosts, percentage as nat),
            FallbackCount::Infinite => usize::MAX as nat,
        }
    }

    /// Resolves the setting against the current number of hosts.
    pub fn count(&self, hosts: usize) -> (budget: usize)
        ensures
            budget == self.budget(hosts as nat),
            self is NumHosts ==> budget == hosts,
            self is Percentage ==> budget <= hosts,
    {
        match self {
            FallbackCount::NumHosts => hosts,
            FallbackCount::NoFallback => 0,
            FallbackCount::Count(count) => *count,
            FallbackCount::Percentage(percentage) => {
                if *percentage >= 100 {
                    assert(percentage_of(hosts as nat, *percentage as nat) == hosts) by {
                        lemma_full_percentage(hosts as nat, *percentage as nat);
                    }
                    hosts
                } else {
                    assert(hosts * *percentage <= u64::MAX * 100) by (nonlinear_arith)
                        requires
                            hosts <= u64::MAX,
                            *percentage < 100,
                    ;
                    let scaled: u128 = (hosts as u128) * (*percentage as u128) + 99;
                    let exact: u128 = scaled / 100;
                    if exact > hosts as u128 {
                        hosts
                    } else {
                        exact as usize
                    }
                }
            },
            FallbackCount::Infinite => usize::MAX,
        }
    }
}

impl Default for FallbackCount {
    fn default() -> (count: FallbackCount)
        ensures
            count is NumHosts,
    {
        FallbackCount::NumHosts
    }
}

/// A percentage of 100 or more grants every host.
pub proof fn lemma_full_percentage(hosts: nat, percentage: nat)
    requires
        percentage >= 100,
    ensures
        percentage_of(hosts, percentage) == hosts,
{
    assert(hosts * percentage >= hosts * 100) by (nonlinear_arith)
        requires
            percentage >= 100,
    ;
}

/// A larger registry never gets a smaller budget.
pub proof fn lemma_budget_monotonic(count: FallbackCount, fewer: nat, more: nat)
    requires
        fewer <= more,
    ensures
        count.budget(fewer) <= count.budget(more),
{
    if let FallbackCount::Percentage(percentage) = count {
        let p = percentage as nat;
        assert(fewer * p <= more * p) by (nonlinear_arith)
            requires
                fewer <= more,
        ;
    }
}

} // verus!
