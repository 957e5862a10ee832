//! The strategies that pick the host to fall back to.

use vstd::prelude::*;
use vstd::seq_lib::*;

pub mod priority;
pub mod random;
pub mod round_robin;

pub use priority::Priority;
pub use random::Random;
pub use round_robin::RoundRobin;

verus! {

/// The registry as the contracts see it: the text of each host, in order.
pub open spec fn host_names(hosts: Seq<String>) -> Seq<Seq<char>> {
    hosts.map_values(|host: String| host@)
}

/// The text of the host that a strategy selected, if it selected one.
pub open spec fn selected_name(next: Option<&String>) -> Option<Seq<char>> {
    match next {
        Some(host) => Some(host@),
        None => None,
    }
}

/// `after` holds the hosts of `before`, each as often, in any order.
pub open spec fn is_reordering(before: Seq<Seq<char>>, after: Seq<Seq<char>>) -> bool {
    before.to_multiset() == after.to_multiset()
}

/// `names` with the entries at `i` and `j` exchanged.
pub open spec fn swapped(names: Seq<Seq<char>>, i: int, j: int) -> Seq<Seq<char>> {
    names.update(i, names[j]).update(j, names[i])
}

/// `names` with its head moved to the tail.
pub open spec fn rotated(names: Seq<Seq<char>>) -> Seq<Seq<char>> {
    names.drop_first().push(names[0])
}

/// Picks the host to try after `current_host` could not be reached.
///
/// Every strategy keeps the registry's hosts, changes their order only when
/// asked to persist its choice, picks a host of the registry, and when it
/// persists leaves the host it picked at the head. The strategies of this
/// library are proved to do so; one that is written elsewhere is taken at
/// its word.
///
/// What a strategy does beyond that is told by three descriptions: what it
/// remembers, what it may pick given what it remembers, and what it
/// remembers afterwards. A fallback changes what a strategy remembers, never
/// the descriptions themselves, so that what holds of a strategy's first
/// fallback holds of every later one.
pub trait FallbackStrategy: Send + Sync + 'static {
    /// What the strategy remembers from one fallback to the next, as a list
    /// of hosts. A strategy that does not say remembers nothing.
    open spec fn memory(&self) -> Seq<Seq<char>> {
        Seq::empty()
    }

    /// What the strategy may do when it remembers `memory` and is consulted
    /// for a registry of `before` after `current` failed: whether it may
    /// return `next` and leave the registry as `after`. A strategy that does
    /// not say is held to what every strategy must keep to, and to no more.
    open spec fn picks(
        &self,
        memory: Seq<Seq<char>>,
        before: Seq<Seq<char>>,
        current: Seq<char>,
        persist: bool,
        next: Option<Seq<char>>,
        after: Seq<Seq<char>>,
    ) -> bool {
        true
    }

    /// What the strategy remembers after it was consulted with `memory` for
    /// a registry of `before` after `current` failed.
    open spec fn remembers(
        &self,
        memory: Seq<Seq<char>>,
        before: Seq<Seq<char>>,
        current: Seq<char>,
        persist: bool,
    ) -> Seq<Seq<char>> {
        memory
    }

    /// Returns the next host to try, and may reorder `hosts`.
    fn fallback<'a>(
        &mut self,
        hosts: &'a mut Vec<String>,
        current_host: &str,
        persist: bool,
    ) -> (next: Option<&'a String>)
        requires
            old(hosts)@.len() > 0,
        ensures
            old(self).picks(
                old(self).memory(),
                host_names(old(hosts)@),
                current_host@,
                persist,
                selected_name(next),
                host_names(final(hosts)@),
            ),
            final(self).memory() == old(self).remembers(
                old(self).memory(),
                host_names(old(hosts)@),
                current_host@,
                persist,
            ),
            forall|
                memory: Seq<Seq<char>>,
                before: Seq<Seq<char>>,
                current: Seq<char>,
                persisting: bool,
                picked: Option<Seq<char>>,
                after: Seq<Seq<char>>,
            |
                #[trigger] final(self).picks(memory, before, current, persisting, picked, after)
                    == old(self).picks(memory, before, current, persisting, picked, after),
            forall|
                memory: Seq<Seq<char>>,
                before: Seq<Seq<char>>,
                current: Seq<char>,
                persisting: bool,
            |
                #[trigger] final(self).remembers(memory, before, current, persisting) == old(
                    self,
                ).remembers(memory, before, current, persisting),
            final(hosts)@.len() == old(hosts)@.len(),
            is_reordering(host_names(old(hosts)@), host_names(final(hosts)@)),
            !persist ==> host_names(final(hosts)@) == host_names(old(hosts)@),
            next matches Some(host) ==> host_names(final(hosts)@).contains(host@),
            persist ==> (next matches Some(host) ==> host@ == host_names(final(hosts)@)[0]),
    ;
}

/// Whether `later` is described as `earlier` is: whether the two may pick
/// the same and remember the same, whatever they are consulted for.
pub open spec fn same_descriptions<S: FallbackStrategy>(earlier: &S, later: &S) -> bool {
    &&& forall|
        memory: Seq<Seq<char>>,
        before: Seq<Seq<char>>,
        current: Seq<char>,
        persist: bool,
        next: Option<Seq<char>>,
        after: Seq<Seq<char>>,
    |
        #[trigger] later.picks(memory, before, current, persist, next, after) == earlier.picks(
            memory,
            before,
            current,
            persist,
            next,
            after,
        )
    &&& forall|memory: Seq<Seq<char>>, before: Seq<Seq<char>>, current: Seq<char>, persist: bool|
        #[trigger] later.remembers(memory, before, current, persist) == earlier.remembers(
            memory,
            before,
            current,
            persist,
        )
}

/// A strategy as a client holds it: one of this library's, or one that was
/// written elsewhere.
pub enum Strategy {
    RoundRobin(RoundRobin),
    Priority(Priority),
    Random(Random),
    Custom(Box<dyn FallbackStrategy>),
}

impl FallbackStrategy for Strategy {
    /// What the strategy that is held remembers.
    open spec fn memory(&self) -> Seq<Seq<char>> {
        match self {
            Strategy::RoundRobin(strategy) => strategy.memory(),
            Strategy::Priority(strategy) => strategy.memory(),
            Strategy::Random(strategy) => strategy.memory(),
            Strategy::Custom(strategy) => strategy.memory(),
        }
    }

    /// What the strategy that is held may pick.
    open spec fn picks(
        &self,
        memory: Seq<Seq<char>>,
        before: Seq<Seq<char>>,
        current: Seq<char>,
        persist: bool,
        next: Option<Seq<char>>,
        after: Seq<Seq<char>>,
    ) -> bool {
        match self {
            Strategy::RoundRobin(strategy) => strategy.picks(
                memory,
                before,
                current,
                persist,
                next,
                after,
            ),
            Strategy::Priority(strategy) => strategy.picks(
                memory,
                before,
                current,
                persist,
                next,
                after,
            ),
            Strategy::Random(strategy) => strategy.picks(
                memory,
                before,
                current,
                persist,
                next,
                after,
            ),
            Strategy::Custom(strategy) => strategy.picks(
                memory,
                before,
                current,
                persist,
                next,
                after,
            ),
        }
    }

    /// What the strategy that is held remembers afterwards.
    open spec fn remembers(
        &self,
        memory: Seq<Seq<char>>,
        before: Seq<Seq<char>>,
        current: Seq<char>,
        persist: bool,
    ) -> Seq<Seq<char>> {
        match self {
            Strategy::RoundRobin(strategy) => strategy.remembers(memory, before, current, persist),
            Strategy::Priority(strategy) => strategy.remembers(memory, before, current, persist),
            Strategy::Random(strategy) => strategy.remembers(memory, before, current, persist),
            Strategy::Custom(strategy) => strategy.remembers(memory, before, current, persist),
        }
    }

    /// Falls back as the strategy that is held does. The strategy that is
    /// held stays the one it is.
    fn fallback<'a>(
        &mut self,
        hosts: &'a mut Vec<String>,
        current_host: &str,
        persist: bool,
    ) -> (next: Option<&'a String>)
        ensures
            *old(self) is RoundRobin ==> *final(self) is RoundRobin,
            *old(self) is Priority ==> *final(self) is Priority,
            *old(self) is Random ==> *final(self) is Random,
            *old(self) is Custom ==> *final(self) is Custom,
    {
        match self {
            Strategy::RoundRobin(strategy) => strategy.fallback(hosts, current_host, persist),
            Strategy::Priority(strategy) => strategy.fallback(hosts, current_host, persist),
            Strategy::Random(strategy) => strategy.fallback(hosts, current_host, persist),
            Strategy::Custom(strategy) => strategy.fallback(hosts, current_host, persist),
        }
    }
}

impl Default for Strategy {
    /// Round robin.
    fn default() -> (strategy: Strategy)
        ensures
            strategy is RoundRobin,
    {
        Strategy::RoundRobin(RoundRobin)
    }
}

impl From<RoundRobin> for Strategy {
    fn from(strategy: RoundRobin) -> (held: Strategy) {
        Strategy::RoundRobin(strategy)
    }
}

impl vstd::std_specs::convert::FromSpecImpl<RoundRobin> for Strategy {
    open spec fn obeys_from_spec() -> bool {
        true
    }

    open spec fn from_spec(strategy: RoundRobin) -> Strategy {
        Strategy::RoundRobin(strategy)
    }
}

impl From<Priority> for Strategy {
    fn from(strategy: Priority) -> (held: Strategy) {
        Strategy::Priority(strategy)
    }
}

impl vstd::std_specs::convert::FromSpecImpl<Priority> for Strategy {
    open spec fn obeys_from_spec() -> bool {
        true
    }

    open spec fn from_spec(strategy: Priority) -> Strategy {
        Strategy::Priority(strategy)
    }
}

impl From<Random> for Strategy {
    fn from(strategy: Random) -> (held: Strategy) {
        Strategy::Random(strategy)
    }
}

impl vstd::std_specs::convert::FromSpecImpl<Random> for Strategy {
    open spec fn obeys_from_spec() -> bool {
        true
    }

    open spec fn from_spec(strategy: Random) -> Strategy {
        Strategy::Random(strategy)
    }
}

impl From<Box<dyn FallbackStrategy>> for Strategy {
    fn from(strategy: Box<dyn FallbackStrategy>) -> (held: Strategy) {
        Strategy::Custom(strategy)
    }
}

impl vstd::std_specs::convert::FromSpecImpl<Box<dyn FallbackStrategy>> for Strategy {
    open spec fn obeys_from_spec() -> bool {
        true
    }

    open spec fn from_spec(strategy: Box<dyn FallbackStrategy>) -> Strategy {
        Strategy::Custom(strategy)
    }
}

/// The position of the first host of the registry whose text is `host`.
pub fn find_host(hosts: &Vec<String>, host: &str) -> (index: Option<usize>)
    ensures
        match index {
            Some(i) => i < hosts@.len() && host_names(hosts@).index_of_first(host@) == Some(
                i as int,
            ),
            None => host_names(hosts@).index_of_first(host@) is None,
        },
{
    let wanted = host.to_owned();
    let ghost names = host_names(hosts@);
    let mut i: usize = 0;
    while i < hosts.len()
        invariant
            i <= hosts.len(),
            names == host_names(hosts@),
            wanted@ == host@,
            forall|j: int| 0 <= j < i ==> names[j] != host@,
        decreases hosts.len() - i,
    {
        if hosts[i] == wanted {
            proof {
                assert(names[i as int] == host@);
                names.index_of_first_ensures(host@);
            }
            return Some(i);
        }
        i += 1;
    }
    proof {
        names.index_of_first_ensures(host@);
    }
    Option::None
}

/// Exchanges the hosts at `i` and `j`.
pub fn swap_hosts(hosts: &mut Vec<String>, i: usize, j: usize)
    requires
        i < old(hosts)@.len(),
        j < old(hosts)@.len(),
    ensures
        final(hosts)@.len() == old(hosts)@.len(),
        host_names(final(hosts)@) == swapped(host_names(old(hosts)@), i as int, j as int),
        is_reordering(host_names(old(hosts)@), host_names(final(hosts)@)),
{
    let first = hosts[i].clone();
    let second = hosts[j].clone();
    hosts.set(i, second);
    hosts.set(j, first);
    proof {
        assert(host_names(hosts@) =~= swapped(host_names(old(hosts)@), i as int, j as int));
        lemma_swap_reorders(host_names(old(hosts)@), i as int, j as int);
    }
}

/// Exchanging two entries keeps every host, each as often.
pub proof fn lemma_swap_reorders(names: Seq<Seq<char>>, i: int, j: int)
    requires
        0 <= i < names.len(),
        0 <= j < names.len(),
    ensures
        is_reordering(names, swapped(names, i, j)),
{
    broadcast use vstd::multiset::group_multiset_axioms;

    let half = names.update(i, names[j]);
    to_multiset_update(names, i, names[j]);
    to_multiset_update(half, j, names[i]);
    to_multiset_contains(names, names[i]);
    to_multiset_contains(names, names[j]);
    assert(names.contains(names[i]));
    assert(names.contains(names[j]));
    assert(half[j] == names[j]);
    assert(swapped(names, i, j).to_multiset() =~= names.to_multiset());
}

/// Moving the head to the tail keeps every host, each as often.
pub proof fn lemma_rotation_reorders(names: Seq<Seq<char>>)
    requires
        names.len() > 0,
    ensures
        is_reordering(names, rotated(names)),
{
    broadcast use vstd::multiset::group_multiset_axioms;

    assert(names.drop_first() =~= names.remove(0));
    to_multiset_remove(names, 0);
    to_multiset_build(names.remove(0), names[0]);
    to_multiset_contains(names, names[0]);
    assert(names.contains(names[0]));
    assert(rotated(names).to_multiset() =~= names.to_multiset());
}

} // verus!
