//! Falling back to the host that follows the failed one in the registry.

use vstd::prelude::*;
use vstd::seq_lib::*;
use super::{
    find_host, host_names, is_reordering, lemma_rotation_reorders, rotated,
    FallbackStrategy,
};

verus! {

/// Tries the hosts in the order of the registry, wrapping around at its end.
pub struct RoundRobin;

/// The host that follows the first occurrence of `current` in `names`,
/// wrapping around; none when `current` is not a host of `names`.
pub open spec fn round_robin_next(names: Seq<Seq<char>>, current: Seq<char>) -> Option<Seq<char>> {
    match names.index_of_first(current) {
        Some(index) => Some(names[(index + 1) % (names.len() as int)]),
        None => None,
    }
}

/// The host reached from `start` after `steps` fallbacks that do not persist,
/// each made from the host that the one before it returned.
pub open spec fn round_robin_visit(names: Seq<Seq<char>>, start: Seq<char>, steps: nat) -> Option<
    Seq<char>,
>
    decreases steps,
{
    if steps == 0 {
        Some(start)
    } else {
        match round_robin_visit(names, start, (steps - 1) as nat) {
            Some(host) => round_robin_next(names, host),
            None => None,
        }
    }
}

/// In a registry without duplicates every host is found where it stands.
pub proof fn lemma_unique_host_position(names: Seq<Seq<char>>, index: int)
    requires
        names.no_duplicates(),
        0 <= index < names.len(),
    ensures
        names.index_of_first(names[index]) == Some(index),
{
    names.index_of_first_ensures(names[index]);
}

/// Without persistence, round robin walks the registry in list order: from
/// the host at `first`, `steps` fallbacks reach the host `steps` places
/// further on, wrapping around.
pub proof fn lemma_round_robin_follows_list_order(names: Seq<Seq<char>>, first: int, steps: nat)
    requires
        names.no_duplicates(),
        0 <= first < names.len(),
    ensures
        round_robin_visit(names, names[first], steps) == Some(
            names[(first + steps) % (names.len() as int)],
        ),
    decreases steps,
{
    let len = names.len() as int;
    if steps == 0 {
        vstd::arithmetic::div_mod::lemma_small_mod(first as nat, len as nat);
    } else {
        lemma_round_robin_follows_list_order(names, first, (steps - 1) as nat);
        let before = (first + steps - 1) % len;
        vstd::arithmetic::div_mod::lemma_mod_bound(first + steps - 1, len);
        lemma_unique_host_position(names, before);
        vstd::arithmetic::div_mod::lemma_add_mod_noop_right(1, first + steps - 1, len);
        assert((before + 1) % len == (first + steps) % len);
    }
}

/// Round robin visits all hosts before it repeats one: within one round the
/// hosts reached are pairwise different, and after as many fallbacks as
/// there are hosts it is back at the host it started from.
pub proof fn lemma_round_robin_cycles(names: Seq<Seq<char>>, first: int)
    requires
        names.no_duplicates(),
        0 <= first < names.len(),
    ensures
        round_robin_visit(names, names[first], names.len()) == Some(names[first]),
        forall|early: nat, late: nat|
            early < late < names.len() ==> #[trigger] round_robin_visit(names, names[first], early)
                != #[trigger] round_robin_visit(names, names[first], late),
        forall|host: Seq<char>|
            names.contains(host) ==> exists|steps: nat|
                steps < names.len() && #[trigger] round_robin_visit(names, names[first], steps)
                    == Some(host),
{
    let len = names.len() as int;
    lemma_round_robin_follows_list_order(names, first, names.len());
    vstd::arithmetic::div_mod::lemma_mod_add_multiples_vanish(first, len);
    vstd::arithmetic::div_mod::lemma_small_mod(first as nat, len as nat);
    assert forall|early: nat, late: nat| early < late < names.len() implies #[trigger]
        round_robin_visit(names, names[first], early) != #[trigger] round_robin_visit(
        names,
        names[first],
        late,
    ) by {
        lemma_round_robin_follows_list_order(names, first, early);
        lemma_round_robin_follows_list_order(names, first, late);
        lemma_offsets_differ(first, early as int, late as int, len);
        vstd::arithmetic::div_mod::lemma_mod_bound(first + early, len);
        vstd::arithmetic::div_mod::lemma_mod_bound(first + late, len);
    }
    assert forall|host: Seq<char>| names.contains(host) implies exists|steps: nat|
        steps < names.len() && #[trigger] round_robin_visit(names, names[first], steps) == Some(
            host,
        ) by {
        let at = choose|i: int| 0 <= i < names.len() && names[i] == host;
        let steps: nat = if at >= first {
            (at - first) as nat
        } else {
            (at - first + len) as nat
        };
        lemma_round_robin_follows_list_order(names, first, steps);
        if at >= first {
            vstd::arithmetic::div_mod::lemma_small_mod(at as nat, len as nat);
        } else {
            vstd::arithmetic::div_mod::lemma_mod_add_multiples_vanish(at, len);
            vstd::arithmetic::div_mod::lemma_small_mod(at as nat, len as nat);
        }
        assert(round_robin_visit(names, names[first], steps) == Some(host));
    }
}

/// Two different offsets below `len` from one position land on different
/// places of a ring of `len` places.
proof fn lemma_offsets_differ(first: int, early: int, late: int, len: int)
    requires
        0 <= first < len,
        0 <= early < late < len,
    ensures
        (first + early) % len != (first + late) % len,
{
    let a = first + early;
    let b = first + late;
    if a < len {
        vstd::arithmetic::div_mod::lemma_small_mod(a as nat, len as nat);
    } else {
        vstd::arithmetic::div_mod::lemma_mod_add_multiples_vanish(a - len, len);
        vstd::arithmetic::div_mod::lemma_small_mod((a - len) as nat, len as nat);
    }
    if b < len {
        vstd::arithmetic::div_mod::lemma_small_mod(b as nat, len as nat);
    } else {
        vstd::arithmetic::div_mod::lemma_mod_add_multiples_vanish(b - len, len);
        vstd::arithmetic::div_mod::lemma_small_mod((b - len) as nat, len as nat);
    }
}

impl RoundRobin {
    /// Moves the head of the registry to its tail.
    pub fn shift_hosts(hosts: &mut Vec<String>)
        requires
            old(hosts)@.len() > 0,
        ensures
            final(hosts)@.len() == old(hosts)@.len(),
            host_names(final(hosts)@) == rotated(host_names(old(hosts)@)),
            is_reordering(host_names(old(hosts)@), host_names(final(hosts)@)),
    {
        let host = hosts.remove(0);
        hosts.push(host);
        proof {
            assert(host_names(hosts@) =~= rotated(host_names(old(hosts)@)));
            lemma_rotation_reorders(host_names(old(hosts)@));
        }
    }
}

impl FallbackStrategy for RoundRobin {
    /// When persisting, the registry is rotated by one host and its new head
    /// is returned. Otherwise the registry stays as it is and the host after
    /// `current` is returned, or nothing when `current` is not in it.
    open spec fn picks(
        &self,
        memory: Seq<Seq<char>>,
        before: Seq<Seq<char>>,
        current: Seq<char>,
        persist: bool,
        next: Option<Seq<char>>,
        after: Seq<Seq<char>>,
    ) -> bool {
        if persist {
            after == rotated(before) && next == Some(after[0])
        } else {
            after == before && next == round_robin_next(before, current)
        }
    }

    /// Falls back to the host that follows in the registry.
    fn fallback<'a>(
        &mut self,
        hosts: &'a mut Vec<String>,
        current_host: &str,
        persist: bool,
    ) -> (next: Option<&'a String>) {
        if persist {
            Self::shift_hosts(hosts);
            assert(hosts@.len() > 0 && host_names(hosts@)[0] == hosts@[0]@);
            Some(&hosts[0])
        } else {
            let ghost names = host_names(hosts@);
            proof {
                names.index_of_first_ensures(current_host@);
            }
            let found = find_host(hosts, current_host);
            match found {
                Some(index) => {
                    let len = hosts.len();
                    let next_index = if index + 1 == len {
                        0
                    } else {
                        index + 1
                    };
                    assert(next_index == (index + 1) % (names.len() as int)) by {
                        if index + 1 < names.len() {
                            vstd::arithmetic::div_mod::lemma_small_mod(
                                (index + 1) as nat,
                                names.len(),
                            );
                        } else {
                            vstd::arithmetic::div_mod::lemma_mod_self_0(names.len() as int);
                        }
                    }
                    assert(names[next_index as int] == hosts@[next_index as int]@);
                    Some(&hosts[next_index])
                },
                None => None,
            }
        }
    }
}

} // verus!
