//! Falling back in an order of preference.

use vstd::prelude::*;
use vstd::seq_lib::*;
use super::{find_host, host_names, swap_hosts, swapped, FallbackStrategy};

verus! {

/// Tries the hosts in a preferred order, which need not be the registry's.
///
/// When no order is given, the registry's order at the first fallback is
/// taken and kept.
pub struct Priority {
    hosts: Vec<String>,
}

impl View for Priority {
    type V = Seq<Seq<char>>;

    /// The preferred order, by the text of each host.
    closed spec fn view(&self) -> Seq<Seq<char>> {
        host_names(self.hosts@)
    }
}

/// The order of preference in force for a registry: the one that was given,
/// or the registry's own when none was.
pub open spec fn preferences_in_force(
    preferences: Seq<Seq<char>>,
    names: Seq<Seq<char>>,
) -> Seq<Seq<char>> {
    if preferences.len() == 0 {
        names
    } else {
        preferences
    }
}

/// Where in `names` the host to fall back to stands.
///
/// It is the host that follows `current` in `preferences`, wrapping around,
/// and the head of `names` when `current` is not among the preferences. There
/// is none when the preferred host is not a host of `names`.
pub open spec fn priority_choice(
    preferences: Seq<Seq<char>>,
    names: Seq<Seq<char>>,
    current: Seq<char>,
) -> Option<int> {
    match preferences.index_of_first(current) {
        Some(index) => names.index_of_first(
            preferences[(index + 1) % (preferences.len() as int)],
        ),
        None => Some(0),
    }
}

impl Priority {
    /// A strategy that prefers `hosts` in the order given.
    #[must_use]
    pub fn new(hosts: Vec<String>) -> (strategy: Priority)
        ensures
            strategy@ == host_names(hosts@),
    {
        Priority { hosts }
    }
}

impl FallbackStrategy for Priority {
    /// The order of preference, which is empty until one is given or taken
    /// from the registry.
    open spec fn memory(&self) -> Seq<Seq<char>> {
        self@
    }

    /// The host that follows `current` in the order of preference in force
    /// is returned, and when persisting it is exchanged with the head of the
    /// registry. Nothing is returned when that host is not in the registry.
    open spec fn picks(
        &self,
        memory: Seq<Seq<char>>,
        before: Seq<Seq<char>>,
        current: Seq<char>,
        persist: bool,
        next: Option<Seq<char>>,
        after: Seq<Seq<char>>,
    ) -> bool {
        match priority_choice(preferences_in_force(memory, before), before, current) {
            Some(choice) => {
                &&& 0 <= choice < before.len()
                &&& next == Some(before[choice])
                &&& after == if persist {
                    swapped(before, 0, choice)
                } else {
                    before
                }
            },
            None => next is None && after == before,
        }
    }

    /// The order of preference that was in force stays in force.
    open spec fn remembers(
        &self,
        memory: Seq<Seq<char>>,
        before: Seq<Seq<char>>,
        current: Seq<char>,
        persist: bool,
    ) -> Seq<Seq<char>> {
        preferences_in_force(memory, before)
    }

    /// Falls back to the host that follows in the order of preference.
    fn fallback<'a>(
        &mut self,
        hosts: &'a mut Vec<String>,
        current_host: &str,
        persist: bool,
    ) -> (next: Option<&'a String>) {
        let ghost names = host_names(hosts@);
        if self.hosts.is_empty() {
            self.hosts = hosts.clone();
            assert(host_names(self.hosts@) =~= names);
        }
        let ghost preferences = host_names(self.hosts@);
        proof {
            preferences.index_of_first_ensures(current_host@);
        }
        let next_index = match find_host(&self.hosts, current_host) {
            Some(index) => {
                let len = self.hosts.len();
                let following = if index + 1 == len {
                    0
                } else {
                    index + 1
                };
                assert(following == (index + 1) % (preferences.len() as int)) by {
                    if index + 1 < preferences.len() {
                        vstd::arithmetic::div_mod::lemma_small_mod(
                            (index + 1) as nat,
                            preferences.len(),
                        );
                    } else {
                        vstd::arithmetic::div_mod::lemma_mod_self_0(preferences.len() as int);
                    }
                }
                assert(preferences[following as int] == self.hosts@[following as int]@);
                match find_host(hosts, self.hosts[following].as_str()) {
                    Some(choice) => choice,
                    None => {
                        return None;
                    },
                }
            },
            None => 0,
        };
        proof {
            names.index_of_first_ensures(names[next_index as int]);
        }
        if persist {
            swap_hosts(hosts, 0, next_index);
            assert(host_names(hosts@)[0] == hosts@[0]@);
            Some(&hosts[0])
        } else {
            assert(names[next_index as int] == hosts@[next_index as int]@);
            Some(&hosts[next_index])
        }
    }
}

} // verus!
