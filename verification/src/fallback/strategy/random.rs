//! Falling back to a host drawn at random.

use vstd::prelude::*;
use vstd::seq_lib::*;
use nanorand::Rng;
use super::{host_names, is_reordering, selected_name, swap_hosts, swapped, FallbackStrategy};

verus! {

#[verifier::external_type_specification]
#[verifier::external_body]
pub struct ExWyRand(nanorand::WyRand);

/// Calls `nanorand::WyRand::new`, which seeds a generator from the system's
/// entropy. Nothing is claimed of the generator.
#[verifier::external_body]
fn generator_from_entropy() -> (rng: nanorand::WyRand) {
    nanorand::WyRand::new()
}

/// Calls `nanorand::WyRand::new_seed`. Nothing is claimed of the generator.
#[verifier::external_body]
fn generator_from_seed(seed: u64) -> (rng: nanorand::WyRand) {
    nanorand::WyRand::new_seed(seed)
}

/// Calls `nanorand::Rng::generate_range` on `0..len`. For a range that is not
/// empty the number drawn lies in it; which number it is goes unclaimed.
#[verifier::external_body]
fn draw_index(rng: &mut nanorand::WyRand, len: usize) -> (index: usize)
    requires
        len > 0,
    ensures
        index < len,
{
    rng.generate_range(0..len)
}

/// Tries a host of the registry drawn at random, which may be the one that
/// just failed.
pub struct Random {
    rng: nanorand::WyRand,
}

impl Random {
    /// A strategy whose draws are seeded by the system.
    #[must_use]
    pub fn new() -> Random {
        Random { rng: generator_from_entropy() }
    }

    /// A strategy whose draws are determined by `seed`.
    #[must_use]
    pub fn new_seed(seed: u64) -> Random {
        Random { rng: generator_from_seed(seed) }
    }
}

impl Random {
    /// The host that was drawn: the one at `index`. When persisting it is
    /// exchanged with the head of the registry.
    pub fn pick_at<'a>(hosts: &'a mut Vec<String>, index: usize, persist: bool) -> (picked:
        &'a String)
        requires
            index < old(hosts)@.len(),
        ensures
            picked@ == host_names(old(hosts)@)[index as int],
            host_names(final(hosts)@) == if persist {
                swapped(host_names(old(hosts)@), 0, index as int)
            } else {
                host_names(old(hosts)@)
            },
            host_names(final(hosts)@).contains(picked@),
            persist ==> picked@ == host_names(final(hosts)@)[0],
            final(hosts)@.len() == old(hosts)@.len(),
            is_reordering(host_names(old(hosts)@), host_names(final(hosts)@)),
    {
        let ghost names = host_names(hosts@);
        if persist {
            swap_hosts(hosts, 0, index);
            assert(host_names(hosts@)[0] == hosts@[0]@);
            &hosts[0]
        } else {
            assert(names[index as int] == hosts@[index as int]@);
            &hosts[index]
        }
    }
}

impl Default for Random {
    fn default() -> Random {
        Random::new()
    }
}

impl FallbackStrategy for Random {
    /// Some host of the registry is returned, and when persisting it is
    /// exchanged with the head of the registry.
    open spec fn picks(
        &self,
        memory: Seq<Seq<char>>,
        before: Seq<Seq<char>>,
        current: Seq<char>,
        persist: bool,
        next: Option<Seq<char>>,
        after: Seq<Seq<char>>,
    ) -> bool {
        exists|choice: int|
            {
                &&& 0 <= choice < before.len()
                &&& next == Some(#[trigger] before[choice])
                &&& after == if persist {
                    swapped(before, 0, choice)
                } else {
                    before
                }
            }
    }

    /// Falls back to a host drawn from the registry. A host is always
    /// returned.
    fn fallback<'a>(
        &mut self,
        hosts: &'a mut Vec<String>,
        current_host: &str,
        persist: bool,
    ) -> (next: Option<&'a String>) {
        let index = draw_index(&mut self.rng, hosts.len());
        let picked = Self::pick_at(hosts, index, persist);
        assert(selected_name(Some(picked)) == Some(host_names(old(hosts)@)[index as int]));
        Some(picked)
    }
}

} // verus!
