use vstd::prelude::*;
use crate::registry::{ModuleDescriptor, Registry, strictly_ascending};

verus! {

/// Number of modules in this runtime's table.
pub const MODULE_COUNT: u8 = 33;

/// Capabilities of the module at each index of this runtime's table:
/// (calls, storage, inherent, unsigned validation).
pub open spec fn capabilities(i: u8) -> (bool, bool, bool, bool) {
    if i == 1 || i == 7 {
        // Timestamp, Authorship
        (true, true, true, false)
    } else if i == 5 {
        // Babe
        (true, true, true, true)
    } else if i == 6 || i == 8 {
        // Grandpa, ImOnline
        (true, true, false, true)
    } else if i == 3 || i == 11 {
        // TransactionPayment, Poa
        (false, true, false, false)
    } else if i == 13 {
        // Historical
        (false, false, false, false)
    } else if i == 14 || i == 22 || i == 27 {
        // AuthorityDiscovery, Mandate, Utility
        (true, false, false, false)
    } else {
        (true, true, false, false)
    }
}

fn capabilities_of(i: u8) -> (r: (bool, bool, bool, bool))
    ensures
        r == capabilities(i),
{
    if i == 1 || i == 7 {
        (true, true, true, false)
    } else if i == 5 {
        (true, true, true, true)
    } else if i == 6 || i == 8 {
        (true, true, false, true)
    } else if i == 3 || i == 11 {
        (false, true, false, false)
    } else if i == 13 {
        (false, false, false, false)
    } else if i == 14 || i == 22 || i == 27 {
        (true, false, false, false)
    } else {
        (true, true, false, false)
    }
}

/// This runtime's module table: indices `0..MODULE_COUNT`, in order, with the
/// capabilities above and no hook weight booked up front.
pub fn runtime_registry() -> (r: Registry)
    ensures
        r.wf(),
        r@.len() == MODULE_COUNT,
        forall|i: int| 0 <= i < MODULE_COUNT ==> {
            let (c, s, inh, u) = capabilities(i as u8);
            &&& #[trigger] r@[i].index == i
            &&& r@[i].provides_calls == c
            &&& r@[i].provides_storage == s
            &&& r@[i].provides_inherent == inh
            &&& r@[i].provides_unsigned_validation == u
            &&& r@[i].init_weight == 0
            &&& r@[i].finalize_weight == 0
        },
{
    let mut v: Vec<ModuleDescriptor> = Vec::new();
    let mut i: u8 = 0;
    while i < MODULE_COUNT
        invariant
            i <= MODULE_COUNT,
            v@.len() == i,
            forall|j: int| 0 <= j < i ==> {
                let (c, s, inh, u) = capabilities(j as u8);
                &&& #[trigger] v@[j].index == j
                &&& v@[j].provides_calls == c
                &&& v@[j].provides_storage == s
                &&& v@[j].provides_inherent == inh
                &&& v@[j].provides_unsigned_validation == u
                &&& v@[j].init_weight == 0
                &&& v@[j].finalize_weight == 0
            },
        decreases MODULE_COUNT - i,
    {
        let (c, s, inh, u) = capabilities_of(i);
        v.push(ModuleDescriptor {
            index: i,
            provides_calls: c,
            provides_storage: s,
            provides_inherent: inh,
            provides_unsigned_validation: u,
            init_weight: 0,
            finalize_weight: 0,
        });
        i = i + 1;
    }
    assert(strictly_ascending(v@));
    match Registry::new(v) {
        Ok(r) => r,
        Err(_) => {
            assert(false);
            Registry::empty()
        },
    }
}

} // verus!
