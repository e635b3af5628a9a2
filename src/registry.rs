use vstd::prelude::*;

verus! {

/// Static description of one module: its index and the capabilities it offers.
#[derive(Clone, Copy, Debug, PartialEq, Eq, Structural)]
pub struct ModuleDescriptor {
    pub index: u8,
    pub provides_calls: bool,
    pub provides_storage: bool,
    pub provides_inherent: bool,
    pub provides_unsigned_validation: bool,
    /// Weight consumed by the module's initialize hook.
    pub init_weight: u64,
    /// Weight consumed by the module's finalize hook.
    pub finalize_weight: u64,
}

/// A call: the owning module's index, the variant within it, opaque arguments.
#[derive(Clone, Debug)]
pub struct Call {
    pub module_index: u8,
    pub variant: u8,
    pub args: Vec<u8>,
}

#[derive(Clone, Copy, Debug, PartialEq, Eq, Structural)]
pub enum RegistryError {
    /// Two descriptors share an index, or the list is not in ascending order.
    NotStrictlyAscending,
}

#[derive(Clone, Copy, Debug, PartialEq, Eq, Structural)]
pub enum RouteError {
    /// No module with the call's index offers calls.
    Unroutable,
}

/// The fixed, ordered module table.
pub struct Registry {
    modules: Vec<ModuleDescriptor>,
}

/// Indices strictly increase along the sequence (hence they are unique).
pub open spec fn strictly_ascending(m: Seq<ModuleDescriptor>) -> bool {
    forall|i: int, j: int| 0 <= i < j < m.len() ==> m[i].index < m[j].index
}

/// The indices of the modules, in table order.
pub open spec fn indices_of(m: Seq<ModuleDescriptor>) -> Seq<u8> {
    m.map_values(|d: ModuleDescriptor| d.index)
}

/// Whether a call with this module index can be routed within `m`.
pub open spec fn routable(m: Seq<ModuleDescriptor>, module_index: u8) -> bool {
    exists|i: int| 0 <= i < m.len() && m[i].index == module_index && m[i].provides_calls
}

/// Whether an unsigned call with this module index may be applied in a block:
/// its module takes inherents or validates unsigned calls itself.
pub open spec fn admits_unsigned(m: Seq<ModuleDescriptor>, module_index: u8) -> bool {
    exists|i: int|
        0 <= i < m.len() && m[i].index == module_index && m[i].provides_calls && (m[i].provides_inherent
            || m[i].provides_unsigned_validation)
}

/// Whether an unsigned call with this module index may enter the pool: only a
/// module that validates unsigned calls vouches for one outside a block.
pub open spec fn validates_unsigned(m: Seq<ModuleDescriptor>, module_index: u8) -> bool {
    exists|i: int|
        0 <= i < m.len() && m[i].index == module_index && m[i].provides_calls && m[i].provides_unsigned_validation
}

impl Registry {
    pub closed spec fn view(&self) -> Seq<ModuleDescriptor> {
        self.modules@
    }

    pub open spec fn wf(&self) -> bool {
        strictly_ascending(self@)
    }

    /// Builds the table from descriptors listed in ascending index order.
    pub fn new(descriptors: Vec<ModuleDescriptor>) -> (r: Result<Registry, RegistryError>)
        ensures
            strictly_ascending(descriptors@) <==> r is Ok,
            r matches Ok(reg) ==> reg@ == descriptors@ && reg.wf(),
    {
        let n = descriptors.len();
        let mut i: usize = 1;
        while i < n
            invariant
                n == descriptors@.len(),
                1 <= i,
                forall|a: int, b: int| 0 <= a < b < i && b < n ==> descriptors@[a].index < descriptors@[b].index,
            decreases n - i,
        {
            if descriptors[i - 1].index >= descriptors[i].index {
                return Err(RegistryError::NotStrictlyAscending);
            }
            proof {
                assert forall|a: int, b: int| 0 <= a < b < i + 1 && b < n implies
                    descriptors@[a].index < descriptors@[b].index by {
                    if b == i as int && a < i - 1 {
                        assert(descriptors@[a].index < descriptors@[i - 1].index);
                    }
                }
            }
            i = i + 1;
        }
        Ok(Registry { modules: descriptors })
    }

    /// The table with no modules.
    pub fn empty() -> (r: Registry)
        ensures
            r@.len() == 0,
            r.wf(),
    {
        Registry { modules: Vec::new() }
    }

    pub fn len(&self) -> (r: usize)
        ensures
            r == self@.len(),
    {
        self.modules.len()
    }

    pub fn get(&self, i: usize) -> (r: ModuleDescriptor)
        requires
            i < self@.len(),
        ensures
            r == self@[i as int],
    {
        self.modules[i]
    }

    /// Finds the position of the module that owns `call`.
    pub fn route(&self, call: &Call) -> (r: Result<usize, RouteError>)
        ensures
            r is Ok <==> routable(self@, call.module_index),
            r matches Ok(p) ==> p < self@.len() && self@[p as int].index == call.module_index
                && self@[p as int].provides_calls,
    {
        let mut i: usize = 0;
        while i < self.modules.len()
            invariant
                i <= self@.len(),
                forall|j: int| 0 <= j < i ==> !(self@[j].index == call.module_index && self@[j].provides_calls),
            decreases self@.len() - i,
        {
            let d = self.modules[i];
            if d.index == call.module_index && d.provides_calls {
                return Ok(i);
            }
            i = i + 1;
        }
        Err(RouteError::Unroutable)
    }

    /// The module that owns calls with this index, if any.
    pub fn module_for(&self, module_index: u8) -> (r: Option<ModuleDescriptor>)
        requires
            self.wf(),
        ensures
            r is None <==> !routable(self@, module_index),
            r matches Some(d) ==> d.index == module_index && d.provides_calls
                && admits_unsigned(self@, module_index) == (d.provides_inherent || d.provides_unsigned_validation)
                && validates_unsigned(self@, module_index) == d.provides_unsigned_validation
                && (exists|i: int| 0 <= i < self@.len() && self@[i] == d),
    {
        let mut i: usize = 0;
        while i < self.modules.len()
            invariant
                self.wf(),
                i <= self@.len(),
                forall|j: int| 0 <= j < i ==> !(self@[j].index == module_index && self@[j].provides_calls),
            decreases self@.len() - i,
        {
            let d = self.modules[i];
            if d.index == module_index && d.provides_calls {
                proof {
                    assert forall|j: int| 0 <= j < self@.len() && self@[j].index == module_index implies j == i by {
                        if j < i {
                            assert(self@[j].index < self@[i as int].index);
                        } else if j > i {
                            assert(self@[i as int].index < self@[j].index);
                        }
                    }
                }
                return Some(d);
            }
            i = i + 1;
        }
        None
    }

    /// Module indices in ascending order, the order of initialize hooks.
    pub fn iterate_ascending(&self) -> (r: Vec<u8>)
        ensures
            r@ == indices_of(self@),
    {
        let mut out: Vec<u8> = Vec::new();
        let mut i: usize = 0;
        while i < self.modules.len()
            invariant
                i <= self@.len(),
                out@ == indices_of(self@.take(i as int)),
            decreases self@.len() - i,
        {
            out.push(self.modules[i].index);
            proof {
                assert(self@.take(i + 1) == self@.take(i as int).push(self@[i as int]));
            }
            i = i + 1;
            assert(out@ =~= indices_of(self@.take(i as int)));
        }
        assert(self@.take(i as int) =~= self@);
        out
    }

    /// Module indices in descending order, the order of finalize hooks.
    pub fn iterate_descending(&self) -> (r: Vec<u8>)
        ensures
            r@ == indices_of(self@).reverse(),
    {
        let mut out: Vec<u8> = Vec::new();
        let n = self.modules.len();
        let mut i: usize = n;
        while i > 0
            invariant
                i <= n,
                n == self@.len(),
                out@ == indices_of(self@).reverse().take(n - i),
            decreases i,
        {
            i = i - 1;
            out.push(self.modules[i].index);
            assert(out@ =~= indices_of(self@).reverse().take(n - i));
        }
        assert(indices_of(self@).reverse().take(n as int) =~= indices_of(self@).reverse());
        out
    }
}

/// In a well-formed table the ascending listing is strictly increasing and the
/// descending listing strictly decreasing.
pub proof fn lemma_hook_order(m: Seq<ModuleDescriptor>)
    requires
        strictly_ascending(m),
    ensures
        forall|i: int, j: int| 0 <= i < j < m.len() ==> indices_of(m)[i] < indices_of(m)[j],
        forall|i: int, j: int| 0 <= i < j < m.len() ==> indices_of(m).reverse()[i] > indices_of(m).reverse()[j],
{
    assert forall|i: int, j: int| 0 <= i < j < m.len() implies indices_of(m).reverse()[i] > indices_of(m).reverse()[j] by {
        assert(indices_of(m).reverse()[i] == m[m.len() - 1 - i].index);
        assert(indices_of(m).reverse()[j] == m[m.len() - 1 - j].index);
    }
}

} // verus!
