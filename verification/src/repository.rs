//! The shared reference dictionary.
//!
//! The repository mirrors the offer tree's schema, but each leaf position
//! holds an ordered catalog of canonical literals with their assigned
//! identifiers instead of a single optional value. It is loaded once and
//! read-only thereafter. Because decompression resolves identifiers and
//! compression resolves literals, both directions are unambiguous only when
//! each catalog's identifiers and literals are pairwise distinct; that is
//! checked at construction time by [`Repository::validate`], not assumed.

use vstd::prelude::*;

use crate::basic_elements::{basic_catalog, float_catalog, string_catalog, BasicElement, DiskType,
    FloatElement, InstructionSet, MemoryGeneration, StringElement};
use crate::catalog::catalog_wf;
use crate::magnitude::{magnitude_catalog, MagnitudeElement};

verus! {

/// Checks one string catalog for well-formedness: every entry complete,
/// identifiers pairwise distinct, literals pairwise distinct.
fn check_string_catalog(cat: &Vec<StringElement>) -> (r: bool)
    ensures
        r == catalog_wf(string_catalog(cat@)),
{
    let ghost ents = string_catalog(cat@);
    let n = cat.len();
    let mut i: usize = 0;
    while i < n
        invariant
            i <= n,
            n == cat@.len(),
            ents == string_catalog(cat@),
            ents.len() == n,
            forall|p: int|
                0 <= p < i ==> (#[trigger] ents[p]).id is Some && ents[p].value is Some,
            forall|p: int, q: int|
                0 <= p < q < i ==> (#[trigger] ents[p]).id != (#[trigger] ents[q]).id
                    && ents[p].value != ents[q].value,
        decreases n - i,
    {
        proof {
            assert(ents[i as int] == cat@[i as int]@.entry());
        }
        if cat[i].id.is_none() || cat[i].value.is_none() {
            return false;
        }
        let mut j: usize = 0;
        while j < i
            invariant
                j <= i < n,
                n == cat@.len(),
                ents == string_catalog(cat@),
                ents.len() == n,
                ents[i as int].id is Some && ents[i as int].value is Some,
                forall|p: int|
                    0 <= p < i ==> (#[trigger] ents[p]).id is Some && ents[p].value is Some,
                forall|q: int|
                    0 <= q < j ==> (#[trigger] ents[q]).id != ents[i as int].id && ents[q].value
                        != ents[i as int].value,
            decreases i - j,
        {
            proof {
                assert(ents[j as int] == cat@[j as int]@.entry());
                assert(ents[i as int] == cat@[i as int]@.entry());
            }
            let dup_id = match (&cat[j].id, &cat[i].id) {
                (Some(x), Some(y)) => *x == *y,
                _ => false,
            };
            let dup_value = match (&cat[j].value, &cat[i].value) {
                (Some(x), Some(y)) => *x == *y,
                _ => false,
            };
            if dup_id || dup_value {
                return false;
            }
            j = j + 1;
        }
        i = i + 1;
    }
    true
}

/// Checks one decimal-quantity catalog for well-formedness.
fn check_float_catalog(cat: &Vec<FloatElement>) -> (r: bool)
    ensures
        r == catalog_wf(float_catalog(cat@)),
{
    let ghost ents = float_catalog(cat@);
    let n = cat.len();
    let mut i: usize = 0;
    while i < n
        invariant
            i <= n,
            n == cat@.len(),
            ents == float_catalog(cat@),
            ents.len() == n,
            forall|p: int|
                0 <= p < i ==> (#[trigger] ents[p]).id is Some && ents[p].value is Some,
            forall|p: int, q: int|
                0 <= p < q < i ==> (#[trigger] ents[p]).id != (#[trigger] ents[q]).id
                    && ents[p].value != ents[q].value,
        decreases n - i,
    {
        proof {
            assert(ents[i as int] == cat@[i as int].entry());
        }
        if cat[i].id.is_none() || cat[i].value.is_none() {
            return false;
        }
        let mut j: usize = 0;
        while j < i
            invariant
                j <= i < n,
                n == cat@.len(),
                ents == float_catalog(cat@),
                ents.len() == n,
                ents[i as int].id is Some && ents[i as int].value is Some,
                forall|p: int|
                    0 <= p < i ==> (#[trigger] ents[p]).id is Some && ents[p].value is Some,
                forall|q: int|
                    0 <= q < j ==> (#[trigger] ents[q]).id != ents[i as int].id && ents[q].value
                        != ents[i as int].value,
            decreases i - j,
        {
            proof {
                assert(ents[j as int] == cat@[j as int].entry());
                assert(ents[i as int] == cat@[i as int].entry());
            }
            let dup_id = match (cat[j].id, cat[i].id) {
                (Some(x), Some(y)) => x == y,
                _ => false,
            };
            let dup_value = match (cat[j].value, cat[i].value) {
                (Some(x), Some(y)) => x == y,
                _ => false,
            };
            if dup_id || dup_value {
                return false;
            }
            j = j + 1;
        }
        i = i + 1;
    }
    true
}

/// Checks the shared magnitude catalog for well-formedness.
fn check_magnitude_catalog(cat: &Vec<MagnitudeElement>) -> (r: bool)
    ensures
        r == catalog_wf(magnitude_catalog(cat@)),
{
    let ghost ents = magnitude_catalog(cat@);
    let n = cat.len();
    let mut i: usize = 0;
    while i < n
        invariant
            i <= n,
            n == cat@.len(),
            ents == magnitude_catalog(cat@),
            ents.len() == n,
            forall|p: int|
                0 <= p < i ==> (#[trigger] ents[p]).id is Some && ents[p].value is Some,
            forall|p: int, q: int|
                0 <= p < q < i ==> (#[trigger] ents[p]).id != (#[trigger] ents[q]).id
                    && ents[p].value != ents[q].value,
        decreases n - i,
    {
        proof {
            assert(ents[i as int] == cat@[i as int].entry());
        }
        if cat[i].id.is_none() || cat[i].magnitude.is_none() {
            return false;
        }
        let mut j: usize = 0;
        while j < i
            invariant
                j <= i < n,
                n == cat@.len(),
                ents == magnitude_catalog(cat@),
                ents.len() == n,
                ents[i as int].id is Some && ents[i as int].value is Some,
                forall|p: int|
                    0 <= p < i ==> (#[trigger] ents[p]).id is Some && ents[p].value is Some,
                forall|q: int|
                    0 <= q < j ==> (#[trigger] ents[q]).id != ents[i as int].id && ents[q].value
                        != ents[i as int].value,
            decreases i - j,
        {
            proof {
                assert(ents[j as int] == cat@[j as int].entry());
                assert(ents[i as int] == cat@[i as int].entry());
            }
            let dup_id = match (cat[j].id, cat[i].id) {
                (Some(x), Some(y)) => x == y,
                _ => false,
            };
            let dup_value = match (cat[j].magnitude, cat[i].magnitude) {
                (Some(x), Some(y)) => x == y,
                _ => false,
            };
            if dup_id || dup_value {
                return false;
            }
            j = j + 1;
        }
        i = i + 1;
    }
    true
}

/// Checks one instruction-set catalog for well-formedness.
fn check_instruction_set_catalog(cat: &Vec<BasicElement<InstructionSet>>) -> (r: bool)
    ensures
        r == catalog_wf(basic_catalog(cat@)),
{
    let ghost ents = basic_catalog(cat@);
    let n = cat.len();
    let mut i: usize = 0;
    while i < n
        invariant
            i <= n,
            n == cat@.len(),
            ents == basic_catalog(cat@),
            ents.len() == n,
            forall|p: int|
                0 <= p < i ==> (#[trigger] ents[p]).id is Some && ents[p].value is Some,
            forall|p: int, q: int|
                0 <= p < q < i ==> (#[trigger] ents[p]).id != (#[trigger] ents[q]).id
                    && ents[p].value != ents[q].value,
        decreases n - i,
    {
        proof {
            assert(ents[i as int] == cat@[i as int].entry());
        }
        if cat[i].id.is_none() || cat[i].value.is_none() {
            return false;
        }
        let mut j: usize = 0;
        while j < i
            invariant
                j <= i < n,
                n == cat@.len(),
                ents == basic_catalog(cat@),
                ents.len() == n,
                ents[i as int].id is Some && ents[i as int].value is Some,
                forall|p: int|
                    0 <= p < i ==> (#[trigger] ents[p]).id is Some && ents[p].value is Some,
                forall|q: int|
                    0 <= q < j ==> (#[trigger] ents[q]).id != ents[i as int].id && ents[q].value
                        != ents[i as int].value,
            decreases i - j,
        {
            proof {
                assert(ents[j as int] == cat@[j as int].entry());
                assert(ents[i as int] == cat@[i as int].entry());
            }
            let dup_id = match (cat[j].id, cat[i].id) {
                (Some(x), Some(y)) => x == y,
                _ => false,
            };
            let dup_value = match (cat[j].value, cat[i].value) {
                (Some(x), Some(y)) => x == y,
                _ => false,
            };
            if dup_id || dup_value {
                return false;
            }
            j = j + 1;
        }
        i = i + 1;
    }
    true
}

/// Checks one memory-generation catalog for well-formedness.
fn check_generation_catalog(cat: &Vec<BasicElement<MemoryGeneration>>) -> (r: bool)
    ensures
        r == catalog_wf(basic_catalog(cat@)),
{
    let ghost ents = basic_catalog(cat@);
    let n = cat.len();
    let mut i: usize = 0;
    while i < n
        invariant
            i <= n,
            n == cat@.len(),
            ents == basic_catalog(cat@),
            ents.len() == n,
            forall|p: int|
                0 <= p < i ==> (#[trigger] ents[p]).id is Some && ents[p].value is Some,
            forall|p: int, q: int|
                0 <= p < q < i ==> (#[trigger] ents[p]).id != (#[trigger] ents[q]).id
                    && ents[p].value != ents[q].value,
        decreases n - i,
    {
        proof {
            assert(ents[i as int] == cat@[i as int].entry());
        }
        if cat[i].id.is_none() || cat[i].value.is_none() {
            return false;
        }
        let mut j: usize = 0;
        while j < i
            invariant
                j <= i < n,
                n == cat@.len(),
                ents == basic_catalog(cat@),
                ents.len() == n,
                ents[i as int].id is Some && ents[i as int].value is Some,
                forall|p: int|
                    0 <= p < i ==> (#[trigger] ents[p]).id is Some && ents[p].value is Some,
                forall|q: int|
                    0 <= q < j ==> (#[trigger] ents[q]).id != ents[i as int].id && ents[q].value
                        != ents[i as int].value,
            decreases i - j,
        {
            proof {
                assert(ents[j as int] == cat@[j as int].entry());
                assert(ents[i as int] == cat@[i as int].entry());
            }
            let dup_id = match (cat[j].id, cat[i].id) {
                (Some(x), Some(y)) => x == y,
                _ => false,
            };
            let dup_value = match (cat[j].value, cat[i].value) {
                (Some(x), Some(y)) => x == y,
                _ => false,
            };
            if dup_id || dup_value {
                return false;
            }
            j = j + 1;
        }
        i = i + 1;
    }
    true
}

/// Checks one disk-technology catalog for well-formedness.
fn check_disk_type_catalog(cat: &Vec<BasicElement<DiskType>>) -> (r: bool)
    ensures
        r == catalog_wf(basic_catalog(cat@)),
{
    let ghost ents = basic_catalog(cat@);
    let n = cat.len();
    let mut i: usize = 0;
    while i < n
        invariant
            i <= n,
            n == cat@.len(),
            ents == basic_catalog(cat@),
            ents.len() == n,
            forall|p: int|
                0 <= p < i ==> (#[trigger] ents[p]).id is Some && ents[p].value is Some,
            forall|p: int, q: int|
                0 <= p < q < i ==> (#[trigger] ents[p]).id != (#[trigger] ents[q]).id
                    && ents[p].value != ents[q].value,
        decreases n - i,
    {
        proof {
            assert(ents[i as int] == cat@[i as int].entry());
        }
        if cat[i].id.is_none() || cat[i].value.is_none() {
            return false;
        }
        let mut j: usize = 0;
        while j < i
            invariant
                j <= i < n,
                n == cat@.len(),
                ents == basic_catalog(cat@),
                ents.len() == n,
                ents[i as int].id is Some && ents[i as int].value is Some,
                forall|p: int|
                    0 <= p < i ==> (#[trigger] ents[p]).id is Some && ents[p].value is Some,
                forall|q: int|
                    0 <= q < j ==> (#[trigger] ents[q]).id != ents[i as int].id && ents[q].value
                        != ents[i as int].value,
            decreases i - j,
        {
            proof {
                assert(ents[j as int] == cat@[j as int].entry());
                assert(ents[i as int] == cat@[i as int].entry());
            }
            let dup_id = match (cat[j].id, cat[i].id) {
                (Some(x), Some(y)) => x == y,
                _ => false,
            };
            let dup_value = match (cat[j].value, cat[i].value) {
                (Some(x), Some(y)) => x == y,
                _ => false,
            };
            if dup_id || dup_value {
                return false;
            }
            j = j + 1;
        }
        i = i + 1;
    }
    true
}

/// The catalogs backing the operating-system record.
#[derive(Clone, Debug)]
pub struct OperatingSystemRepo {
    pub system_type: Vec<StringElement>,
}

impl OperatingSystemRepo {
    pub fn new(system_type: Vec<StringElement>) -> (r: OperatingSystemRepo)
        ensures
            r.system_type@ == system_type@,
    {
        OperatingSystemRepo { system_type }
    }

    pub fn get_system_type(&self) -> (r: &Vec<StringElement>)
        ensures
            *r == self.system_type,
    {
        &self.system_type
    }

    pub fn get_system_type_mut(&mut self) -> (r: &mut Vec<StringElement>)
        ensures
            *r == old(self).system_type,
            final(self).system_type == *final(r),
    {
        &mut self.system_type
    }
}

/// The catalogs backing the virtualization record.
#[derive(Clone, Debug)]
pub struct VirtualizationRepo {
    pub virtualization_type: Vec<StringElement>,
}

impl VirtualizationRepo {
    pub fn new(virtualization_type: Vec<StringElement>) -> (r: VirtualizationRepo)
        ensures
            r.virtualization_type@ == virtualization_type@,
    {
        VirtualizationRepo { virtualization_type }
    }

    pub fn get_virtualization_type(&self) -> (r: &Vec<StringElement>)
        ensures
            *r == self.virtualization_type,
    {
        &self.virtualization_type
    }

    pub fn get_virtualization_type_mut(&mut self) -> (r: &mut Vec<StringElement>)
        ensures
            *r == old(self).virtualization_type,
            final(self).virtualization_type == *final(r),
    {
        &mut self.virtualization_type
    }
}

/// The catalogs backing the processor record.
#[derive(Clone, Debug)]
pub struct CPURepo {
    pub manufacturer: Vec<StringElement>,
    pub frequency: Vec<FloatElement>,
    pub instruction_set: Vec<BasicElement<InstructionSet>>,
}

impl CPURepo {
    pub fn new(
        manufacturer: Vec<StringElement>,
        frequency: Vec<FloatElement>,
        instruction_set: Vec<BasicElement<InstructionSet>>,
    ) -> (r: CPURepo)
        ensures
            r.manufacturer@ == manufacturer@,
            r.frequency@ == frequency@,
            r.instruction_set@ == instruction_set@,
    {
        CPURepo { manufacturer, frequency, instruction_set }
    }

    pub fn get_manufacturer(&self) -> (r: &Vec<StringElement>)
        ensures
            *r == self.manufacturer,
    {
        &self.manufacturer
    }

    pub fn get_manufacturer_mut(&mut self) -> (r: &mut Vec<StringElement>)
        ensures
            *r == old(self).manufacturer,
            final(self).manufacturer == *final(r),
            final(self).frequency == old(self).frequency,
            final(self).instruction_set == old(self).instruction_set,
    {
        &mut self.manufacturer
    }

    pub fn get_frequency(&self) -> (r: &Vec<FloatElement>)
        ensures
            *r == self.frequency,
    {
        &self.frequency
    }

    pub fn get_frequency_mut(&mut self) -> (r: &mut Vec<FloatElement>)
        ensures
            *r == old(self).frequency,
            final(self).frequency == *final(r),
            final(self).manufacturer == old(self).manufacturer,
            final(self).instruction_set == old(self).instruction_set,
    {
        &mut self.frequency
    }

    pub fn get_instruction_set(&self) -> (r: &Vec<BasicElement<InstructionSet>>)
        ensures
            *r == self.instruction_set,
    {
        &self.instruction_set
    }

    pub fn get_instruction_set_mut(&mut self) -> (r: &mut Vec<BasicElement<InstructionSet>>)
        ensures
            *r == old(self).instruction_set,
            final(self).instruction_set == *final(r),
            final(self).manufacturer == old(self).manufacturer,
            final(self).frequency == old(self).frequency,
    {
        &mut self.instruction_set
    }
}

/// The catalogs backing the memory record.
#[derive(Clone, Debug)]
pub struct MemoryRepo {
    pub size: Vec<FloatElement>,
    pub generation: Vec<BasicElement<MemoryGeneration>>,
}

impl MemoryRepo {
    pub fn new(size: Vec<FloatElement>, generation: Vec<BasicElement<MemoryGeneration>>) -> (r:
        MemoryRepo)
        ensures
            r.size@ == size@,
            r.generation@ == generation@,
    {
        MemoryRepo { size, generation }
    }

    pub fn get_size(&self) -> (r: &Vec<FloatElement>)
        ensures
            *r == self.size,
    {
        &self.size
    }

    pub fn get_size_mut(&mut self) -> (r: &mut Vec<FloatElement>)
        ensures
            *r == old(self).size,
            final(self).size == *final(r),
            final(self).generation == old(self).generation,
    {
        &mut self.size
    }

    pub fn get_generation(&self) -> (r: &Vec<BasicElement<MemoryGeneration>>)
        ensures
            *r == self.generation,
    {
        &self.generation
    }

    pub fn get_generation_mut(&mut self) -> (r: &mut Vec<BasicElement<MemoryGeneration>>)
        ensures
            *r == old(self).generation,
            final(self).generation == *final(r),
            final(self).size == old(self).size,
    {
        &mut self.generation
    }
}

/// The catalogs backing the disk record.
#[derive(Clone, Debug)]
pub struct DiskRepo {
    pub disk_type: Vec<BasicElement<DiskType>>,
}

impl DiskRepo {
    pub fn new(disk_type: Vec<BasicElement<DiskType>>) -> (r: DiskRepo)
        ensures
            r.disk_type@ == disk_type@,
    {
        DiskRepo { disk_type }
    }

    pub fn get_disk_type(&self) -> (r: &Vec<BasicElement<DiskType>>)
        ensures
            *r == self.disk_type,
    {
        &self.disk_type
    }

    pub fn get_disk_type_mut(&mut self) -> (r: &mut Vec<BasicElement<DiskType>>)
        ensures
            *r == old(self).disk_type,
            final(self).disk_type == *final(r),
    {
        &mut self.disk_type
    }
}

/// The whole reference dictionary: one shared, field-agnostic magnitude
/// catalog, and per-field catalogs grouped as the offer schema is.
#[derive(Clone, Debug)]
pub struct Repository {
    pub magnitude: Vec<MagnitudeElement>,
    pub operating_system: OperatingSystemRepo,
    pub cpu: CPURepo,
    pub memory: MemoryRepo,
    pub disk: DiskRepo,
    pub virtualization: VirtualizationRepo,
}

impl Repository {
    /// Well-formedness of the whole dictionary: every catalog has complete
    /// entries, pairwise-distinct identifiers and pairwise-distinct
    /// literals.
    pub open spec fn wf(self) -> bool {
        &&& catalog_wf(magnitude_catalog(self.magnitude@))
        &&& catalog_wf(string_catalog(self.operating_system.system_type@))
        &&& catalog_wf(string_catalog(self.cpu.manufacturer@))
        &&& catalog_wf(float_catalog(self.cpu.frequency@))
        &&& catalog_wf(basic_catalog(self.cpu.instruction_set@))
        &&& catalog_wf(float_catalog(self.memory.size@))
        &&& catalog_wf(basic_catalog(self.memory.generation@))
        &&& catalog_wf(basic_catalog(self.disk.disk_type@))
        &&& catalog_wf(string_catalog(self.virtualization.virtualization_type@))
    }

    pub fn new(
        magnitude: Vec<MagnitudeElement>,
        operating_system: OperatingSystemRepo,
        cpu: CPURepo,
        memory: MemoryRepo,
        disk: DiskRepo,
        virtualization: VirtualizationRepo,
    ) -> (r: Repository)
        ensures
            r == (Repository { magnitude, operating_system, cpu, memory, disk, virtualization }),
    {
        Repository { magnitude, operating_system, cpu, memory, disk, virtualization }
    }

    /// Decides whether the dictionary is well-formed. Intended to run once,
    /// when the repository is constructed: a duplicate identifier or a
    /// duplicate literal within one catalog would make one direction of the
    /// codec ambiguous, and is reported here rather than silently resolved
    /// by find-first order.
    pub fn validate(&self) -> (r: bool)
        ensures
            r == self.wf(),
    {
        let mut ok = check_magnitude_catalog(&self.magnitude);
        ok = ok && check_string_catalog(&self.operating_system.system_type);
        ok = ok && check_string_catalog(&self.cpu.manufacturer);
        ok = ok && check_float_catalog(&self.cpu.frequency);
        ok = ok && check_instruction_set_catalog(&self.cpu.instruction_set);
        ok = ok && check_float_catalog(&self.memory.size);
        ok = ok && check_generation_catalog(&self.memory.generation);
        ok = ok && check_disk_type_catalog(&self.disk.disk_type);
        ok = ok && check_string_catalog(&self.virtualization.virtualization_type);
        ok
    }

    pub fn get_magnitude(&self) -> (r: &Vec<MagnitudeElement>)
        ensures
            *r == self.magnitude,
    {
        &self.magnitude
    }

    pub fn get_magnitude_mut(&mut self) -> (r: &mut Vec<MagnitudeElement>)
        ensures
            *r == old(self).magnitude,
            *final(self) == (Repository { magnitude: *final(r), ..*old(self) }),
    {
        &mut self.magnitude
    }

    pub fn get_operating_system(&self) -> (r: &OperatingSystemRepo)
        ensures
            *r == self.operating_system,
    {
        &self.operating_system
    }

    pub fn get_operating_system_mut(&mut self) -> (r: &mut OperatingSystemRepo)
        ensures
            *r == old(self).operating_system,
            *final(self) == (Repository { operating_system: *final(r), ..*old(self) }),
    {
        &mut self.operating_system
    }

    pub fn get_cpu(&self) -> (r: &CPURepo)
        ensures
            *r == self.cpu,
    {
        &self.cpu
    }

    pub fn get_cpu_mut(&mut self) -> (r: &mut CPURepo)
        ensures
            *r == old(self).cpu,
            *final(self) == (Repository { cpu: *final(r), ..*old(self) }),
    {
        &mut self.cpu
    }

    pub fn get_memory(&self) -> (r: &MemoryRepo)
        ensures
            *r == self.memory,
    {
        &self.memory
    }

    pub fn get_memory_mut(&mut self) -> (r: &mut MemoryRepo)
        ensures
            *r == old(self).memory,
            *final(self) == (Repository { memory: *final(r), ..*old(self) }),
    {
        &mut self.memory
    }

    pub fn get_disk(&self) -> (r: &DiskRepo)
        ensures
            *r == self.disk,
    {
        &self.disk
    }

    pub fn get_disk_mut(&mut self) -> (r: &mut DiskRepo)
        ensures
            *r == old(self).disk,
            *final(self) == (Repository { disk: *final(r), ..*old(self) }),
    {
        &mut self.disk
    }

    pub fn get_virtualization(&self) -> (r: &VirtualizationRepo)
        ensures
            *r == self.virtualization,
    {
        &self.virtualization
    }

    pub fn get_virtualization_mut(&mut self) -> (r: &mut VirtualizationRepo)
        ensures
            *r == old(self).virtualization,
            *final(self) == (Repository { virtualization: *final(r), ..*old(self) }),
    {
        &mut self.virtualization
    }
}

} // verus!
