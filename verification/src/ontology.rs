//! The offer tree, its matcher and its codec.
//!
//! One recursive record schema serves both roles: a provider's advertised
//! offer and a consumer's request. The matcher decides whether a candidate
//! offer satisfies a request field by field, conjoining every sub-result
//! without short-circuiting and reporting the fields that failed; the codec
//! shrinks an offer by replacing cataloged literals with identifiers and
//! restores them from identifiers, walking the same tree against the
//! repository's catalogs.

use vstd::prelude::*;

use crate::basic_elements::{basic_catalog, basic_sat, float_catalog, float_sat, generation_rank,
    int_sat, string_catalog, string_sat, BasicElement, DiskType, FloatElement, InstructionSet,
    IntElement, MemoryGeneration, StringElement, StringElementV};
use crate::catalog::Entry;
use crate::magnitude::{magnitude_catalog, Magnitude, MagnitudeElement};
use crate::repository::Repository;

verus! {

/// An optional numeric leaf with its nested magnitude compressed.
pub open spec fn opt_int_compress_mag(o: Option<IntElement>, cat: Seq<Entry<Magnitude>>) -> Option<
    IntElement,
> {
    match o {
        Some(e) => Some(e.spec_compress_magnitude(cat)),
        None => None,
    }
}

/// An optional numeric leaf with its nested magnitude decompressed.
pub open spec fn opt_int_decompress_mag(o: Option<IntElement>, cat: Seq<Entry<Magnitude>>) -> Option<
    IntElement,
> {
    match o {
        Some(e) => Some(e.spec_decompress_magnitude(cat)),
        None => None,
    }
}

/// An optional decimal-quantity leaf with its nested magnitude compressed.
pub open spec fn opt_float_compress_mag(
    o: Option<FloatElement>,
    cat: Seq<Entry<Magnitude>>,
) -> Option<FloatElement> {
    match o {
        Some(e) => Some(e.spec_compress_magnitude(cat)),
        None => None,
    }
}

/// An optional decimal-quantity leaf with its nested magnitude
/// decompressed.
pub open spec fn opt_float_decompress_mag(
    o: Option<FloatElement>,
    cat: Seq<Entry<Magnitude>>,
) -> Option<FloatElement> {
    match o {
        Some(e) => Some(e.spec_decompress_magnitude(cat)),
        None => None,
    }
}

/// An optional decimal-quantity leaf with its literal compressed.
pub open spec fn opt_float_compress(o: Option<FloatElement>, cat: Seq<Entry<u32>>) -> Option<
    FloatElement,
> {
    match o {
        Some(e) => Some(e.spec_compress(cat)),
        None => None,
    }
}

/// An optional decimal-quantity leaf with its literal decompressed.
pub open spec fn opt_float_decompress(o: Option<FloatElement>, cat: Seq<Entry<u32>>) -> Option<
    FloatElement,
> {
    match o {
        Some(e) => Some(e.spec_decompress(cat)),
        None => None,
    }
}

/// The read and write throughput of a disk.
#[derive(Clone, Copy, Debug, PartialEq, Eq, Structural)]
pub struct DiskPerformance {
    pub read_performance: Option<IntElement>,
    pub write_performance: Option<IntElement>,
}

/// Whether candidate disk throughput `b` satisfies request `a`: both
/// leaves, each vacuously true when absent on either side.
pub open spec fn disk_performance_sat(a: DiskPerformance, b: DiskPerformance) -> bool {
    &&& match (a.read_performance, b.read_performance) {
        (Some(x), Some(y)) => int_sat(x, y),
        _ => true,
    }
    &&& match (a.write_performance, b.write_performance) {
        (Some(x), Some(y)) => int_sat(x, y),
        _ => true,
    }
}

impl DiskPerformance {
    /// This record with every nested magnitude compressed.
    pub open spec fn spec_compress_magnitudes(self, cat: Seq<Entry<Magnitude>>) -> DiskPerformance {
        DiskPerformance {
            read_performance: opt_int_compress_mag(self.read_performance, cat),
            write_performance: opt_int_compress_mag(self.write_performance, cat),
        }
    }

    /// This record with every nested magnitude decompressed.
    pub open spec fn spec_decompress_magnitudes(
        self,
        cat: Seq<Entry<Magnitude>>,
    ) -> DiskPerformance {
        DiskPerformance {
            read_performance: opt_int_decompress_mag(self.read_performance, cat),
            write_performance: opt_int_decompress_mag(self.write_performance, cat),
        }
    }

    pub fn new(read_performance: Option<IntElement>, write_performance: Option<IntElement>) -> (r:
        DiskPerformance)
        ensures
            r == (DiskPerformance { read_performance, write_performance }),
    {
        DiskPerformance { read_performance, write_performance }
    }

    /// Whether the candidate record `b` satisfies this request record,
    /// leaf by leaf.
    pub fn compare(&self, b: &DiskPerformance) -> (r: bool)
        ensures
            r == disk_performance_sat(*self, *b),
    {
        let read_ok = match (&self.read_performance, &b.read_performance) {
            (Some(x), Some(y)) => x.compare(y),
            _ => true,
        };
        let write_ok = match (&self.write_performance, &b.write_performance) {
            (Some(x), Some(y)) => x.compare(y),
            _ => true,
        };
        read_ok && write_ok
    }

    /// Compresses every nested magnitude leaf against the shared magnitude
    /// catalog.
    pub fn compress_magnitude_elements(&mut self, mag: &Vec<MagnitudeElement>)
        ensures
            *final(self) == old(self).spec_compress_magnitudes(magnitude_catalog(mag@)),
    {
        match &mut self.read_performance {
            Some(e) => e.compress_magnitude_with(mag),
            None => {},
        }
        match &mut self.write_performance {
            Some(e) => e.compress_magnitude_with(mag),
            None => {},
        }
    }

    /// Decompresses every nested magnitude leaf against the shared
    /// magnitude catalog.
    pub fn decompress_magnitude_elements(&mut self, mag: &Vec<MagnitudeElement>)
        ensures
            *final(self) == old(self).spec_decompress_magnitudes(magnitude_catalog(mag@)),
    {
        match &mut self.read_performance {
            Some(e) => e.decompress_magnitude_with(mag),
            None => {},
        }
        match &mut self.write_performance {
            Some(e) => e.decompress_magnitude_with(mag),
            None => {},
        }
    }
}

/// The download and upload throughput of a network interface.
#[derive(Clone, Copy, Debug, PartialEq, Eq, Structural)]
pub struct NetworkPerformance {
    pub download_speed: Option<IntElement>,
    pub upload_speed: Option<IntElement>,
}

/// Whether candidate network throughput `b` satisfies request `a`.
pub open spec fn network_performance_sat(a: NetworkPerformance, b: NetworkPerformance) -> bool {
    &&& match (a.download_speed, b.download_speed) {
        (Some(x), Some(y)) => int_sat(x, y),
        _ => true,
    }
    &&& match (a.upload_speed, b.upload_speed) {
        (Some(x), Some(y)) => int_sat(x, y),
        _ => true,
    }
}

impl NetworkPerformance {
    /// This record with every nested magnitude compressed.
    pub open spec fn spec_compress_magnitudes(
        self,
        cat: Seq<Entry<Magnitude>>,
    ) -> NetworkPerformance {
        NetworkPerformance {
            download_speed: opt_int_compress_mag(self.download_speed, cat),
            upload_speed: opt_int_compress_mag(self.upload_speed, cat),
        }
    }

    /// This record with every nested magnitude decompressed.
    pub open spec fn spec_decompress_magnitudes(
        self,
        cat: Seq<Entry<Magnitude>>,
    ) -> NetworkPerformance {
        NetworkPerformance {
            download_speed: opt_int_decompress_mag(self.download_speed, cat),
            upload_speed: opt_int_decompress_mag(self.upload_speed, cat),
        }
    }

    pub fn new(download_speed: Option<IntElement>, upload_speed: Option<IntElement>) -> (r:
        NetworkPerformance)
        ensures
            r == (NetworkPerformance { download_speed, upload_speed }),
    {
        NetworkPerformance { download_speed, upload_speed }
    }

    /// Whether the candidate record `b` satisfies this request record,
    /// leaf by leaf.
    pub fn compare(&self, b: &NetworkPerformance) -> (r: bool)
        ensures
            r == network_performance_sat(*self, *b),
    {
        let download_ok = match (&self.download_speed, &b.download_speed) {
            (Some(x), Some(y)) => x.compare(y),
            _ => true,
        };
        let upload_ok = match (&self.upload_speed, &b.upload_speed) {
            (Some(x), Some(y)) => x.compare(y),
            _ => true,
        };
        download_ok && upload_ok
    }

    /// Compresses every nested magnitude leaf against the shared magnitude
    /// catalog.
    pub fn compress_magnitude_elements(&mut self, mag: &Vec<MagnitudeElement>)
        ensures
            *final(self) == old(self).spec_compress_magnitudes(magnitude_catalog(mag@)),
    {
        match &mut self.download_speed {
            Some(e) => e.compress_magnitude_with(mag),
            None => {},
        }
        match &mut self.upload_speed {
            Some(e) => e.compress_magnitude_with(mag),
            None => {},
        }
    }

    /// Decompresses every nested magnitude leaf against the shared
    /// magnitude catalog.
    pub fn decompress_magnitude_elements(&mut self, mag: &Vec<MagnitudeElement>)
        ensures
            *final(self) == old(self).spec_decompress_magnitudes(magnitude_catalog(mag@)),
    {
        match &mut self.download_speed {
            Some(e) => e.decompress_magnitude_with(mag),
            None => {},
        }
        match &mut self.upload_speed {
            Some(e) => e.decompress_magnitude_with(mag),
            None => {},
        }
    }
}

/// A transfer allowance and the interval at which it resets.
#[derive(Clone, Copy, Debug, PartialEq, Eq, Structural)]
pub struct Quota {
    pub size: Option<IntElement>,
    pub reset_interval: Option<IntElement>,
}

/// Whether candidate quota `b` satisfies request `a`.
pub open spec fn quota_sat(a: Quota, b: Quota) -> bool {
    &&& match (a.size, b.size) {
        (Some(x), Some(y)) => int_sat(x, y),
        _ => true,
    }
    &&& match (a.reset_interval, b.reset_interval) {
        (Some(x), Some(y)) => int_sat(x, y),
        _ => true,
    }
}

impl Quota {
    /// This record with every nested magnitude compressed.
    pub open spec fn spec_compress_magnitudes(self, cat: Seq<Entry<Magnitude>>) -> Quota {
        Quota {
            size: opt_int_compress_mag(self.size, cat),
            reset_interval: opt_int_compress_mag(self.reset_interval, cat),
        }
    }

    /// This record with every nested magnitude decompressed.
    pub open spec fn spec_decompress_magnitudes(self, cat: Seq<Entry<Magnitude>>) -> Quota {
        Quota {
            size: opt_int_decompress_mag(self.size, cat),
            reset_interval: opt_int_decompress_mag(self.reset_interval, cat),
        }
    }

    pub fn new(size: Option<IntElement>, reset_interval: Option<IntElement>) -> (r: Quota)
        ensures
            r == (Quota { size, reset_interval }),
    {
        Quota { size, reset_interval }
    }

    /// Whether the candidate record `b` satisfies this request record,
    /// leaf by leaf.
    pub fn compare(&self, b: &Quota) -> (r: bool)
        ensures
            r == quota_sat(*self, *b),
    {
        let size_ok = match (&self.size, &b.size) {
            (Some(x), Some(y)) => x.compare(y),
            _ => true,
        };
        let reset_ok = match (&self.reset_interval, &b.reset_interval) {
            (Some(x), Some(y)) => x.compare(y),
            _ => true,
        };
        size_ok && reset_ok
    }

    /// Compresses every nested magnitude leaf against the shared magnitude
    /// catalog.
    pub fn compress_magnitude_elements(&mut self, mag: &Vec<MagnitudeElement>)
        ensures
            *final(self) == old(self).spec_compress_magnitudes(magnitude_catalog(mag@)),
    {
        match &mut self.size {
            Some(e) => e.compress_magnitude_with(mag),
            None => {},
        }
        match &mut self.reset_interval {
            Some(e) => e.compress_magnitude_with(mag),
            None => {},
        }
    }

    /// Decompresses every nested magnitude leaf against the shared
    /// magnitude catalog.
    pub fn decompress_magnitude_elements(&mut self, mag: &Vec<MagnitudeElement>)
        ensures
            *final(self) == old(self).spec_decompress_magnitudes(magnitude_catalog(mag@)),
    {
        match &mut self.size {
            Some(e) => e.decompress_magnitude_with(mag),
            None => {},
        }
        match &mut self.reset_interval {
            Some(e) => e.decompress_magnitude_with(mag),
            None => {},
        }
    }
}

/// A network interface: its throughput and its transfer quota.
#[derive(Clone, Copy, Debug, PartialEq, Eq, Structural)]
pub struct NetworkInterface {
    pub performance: Option<NetworkPerformance>,
    pub quota: Option<Quota>,
}

/// Whether candidate interface `b` satisfies request `a`, sub-record by
/// sub-record.
pub open spec fn network_interface_sat(a: NetworkInterface, b: NetworkInterface) -> bool {
    &&& match (a.performance, b.performance) {
        (Some(x), Some(y)) => network_performance_sat(x, y),
        _ => true,
    }
    &&& match (a.quota, b.quota) {
        (Some(x), Some(y)) => quota_sat(x, y),
        _ => true,
    }
}

impl NetworkInterface {
    /// This record with every nested magnitude compressed.
    pub open spec fn spec_compress_magnitudes(self, cat: Seq<Entry<Magnitude>>) -> NetworkInterface {
        NetworkInterface {
            performance: match self.performance {
                Some(p) => Some(p.spec_compress_magnitudes(cat)),
                None => None,
            },
            quota: match self.quota {
                Some(q) => Some(q.spec_compress_magnitudes(cat)),
                None => None,
            },
        }
    }

    /// This record with every nested magnitude decompressed.
    pub open spec fn spec_decompress_magnitudes(
        self,
        cat: Seq<Entry<Magnitude>>,
    ) -> NetworkInterface {
        NetworkInterface {
            performance: match self.performance {
                Some(p) => Some(p.spec_decompress_magnitudes(cat)),
                None => None,
            },
            quota: match self.quota {
                Some(q) => Some(q.spec_decompress_magnitudes(cat)),
                None => None,
            },
        }
    }

    pub fn new(performance: Option<NetworkPerformance>, quota: Option<Quota>) -> (r:
        NetworkInterface)
        ensures
            r == (NetworkInterface { performance, quota }),
    {
        NetworkInterface { performance, quota }
    }

    /// Whether the candidate interface `b` satisfies this request
    /// interface.
    pub fn compare(&self, b: &NetworkInterface) -> (r: bool)
        ensures
            r == network_interface_sat(*self, *b),
    {
        let performance_ok = match (&self.performance, &b.performance) {
            (Some(x), Some(y)) => x.compare(y),
            _ => true,
        };
        let quota_ok = match (&self.quota, &b.quota) {
            (Some(x), Some(y)) => x.compare(y),
            _ => true,
        };
        performance_ok && quota_ok
    }

    /// Compresses every nested magnitude leaf against the shared magnitude
    /// catalog.
    pub fn compress_magnitude_elements(&mut self, mag: &Vec<MagnitudeElement>)
        ensures
            *final(self) == old(self).spec_compress_magnitudes(magnitude_catalog(mag@)),
    {
        match &mut self.performance {
            Some(p) => p.compress_magnitude_elements(mag),
            None => {},
        }
        match &mut self.quota {
            Some(q) => q.compress_magnitude_elements(mag),
            None => {},
        }
    }

    /// Decompresses every nested magnitude leaf against the shared
    /// magnitude catalog.
    pub fn decompress_magnitude_elements(&mut self, mag: &Vec<MagnitudeElement>)
        ensures
            *final(self) == old(self).spec_decompress_magnitudes(magnitude_catalog(mag@)),
    {
        match &mut self.performance {
            Some(p) => p.decompress_magnitude_elements(mag),
            None => {},
        }
        match &mut self.quota {
            Some(q) => q.decompress_magnitude_elements(mag),
            None => {},
        }
    }
}

/// A disk: its technology, its size, and its throughput.
#[derive(Clone, Copy, Debug, PartialEq, Eq, Structural)]
pub struct Disk {
    pub disk_type: Option<BasicElement<DiskType>>,
    pub size: Option<IntElement>,
    pub performance: Option<DiskPerformance>,
}

/// Whether candidate disk `b` satisfies request `a`: the technology by
/// symbol equality, the size by its operator, the throughput sub-record
/// leaf by leaf.
pub open spec fn disk_sat(a: Disk, b: Disk) -> bool {
    &&& match (a.size, b.size) {
        (Some(x), Some(y)) => int_sat(x, y),
        _ => true,
    }
    &&& match (a.disk_type, b.disk_type) {
        (Some(x), Some(y)) => basic_sat(x, y),
        _ => true,
    }
    &&& match (a.performance, b.performance) {
        (Some(x), Some(y)) => disk_performance_sat(x, y),
        _ => true,
    }
}

impl Disk {
    /// This record with every nested magnitude compressed.
    pub open spec fn spec_compress_magnitudes(self, cat: Seq<Entry<Magnitude>>) -> Disk {
        Disk {
            size: opt_int_compress_mag(self.size, cat),
            performance: match self.performance {
                Some(p) => Some(p.spec_compress_magnitudes(cat)),
                None => None,
            },
            ..self
        }
    }

    /// This record with every nested magnitude decompressed.
    pub open spec fn spec_decompress_magnitudes(self, cat: Seq<Entry<Magnitude>>) -> Disk {
        Disk {
            size: opt_int_decompress_mag(self.size, cat),
            performance: match self.performance {
                Some(p) => Some(p.spec_decompress_magnitudes(cat)),
                None => None,
            },
            ..self
        }
    }

    /// This record with its technology symbol compressed against the
    /// disk-technology catalog.
    pub open spec fn spec_compress(self, repo: Repository) -> Disk {
        Disk {
            disk_type: match self.disk_type {
                Some(t) => Some(t.spec_compress(basic_catalog(repo.disk.disk_type@))),
                None => None,
            },
            ..self
        }
    }

    /// This record with its technology symbol decompressed against the
    /// disk-technology catalog.
    pub open spec fn spec_decompress(self, repo: Repository) -> Disk {
        Disk {
            disk_type: match self.disk_type {
                Some(t) => Some(t.spec_decompress(basic_catalog(repo.disk.disk_type@))),
                None => None,
            },
            ..self
        }
    }

    pub fn new(
        disk_type: Option<BasicElement<DiskType>>,
        size: Option<IntElement>,
        performance: Option<DiskPerformance>,
    ) -> (r: Disk)
        ensures
            r == (Disk { disk_type, size, performance }),
    {
        Disk { disk_type, size, performance }
    }

    /// Whether the candidate disk `b` satisfies this request disk.
    pub fn compare(&self, b: &Disk) -> (r: bool)
        ensures
            r == disk_sat(*self, *b),
    {
        let size_ok = match (&self.size, &b.size) {
            (Some(x), Some(y)) => x.compare(y),
            _ => true,
        };
        let type_ok = match (&self.disk_type, &b.disk_type) {
            (Some(x), Some(y)) => x.compare(y),
            _ => true,
        };
        let performance_ok = match (&self.performance, &b.performance) {
            (Some(x), Some(y)) => x.compare(y),
            _ => true,
        };
        size_ok && type_ok && performance_ok
    }

    /// Compresses every nested magnitude leaf against the shared magnitude
    /// catalog.
    pub fn compress_magnitude_elements(&mut self, mag: &Vec<MagnitudeElement>)
        ensures
            *final(self) == old(self).spec_compress_magnitudes(magnitude_catalog(mag@)),
    {
        match &mut self.size {
            Some(e) => e.compress_magnitude_with(mag),
            None => {},
        }
        match &mut self.performance {
            Some(p) => p.compress_magnitude_elements(mag),
            None => {},
        }
    }

    /// Decompresses every nested magnitude leaf against the shared
    /// magnitude catalog.
    pub fn decompress_magnitude_elements(&mut self, mag: &Vec<MagnitudeElement>)
        ensures
            *final(self) == old(self).spec_decompress_magnitudes(magnitude_catalog(mag@)),
    {
        match &mut self.size {
            Some(e) => e.decompress_magnitude_with(mag),
            None => {},
        }
        match &mut self.performance {
            Some(p) => p.decompress_magnitude_elements(mag),
            None => {},
        }
    }

    /// Compresses this disk's literal leaves against the repository.
    pub fn compress(&mut self, repo: &Repository)
        ensures
            *final(self) == old(self).spec_compress(*repo),
    {
        match &mut self.disk_type {
            Some(t) => t.compress_with(&repo.disk.disk_type),
            None => {},
        }
    }

    /// Decompresses this disk's literal leaves against the repository.
    pub fn decompress(&mut self, repo: &Repository)
        ensures
            *final(self) == old(self).spec_decompress(*repo),
    {
        match &mut self.disk_type {
            Some(t) => t.decompress_with(&repo.disk.disk_type),
            None => {},
        }
    }
}

/// A memory record: its size and its generation.
#[derive(Clone, Copy, Debug, PartialEq, Eq, Structural)]
pub struct Memory {
    pub size: Option<FloatElement>,
    pub generation: Option<BasicElement<MemoryGeneration>>,
}

/// Whether candidate memory `b` satisfies request `a`: the size by its
/// operator; the generation by the total order — the candidate's
/// generation rank must be at least the request's, an "at least"
/// semantics, not equality. Either leaf absent on either side satisfies
/// vacuously.
pub open spec fn memory_sat(a: Memory, b: Memory) -> bool {
    &&& match (a.size, b.size) {
        (Some(x), Some(y)) => float_sat(x, y),
        _ => true,
    }
    &&& match (a.generation, b.generation) {
        (Some(x), Some(y)) => match (x.value, y.value) {
            (Some(gx), Some(gy)) => generation_rank(gx) <= generation_rank(gy),
            _ => true,
        },
        _ => true,
    }
}

impl Memory {
    /// This record with every nested magnitude compressed.
    pub open spec fn spec_compress_magnitudes(self, cat: Seq<Entry<Magnitude>>) -> Memory {
        Memory { size: opt_float_compress_mag(self.size, cat), ..self }
    }

    /// This record with every nested magnitude decompressed.
    pub open spec fn spec_decompress_magnitudes(self, cat: Seq<Entry<Magnitude>>) -> Memory {
        Memory { size: opt_float_decompress_mag(self.size, cat), ..self }
    }

    /// This record with its literal leaves compressed against the memory
    /// catalogs.
    pub open spec fn spec_compress(self, repo: Repository) -> Memory {
        Memory {
            size: opt_float_compress(self.size, float_catalog(repo.memory.size@)),
            generation: match self.generation {
                Some(g) => Some(g.spec_compress(basic_catalog(repo.memory.generation@))),
                None => None,
            },
        }
    }

    /// This record with its literal leaves decompressed against the memory
    /// catalogs.
    pub open spec fn spec_decompress(self, repo: Repository) -> Memory {
        Memory {
            size: opt_float_decompress(self.size, float_catalog(repo.memory.size@)),
            generation: match self.generation {
                Some(g) => Some(g.spec_decompress(basic_catalog(repo.memory.generation@))),
                None => None,
            },
        }
    }

    pub fn new(size: Option<FloatElement>, generation: Option<BasicElement<MemoryGeneration>>) -> (r:
        Memory)
        ensures
            r == (Memory { size, generation }),
    {
        Memory { size, generation }
    }

    /// Whether the candidate memory `b` satisfies this request memory.
    pub fn compare(&self, b: &Memory) -> (r: bool)
        ensures
            r == memory_sat(*self, *b),
    {
        let size_ok = match (&self.size, &b.size) {
            (Some(x), Some(y)) => x.compare(y),
            _ => true,
        };
        let generation_ok = match (&self.generation, &b.generation) {
            (Some(x), Some(y)) => match (&x.value, &y.value) {
                (Some(gx), Some(gy)) => gx.rank() <= gy.rank(),
                _ => true,
            },
            _ => true,
        };
        size_ok && generation_ok
    }

    /// Compresses every nested magnitude leaf against the shared magnitude
    /// catalog.
    pub fn compress_magnitude_elements(&mut self, mag: &Vec<MagnitudeElement>)
        ensures
            *final(self) == old(self).spec_compress_magnitudes(magnitude_catalog(mag@)),
    {
        match &mut self.size {
            Some(e) => e.compress_magnitude_with(mag),
            None => {},
        }
    }

    /// Decompresses every nested magnitude leaf against the shared
    /// magnitude catalog.
    pub fn decompress_magnitude_elements(&mut self, mag: &Vec<MagnitudeElement>)
        ensures
            *final(self) == old(self).spec_decompress_magnitudes(magnitude_catalog(mag@)),
    {
        match &mut self.size {
            Some(e) => e.decompress_magnitude_with(mag),
            None => {},
        }
    }

    /// Compresses this record's literal leaves against the memory
    /// catalogs.
    pub fn compress(&mut self, repo: &Repository)
        ensures
            *final(self) == old(self).spec_compress(*repo),
    {
        match &mut self.size {
            Some(e) => e.compress_with(&repo.memory.size),
            None => {},
        }
        match &mut self.generation {
            Some(g) => g.compress_with(&repo.memory.generation),
            None => {},
        }
    }

    /// Decompresses this record's literal leaves against the memory
    /// catalogs.
    pub fn decompress(&mut self, repo: &Repository)
        ensures
            *final(self) == old(self).spec_decompress(*repo),
    {
        match &mut self.size {
            Some(e) => e.decompress_with(&repo.memory.size),
            None => {},
        }
        match &mut self.generation {
            Some(g) => g.decompress_with(&repo.memory.generation),
            None => {},
        }
    }
}

/// The model of an optional string leaf.
pub open spec fn opt_string_view(o: Option<StringElement>) -> Option<StringElementV> {
    match o {
        Some(e) => Some(e@),
        None => None,
    }
}

/// Whether an optional candidate string leaf satisfies an optional request
/// string leaf; absence on either side satisfies vacuously.
pub open spec fn opt_string_sat(a: Option<StringElementV>, b: Option<StringElementV>) -> bool {
    match (a, b) {
        (Some(x), Some(y)) => string_sat(x, y),
        _ => true,
    }
}

/// An optional string leaf with its literal compressed.
pub open spec fn opt_string_compress(o: Option<StringElementV>, cat: Seq<Entry<Seq<char>>>) -> Option<
    StringElementV,
> {
    match o {
        Some(e) => Some(e.spec_compress(cat)),
        None => None,
    }
}

/// An optional string leaf with its literal decompressed.
pub open spec fn opt_string_decompress(o: Option<StringElementV>, cat: Seq<Entry<Seq<char>>>) -> Option<
    StringElementV,
> {
    match o {
        Some(e) => Some(e.spec_decompress(cat)),
        None => None,
    }
}

/// An installed application: its name and its version.
#[derive(Clone, Debug)]
pub struct Application {
    pub name: Option<StringElement>,
    pub version: Option<StringElement>,
}

/// The mathematical model of an application record.
#[verifier::ext_equal]
pub ghost struct ApplicationV {
    pub name: Option<StringElementV>,
    pub version: Option<StringElementV>,
}

impl View for Application {
    type V = ApplicationV;

    open spec fn view(&self) -> ApplicationV {
        ApplicationV { name: opt_string_view(self.name), version: opt_string_view(self.version) }
    }
}

/// Whether candidate application `b` satisfies request `a`.
pub open spec fn application_sat(a: ApplicationV, b: ApplicationV) -> bool {
    &&& opt_string_sat(a.name, b.name)
    &&& opt_string_sat(a.version, b.version)
}

impl Application {
    pub fn new(name: Option<StringElement>, version: Option<StringElement>) -> (r: Application)
        ensures
            r@ == (ApplicationV {
                name: opt_string_view(name),
                version: opt_string_view(version),
            }),
    {
        Application { name, version }
    }

    /// Whether the candidate application `b` satisfies this request
    /// application.
    pub fn compare(&self, b: &Application) -> (r: bool)
        ensures
            r == application_sat(self@, b@),
    {
        let name_ok = match (&self.name, &b.name) {
            (Some(x), Some(y)) => x.compare(y),
            _ => true,
        };
        let version_ok = match (&self.version, &b.version) {
            (Some(x), Some(y)) => x.compare(y),
            _ => true,
        };
        name_ok && version_ok
    }

    /// An application carries no magnitude leaves; the shared pass leaves
    /// it untouched.
    pub fn compress_magnitude_elements(&mut self, mag: &Vec<MagnitudeElement>)
        ensures
            *final(self) == *old(self),
    {
        let _ = mag;
    }

    /// An application carries no magnitude leaves; the shared pass leaves
    /// it untouched.
    pub fn decompress_magnitude_elements(&mut self, mag: &Vec<MagnitudeElement>)
        ensures
            *final(self) == *old(self),
    {
        let _ = mag;
    }
}

/// A processor: its manufacturer, how many there are, their frequency, and
/// the instruction-set extensions they offer.
#[derive(Clone, Debug)]
pub struct CPU {
    pub manufacturer: Option<StringElement>,
    pub amount: Option<IntElement>,
    pub frequency: Option<FloatElement>,
    pub instruction_set: Vec<BasicElement<InstructionSet>>,
}

/// The mathematical model of a processor record.
#[verifier::ext_equal]
pub ghost struct CPUV {
    pub manufacturer: Option<StringElementV>,
    pub amount: Option<IntElement>,
    pub frequency: Option<FloatElement>,
    pub instruction_set: Seq<BasicElement<InstructionSet>>,
}

impl View for CPU {
    type V = CPUV;

    open spec fn view(&self) -> CPUV {
        CPUV {
            manufacturer: opt_string_view(self.manufacturer),
            amount: self.amount,
            frequency: self.frequency,
            instruction_set: self.instruction_set@,
        }
    }
}

/// Whether one requested extension is covered: an unset request element
/// never constrains, a set one must appear among the candidate's symbols.
pub open spec fn instruction_covered(
    e: BasicElement<InstructionSet>,
    b: Seq<BasicElement<InstructionSet>>,
) -> bool {
    e.value is Some ==> exists|j: int| 0 <= j < b.len() && (#[trigger] b[j]).value == e.value
}

/// Whether every requested extension is covered by some candidate
/// extension — the requested set must be a subset of the offered set.
pub open spec fn instruction_subset(
    a: Seq<BasicElement<InstructionSet>>,
    b: Seq<BasicElement<InstructionSet>>,
) -> bool {
    forall|i: int| 0 <= i < a.len() ==> instruction_covered(#[trigger] a[i], b)
}

/// Whether candidate processor `b` satisfies request `a`: manufacturer,
/// amount and frequency leaf-wise, and the requested instruction-set
/// extensions as a subset of the offered ones.
pub open spec fn cpu_sat(a: CPUV, b: CPUV) -> bool {
    &&& opt_string_sat(a.manufacturer, b.manufacturer)
    &&& match (a.amount, b.amount) {
        (Some(x), Some(y)) => int_sat(x, y),
        _ => true,
    }
    &&& match (a.frequency, b.frequency) {
        (Some(x), Some(y)) => float_sat(x, y),
        _ => true,
    }
    &&& instruction_subset(a.instruction_set, b.instruction_set)
}

impl CPUV {
    /// This record with every nested magnitude compressed.
    pub open spec fn spec_compress_magnitudes(self, cat: Seq<Entry<Magnitude>>) -> CPUV {
        CPUV {
            amount: opt_int_compress_mag(self.amount, cat),
            frequency: opt_float_compress_mag(self.frequency, cat),
            ..self
        }
    }

    /// This record with every nested magnitude decompressed.
    pub open spec fn spec_decompress_magnitudes(self, cat: Seq<Entry<Magnitude>>) -> CPUV {
        CPUV {
            amount: opt_int_decompress_mag(self.amount, cat),
            frequency: opt_float_decompress_mag(self.frequency, cat),
            ..self
        }
    }

    /// This record with its literal leaves compressed against the
    /// processor catalogs.
    pub open spec fn spec_compress(self, repo: Repository) -> CPUV {
        CPUV {
            manufacturer: opt_string_compress(
                self.manufacturer,
                string_catalog(repo.cpu.manufacturer@),
            ),
            frequency: opt_float_compress(self.frequency, float_catalog(repo.cpu.frequency@)),
            instruction_set: self.instruction_set.map_values(
                |e: BasicElement<InstructionSet>|
                    e.spec_compress(basic_catalog(repo.cpu.instruction_set@)),
            ),
            ..self
        }
    }

    /// This record with its literal leaves decompressed against the
    /// processor catalogs.
    pub open spec fn spec_decompress(self, repo: Repository) -> CPUV {
        CPUV {
            manufacturer: opt_string_decompress(
                self.manufacturer,
                string_catalog(repo.cpu.manufacturer@),
            ),
            frequency: opt_float_decompress(self.frequency, float_catalog(repo.cpu.frequency@)),
            instruction_set: self.instruction_set.map_values(
                |e: BasicElement<InstructionSet>|
                    e.spec_decompress(basic_catalog(repo.cpu.instruction_set@)),
            ),
            ..self
        }
    }
}

impl CPU {
    pub fn new(
        manufacturer: Option<StringElement>,
        amount: Option<IntElement>,
        frequency: Option<FloatElement>,
        instruction_set: Vec<BasicElement<InstructionSet>>,
    ) -> (r: CPU)
        ensures
            r@ == (CPUV {
                manufacturer: opt_string_view(manufacturer),
                amount,
                frequency,
                instruction_set: instruction_set@,
            }),
    {
        CPU { manufacturer, amount, frequency, instruction_set }
    }

    /// Whether the candidate processor `b` satisfies this request
    /// processor.
    pub fn compare(&self, b: &CPU) -> (r: bool)
        ensures
            r == cpu_sat(self@, b@),
    {
        let manufacturer_ok = match (&self.manufacturer, &b.manufacturer) {
            (Some(x), Some(y)) => x.compare(y),
            _ => true,
        };
        let amount_ok = match (&self.amount, &b.amount) {
            (Some(x), Some(y)) => x.compare(y),
            _ => true,
        };
        let frequency_ok = match (&self.frequency, &b.frequency) {
            (Some(x), Some(y)) => x.compare(y),
            _ => true,
        };
        let mut subset = true;
        let mut i: usize = 0;
        while i < self.instruction_set.len()
            invariant
                i <= self.instruction_set@.len(),
                subset == (forall|p: int|
                    0 <= p < i ==> instruction_covered(
                        #[trigger] self.instruction_set@[p],
                        b.instruction_set@,
                    )),
            decreases self.instruction_set@.len() - i,
        {
            let el = self.instruction_set[i];
            let covered = match el.value {
                None => true,
                Some(v) => {
                    let mut found = false;
                    let mut j: usize = 0;
                    while j < b.instruction_set.len()
                        invariant
                            j <= b.instruction_set@.len(),
                            el.value == Some(v),
                            found == (exists|q: int|
                                0 <= q < j && (#[trigger] b.instruction_set@[q]).value == Some(v)),
                        decreases b.instruction_set@.len() - j,
                    {
                        let bv = b.instruction_set[j];
                        let hit = match bv.value {
                            Some(w) => w == v,
                            None => false,
                        };
                        if hit {
                            found = true;
                        }
                        j = j + 1;
                    }
                    found
                },
            };
            subset = subset && covered;
            i = i + 1;
        }
        manufacturer_ok && amount_ok && frequency_ok && subset
    }

    /// Compresses every nested magnitude leaf against the shared magnitude
    /// catalog.
    pub fn compress_magnitude_elements(&mut self, mag: &Vec<MagnitudeElement>)
        ensures
            final(self)@ == old(self)@.spec_compress_magnitudes(magnitude_catalog(mag@)),
    {
        match &mut self.amount {
            Some(e) => e.compress_magnitude_with(mag),
            None => {},
        }
        match &mut self.frequency {
            Some(e) => e.compress_magnitude_with(mag),
            None => {},
        }
    }

    /// Decompresses every nested magnitude leaf against the shared
    /// magnitude catalog.
    pub fn decompress_magnitude_elements(&mut self, mag: &Vec<MagnitudeElement>)
        ensures
            final(self)@ == old(self)@.spec_decompress_magnitudes(magnitude_catalog(mag@)),
    {
        match &mut self.amount {
            Some(e) => e.decompress_magnitude_with(mag),
            None => {},
        }
        match &mut self.frequency {
            Some(e) => e.decompress_magnitude_with(mag),
            None => {},
        }
    }

    /// Compresses this processor's literal leaves against the processor
    /// catalogs.
    pub fn compress(&mut self, repo: &Repository)
        ensures
            final(self)@ == old(self)@.spec_compress(*repo),
    {
        match &mut self.frequency {
            Some(e) => e.compress_with(&repo.cpu.frequency),
            None => {},
        }
        match &mut self.manufacturer {
            Some(e) => e.compress_with(&repo.cpu.manufacturer),
            None => {},
        }
        let ghost cat = basic_catalog(repo.cpu.instruction_set@);
        let ghost mid = *self;
        let ghost before = self.instruction_set@;
        let mut i: usize = 0;
        while i < self.instruction_set.len()
            invariant
                i <= self.instruction_set@.len(),
                self.instruction_set@.len() == before.len(),
                forall|p: int|
                    0 <= p < i ==> self.instruction_set@[p] == (#[trigger] before[p]).spec_compress(
                        cat,
                    ),
                forall|p: int| i <= p < before.len() ==> self.instruction_set@[p] == before[p],
                cat == basic_catalog(repo.cpu.instruction_set@),
                self.manufacturer == mid.manufacturer,
                self.amount == mid.amount,
                self.frequency == mid.frequency,
            decreases self.instruction_set@.len() - i,
        {
            let mut el = self.instruction_set[i];
            el.compress_with(&repo.cpu.instruction_set);
            self.instruction_set.set(i, el);
            i = i + 1;
        }
        proof {
            assert(self.instruction_set@ =~= before.map_values(
                |e: BasicElement<InstructionSet>| e.spec_compress(cat),
            ));
        }
    }

    /// Decompresses this processor's literal leaves against the processor
    /// catalogs.
    pub fn decompress(&mut self, repo: &Repository)
        ensures
            final(self)@ == old(self)@.spec_decompress(*repo),
    {
        match &mut self.frequency {
            Some(e) => e.decompress_with(&repo.cpu.frequency),
            None => {},
        }
        match &mut self.manufacturer {
            Some(e) => e.decompress_with(&repo.cpu.manufacturer),
            None => {},
        }
        let ghost cat = basic_catalog(repo.cpu.instruction_set@);
        let ghost mid = *self;
        let ghost before = self.instruction_set@;
        let mut i: usize = 0;
        while i < self.instruction_set.len()
            invariant
                i <= self.instruction_set@.len(),
                self.instruction_set@.len() == before.len(),
                forall|p: int|
                    0 <= p < i ==> self.instruction_set@[p] == (#[trigger] before[p]).spec_decompress(
                        cat,
                    ),
                forall|p: int| i <= p < before.len() ==> self.instruction_set@[p] == before[p],
                cat == basic_catalog(repo.cpu.instruction_set@),
                self.manufacturer == mid.manufacturer,
                self.amount == mid.amount,
                self.frequency == mid.frequency,
            decreases self.instruction_set@.len() - i,
        {
            let mut el = self.instruction_set[i];
            el.decompress_with(&repo.cpu.instruction_set);
            self.instruction_set.set(i, el);
            i = i + 1;
        }
        proof {
            assert(self.instruction_set@ =~= before.map_values(
                |e: BasicElement<InstructionSet>| e.spec_decompress(cat),
            ));
        }
    }
}

/// An operating system: its type, the package repository it draws from,
/// its version, and whether a custom template is in use.
#[derive(Clone, Debug)]
pub struct OperatingSystem {
    pub system_type: Option<StringElement>,
    pub repository: Option<StringElement>,
    pub version: Option<StringElement>,
    pub custom_template: Option<bool>,
}

/// The mathematical model of an operating-system record.
#[verifier::ext_equal]
pub ghost struct OperatingSystemV {
    pub system_type: Option<StringElementV>,
    pub repository: Option<StringElementV>,
    pub version: Option<StringElementV>,
    pub custom_template: Option<bool>,
}

impl View for OperatingSystem {
    type V = OperatingSystemV;

    open spec fn view(&self) -> OperatingSystemV {
        OperatingSystemV {
            system_type: opt_string_view(self.system_type),
            repository: opt_string_view(self.repository),
            version: opt_string_view(self.version),
            custom_template: self.custom_template,
        }
    }
}

/// Whether candidate operating system `b` satisfies request `a`: the three
/// string leaves by their operators, and the custom-template flag by
/// equality when both sides carry it.
pub open spec fn operating_system_sat(a: OperatingSystemV, b: OperatingSystemV) -> bool {
    &&& opt_string_sat(a.system_type, b.system_type)
    &&& opt_string_sat(a.repository, b.repository)
    &&& opt_string_sat(a.version, b.version)
    &&& match (a.custom_template, b.custom_template) {
        (Some(x), Some(y)) => x == y,
        _ => true,
    }
}

impl OperatingSystem {
    pub fn new(
        system_type: Option<StringElement>,
        repository: Option<StringElement>,
        version: Option<StringElement>,
        custom_template: Option<bool>,
    ) -> (r: OperatingSystem)
        ensures
            r@ == (OperatingSystemV {
                system_type: opt_string_view(system_type),
                repository: opt_string_view(repository),
                version: opt_string_view(version),
                custom_template,
            }),
    {
        OperatingSystem { system_type, repository, version, custom_template }
    }

    /// Whether the candidate operating system `b` satisfies this request.
    pub fn compare(&self, b: &OperatingSystem) -> (r: bool)
        ensures
            r == operating_system_sat(self@, b@),
    {
        let type_ok = match (&self.system_type, &b.system_type) {
            (Some(x), Some(y)) => x.compare(y),
            _ => true,
        };
        let repository_ok = match (&self.repository, &b.repository) {
            (Some(x), Some(y)) => x.compare(y),
            _ => true,
        };
        let version_ok = match (&self.version, &b.version) {
            (Some(x), Some(y)) => x.compare(y),
            _ => true,
        };
        let template_ok = match (&self.custom_template, &b.custom_template) {
            (Some(x), Some(y)) => *x == *y,
            _ => true,
        };
        type_ok && repository_ok && version_ok && template_ok
    }

    /// An operating-system record carries no magnitude leaves; the shared
    /// pass leaves it untouched.
    pub fn compress_magnitude_elements(&mut self, mag: &Vec<MagnitudeElement>)
        ensures
            *final(self) == *old(self),
    {
        let _ = mag;
    }

    /// An operating-system record carries no magnitude leaves; the shared
    /// pass leaves it untouched.
    pub fn decompress_magnitude_elements(&mut self, mag: &Vec<MagnitudeElement>)
        ensures
            *final(self) == *old(self),
    {
        let _ = mag;
    }
}

/// A virtualization stack: its technology, its version, and its type.
#[derive(Clone, Debug)]
pub struct Virtualization {
    pub technology: Option<StringElement>,
    pub version: Option<IntElement>,
    pub virtualization_type: Option<StringElement>,
}

/// The mathematical model of a virtualization record.
#[verifier::ext_equal]
pub ghost struct VirtualizationV {
    pub technology: Option<StringElementV>,
    pub version: Option<IntElement>,
    pub virtualization_type: Option<StringElementV>,
}

impl View for Virtualization {
    type V = VirtualizationV;

    open spec fn view(&self) -> VirtualizationV {
        VirtualizationV {
            technology: opt_string_view(self.technology),
            version: self.version,
            virtualization_type: opt_string_view(self.virtualization_type),
        }
    }
}

/// Whether candidate virtualization `b` satisfies request `a`.
pub open spec fn virtualization_sat(a: VirtualizationV, b: VirtualizationV) -> bool {
    &&& opt_string_sat(a.technology, b.technology)
    &&& match (a.version, b.version) {
        (Some(x), Some(y)) => int_sat(x, y),
        _ => true,
    }
    &&& opt_string_sat(a.virtualization_type, b.virtualization_type)
}

impl VirtualizationV {
    /// This record with its type literal compressed against the
    /// virtualization catalog.
    pub open spec fn spec_compress(self, repo: Repository) -> VirtualizationV {
        VirtualizationV {
            virtualization_type: opt_string_compress(
                self.virtualization_type,
                string_catalog(repo.virtualization.virtualization_type@),
            ),
            ..self
        }
    }

    /// This record with its type literal decompressed against the
    /// virtualization catalog.
    pub open spec fn spec_decompress(self, repo: Repository) -> VirtualizationV {
        VirtualizationV {
            virtualization_type: opt_string_decompress(
                self.virtualization_type,
                string_catalog(repo.virtualization.virtualization_type@),
            ),
            ..self
        }
    }
}

impl Virtualization {
    pub fn new(
        technology: Option<StringElement>,
        version: Option<IntElement>,
        virtualization_type: Option<StringElement>,
    ) -> (r: Virtualization)
        ensures
            r@ == (VirtualizationV {
                technology: opt_string_view(technology),
                version,
                virtualization_type: opt_string_view(virtualization_type),
            }),
    {
        Virtualization { technology, version, virtualization_type }
    }

    /// Whether the candidate virtualization `b` satisfies this request.
    pub fn compare(&self, b: &Virtualization) -> (r: bool)
        ensures
            r == virtualization_sat(self@, b@),
    {
        let technology_ok = match (&self.technology, &b.technology) {
            (Some(x), Some(y)) => x.compare(y),
            _ => true,
        };
        let version_ok = match (&self.version, &b.version) {
            (Some(x), Some(y)) => x.compare(y),
            _ => true,
        };
        let type_ok = match (&self.virtualization_type, &b.virtualization_type) {
            (Some(x), Some(y)) => x.compare(y),
            _ => true,
        };
        technology_ok && version_ok && type_ok
    }

    /// Compresses this record's literal leaves against the virtualization
    /// catalog.
    pub fn compress(&mut self, repo: &Repository)
        ensures
            final(self)@ == old(self)@.spec_compress(*repo),
    {
        match &mut self.virtualization_type {
            Some(t) => t.compress_with(&repo.virtualization.virtualization_type),
            None => {},
        }
    }

    /// Decompresses this record's literal leaves against the
    /// virtualization catalog.
    pub fn decompress(&mut self, repo: &Repository)
        ensures
            final(self)@ == old(self)@.spec_decompress(*repo),
    {
        match &mut self.virtualization_type {
            Some(t) => t.decompress_with(&repo.virtualization.virtualization_type),
            None => {},
        }
    }
}

/// Payment terms: the price and its currency.
#[derive(Clone, Debug)]
pub struct Payment {
    pub price: Option<IntElement>,
    pub currency: Option<StringElement>,
}

/// The mathematical model of a payment record.
#[verifier::ext_equal]
pub ghost struct PaymentV {
    pub price: Option<IntElement>,
    pub currency: Option<StringElementV>,
}

impl View for Payment {
    type V = PaymentV;

    open spec fn view(&self) -> PaymentV {
        PaymentV { price: self.price, currency: opt_string_view(self.currency) }
    }
}

/// Whether candidate payment terms `b` satisfy request `a`.
pub open spec fn payment_sat(a: PaymentV, b: PaymentV) -> bool {
    &&& match (a.price, b.price) {
        (Some(x), Some(y)) => int_sat(x, y),
        _ => true,
    }
    &&& opt_string_sat(a.currency, b.currency)
}

impl PaymentV {
    /// This record with every nested magnitude compressed.
    pub open spec fn spec_compress_magnitudes(self, cat: Seq<Entry<Magnitude>>) -> PaymentV {
        PaymentV { price: opt_int_compress_mag(self.price, cat), ..self }
    }

    /// This record with every nested magnitude decompressed.
    pub open spec fn spec_decompress_magnitudes(self, cat: Seq<Entry<Magnitude>>) -> PaymentV {
        PaymentV { price: opt_int_decompress_mag(self.price, cat), ..self }
    }
}

impl Payment {
    pub fn new(price: Option<IntElement>, currency: Option<StringElement>) -> (r: Payment)
        ensures
            r@ == (PaymentV { price, currency: opt_string_view(currency) }),
    {
        Payment { price, currency }
    }

    /// Whether the candidate payment terms `b` satisfy this request.
    pub fn compare(&self, b: &Payment) -> (r: bool)
        ensures
            r == payment_sat(self@, b@),
    {
        let price_ok = match (&self.price, &b.price) {
            (Some(x), Some(y)) => x.compare(y),
            _ => true,
        };
        let currency_ok = match (&self.currency, &b.currency) {
            (Some(x), Some(y)) => x.compare(y),
            _ => true,
        };
        price_ok && currency_ok
    }

    /// Compresses every nested magnitude leaf against the shared magnitude
    /// catalog.
    pub fn compress_magnitude_elements(&mut self, mag: &Vec<MagnitudeElement>)
        ensures
            final(self)@ == old(self)@.spec_compress_magnitudes(magnitude_catalog(mag@)),
    {
        match &mut self.price {
            Some(e) => e.compress_magnitude_with(mag),
            None => {},
        }
    }

    /// Decompresses every nested magnitude leaf against the shared
    /// magnitude catalog.
    pub fn decompress_magnitude_elements(&mut self, mag: &Vec<MagnitudeElement>)
        ensures
            final(self)@ == old(self)@.spec_decompress_magnitudes(magnitude_catalog(mag@)),
    {
        match &mut self.price {
            Some(e) => e.decompress_magnitude_with(mag),
            None => {},
        }
    }
}

/// The model of a sequence of application records.
pub open spec fn applications_view(s: Seq<Application>) -> Seq<ApplicationV> {
    s.map_values(|e: Application| e@)
}

/// Whether some disk of the candidate list satisfies the request disk
/// `d`; one candidate disk may serve several request disks at once.
pub open spec fn disk_covered(d: Disk, b: Seq<Disk>) -> bool {
    exists|j: int| 0 <= j < b.len() && disk_sat(d, #[trigger] b[j])
}

/// The existential collection rule over disks: every request-side disk
/// must be satisfied by at least one candidate-side disk.
pub open spec fn disks_sat(a: Seq<Disk>, b: Seq<Disk>) -> bool {
    forall|i: int| 0 <= i < a.len() ==> disk_covered(#[trigger] a[i], b)
}

/// Whether some interface of the candidate list satisfies the request
/// interface `d`.
pub open spec fn network_interface_covered(d: NetworkInterface, b: Seq<NetworkInterface>) -> bool {
    exists|j: int| 0 <= j < b.len() && network_interface_sat(d, #[trigger] b[j])
}

/// The existential collection rule over network interfaces.
pub open spec fn network_interfaces_sat(a: Seq<NetworkInterface>, b: Seq<NetworkInterface>) -> bool {
    forall|i: int| 0 <= i < a.len() ==> network_interface_covered(#[trigger] a[i], b)
}

/// Whether some application of the candidate list satisfies the request
/// application `d`.
pub open spec fn application_covered(d: ApplicationV, b: Seq<ApplicationV>) -> bool {
    exists|j: int| 0 <= j < b.len() && application_sat(d, #[trigger] b[j])
}

/// The existential collection rule over applications.
pub open spec fn applications_sat(a: Seq<ApplicationV>, b: Seq<ApplicationV>) -> bool {
    forall|i: int| 0 <= i < a.len() ==> application_covered(#[trigger] a[i], b)
}

/// Decides the existential rule over two disk lists.
fn all_disks_satisfied(a: &Vec<Disk>, b: &Vec<Disk>) -> (r: bool)
    ensures
        r == disks_sat(a@, b@),
{
    let mut all_ok = true;
    let mut i: usize = 0;
    while i < a.len()
        invariant
            i <= a@.len(),
            all_ok == (forall|p: int| 0 <= p < i ==> disk_covered(#[trigger] a@[p], b@)),
        decreases a@.len() - i,
    {
        let mut one_compatible = false;
        let mut j: usize = 0;
        while j < b.len()
            invariant
                j <= b@.len(),
                i < a@.len(),
                one_compatible == (exists|q: int|
                    0 <= q < j && disk_sat(a@[i as int], #[trigger] b@[q])),
            decreases b@.len() - j,
        {
            if a[i].compare(&b[j]) {
                one_compatible = true;
            }
            j = j + 1;
        }
        proof {
            assert(one_compatible == disk_covered(a@[i as int], b@));
        }
        all_ok = all_ok && one_compatible;
        i = i + 1;
    }
    all_ok
}

/// Decides the existential rule over two interface lists.
fn all_network_interfaces_satisfied(a: &Vec<NetworkInterface>, b: &Vec<NetworkInterface>) -> (r:
    bool)
    ensures
        r == network_interfaces_sat(a@, b@),
{
    let mut all_ok = true;
    let mut i: usize = 0;
    while i < a.len()
        invariant
            i <= a@.len(),
            all_ok == (forall|p: int|
                0 <= p < i ==> network_interface_covered(#[trigger] a@[p], b@)),
        decreases a@.len() - i,
    {
        let mut one_compatible = false;
        let mut j: usize = 0;
        while j < b.len()
            invariant
                j <= b@.len(),
                i < a@.len(),
                one_compatible == (exists|q: int|
                    0 <= q < j && network_interface_sat(a@[i as int], #[trigger] b@[q])),
            decreases b@.len() - j,
        {
            if a[i].compare(&b[j]) {
                one_compatible = true;
            }
            j = j + 1;
        }
        proof {
            assert(one_compatible == network_interface_covered(a@[i as int], b@));
        }
        all_ok = all_ok && one_compatible;
        i = i + 1;
    }
    all_ok
}

/// Decides the existential rule over two application lists.
fn all_applications_satisfied(a: &Vec<Application>, b: &Vec<Application>) -> (r: bool)
    ensures
        r == applications_sat(applications_view(a@), applications_view(b@)),
{
    let ghost av = applications_view(a@);
    let ghost bv = applications_view(b@);
    let mut all_ok = true;
    let mut i: usize = 0;
    while i < a.len()
        invariant
            i <= a@.len(),
            av == applications_view(a@),
            bv == applications_view(b@),
            av.len() == a@.len(),
            bv.len() == b@.len(),
            all_ok == (forall|p: int| 0 <= p < i ==> application_covered(#[trigger] av[p], bv)),
        decreases a@.len() - i,
    {
        let mut one_compatible = false;
        let mut j: usize = 0;
        while j < b.len()
            invariant
                j <= b@.len(),
                i < a@.len(),
                av == applications_view(a@),
                bv == applications_view(b@),
                av.len() == a@.len(),
                bv.len() == b@.len(),
                one_compatible == (exists|q: int|
                    0 <= q < j && application_sat(av[i as int], #[trigger] bv[q])),
            decreases b@.len() - j,
        {
            proof {
                assert(av[i as int] == a@[i as int]@);
                assert(bv[j as int] == b@[j as int]@);
            }
            if a[i].compare(&b[j]) {
                one_compatible = true;
            }
            j = j + 1;
        }
        proof {
            assert(one_compatible == application_covered(av[i as int], bv));
        }
        all_ok = all_ok && one_compatible;
        i = i + 1;
    }
    all_ok
}

/// One offer (or, under the same schema, one request): required identity
/// and version leaves, and optional sub-records for every resource kind.
#[derive(Clone, Debug)]
pub struct Offer {
    pub host: StringElement,
    pub ontology_version: FloatElement,
    pub repository_version: FloatElement,
    pub timeout: IntElement,
    pub operating_system: Option<OperatingSystem>,
    pub network_interface: Option<Vec<NetworkInterface>>,
    pub virtualization: Option<Virtualization>,
    pub cpu: Option<CPU>,
    pub memory: Option<Memory>,
    pub disk: Option<Vec<Disk>>,
    pub application: Option<Vec<Application>>,
    pub payment: Option<Payment>,
}

/// The mathematical model of one offer.
#[verifier::ext_equal]
pub ghost struct OfferV {
    pub host: StringElementV,
    pub ontology_version: FloatElement,
    pub repository_version: FloatElement,
    pub timeout: IntElement,
    pub operating_system: Option<OperatingSystemV>,
    pub network_interface: Option<Seq<NetworkInterface>>,
    pub virtualization: Option<VirtualizationV>,
    pub cpu: Option<CPUV>,
    pub memory: Option<Memory>,
    pub disk: Option<Seq<Disk>>,
    pub application: Option<Seq<ApplicationV>>,
    pub payment: Option<PaymentV>,
}

impl View for Offer {
    type V = OfferV;

    open spec fn view(&self) -> OfferV {
        OfferV {
            host: self.host@,
            ontology_version: self.ontology_version,
            repository_version: self.repository_version,
            timeout: self.timeout,
            operating_system: match self.operating_system {
                Some(o) => Some(o@),
                None => None,
            },
            network_interface: match self.network_interface {
                Some(n) => Some(n@),
                None => None,
            },
            virtualization: match self.virtualization {
                Some(v) => Some(v@),
                None => None,
            },
            cpu: match self.cpu {
                Some(c) => Some(c@),
                None => None,
            },
            memory: self.memory,
            disk: match self.disk {
                Some(d) => Some(d@),
                None => None,
            },
            application: match self.application {
                Some(a) => Some(applications_view(a@)),
                None => None,
            },
            payment: match self.payment {
                Some(p) => Some(p@),
                None => None,
            },
        }
    }
}

/// The host part of a root match.
pub open spec fn host_part_sat(a: OfferV, b: OfferV) -> bool {
    string_sat(a.host, b.host)
}

/// The ontology-version part of a root match.
pub open spec fn ontology_version_part_sat(a: OfferV, b: OfferV) -> bool {
    float_sat(a.ontology_version, b.ontology_version)
}

/// The repository-version part of a root match.
pub open spec fn repository_version_part_sat(a: OfferV, b: OfferV) -> bool {
    float_sat(a.repository_version, b.repository_version)
}

/// The processor part of a root match; an absent record on either side
/// passes vacuously.
pub open spec fn cpu_part_sat(a: OfferV, b: OfferV) -> bool {
    match (a.cpu, b.cpu) {
        (Some(x), Some(y)) => cpu_sat(x, y),
        _ => true,
    }
}

/// The memory part of a root match.
pub open spec fn memory_part_sat(a: OfferV, b: OfferV) -> bool {
    match (a.memory, b.memory) {
        (Some(x), Some(y)) => memory_sat(x, y),
        _ => true,
    }
}

/// The operating-system part of a root match.
pub open spec fn operating_system_part_sat(a: OfferV, b: OfferV) -> bool {
    match (a.operating_system, b.operating_system) {
        (Some(x), Some(y)) => operating_system_sat(x, y),
        _ => true,
    }
}

/// The disk part of a root match, under the existential collection rule.
pub open spec fn disk_part_sat(a: OfferV, b: OfferV) -> bool {
    match (a.disk, b.disk) {
        (Some(x), Some(y)) => disks_sat(x, y),
        _ => true,
    }
}

/// The network-interface part of a root match, under the existential
/// collection rule.
pub open spec fn network_interface_part_sat(a: OfferV, b: OfferV) -> bool {
    match (a.network_interface, b.network_interface) {
        (Some(x), Some(y)) => network_interfaces_sat(x, y),
        _ => true,
    }
}

/// The virtualization part of a root match.
pub open spec fn virtualization_part_sat(a: OfferV, b: OfferV) -> bool {
    match (a.virtualization, b.virtualization) {
        (Some(x), Some(y)) => virtualization_sat(x, y),
        _ => true,
    }
}

/// The application part of a root match, under the existential collection
/// rule.
pub open spec fn application_part_sat(a: OfferV, b: OfferV) -> bool {
    match (a.application, b.application) {
        (Some(x), Some(y)) => applications_sat(x, y),
        _ => true,
    }
}

/// The payment part of a root match.
pub open spec fn payment_part_sat(a: OfferV, b: OfferV) -> bool {
    match (a.payment, b.payment) {
        (Some(x), Some(y)) => payment_sat(x, y),
        _ => true,
    }
}

/// Whether candidate offer `b` satisfies request offer `a`: the
/// conjunction of every root part. Absent optional records pass
/// vacuously, whichever side they are absent from.
pub open spec fn offer_sat(a: OfferV, b: OfferV) -> bool {
    &&& host_part_sat(a, b)
    &&& ontology_version_part_sat(a, b)
    &&& repository_version_part_sat(a, b)
    &&& cpu_part_sat(a, b)
    &&& memory_part_sat(a, b)
    &&& operating_system_part_sat(a, b)
    &&& disk_part_sat(a, b)
    &&& network_interface_part_sat(a, b)
    &&& virtualization_part_sat(a, b)
    &&& application_part_sat(a, b)
    &&& payment_part_sat(a, b)
}

/// The root field a match failed on, for diagnostics.
#[derive(Clone, Copy, Debug, PartialEq, Eq, Structural)]
pub enum Violation {
    Host,
    OntologyVersion,
    RepositoryVersion,
    Cpu,
    Memory,
    OperatingSystem,
    Disk,
    NetworkInterface,
    Virtualization,
    Application,
    Payment,
}

/// Decides whether candidate offer `b` satisfies request offer `a`.
///
/// Every root part is evaluated unconditionally — there is no
/// short-circuit — and the parts that failed are returned as structured
/// violation records beside the overall verdict. The matcher never fails:
/// it always returns a definite verdict and a list.
pub fn comparing(a: &Offer, b: &Offer) -> (r: (bool, Vec<Violation>))
    ensures
        r.0 == offer_sat(a@, b@),
        r.0 <==> r.1@.len() == 0,
        r.1@.contains(Violation::Host) <==> !host_part_sat(a@, b@),
        r.1@.contains(Violation::OntologyVersion) <==> !ontology_version_part_sat(a@, b@),
        r.1@.contains(Violation::RepositoryVersion) <==> !repository_version_part_sat(a@, b@),
        r.1@.contains(Violation::Cpu) <==> !cpu_part_sat(a@, b@),
        r.1@.contains(Violation::Memory) <==> !memory_part_sat(a@, b@),
        r.1@.contains(Violation::OperatingSystem) <==> !operating_system_part_sat(a@, b@),
        r.1@.contains(Violation::Disk) <==> !disk_part_sat(a@, b@),
        r.1@.contains(Violation::NetworkInterface) <==> !network_interface_part_sat(a@, b@),
        r.1@.contains(Violation::Virtualization) <==> !virtualization_part_sat(a@, b@),
        r.1@.contains(Violation::Application) <==> !application_part_sat(a@, b@),
        r.1@.contains(Violation::Payment) <==> !payment_part_sat(a@, b@),
{
    broadcast use vstd::seq_lib::lemma_seq_contains_after_push;

    let host_ok = a.host.compare(&b.host);
    let ontology_version_ok = a.ontology_version.compare(&b.ontology_version);
    let repository_version_ok = a.repository_version.compare(&b.repository_version);
    let cpu_ok = match (&a.cpu, &b.cpu) {
        (Some(x), Some(y)) => x.compare(y),
        _ => true,
    };
    let memory_ok = match (&a.memory, &b.memory) {
        (Some(x), Some(y)) => x.compare(y),
        _ => true,
    };
    let operating_system_ok = match (&a.operating_system, &b.operating_system) {
        (Some(x), Some(y)) => x.compare(y),
        _ => true,
    };
    let disk_ok = match (&a.disk, &b.disk) {
        (Some(x), Some(y)) => all_disks_satisfied(x, y),
        _ => true,
    };
    let network_interface_ok = match (&a.network_interface, &b.network_interface) {
        (Some(x), Some(y)) => all_network_interfaces_satisfied(x, y),
        _ => true,
    };
    let virtualization_ok = match (&a.virtualization, &b.virtualization) {
        (Some(x), Some(y)) => x.compare(y),
        _ => true,
    };
    let application_ok = match (&a.application, &b.application) {
        (Some(x), Some(y)) => all_applications_satisfied(x, y),
        _ => true,
    };
    let payment_ok = match (&a.payment, &b.payment) {
        (Some(x), Some(y)) => x.compare(y),
        _ => true,
    };

    let mut violations: Vec<Violation> = Vec::new();
    if !host_ok {
        violations.push(Violation::Host);
    }
    if !ontology_version_ok {
        violations.push(Violation::OntologyVersion);
    }
    if !repository_version_ok {
        violations.push(Violation::RepositoryVersion);
    }
    if !cpu_ok {
        violations.push(Violation::Cpu);
    }
    if !memory_ok {
        violations.push(Violation::Memory);
    }
    if !operating_system_ok {
        violations.push(Violation::OperatingSystem);
    }
    if !disk_ok {
        violations.push(Violation::Disk);
    }
    if !network_interface_ok {
        violations.push(Violation::NetworkInterface);
    }
    if !virtualization_ok {
        violations.push(Violation::Virtualization);
    }
    if !application_ok {
        violations.push(Violation::Application);
    }
    if !payment_ok {
        violations.push(Violation::Payment);
    }

    let result = host_ok && ontology_version_ok && repository_version_ok && cpu_ok && memory_ok
        && operating_system_ok && disk_ok && network_interface_ok && virtualization_ok
        && application_ok && payment_ok;
    (result, violations)
}

/// The container an offer list travels in.
#[derive(Clone, Debug)]
pub struct Offers {
    pub offers: Vec<Offer>,
}

impl View for Offers {
    type V = Seq<OfferV>;

    open spec fn view(&self) -> Seq<OfferV> {
        self.offers@.map_values(|o: Offer| o@)
    }
}

impl OfferV {
    /// This offer with every nested magnitude leaf compressed against the
    /// shared magnitude catalog. The required root leaves are outside the
    /// pass: only the optional sub-records are walked.
    pub open spec fn spec_compress_magnitudes(self, cat: Seq<Entry<Magnitude>>) -> OfferV {
        OfferV {
            network_interface: match self.network_interface {
                Some(n) => Some(
                    n.map_values(
                        |x: NetworkInterface| x.spec_compress_magnitudes(cat),
                    ),
                ),
                None => None,
            },
            cpu: match self.cpu {
                Some(c) => Some(c.spec_compress_magnitudes(cat)),
                None => None,
            },
            memory: match self.memory {
                Some(m) => Some(m.spec_compress_magnitudes(cat)),
                None => None,
            },
            disk: match self.disk {
                Some(d) => Some(d.map_values(|x: Disk| x.spec_compress_magnitudes(cat))),
                None => None,
            },
            payment: match self.payment {
                Some(p) => Some(p.spec_compress_magnitudes(cat)),
                None => None,
            },
            ..self
        }
    }

    /// This offer with every nested magnitude leaf decompressed against
    /// the shared magnitude catalog.
    pub open spec fn spec_decompress_magnitudes(self, cat: Seq<Entry<Magnitude>>) -> OfferV {
        OfferV {
            network_interface: match self.network_interface {
                Some(n) => Some(
                    n.map_values(
                        |x: NetworkInterface| x.spec_decompress_magnitudes(cat),
                    ),
                ),
                None => None,
            },
            cpu: match self.cpu {
                Some(c) => Some(c.spec_decompress_magnitudes(cat)),
                None => None,
            },
            memory: match self.memory {
                Some(m) => Some(m.spec_decompress_magnitudes(cat)),
                None => None,
            },
            disk: match self.disk {
                Some(d) => Some(d.map_values(|x: Disk| x.spec_decompress_magnitudes(cat))),
                None => None,
            },
            payment: match self.payment {
                Some(p) => Some(p.spec_decompress_magnitudes(cat)),
                None => None,
            },
            ..self
        }
    }

    /// This offer fully compressed: first the shared magnitude pass over
    /// the whole tree, then each cataloged sub-record's literal pass.
    pub open spec fn spec_compress(self, repo: Repository) -> OfferV {
        let m = self.spec_compress_magnitudes(magnitude_catalog(repo.magnitude@));
        OfferV {
            cpu: match m.cpu {
                Some(c) => Some(c.spec_compress(repo)),
                None => None,
            },
            memory: match m.memory {
                Some(x) => Some(x.spec_compress(repo)),
                None => None,
            },
            disk: match m.disk {
                Some(d) => Some(d.map_values(|x: Disk| x.spec_compress(repo))),
                None => None,
            },
            ..m
        }
    }

    /// This offer fully decompressed: first the shared magnitude pass,
    /// then each cataloged sub-record's literal pass.
    pub open spec fn spec_decompress(self, repo: Repository) -> OfferV {
        let m = self.spec_decompress_magnitudes(magnitude_catalog(repo.magnitude@));
        OfferV {
            cpu: match m.cpu {
                Some(c) => Some(c.spec_decompress(repo)),
                None => None,
            },
            memory: match m.memory {
                Some(x) => Some(x.spec_decompress(repo)),
                None => None,
            },
            disk: match m.disk {
                Some(d) => Some(d.map_values(|x: Disk| x.spec_decompress(repo))),
                None => None,
            },
            ..m
        }
    }
}

impl Offer {
    /// Compresses every nested magnitude leaf of the tree against the
    /// shared magnitude catalog.
    pub fn compress_magnitude_elements(&mut self, mag: &Vec<MagnitudeElement>)
        ensures
            final(self)@ == old(self)@.spec_compress_magnitudes(magnitude_catalog(mag@)),
    {
        let ghost cat = magnitude_catalog(mag@);
        match &mut self.operating_system {
            Some(o) => o.compress_magnitude_elements(mag),
            None => {},
        }
        match &mut self.network_interface {
            Some(interfaces) => {
                let ghost before = interfaces@;
                let mut i: usize = 0;
                while i < interfaces.len()
                    invariant
                        i <= interfaces@.len(),
                        interfaces@.len() == before.len(),
                        cat == magnitude_catalog(mag@),
                        forall|p: int|
                            0 <= p < i ==> interfaces@[p] == (#[trigger] before[p]).spec_compress_magnitudes(cat),
                        forall|p: int| i <= p < before.len() ==> interfaces@[p] == before[p],
                    decreases interfaces@.len() - i,
                {
                    let el = &mut interfaces[i];
                    el.compress_magnitude_elements(mag);
                    i = i + 1;
                }
                proof {
                    assert(interfaces@ =~= before.map_values(
                        |x: NetworkInterface| x.spec_compress_magnitudes(cat),
                    ));
                }
            },
            None => {},
        }
        match &mut self.cpu {
            Some(c) => c.compress_magnitude_elements(mag),
            None => {},
        }
        match &mut self.memory {
            Some(m) => m.compress_magnitude_elements(mag),
            None => {},
        }
        match &mut self.disk {
            Some(disks) => {
                let ghost before = disks@;
                let mut i: usize = 0;
                while i < disks.len()
                    invariant
                        i <= disks@.len(),
                        disks@.len() == before.len(),
                        cat == magnitude_catalog(mag@),
                        forall|p: int|
                            0 <= p < i ==> disks@[p] == (#[trigger] before[p]).spec_compress_magnitudes(cat),
                        forall|p: int| i <= p < before.len() ==> disks@[p] == before[p],
                    decreases disks@.len() - i,
                {
                    let el = &mut disks[i];
                    el.compress_magnitude_elements(mag);
                    i = i + 1;
                }
                proof {
                    assert(disks@ =~= before.map_values(
                        |x: Disk| x.spec_compress_magnitudes(cat),
                    ));
                }
            },
            None => {},
        }
        match &mut self.payment {
            Some(p) => p.compress_magnitude_elements(mag),
            None => {},
        }
    }

    /// Decompresses every nested magnitude leaf of the tree against the
    /// shared magnitude catalog.
    pub fn decompress_magnitude_elements(&mut self, mag: &Vec<MagnitudeElement>)
        ensures
            final(self)@ == old(self)@.spec_decompress_magnitudes(magnitude_catalog(mag@)),
    {
        let ghost cat = magnitude_catalog(mag@);
        match &mut self.operating_system {
            Some(o) => o.decompress_magnitude_elements(mag),
            None => {},
        }
        match &mut self.network_interface {
            Some(interfaces) => {
                let ghost before = interfaces@;
                let mut i: usize = 0;
                while i < interfaces.len()
                    invariant
                        i <= interfaces@.len(),
                        interfaces@.len() == before.len(),
                        cat == magnitude_catalog(mag@),
                        forall|p: int|
                            0 <= p < i ==> interfaces@[p] == (#[trigger] before[p]).spec_decompress_magnitudes(cat),
                        forall|p: int| i <= p < before.len() ==> interfaces@[p] == before[p],
                    decreases interfaces@.len() - i,
                {
                    let el = &mut interfaces[i];
                    el.decompress_magnitude_elements(mag);
                    i = i + 1;
                }
                proof {
                    assert(interfaces@ =~= before.map_values(
                        |x: NetworkInterface| x.spec_decompress_magnitudes(cat),
                    ));
                }
            },
            None => {},
        }
        match &mut self.cpu {
            Some(c) => c.decompress_magnitude_elements(mag),
            None => {},
        }
        match &mut self.memory {
            Some(m) => m.decompress_magnitude_elements(mag),
            None => {},
        }
        match &mut self.disk {
            Some(disks) => {
                let ghost before = disks@;
                let mut i: usize = 0;
                while i < disks.len()
                    invariant
                        i <= disks@.len(),
                        disks@.len() == before.len(),
                        cat == magnitude_catalog(mag@),
                        forall|p: int|
                            0 <= p < i ==> disks@[p] == (#[trigger] before[p]).spec_decompress_magnitudes(cat),
                        forall|p: int| i <= p < before.len() ==> disks@[p] == before[p],
                    decreases disks@.len() - i,
                {
                    let el = &mut disks[i];
                    el.decompress_magnitude_elements(mag);
                    i = i + 1;
                }
                proof {
                    assert(disks@ =~= before.map_values(
                        |x: Disk| x.spec_decompress_magnitudes(cat),
                    ));
                }
            },
            None => {},
        }
        match &mut self.payment {
            Some(p) => p.decompress_magnitude_elements(mag),
            None => {},
        }
    }

    /// Compresses this offer against the repository: the shared magnitude
    /// pass over the whole tree, then the literal pass of each cataloged
    /// sub-record. Literals absent from their catalog stay untouched.
    pub fn compress(&mut self, repo: &Repository)
        ensures
            final(self)@ == old(self)@.spec_compress(*repo),
    {
        self.compress_magnitude_elements(&repo.magnitude);
        match &mut self.cpu {
            Some(c) => c.compress(repo),
            None => {},
        }
        match &mut self.memory {
            Some(m) => m.compress(repo),
            None => {},
        }
        match &mut self.disk {
            Some(disks) => {
                let ghost before = disks@;
                let mut i: usize = 0;
                while i < disks.len()
                    invariant
                        i <= disks@.len(),
                        disks@.len() == before.len(),
                        forall|p: int|
                            0 <= p < i ==> disks@[p] == (#[trigger] before[p]).spec_compress(*repo),
                        forall|p: int| i <= p < before.len() ==> disks@[p] == before[p],
                    decreases disks@.len() - i,
                {
                    let el = &mut disks[i];
                    el.compress(repo);
                    i = i + 1;
                }
                proof {
                    assert(disks@ =~= before.map_values(|x: Disk| x.spec_compress(*repo)));
                }
            },
            None => {},
        }
    }

    /// Decompresses this offer against the repository: the shared
    /// magnitude pass, then the literal pass of each cataloged sub-record.
    /// Restored leaves keep their identifiers.
    pub fn decompress(&mut self, repo: &Repository)
        ensures
            final(self)@ == old(self)@.spec_decompress(*repo),
    {
        self.decompress_magnitude_elements(&repo.magnitude);
        match &mut self.cpu {
            Some(c) => c.decompress(repo),
            None => {},
        }
        match &mut self.memory {
            Some(m) => m.decompress(repo),
            None => {},
        }
        match &mut self.disk {
            Some(disks) => {
                let ghost before = disks@;
                let mut i: usize = 0;
                while i < disks.len()
                    invariant
                        i <= disks@.len(),
                        disks@.len() == before.len(),
                        forall|p: int|
                            0 <= p < i ==> disks@[p] == (#[trigger] before[p]).spec_decompress(
                                *repo,
                            ),
                        forall|p: int| i <= p < before.len() ==> disks@[p] == before[p],
                    decreases disks@.len() - i,
                {
                    let el = &mut disks[i];
                    el.decompress(repo);
                    i = i + 1;
                }
                proof {
                    assert(disks@ =~= before.map_values(|x: Disk| x.spec_decompress(*repo)));
                }
            },
            None => {},
        }
    }
}

impl Offers {
    pub fn new(offers: Vec<Offer>) -> (r: Offers)
        ensures
            r@ == offers@.map_values(|o: Offer| o@),
    {
        Offers { offers }
    }

    pub fn get_offers(&self) -> (r: &Vec<Offer>)
        ensures
            *r == self.offers,
    {
        &self.offers
    }

    pub fn get_offers_mut(&mut self) -> (r: &mut Vec<Offer>)
        ensures
            *r == old(self).offers,
            final(self).offers == *final(r),
    {
        &mut self.offers
    }

    /// Compresses every contained offer against the repository.
    pub fn compress(&mut self, repo: &Repository)
        ensures
            final(self)@.len() == old(self)@.len(),
            forall|i: int|
                0 <= i < old(self)@.len() ==> final(self)@[i] == (#[trigger] old(
                    self,
                )@[i]).spec_compress(*repo),
    {
        let ghost before = self.offers@;
        let mut i: usize = 0;
        while i < self.offers.len()
            invariant
                i <= self.offers@.len(),
                self.offers@.len() == before.len(),
                forall|p: int|
                    0 <= p < i ==> (#[trigger] self.offers@[p])@ == before[p]@.spec_compress(*repo),
                forall|p: int| i <= p < before.len() ==> self.offers@[p] == before[p],
            decreases self.offers@.len() - i,
        {
            let o = &mut self.offers[i];
            o.compress(repo);
            i = i + 1;
        }
    }

    /// Decompresses every contained offer against the repository.
    pub fn decompress(&mut self, repo: &Repository)
        ensures
            final(self)@.len() == old(self)@.len(),
            forall|i: int|
                0 <= i < old(self)@.len() ==> final(self)@[i] == (#[trigger] old(
                    self,
                )@[i]).spec_decompress(*repo),
    {
        let ghost before = self.offers@;
        let mut i: usize = 0;
        while i < self.offers.len()
            invariant
                i <= self.offers@.len(),
                self.offers@.len() == before.len(),
                forall|p: int|
                    0 <= p < i ==> (#[trigger] self.offers@[p])@ == before[p]@.spec_decompress(
                        *repo,
                    ),
                forall|p: int| i <= p < before.len() ==> self.offers@[p] == before[p],
            decreases self.offers@.len() - i,
        {
            let o = &mut self.offers[i];
            o.decompress(repo);
            i = i + 1;
        }
    }
}

} // verus!
