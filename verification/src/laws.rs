//! The laws the comparator and the codec obey.
//!
//! Each proof function here states one property of the library as a whole:
//! reflexivity of numeric equality under unit normalization, and the round
//! trip of the dictionary codec over a whole offer tree against a
//! well-formed repository.

use vstd::prelude::*;

use crate::basic_elements::{basic_catalog, float_catalog, float_sat, int_sat, string_catalog,
    BasicElement, FloatElement, FloatOperator, IntElement, IntOperator, StringElementV};
use crate::catalog::{catalog_has_value, catalog_wf, compress_entry, decompress_entry,
    lemma_entry_round_trip, Entry};
use crate::magnitude::{magnitude_catalog, Magnitude, MagnitudeElement};
use crate::ontology::{CPUV, Disk, DiskPerformance, Memory, NetworkInterface,
    NetworkPerformance, OfferV, PaymentV, Quota};
use crate::repository::Repository;

verus! {

/// Numeric comparison under the `eq` operator is reflexive: any literal
/// under any magnitude, held against itself, is satisfied.
pub proof fn lemma_numeric_eq_reflexive(a: IntElement)
    requires
        a.compare_operator == IntOperator::eq,
    ensures
        int_sat(a, a),
{
}

/// Decimal-quantity comparison under the `eq` operator is reflexive.
pub proof fn lemma_decimal_eq_reflexive(a: FloatElement)
    requires
        a.compare_operator == FloatOperator::eq,
    ensures
        float_sat(a, a),
{
}

/// What the round trip restores on one dictionary leaf: whenever the
/// original literal is present in the catalog for its field, the literal
/// is back on the leaf afterwards, and the identifier assigned by
/// compression remains attached and resolvable.
pub open spec fn entry_restored<V>(orig: Entry<V>, d: Entry<V>, cat: Seq<Entry<V>>) -> bool {
    orig.value is Some && catalog_has_value(cat, orig.value->0) ==> d.value == orig.value && d.id
        is Some
}

/// The round trip on one dictionary leaf.
proof fn lemma_entry_restored<V>(e: Entry<V>, cat: Seq<Entry<V>>)
    requires
        catalog_wf(cat),
    ensures
        entry_restored(e, decompress_entry(compress_entry(e, cat), cat), cat),
{
    if e.value is Some && catalog_has_value(cat, e.value->0) {
        lemma_entry_round_trip(e, cat);
    }
}

/// What the round trip restores on a magnitude leaf.
pub open spec fn magnitude_restored(
    orig: MagnitudeElement,
    d: MagnitudeElement,
    mcat: Seq<Entry<Magnitude>>,
) -> bool {
    entry_restored(orig.entry(), d.entry(), mcat)
}

/// What the round trip restores on a numeric leaf: its magnitude.
pub open spec fn int_restored(orig: IntElement, d: IntElement, mcat: Seq<Entry<Magnitude>>) -> bool {
    magnitude_restored(orig.magnitude, d.magnitude, mcat)
}

/// What the round trip restores on a cataloged decimal-quantity leaf: its
/// literal and its magnitude.
pub open spec fn float_restored(
    orig: FloatElement,
    d: FloatElement,
    vcat: Seq<Entry<u32>>,
    mcat: Seq<Entry<Magnitude>>,
) -> bool {
    &&& entry_restored(orig.entry(), d.entry(), vcat)
    &&& magnitude_restored(orig.magnitude, d.magnitude, mcat)
}

/// What the round trip restores on a processor record.
pub open spec fn cpu_restored(o: CPUV, d: CPUV, repo: Repository) -> bool {
    let mcat = magnitude_catalog(repo.magnitude@);
    &&& match (o.manufacturer, d.manufacturer) {
        (Some(x), Some(y)) => entry_restored(
            x.entry(),
            y.entry(),
            string_catalog(repo.cpu.manufacturer@),
        ),
        (None, None) => true,
        _ => false,
    }
    &&& match (o.amount, d.amount) {
        (Some(x), Some(y)) => int_restored(x, y, mcat),
        (None, None) => true,
        _ => false,
    }
    &&& match (o.frequency, d.frequency) {
        (Some(x), Some(y)) => float_restored(x, y, float_catalog(repo.cpu.frequency@), mcat),
        (None, None) => true,
        _ => false,
    }
    &&& d.instruction_set.len() == o.instruction_set.len()
    &&& forall|k: int|
        0 <= k < o.instruction_set.len() ==> entry_restored(
            (#[trigger] o.instruction_set[k]).entry(),
            d.instruction_set[k].entry(),
            basic_catalog(repo.cpu.instruction_set@),
        )
}

/// What the round trip restores on a memory record.
pub open spec fn memory_restored(o: Memory, d: Memory, repo: Repository) -> bool {
    let mcat = magnitude_catalog(repo.magnitude@);
    &&& match (o.size, d.size) {
        (Some(x), Some(y)) => float_restored(x, y, float_catalog(repo.memory.size@), mcat),
        (None, None) => true,
        _ => false,
    }
    &&& match (o.generation, d.generation) {
        (Some(x), Some(y)) => entry_restored(
            x.entry(),
            y.entry(),
            basic_catalog(repo.memory.generation@),
        ),
        (None, None) => true,
        _ => false,
    }
}

/// What the round trip restores on a disk-throughput record: the
/// magnitudes of both leaves.
pub open spec fn disk_performance_restored(
    o: DiskPerformance,
    d: DiskPerformance,
    mcat: Seq<Entry<Magnitude>>,
) -> bool {
    &&& match (o.read_performance, d.read_performance) {
        (Some(x), Some(y)) => int_restored(x, y, mcat),
        (None, None) => true,
        _ => false,
    }
    &&& match (o.write_performance, d.write_performance) {
        (Some(x), Some(y)) => int_restored(x, y, mcat),
        (None, None) => true,
        _ => false,
    }
}

/// What the round trip restores on a disk record.
pub open spec fn disk_restored(o: Disk, d: Disk, repo: Repository) -> bool {
    let mcat = magnitude_catalog(repo.magnitude@);
    &&& match (o.disk_type, d.disk_type) {
        (Some(x), Some(y)) => entry_restored(
            x.entry(),
            y.entry(),
            basic_catalog(repo.disk.disk_type@),
        ),
        (None, None) => true,
        _ => false,
    }
    &&& match (o.size, d.size) {
        (Some(x), Some(y)) => int_restored(x, y, mcat),
        (None, None) => true,
        _ => false,
    }
    &&& match (o.performance, d.performance) {
        (Some(x), Some(y)) => disk_performance_restored(x, y, mcat),
        (None, None) => true,
        _ => false,
    }
}

/// What the round trip restores on a network-throughput record.
pub open spec fn network_performance_restored(
    o: NetworkPerformance,
    d: NetworkPerformance,
    mcat: Seq<Entry<Magnitude>>,
) -> bool {
    &&& match (o.download_speed, d.download_speed) {
        (Some(x), Some(y)) => int_restored(x, y, mcat),
        (None, None) => true,
        _ => false,
    }
    &&& match (o.upload_speed, d.upload_speed) {
        (Some(x), Some(y)) => int_restored(x, y, mcat),
        (None, None) => true,
        _ => false,
    }
}

/// What the round trip restores on a quota record.
pub open spec fn quota_restored(o: Quota, d: Quota, mcat: Seq<Entry<Magnitude>>) -> bool {
    &&& match (o.size, d.size) {
        (Some(x), Some(y)) => int_restored(x, y, mcat),
        (None, None) => true,
        _ => false,
    }
    &&& match (o.reset_interval, d.reset_interval) {
        (Some(x), Some(y)) => int_restored(x, y, mcat),
        (None, None) => true,
        _ => false,
    }
}

/// What the round trip restores on a network interface.
pub open spec fn network_interface_restored(
    o: NetworkInterface,
    d: NetworkInterface,
    mcat: Seq<Entry<Magnitude>>,
) -> bool {
    &&& match (o.performance, d.performance) {
        (Some(x), Some(y)) => network_performance_restored(x, y, mcat),
        (None, None) => true,
        _ => false,
    }
    &&& match (o.quota, d.quota) {
        (Some(x), Some(y)) => quota_restored(x, y, mcat),
        (None, None) => true,
        _ => false,
    }
}

/// What the round trip restores on payment terms: the price's magnitude.
pub open spec fn payment_restored(o: PaymentV, d: PaymentV, mcat: Seq<Entry<Magnitude>>) -> bool {
    &&& match (o.price, d.price) {
        (Some(x), Some(y)) => int_restored(x, y, mcat),
        (None, None) => true,
        _ => false,
    }
    &&& d.currency == o.currency
}

/// What the round trip restores — and leaves untouched — over a whole
/// offer. Leaves outside every catalog's reach are unchanged entirely;
/// every cataloged leaf whose literal (or scale factor) was in its catalog
/// carries it again, with the identifier still attached.
pub open spec fn offer_restored(o: OfferV, d: OfferV, repo: Repository) -> bool {
    let mcat = magnitude_catalog(repo.magnitude@);
    &&& d.host == o.host
    &&& d.ontology_version == o.ontology_version
    &&& d.repository_version == o.repository_version
    &&& d.timeout == o.timeout
    &&& d.operating_system == o.operating_system
    &&& d.virtualization == o.virtualization
    &&& d.application == o.application
    &&& match (o.cpu, d.cpu) {
        (Some(x), Some(y)) => cpu_restored(x, y, repo),
        (None, None) => true,
        _ => false,
    }
    &&& match (o.memory, d.memory) {
        (Some(x), Some(y)) => memory_restored(x, y, repo),
        (None, None) => true,
        _ => false,
    }
    &&& match (o.disk, d.disk) {
        (Some(x), Some(y)) => y.len() == x.len() && forall|k: int|
            0 <= k < x.len() ==> disk_restored(#[trigger] x[k], y[k], repo),
        (None, None) => true,
        _ => false,
    }
    &&& match (o.network_interface, d.network_interface) {
        (Some(x), Some(y)) => y.len() == x.len() && forall|k: int|
            0 <= k < x.len() ==> network_interface_restored(#[trigger] x[k], y[k], mcat),
        (None, None) => true,
        _ => false,
    }
    &&& match (o.payment, d.payment) {
        (Some(x), Some(y)) => payment_restored(x, y, mcat),
        (None, None) => true,
        _ => false,
    }
}

/// The round trip on a magnitude leaf, through the compress-then-
/// decompress composition the offer codec applies.
proof fn lemma_magnitude_leaf(m: MagnitudeElement, mcat: Seq<Entry<Magnitude>>)
    requires
        catalog_wf(mcat),
    ensures
        magnitude_restored(m, m.spec_compress(mcat).spec_decompress(mcat), mcat),
{
    lemma_entry_restored(m.entry(), mcat);
    assert(m.spec_compress(mcat).entry() =~= compress_entry(m.entry(), mcat));
    assert(m.spec_compress(mcat).spec_decompress(mcat).entry() =~= decompress_entry(
        compress_entry(m.entry(), mcat),
        mcat,
    ));
}

/// The round trip on a numeric leaf's magnitude.
proof fn lemma_int_leaf(e: IntElement, mcat: Seq<Entry<Magnitude>>)
    requires
        catalog_wf(mcat),
    ensures
        int_restored(
            e,
            e.spec_compress_magnitude(mcat).spec_decompress_magnitude(mcat),
            mcat,
        ),
{
    lemma_magnitude_leaf(e.magnitude, mcat);
}

/// The round trip on a cataloged decimal-quantity leaf, in the order the
/// offer codec applies the passes: magnitude compression, literal
/// compression, magnitude decompression, literal decompression.
proof fn lemma_float_leaf(e: FloatElement, vcat: Seq<Entry<u32>>, mcat: Seq<Entry<Magnitude>>)
    requires
        catalog_wf(vcat),
        catalog_wf(mcat),
    ensures
        float_restored(
            e,
            e.spec_compress_magnitude(mcat).spec_compress(vcat).spec_decompress_magnitude(
                mcat,
            ).spec_decompress(vcat),
            vcat,
            mcat,
        ),
{
    let d = e.spec_compress_magnitude(mcat).spec_compress(vcat).spec_decompress_magnitude(
        mcat,
    ).spec_decompress(vcat);
    lemma_entry_restored(e.entry(), vcat);
    assert(d.entry() =~= decompress_entry(compress_entry(e.entry(), vcat), vcat));
    lemma_entry_restored(e.magnitude.entry(), mcat);
    assert(d.magnitude.entry() =~= decompress_entry(compress_entry(e.magnitude.entry(), mcat), mcat));
}

/// The round trip on an enumerated leaf.
proof fn lemma_basic_leaf<T>(e: BasicElement<T>, cat: Seq<Entry<T>>)
    requires
        catalog_wf(cat),
    ensures
        entry_restored(
            e.entry(),
            e.spec_compress(cat).spec_decompress(cat).entry(),
            cat,
        ),
{
    lemma_entry_restored(e.entry(), cat);
    assert(e.spec_compress(cat).spec_decompress(cat).entry() =~= decompress_entry(
        compress_entry(e.entry(), cat),
        cat,
    ));
}

/// The round trip on a string leaf, in the order the offer codec applies
/// the passes.
proof fn lemma_string_leaf(e: StringElementV, cat: Seq<Entry<Seq<char>>>)
    requires
        catalog_wf(cat),
    ensures
        entry_restored(
            e.entry(),
            e.spec_compress(cat).spec_decompress(cat).entry(),
            cat,
        ),
{
    lemma_entry_restored(e.entry(), cat);
    assert(e.spec_compress(cat).spec_decompress(cat).entry() =~= decompress_entry(
        compress_entry(e.entry(), cat),
        cat,
    ));
}

/// Round trip over a whole offer: against a well-formed repository,
/// decompressing a compressed offer restores, on every leaf whose literal
/// was present in the catalog for its field, the original literal — while
/// the identifier assigned by compression remains attached — and leaves
/// every leaf outside the catalogs' reach untouched.
pub proof fn lemma_offer_round_trip(o: OfferV, repo: Repository)
    requires
        repo.wf(),
    ensures
        offer_restored(o, o.spec_compress(repo).spec_decompress(repo), repo),
{
    let mcat = magnitude_catalog(repo.magnitude@);
    let d = o.spec_compress(repo).spec_decompress(repo);
    if o.cpu is Some {
        let c = o.cpu->0;
        let dc = d.cpu->0;
        if c.manufacturer is Some {
            lemma_string_leaf(c.manufacturer->0, string_catalog(repo.cpu.manufacturer@));
        }
        if c.amount is Some {
            lemma_int_leaf(c.amount->0, mcat);
        }
        if c.frequency is Some {
            lemma_float_leaf(c.frequency->0, float_catalog(repo.cpu.frequency@), mcat);
        }
        assert forall|k: int| 0 <= k < c.instruction_set.len() implies entry_restored(
            (#[trigger] c.instruction_set[k]).entry(),
            dc.instruction_set[k].entry(),
            basic_catalog(repo.cpu.instruction_set@),
        ) by {
            lemma_basic_leaf(c.instruction_set[k], basic_catalog(repo.cpu.instruction_set@));
        }
    }
    if o.memory is Some {
        let m = o.memory->0;
        if m.size is Some {
            lemma_float_leaf(m.size->0, float_catalog(repo.memory.size@), mcat);
        }
        if m.generation is Some {
            lemma_basic_leaf(m.generation->0, basic_catalog(repo.memory.generation@));
        }
    }
    if o.disk is Some {
        let ds = o.disk->0;
        let dd = d.disk->0;
        assert forall|k: int| 0 <= k < ds.len() implies disk_restored(
            #[trigger] ds[k],
            dd[k],
            repo,
        ) by {
            let dk = ds[k];
            if dk.disk_type is Some {
                lemma_basic_leaf(dk.disk_type->0, basic_catalog(repo.disk.disk_type@));
            }
            if dk.size is Some {
                lemma_int_leaf(dk.size->0, mcat);
            }
            if dk.performance is Some {
                let p = dk.performance->0;
                if p.read_performance is Some {
                    lemma_int_leaf(p.read_performance->0, mcat);
                }
                if p.write_performance is Some {
                    lemma_int_leaf(p.write_performance->0, mcat);
                }
            }
        }
    }
    if o.network_interface is Some {
        let ns = o.network_interface->0;
        let dn = d.network_interface->0;
        assert forall|k: int| 0 <= k < ns.len() implies network_interface_restored(
            #[trigger] ns[k],
            dn[k],
            mcat,
        ) by {
            let nk = ns[k];
            if nk.performance is Some {
                let p = nk.performance->0;
                if p.download_speed is Some {
                    lemma_int_leaf(p.download_speed->0, mcat);
                }
                if p.upload_speed is Some {
                    lemma_int_leaf(p.upload_speed->0, mcat);
                }
            }
            if nk.quota is Some {
                let q = nk.quota->0;
                if q.size is Some {
                    lemma_int_leaf(q.size->0, mcat);
                }
                if q.reset_interval is Some {
                    lemma_int_leaf(q.reset_interval->0, mcat);
                }
            }
        }
    }
    if o.payment is Some {
        let p = o.payment->0;
        if p.price is Some {
            lemma_int_leaf(p.price->0, mcat);
        }
    }
}

} // verus!
