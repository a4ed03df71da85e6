//! The generic dictionary-backed field capability.
//!
//! Every compressible leaf of the offer tree carries an optional literal and
//! an optional identifier; every catalog of the repository is an ordered
//! collection of such entries. This module gives the single mathematical
//! model of that shape — [`Entry`] — together with the lookup, compression
//! and decompression transforms and the laws that relate them. The
//! executable leaf types project into [`Entry`] through their own `entry`
//! functions, so each law proved here holds for every field of the schema at
//! once.

use vstd::prelude::*;

verus! {

/// The dictionary-relevant part of a leaf: an optional identifier and an
/// optional literal of the field's comparable type.
#[verifier::ext_equal]
pub ghost struct Entry<V> {
    pub id: Option<i16>,
    pub value: Option<V>,
}

/// The identifier of the first catalog entry whose literal equals `v`, or
/// `None` when no entry holds `v`.
pub open spec fn find_value<V>(cat: Seq<Entry<V>>, v: V) -> Option<i16>
    decreases cat.len(),
{
    if cat.len() == 0 {
        None
    } else if cat[0].value == Some(v) {
        cat[0].id
    } else {
        find_value(cat.drop_first(), v)
    }
}

/// The literal of the first catalog entry whose identifier equals `id`, or
/// `None` when no entry carries `id`.
pub open spec fn lookup_id<V>(cat: Seq<Entry<V>>, id: i16) -> Option<V>
    decreases cat.len(),
{
    if cat.len() == 0 {
        None
    } else if cat[0].id == Some(id) {
        cat[0].value
    } else {
        lookup_id(cat.drop_first(), id)
    }
}

/// Whether some catalog entry holds the literal `v`.
pub open spec fn catalog_has_value<V>(cat: Seq<Entry<V>>, v: V) -> bool {
    exists|i: int| 0 <= i < cat.len() && cat[i].value == Some(v)
}

/// Well-formedness of one catalog: every entry carries both an identifier
/// and a literal, identifiers are pairwise distinct, and literals are
/// pairwise distinct. Distinct literals make the compression direction
/// unambiguous; distinct identifiers make decompression unambiguous.
pub open spec fn catalog_wf<V>(cat: Seq<Entry<V>>) -> bool {
    &&& forall|i: int| 0 <= i < cat.len() ==> (#[trigger] cat[i]).id is Some
    &&& forall|i: int| 0 <= i < cat.len() ==> (#[trigger] cat[i]).value is Some
    &&& forall|i: int, j: int|
        0 <= i < j < cat.len() ==> (#[trigger] cat[i]).id != (#[trigger] cat[j]).id
    &&& forall|i: int, j: int|
        0 <= i < j < cat.len() ==> (#[trigger] cat[i]).value != (#[trigger] cat[j]).value
}

/// One leaf compressed against one catalog: a populated literal found in the
/// catalog is replaced by that entry's identifier and cleared; any other
/// leaf is left untouched. Absence from the catalog is not an error — the
/// leaf simply stays uncompressed.
pub open spec fn compress_entry<V>(e: Entry<V>, cat: Seq<Entry<V>>) -> Entry<V> {
    match e.value {
        Some(v) => match find_value(cat, v) {
            Some(id) => Entry { id: Some(id), value: None },
            None => e,
        },
        None => e,
    }
}

/// One leaf decompressed against one catalog: a populated identifier found
/// in the catalog has that entry's literal copied back onto the leaf. The
/// identifier is deliberately not cleared, so a decompressed leaf may carry
/// literal and identifier at once.
pub open spec fn decompress_entry<V>(e: Entry<V>, cat: Seq<Entry<V>>) -> Entry<V> {
    match e.id {
        Some(id) => match lookup_id(cat, id) {
            Some(v) => Entry { id: e.id, value: Some(v) },
            None => e,
        },
        None => e,
    }
}

/// Stepping a suffix of a sequence forward by one, as the catalog scan
/// loops do.
pub proof fn lemma_skip_step<T>(s: Seq<T>, i: int)
    requires
        0 <= i < s.len(),
    ensures
        s.skip(i).drop_first() =~= s.skip(i + 1),
        s.skip(i)[0] == s[i],
        s.skip(i).len() == s.len() - i,
{
}

/// `find_value` succeeds exactly on cataloged literals, and what it returns
/// is the identifier of an entry holding the literal.
proof fn lemma_find_value_index<V>(cat: Seq<Entry<V>>, v: V)
    requires
        catalog_has_value(cat, v),
    ensures
        exists|i: int|
            0 <= i < cat.len() && (#[trigger] cat[i]).id == find_value(cat, v) && cat[i].value
                == Some(v),
    decreases cat.len(),
{
    if cat[0].value == Some(v) {
        assert(cat[0].id == find_value(cat, v) && cat[0].value == Some(v));
    } else {
        let sub = cat.drop_first();
        let w = choose|i: int| 0 <= i < cat.len() && (#[trigger] cat[i]).value == Some(v);
        assert(sub[w - 1] == cat[w]);
        lemma_find_value_index(sub, v);
        let i = choose|i: int|
            0 <= i < sub.len() && (#[trigger] sub[i]).id == find_value(sub, v) && sub[i].value
                == Some(v);
        assert(cat[i + 1] == sub[i]);
    }
}

/// When a literal is absent from the catalog, `find_value` reports so.
proof fn lemma_find_value_absent<V>(cat: Seq<Entry<V>>, v: V)
    requires
        !catalog_has_value(cat, v),
        forall|i: int| 0 <= i < cat.len() ==> (#[trigger] cat[i]).id is Some,
    ensures
        find_value(cat, v) is None,
    decreases cat.len(),
{
    if cat.len() > 0 {
        assert(cat[0].value != Some(v));
        let sub = cat.drop_first();
        assert(forall|i: int| 0 <= i < sub.len() ==> sub[i] == cat[i + 1]);
        lemma_find_value_absent(sub, v);
    }
}

/// In a catalog with pairwise-distinct identifiers, looking up the
/// identifier of entry `i` yields that entry's literal.
proof fn lemma_lookup_id_of_entry<V>(cat: Seq<Entry<V>>, i: int)
    requires
        0 <= i < cat.len(),
        cat[i].id is Some,
        forall|p: int, q: int|
            0 <= p < q < cat.len() ==> (#[trigger] cat[p]).id != (#[trigger] cat[q]).id,
    ensures
        lookup_id(cat, cat[i].id->0) == cat[i].value,
    decreases cat.len(),
{
    if i == 0 {
    } else {
        assert(cat[0].id != cat[i].id);
        let sub = cat.drop_first();
        assert(sub[i - 1] == cat[i]);
        assert(forall|p: int, q: int|
            0 <= p < q < sub.len() ==> (#[trigger] sub[p]).id != (#[trigger] sub[q]).id) by {
            assert(forall|p: int| 0 <= p < sub.len() ==> sub[p] == cat[p + 1]);
        }
        lemma_lookup_id_of_entry(sub, i - 1);
    }
}

/// Round trip: for any literal present in the catalog for its field,
/// decompression after compression restores the original literal on that
/// leaf, while the identifier assigned by compression remains attached.
pub proof fn lemma_entry_round_trip<V>(e: Entry<V>, cat: Seq<Entry<V>>)
    requires
        catalog_wf(cat),
        e.value is Some,
        catalog_has_value(cat, e.value->0),
    ensures
        decompress_entry(compress_entry(e, cat), cat).value == e.value,
        decompress_entry(compress_entry(e, cat), cat).id == find_value(cat, e.value->0),
        find_value(cat, e.value->0) is Some,
{
    let v = e.value->0;
    lemma_find_value_index(cat, v);
    let i = choose|i: int|
        0 <= i < cat.len() && (#[trigger] cat[i]).id == find_value(cat, v) && cat[i].value == Some(
            v,
        );
    lemma_lookup_id_of_entry(cat, i);
}

/// Compression is a no-op — the literal is retained and no identifier is
/// assigned — for a leaf whose literal is absent from the catalog.
pub proof fn lemma_compress_absent<V>(e: Entry<V>, cat: Seq<Entry<V>>)
    requires
        catalog_wf(cat),
        e.value is Some,
        !catalog_has_value(cat, e.value->0),
    ensures
        compress_entry(e, cat) == e,
{
    lemma_find_value_absent(cat, e.value->0);
}

} // verus!
