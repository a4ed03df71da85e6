//! Decimal scale factors and the magnitude leaf.
//!
//! A numeric leaf owns a nested magnitude leaf; before two numeric literals
//! are compared they are normalized to a common unit by scaling each with
//! its magnitude's decimal factor. The factors range from `pico` (ten to
//! the minus twelfth) to `peta` (ten to the fifteenth); to stay within the
//! natural numbers the model works with exponents shifted up by twelve,
//! which multiplies both sides of every comparison by the same positive
//! constant and so changes no outcome.

use vstd::prelude::*;

use crate::catalog::{compress_entry, decompress_entry, find_value, lookup_id, lemma_skip_step,
    Entry};

verus! {

/// An ordered enumeration of decimal scale factors; `none` is scale one.
#[allow(non_camel_case_types)]
#[derive(Clone, Copy, Debug, PartialEq, Eq, Structural)]
pub enum Magnitude {
    pico,
    nano,
    micro,
    milli,
    none,
    kilo,
    mega,
    giga,
    tera,
    peta,
}

impl Default for Magnitude {
    /// An unset magnitude means scale one.
    fn default() -> (r: Magnitude)
        ensures
            r == Magnitude::none,
    {
        Magnitude::none
    }
}

/// Ten to the `e`.
pub open spec fn pow10(e: nat) -> nat
    decreases e,
{
    if e == 0 {
        1
    } else {
        10 * pow10((e - 1) as nat)
    }
}

pub proof fn lemma_pow10_positive(e: nat)
    ensures
        pow10(e) >= 1,
    decreases e,
{
    if e > 0 {
        lemma_pow10_positive((e - 1) as nat);
    }
}

pub proof fn lemma_pow10_monotonic(a: nat, b: nat)
    requires
        a <= b,
    ensures
        pow10(a) <= pow10(b),
    decreases b,
{
    if a < b {
        lemma_pow10_monotonic(a, (b - 1) as nat);
        lemma_pow10_positive((b - 1) as nat);
    }
}

/// The magnitude's decimal exponent, shifted up by twelve so that every
/// scale factor is a natural number.
pub open spec fn scale_exp(m: Magnitude) -> nat {
    match m {
        Magnitude::pico => 0,
        Magnitude::nano => 3,
        Magnitude::micro => 6,
        Magnitude::milli => 9,
        Magnitude::none => 12,
        Magnitude::kilo => 15,
        Magnitude::mega => 18,
        Magnitude::giga => 21,
        Magnitude::tera => 24,
        Magnitude::peta => 27,
    }
}

/// The shifted exponent of an optional magnitude: an unset magnitude is
/// scale one.
pub open spec fn opt_scale_exp(m: Option<Magnitude>) -> nat {
    match m {
        Some(mg) => scale_exp(mg),
        None => 12,
    }
}

/// A numeric literal normalized to the common (shifted) unit.
pub open spec fn scaled(v: u32, m: Option<Magnitude>) -> nat {
    (v * pow10(opt_scale_exp(m))) as nat
}

/// The widest scale factor written out, so that overflow arguments can work
/// with a literal.
proof fn lemma_pow10_27()
    ensures
        pow10(27) == 1000000000000000000000000000,
{
    reveal_with_fuel(pow10, 28);
}

fn scale_exp_u32(m: &Magnitude) -> (e: u32)
    ensures
        e == scale_exp(*m),
{
    match m {
        Magnitude::pico => 0,
        Magnitude::nano => 3,
        Magnitude::micro => 6,
        Magnitude::milli => 9,
        Magnitude::none => 12,
        Magnitude::kilo => 15,
        Magnitude::mega => 18,
        Magnitude::giga => 21,
        Magnitude::tera => 24,
        Magnitude::peta => 27,
    }
}

fn pow10_u128(e: u32) -> (r: u128)
    requires
        e <= 27,
    ensures
        r == pow10(e as nat),
{
    let mut r: u128 = 1;
    let mut i: u32 = 0;
    while i < e
        invariant
            i <= e <= 27,
            r == pow10(i as nat),
        decreases e - i,
    {
        proof {
            lemma_pow10_monotonic((i + 1) as nat, 27);
            lemma_pow10_27();
        }
        r = r * 10;
        i = i + 1;
    }
    r
}

/// The normalized value of a numeric literal under an optional magnitude,
/// as a 128-bit integer; the widest literal under the widest scale still
/// fits.
pub fn scaled_value(v: u32, m: &Option<Magnitude>) -> (r: u128)
    ensures
        r == scaled(v, *m),
{
    let e: u32 = match m {
        Some(mg) => scale_exp_u32(mg),
        None => 12,
    };
    let p = pow10_u128(e);
    proof {
        lemma_pow10_monotonic(e as nat, 27);
        lemma_pow10_27();
        vstd::arithmetic::mul::lemma_mul_upper_bound(
            v as int,
            u32::MAX as int,
            p as int,
            pow10(27) as int,
        );
        lemma_pow10_positive(e as nat);
    }
    (v as u128) * p
}

/// A magnitude leaf: an optional identifier and an optional scale factor,
/// compressed and decompressed against the single shared magnitude catalog.
#[derive(Clone, Copy, Debug, PartialEq, Eq, Structural)]
pub struct MagnitudeElement {
    pub id: Option<i16>,
    pub magnitude: Option<Magnitude>,
}

impl Default for MagnitudeElement {
    /// A fresh magnitude leaf is fully unset.
    fn default() -> (r: MagnitudeElement)
        ensures
            r == (MagnitudeElement { id: None, magnitude: None }),
    {
        MagnitudeElement { id: None, magnitude: None }
    }
}

impl MagnitudeElement {
    /// The dictionary model of this leaf: the scale factor is its literal.
    pub open spec fn entry(self) -> Entry<Magnitude> {
        Entry { id: self.id, value: self.magnitude }
    }

    /// This leaf after compression against the shared magnitude catalog.
    pub open spec fn spec_compress(self, cat: Seq<Entry<Magnitude>>) -> MagnitudeElement {
        let en = compress_entry(self.entry(), cat);
        MagnitudeElement { id: en.id, magnitude: en.value }
    }

    /// This leaf after decompression against the shared magnitude catalog.
    pub open spec fn spec_decompress(self, cat: Seq<Entry<Magnitude>>) -> MagnitudeElement {
        let en = decompress_entry(self.entry(), cat);
        MagnitudeElement { id: en.id, magnitude: en.value }
    }

    pub fn get_id(&self) -> (r: &Option<i16>)
        ensures
            *r == self.id,
    {
        &self.id
    }

    pub fn get_id_mut(&mut self) -> (r: &mut Option<i16>)
        ensures
            *r == old(self).id,
            *final(self) == (MagnitudeElement { id: *final(r), ..*old(self) }),
    {
        &mut self.id
    }

    pub fn set_id(&mut self, id: i16)
        ensures
            *final(self) == (MagnitudeElement { id: Some(id), ..*old(self) }),
    {
        self.id = Some(id);
    }

    pub fn get_magnitude(&self) -> (r: &Option<Magnitude>)
        ensures
            *r == self.magnitude,
    {
        &self.magnitude
    }

    pub fn get_magnitude_mut(&mut self) -> (r: &mut Option<Magnitude>)
        ensures
            *r == old(self).magnitude,
            *final(self) == (MagnitudeElement { magnitude: *final(r), ..*old(self) }),
    {
        &mut self.magnitude
    }

    pub fn set_magnitude(&mut self, mag: Option<Magnitude>)
        ensures
            *final(self) == (MagnitudeElement { magnitude: mag, ..*old(self) }),
    {
        self.magnitude = mag;
    }

    pub fn new(id: Option<i16>, magnitude: Option<Magnitude>) -> (r: MagnitudeElement)
        ensures
            r == (MagnitudeElement { id, magnitude }),
    {
        MagnitudeElement { id, magnitude }
    }

    /// Compresses this magnitude leaf against the shared magnitude catalog:
    /// a scale factor equal to some catalog literal is replaced by the
    /// first such entry's identifier and cleared; one the catalog lacks
    /// stays untouched.
    pub fn compress_with(&mut self, cat: &Vec<MagnitudeElement>)
        ensures
            *final(self) == old(self).spec_compress(magnitude_catalog(cat@)),
    {
        let ghost ents = magnitude_catalog(cat@);
        if let Some(my_mag) = self.magnitude {
            proof {
                assert(ents.skip(0) =~= ents);
            }
            let mut i: usize = 0;
            while i < cat.len()
                invariant
                    i <= cat.len(),
                    ents == magnitude_catalog(cat@),
                    ents.len() == cat@.len(),
                    *self == *old(self),
                    self.magnitude == Some(my_mag),
                    find_value(ents, my_mag) == find_value(ents.skip(i as int), my_mag),
                decreases cat.len() - i,
            {
                proof {
                    lemma_skip_step(ents, i as int);
                    assert(ents[i as int] == cat@[i as int].entry());
                }
                let e = &cat[i];
                let hit = match e.magnitude {
                    Some(em) => em == my_mag,
                    None => false,
                };
                if hit {
                    match e.id {
                        Some(id) => {
                            self.id = Some(id);
                            self.magnitude = None;
                        },
                        None => {},
                    }
                    return ;
                }
                i = i + 1;
            }
        }
    }

    /// Decompresses this magnitude leaf against the shared magnitude
    /// catalog: an identifier carried by some catalog entry has that
    /// entry's scale factor copied back onto the leaf; the identifier
    /// itself is kept.
    pub fn decompress_with(&mut self, cat: &Vec<MagnitudeElement>)
        ensures
            *final(self) == old(self).spec_decompress(magnitude_catalog(cat@)),
    {
        let ghost ents = magnitude_catalog(cat@);
        if let Some(my_id) = self.id {
            proof {
                assert(ents.skip(0) =~= ents);
            }
            let mut i: usize = 0;
            while i < cat.len()
                invariant
                    i <= cat.len(),
                    ents == magnitude_catalog(cat@),
                    ents.len() == cat@.len(),
                    *self == *old(self),
                    self.id == Some(my_id),
                    lookup_id(ents, my_id) == lookup_id(ents.skip(i as int), my_id),
                decreases cat.len() - i,
            {
                proof {
                    lemma_skip_step(ents, i as int);
                    assert(ents[i as int] == cat@[i as int].entry());
                }
                let e = &cat[i];
                let hit = match e.id {
                    Some(eid) => eid == my_id,
                    None => false,
                };
                if hit {
                    match e.magnitude {
                        Some(em) => {
                            self.magnitude = Some(em);
                        },
                        None => {},
                    }
                    return ;
                }
                i = i + 1;
            }
        }
    }
}

/// The shared magnitude catalog seen as a sequence of dictionary entries.
pub open spec fn magnitude_catalog(cat: Seq<MagnitudeElement>) -> Seq<Entry<Magnitude>> {
    cat.map_values(|e: MagnitudeElement| e.entry())
}

} // verus!
