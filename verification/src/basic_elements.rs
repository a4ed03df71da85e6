//! The typed, operator-aware leaf values of the offer tree.
//!
//! A leaf carries an optional literal and an optional small-integer
//! identifier; string and numeric leaves additionally carry the comparison
//! operator that decides how a request-side leaf is held against a
//! candidate-side leaf. A leaf whose literal is absent never constrains a
//! match: comparison is vacuously satisfied whenever either side carries no
//! literal.

use vstd::prelude::*;

use crate::OntologyError;
use crate::catalog::{compress_entry, decompress_entry, find_value, lookup_id, lemma_skip_step,
    Entry};
use crate::magnitude::{scaled, Magnitude, MagnitudeElement};

verus! {

/// What case folding yields on a sequence of characters. The result depends
/// on the characters alone, so it can be given a name even though writing
/// the full Unicode mapping out is out of the question.
pub uninterp spec fn lower_of(s: Seq<char>) -> Seq<char>;

/// Relies on str::to_lowercase: the result is a pure function of the
/// characters of the input.
#[verifier::external_body]
fn lowercase(s: &String) -> (r: String)
    ensures
        r@ == lower_of(s@),
{
    s.as_str().to_lowercase()
}

/// Equality of two character sequences, decided at run time.
fn str_eq(a: &str, b: &str) -> (r: bool)
    ensures
        r == (a@ == b@),
{
    let sa = a.to_owned();
    let sb = b.to_owned();
    sa == sb
}

/// How two string literals are held against each other.
#[allow(non_camel_case_types)]
#[derive(Clone, Copy, Debug, PartialEq, Eq, Structural)]
pub enum StringOperator {
    /// Byte-exact equality.
    eq,
    /// Case-folded equality.
    lowerCaseEq,
}

impl Default for StringOperator {
    fn default() -> (r: StringOperator)
        ensures
            r == StringOperator::eq,
    {
        StringOperator::eq
    }
}

impl StringOperator {
    /// Parses an operator tag. Text that names no recognized symbol is
    /// rejected with a typed error, never silently replaced by a default.
    pub fn from_text(s: &str) -> (r: Result<StringOperator, OntologyError>)
        ensures
            s@ == "eq"@ ==> r == Ok::<StringOperator, OntologyError>(StringOperator::eq),
            s@ == "lowerCaseEq"@ ==> r == Ok::<StringOperator, OntologyError>(
                StringOperator::lowerCaseEq,
            ),
            r is Err <==> s@ != "eq"@ && s@ != "lowerCaseEq"@,
            r is Err ==> r == Err::<StringOperator, OntologyError>(
                OntologyError::UnknownEnumLiteral,
            ),
    {
        proof {
            reveal_strlit("eq");
            reveal_strlit("lowerCaseEq");
            assert("eq"@.len() == 2);
            assert("lowerCaseEq"@.len() == 11);
            assert("eq"@ != "lowerCaseEq"@);
        }
        if str_eq(s, "eq") {
            Ok(StringOperator::eq)
        } else if str_eq(s, "lowerCaseEq") {
            Ok(StringOperator::lowerCaseEq)
        } else {
            Err(OntologyError::UnknownEnumLiteral)
        }
    }
}

/// How two numeric literals are held against each other, after both are
/// normalized by their magnitudes.
#[allow(non_camel_case_types)]
#[derive(Clone, Copy, Debug, PartialEq, Eq, Structural)]
pub enum IntOperator {
    /// Less than or equal.
    leq,
    /// Greater than or equal.
    geq,
    /// Exact equality.
    eq,
    /// Strictly less than.
    le,
    /// Strictly greater than.
    ge,
}

impl Default for IntOperator {
    fn default() -> (r: IntOperator)
        ensures
            r == IntOperator::eq,
    {
        IntOperator::eq
    }
}

impl IntOperator {
    /// Parses an operator tag. Text that names no recognized symbol is
    /// rejected with a typed error, never silently replaced by a default.
    pub fn from_text(s: &str) -> (r: Result<IntOperator, OntologyError>)
        ensures
            s@ == "leq"@ ==> r == Ok::<IntOperator, OntologyError>(IntOperator::leq),
            s@ == "geq"@ ==> r == Ok::<IntOperator, OntologyError>(IntOperator::geq),
            s@ == "eq"@ ==> r == Ok::<IntOperator, OntologyError>(IntOperator::eq),
            s@ == "le"@ ==> r == Ok::<IntOperator, OntologyError>(IntOperator::le),
            s@ == "ge"@ ==> r == Ok::<IntOperator, OntologyError>(IntOperator::ge),
            r is Err <==> s@ != "leq"@ && s@ != "geq"@ && s@ != "eq"@ && s@ != "le"@ && s@
                != "ge"@,
            r is Err ==> r == Err::<IntOperator, OntologyError>(OntologyError::UnknownEnumLiteral),
    {
        proof {
            reveal_strlit("leq");
            reveal_strlit("geq");
            reveal_strlit("eq");
            reveal_strlit("le");
            reveal_strlit("ge");
            assert("leq"@[0] == 'l' && "geq"@[0] == 'g' && "eq"@[0] == 'e' && "le"@[0] == 'l'
                && "ge"@[0] == 'g');
            assert("leq"@[1] == 'e' && "le"@[1] == 'e' && "ge"@[1] == 'e');
            assert("leq"@.len() == 3 && "geq"@.len() == 3 && "eq"@.len() == 2 && "le"@.len() == 2
                && "ge"@.len() == 2);
            assert("leq"@ != "geq"@ && "leq"@ != "eq"@ && "leq"@ != "le"@ && "leq"@ != "ge"@);
            assert("geq"@ != "eq"@ && "geq"@ != "le"@ && "geq"@ != "ge"@);
            assert("eq"@ != "le"@ && "eq"@ != "ge"@);
            assert("le"@ != "ge"@);
        }
        if str_eq(s, "leq") {
            Ok(IntOperator::leq)
        } else if str_eq(s, "geq") {
            Ok(IntOperator::geq)
        } else if str_eq(s, "eq") {
            Ok(IntOperator::eq)
        } else if str_eq(s, "le") {
            Ok(IntOperator::le)
        } else if str_eq(s, "ge") {
            Ok(IntOperator::ge)
        } else {
            Err(OntologyError::UnknownEnumLiteral)
        }
    }
}

/// The operator set of decimal-quantity leaves; it reads exactly as
/// [`IntOperator`] does.
#[allow(non_camel_case_types)]
#[derive(Clone, Copy, Debug, PartialEq, Eq, Structural)]
pub enum FloatOperator {
    /// Less than or equal.
    leq,
    /// Greater than or equal.
    geq,
    /// Exact equality.
    eq,
    /// Strictly less than.
    le,
    /// Strictly greater than.
    ge,
}

impl Default for FloatOperator {
    fn default() -> (r: FloatOperator)
        ensures
            r == FloatOperator::eq,
    {
        FloatOperator::eq
    }
}

impl FloatOperator {
    /// Parses an operator tag. Text that names no recognized symbol is
    /// rejected with a typed error, never silently replaced by a default.
    pub fn from_text(s: &str) -> (r: Result<FloatOperator, OntologyError>)
        ensures
            s@ == "leq"@ ==> r == Ok::<FloatOperator, OntologyError>(FloatOperator::leq),
            s@ == "geq"@ ==> r == Ok::<FloatOperator, OntologyError>(FloatOperator::geq),
            s@ == "eq"@ ==> r == Ok::<FloatOperator, OntologyError>(FloatOperator::eq),
            s@ == "le"@ ==> r == Ok::<FloatOperator, OntologyError>(FloatOperator::le),
            s@ == "ge"@ ==> r == Ok::<FloatOperator, OntologyError>(FloatOperator::ge),
            r is Err <==> s@ != "leq"@ && s@ != "geq"@ && s@ != "eq"@ && s@ != "le"@ && s@
                != "ge"@,
            r is Err ==> r == Err::<FloatOperator, OntologyError>(
                OntologyError::UnknownEnumLiteral,
            ),
    {
        proof {
            reveal_strlit("leq");
            reveal_strlit("geq");
            reveal_strlit("eq");
            reveal_strlit("le");
            reveal_strlit("ge");
            assert("leq"@[0] == 'l' && "geq"@[0] == 'g' && "eq"@[0] == 'e' && "le"@[0] == 'l'
                && "ge"@[0] == 'g');
            assert("leq"@[1] == 'e' && "le"@[1] == 'e' && "ge"@[1] == 'e');
            assert("leq"@.len() == 3 && "geq"@.len() == 3 && "eq"@.len() == 2 && "le"@.len() == 2
                && "ge"@.len() == 2);
            assert("leq"@ != "geq"@ && "leq"@ != "eq"@ && "leq"@ != "le"@ && "leq"@ != "ge"@);
            assert("geq"@ != "eq"@ && "geq"@ != "le"@ && "geq"@ != "ge"@);
            assert("eq"@ != "le"@ && "eq"@ != "ge"@);
            assert("le"@ != "ge"@);
        }
        if str_eq(s, "leq") {
            Ok(FloatOperator::leq)
        } else if str_eq(s, "geq") {
            Ok(FloatOperator::geq)
        } else if str_eq(s, "eq") {
            Ok(FloatOperator::eq)
        } else if str_eq(s, "le") {
            Ok(FloatOperator::le)
        } else if str_eq(s, "ge") {
            Ok(FloatOperator::ge)
        } else {
            Err(OntologyError::UnknownEnumLiteral)
        }
    }
}

/// A string leaf: optional literal, optional identifier, and the operator
/// that decides its comparison.
#[derive(Clone, Debug)]
pub struct StringElement {
    pub id: Option<i16>,
    pub value: Option<String>,
    pub compare_operator: StringOperator,
}

/// The mathematical model of a string leaf.
#[verifier::ext_equal]
pub ghost struct StringElementV {
    pub id: Option<i16>,
    pub value: Option<Seq<char>>,
    pub compare_operator: StringOperator,
}

impl StringElementV {
    /// The dictionary model of this leaf.
    pub open spec fn entry(self) -> Entry<Seq<char>> {
        Entry { id: self.id, value: self.value }
    }

    /// This leaf after compression of its literal against one catalog of
    /// its kind.
    pub open spec fn spec_compress(self, cat: Seq<Entry<Seq<char>>>) -> StringElementV {
        let en = compress_entry(self.entry(), cat);
        StringElementV { id: en.id, value: en.value, ..self }
    }

    /// This leaf after decompression of its literal against one catalog of
    /// its kind.
    pub open spec fn spec_decompress(self, cat: Seq<Entry<Seq<char>>>) -> StringElementV {
        let en = decompress_entry(self.entry(), cat);
        StringElementV { id: en.id, value: en.value, ..self }
    }
}

impl View for StringElement {
    type V = StringElementV;

    open spec fn view(&self) -> StringElementV {
        StringElementV {
            id: self.id,
            value: match self.value {
                Some(s) => Some(s@),
                None => None,
            },
            compare_operator: self.compare_operator,
        }
    }
}

/// Whether the candidate string leaf `b` satisfies the request string leaf
/// `a` under `a`'s operator: vacuously true when either literal is absent,
/// otherwise byte-exact or case-folded equality.
pub open spec fn string_sat(a: StringElementV, b: StringElementV) -> bool {
    match (a.value, b.value) {
        (Some(va), Some(vb)) => match a.compare_operator {
            StringOperator::eq => va == vb,
            StringOperator::lowerCaseEq => lower_of(va) == lower_of(vb),
        },
        _ => true,
    }
}

/// A string catalog seen as a sequence of dictionary entries.
pub open spec fn string_catalog(cat: Seq<StringElement>) -> Seq<Entry<Seq<char>>> {
    cat.map_values(|e: StringElement| e@.entry())
}

impl StringElement {
    pub fn new(id: Option<i16>, value: Option<String>, compare_operator: StringOperator) -> (r:
        StringElement)
        ensures
            r@ == (StringElementV {
                id,
                value: match value {
                    Some(s) => Some(s@),
                    None => None,
                },
                compare_operator,
            }),
    {
        StringElement { id, value, compare_operator }
    }

    pub fn get_id(&self) -> (r: &Option<i16>)
        ensures
            *r == self.id,
    {
        &self.id
    }

    pub fn get_id_mut(&mut self) -> (r: &mut Option<i16>)
        ensures
            *r == old(self).id,
            *final(self) == (StringElement { id: *final(r), ..*old(self) }),
    {
        &mut self.id
    }

    pub fn set_id(&mut self, id: i16)
        ensures
            *final(self) == (StringElement { id: Some(id), ..*old(self) }),
    {
        self.id = Some(id);
    }

    pub fn get_value(&self) -> (r: &Option<String>)
        ensures
            *r == self.value,
    {
        &self.value
    }

    pub fn get_value_mut(&mut self) -> (r: &mut Option<String>)
        ensures
            *r == old(self).value,
            *final(self) == (StringElement { value: *final(r), ..*old(self) }),
    {
        &mut self.value
    }

    pub fn set_value(&mut self, value: Option<String>)
        ensures
            *final(self) == (StringElement { value, ..*old(self) }),
    {
        self.value = value;
    }

    pub fn get_compare_operator(&self) -> (r: &StringOperator)
        ensures
            *r == self.compare_operator,
    {
        &self.compare_operator
    }

    pub fn get_compare_operator_mut(&mut self) -> (r: &mut StringOperator)
        ensures
            *r == old(self).compare_operator,
            *final(self) == (StringElement { compare_operator: *final(r), ..*old(self) }),
    {
        &mut self.compare_operator
    }

    pub fn set_compare_operator(&mut self, op: StringOperator)
        ensures
            *final(self) == (StringElement { compare_operator: op, ..*old(self) }),
    {
        self.compare_operator = op;
    }

    /// Whether the candidate leaf `b` satisfies this request leaf under this
    /// leaf's operator; an absent literal on either side satisfies
    /// vacuously.
    pub fn compare(&self, b: &StringElement) -> (r: bool)
        ensures
            r == string_sat(self@, b@),
    {
        match (&self.value, &b.value) {
            (Some(va), Some(vb)) => match self.compare_operator {
                StringOperator::eq => *va == *vb,
                StringOperator::lowerCaseEq => {
                    let la = lowercase(va);
                    let lb = lowercase(vb);
                    la == lb
                },
            },
            _ => true,
        }
    }

    /// Compresses this leaf against one catalog: a literal equal to some
    /// catalog literal is replaced by the first such entry's identifier and
    /// cleared; a literal the catalog lacks stays untouched.
    pub fn compress_with(&mut self, cat: &Vec<StringElement>)
        ensures
            final(self)@ == old(self)@.spec_compress(string_catalog(cat@)),
    {
        let ghost ents = string_catalog(cat@);
        let ghost v = old(self)@.entry().value;
        if self.value.is_some() {
            proof {
                assert(ents.skip(0) =~= ents);
            }
            let mut i: usize = 0;
            while i < cat.len()
                invariant
                    i <= cat.len(),
                    ents == string_catalog(cat@),
                    ents.len() == cat@.len(),
                    *self == *old(self),
                    v is Some,
                    self@.entry().value == v,
                    find_value(ents, v->0) == find_value(ents.skip(i as int), v->0),
                decreases cat.len() - i,
            {
                proof {
                    lemma_skip_step(ents, i as int);
                }
                let e = &cat[i];
                let hit = match (&self.value, &e.value) {
                    (Some(a), Some(b)) => *a == *b,
                    _ => false,
                };
                proof {
                    assert(ents[i as int] == cat@[i as int]@.entry());
                }
                if hit {
                    match e.id {
                        Some(id) => {
                            self.id = Some(id);
                            self.value = None;
                        },
                        None => {},
                    }
                    return ;
                }
                i = i + 1;
            }
        }
    }

    /// Decompresses this leaf against one catalog: an identifier carried by
    /// some catalog entry has that entry's literal copied back onto the
    /// leaf; the identifier itself is kept.
    pub fn decompress_with(&mut self, cat: &Vec<StringElement>)
        ensures
            final(self)@ == old(self)@.spec_decompress(string_catalog(cat@)),
    {
        let ghost ents = string_catalog(cat@);
        if let Some(my_id) = self.id {
            proof {
                assert(ents.skip(0) =~= ents);
            }
            let mut i: usize = 0;
            while i < cat.len()
                invariant
                    i <= cat.len(),
                    ents == string_catalog(cat@),
                    ents.len() == cat@.len(),
                    *self == *old(self),
                    self.id == Some(my_id),
                    lookup_id(ents, my_id) == lookup_id(ents.skip(i as int), my_id),
                decreases cat.len() - i,
            {
                proof {
                    lemma_skip_step(ents, i as int);
                }
                let e = &cat[i];
                let hit = match e.id {
                    Some(eid) => eid == my_id,
                    None => false,
                };
                proof {
                    assert(ents[i as int] == cat@[i as int]@.entry());
                }
                if hit {
                    match &e.value {
                        Some(s) => {
                            self.value = Some(s.clone());
                        },
                        None => {},
                    }
                    return ;
                }
                i = i + 1;
            }
        }
    }
}

/// A numeric leaf: an optional unsigned literal, an optional identifier, a
/// nested magnitude leaf, and the operator that decides its comparison.
/// Before comparison the literal is normalized to a common unit by the
/// magnitude's decimal scale factor; an unset magnitude is scale one.
#[derive(Clone, Copy, Debug, PartialEq, Eq, Structural)]
pub struct IntElement {
    pub id: Option<i16>,
    pub value: Option<u32>,
    pub magnitude: MagnitudeElement,
    pub compare_operator: IntOperator,
}

/// Whether the candidate numeric leaf `b` satisfies the request numeric
/// leaf `a` under `a`'s operator, both literals normalized by their
/// magnitudes; vacuously true when either literal is absent. Equality is
/// exact — there is no tolerance.
pub open spec fn int_sat(a: IntElement, b: IntElement) -> bool {
    match (a.value, b.value) {
        (Some(va), Some(vb)) => {
            let x = scaled(va, a.magnitude.magnitude);
            let y = scaled(vb, b.magnitude.magnitude);
            match a.compare_operator {
                IntOperator::leq => x <= y,
                IntOperator::geq => x >= y,
                IntOperator::eq => x == y,
                IntOperator::le => x < y,
                IntOperator::ge => x > y,
            }
        },
        _ => true,
    }
}

impl Default for IntElement {
    /// A fresh numeric leaf is fully unset and compares by equality.
    fn default() -> (r: IntElement)
        ensures
            r == (IntElement {
                id: None,
                value: None,
                magnitude: MagnitudeElement { id: None, magnitude: None },
                compare_operator: IntOperator::eq,
            }),
    {
        IntElement {
            id: None,
            value: None,
            magnitude: MagnitudeElement::new(None, None),
            compare_operator: IntOperator::eq,
        }
    }
}

impl IntElement {
    /// This leaf with its nested magnitude compressed against the shared
    /// magnitude catalog; the numeric literal itself has no catalog.
    pub open spec fn spec_compress_magnitude(self, cat: Seq<Entry<Magnitude>>) -> IntElement {
        IntElement { magnitude: self.magnitude.spec_compress(cat), ..self }
    }

    /// This leaf with its nested magnitude decompressed against the shared
    /// magnitude catalog.
    pub open spec fn spec_decompress_magnitude(self, cat: Seq<Entry<Magnitude>>) -> IntElement {
        IntElement { magnitude: self.magnitude.spec_decompress(cat), ..self }
    }

    pub fn new(
        id: Option<i16>,
        value: Option<u32>,
        magnitude: MagnitudeElement,
        compare_operator: IntOperator,
    ) -> (r: IntElement)
        ensures
            r == (IntElement { id, value, magnitude, compare_operator }),
    {
        IntElement { id, value, magnitude, compare_operator }
    }

    pub fn get_id(&self) -> (r: &Option<i16>)
        ensures
            *r == self.id,
    {
        &self.id
    }

    pub fn get_id_mut(&mut self) -> (r: &mut Option<i16>)
        ensures
            *r == old(self).id,
            *final(self) == (IntElement { id: *final(r), ..*old(self) }),
    {
        &mut self.id
    }

    pub fn set_id(&mut self, id: i16)
        ensures
            *final(self) == (IntElement { id: Some(id), ..*old(self) }),
    {
        self.id = Some(id);
    }

    pub fn get_value(&self) -> (r: &Option<u32>)
        ensures
            *r == self.value,
    {
        &self.value
    }

    pub fn get_value_mut(&mut self) -> (r: &mut Option<u32>)
        ensures
            *r == old(self).value,
            *final(self) == (IntElement { value: *final(r), ..*old(self) }),
    {
        &mut self.value
    }

    pub fn set_value(&mut self, value: Option<u32>)
        ensures
            *final(self) == (IntElement { value, ..*old(self) }),
    {
        self.value = value;
    }

    pub fn get_compare_operator(&self) -> (r: &IntOperator)
        ensures
            *r == self.compare_operator,
    {
        &self.compare_operator
    }

    pub fn get_compare_operator_mut(&mut self) -> (r: &mut IntOperator)
        ensures
            *r == old(self).compare_operator,
            *final(self) == (IntElement { compare_operator: *final(r), ..*old(self) }),
    {
        &mut self.compare_operator
    }

    pub fn set_compare_operator(&mut self, op: IntOperator)
        ensures
            *final(self) == (IntElement { compare_operator: op, ..*old(self) }),
    {
        self.compare_operator = op;
    }

    pub fn get_magnitude(&self) -> (r: &MagnitudeElement)
        ensures
            *r == self.magnitude,
    {
        &self.magnitude
    }

    pub fn get_magnitude_mut(&mut self) -> (r: &mut MagnitudeElement)
        ensures
            *r == old(self).magnitude,
            *final(self) == (IntElement { magnitude: *final(r), ..*old(self) }),
    {
        &mut self.magnitude
    }

    pub fn set_magnitude(&mut self, magnitude: MagnitudeElement)
        ensures
            *final(self) == (IntElement { magnitude, ..*old(self) }),
    {
        self.magnitude = magnitude;
    }

    /// Whether the candidate leaf `b` satisfies this request leaf under
    /// this leaf's operator, both literals normalized by their magnitudes;
    /// an absent literal on either side satisfies vacuously.
    pub fn compare(&self, b: &IntElement) -> (r: bool)
        ensures
            r == int_sat(*self, *b),
    {
        match (&self.value, &b.value) {
            (Some(va), Some(vb)) => {
                let x = crate::magnitude::scaled_value(*va, &self.magnitude.magnitude);
                let y = crate::magnitude::scaled_value(*vb, &b.magnitude.magnitude);
                match self.compare_operator {
                    IntOperator::leq => x <= y,
                    IntOperator::geq => x >= y,
                    IntOperator::eq => x == y,
                    IntOperator::le => x < y,
                    IntOperator::ge => x > y,
                }
            },
            _ => true,
        }
    }

    /// Compresses the nested magnitude leaf against the shared magnitude
    /// catalog; the numeric literal itself has no catalog and is untouched.
    pub fn compress_magnitude_with(&mut self, cat: &Vec<MagnitudeElement>)
        ensures
            *final(self) == old(self).spec_compress_magnitude(
                crate::magnitude::magnitude_catalog(cat@),
            ),
    {
        self.magnitude.compress_with(cat);
    }

    /// Decompresses the nested magnitude leaf against the shared magnitude
    /// catalog.
    pub fn decompress_magnitude_with(&mut self, cat: &Vec<MagnitudeElement>)
        ensures
            *final(self) == old(self).spec_decompress_magnitude(
                crate::magnitude::magnitude_catalog(cat@),
            ),
    {
        self.magnitude.decompress_with(cat);
    }
}

/// A decimal-quantity leaf. It reads exactly as [`IntElement`] does — an
/// unsigned literal normalized by a magnitude — so a fractional quantity is
/// expressed by an integer count at a smaller scale factor. Unlike the
/// plain numeric leaf, this kind is cataloged: the repository carries
/// catalogs for the fields of this kind, so it has its own dictionary
/// transforms.
#[derive(Clone, Copy, Debug, PartialEq, Eq, Structural)]
pub struct FloatElement {
    pub id: Option<i16>,
    pub value: Option<u32>,
    pub magnitude: MagnitudeElement,
    pub compare_operator: FloatOperator,
}

/// Whether the candidate leaf `b` satisfies the request leaf `a` under
/// `a`'s operator, both literals normalized by their magnitudes; vacuously
/// true when either literal is absent.
pub open spec fn float_sat(a: FloatElement, b: FloatElement) -> bool {
    match (a.value, b.value) {
        (Some(va), Some(vb)) => {
            let x = scaled(va, a.magnitude.magnitude);
            let y = scaled(vb, b.magnitude.magnitude);
            match a.compare_operator {
                FloatOperator::leq => x <= y,
                FloatOperator::geq => x >= y,
                FloatOperator::eq => x == y,
                FloatOperator::le => x < y,
                FloatOperator::ge => x > y,
            }
        },
        _ => true,
    }
}

/// A decimal-quantity catalog seen as a sequence of dictionary entries;
/// only the literal takes part, never the magnitude.
pub open spec fn float_catalog(cat: Seq<FloatElement>) -> Seq<Entry<u32>> {
    cat.map_values(|e: FloatElement| e.entry())
}

impl Default for FloatElement {
    /// A fresh leaf is fully unset and compares by equality.
    fn default() -> (r: FloatElement)
        ensures
            r == (FloatElement {
                id: None,
                value: None,
                magnitude: MagnitudeElement { id: None, magnitude: None },
                compare_operator: FloatOperator::eq,
            }),
    {
        FloatElement {
            id: None,
            value: None,
            magnitude: MagnitudeElement::new(None, None),
            compare_operator: FloatOperator::eq,
        }
    }
}

impl FloatElement {
    /// The dictionary model of this leaf: the literal alone is cataloged.
    pub open spec fn entry(self) -> Entry<u32> {
        Entry { id: self.id, value: self.value }
    }

    /// This leaf after compression of its literal against one catalog of
    /// its kind.
    pub open spec fn spec_compress(self, cat: Seq<Entry<u32>>) -> FloatElement {
        let en = compress_entry(self.entry(), cat);
        FloatElement { id: en.id, value: en.value, ..self }
    }

    /// This leaf after decompression of its literal against one catalog of
    /// its kind.
    pub open spec fn spec_decompress(self, cat: Seq<Entry<u32>>) -> FloatElement {
        let en = decompress_entry(self.entry(), cat);
        FloatElement { id: en.id, value: en.value, ..self }
    }

    /// This leaf with its nested magnitude compressed against the shared
    /// magnitude catalog.
    pub open spec fn spec_compress_magnitude(self, cat: Seq<Entry<Magnitude>>) -> FloatElement {
        FloatElement { magnitude: self.magnitude.spec_compress(cat), ..self }
    }

    /// This leaf with its nested magnitude decompressed against the shared
    /// magnitude catalog.
    pub open spec fn spec_decompress_magnitude(self, cat: Seq<Entry<Magnitude>>) -> FloatElement {
        FloatElement { magnitude: self.magnitude.spec_decompress(cat), ..self }
    }

    pub fn new(
        id: Option<i16>,
        value: Option<u32>,
        magnitude: MagnitudeElement,
        compare_operator: FloatOperator,
    ) -> (r: FloatElement)
        ensures
            r == (FloatElement { id, value, magnitude, compare_operator }),
    {
        FloatElement { id, value, magnitude, compare_operator }
    }

    pub fn get_id(&self) -> (r: &Option<i16>)
        ensures
            *r == self.id,
    {
        &self.id
    }

    pub fn get_id_mut(&mut self) -> (r: &mut Option<i16>)
        ensures
            *r == old(self).id,
            *final(self) == (FloatElement { id: *final(r), ..*old(self) }),
    {
        &mut self.id
    }

    pub fn set_id(&mut self, id: i16)
        ensures
            *final(self) == (FloatElement { id: Some(id), ..*old(self) }),
    {
        self.id = Some(id);
    }

    pub fn get_value(&self) -> (r: &Option<u32>)
        ensures
            *r == self.value,
    {
        &self.value
    }

    pub fn get_value_mut(&mut self) -> (r: &mut Option<u32>)
        ensures
            *r == old(self).value,
            *final(self) == (FloatElement { value: *final(r), ..*old(self) }),
    {
        &mut self.value
    }

    pub fn set_value(&mut self, value: Option<u32>)
        ensures
            *final(self) == (FloatElement { value, ..*old(self) }),
    {
        self.value = value;
    }

    pub fn get_compare_operator(&self) -> (r: &FloatOperator)
        ensures
            *r == self.compare_operator,
    {
        &self.compare_operator
    }

    pub fn get_compare_operator_mut(&mut self) -> (r: &mut FloatOperator)
        ensures
            *r == old(self).compare_operator,
            *final(self) == (FloatElement { compare_operator: *final(r), ..*old(self) }),
    {
        &mut self.compare_operator
    }

    pub fn set_compare_operator(&mut self, op: FloatOperator)
        ensures
            *final(self) == (FloatElement { compare_operator: op, ..*old(self) }),
    {
        self.compare_operator = op;
    }

    pub fn get_magnitude(&self) -> (r: &MagnitudeElement)
        ensures
            *r == self.magnitude,
    {
        &self.magnitude
    }

    pub fn get_magnitude_mut(&mut self) -> (r: &mut MagnitudeElement)
        ensures
            *r == old(self).magnitude,
            *final(self) == (FloatElement { magnitude: *final(r), ..*old(self) }),
    {
        &mut self.magnitude
    }

    pub fn set_magnitude(&mut self, magnitude: MagnitudeElement)
        ensures
            *final(self) == (FloatElement { magnitude, ..*old(self) }),
    {
        self.magnitude = magnitude;
    }

    /// Whether the candidate leaf `b` satisfies this request leaf under
    /// this leaf's operator, both literals normalized by their magnitudes;
    /// an absent literal on either side satisfies vacuously.
    pub fn compare(&self, b: &FloatElement) -> (r: bool)
        ensures
            r == float_sat(*self, *b),
    {
        match (&self.value, &b.value) {
            (Some(va), Some(vb)) => {
                let x = crate::magnitude::scaled_value(*va, &self.magnitude.magnitude);
                let y = crate::magnitude::scaled_value(*vb, &b.magnitude.magnitude);
                match self.compare_operator {
                    FloatOperator::leq => x <= y,
                    FloatOperator::geq => x >= y,
                    FloatOperator::eq => x == y,
                    FloatOperator::le => x < y,
                    FloatOperator::ge => x > y,
                }
            },
            _ => true,
        }
    }

    /// Compresses this leaf's literal against one catalog of its kind.
    pub fn compress_with(&mut self, cat: &Vec<FloatElement>)
        ensures
            *final(self) == old(self).spec_compress(float_catalog(cat@)),
    {
        let ghost ents = float_catalog(cat@);
        if let Some(my_val) = self.value {
            proof {
                assert(ents.skip(0) =~= ents);
            }
            let mut i: usize = 0;
            while i < cat.len()
                invariant
                    i <= cat.len(),
                    ents == float_catalog(cat@),
                    ents.len() == cat@.len(),
                    *self == *old(self),
                    self.value == Some(my_val),
                    find_value(ents, my_val) == find_value(ents.skip(i as int), my_val),
                decreases cat.len() - i,
            {
                proof {
                    lemma_skip_step(ents, i as int);
                    assert(ents[i as int] == cat@[i as int].entry());
                }
                let e = &cat[i];
                let hit = match e.value {
                    Some(ev) => ev == my_val,
                    None => false,
                };
                if hit {
                    match e.id {
                        Some(id) => {
                            self.id = Some(id);
                            self.value = None;
                        },
                        None => {},
                    }
                    return ;
                }
                i = i + 1;
            }
        }
    }

    /// Decompresses this leaf's literal against one catalog of its kind;
    /// the identifier is kept.
    pub fn decompress_with(&mut self, cat: &Vec<FloatElement>)
        ensures
            *final(self) == old(self).spec_decompress(float_catalog(cat@)),
    {
        let ghost ents = float_catalog(cat@);
        if let Some(my_id) = self.id {
            proof {
                assert(ents.skip(0) =~= ents);
            }
            let mut i: usize = 0;
            while i < cat.len()
                invariant
                    i <= cat.len(),
                    ents == float_catalog(cat@),
                    ents.len() == cat@.len(),
                    *self == *old(self),
                    self.id == Some(my_id),
                    lookup_id(ents, my_id) == lookup_id(ents.skip(i as int), my_id),
                decreases cat.len() - i,
            {
                proof {
                    lemma_skip_step(ents, i as int);
                    assert(ents[i as int] == cat@[i as int].entry());
                }
                let e = &cat[i];
                let hit = match e.id {
                    Some(eid) => eid == my_id,
                    None => false,
                };
                if hit {
                    match e.value {
                        Some(ev) => {
                            self.value = Some(ev);
                        },
                        None => {},
                    }
                    return ;
                }
                i = i + 1;
            }
        }
    }

    /// Compresses the nested magnitude leaf against the shared magnitude
    /// catalog.
    pub fn compress_magnitude_with(&mut self, cat: &Vec<MagnitudeElement>)
        ensures
            *final(self) == old(self).spec_compress_magnitude(
                crate::magnitude::magnitude_catalog(cat@),
            ),
    {
        self.magnitude.compress_with(cat);
    }

    /// Decompresses the nested magnitude leaf against the shared magnitude
    /// catalog.
    pub fn decompress_magnitude_with(&mut self, cat: &Vec<MagnitudeElement>)
        ensures
            *final(self) == old(self).spec_decompress_magnitude(
                crate::magnitude::magnitude_catalog(cat@),
            ),
    {
        self.magnitude.decompress_with(cat);
    }
}

/// An enumerated leaf: an optional symbol of a closed set and an optional
/// identifier. Such a leaf carries no operator — comparison is pure
/// equality of the underlying symbol.
#[derive(Clone, Copy, Debug, PartialEq, Eq, Structural)]
pub struct BasicElement<T> {
    pub id: Option<i16>,
    pub value: Option<T>,
}

/// Whether the candidate enumerated leaf `b` satisfies the request leaf
/// `a`: equality of the underlying symbols, vacuously true when either
/// symbol is absent.
pub open spec fn basic_sat<T>(a: BasicElement<T>, b: BasicElement<T>) -> bool {
    match (a.value, b.value) {
        (Some(x), Some(y)) => x == y,
        _ => true,
    }
}

/// An enumerated catalog seen as a sequence of dictionary entries.
pub open spec fn basic_catalog<T>(cat: Seq<BasicElement<T>>) -> Seq<Entry<T>> {
    cat.map_values(|e: BasicElement<T>| e.entry())
}

impl<T> BasicElement<T> {
    /// The dictionary model of this leaf.
    pub open spec fn entry(self) -> Entry<T> {
        Entry { id: self.id, value: self.value }
    }

    /// This leaf after compression of its symbol against one catalog of
    /// its kind.
    pub open spec fn spec_compress(self, cat: Seq<Entry<T>>) -> BasicElement<T> {
        let en = compress_entry(self.entry(), cat);
        BasicElement { id: en.id, value: en.value }
    }

    /// This leaf after decompression of its symbol against one catalog of
    /// its kind.
    pub open spec fn spec_decompress(self, cat: Seq<Entry<T>>) -> BasicElement<T> {
        let en = decompress_entry(self.entry(), cat);
        BasicElement { id: en.id, value: en.value }
    }

    pub fn new(id: Option<i16>, value: Option<T>) -> (r: BasicElement<T>)
        ensures
            r == (BasicElement { id, value }),
    {
        BasicElement { id, value }
    }

    pub fn get_id(&self) -> (r: &Option<i16>)
        ensures
            *r == self.id,
    {
        &self.id
    }

    pub fn get_id_mut(&mut self) -> (r: &mut Option<i16>)
        ensures
            *r == old(self).id,
            *final(self) == (BasicElement { id: *final(r), value: old(self).value }),
    {
        &mut self.id
    }

    pub fn set_id(&mut self, id: i16)
        ensures
            *final(self) == (BasicElement { id: Some(id), value: old(self).value }),
    {
        self.id = Some(id);
    }

    pub fn get_value(&self) -> (r: &Option<T>)
        ensures
            *r == self.value,
    {
        &self.value
    }

    pub fn get_value_mut(&mut self) -> (r: &mut Option<T>)
        ensures
            *r == old(self).value,
            *final(self) == (BasicElement { id: old(self).id, value: *final(r) }),
    {
        &mut self.value
    }

    pub fn set_value(&mut self, value: Option<T>)
        ensures
            *final(self) == (BasicElement { id: old(self).id, value }),
    {
        self.value = value;
    }
}

impl BasicElement<InstructionSet> {
    /// Whether the candidate leaf `b` satisfies this request leaf: pure
    /// equality of the underlying symbols, vacuously true when either
    /// symbol is absent. The leaf carries no operator to consult.
    pub fn compare(&self, b: &BasicElement<InstructionSet>) -> (r: bool)
        ensures
            r == basic_sat(*self, *b),
    {
        match (self.value, b.value) {
            (Some(x), Some(y)) => x == y,
            _ => true,
        }
    }

    /// Compresses this leaf's symbol against one catalog of its kind.
    pub fn compress_with(&mut self, cat: &Vec<BasicElement<InstructionSet>>)
        ensures
            *final(self) == old(self).spec_compress(basic_catalog(cat@)),
    {
        let ghost ents = basic_catalog(cat@);
        if let Some(my_val) = self.value {
            proof {
                assert(ents.skip(0) =~= ents);
            }
            let mut i: usize = 0;
            while i < cat.len()
                invariant
                    i <= cat.len(),
                    ents == basic_catalog(cat@),
                    ents.len() == cat@.len(),
                    *self == *old(self),
                    self.value == Some(my_val),
                    find_value(ents, my_val) == find_value(ents.skip(i as int), my_val),
                decreases cat.len() - i,
            {
                proof {
                    lemma_skip_step(ents, i as int);
                    assert(ents[i as int] == cat@[i as int].entry());
                }
                let e = &cat[i];
                let hit = match e.value {
                    Some(ev) => ev == my_val,
                    _ => false,
                };
                if hit {
                    match e.id {
                        Some(id) => {
                            self.id = Some(id);
                            self.value = None;
                        },
                        None => {},
                    }
                    return ;
                }
                i = i + 1;
            }
        }
    }

    /// Decompresses this leaf's symbol against one catalog of its kind;
    /// the identifier is kept.
    pub fn decompress_with(&mut self, cat: &Vec<BasicElement<InstructionSet>>)
        ensures
            *final(self) == old(self).spec_decompress(basic_catalog(cat@)),
    {
        let ghost ents = basic_catalog(cat@);
        if let Some(my_id) = self.id {
            proof {
                assert(ents.skip(0) =~= ents);
            }
            let mut i: usize = 0;
            while i < cat.len()
                invariant
                    i <= cat.len(),
                    ents == basic_catalog(cat@),
                    ents.len() == cat@.len(),
                    *self == *old(self),
                    self.id == Some(my_id),
                    lookup_id(ents, my_id) == lookup_id(ents.skip(i as int), my_id),
                decreases cat.len() - i,
            {
                proof {
                    lemma_skip_step(ents, i as int);
                    assert(ents[i as int] == cat@[i as int].entry());
                }
                let e = &cat[i];
                let hit = match e.id {
                    Some(eid) => eid == my_id,
                    None => false,
                };
                if hit {
                    match e.value {
                        Some(ev) => {
                            self.value = Some(ev);
                        },
                        None => {},
                    }
                    return ;
                }
                i = i + 1;
            }
        }
    }
}

impl BasicElement<MemoryGeneration> {
    /// Whether the candidate leaf `b` satisfies this request leaf: pure
    /// equality of the underlying symbols, vacuously true when either
    /// symbol is absent. The leaf carries no operator to consult.
    pub fn compare(&self, b: &BasicElement<MemoryGeneration>) -> (r: bool)
        ensures
            r == basic_sat(*self, *b),
    {
        match (self.value, b.value) {
            (Some(x), Some(y)) => x == y,
            _ => true,
        }
    }

    /// Compresses this leaf's symbol against one catalog of its kind.
    pub fn compress_with(&mut self, cat: &Vec<BasicElement<MemoryGeneration>>)
        ensures
            *final(self) == old(self).spec_compress(basic_catalog(cat@)),
    {
        let ghost ents = basic_catalog(cat@);
        if let Some(my_val) = self.value {
            proof {
                assert(ents.skip(0) =~= ents);
            }
            let mut i: usize = 0;
            while i < cat.len()
                invariant
                    i <= cat.len(),
                    ents == basic_catalog(cat@),
                    ents.len() == cat@.len(),
                    *self == *old(self),
                    self.value == Some(my_val),
                    find_value(ents, my_val) == find_value(ents.skip(i as int), my_val),
                decreases cat.len() - i,
            {
                proof {
                    lemma_skip_step(ents, i as int);
                    assert(ents[i as int] == cat@[i as int].entry());
                }
                let e = &cat[i];
                let hit = match e.value {
                    Some(ev) => ev == my_val,
                    _ => false,
                };
                if hit {
                    match e.id {
                        Some(id) => {
                            self.id = Some(id);
                            self.value = None;
                        },
                        None => {},
                    }
                    return ;
                }
                i = i + 1;
            }
        }
    }

    /// Decompresses this leaf's symbol against one catalog of its kind;
    /// the identifier is kept.
    pub fn decompress_with(&mut self, cat: &Vec<BasicElement<MemoryGeneration>>)
        ensures
            *final(self) == old(self).spec_decompress(basic_catalog(cat@)),
    {
        let ghost ents = basic_catalog(cat@);
        if let Some(my_id) = self.id {
            proof {
                assert(ents.skip(0) =~= ents);
            }
            let mut i: usize = 0;
            while i < cat.len()
                invariant
                    i <= cat.len(),
                    ents == basic_catalog(cat@),
                    ents.len() == cat@.len(),
                    *self == *old(self),
                    self.id == Some(my_id),
                    lookup_id(ents, my_id) == lookup_id(ents.skip(i as int), my_id),
                decreases cat.len() - i,
            {
                proof {
                    lemma_skip_step(ents, i as int);
                    assert(ents[i as int] == cat@[i as int].entry());
                }
                let e = &cat[i];
                let hit = match e.id {
                    Some(eid) => eid == my_id,
                    None => false,
                };
                if hit {
                    match e.value {
                        Some(ev) => {
                            self.value = Some(ev);
                        },
                        None => {},
                    }
                    return ;
                }
                i = i + 1;
            }
        }
    }
}

impl BasicElement<DiskType> {
    /// Whether the candidate leaf `b` satisfies this request leaf: pure
    /// equality of the underlying symbols, vacuously true when either
    /// symbol is absent. The leaf carries no operator to consult.
    pub fn compare(&self, b: &BasicElement<DiskType>) -> (r: bool)
        ensures
            r == basic_sat(*self, *b),
    {
        match (self.value, b.value) {
            (Some(x), Some(y)) => x == y,
            _ => true,
        }
    }

    /// Compresses this leaf's symbol against one catalog of its kind.
    pub fn compress_with(&mut self, cat: &Vec<BasicElement<DiskType>>)
        ensures
            *final(self) == old(self).spec_compress(basic_catalog(cat@)),
    {
        let ghost ents = basic_catalog(cat@);
        if let Some(my_val) = self.value {
            proof {
                assert(ents.skip(0) =~= ents);
            }
            let mut i: usize = 0;
            while i < cat.len()
                invariant
                    i <= cat.len(),
                    ents == basic_catalog(cat@),
                    ents.len() == cat@.len(),
                    *self == *old(self),
                    self.value == Some(my_val),
                    find_value(ents, my_val) == find_value(ents.skip(i as int), my_val),
                decreases cat.len() - i,
            {
                proof {
                    lemma_skip_step(ents, i as int);
                    assert(ents[i as int] == cat@[i as int].entry());
                }
                let e = &cat[i];
                let hit = match e.value {
                    Some(ev) => ev == my_val,
                    _ => false,
                };
                if hit {
                    match e.id {
                        Some(id) => {
                            self.id = Some(id);
                            self.value = None;
                        },
                        None => {},
                    }
                    return ;
                }
                i = i + 1;
            }
        }
    }

    /// Decompresses this leaf's symbol against one catalog of its kind;
    /// the identifier is kept.
    pub fn decompress_with(&mut self, cat: &Vec<BasicElement<DiskType>>)
        ensures
            *final(self) == old(self).spec_decompress(basic_catalog(cat@)),
    {
        let ghost ents = basic_catalog(cat@);
        if let Some(my_id) = self.id {
            proof {
                assert(ents.skip(0) =~= ents);
            }
            let mut i: usize = 0;
            while i < cat.len()
                invariant
                    i <= cat.len(),
                    ents == basic_catalog(cat@),
                    ents.len() == cat@.len(),
                    *self == *old(self),
                    self.id == Some(my_id),
                    lookup_id(ents, my_id) == lookup_id(ents.skip(i as int), my_id),
                decreases cat.len() - i,
            {
                proof {
                    lemma_skip_step(ents, i as int);
                    assert(ents[i as int] == cat@[i as int].entry());
                }
                let e = &cat[i];
                let hit = match e.id {
                    Some(eid) => eid == my_id,
                    None => false,
                };
                if hit {
                    match e.value {
                        Some(ev) => {
                            self.value = Some(ev);
                        },
                        None => {},
                    }
                    return ;
                }
                i = i + 1;
            }
        }
    }
}

/// The storage technology of a disk.
#[derive(Clone, Copy, Debug, PartialEq, Eq, Structural)]
pub enum DiskType {
    HDD,
    SSD,
}

impl DiskType {
    /// Parses a type tag. Text that names no recognized symbol is rejected
    /// with a typed error, never silently replaced by a default.
    pub fn from_text(s: &str) -> (r: Result<DiskType, OntologyError>)
        ensures
            s@ == "HDD"@ ==> r == Ok::<DiskType, OntologyError>(DiskType::HDD),
            s@ == "SSD"@ ==> r == Ok::<DiskType, OntologyError>(DiskType::SSD),
            r is Err <==> s@ != "HDD"@ && s@ != "SSD"@,
            r is Err ==> r == Err::<DiskType, OntologyError>(OntologyError::UnknownEnumLiteral),
    {
        proof {
            reveal_strlit("HDD");
            reveal_strlit("SSD");
            assert("HDD"@[0] == 'H' && "SSD"@[0] == 'S');
            assert("HDD"@ != "SSD"@);
        }
        if str_eq(s, "HDD") {
            Ok(DiskType::HDD)
        } else if str_eq(s, "SSD") {
            Ok(DiskType::SSD)
        } else {
            Err(OntologyError::UnknownEnumLiteral)
        }
    }
}

/// An instruction-set extension a processor may offer.
#[allow(non_camel_case_types)]
#[derive(Clone, Copy, Debug, PartialEq, Eq, Structural)]
pub enum InstructionSet {
    MMX,
    SSE,
    SSE2,
    SSE3,
    SSSE3,
    SSE4a,
    SSE4_1,
    SSE4_2,
    AVX,
    AVX2,
    FMA3,
    F16C,
    AES,
    AES_NI,
    BMI1,
    BMI2,
}

impl InstructionSet {
    /// Parses an extension tag. Text that names no recognized symbol is
    /// rejected with a typed error, never silently replaced by a default.
    pub fn from_text(s: &str) -> (r: Result<InstructionSet, OntologyError>)
        ensures
            s@ == "MMX"@ ==> r == Ok::<InstructionSet, OntologyError>(InstructionSet::MMX),
            s@ == "SSE"@ ==> r == Ok::<InstructionSet, OntologyError>(InstructionSet::SSE),
            s@ == "SSE2"@ ==> r == Ok::<InstructionSet, OntologyError>(InstructionSet::SSE2),
            s@ == "SSE3"@ ==> r == Ok::<InstructionSet, OntologyError>(InstructionSet::SSE3),
            s@ == "SSSE3"@ ==> r == Ok::<InstructionSet, OntologyError>(InstructionSet::SSSE3),
            s@ == "SSE4a"@ ==> r == Ok::<InstructionSet, OntologyError>(InstructionSet::SSE4a),
            s@ == "SSE4.1"@ ==> r == Ok::<InstructionSet, OntologyError>(InstructionSet::SSE4_1),
            s@ == "SSE4.2"@ ==> r == Ok::<InstructionSet, OntologyError>(InstructionSet::SSE4_2),
            s@ == "AVX"@ ==> r == Ok::<InstructionSet, OntologyError>(InstructionSet::AVX),
            s@ == "AVX2"@ ==> r == Ok::<InstructionSet, OntologyError>(InstructionSet::AVX2),
            s@ == "FMA3"@ ==> r == Ok::<InstructionSet, OntologyError>(InstructionSet::FMA3),
            s@ == "F16C"@ ==> r == Ok::<InstructionSet, OntologyError>(InstructionSet::F16C),
            s@ == "AES"@ ==> r == Ok::<InstructionSet, OntologyError>(InstructionSet::AES),
            s@ == "AES-NI"@ ==> r == Ok::<InstructionSet, OntologyError>(InstructionSet::AES_NI),
            s@ == "BMI1"@ ==> r == Ok::<InstructionSet, OntologyError>(InstructionSet::BMI1),
            s@ == "BMI2"@ ==> r == Ok::<InstructionSet, OntologyError>(InstructionSet::BMI2),
            r is Err <==> s@ != "MMX"@ && s@ != "SSE"@ && s@ != "SSE2"@ && s@ != "SSE3"@ && s@
                != "SSSE3"@ && s@ != "SSE4a"@ && s@ != "SSE4.1"@ && s@ != "SSE4.2"@ && s@ != "AVX"@
                && s@ != "AVX2"@ && s@ != "FMA3"@ && s@ != "F16C"@ && s@ != "AES"@ && s@
                != "AES-NI"@ && s@ != "BMI1"@ && s@ != "BMI2"@,
            r is Err ==> r == Err::<InstructionSet, OntologyError>(
                OntologyError::UnknownEnumLiteral,
            ),
    {
        proof {
            reveal_strlit("MMX");
            reveal_strlit("SSE");
            reveal_strlit("SSE2");
            reveal_strlit("SSE3");
            reveal_strlit("SSSE3");
            reveal_strlit("SSE4a");
            reveal_strlit("SSE4.1");
            reveal_strlit("SSE4.2");
            reveal_strlit("AVX");
            reveal_strlit("AVX2");
            reveal_strlit("FMA3");
            reveal_strlit("F16C");
            reveal_strlit("AES");
            reveal_strlit("AES-NI");
            reveal_strlit("BMI1");
            reveal_strlit("BMI2");
            assert("MMX"@.len() == 3 && "SSE"@.len() == 3 && "SSE2"@.len() == 4 && "SSE3"@.len()
                == 4 && "SSSE3"@.len() == 5 && "SSE4a"@.len() == 5 && "SSE4.1"@.len() == 6
                && "SSE4.2"@.len() == 6 && "AVX"@.len() == 3 && "AVX2"@.len() == 4
                && "FMA3"@.len() == 4 && "F16C"@.len() == 4 && "AES"@.len() == 3
                && "AES-NI"@.len() == 6 && "BMI1"@.len() == 4 && "BMI2"@.len() == 4);
            assert("MMX"@[0] == 'M' && "SSE"@[0] == 'S' && "AVX"@[0] == 'A' && "AES"@[0] == 'A'
                && "AVX"@[1] == 'V' && "AES"@[1] == 'E');
            assert("SSE2"@[3] == '2' && "SSE3"@[3] == '3' && "AVX2"@[0] == 'A' && "FMA3"@[0]
                == 'F' && "F16C"@[1] == '1' && "FMA3"@[1] == 'M' && "BMI1"@[0] == 'B'
                && "BMI2"@[0] == 'B' && "BMI1"@[3] == '1' && "BMI2"@[3] == '2' && "SSE2"@[0]
                == 'S' && "SSE3"@[0] == 'S' && "F16C"@[0] == 'F');
            assert("SSSE3"@[1] == 'S' && "SSE4a"@[1] == 'S' && "SSSE3"@[2] == 'S' && "SSE4a"@[2]
                == 'E');
            assert("SSE4.1"@[5] == '1' && "SSE4.2"@[5] == '2' && "AES-NI"@[0] == 'A'
                && "SSE4.1"@[0] == 'S' && "SSE4.2"@[0] == 'S');
        }
        if str_eq(s, "MMX") {
            Ok(InstructionSet::MMX)
        } else if str_eq(s, "SSE") {
            Ok(InstructionSet::SSE)
        } else if str_eq(s, "SSE2") {
            Ok(InstructionSet::SSE2)
        } else if str_eq(s, "SSE3") {
            Ok(InstructionSet::SSE3)
        } else if str_eq(s, "SSSE3") {
            Ok(InstructionSet::SSSE3)
        } else if str_eq(s, "SSE4a") {
            Ok(InstructionSet::SSE4a)
        } else if str_eq(s, "SSE4.1") {
            Ok(InstructionSet::SSE4_1)
        } else if str_eq(s, "SSE4.2") {
            Ok(InstructionSet::SSE4_2)
        } else if str_eq(s, "AVX") {
            Ok(InstructionSet::AVX)
        } else if str_eq(s, "AVX2") {
            Ok(InstructionSet::AVX2)
        } else if str_eq(s, "FMA3") {
            Ok(InstructionSet::FMA3)
        } else if str_eq(s, "F16C") {
            Ok(InstructionSet::F16C)
        } else if str_eq(s, "AES") {
            Ok(InstructionSet::AES)
        } else if str_eq(s, "AES-NI") {
            Ok(InstructionSet::AES_NI)
        } else if str_eq(s, "BMI1") {
            Ok(InstructionSet::BMI1)
        } else if str_eq(s, "BMI2") {
            Ok(InstructionSet::BMI2)
        } else {
            Err(OntologyError::UnknownEnumLiteral)
        }
    }
}

/// The generation of a memory module. The set is totally ordered; a
/// request names the minimum generation it will accept.
#[derive(Clone, Copy, Debug, PartialEq, Eq, Structural)]
pub enum MemoryGeneration {
    DDRRAM,
    DDR2RAM,
    DDR3RAM,
    DDR4RAM,
}

/// The rank of a generation in the total order, oldest first.
pub open spec fn generation_rank(g: MemoryGeneration) -> int {
    match g {
        MemoryGeneration::DDRRAM => 0,
        MemoryGeneration::DDR2RAM => 1,
        MemoryGeneration::DDR3RAM => 2,
        MemoryGeneration::DDR4RAM => 3,
    }
}

impl MemoryGeneration {
    /// Parses a generation tag. Text that names no recognized symbol is
    /// rejected with a typed error, never silently replaced by a default.
    pub fn from_text(s: &str) -> (r: Result<MemoryGeneration, OntologyError>)
        ensures
            s@ == "DDRRAM"@ ==> r == Ok::<MemoryGeneration, OntologyError>(
                MemoryGeneration::DDRRAM,
            ),
            s@ == "DDR2RAM"@ ==> r == Ok::<MemoryGeneration, OntologyError>(
                MemoryGeneration::DDR2RAM,
            ),
            s@ == "DDR3RAM"@ ==> r == Ok::<MemoryGeneration, OntologyError>(
                MemoryGeneration::DDR3RAM,
            ),
            s@ == "DDR4RAM"@ ==> r == Ok::<MemoryGeneration, OntologyError>(
                MemoryGeneration::DDR4RAM,
            ),
            r is Err <==> s@ != "DDRRAM"@ && s@ != "DDR2RAM"@ && s@ != "DDR3RAM"@ && s@
                != "DDR4RAM"@,
            r is Err ==> r == Err::<MemoryGeneration, OntologyError>(
                OntologyError::UnknownEnumLiteral,
            ),
    {
        proof {
            reveal_strlit("DDRRAM");
            reveal_strlit("DDR2RAM");
            reveal_strlit("DDR3RAM");
            reveal_strlit("DDR4RAM");
            assert("DDRRAM"@.len() == 6 && "DDR2RAM"@.len() == 7 && "DDR3RAM"@.len() == 7
                && "DDR4RAM"@.len() == 7);
            assert("DDR2RAM"@[3] == '2' && "DDR3RAM"@[3] == '3' && "DDR4RAM"@[3] == '4');
        }
        if str_eq(s, "DDRRAM") {
            Ok(MemoryGeneration::DDRRAM)
        } else if str_eq(s, "DDR2RAM") {
            Ok(MemoryGeneration::DDR2RAM)
        } else if str_eq(s, "DDR3RAM") {
            Ok(MemoryGeneration::DDR3RAM)
        } else if str_eq(s, "DDR4RAM") {
            Ok(MemoryGeneration::DDR4RAM)
        } else {
            Err(OntologyError::UnknownEnumLiteral)
        }
    }

    /// The display text of a generation.
    pub fn as_text(&self) -> (r: String)
        ensures
            *self == MemoryGeneration::DDRRAM ==> r@ == "DDR-RAM"@,
            *self == MemoryGeneration::DDR2RAM ==> r@ == "DDR2-RAM"@,
            *self == MemoryGeneration::DDR3RAM ==> r@ == "DDR3-RAM"@,
            *self == MemoryGeneration::DDR4RAM ==> r@ == "DDR4-RAM"@,
    {
        match self {
            MemoryGeneration::DDRRAM => "DDR-RAM".to_owned(),
            MemoryGeneration::DDR2RAM => "DDR2-RAM".to_owned(),
            MemoryGeneration::DDR3RAM => "DDR3-RAM".to_owned(),
            MemoryGeneration::DDR4RAM => "DDR4-RAM".to_owned(),
        }
    }

    /// The rank of this generation in the total order, oldest first.
    pub fn rank(&self) -> (r: u8)
        ensures
            r as int == generation_rank(*self),
    {
        match self {
            MemoryGeneration::DDRRAM => 0,
            MemoryGeneration::DDR2RAM => 1,
            MemoryGeneration::DDR3RAM => 2,
            MemoryGeneration::DDR4RAM => 3,
        }
    }
}

} // verus!
