use ontology::basic_elements::{DiskType, FloatOperator, InstructionSet, IntOperator,
    MemoryGeneration, StringOperator};
use ontology::magnitude::{Magnitude, MagnitudeElement};
use ontology::OntologyError;

#[test]
fn string_operator_from_text() {
    assert_eq!(StringOperator::from_text("eq"), Ok(StringOperator::eq));
    assert_eq!(StringOperator::from_text("lowerCaseEq"), Ok(StringOperator::lowerCaseEq));
    assert_eq!(
        StringOperator::from_text("contains"),
        Err(OntologyError::UnknownEnumLiteral)
    );
}

#[test]
fn int_operator_from_text() {
    assert_eq!(IntOperator::from_text("leq"), Ok(IntOperator::leq));
    assert_eq!(IntOperator::from_text("geq"), Ok(IntOperator::geq));
    assert_eq!(IntOperator::from_text("eq"), Ok(IntOperator::eq));
    assert_eq!(IntOperator::from_text("le"), Ok(IntOperator::le));
    assert_eq!(IntOperator::from_text("ge"), Ok(IntOperator::ge));
    assert_eq!(IntOperator::from_text("lt"), Err(OntologyError::UnknownEnumLiteral));
}

#[test]
fn float_operator_from_text() {
    assert_eq!(FloatOperator::from_text("leq"), Ok(FloatOperator::leq));
    assert_eq!(FloatOperator::from_text("ge"), Ok(FloatOperator::ge));
    assert_eq!(FloatOperator::from_text(""), Err(OntologyError::UnknownEnumLiteral));
}

#[test]
fn disk_type_from_text() {
    assert_eq!(DiskType::from_text("HDD"), Ok(DiskType::HDD));
    assert_eq!(DiskType::from_text("SSD"), Ok(DiskType::SSD));
    assert_eq!(DiskType::from_text("NVME"), Err(OntologyError::UnknownEnumLiteral));
}

#[test]
fn instruction_set_from_text() {
    assert_eq!(InstructionSet::from_text("MMX"), Ok(InstructionSet::MMX));
    assert_eq!(InstructionSet::from_text("SSE4.1"), Ok(InstructionSet::SSE4_1));
    assert_eq!(InstructionSet::from_text("SSE4.2"), Ok(InstructionSet::SSE4_2));
    assert_eq!(InstructionSet::from_text("AES-NI"), Ok(InstructionSet::AES_NI));
    assert_eq!(InstructionSet::from_text("BMI2"), Ok(InstructionSet::BMI2));
    assert_eq!(
        InstructionSet::from_text("SSE5"),
        Err(OntologyError::UnknownEnumLiteral)
    );
}

#[test]
fn memory_generation_from_text_and_text() {
    assert_eq!(MemoryGeneration::from_text("DDRRAM"), Ok(MemoryGeneration::DDRRAM));
    assert_eq!(MemoryGeneration::from_text("DDR4RAM"), Ok(MemoryGeneration::DDR4RAM));
    assert_eq!(
        MemoryGeneration::from_text("DDR5RAM"),
        Err(OntologyError::UnknownEnumLiteral)
    );
    assert_eq!(MemoryGeneration::DDRRAM.as_text(), "DDR-RAM");
    assert_eq!(MemoryGeneration::DDR3RAM.as_text(), "DDR3-RAM");
}

#[test]
fn defaults_are_unset_with_eq_operator() {
    assert_eq!(Magnitude::default(), Magnitude::none);
    let m = MagnitudeElement::default();
    assert_eq!(m.id, None);
    assert_eq!(m.magnitude, None);
    assert_eq!(StringOperator::default(), StringOperator::eq);
    assert_eq!(IntOperator::default(), IntOperator::eq);
    assert_eq!(FloatOperator::default(), FloatOperator::eq);
    let e = ontology::basic_elements::IntElement::default();
    assert_eq!(e.value, None);
    assert_eq!(e.compare_operator, IntOperator::eq);
    let f = ontology::basic_elements::FloatElement::default();
    assert_eq!(f.value, None);
    assert_eq!(f.compare_operator, FloatOperator::eq);
}
