use ontology::basic_elements::{BasicElement, FloatElement, FloatOperator, InstructionSet,
    IntElement, IntOperator, MemoryGeneration, StringElement, StringOperator};
use ontology::magnitude::{Magnitude, MagnitudeElement};
use ontology::ontology::{comparing, Disk, Memory, Offer, Payment, Violation, CPU};

fn int_leaf(value: u32, magnitude: Option<Magnitude>, op: IntOperator) -> IntElement {
    IntElement {
        id: None,
        value: Some(value),
        magnitude: MagnitudeElement { id: None, magnitude },
        compare_operator: op,
    }
}

fn float_leaf(value: u32, magnitude: Option<Magnitude>, op: FloatOperator) -> FloatElement {
    FloatElement {
        id: None,
        value: Some(value),
        magnitude: MagnitudeElement { id: None, magnitude },
        compare_operator: op,
    }
}

fn string_leaf(value: &str, op: StringOperator) -> StringElement {
    StringElement { id: None, value: Some(value.to_string()), compare_operator: op }
}

fn minimal_offer() -> Offer {
    Offer {
        host: string_leaf("host-a", StringOperator::eq),
        ontology_version: float_leaf(1, None, FloatOperator::eq),
        repository_version: float_leaf(1, None, FloatOperator::eq),
        timeout: int_leaf(10, None, IntOperator::eq),
        operating_system: None,
        network_interface: None,
        virtualization: None,
        cpu: None,
        memory: None,
        disk: None,
        application: None,
        payment: None,
    }
}

#[test]
fn numeric_eq_is_reflexive_under_any_magnitude() {
    let a = int_leaf(42, Some(Magnitude::mega), IntOperator::eq);
    assert!(a.compare(&a));
    let b = int_leaf(7, None, IntOperator::eq);
    assert!(b.compare(&b));
}

#[test]
fn unit_normalization_equates_across_magnitudes() {
    let a = int_leaf(5000, None, IntOperator::eq);
    let b = int_leaf(5, Some(Magnitude::kilo), IntOperator::eq);
    assert!(a.compare(&b));
    let c = int_leaf(6, Some(Magnitude::kilo), IntOperator::eq);
    assert!(!a.compare(&c));
}

#[test]
fn unit_normalization_on_decimal_leaves() {
    let a = float_leaf(1, Some(Magnitude::giga), FloatOperator::eq);
    let b = float_leaf(1000, Some(Magnitude::mega), FloatOperator::eq);
    assert!(a.compare(&b));
}

#[test]
fn strict_and_inclusive_numeric_operators() {
    let five = int_leaf(5, None, IntOperator::leq);
    let also_five = int_leaf(5, None, IntOperator::eq);
    assert!(five.compare(&also_five));

    let strict_five = int_leaf(5, None, IntOperator::le);
    assert!(!strict_five.compare(&also_five));

    let geq_five = int_leaf(5, None, IntOperator::geq);
    assert!(geq_five.compare(&also_five));

    let ge_five = int_leaf(5, None, IntOperator::ge);
    assert!(!ge_five.compare(&also_five));

    let le_four = int_leaf(4, None, IntOperator::le);
    assert!(le_four.compare(&also_five));

    let ge_six = int_leaf(6, None, IntOperator::ge);
    assert!(ge_six.compare(&also_five));
}

#[test]
fn unset_numeric_leaf_satisfies_vacuously() {
    let unset = IntElement {
        id: None,
        value: None,
        magnitude: MagnitudeElement { id: None, magnitude: None },
        compare_operator: IntOperator::eq,
    };
    let five = int_leaf(5, None, IntOperator::eq);
    assert!(unset.compare(&five));
    assert!(five.compare(&unset));
}

#[test]
fn string_comparison_exact_and_case_folded() {
    let upper = string_leaf("ABC", StringOperator::lowerCaseEq);
    let lower = string_leaf("abc", StringOperator::lowerCaseEq);
    assert!(upper.compare(&lower));

    let upper_exact = string_leaf("ABC", StringOperator::eq);
    let lower_exact = string_leaf("abc", StringOperator::eq);
    assert!(!upper_exact.compare(&lower_exact));
    assert!(upper_exact.compare(&upper_exact));
}

#[test]
fn instruction_set_subset_rule() {
    let request = CPU {
        manufacturer: None,
        amount: None,
        frequency: None,
        instruction_set: vec![
            BasicElement { id: None, value: Some(InstructionSet::SSE) },
            BasicElement { id: None, value: Some(InstructionSet::SSE2) },
        ],
    };
    let rich_candidate = CPU {
        manufacturer: None,
        amount: None,
        frequency: None,
        instruction_set: vec![
            BasicElement { id: None, value: Some(InstructionSet::SSE) },
            BasicElement { id: None, value: Some(InstructionSet::SSE2) },
            BasicElement { id: None, value: Some(InstructionSet::AVX) },
        ],
    };
    let poor_candidate = CPU {
        manufacturer: None,
        amount: None,
        frequency: None,
        instruction_set: vec![BasicElement { id: None, value: Some(InstructionSet::SSE) }],
    };
    assert!(request.compare(&rich_candidate));
    assert!(!request.compare(&poor_candidate));
}

#[test]
fn memory_generation_is_an_at_least_requirement() {
    let request = Memory {
        size: None,
        generation: Some(BasicElement { id: None, value: Some(MemoryGeneration::DDR3RAM) }),
    };
    let newer = Memory {
        size: None,
        generation: Some(BasicElement { id: None, value: Some(MemoryGeneration::DDR4RAM) }),
    };
    let older = Memory {
        size: None,
        generation: Some(BasicElement { id: None, value: Some(MemoryGeneration::DDR2RAM) }),
    };
    let same = Memory {
        size: None,
        generation: Some(BasicElement { id: None, value: Some(MemoryGeneration::DDR3RAM) }),
    };
    assert!(request.compare(&newer));
    assert!(!request.compare(&older));
    assert!(request.compare(&same));
}

#[test]
fn disk_list_existential_rule() {
    let disk_a = Disk {
        disk_type: None,
        size: Some(int_leaf(100, None, IntOperator::leq)),
        performance: None,
    };
    let disk_b = Disk {
        disk_type: None,
        size: Some(int_leaf(200, None, IntOperator::leq)),
        performance: None,
    };
    // One candidate disk large enough for both request disks.
    let disk_c = Disk {
        disk_type: None,
        size: Some(int_leaf(500, None, IntOperator::eq)),
        performance: None,
    };
    // A candidate disk satisfying only the first request disk.
    let disk_small = Disk {
        disk_type: None,
        size: Some(int_leaf(150, None, IntOperator::eq)),
        performance: None,
    };

    let mut request = minimal_offer();
    request.disk = Some(vec![disk_a.clone(), disk_b.clone()]);

    let mut generous = minimal_offer();
    generous.disk = Some(vec![disk_c]);
    let (ok, violations) = comparing(&request, &generous);
    assert!(ok);
    assert!(violations.is_empty());

    let mut stingy = minimal_offer();
    stingy.disk = Some(vec![disk_small]);
    let (ok, violations) = comparing(&request, &stingy);
    assert!(!ok);
    assert!(violations.contains(&Violation::Disk));
}

#[test]
fn absent_payment_passes_vacuously() {
    let request = minimal_offer();
    let mut candidate = minimal_offer();
    candidate.payment = Some(Payment {
        price: Some(int_leaf(99, None, IntOperator::eq)),
        currency: Some(string_leaf("EUR", StringOperator::eq)),
    });
    let (ok, violations) = comparing(&request, &candidate);
    assert!(ok);
    assert!(!violations.contains(&Violation::Payment));
}

#[test]
fn host_mismatch_is_reported_as_violation() {
    let request = minimal_offer();
    let mut candidate = minimal_offer();
    candidate.host = string_leaf("host-b", StringOperator::eq);
    let (ok, violations) = comparing(&request, &candidate);
    assert!(!ok);
    assert!(violations.contains(&Violation::Host));
    assert!(!violations.contains(&Violation::Cpu));
    assert_eq!(violations.len(), 1);
}

#[test]
fn every_failing_field_is_reported() {
    let mut request = minimal_offer();
    request.memory = Some(Memory {
        size: None,
        generation: Some(BasicElement { id: None, value: Some(MemoryGeneration::DDR4RAM) }),
    });
    let mut candidate = minimal_offer();
    candidate.host = string_leaf("host-b", StringOperator::eq);
    candidate.memory = Some(Memory {
        size: None,
        generation: Some(BasicElement { id: None, value: Some(MemoryGeneration::DDR2RAM) }),
    });
    let (ok, violations) = comparing(&request, &candidate);
    assert!(!ok);
    assert!(violations.contains(&Violation::Host));
    assert!(violations.contains(&Violation::Memory));
    assert_eq!(violations.len(), 2);
}

#[test]
fn version_mismatch_is_reported_per_field() {
    let request = minimal_offer();
    let mut candidate = minimal_offer();
    candidate.ontology_version = float_leaf(2, None, FloatOperator::eq);
    let (ok, violations) = comparing(&request, &candidate);
    assert!(!ok);
    assert!(violations.contains(&Violation::OntologyVersion));
    assert!(!violations.contains(&Violation::RepositoryVersion));
}
