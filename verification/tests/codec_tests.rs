use ontology::basic_elements::{BasicElement, DiskType, FloatElement, FloatOperator,
    InstructionSet, IntElement, IntOperator, StringElement, StringOperator};
use ontology::magnitude::{Magnitude, MagnitudeElement};
use ontology::ontology::{Disk, Memory, Offer, Offers, CPU};
use ontology::repository::{CPURepo, DiskRepo, MemoryRepo, OperatingSystemRepo, Repository,
    VirtualizationRepo};

fn string_entry(id: i16, value: &str) -> StringElement {
    StringElement { id: Some(id), value: Some(value.to_string()), compare_operator: StringOperator::eq }
}

fn float_entry(id: i16, value: u32) -> FloatElement {
    FloatElement {
        id: Some(id),
        value: Some(value),
        magnitude: MagnitudeElement { id: None, magnitude: None },
        compare_operator: FloatOperator::eq,
    }
}

fn small_repo() -> Repository {
    Repository {
        magnitude: vec![
            MagnitudeElement { id: Some(1), magnitude: Some(Magnitude::kilo) },
            MagnitudeElement { id: Some(2), magnitude: Some(Magnitude::mega) },
            MagnitudeElement { id: Some(3), magnitude: Some(Magnitude::giga) },
        ],
        operating_system: OperatingSystemRepo { system_type: vec![string_entry(1, "linux")] },
        cpu: CPURepo {
            manufacturer: vec![string_entry(1, "Aurora"), string_entry(2, "Borealis")],
            frequency: vec![float_entry(1, 2400), float_entry(2, 3600)],
            instruction_set: vec![
                BasicElement { id: Some(1), value: Some(InstructionSet::SSE) },
                BasicElement { id: Some(2), value: Some(InstructionSet::AVX) },
            ],
        },
        memory: MemoryRepo {
            size: vec![float_entry(1, 16), float_entry(2, 32)],
            generation: vec![
                BasicElement { id: Some(1), value: Some(ontology::basic_elements::MemoryGeneration::DDR3RAM) },
                BasicElement { id: Some(2), value: Some(ontology::basic_elements::MemoryGeneration::DDR4RAM) },
            ],
        },
        disk: DiskRepo {
            disk_type: vec![
                BasicElement { id: Some(1), value: Some(DiskType::HDD) },
                BasicElement { id: Some(2), value: Some(DiskType::SSD) },
            ],
        },
        virtualization: VirtualizationRepo {
            virtualization_type: vec![string_entry(1, "container")],
        },
    }
}

fn offer_with_cpu_and_disk() -> Offer {
    Offer {
        host: string_entry(-1, "host-a"),
        ontology_version: float_entry(-1, 1),
        repository_version: float_entry(-1, 1),
        timeout: IntElement {
            id: None,
            value: Some(10),
            magnitude: MagnitudeElement { id: None, magnitude: None },
            compare_operator: IntOperator::eq,
        },
        operating_system: None,
        network_interface: None,
        virtualization: None,
        cpu: Some(CPU {
            manufacturer: Some(StringElement {
                id: None,
                value: Some("Aurora".to_string()),
                compare_operator: StringOperator::eq,
            }),
            amount: Some(IntElement {
                id: None,
                value: Some(4),
                magnitude: MagnitudeElement { id: None, magnitude: Some(Magnitude::kilo) },
                compare_operator: IntOperator::eq,
            }),
            frequency: Some(FloatElement {
                id: None,
                value: Some(2400),
                magnitude: MagnitudeElement { id: None, magnitude: Some(Magnitude::mega) },
                compare_operator: FloatOperator::eq,
            }),
            instruction_set: vec![BasicElement { id: None, value: Some(InstructionSet::AVX) }],
        }),
        memory: Some(Memory {
            size: Some(FloatElement {
                id: None,
                value: Some(16),
                magnitude: MagnitudeElement { id: None, magnitude: Some(Magnitude::giga) },
                compare_operator: FloatOperator::eq,
            }),
            generation: Some(BasicElement {
                id: None,
                value: Some(ontology::basic_elements::MemoryGeneration::DDR4RAM),
            }),
        }),
        disk: Some(vec![Disk {
            disk_type: Some(BasicElement { id: None, value: Some(DiskType::SSD) }),
            size: Some(IntElement {
                id: None,
                value: Some(500),
                magnitude: MagnitudeElement { id: None, magnitude: Some(Magnitude::giga) },
                compare_operator: IntOperator::eq,
            }),
            performance: None,
        }]),
        application: None,
        payment: None,
    }
}

#[test]
fn valid_repository_passes_validation() {
    assert!(small_repo().validate());
}

#[test]
fn duplicate_literal_fails_validation() {
    let mut repo = small_repo();
    repo.cpu.manufacturer = vec![string_entry(1, "Aurora"), string_entry(2, "Aurora")];
    assert!(!repo.validate());
}

#[test]
fn duplicate_identifier_fails_validation() {
    let mut repo = small_repo();
    repo.memory.size = vec![float_entry(1, 16), float_entry(1, 32)];
    assert!(!repo.validate());
}

#[test]
fn incomplete_entry_fails_validation() {
    let mut repo = small_repo();
    repo.disk.disk_type = vec![BasicElement { id: None, value: Some(DiskType::HDD) }];
    assert!(!repo.validate());

    let mut repo = small_repo();
    repo.magnitude = vec![MagnitudeElement { id: Some(1), magnitude: None }];
    assert!(!repo.validate());
}

#[test]
fn compress_replaces_cataloged_literals_with_identifiers() {
    let repo = small_repo();
    let mut offer = offer_with_cpu_and_disk();
    offer.compress(&repo);

    let cpu = offer.cpu.as_ref().unwrap();
    let manufacturer = cpu.manufacturer.as_ref().unwrap();
    assert_eq!(manufacturer.id, Some(1));
    assert_eq!(manufacturer.value, None);

    let frequency = cpu.frequency.as_ref().unwrap();
    assert_eq!(frequency.id, Some(1));
    assert_eq!(frequency.value, None);
    // The shared magnitude catalog compressed the frequency's scale factor.
    assert_eq!(frequency.magnitude.id, Some(2));
    assert_eq!(frequency.magnitude.magnitude, None);

    assert_eq!(cpu.instruction_set[0].id, Some(2));
    assert_eq!(cpu.instruction_set[0].value, None);

    let memory = offer.memory.as_ref().unwrap();
    let size = memory.size.as_ref().unwrap();
    assert_eq!(size.id, Some(1));
    assert_eq!(size.value, None);
    assert_eq!(size.magnitude.id, Some(3));
    assert_eq!(memory.generation.as_ref().unwrap().id, Some(2));

    let disk = &offer.disk.as_ref().unwrap()[0];
    assert_eq!(disk.disk_type.as_ref().unwrap().id, Some(2));
    assert_eq!(disk.disk_type.as_ref().unwrap().value, None);
    // The disk size has no catalog; only its magnitude is compressed.
    let disk_size = disk.size.as_ref().unwrap();
    assert_eq!(disk_size.value, Some(500));
    assert_eq!(disk_size.magnitude.id, Some(3));
    assert_eq!(disk_size.magnitude.magnitude, None);
}

#[test]
fn round_trip_restores_literals_and_keeps_identifiers() {
    let repo = small_repo();
    let mut offer = offer_with_cpu_and_disk();
    offer.compress(&repo);
    offer.decompress(&repo);

    let cpu = offer.cpu.as_ref().unwrap();
    let manufacturer = cpu.manufacturer.as_ref().unwrap();
    assert_eq!(manufacturer.value.as_deref(), Some("Aurora"));
    // The identifier is deliberately kept after decompression.
    assert_eq!(manufacturer.id, Some(1));

    let frequency = cpu.frequency.as_ref().unwrap();
    assert_eq!(frequency.value, Some(2400));
    assert_eq!(frequency.id, Some(1));
    assert_eq!(frequency.magnitude.magnitude, Some(Magnitude::mega));
    assert_eq!(frequency.magnitude.id, Some(2));

    assert_eq!(cpu.instruction_set[0].value, Some(InstructionSet::AVX));
    assert_eq!(cpu.instruction_set[0].id, Some(2));

    let memory = offer.memory.as_ref().unwrap();
    assert_eq!(memory.size.as_ref().unwrap().value, Some(16));
    assert_eq!(
        memory.size.as_ref().unwrap().magnitude.magnitude,
        Some(Magnitude::giga)
    );
    assert_eq!(
        memory.generation.as_ref().unwrap().value,
        Some(ontology::basic_elements::MemoryGeneration::DDR4RAM)
    );

    let disk = &offer.disk.as_ref().unwrap()[0];
    assert_eq!(disk.disk_type.as_ref().unwrap().value, Some(DiskType::SSD));
    assert_eq!(disk.size.as_ref().unwrap().magnitude.magnitude, Some(Magnitude::giga));
}

#[test]
fn uncataloged_literal_stays_uncompressed() {
    let repo = small_repo();
    let mut offer = offer_with_cpu_and_disk();
    let cpu = offer.cpu.as_mut().unwrap();
    cpu.manufacturer.as_mut().unwrap().value = Some("Cirrus".to_string());
    offer.compress(&repo);

    let manufacturer = offer.cpu.as_ref().unwrap().manufacturer.as_ref().unwrap();
    assert_eq!(manufacturer.value.as_deref(), Some("Cirrus"));
    assert_eq!(manufacturer.id, None);
}

#[test]
fn uncataloged_magnitude_stays_uncompressed() {
    let repo = small_repo();
    let mut offer = offer_with_cpu_and_disk();
    offer.cpu.as_mut().unwrap().amount.as_mut().unwrap().magnitude =
        MagnitudeElement { id: None, magnitude: Some(Magnitude::pico) };
    offer.compress(&repo);

    let amount = offer.cpu.as_ref().unwrap().amount.as_ref().unwrap();
    assert_eq!(amount.magnitude.magnitude, Some(Magnitude::pico));
    assert_eq!(amount.magnitude.id, None);
}

#[test]
fn offers_container_compresses_each_offer() {
    let repo = small_repo();
    let mut offers = Offers { offers: vec![offer_with_cpu_and_disk(), offer_with_cpu_and_disk()] };
    offers.compress(&repo);
    for offer in offers.get_offers() {
        let manufacturer = offer.cpu.as_ref().unwrap().manufacturer.as_ref().unwrap();
        assert_eq!(manufacturer.id, Some(1));
        assert_eq!(manufacturer.value, None);
    }
    offers.decompress(&repo);
    for offer in offers.get_offers() {
        let manufacturer = offer.cpu.as_ref().unwrap().manufacturer.as_ref().unwrap();
        assert_eq!(manufacturer.value.as_deref(), Some("Aurora"));
    }
}

#[test]
fn decompress_resolves_identifier_onto_leaf() {
    let repo = small_repo();
    let mut offer = offer_with_cpu_and_disk();
    // Start from an already-compressed shape: identifier only.
    let cpu = offer.cpu.as_mut().unwrap();
    cpu.manufacturer = Some(StringElement {
        id: Some(2),
        value: None,
        compare_operator: StringOperator::eq,
    });
    offer.decompress(&repo);
    let manufacturer = offer.cpu.as_ref().unwrap().manufacturer.as_ref().unwrap();
    assert_eq!(manufacturer.value.as_deref(), Some("Borealis"));
    assert_eq!(manufacturer.id, Some(2));
}
