use hackthebot::catalog::{is_machine, names_machine, subject_category_id, CategoryCatalog, MACHINE_CATEGORY_ID};

#[test]
fn new_catalog_knows_only_machines() {
    let catalog = CategoryCatalog::new();
    assert!(catalog.contains(MACHINE_CATEGORY_ID));
    assert_eq!(catalog.label(MACHINE_CATEGORY_ID), "Machine");
    assert_eq!(catalog.lookup(MACHINE_CATEGORY_ID), Some("Machine".to_string()));
    assert!(!catalog.contains(1));
    assert_eq!(catalog.lookup(1), None);
}

#[test]
fn absent_category_is_unknown() {
    let catalog = CategoryCatalog::new();
    assert_eq!(catalog.label(7), "Unknown");
    assert_eq!(catalog.label(-1), "Unknown");
    assert_eq!(catalog.label(i64::MAX), "Unknown");
}

#[test]
fn inserted_label_is_found() {
    let mut catalog = CategoryCatalog::new();
    assert!(catalog.insert(3, "Web"));
    assert!(catalog.insert(5, "Crypto"));
    assert_eq!(catalog.label(3), "Web");
    assert_eq!(catalog.label(5), "Crypto");
    assert_eq!(catalog.lookup(3), Some("Web".to_string()));
    assert_eq!(catalog.label(4), "Unknown");
}

#[test]
fn label_can_be_refreshed() {
    let mut catalog = CategoryCatalog::new();
    assert!(catalog.insert(3, "Web"));
    assert!(catalog.insert(3, "Web Exploitation"));
    assert_eq!(catalog.label(3), "Web Exploitation");
}

#[test]
fn reserved_id_keeps_its_label() {
    let mut catalog = CategoryCatalog::new();
    assert!(!catalog.insert(MACHINE_CATEGORY_ID, "Pwn"));
    assert_eq!(catalog.label(MACHINE_CATEGORY_ID), "Machine");
}

#[test]
fn machine_is_recognised_in_any_case() {
    assert!(is_machine("machine"));
    assert!(is_machine("Machine"));
    assert!(is_machine("MACHINE"));
    assert!(is_machine("retired machines"));
    assert!(!is_machine("challenge"));
    assert!(!is_machine(""));
    assert!(!is_machine("machin"));
}

#[test]
fn names_machine_reads_the_text_as_given() {
    assert!(names_machine("machine"));
    assert!(names_machine("a machine here"));
    assert!(!names_machine("Machine"));
    assert!(!names_machine("mach ine"));
}

#[test]
fn machines_go_under_the_reserved_id() {
    assert_eq!(subject_category_id("Machine", 9), MACHINE_CATEGORY_ID);
    assert_eq!(subject_category_id("challenge", 9), 9);
    assert_eq!(subject_category_id("fortress", -4), -4);
}

#[test]
fn uncategorised_id_takes_no_label() {
    let mut catalog = CategoryCatalog::new();
    assert!(!catalog.insert(hackthebot::catalog::UNCATEGORISED_CATEGORY_ID, "Misc"));
    assert_eq!(catalog.label(hackthebot::catalog::UNCATEGORISED_CATEGORY_ID), "Unknown");
    assert_eq!(hackthebot::catalog::UNCATEGORISED_CATEGORY_ID, -1);
}
