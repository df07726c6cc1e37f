use nmea_testgen::catalog::{catalog, Entry, FaultKind, Payload};
use nmea_testgen::driver::{annotation_body, emit_catalog, emit_entry, render_payload};
use nmea_testgen::framer::frame;

fn body_of(e: &Entry) -> Option<&str> {
    match &e.payload {
        Payload::WellFormed { body } => Some(body.as_str()),
        Payload::ChecksumOverride { body, .. } => Some(body.as_str()),
        Payload::Raw { .. } => None,
    }
}

#[test]
fn annotation_body_carries_the_text() {
    assert_eq!(annotation_body("hello parser"), "GPTXT,01,01,hello parser");
}

#[test]
fn raw_payload_passes_bytes_through_unmodified() {
    let text = "GPGGA,225239.784,2,N,01217.461,E,,5,3.5,,,,,,";
    let p = Payload::Raw { bytes: text.to_string() };
    let sent = render_payload(&p);
    assert_eq!(sent, text);
    assert!(!sent.starts_with('$'));
    assert!(!sent.contains('*'));
    assert!(!sent.ends_with("\r\n"));
}

#[test]
fn catalog_enumerates_identically_twice() {
    let first = catalog();
    let second = catalog();
    assert_eq!(first.len(), second.len());
    assert_eq!(first, second);
}

#[test]
fn every_group_opens_with_its_positive_control() {
    for g in &catalog() {
        assert!(!g.entries.is_empty(), "group {} is empty", g.label);
        assert_eq!(g.entries[0].fault, FaultKind::Valid, "group {}", g.label);
        let first_fault = g.entries.iter().position(|e| e.fault != FaultKind::Valid);
        let first_valid = g.entries.iter().position(|e| e.fault == FaultKind::Valid);
        assert!(first_valid.unwrap() < first_fault.unwrap_or(g.entries.len()));
    }
}

#[test]
fn shrinking_arity_tails_strictly_decrease_to_zero() {
    for g in &catalog() {
        let start = g
            .entries
            .iter()
            .position(|e| e.fault == FaultKind::MissingTrailingFields)
            .unwrap_or_else(|| panic!("group {} has no shrinking tail", g.label));
        let counts: Vec<usize> = g.entries[start..]
            .iter()
            .map(|e| {
                assert_eq!(e.fault, FaultKind::MissingTrailingFields);
                body_of(e).unwrap().matches(',').count()
            })
            .collect();
        for w in counts.windows(2) {
            assert!(w[0] > w[1], "group {} not strictly decreasing", g.label);
        }
        assert_eq!(*counts.last().unwrap(), 0, "group {}", g.label);
    }
}

#[test]
fn every_fault_kind_is_exercised() {
    let kinds = [
        FaultKind::Valid,
        FaultKind::WrongChecksum,
        FaultKind::MissingChecksum,
        FaultKind::NoChecksumField,
        FaultKind::MissingCr,
        FaultKind::MissingLf,
        FaultKind::MissingTerminator,
        FaultKind::InvalidPrefix,
        FaultKind::UnknownTalkerId,
        FaultKind::UnknownSentenceId,
        FaultKind::OversizedSentenceId,
        FaultKind::UndersizedSentenceId,
        FaultKind::EmptyFields,
        FaultKind::MissingTrailingFields,
        FaultKind::InvalidEnumeratedField,
        FaultKind::MissingUnitSuffix,
    ];
    let groups = catalog();
    for kind in kinds {
        assert!(
            groups.iter().any(|g| g.entries.iter().any(|e| e.fault == kind)),
            "no entry exercises {:?}",
            kind
        );
    }
}

#[test]
fn wrong_checksum_vector_renders_the_requested_digits() {
    let groups = catalog();
    let e = groups
        .iter()
        .flat_map(|g| g.entries.iter())
        .find(|e| e.fault == FaultKind::WrongChecksum)
        .unwrap();
    let sent = render_payload(&e.payload);
    assert_eq!(sent, "$GPGLC,225239.784,2,N,01217.461,E,,5,3.5,,,,,,*99\r\n");
}

#[test]
fn terminator_fault_vectors_keep_the_correct_checksum() {
    let groups = catalog();
    let missing_lf = groups
        .iter()
        .flat_map(|g| g.entries.iter())
        .find(|e| e.fault == FaultKind::MissingLf)
        .unwrap();
    let sent = render_payload(&missing_lf.payload);
    assert_eq!(sent, "$GPGLC,225239.784,2,N,01217.461,E,,5,3.5,,,,,,*4b\r");
}

#[test]
fn driver_emits_annotation_then_payload_in_catalog_order() {
    let groups = catalog();
    let frames = emit_catalog(&groups);
    let entries: Vec<&Entry> = groups.iter().flat_map(|g| g.entries.iter()).collect();
    assert_eq!(frames.len(), 2 * entries.len());
    for (k, e) in entries.iter().enumerate() {
        let expected_annotation = frame(&annotation_body(&e.note));
        assert_eq!(frames[2 * k], expected_annotation, "annotation out of order at {}", k);
        assert_eq!(frames[2 * k + 1], render_payload(&e.payload), "payload out of order at {}", k);
        let (ann, payload) = emit_entry(e);
        assert_eq!(frames[2 * k], ann);
        assert_eq!(frames[2 * k + 1], payload);
    }
}

#[test]
fn annotations_document_the_fault_kind_of_their_vector() {
    for g in &catalog() {
        for e in &g.entries {
            let needle = match e.fault {
                FaultKind::Valid | FaultKind::EmptyFields => "valid",
                FaultKind::WrongChecksum => "incorrect checksum",
                FaultKind::MissingChecksum => "checksum",
                FaultKind::NoChecksumField => "no checksum field",
                FaultKind::MissingCr => "no carriage return",
                FaultKind::MissingLf => "no line feed",
                FaultKind::MissingTerminator => "no terminator",
                FaultKind::InvalidPrefix => "invalid prefix",
                FaultKind::UnknownTalkerId => "unknown talker id",
                FaultKind::UnknownSentenceId => "unknown sentence id",
                FaultKind::OversizedSentenceId => "too long sentence id",
                FaultKind::UndersizedSentenceId => "too short sentence id",
                FaultKind::MissingTrailingFields => "missing trailing fields",
                FaultKind::InvalidEnumeratedField => "incorrect",
                FaultKind::MissingUnitSuffix => "incorrect",
            };
            assert!(
                e.note.contains(needle),
                "note {:?} does not document {:?}",
                e.note,
                e.fault
            );
        }
    }
}
