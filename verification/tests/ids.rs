use chronicle::ids::{PseudoId, Uuid};

const BITS: u128 = 0x67e55044_10b1_426f_9247_bb680e5fe0c8;

#[test]
fn uuid_is_written_hyphenated_in_lower_case() {
    assert_eq!(Uuid { bits: BITS }.to_text(), "67e55044-10b1-426f-9247-bb680e5fe0c8");
    assert_eq!(Uuid { bits: 0 }.to_text(), "00000000-0000-0000-0000-000000000000");
    assert_eq!(Uuid { bits: 0xABC }.to_text(), "00000000-0000-0000-0000-000000000abc");
}

#[test]
fn uuid_is_read_in_each_spelling() {
    let id = Some(Uuid { bits: BITS });
    assert_eq!(Uuid::parse("67e55044-10b1-426f-9247-bb680e5fe0c8"), id);
    assert_eq!(Uuid::parse("67E55044-10B1-426f-9247-BB680E5FE0C8"), id);
    assert_eq!(Uuid::parse("67e5504410b1426f9247bb680e5fe0c8"), id);
    assert_eq!(Uuid::parse("{67e55044-10b1-426f-9247-bb680e5fe0c8}"), id);
    assert_eq!(Uuid::parse("urn:uuid:67e55044-10b1-426f-9247-bb680e5fe0c8"), id);
    assert_eq!(Uuid::parse("URN:UUID:67e55044-10b1-426f-9247-bb680e5fe0c8"), id);
}

#[test]
fn other_text_is_no_uuid() {
    for s in [
        "",
        "sessions",
        "67e55044-10b1-426f-9247-bb680e5fe0c",
        "67e55044-10b1-426f-9247-bb680e5fe0c8 ",
        "67e55044_10b1_426f_9247_bb680e5fe0c8",
        "67e55044-10b1-426f-9247-bb680e5fe0cg",
        "{67e5504410b1426f9247bb680e5fe0c8}",
        "urn:uuid:67e5504410b1426f9247bb680e5fe0c8",
        "67e55044-10b1-426f-9247-bb680e5fe0c\u{e9}",
    ] {
        assert_eq!(Uuid::parse(s), None, "{}", s);
    }
}

#[test]
fn uuid_text_reads_back() {
    for bits in [0, 1, BITS, u128::MAX, 1 << 127, 0x0123456789abcdef_fedcba9876543210] {
        let id = Uuid { bits };
        assert_eq!(Uuid::parse(&id.to_text()), Some(id));
    }
}

#[test]
fn pseudonyms_are_compared_as_text() {
    let a = PseudoId { text: "a1".to_string() };
    let b = PseudoId { text: "A1".to_string() };
    assert!(a.same(&a.clone()));
    assert!(!a.same(&b));
    assert_eq!(a.as_str(), "a1");
}
