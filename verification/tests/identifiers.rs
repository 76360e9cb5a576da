use termdraw::ident::Uuid;

#[test]
fn hyphenated_text_is_lower_case_most_significant_first() {
    let id = Uuid(0xa1a2a3a4_b1b2_c1c2_d1d2_d3d4d5d6d7d8);
    assert_eq!(id.to_text(), "a1a2a3a4-b1b2-c1c2-d1d2-d3d4d5d6d7d8");
    assert_eq!(Uuid(0).to_text(), "00000000-0000-0000-0000-000000000000");
    assert_eq!(Uuid(1).to_text(), "00000000-0000-0000-0000-000000000001");
    assert_eq!(Uuid(u128::MAX).to_text(), "ffffffff-ffff-ffff-ffff-ffffffffffff");
}

#[test]
fn parse_reads_the_hyphenated_form() {
    assert_eq!(
        Uuid::parse("550e8400-e29b-41d4-a716-446655440000"),
        Some(Uuid(0x550e8400_e29b_41d4_a716_446655440000))
    );
}

#[test]
fn parse_reads_the_other_forms_of_the_same_identifier() {
    let id = Some(Uuid(0x550e8400_e29b_41d4_a716_446655440000));
    assert_eq!(Uuid::parse("550e8400e29b41d4a716446655440000"), id);
    assert_eq!(Uuid::parse("550E8400-E29B-41D4-A716-446655440000"), id);
    assert_eq!(Uuid::parse("{550e8400-e29b-41d4-a716-446655440000}"), id);
    assert_eq!(Uuid::parse("urn:uuid:550e8400-e29b-41d4-a716-446655440000"), id);
}

#[test]
fn parse_refuses_what_is_no_identifier() {
    assert_eq!(Uuid::parse(""), None);
    assert_eq!(Uuid::parse("room"), None);
    assert_eq!(Uuid::parse("550e8400-e29b-41d4-a716-44665544000"), None);
    assert_eq!(Uuid::parse("550e8400-e29b-41d4-a716-44665544000g"), None);
    assert_eq!(Uuid::parse("550e8400e29b-41d4-a716-4466554400000"), None);
}

#[test]
fn text_reads_back_as_the_same_identifier() {
    let ids = [0u128, 1, 0x0123_4567_89ab_cdef_0123_4567_89ab_cdef, u128::MAX, 1 << 127];
    for value in ids {
        let id = Uuid(value);
        assert_eq!(Uuid::parse(&id.to_text()), Some(id));
    }
}
