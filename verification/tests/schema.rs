use user_attributes::components::user_attributes_table::get_user_attributes_schema::AttributeType;

#[test]
fn known_wire_names_decode_to_their_types() {
    assert_eq!(AttributeType::from_wire("STRING"), AttributeType::String);
    assert_eq!(AttributeType::from_wire("INTEGER"), AttributeType::Integer);
    assert_eq!(AttributeType::from_wire("JPEG_PHOTO"), AttributeType::Jpeg);
    assert_eq!(AttributeType::from_wire("DATE_TIME"), AttributeType::DateTime);
}

#[test]
fn any_other_wire_name_decodes_to_unknown() {
    for wire in ["", "string", "String", "STRING ", " STRING", "JPEG", "DATETIME", "BOOLEAN", "Unknown", "\u{e9}"] {
        assert_eq!(AttributeType::from_wire(wire), AttributeType::Unknown, "{wire:?}");
    }
}

#[test]
fn types_have_their_display_labels() {
    assert_eq!(AttributeType::String.name(), "String");
    assert_eq!(AttributeType::Integer.name(), "Integer");
    assert_eq!(AttributeType::Jpeg.name(), "Jpeg");
    assert_eq!(AttributeType::DateTime.name(), "DateTime");
    assert_eq!(AttributeType::Unknown.name(), "Unknown");
}
