//! Data carried by the query that lists the user-attribute schema.

use vstd::prelude::*;

verus! {

/// The value type of an attribute. The set is closed: a wire name that is
/// not recognised decodes to `Unknown`.
#[derive(Clone, Copy, Debug, PartialEq, Eq, Structural)]
pub enum AttributeType {
    String,
    Integer,
    Jpeg,
    DateTime,
    Unknown,
}

impl AttributeType {
    /// The label under which the type is displayed.
    pub open spec fn spec_name(self) -> Seq<char> {
        match self {
            AttributeType::String => "String"@,
            AttributeType::Integer => "Integer"@,
            AttributeType::Jpeg => "Jpeg"@,
            AttributeType::DateTime => "DateTime"@,
            AttributeType::Unknown => "Unknown"@,
        }
    }

    /// The type named by `wire`, or `Unknown` for any other name.
    pub open spec fn spec_from_wire(wire: Seq<char>) -> AttributeType {
        if wire == "STRING"@ {
            AttributeType::String
        } else if wire == "INTEGER"@ {
            AttributeType::Integer
        } else if wire == "JPEG_PHOTO"@ {
            AttributeType::Jpeg
        } else if wire == "DATE_TIME"@ {
            AttributeType::DateTime
        } else {
            AttributeType::Unknown
        }
    }

    /// Returns the label under which the type is displayed.
    pub fn name(self) -> (label: &'static str)
        ensures
            label@ == self.spec_name(),
    {
        match self {
            AttributeType::String => "String",
            AttributeType::Integer => "Integer",
            AttributeType::Jpeg => "Jpeg",
            AttributeType::DateTime => "DateTime",
            AttributeType::Unknown => "Unknown",
        }
    }

    /// Decodes a wire name. Decoding is total.
    pub fn from_wire(wire: &str) -> (decoded: AttributeType)
        ensures
            decoded == Self::spec_from_wire(wire@),
    {
        let wire = String::from_str(wire);
        if wire == String::from_str("STRING") {
            AttributeType::String
        } else if wire == String::from_str("INTEGER") {
            AttributeType::Integer
        } else if wire == String::from_str("JPEG_PHOTO") {
            AttributeType::Jpeg
        } else if wire == String::from_str("DATE_TIME") {
            AttributeType::DateTime
        } else {
            AttributeType::Unknown
        }
    }
}

/// One attribute definition of the user schema.
#[derive(Clone, Debug, PartialEq, Eq)]
pub struct Attribute {
    /// Identifier of the attribute, unique within one schema.
    pub name: String,
    pub attribute_type: AttributeType,
    /// Whether the attribute holds several values of its type.
    pub is_list: bool,
    pub is_editable: bool,
    pub is_visible: bool,
    /// Built-in attributes are hardcoded and cannot be deleted.
    pub is_hardcoded: bool,
}

/// An attribute definition as a mathematical value.
pub struct AttributeView {
    pub name: Seq<char>,
    pub attribute_type: AttributeType,
    pub is_list: bool,
    pub is_editable: bool,
    pub is_visible: bool,
    pub is_hardcoded: bool,
}

impl View for Attribute {
    type V = AttributeView;

    open spec fn view(&self) -> AttributeView {
        AttributeView {
            name: self.name@,
            attribute_type: self.attribute_type,
            is_list: self.is_list,
            is_editable: self.is_editable,
            is_visible: self.is_visible,
            is_hardcoded: self.is_hardcoded,
        }
    }
}

impl DeepView for Attribute {
    type V = AttributeView;

    open spec fn deep_view(&self) -> AttributeView {
        self@
    }
}

/// The user part of the schema.
#[derive(Clone, Debug, PartialEq, Eq)]
pub struct UserSchema {
    /// The attribute definitions, in the order the server lists them.
    pub attributes: Vec<Attribute>,
}

/// The schema as the server publishes it.
#[derive(Clone, Debug, PartialEq, Eq)]
pub struct Schema {
    pub user_schema: UserSchema,
}

/// What the query answers: the attribute definitions, nested under the
/// schema and its user part.
#[derive(Clone, Debug, PartialEq, Eq)]
pub struct ResponseData {
    pub schema: Schema,
}

impl View for ResponseData {
    type V = Seq<AttributeView>;

    /// The attribute definitions of the response, in server order.
    open spec fn view(&self) -> Seq<AttributeView> {
        self.schema.user_schema.attributes.deep_view()
    }
}

} // verus!
