//! The display tree that the table projects its state to.

use vstd::prelude::*;

verus! {

/// The control in the last column of a row.
#[derive(Clone, Debug, PartialEq, Eq)]
pub enum DeleteControl {
    /// A delete button that cannot be clicked.
    Disabled,
    /// The delete sub-component for the named attribute.
    Enabled { attribute_name: String },
}

/// A delete control as a mathematical value.
pub enum DeleteControlView {
    Disabled,
    Enabled { attribute_name: Seq<char> },
}

impl View for DeleteControl {
    type V = DeleteControlView;

    open spec fn view(&self) -> DeleteControlView {
        match self {
            DeleteControl::Disabled => DeleteControlView::Disabled,
            DeleteControl::Enabled { attribute_name } => DeleteControlView::Enabled {
                attribute_name: attribute_name@,
            },
        }
    }
}

/// One row of the table.
#[derive(Clone, Debug, PartialEq, Eq)]
pub struct AttributeRow {
    pub name: String,
    /// The type as shown: `Type`, or `List<Type>` for a list attribute.
    pub display_type: String,
    /// Whether the editable column shows its mark.
    pub editable: bool,
    /// Whether the visible column shows its mark.
    pub visible: bool,
    pub delete: DeleteControl,
}

/// A row as a mathematical value.
pub struct AttributeRowView {
    pub name: Seq<char>,
    pub display_type: Seq<char>,
    pub editable: bool,
    pub visible: bool,
    pub delete: DeleteControlView,
}

impl View for AttributeRow {
    type V = AttributeRowView;

    open spec fn view(&self) -> AttributeRowView {
        AttributeRowView {
            name: self.name@,
            display_type: self.display_type@,
            editable: self.editable,
            visible: self.visible,
            delete: self.delete@,
        }
    }
}

impl DeepView for AttributeRow {
    type V = AttributeRowView;

    open spec fn deep_view(&self) -> AttributeRowView {
        self@
    }
}

/// The attribute part of the display.
#[derive(Clone, Debug, PartialEq, Eq)]
pub enum AttributesDisplay {
    /// The placeholder shown until the schema has arrived.
    Loading,
    /// The table, one row per attribute.
    Table { rows: Vec<AttributeRow> },
}

/// The attribute part of the display as a mathematical value.
pub enum AttributesDisplayView {
    Loading,
    Table { rows: Seq<AttributeRowView> },
}

impl View for AttributesDisplay {
    type V = AttributesDisplayView;

    open spec fn view(&self) -> AttributesDisplayView {
        match self {
            AttributesDisplay::Loading => AttributesDisplayView::Loading,
            AttributesDisplay::Table { rows } => AttributesDisplayView::Table {
                rows: rows.deep_view(),
            },
        }
    }
}

/// Everything the component shows: the attribute part and, beside it, the
/// message of the stored error if there is one.
#[derive(Clone, Debug, PartialEq, Eq)]
pub struct TableDisplay {
    pub attributes: AttributesDisplay,
    pub error: Option<String>,
}

/// The display as a mathematical value.
pub struct TableDisplayView {
    pub attributes: AttributesDisplayView,
    pub error: Option<Seq<char>>,
}

impl View for TableDisplay {
    type V = TableDisplayView;

    open spec fn view(&self) -> TableDisplayView {
        TableDisplayView { attributes: self.attributes@, error: self.error.deep_view() }
    }
}

} // verus!
