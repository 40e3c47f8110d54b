//! The table of user attributes.
//!
//! The component starts out loading, asks the server for the attribute
//! schema once, and holds the attributes from the moment the answer arrives.
//! Each row that may be deleted carries a delete control; when a control
//! reports that its attribute is gone, the row is dropped from the list
//! without asking the server again.

pub mod display;
pub mod get_user_attributes_schema;
pub mod laws;

use crate::components::user_attributes_table::display::{
    AttributeRow,
    AttributeRowView,
    AttributesDisplay,
    AttributesDisplayView,
    DeleteControl,
    DeleteControlView,
    TableDisplay,
    TableDisplayView,
};
use crate::components::user_attributes_table::get_user_attributes_schema::{
    Attribute,
    AttributeView,
    ResponseData,
};
use crate::infra::common_component::{
    dispatch,
    CommonComponent,
    CommonComponentParts,
    QueryRequest,
    Reduction,
};
use crate::infra::error::{with_context, ErrorValue};
use vstd::prelude::*;

verus! {

/// The component: the core's part and the attribute list, which is absent
/// until the schema has been loaded.
pub struct UserAttributesTable {
    common: CommonComponentParts,
    attributes: Option<Vec<Attribute>>,
}

/// The state of the component as a mathematical value.
pub struct UserAttributesTableView {
    /// The message of the error on display.
    pub error: Option<Seq<char>>,
    /// The attributes in server order, once loaded.
    pub attributes: Option<Seq<AttributeView>>,
}

/// The messages of the component.
#[derive(Debug, PartialEq, Eq)]
pub enum Msg {
    /// The schema query has resolved.
    ListAttributesResponse(Result<ResponseData, ErrorValue>),
    /// A delete control reports that the named attribute is gone.
    OnAttributeDeleted(String),
    /// A delete control reports a failure.
    OnError(ErrorValue),
}

/// A message as a mathematical value.
pub enum MsgView {
    ListAttributesResponse(Result<Seq<AttributeView>, Seq<char>>),
    OnAttributeDeleted(Seq<char>),
    OnError(Seq<char>),
}

impl View for Msg {
    type V = MsgView;

    open spec fn view(&self) -> MsgView {
        match self {
            Msg::ListAttributesResponse(Ok(response)) => MsgView::ListAttributesResponse(
                Ok(response@),
            ),
            Msg::ListAttributesResponse(Err(e)) => MsgView::ListAttributesResponse(Err(e@)),
            Msg::OnAttributeDeleted(name) => MsgView::OnAttributeDeleted(name@),
            Msg::OnError(e) => MsgView::OnError(e@),
        }
    }
}

/// The context given to a failure of the schema query.
pub open spec fn fetch_error_context() -> Seq<char> {
    "Error trying to fetch user schema"@
}

/// The state of a component that has just been created: loading, no error.
pub open spec fn initial() -> UserAttributesTableView {
    UserAttributesTableView { error: None, attributes: None }
}

/// `attributes` without the entries named `name`, the rest in their order.
pub open spec fn without(attributes: Seq<AttributeView>, name: Seq<char>) -> Seq<AttributeView> {
    attributes.filter(|a: AttributeView| a.name != name)
}

/// The type of an attribute as shown: the label of the type, inside
/// `List<` and `>` for a list attribute.
pub open spec fn display_type(attribute: AttributeView) -> Seq<char> {
    if attribute.is_list {
        "List<"@ + attribute.attribute_type.spec_name() + ">"@
    } else {
        attribute.attribute_type.spec_name()
    }
}

/// The row that shows `attribute`. A hardcoded attribute gets the disabled
/// control, any other the delete sub-component for its name.
pub open spec fn row_of(attribute: AttributeView) -> AttributeRowView {
    AttributeRowView {
        name: attribute.name,
        display_type: display_type(attribute),
        editable: attribute.is_editable,
        visible: attribute.is_visible,
        delete: if attribute.is_hardcoded {
            DeleteControlView::Disabled
        } else {
            DeleteControlView::Enabled { attribute_name: attribute.name }
        },
    }
}

/// The attribute part of the display: the placeholder while loading, then
/// one row per attribute in the order of the list.
pub open spec fn render_attributes(attributes: Option<Seq<AttributeView>>) -> AttributesDisplayView {
    match attributes {
        None => AttributesDisplayView::Loading,
        Some(attributes) => AttributesDisplayView::Table {
            rows: attributes.map_values(|a: AttributeView| row_of(a)),
        },
    }
}

/// The projection from state to display. The attribute part and the error
/// are shown independently of each other.
pub open spec fn render(state: UserAttributesTableView) -> TableDisplayView {
    TableDisplayView { attributes: render_attributes(state.attributes), error: state.error }
}

impl CommonComponent for UserAttributesTable {
    type Message = Msg;

    type Model = UserAttributesTableView;

    closed spec fn model(&self) -> UserAttributesTableView {
        UserAttributesTableView {
            error: self.common@,
            attributes: self.attributes.deep_view(),
        }
    }

    /// A deletion is taken only once the attributes are loaded; a response
    /// or an error is taken at any time.
    open spec fn accepts(state: UserAttributesTableView, msg: MsgView) -> bool {
        msg is OnAttributeDeleted ==> state.attributes is Some
    }

    /// A response replaces the list by the attributes it carries. A deletion
    /// drops the entries of that name. A failed query and an error from a
    /// delete control leave the state alone and are reported as failures.
    open spec fn reduce(state: UserAttributesTableView, msg: MsgView) -> Reduction<
        UserAttributesTableView,
    > {
        match msg {
            MsgView::ListAttributesResponse(Ok(attributes)) => Reduction {
                state: UserAttributesTableView { attributes: Some(attributes), ..state },
                outcome: Ok(true),
            },
            MsgView::ListAttributesResponse(Err(e)) => Reduction { state, outcome: Err(e) },
            MsgView::OnError(e) => Reduction { state, outcome: Err(e) },
            MsgView::OnAttributeDeleted(name) => Reduction {
                state: UserAttributesTableView {
                    attributes: Some(without(state.attributes.unwrap(), name)),
                    ..state
                },
                outcome: Ok(true),
            },
        }
    }

    open spec fn error(state: UserAttributesTableView) -> Option<Seq<char>> {
        state.error
    }

    open spec fn with_error(
        state: UserAttributesTableView,
        error: Option<Seq<char>>,
    ) -> UserAttributesTableView {
        UserAttributesTableView { error, ..state }
    }

    fn handle_msg(&mut self, msg: Msg) -> (outcome: Result<bool, ErrorValue>) {
        match msg {
            Msg::ListAttributesResponse(schema) => {
                match schema {
                    Ok(response) => {
                        self.attributes = Some(response.schema.user_schema.attributes);
                        Ok(true)
                    },
                    Err(e) => Err(e),
                }
            },
            Msg::OnError(e) => Err(e),
            Msg::OnAttributeDeleted(attribute_name) => {
                let attributes = self.attributes.take().unwrap();
                self.attributes = Some(retain_others(attributes, &attribute_name));
                Ok(true)
            },
        }
    }

    fn mut_common(&mut self) -> (common: &mut CommonComponentParts) {
        &mut self.common
    }
}

/// Keeps the attributes that are not named `name`, in their order.
fn retain_others(attributes: Vec<Attribute>, name: &String) -> (kept: Vec<Attribute>)
    ensures
        kept.deep_view() == without(attributes.deep_view(), name@),
{
    let ghost all = attributes.deep_view();
    let mut kept: Vec<Attribute> = Vec::new();
    assert(without(all.take(0), name@) =~= kept.deep_view());
    for attribute in it: attributes
        invariant
            it.seq().len() == all.len(),
            forall|i: int| 0 <= i < all.len() ==> (#[trigger] it.seq()[i])@ == all[i],
            kept.deep_view() == without(all.take(it.index() as int), name@),
    {
        let ghost i = it.index() as int;
        let ghost before = kept.deep_view();
        proof {
            assert(attribute@ == all[i]);
            assert(all.take(i + 1).drop_last() =~= all.take(i));
            reveal(Seq::filter);
        }
        if !(attribute.name == *name) {
            kept.push(attribute);
            assert(kept.deep_view() =~= before.push(all[i]));
        }
    }
    assert(all.take(all.len() as int) =~= all);
    kept
}

impl UserAttributesTable {
    /// Creates the component and issues the schema query. The component
    /// starts out loading and without an error; the request is the one
    /// query that the component ever issues.
    pub fn create() -> (created: (UserAttributesTable, QueryRequest))
        ensures
            created.0.model() == initial(),
            created.1@ == fetch_error_context(),
    {
        let table = UserAttributesTable { common: CommonComponentParts::create(), attributes: None };
        let request = table.common.call_graphql("Error trying to fetch user schema");
        (table, request)
    }

    /// The message that reports how the schema query went: the response as
    /// it came, or the failure qualified by the request's context.
    pub fn query_resolved(request: QueryRequest, outcome: Result<ResponseData, ErrorValue>) -> (msg:
        Msg)
        ensures
            msg@ == MsgView::ListAttributesResponse(
                match outcome {
                    Ok(response) => Ok(response@),
                    Err(cause) => Err(with_context(request@, cause@)),
                },
            ),
    {
        Msg::ListAttributesResponse(request.resolve(outcome))
    }

    /// Whether the component takes `msg` in its present state. `update` and
    /// `handle_msg` may be called with the messages that are taken.
    pub fn takes(&self, msg: &Msg) -> (taken: bool)
        ensures
            taken == Self::accepts(self.model(), msg@),
    {
        match msg {
            Msg::OnAttributeDeleted(_) => self.attributes.is_some(),
            _ => true,
        }
    }

    /// Dispatches one message and says whether to render again.
    pub fn update(&mut self, msg: Msg) -> (rerender: bool)
        requires
            Self::accepts(old(self).model(), msg@),
        ensures
            (final(self).model(), rerender) == dispatch::<UserAttributesTable>(
                old(self).model(),
                msg@,
            ),
    {
        CommonComponentParts::update(self, msg)
    }

    /// Projects the state to the display tree.
    pub fn view(&self) -> (shown: TableDisplay)
        ensures
            shown@ == render(self.model()),
    {
        TableDisplay { attributes: self.view_attributes(), error: self.view_errors() }
    }

    /// Projects the attribute list.
    pub fn view_attributes(&self) -> (shown: AttributesDisplay)
        ensures
            shown@ == render_attributes(self.model().attributes),
    {
        match &self.attributes {
            None => AttributesDisplay::Loading,
            Some(attributes) => {
                let mut rows: Vec<AttributeRow> = Vec::new();
                for i in 0..attributes.len()
                    invariant
                        rows.len() == i,
                        forall|j: int|
                            0 <= j < i ==> (#[trigger] rows[j])@ == row_of(attributes[j]@),
                {
                    rows.push(self.view_attribute(&attributes[i]));
                }
                assert(rows.deep_view() =~= attributes.deep_view().map_values(
                    |a: AttributeView| row_of(a),
                ));
                AttributesDisplay::Table { rows }
            },
        }
    }

    /// Projects one attribute to its row.
    pub fn view_attribute(&self, attribute: &Attribute) -> (row: AttributeRow)
        ensures
            row@ == row_of(attribute@),
    {
        let attribute_type = attribute.attribute_type.name();
        let display_type = if attribute.is_list {
            let mut listed = String::from_str("List<");
            listed.append(attribute_type);
            listed.append(">");
            listed
        } else {
            String::from_str(attribute_type)
        };
        let delete = if attribute.is_hardcoded {
            DeleteControl::Disabled
        } else {
            DeleteControl::Enabled { attribute_name: attribute.name.clone() }
        };
        AttributeRow {
            name: attribute.name.clone(),
            display_type,
            editable: attribute.is_editable,
            visible: attribute.is_visible,
            delete,
        }
    }

    /// Projects the error slot to the message on display.
    pub fn view_errors(&self) -> (shown: Option<String>)
        ensures
            shown.deep_view() == self.model().error,
    {
        match &self.common.error {
            None => None,
            Some(e) => Some(e.to_string()),
        }
    }
}

} // verus!
