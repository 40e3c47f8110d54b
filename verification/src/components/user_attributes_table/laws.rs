//! What holds of the table whatever it is sent.
//!
//! The laws are stated over the model of the component: the reducer and the
//! dispatch step that `update` implements, and the projection that `view`
//! implements.

use crate::components::user_attributes_table::display::{
    AttributesDisplayView,
    DeleteControlView,
};
use crate::components::user_attributes_table::get_user_attributes_schema::{
    AttributeType,
    AttributeView,
};
use crate::components::user_attributes_table::{
    fetch_error_context,
    initial,
    render,
    row_of,
    without,
    MsgView,
    UserAttributesTable,
    UserAttributesTableView,
};
use crate::infra::common_component::{dispatch, CommonComponent};
use crate::infra::error::with_context;
use vstd::prelude::*;

verus! {

/// No two entries of `attributes` have the same name.
pub open spec fn names_unique(attributes: Seq<AttributeView>) -> bool {
    forall|i: int, j: int|
        0 <= i < j < attributes.len() ==> (#[trigger] attributes[i]).name != (
        #[trigger] attributes[j]).name
}

/// Some entry of `attributes` is named `name`.
pub open spec fn has_name(attributes: Seq<AttributeView>, name: Seq<char>) -> bool {
    exists|i: int| 0 <= i < attributes.len() && (#[trigger] attributes[i]).name == name
}

/// A response is taken in every state and makes the component show the
/// attributes it carries: one row per attribute, in the order of the
/// response. The error slot is left as it was.
pub proof fn lemma_load_then_render(state: UserAttributesTableView, attributes: Seq<AttributeView>)
    ensures
        UserAttributesTable::accepts(state, MsgView::ListAttributesResponse(Ok(attributes))),
        ({
            let (loaded, rerender) = dispatch::<UserAttributesTable>(
                state,
                MsgView::ListAttributesResponse(Ok(attributes)),
            );
            &&& rerender
            &&& loaded.attributes == Some(attributes)
            &&& loaded.error == state.error
            &&& render(loaded).attributes matches AttributesDisplayView::Table { rows }
            &&& rows.len() == attributes.len()
            &&& forall|i: int| 0 <= i < attributes.len() ==> #[trigger] rows[i] == row_of(attributes[i])
        }),
{
}

/// A wire name other than the four known ones decodes to `Unknown`, and an
/// attribute of that type is shown as `Unknown`, or `List<Unknown>` if it is
/// a list.
pub proof fn lemma_unknown_wire_type(wire: Seq<char>, attribute: AttributeView)
    requires
        wire != "STRING"@,
        wire != "INTEGER"@,
        wire != "JPEG_PHOTO"@,
        wire != "DATE_TIME"@,
        attribute.attribute_type == AttributeType::spec_from_wire(wire),
    ensures
        attribute.attribute_type == AttributeType::Unknown,
        !attribute.is_list ==> row_of(attribute).display_type == "Unknown"@,
        attribute.is_list ==> row_of(attribute).display_type == "List<Unknown>"@,
{
    reveal_strlit("List<");
    reveal_strlit("Unknown");
    reveal_strlit(">");
    reveal_strlit("List<Unknown>");
    assert("List<"@ + "Unknown"@ + ">"@ =~= "List<Unknown>"@);
}

/// The row of an attribute carries the disabled control exactly if the
/// attribute is hardcoded, whatever its other fields; any other row carries
/// the delete control for the attribute's own name.
pub proof fn lemma_hardcoded_undeletable(attribute: AttributeView)
    ensures
        attribute.is_hardcoded <==> row_of(attribute).delete is Disabled,
        !attribute.is_hardcoded ==> row_of(attribute).delete == (DeleteControlView::Enabled {
            attribute_name: attribute.name,
        }),
{
}

/// In the display of any loaded state, the row of every hardcoded attribute
/// carries the disabled control.
pub proof fn lemma_hardcoded_rows_disabled(state: UserAttributesTableView, i: int)
    requires
        state.attributes is Some,
        0 <= i < state.attributes.unwrap().len(),
        state.attributes.unwrap()[i].is_hardcoded,
    ensures
        render(state).attributes matches AttributesDisplayView::Table { rows }
            && rows.len() == state.attributes.unwrap().len()
            && rows[i].delete is Disabled,
{
}

/// Dropping a name that does not occur changes nothing.
pub proof fn lemma_without_absent(attributes: Seq<AttributeView>, name: Seq<char>)
    requires
        !has_name(attributes, name),
    ensures
        without(attributes, name) == attributes,
    decreases attributes.len(),
{
    reveal(Seq::filter);
    if attributes.len() > 0 {
        let front = attributes.drop_last();
        assert forall|i: int| 0 <= i < front.len() implies (#[trigger] front[i]).name != name by {
            assert(front[i] == attributes[i]);
        }
        lemma_without_absent(front, name);
        assert(attributes.last() == attributes[attributes.len() - 1]);
        assert(front.push(attributes.last()) =~= attributes);
    }
}

/// After a name has been dropped it no longer occurs, and what is left is
/// what was there, in the same order.
pub proof fn lemma_without_drops_name(attributes: Seq<AttributeView>, name: Seq<char>)
    ensures
        !has_name(without(attributes, name), name),
        without(attributes, name).len() <= attributes.len(),
        forall|i: int|
            0 <= i < without(attributes, name).len() ==> attributes.contains(
                #[trigger] without(attributes, name)[i],
            ),
{
    let kept = without(attributes, name);
    let others = |a: AttributeView| a.name != name;
    attributes.lemma_filter_len(others);
    assert forall|i: int| 0 <= i < kept.len() implies (#[trigger] kept[i]).name != name
        && attributes.contains(kept[i]) by {
        attributes.lemma_filter_pred(others, i);
        attributes.lemma_filter_contains_rev(others, kept[i]);
    }
}

/// Where names are unique, dropping the name of entry `i` removes that
/// entry and no other.
pub proof fn lemma_without_removes_exactly_one(attributes: Seq<AttributeView>, i: int)
    requires
        names_unique(attributes),
        0 <= i < attributes.len(),
    ensures
        without(attributes, attributes[i].name) == attributes.remove(i),
        without(attributes, attributes[i].name).len() == attributes.len() - 1,
    decreases attributes.len(),
{
    reveal(Seq::filter);
    let name = attributes[i].name;
    let front = attributes.drop_last();
    let last = attributes.len() - 1;
    assert(attributes.last() == attributes[last]);
    assert forall|a: int, b: int| 0 <= a < b < front.len() implies (#[trigger] front[a]).name != (
    #[trigger] front[b]).name by {
        assert(front[a] == attributes[a] && front[b] == attributes[b]);
    }
    if i == last {
        assert forall|k: int| 0 <= k < front.len() implies (#[trigger] front[k]).name != name by {
            assert(front[k] == attributes[k]);
        }
        lemma_without_absent(front, name);
        assert(attributes.remove(i) =~= front);
    } else {
        assert(front[i] == attributes[i]);
        lemma_without_removes_exactly_one(front, i);
        assert(attributes[last].name != name);
        assert(front.remove(i).push(attributes.last()) =~= attributes.remove(i));
    }
}

/// Dropping a name from a list with unique names leaves the names unique.
pub proof fn lemma_without_keeps_unique(attributes: Seq<AttributeView>, name: Seq<char>)
    requires
        names_unique(attributes),
    ensures
        names_unique(without(attributes, name)),
    decreases attributes.len(),
{
    reveal(Seq::filter);
    if attributes.len() > 0 {
        let others = |a: AttributeView| a.name != name;
        let front = attributes.drop_last();
        let last = attributes.last();
        assert(last == attributes[attributes.len() - 1]);
        assert forall|a: int, b: int| 0 <= a < b < front.len() implies (#[trigger] front[a]).name != (
        #[trigger] front[b]).name by {
            assert(front[a] == attributes[a] && front[b] == attributes[b]);
        }
        lemma_without_keeps_unique(front, name);
        let kept = without(front, name);
        if others(last) {
            assert forall|a: int| 0 <= a < kept.len() implies (#[trigger] kept[a]).name
                != last.name by {
                front.lemma_filter_contains_rev(others, kept[a]);
                let k = choose|k: int| 0 <= k < front.len() && front[k] == kept[a];
                assert(front[k] == attributes[k]);
            }
            let all = kept.push(last);
            assert forall|a: int, b: int| 0 <= a < b < all.len() implies (#[trigger] all[a]).name != (
            #[trigger] all[b]).name by {
                if b < kept.len() {
                    assert(all[a] == kept[a] && all[b] == kept[b]);
                } else {
                    assert(all[a] == kept[a] && all[b] == last);
                }
            }
        }
    }
}

/// Names stay unique: if they are unique in the list that a component
/// holds and in every response it is sent, they are unique in the list it
/// holds afterwards.
pub proof fn lemma_names_stay_unique(state: UserAttributesTableView, msg: MsgView)
    requires
        UserAttributesTable::accepts(state, msg),
        state.attributes matches Some(attributes) ==> names_unique(attributes),
        msg matches MsgView::ListAttributesResponse(Ok(attributes)) ==> names_unique(attributes),
    ensures
        dispatch::<UserAttributesTable>(state, msg).0.attributes matches Some(attributes)
            ==> names_unique(attributes),
{
    if let MsgView::OnAttributeDeleted(name) = msg {
        lemma_without_keeps_unique(state.attributes.unwrap(), name);
    }
}

/// Deleting the attribute at `i` of a loaded list with unique names leaves
/// the list without that one entry, the rest in their order, and the names
/// still unique. The error slot is left as it was.
pub proof fn lemma_delete_removes_exactly_one(state: UserAttributesTableView, i: int)
    requires
        state.attributes is Some,
        names_unique(state.attributes.unwrap()),
        0 <= i < state.attributes.unwrap().len(),
    ensures
        ({
            let attributes = state.attributes.unwrap();
            let msg = MsgView::OnAttributeDeleted(attributes[i].name);
            let (next, rerender) = dispatch::<UserAttributesTable>(state, msg);
            &&& UserAttributesTable::accepts(state, msg)
            &&& rerender
            &&& next.attributes == Some(attributes.remove(i))
            &&& names_unique(attributes.remove(i))
            &&& next.error == state.error
        }),
{
    let attributes = state.attributes.unwrap();
    lemma_without_removes_exactly_one(attributes, i);
    let rest = attributes.remove(i);
    assert forall|a: int, b: int| 0 <= a < b < rest.len() implies (#[trigger] rest[a]).name != (
    #[trigger] rest[b]).name by {
        let a0 = if a < i { a } else { a + 1 };
        let b0 = if b < i { b } else { b + 1 };
        assert(rest[a] == attributes[a0] && rest[b] == attributes[b0]);
    }
}

/// Deleting a name that no attribute of a loaded list bears changes
/// nothing, so a deletion reported twice is harmless.
pub proof fn lemma_delete_absent_is_noop(state: UserAttributesTableView, name: Seq<char>)
    requires
        state.attributes is Some,
        !has_name(state.attributes.unwrap(), name),
    ensures
        UserAttributesTable::accepts(state, MsgView::OnAttributeDeleted(name)),
        dispatch::<UserAttributesTable>(state, MsgView::OnAttributeDeleted(name)) == (state, true),
{
    lemma_without_absent(state.attributes.unwrap(), name);
}

/// After a deletion the deleted name is gone from the list, whether or not
/// names were unique.
pub proof fn lemma_delete_drops_name(state: UserAttributesTableView, name: Seq<char>)
    requires
        state.attributes is Some,
    ensures
        ({
            let next = dispatch::<UserAttributesTable>(state, MsgView::OnAttributeDeleted(name)).0;
            &&& next.attributes is Some
            &&& !has_name(next.attributes.unwrap(), name)
            &&& next.attributes.unwrap().len() <= state.attributes.unwrap().len()
        }),
{
    lemma_without_drops_name(state.attributes.unwrap(), name);
}

/// An error reported by a delete control is stored and shown, and the
/// attribute list is neither cleared nor changed: list and error are shown
/// side by side.
pub proof fn lemma_error_is_additive(state: UserAttributesTableView, error: Seq<char>)
    ensures
        UserAttributesTable::accepts(state, MsgView::OnError(error)),
        ({
            let (next, rerender) = dispatch::<UserAttributesTable>(state, MsgView::OnError(error));
            &&& rerender
            &&& next.attributes == state.attributes
            &&& next.error == Some(error)
            &&& render(next).attributes == render(state).attributes
            &&& render(next).error == Some(error)
        }),
{
}

/// If the schema query fails, the component stays as it was but for the
/// error slot, which then holds the cause qualified by the query's context.
/// A component that was loading keeps loading, and shows the placeholder
/// beside the error.
pub proof fn lemma_query_failure(state: UserAttributesTableView, cause: Seq<char>)
    ensures
        ({
            let failure = with_context(fetch_error_context(), cause);
            let msg = MsgView::ListAttributesResponse(Err(failure));
            let (next, rerender) = dispatch::<UserAttributesTable>(state, msg);
            &&& UserAttributesTable::accepts(state, msg)
            &&& rerender
            &&& next.attributes == state.attributes
            &&& next.error == Some(failure)
            &&& state == initial() ==> render(next).attributes is Loading && render(next).error
                == Some(failure)
        }),
{
}

/// A loading component keeps loading until a response arrives: no other
/// message that it takes gives it a list.
pub proof fn lemma_loading_until_response(state: UserAttributesTableView, msg: MsgView)
    requires
        state.attributes is None,
        UserAttributesTable::accepts(state, msg),
    ensures
        dispatch::<UserAttributesTable>(state, msg).0.attributes is Some <==> msg matches
            MsgView::ListAttributesResponse(Ok(_)),
{
}

/// Once loaded, the component takes every message and stays loaded; and an
/// error on display stays on display until another replaces it.
pub proof fn lemma_loaded_and_error_persist(state: UserAttributesTableView, msg: MsgView)
    requires
        UserAttributesTable::accepts(state, msg),
    ensures
        state.attributes is Some ==> dispatch::<UserAttributesTable>(state, msg).0.attributes is Some,
        state.error is Some ==> dispatch::<UserAttributesTable>(state, msg).0.error is Some,
        state.attributes is Some ==> forall|later: MsgView| #[trigger]
            UserAttributesTable::accepts(dispatch::<UserAttributesTable>(state, msg).0, later),
{
}

} // verus!
