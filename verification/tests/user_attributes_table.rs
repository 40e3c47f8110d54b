use user_attributes::components::user_attributes_table::display::{
    AttributeRow, AttributesDisplay, DeleteControl, TableDisplay,
};
use user_attributes::components::user_attributes_table::get_user_attributes_schema::{
    Attribute, AttributeType, ResponseData, Schema, UserSchema,
};
use user_attributes::components::user_attributes_table::{Msg, UserAttributesTable};
use user_attributes::infra::common_component::{CommonComponent, CommonComponentParts};
use user_attributes::infra::error::ErrorValue;

fn attribute(name: &str) -> Attribute {
    Attribute {
        name: name.to_string(),
        attribute_type: AttributeType::String,
        is_list: false,
        is_editable: true,
        is_visible: true,
        is_hardcoded: false,
    }
}

fn response(attributes: Vec<Attribute>) -> ResponseData {
    ResponseData { schema: Schema { user_schema: UserSchema { attributes } } }
}

fn loaded(attributes: Vec<Attribute>) -> UserAttributesTable {
    let (mut table, request) = UserAttributesTable::create();
    let msg = UserAttributesTable::query_resolved(request, Ok(response(attributes)));
    assert!(table.update(msg));
    table
}

fn row_names(table: &UserAttributesTable) -> Vec<String> {
    match table.view_attributes() {
        AttributesDisplay::Loading => panic!("still loading"),
        AttributesDisplay::Table { rows } => rows.into_iter().map(|row| row.name).collect(),
    }
}

#[test]
fn created_component_is_loading_without_error() {
    let (table, request) = UserAttributesTable::create();
    assert_eq!(request.error_message, "Error trying to fetch user schema");
    assert_eq!(table.view(), TableDisplay { attributes: AttributesDisplay::Loading, error: None });
    assert_eq!(table.view_attributes(), AttributesDisplay::Loading);
    assert_eq!(table.view_errors(), None);
}

#[test]
fn load_then_render_shows_one_row_per_attribute_in_server_order() {
    let mut first = attribute("mail");
    first.is_hardcoded = true;
    let mut second = attribute("avatar");
    second.attribute_type = AttributeType::Jpeg;
    second.is_editable = false;
    let mut third = attribute("aliases");
    third.is_list = true;
    third.is_visible = false;
    let table = loaded(vec![first, second, third]);
    let expected = vec![
        AttributeRow {
            name: "mail".to_string(),
            display_type: "String".to_string(),
            editable: true,
            visible: true,
            delete: DeleteControl::Disabled,
        },
        AttributeRow {
            name: "avatar".to_string(),
            display_type: "Jpeg".to_string(),
            editable: false,
            visible: true,
            delete: DeleteControl::Enabled { attribute_name: "avatar".to_string() },
        },
        AttributeRow {
            name: "aliases".to_string(),
            display_type: "List<String>".to_string(),
            editable: true,
            visible: false,
            delete: DeleteControl::Enabled { attribute_name: "aliases".to_string() },
        },
    ];
    assert_eq!(
        table.view(),
        TableDisplay { attributes: AttributesDisplay::Table { rows: expected }, error: None }
    );
}

#[test]
fn empty_response_renders_an_empty_table_not_the_placeholder() {
    let table = loaded(vec![]);
    assert_eq!(table.view_attributes(), AttributesDisplay::Table { rows: vec![] });
}

#[test]
fn response_is_reported_as_success_with_rerender() {
    let (mut table, _request) = UserAttributesTable::create();
    let outcome = table.handle_msg(Msg::ListAttributesResponse(Ok(response(vec![attribute("a")]))));
    assert_eq!(outcome, Ok(true));
    assert_eq!(row_names(&table), vec!["a".to_string()]);
}

#[test]
fn late_response_replaces_the_list() {
    let mut table = loaded(vec![attribute("a"), attribute("b")]);
    assert!(table.update(Msg::OnAttributeDeleted("a".to_string())));
    assert!(table.update(Msg::ListAttributesResponse(Ok(response(vec![
        attribute("x"),
        attribute("y"),
        attribute("z"),
    ])))));
    assert_eq!(row_names(&table), vec!["x".to_string(), "y".to_string(), "z".to_string()]);
}

#[test]
fn list_attribute_of_type_integer_is_shown_as_list_of_integer() {
    let (table, _request) = UserAttributesTable::create();
    let mut listed = attribute("numbers");
    listed.attribute_type = AttributeType::Integer;
    listed.is_list = true;
    assert_eq!(table.view_attribute(&listed).display_type, "List<Integer>");
    let mut single = attribute("number");
    single.attribute_type = AttributeType::Integer;
    single.is_list = false;
    assert_eq!(table.view_attribute(&single).display_type, "Integer");
}

#[test]
fn every_type_is_shown_under_its_label() {
    let (table, _request) = UserAttributesTable::create();
    let cases = [
        (AttributeType::String, "String", "List<String>"),
        (AttributeType::Integer, "Integer", "List<Integer>"),
        (AttributeType::Jpeg, "Jpeg", "List<Jpeg>"),
        (AttributeType::DateTime, "DateTime", "List<DateTime>"),
        (AttributeType::Unknown, "Unknown", "List<Unknown>"),
    ];
    for (attribute_type, bare, listed) in cases {
        let mut a = attribute("a");
        a.attribute_type = attribute_type;
        a.is_list = false;
        assert_eq!(table.view_attribute(&a).display_type, bare);
        a.is_list = true;
        assert_eq!(table.view_attribute(&a).display_type, listed);
    }
}

#[test]
fn unrecognised_wire_type_renders_as_unknown() {
    let (table, _request) = UserAttributesTable::create();
    let mut a = attribute("shoe_size");
    a.attribute_type = AttributeType::from_wire("FLOAT");
    assert_eq!(a.attribute_type, AttributeType::Unknown);
    assert_eq!(table.view_attribute(&a).display_type, "Unknown");
    a.is_list = true;
    assert_eq!(table.view_attribute(&a).display_type, "List<Unknown>");
}

#[test]
fn row_copies_name_and_marks() {
    let (table, _request) = UserAttributesTable::create();
    let a = Attribute {
        name: "first_name".to_string(),
        attribute_type: AttributeType::DateTime,
        is_list: false,
        is_editable: false,
        is_visible: true,
        is_hardcoded: false,
    };
    assert_eq!(
        table.view_attribute(&a),
        AttributeRow {
            name: "first_name".to_string(),
            display_type: "DateTime".to_string(),
            editable: false,
            visible: true,
            delete: DeleteControl::Enabled { attribute_name: "first_name".to_string() },
        }
    );
}

#[test]
fn deletion_removes_exactly_the_named_attribute() {
    let mut table = loaded(vec![attribute("a"), attribute("b")]);
    let msg = Msg::OnAttributeDeleted("b".to_string());
    assert!(table.takes(&msg));
    assert!(table.update(msg));
    assert_eq!(row_names(&table), vec!["a".to_string()]);
    assert_eq!(table.view_errors(), None);
}

#[test]
fn deletion_keeps_the_order_of_the_rest() {
    let mut table = loaded(vec![attribute("a"), attribute("b"), attribute("c"), attribute("d")]);
    assert!(table.update(Msg::OnAttributeDeleted("b".to_string())));
    assert_eq!(row_names(&table), vec!["a".to_string(), "c".to_string(), "d".to_string()]);
    assert!(table.update(Msg::OnAttributeDeleted("a".to_string())));
    assert_eq!(row_names(&table), vec!["c".to_string(), "d".to_string()]);
    assert!(table.update(Msg::OnAttributeDeleted("d".to_string())));
    assert_eq!(row_names(&table), vec!["c".to_string()]);
    assert!(table.update(Msg::OnAttributeDeleted("c".to_string())));
    assert_eq!(table.view_attributes(), AttributesDisplay::Table { rows: vec![] });
}

#[test]
fn deletion_of_an_absent_name_changes_nothing() {
    let mut table = loaded(vec![attribute("a"), attribute("b")]);
    let before = table.view();
    assert!(table.update(Msg::OnAttributeDeleted("c".to_string())));
    assert_eq!(table.view(), before);
    assert!(table.update(Msg::OnAttributeDeleted("".to_string())));
    assert_eq!(table.view(), before);
}

#[test]
fn deletion_reported_twice_is_harmless() {
    let mut table = loaded(vec![attribute("a"), attribute("b")]);
    assert!(table.update(Msg::OnAttributeDeleted("b".to_string())));
    let after_first = table.view();
    assert!(table.update(Msg::OnAttributeDeleted("b".to_string())));
    assert_eq!(table.view(), after_first);
}

#[test]
fn deletion_removes_every_entry_of_that_name() {
    let mut table = loaded(vec![attribute("a"), attribute("b"), attribute("a")]);
    assert!(table.update(Msg::OnAttributeDeleted("a".to_string())));
    assert_eq!(row_names(&table), vec!["b".to_string()]);
}

#[test]
fn deletion_compares_whole_names() {
    let mut table = loaded(vec![attribute("ab"), attribute("a"), attribute("A")]);
    assert!(table.update(Msg::OnAttributeDeleted("a".to_string())));
    assert_eq!(row_names(&table), vec!["ab".to_string(), "A".to_string()]);
}

#[test]
fn deletion_is_not_taken_while_loading() {
    let (table, _request) = UserAttributesTable::create();
    assert!(!table.takes(&Msg::OnAttributeDeleted("a".to_string())));
    assert!(table.takes(&Msg::OnError(ErrorValue::msg("x"))));
    assert!(table.takes(&Msg::ListAttributesResponse(Ok(response(vec![])))));
    assert!(table.takes(&Msg::ListAttributesResponse(Err(ErrorValue::msg("x")))));
    let table = loaded(vec![]);
    assert!(table.takes(&Msg::OnAttributeDeleted("a".to_string())));
}

#[test]
fn hardcoded_attribute_has_disabled_delete_control_whatever_else_it_holds() {
    let (table, _request) = UserAttributesTable::create();
    let types = [
        AttributeType::String,
        AttributeType::Integer,
        AttributeType::Jpeg,
        AttributeType::DateTime,
        AttributeType::Unknown,
    ];
    for attribute_type in types {
        for bits in 0..8 {
            let a = Attribute {
                name: "uid".to_string(),
                attribute_type,
                is_list: bits & 1 != 0,
                is_editable: bits & 2 != 0,
                is_visible: bits & 4 != 0,
                is_hardcoded: true,
            };
            assert_eq!(table.view_attribute(&a).delete, DeleteControl::Disabled);
            let b = Attribute { is_hardcoded: false, ..a };
            assert_eq!(
                table.view_attribute(&b).delete,
                DeleteControl::Enabled { attribute_name: "uid".to_string() }
            );
        }
    }
}

#[test]
fn error_while_loaded_is_shown_beside_the_unchanged_list() {
    let mut table = loaded(vec![attribute("a"), attribute("b")]);
    let rows_before = table.view_attributes();
    assert!(table.update(Msg::OnError(ErrorValue::msg("could not delete b"))));
    let shown = table.view();
    assert_eq!(shown.attributes, rows_before);
    assert_eq!(shown.error, Some("could not delete b".to_string()));
    assert_eq!(table.view_errors(), Some("could not delete b".to_string()));
}

#[test]
fn reducer_reports_an_error_without_storing_it() {
    let mut table = loaded(vec![attribute("a")]);
    let before = table.view();
    let outcome = table.handle_msg(Msg::OnError(ErrorValue::msg("boom")));
    assert_eq!(outcome, Err(ErrorValue::msg("boom")));
    assert_eq!(table.view(), before);
    let outcome = table.handle_msg(Msg::ListAttributesResponse(Err(ErrorValue::msg("bang"))));
    assert_eq!(outcome, Err(ErrorValue::msg("bang")));
    assert_eq!(table.view(), before);
}

#[test]
fn core_stores_the_failure_that_the_reducer_reports() {
    let mut table = loaded(vec![attribute("a")]);
    let rerender = CommonComponentParts::update(&mut table, Msg::OnError(ErrorValue::msg("boom")));
    assert!(rerender);
    assert_eq!(table.view_errors(), Some("boom".to_string()));
    assert_eq!(row_names(&table), vec!["a".to_string()]);
}

#[test]
fn mut_common_lends_the_error_slot() {
    let mut table = loaded(vec![attribute("a")]);
    assert_eq!(table.mut_common().error, None);
    table.mut_common().error = Some(ErrorValue::msg("set by hand"));
    assert_eq!(table.view_errors(), Some("set by hand".to_string()));
    assert_eq!(row_names(&table), vec!["a".to_string()]);
}

#[test]
fn error_stays_on_display_after_later_successes() {
    let mut table = loaded(vec![attribute("a"), attribute("b")]);
    assert!(table.update(Msg::OnError(ErrorValue::msg("first"))));
    assert!(table.update(Msg::OnAttributeDeleted("a".to_string())));
    assert_eq!(table.view_errors(), Some("first".to_string()));
    assert_eq!(row_names(&table), vec!["b".to_string()]);
    assert!(table.update(Msg::ListAttributesResponse(Ok(response(vec![attribute("c")])))));
    assert_eq!(table.view_errors(), Some("first".to_string()));
}

#[test]
fn later_error_replaces_the_earlier_one() {
    let mut table = loaded(vec![attribute("a")]);
    assert!(table.update(Msg::OnError(ErrorValue::msg("first"))));
    assert!(table.update(Msg::OnError(ErrorValue::msg("second"))));
    assert_eq!(table.view_errors(), Some("second".to_string()));
}

#[test]
fn failed_query_leaves_the_component_loading_with_the_qualified_message() {
    let (mut table, request) = UserAttributesTable::create();
    let msg = UserAttributesTable::query_resolved(request, Err(ErrorValue::msg("connection refused")));
    assert_eq!(
        msg,
        Msg::ListAttributesResponse(Err(ErrorValue::msg(
            "Error trying to fetch user schema: connection refused"
        )))
    );
    assert!(table.update(msg));
    assert_eq!(
        table.view(),
        TableDisplay {
            attributes: AttributesDisplay::Loading,
            error: Some("Error trying to fetch user schema: connection refused".to_string()),
        }
    );
}

#[test]
fn resolved_query_carries_the_response_as_it_came() {
    let (_table, request) = UserAttributesTable::create();
    let data = response(vec![attribute("b"), attribute("a")]);
    let msg = UserAttributesTable::query_resolved(request, Ok(data.clone()));
    assert_eq!(msg, Msg::ListAttributesResponse(Ok(data)));
}

#[test]
fn view_does_not_change_the_state() {
    let mut table = loaded(vec![attribute("a")]);
    assert!(table.update(Msg::OnError(ErrorValue::msg("e"))));
    let first = table.view();
    let second = table.view();
    assert_eq!(first, second);
}
