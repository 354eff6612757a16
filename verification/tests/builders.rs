use fancy_surreal::{Change, ChangeOperator, Select};

#[test]
fn select_all_unrestricted() {
    let select = Select::new("test_table".to_string(), vec![]);
    assert_eq!(select.query_str(), "SELECT * FROM test_table;");
}

#[test]
fn select_seeded_with_owner_filter() {
    let select = Select::new("test_table".to_string(), vec!["test_user".to_string()]);
    assert_eq!(
        select.query_str(),
        "SELECT * FROM test_table WHERE owner == \"test_user\";"
    );
}

#[test]
fn select_multi_owner_scope() {
    let select = Select::new(
        "multi_owners".to_string(),
        vec!["owner_a".to_string(), "owner_b".to_string()],
    );
    assert_eq!(
        select.query_str(),
        "SELECT * FROM multi_owners WHERE owner in [\"owner_a\",\"owner_b\"];"
    );
}

#[test]
fn select_id_conjoins_onto_owner_filter() {
    let select = Select::new("test_table".to_string(), vec!["test_user".to_string()])
        .id("firstId");
    assert_eq!(
        select.query_str(),
        "SELECT * FROM test_table WHERE owner == \"test_user\" AND id = test_table:firstId;"
    );
}

#[test]
fn select_conditions_are_conjoined() {
    let select = Select::new("test_table".to_string(), vec![])
        .condition("content.data == \"firstData\"")
        .condition("content.extra > 1");
    assert_eq!(
        select.query_str(),
        "SELECT * FROM test_table WHERE content.data == \"firstData\" AND content.extra > 1;"
    );
}

#[test]
fn select_fields_fetch_and_order() {
    let select = Select::new("test_table".to_string(), vec![])
        .field("content.data")
        .field("owner")
        .fetch("content.inner")
        .order_by("content.data");
    assert_eq!(
        select.query_str(),
        "SELECT content.data, owner FROM test_table FETCH content.inner ORDER BY content.data;"
    );
}

#[test]
fn select_fetch_and_order_last_write_wins() {
    let select = Select::new("test_table".to_string(), vec![])
        .fetch("content.first")
        .fetch("content.second")
        .order_by("content.a")
        .order_by("content.b");
    assert_eq!(
        select.query_str(),
        "SELECT * FROM test_table FETCH content.second ORDER BY content.b;"
    );
}

#[test]
fn wrappers_nest_in_registration_order() {
    let select = Select::new("new_table".to_string(), vec!["new_user".to_string()])
        .field("content.inner as item")
        .wrapper_js_map("Object.keys(element.item)")
        .wrapper_fn("array::group")
        .wrapper_fn("array::sort");
    assert_eq!(
        select.query_str(),
        "array::sort(array::group(function(SELECT content.inner as item FROM new_table \
         WHERE owner == \"new_user\"){return arguments[0].map(element => \
         Object.keys(element.item))}));"
    );
}

#[test]
fn wrapper_js_map_unpack_falls_back_on_empty() {
    let select = Select::new("test_table".to_string(), vec![])
        .wrapper_js_map_unpack("element.item");
    assert_eq!(
        select.query_str(),
        "function(SELECT * FROM test_table){if (arguments[0].length > 0) \
         {return arguments[0].map(element => element.item)[0]} else {return []}};"
    );
}

#[test]
fn operator_spellings() {
    assert_eq!(ChangeOperator::Assign.to_str(), "=");
    assert_eq!(ChangeOperator::Add.to_str(), "+=");
    assert_eq!(ChangeOperator::Remove.to_str(), "-=");
}

#[test]
fn change_update_appends_assignments() {
    let change = Change::new("change_test".to_string(), vec!["test".to_string()])
        .id("firstId")
        .update("content.data", &ChangeOperator::Add, "{\"a\":\"a\",\"b\":\"b\"}");
    assert_eq!(
        change.query_str(),
        "UPDATE change_test SET content.data += {\"a\":\"a\",\"b\":\"b\"} \
         WHERE owner == \"test\" AND id = change_test:firstId;"
    );
}

#[test]
fn change_update_serialized_literal() {
    // the literal form of a structured value, as its standard external
    // serialization produces it
    let mut inner = serde_json::Map::new();
    inner.insert("a".to_string(), serde_json::Value::String("a".to_string()));
    inner.insert("b".to_string(), serde_json::Value::String("b".to_string()));
    let literal = serde_json::to_string(&serde_json::Value::Object(inner)).unwrap();
    let change = Change::new("change_test".to_string(), vec![])
        .update("content.data", &ChangeOperator::Add, &literal);
    assert_eq!(
        change.query_str(),
        "UPDATE change_test SET content.data += {\"a\":\"a\",\"b\":\"b\"};"
    );
}

#[test]
fn change_assignments_comma_joined() {
    let change = Change::new("change_test".to_string(), vec![])
        .update("content.a", &ChangeOperator::Assign, "1")
        .update("content.b", &ChangeOperator::Remove, "2");
    assert_eq!(
        change.query_str(),
        "UPDATE change_test SET content.a = 1, content.b -= 2;"
    );
}

#[test]
fn change_without_condition_has_no_where() {
    let change = Change::new("change_test".to_string(), vec!["admin".to_string()])
        .update("content.a", &ChangeOperator::Assign, "1");
    assert_eq!(change.query_str(), "UPDATE change_test SET content.a = 1;");
}

#[test]
fn first_of_results_or_not_found() {
    let rows: Vec<u64> = vec![7, 8];
    assert_eq!(fancy_surreal::first_or_not_found(rows).unwrap(), 7);
    let empty: Vec<u64> = vec![];
    assert_eq!(
        fancy_surreal::first_or_not_found(empty).err().unwrap(),
        fancy_surreal::Error::FancySurreal("404 Not Found".to_string())
    );
}

#[test]
fn take_first_of_direct_results() {
    let rows: Vec<String> = vec!["A".to_string(), "B".to_string()];
    assert_eq!(fancy_surreal::take_first(rows), "A".to_string());
}
