use fancy_surreal::{
    auth_decision, fold_batch, single_mutation_result, update_one_outcome, Client, Error, Item,
    Record, RecordId, UpdateOutcome,
};

fn item(id: Option<&str>, data: &str) -> Item {
    Item { id: id.map(|s| s.to_string()), data: data.to_string() }
}

#[test]
fn scoping_calls_derive_new_configurations() {
    let base = Client::new();
    assert_eq!(base.table, None);
    assert!(base.owners.is_empty());

    let scoped = base.table("test_table").owner("test_user");
    assert_eq!(scoped.table, Some("test_table".to_string()));
    assert_eq!(scoped.owners, vec!["test_user".to_string()]);

    // the original configuration is unaffected
    assert_eq!(base.table, None);
    assert!(base.owners.is_empty());

    let multi = scoped.owners(vec!["owner_a".to_string(), "owner_b".to_string()]);
    assert_eq!(multi.table, Some("test_table".to_string()));
    assert_eq!(multi.owners, vec!["owner_a".to_string(), "owner_b".to_string()]);
    assert_eq!(scoped.owners, vec!["test_user".to_string()]);
}

#[test]
fn select_without_table_is_refused() {
    let err = Client::new().select().err().unwrap();
    assert_eq!(err, Error::FancySurreal("table is none".to_string()));
}

#[test]
fn change_without_table_is_refused() {
    let err = Client::new().owner("test_user").change().err().unwrap();
    assert_eq!(err, Error::FancySurreal("table is none".to_string()));
}

#[test]
fn select_builder_carries_scope() {
    let select = Client::new()
        .table("test_table")
        .owner("test_user")
        .select()
        .unwrap();
    assert_eq!(
        select.query_str(),
        "SELECT * FROM test_table WHERE owner == \"test_user\";"
    );
}

#[test]
fn auth_plan_empty_scope_needs_no_queries() {
    let plan = Client::new().table("test_table").auth_plan("firstId").unwrap();
    assert!(plan.is_none());
}

#[test]
fn auth_plan_admin_scope_needs_no_queries() {
    let plan = Client::new()
        .table("test_table")
        .owner("admin")
        .auth_plan("firstId")
        .unwrap();
    assert!(plan.is_none());
}

#[test]
fn auth_plan_renders_both_count_queries() {
    let plan = Client::new()
        .table("test_table")
        .owner("test_user")
        .auth_plan("firstId")
        .unwrap()
        .unwrap();
    assert_eq!(
        plan.exists_query,
        "count(SELECT id FROM test_table WHERE id == test_table:firstId) == 1;"
    );
    assert_eq!(
        plan.owned_query,
        "count(SELECT id FROM test_table WHERE id ==test_table:firstId AND owner == \"test_user\") == 1;"
    );
}

#[test]
fn auth_plan_multi_owner_membership() {
    let plan = Client::new()
        .table("multi_owners")
        .owners(vec!["owner_a".to_string(), "owner_b".to_string()])
        .auth_plan("a")
        .unwrap()
        .unwrap();
    assert_eq!(
        plan.owned_query,
        "count(SELECT id FROM multi_owners WHERE id ==multi_owners:a AND owner in [\"owner_a\",\"owner_b\"]) == 1;"
    );
}

#[test]
fn auth_decision_absent_record_passes_through() {
    assert!(auth_decision(false, false).is_ok());
    assert!(auth_decision(false, true).is_ok());
}

#[test]
fn auth_decision_owned_record_is_allowed() {
    assert!(auth_decision(true, true).is_ok());
}

#[test]
fn auth_decision_foreign_record_is_refused() {
    let err = auth_decision(true, false).err().unwrap();
    assert_eq!(err, Error::FancySurreal("not authorized".to_string()));
}

#[test]
fn create_plan_with_identity_targets_that_key() {
    let plan = Client::new()
        .table("test_table")
        .owner("test_user")
        .create_one_plan(item(Some("firstId"), "firstData"))
        .unwrap();
    assert_eq!(plan.table, "test_table");
    assert_eq!(plan.key, Some("firstId".to_string()));
    assert_eq!(
        plan.record.id,
        Some(RecordId { table: "test_table".to_string(), key: "firstId".to_string() })
    );
    assert_eq!(plan.record.owner, Some("test_user".to_string()));
    assert_eq!(plan.record.content, item(None, "firstData"));
}

#[test]
fn create_plan_without_identity_lets_store_assign() {
    let plan = Client::new()
        .table("test_table")
        .owner("test_user")
        .create_one_plan(item(None, "secondData"))
        .unwrap();
    assert_eq!(plan.key, None);
    assert_eq!(plan.record.id, None);
    assert_eq!(plan.record.content, item(None, "secondData"));
}

#[test]
fn create_plan_without_table_is_refused() {
    let err = Client::new()
        .owner("test_user")
        .create_one_plan(item(None, "secondData"))
        .err()
        .unwrap();
    assert_eq!(err, Error::FancySurreal("no table given".to_string()));
}

#[test]
fn update_plan_requires_identity() {
    let err = Client::new()
        .table("test_table")
        .owner("test_user")
        .update_one_plan(item(None, "firstData"))
        .err()
        .unwrap();
    assert_eq!(err, Error::FancySurreal("no id given".to_string()));
}

#[test]
fn update_plan_carries_authorization_queries() {
    let plan = Client::new()
        .table("test_table")
        .owner("test_user")
        .update_one_plan(item(Some("firstId"), "firstDataUpdated"))
        .unwrap();
    assert_eq!(plan.table, "test_table");
    assert_eq!(plan.key, "firstId");
    let auth = plan.auth.unwrap();
    assert_eq!(
        auth.exists_query,
        "count(SELECT id FROM test_table WHERE id == test_table:firstId) == 1;"
    );
    assert_eq!(plan.record.content, item(None, "firstDataUpdated"));
}

#[test]
fn update_plan_unrestricted_scope_skips_authorization() {
    let plan = Client::new()
        .table("test_table")
        .update_one_plan(item(Some("firstId"), "firstData"))
        .unwrap();
    assert!(plan.auth.is_none());
}

#[test]
fn update_outcome_present_row_is_done() {
    let row = Record {
        id: Some(RecordId { table: "test_table".to_string(), key: "firstId".to_string() }),
        owner: Some("test_user".to_string()),
        content: item(None, "firstDataUpdated"),
    };
    match update_one_outcome(Some(row)) {
        UpdateOutcome::Done(rows) => {
            assert_eq!(rows, vec![item(Some("firstId"), "firstDataUpdated")]);
        },
        UpdateOutcome::CreateFallback => panic!("a returned row must not fall back"),
    }
}

#[test]
fn update_outcome_absent_row_falls_back_to_create() {
    // the upsert branch: no matching row, so the item is created, and
    // unwrapping the created envelope hands back the assigned identity
    match update_one_outcome::<Item>(None) {
        UpdateOutcome::Done(_) => panic!("an absent row must fall back"),
        UpdateOutcome::CreateFallback => {},
    }
    let created = Record {
        id: Some(RecordId { table: "test_table".to_string(), key: "assigned".to_string() }),
        owner: Some("test_user".to_string()),
        content: item(None, "firstData"),
    };
    let rows = single_mutation_result(Some(created)).unwrap();
    assert_eq!(rows, vec![item(Some("assigned"), "firstData")]);
}

#[test]
fn single_mutation_without_row_is_refused() {
    let err = single_mutation_result::<Item>(None).err().unwrap();
    assert_eq!(err, Error::FancySurreal("record is none".to_string()));
}

#[test]
fn fold_batch_joins_successes_in_input_order() {
    let results: Vec<Result<Vec<Item>, Error>> = vec![
        Ok(vec![item(Some("firstId"), "firstData")]),
        Ok(vec![item(Some("secondId"), "secondData")]),
    ];
    assert_eq!(
        fold_batch(results).unwrap(),
        vec![
            item(Some("firstId"), "firstData"),
            item(Some("secondId"), "secondData"),
        ]
    );
}

#[test]
fn fold_batch_reports_first_failure_in_input_order() {
    // every item was attempted; item one's error is the report, the
    // later failure is discarded
    let results: Vec<Result<Vec<Item>, Error>> = vec![
        Ok(vec![item(Some("firstId"), "firstData")]),
        Err(Error::FancySurreal("not authorized".to_string())),
        Err(Error::Surreal("connection reset".to_string())),
        Ok(vec![item(Some("secondId"), "secondData")]),
    ];
    assert_eq!(
        fold_batch(results).err().unwrap(),
        Error::FancySurreal("not authorized".to_string())
    );
}

#[test]
fn fold_batch_of_nothing_is_empty_success() {
    let results: Vec<Result<Vec<Item>, Error>> = vec![];
    assert_eq!(fold_batch(results).unwrap(), Vec::<Item>::new());
}

#[test]
fn two_item_create_and_update_scenario() {
    // one item at an explicit identity, one left for the store to key
    let scope = Client::new().table("test_table").owner("test_user");
    let first = scope.create_one_plan(item(Some("firstId"), "firstData")).unwrap();
    let second = scope.create_one_plan(item(None, "secondData")).unwrap();
    assert_eq!(first.key, Some("firstId".to_string()));
    assert_eq!(second.key, None);

    // both rows come back under the owner's select
    let select = scope.clone().select().unwrap();
    assert_eq!(
        select.query_str(),
        "SELECT * FROM test_table WHERE owner == \"test_user\";"
    );

    // updating the first item re-addresses exactly that identity
    let update = scope
        .update_one_plan(item(Some("firstId"), "firstDataUpdated"))
        .unwrap();
    assert_eq!(update.key, "firstId");
    assert_eq!(update.record.content, item(None, "firstDataUpdated"));

    // re-selecting by that identity pins the one row
    let by_id = scope.clone().select().unwrap().id("firstId");
    assert_eq!(
        by_id.query_str(),
        "SELECT * FROM test_table WHERE owner == \"test_user\" AND id = test_table:firstId;"
    );
}
