use visdata::openfga::checker::{check_answer, entity_ids_for_type, plan_check, plan_list_objects, CheckPlan};
use visdata::openfga::client::{
    choose_store, chunk_tuples, initial_tuple_batches, request_failure, require_store, store_url,
    tuple_matches, write_request, ReadPager, StoreChoice,
};
use visdata::openfga::error::Error;
use visdata::openfga::groups::{
    group_lookup_result, group_member_filter, group_names, group_role_tuples, group_roles_filter,
    group_user_tuples, org_group_names, org_role_names, plan_create_group, user_groups_filter,
    user_role_names, user_roles_filter,
};
use visdata::openfga::mapping;
use visdata::openfga::resources::{
    get_all_resources, get_child_resources, get_resource, get_top_level_resources,
    is_all_org_entity, parse_object, resource_types,
};
use visdata::openfga::roles::{
    custom_role_options, list_system_roles, permission_to_relation, plan_create_role,
    plan_delete_role, relation_to_permission, role_names, role_permission_entries,
    role_permission_tuples, role_user_tuples, role_users_filter, user_emails,
};
use visdata::openfga::schema::{
    get_initial_tuples, group_type, org_type, resource_object, resource_object_all, role_type,
    user_type,
};
use visdata::openfga::tuples::{
    get_add_user_to_org_tuples, get_delete_all_user_from_org_tuples, get_group_member_tuple,
    get_user_crole_tuple, role_to_fga_relation,
};
use visdata::openfga::types::{
    Permission, PermissionEntry, ReadResponse, Store, Tuple, TupleKey, TupleKeyFilter,
};
use visdata::text::capitalize;

#[test]
fn test_tuple_key() {
    let key = TupleKey::new("user:alice", "viewer", "document:doc1");
    assert_eq!(key.user, "user:alice");
    assert_eq!(key.relation, "viewer");
    assert_eq!(key.object, "document:doc1");
}

#[test]
fn test_ofga_models_contains_required_types() {
    let models = mapping::ofga_models();
    for key in ["user", "group", "role", "org", "logs", "dashboard", "alert"] {
        assert!(models.iter().any(|r| r.key == key), "missing {key}");
    }
}

#[test]
fn mapping_test_stream_hierarchy() {
    let logs = mapping::get_resource("logs").unwrap();
    assert_eq!(logs.parent.as_deref(), Some("stream"));

    let metrics = mapping::get_resource("metrics").unwrap();
    assert_eq!(metrics.parent.as_deref(), Some("stream"));

    let traces = mapping::get_resource("traces").unwrap();
    assert_eq!(traces.parent.as_deref(), Some("stream"));
}

#[test]
fn mapping_test_dashboard_hierarchy() {
    let dashboard = mapping::get_resource("dashboard").unwrap();
    assert_eq!(dashboard.parent.as_deref(), Some("dfolder"));
}

#[test]
fn test_get_visible_resources() {
    let visible = mapping::get_visible_resources();
    assert!(!visible.is_empty());
    assert!(!visible.iter().any(|r| r.key == "stream"));
}

#[test]
fn mapping_test_get_child_resources() {
    let stream_children = mapping::get_child_resources("stream");
    assert!(!stream_children.is_empty());
    assert!(stream_children.iter().any(|r| r.key == "logs"));
    assert!(stream_children.iter().any(|r| r.key == "metrics"));
    assert!(stream_children.iter().any(|r| r.key == "traces"));
}

#[test]
fn test_non_cloud_resources() {
    let keys = mapping::non_cloud_resource_keys();
    assert!(keys.contains(&"license"));
    assert!(keys.contains(&"cipher_keys"));
    assert!(!keys.contains(&"logs"));
}

#[test]
fn test_resource_types_count() {
    assert!(resource_types().len() >= 30);
}

#[test]
fn test_core_types_exist() {
    assert!(get_resource("user").is_some());
    assert!(get_resource("group").is_some());
    assert!(get_resource("role").is_some());
    assert!(get_resource("org").is_some());
}

#[test]
fn resources_test_stream_hierarchy() {
    assert!(get_resource("stream").is_some());
    assert!(get_resource("logs").is_some());
    assert!(get_resource("metrics").is_some());
    assert!(get_resource("traces").is_some());
    assert!(get_resource("index").is_some());

    let logs = get_resource("logs").unwrap();
    assert_eq!(logs.parent.as_deref(), Some("stream"));
}

#[test]
fn resources_test_dashboard_hierarchy() {
    assert!(get_resource("dfolder").is_some());
    assert!(get_resource("dashboard").is_some());

    let dashboard = get_resource("dashboard").unwrap();
    assert_eq!(dashboard.parent.as_deref(), Some("dfolder"));
}

#[test]
fn test_alert_hierarchy() {
    assert!(get_resource("afolder").is_some());
    assert!(get_resource("alert").is_some());
    assert!(get_resource("destination").is_some());

    let alert = get_resource("alert").unwrap();
    assert_eq!(alert.parent.as_deref(), Some("afolder"));
}

#[test]
fn test_report_hierarchy() {
    assert!(get_resource("rfolder").is_some());
    assert!(get_resource("report").is_some());

    let report = get_resource("report").unwrap();
    assert_eq!(report.parent.as_deref(), Some("rfolder"));
}

#[test]
fn test_get_all_resources() {
    let resources = get_all_resources();
    assert!(!resources.is_empty());
    for i in 1..resources.len() {
        assert!(resources[i - 1].order <= resources[i].order);
    }
}

#[test]
fn test_get_top_level_resources() {
    let resources = get_top_level_resources();
    assert!(!resources.is_empty());
    for r in resources {
        assert!(r.parent.is_none());
    }
}

#[test]
fn resources_test_get_child_resources() {
    let children = get_child_resources("stream");
    assert!(!children.is_empty());
    assert!(children.iter().any(|r| r.key == "logs"));
    assert!(children.iter().any(|r| r.key == "metrics"));
    assert!(children.iter().any(|r| r.key == "traces"));
}

#[test]
fn test_parse_object() {
    let result = parse_object("logs:my_stream");
    assert_eq!(result, Some(("logs", "my_stream")));

    let result = parse_object("dashboard:folder/dash1");
    assert_eq!(result, Some(("dashboard", "folder/dash1")));
}

#[test]
fn test_is_all_org_entity() {
    assert!(is_all_org_entity("_all_org123", "org123"));
    assert!(is_all_org_entity("_all", "org123"));
    assert!(is_all_org_entity("_all_default", "default"));
    assert!(!is_all_org_entity("my_stream", "org123"));
}

#[test]
fn test_type_generation() {
    assert_eq!(org_type("default"), "org:default");
    assert_eq!(user_type("alice@example.com"), "user:alice@example.com");
    assert_eq!(role_type("default", "admin"), "role:default_admin");
    assert_eq!(group_type("default", "developers"), "group:default_developers");
    assert_eq!(resource_object("logs", "my_stream"), "logs:my_stream");
    assert_eq!(resource_object_all("default", "dfolder"), "dfolder:_all_default");
}

#[test]
fn test_initial_tuples_not_empty() {
    let tuples = get_initial_tuples();
    assert!(!tuples.is_empty());
    assert!(tuples.iter().any(|t| t.user.contains("root@visdata.com")));
    assert!(tuples.iter().any(|t| t.user == "org:default" || t.object.contains("default")));
    assert!(tuples.iter().any(|t| t.user == "org:_meta" || t.object.contains("_meta")));
}

#[test]
fn checker_test_permission_to_relation() {
    assert_eq!(Permission::AllowAll.to_relation(), "admin");
    assert_eq!(Permission::AllowGet.to_relation(), "can_read");
    assert_eq!(Permission::AllowList.to_relation(), "can_list");
    assert_eq!(Permission::AllowPost.to_relation(), "can_create");
    assert_eq!(Permission::AllowPut.to_relation(), "can_update");
    assert_eq!(Permission::AllowDelete.to_relation(), "can_delete");
}

#[test]
fn checker_test_permission_from_method() {
    assert_eq!(Permission::from_method("GET", false), Permission::AllowGet);
    assert_eq!(Permission::from_method("GET", true), Permission::AllowList);
    assert_eq!(Permission::from_method("POST", false), Permission::AllowPost);
    assert_eq!(Permission::from_method("PUT", false), Permission::AllowPut);
    assert_eq!(Permission::from_method("DELETE", false), Permission::AllowDelete);
}

#[test]
fn groups_test_capitalize() {
    assert_eq!(capitalize("developers"), "Developers");
    assert_eq!(capitalize(""), "");
}

#[test]
fn test_permission_conversion() {
    assert_eq!(permission_to_relation("AllowAll"), "ALLOW_ALL");
    assert_eq!(permission_to_relation("AllowGet"), "ALLOW_GET");
    assert_eq!(relation_to_permission("ALLOW_ALL"), "AllowAll");
    assert_eq!(relation_to_permission("ALLOW_GET"), "AllowGet");
}

#[test]
fn roles_test_capitalize() {
    assert_eq!(capitalize("admin"), "Admin");
    assert_eq!(capitalize("viewer"), "Viewer");
    assert_eq!(capitalize("developer"), "Developer");
    assert_eq!(capitalize(""), "");
}

#[test]
fn test_get_add_user_to_org_tuples() {
    let mut tuples = Vec::new();
    get_add_user_to_org_tuples("default", "alice@example.com", "admin", &mut tuples);

    assert_eq!(tuples.len(), 2);
    assert_eq!(tuples[0].user, "user:alice@example.com");
    assert_eq!(tuples[0].relation, "admin");
    assert_eq!(tuples[0].object, "org:default");
    assert_eq!(tuples[1].user, "user:alice@example.com");
    assert_eq!(tuples[1].relation, "org_context");
    assert_eq!(tuples[1].object, "org:default");
}

#[test]
fn test_get_user_crole_tuple() {
    let tuple = get_user_crole_tuple("default", "developer", "bob@example.com");

    assert_eq!(tuple.user, "user:bob@example.com");
    assert_eq!(tuple.relation, "assigned");
    assert_eq!(tuple.object, "role:default_developer");
}

#[test]
fn test_get_group_member_tuple() {
    let tuple = get_group_member_tuple("default", "developers", "alice@example.com");

    assert_eq!(tuple.user, "user:alice@example.com");
    assert_eq!(tuple.relation, "member");
    assert_eq!(tuple.object, "group:default_developers");
}

#[test]
fn test_role_to_fga_relation() {
    assert_eq!(role_to_fga_relation("Admin"), "admin");
    assert_eq!(role_to_fga_relation("admin"), "admin");
    assert_eq!(role_to_fga_relation("Root"), "admin");
    assert_eq!(role_to_fga_relation("Editor"), "editor");
    assert_eq!(role_to_fga_relation("Viewer"), "viewer");
    assert_eq!(role_to_fga_relation("User"), "allowed_user");
    assert_eq!(role_to_fga_relation("ServiceAccount"), "allowed_user");
}

#[test]
fn test_get_add_user_to_org_tuples_with_editor() {
    let mut tuples = Vec::new();
    get_add_user_to_org_tuples("myorg", "bob@example.com", "Editor", &mut tuples);

    assert_eq!(tuples.len(), 2);
    assert_eq!(tuples[0].relation, "editor");
    assert_eq!(tuples[1].relation, "org_context");
}

#[test]
fn test_get_add_user_to_org_tuples_with_viewer() {
    let mut tuples = Vec::new();
    get_add_user_to_org_tuples("myorg", "carol@example.com", "Viewer", &mut tuples);

    assert_eq!(tuples.len(), 2);
    assert_eq!(tuples[0].relation, "viewer");
    assert_eq!(tuples[1].relation, "org_context");
}

#[test]
fn test_get_delete_all_user_from_org_tuples() {
    let mut tuples = Vec::new();
    get_delete_all_user_from_org_tuples("default", "alice@example.com", &mut tuples);

    assert_eq!(tuples.len(), 5);
    let relations: Vec<&str> = tuples.iter().map(|t| t.relation.as_str()).collect();
    assert!(relations.contains(&"admin"));
    assert!(relations.contains(&"editor"));
    assert!(relations.contains(&"viewer"));
    assert!(relations.contains(&"allowed_user"));
    assert!(relations.contains(&"org_context"));
}

#[test]
fn removing_all_roles_covers_every_added_tuple() {
    for role in ["admin", "Editor", "viewer", "user", "Root", "something"] {
        let mut added = Vec::new();
        get_add_user_to_org_tuples("o", "u@x", role, &mut added);
        let mut removed = Vec::new();
        get_delete_all_user_from_org_tuples("o", "u@x", &mut removed);
        for t in &added {
            assert!(removed.contains(t), "{role}: {t:?}");
        }
    }
}

fn tuple(user: &str, relation: &str, object: &str) -> Tuple {
    Tuple { key: TupleKey::new(user, relation, object), timestamp: None }
}

#[test]
fn checks_follow_the_plan() {
    match plan_check(false, "o", "u", "GET", "logs:s", "viewer") {
        CheckPlan::Decided(true) => {}
        _ => panic!("disabled checks pass"),
    }
    match plan_check(true, "o", "u", "DELETE", "logs:s", "ROOT") {
        CheckPlan::Decided(true) => {}
        _ => panic!("root passes"),
    }
    match plan_check(true, "o", "u", "GET", "nocolon", "viewer") {
        CheckPlan::Decided(false) => {}
        _ => panic!("malformed object is refused"),
    }
    match plan_check(true, "o", "u", "GET", "nosuchtype:x", "viewer") {
        CheckPlan::Decided(false) => {}
        _ => panic!("unknown type is refused"),
    }
    match plan_check(true, "o", "alice", "get", "logs:_all_o", "viewer") {
        CheckPlan::Ask(k) => {
            assert_eq!(k, TupleKey::new("user:alice", "can_list", "logs:_all_o"));
        }
        _ => panic!("list check asks"),
    }
    match plan_check(true, "o", "alice", "PUT", "dashboard:d1", "viewer") {
        CheckPlan::Ask(k) => assert_eq!(k, TupleKey::new("user:alice", "can_update", "dashboard:d1")),
        _ => panic!("entity check asks"),
    }
    assert!(check_answer(Some(true)));
    assert!(!check_answer(Some(false)));
    assert!(!check_answer(None));
}

#[test]
fn listing_objects_is_planned_and_filtered() {
    assert_eq!(plan_list_objects(true, false, "u", "AllowList", "viewer"), None);
    assert_eq!(plan_list_objects(true, true, "u", "AllowList", "root"), None);
    assert_eq!(
        plan_list_objects(true, true, "u", "AllowList", "viewer"),
        Some(("user:u".to_string(), "can_list"))
    );
    assert_eq!(
        plan_list_objects(true, true, "u", "bogus", "viewer"),
        Some(("user:u".to_string(), "can_read"))
    );
    let objects = vec![
        "resource:o_dashboard_d1".to_string(),
        "resource:o_alert_a1".to_string(),
        "resource:p_dashboard_d2".to_string(),
        "resource:o_dashboard_d3".to_string(),
    ];
    assert_eq!(entity_ids_for_type(&objects, "o", "dashboard"), vec!["d1", "d3"]);
}

#[test]
fn roles_are_listed_sorted_and_unique() {
    let tuples = vec![
        tuple("org:o", "owningOrg", "role:o_zeta"),
        tuple("org:o", "owningOrg", "role:o_alpha"),
        tuple("org:o", "owningOrg", "role:o_Admin"),
        tuple("org:o", "owningOrg", "role:o_alpha"),
        tuple("org:p", "owningOrg", "role:o_other"),
        tuple("org:o", "member", "role:o_beta"),
    ];
    assert_eq!(role_names(&tuples, "o"), vec!["alpha", "zeta"]);
}

#[test]
fn creating_roles_checks_names() {
    let existing = vec!["dev".to_string()];
    assert_eq!(
        plan_create_role(&existing, "o", "DEV"),
        Err(Error::DuplicateEntry("Role 'DEV' already exists".into()))
    );
    assert_eq!(
        plan_create_role(&existing, "o", "Viewer"),
        Err(Error::Validation("Cannot create role with system name: Viewer".into()))
    );
    assert_eq!(
        plan_create_role(&existing, "o", "ops"),
        Ok(TupleKey::new("org:o", "owningOrg", "role:o_ops"))
    );
    assert_eq!(
        plan_delete_role("o", "admin").unwrap_err(),
        Error::Validation("Cannot delete system role: admin".into())
    );
    let (on_role, by_role) = plan_delete_role("o", "ops").unwrap();
    assert_eq!(on_role.object.as_deref(), Some("role:o_ops"));
    assert_eq!(by_role.user.as_deref(), Some("role:o_ops#has"));
}

#[test]
fn role_options_are_capitalized() {
    let system = list_system_roles("o");
    let labels: Vec<&str> = system.iter().map(|o| o.label.as_str()).collect();
    assert_eq!(labels, vec!["Admin", "Editor", "Viewer"]);
    let custom = custom_role_options(&vec!["Ops".to_string(), "viewer".to_string()]);
    assert_eq!(custom.len(), 1);
    assert_eq!(custom[0].label, "Ops");
    assert_eq!(custom[0].value, "ops");
}

#[test]
fn role_permissions_round_trip() {
    let entries = vec![
        PermissionEntry { object: "logs:_all_o".into(), permission: "AllowList".into() },
        PermissionEntry { object: "dashboard:d1".into(), permission: "allowput".into() },
        PermissionEntry { object: "broken".into(), permission: "AllowAll".into() },
    ];
    let keys = role_permission_tuples("o", "ops", &entries);
    assert_eq!(
        keys,
        vec![
            TupleKey::new("role:o_ops#has", "ALLOW_LIST", "logs:_all_o"),
            TupleKey::new("role:o_ops#has", "ALLOW_PUT", "dashboard:d1"),
        ]
    );
    let stored = vec![
        tuple("role:o_ops#has", "ALLOW_GET", "dfolder:_all_o"),
        tuple("role:o_ops#has", "ALLOW_DELETE", "dfolder:f1"),
        tuple("role:o_ops#has", "ALLOW_GET", "logs:s"),
        tuple("role:o_ops#has", "ALLOW_GET", "dfolderx:f2"),
    ];
    let found = role_permission_entries(&stored, "o", "dfolder");
    assert_eq!(
        found,
        vec![
            PermissionEntry { object: "dfolder:_all_o".into(), permission: "AllowGet".into() },
            PermissionEntry { object: "dfolder:f1".into(), permission: "AllowDelete".into() },
        ]
    );
}

#[test]
fn granted_role_permissions_are_read_back() {
    let granted = vec![
        PermissionEntry { object: "logs:stream1".into(), permission: "AllowGet".into() },
        PermissionEntry { object: "logs:_all_o".into(), permission: "AllowDelete".into() },
    ];
    let written = role_permission_tuples("o", "ops", &granted);
    let filter = visdata::openfga::roles::role_permissions_filter("o", "ops");
    assert!(written.iter().all(|k| tuple_matches(k, &filter)));
    let stored: Vec<Tuple> = written.iter().map(|k| Tuple { key: k.clone(), timestamp: None }).collect();
    assert_eq!(role_permission_entries(&stored, "o", "logs"), granted);
}

#[test]
fn groups_are_listed_and_looked_up() {
    let tuples = vec![
        tuple("org:o", "owningOrg", "group:o_devs"),
        tuple("user:a", "member", "group:o_ops"),
        tuple("user:a", "member", "group:p_x"),
        tuple("org:o", "owningOrg", "group:o_devs"),
    ];
    assert_eq!(group_names(&tuples, "o"), vec!["devs", "ops"]);
    assert_eq!(
        plan_create_group(&vec!["Devs".to_string()], "o", "devs"),
        Err(Error::DuplicateEntry("Group 'devs' already exists".into()))
    );
    assert_eq!(
        group_lookup_result("devs", vec![], vec![], false, "id".into(), 5).unwrap_err(),
        Error::GroupNotFound("devs".into())
    );
    let g = group_lookup_result("devs", vec!["a".into()], vec![], false, "id".into(), 5).unwrap();
    assert_eq!(g.display_name.as_deref(), Some("Devs"));
    assert_eq!(g.created_at, 5);
    let direct = vec![tuple("user:a", "assigned", "role:o_b"), tuple("user:a", "assigned", "role:p_c")];
    let via_groups = vec![vec![tuple("group:o_g", "grp_assigned", "role:o_a")], vec![tuple("group:o_h", "grp_assigned", "role:o_b")]];
    assert_eq!(user_role_names(&direct, &via_groups, "o"), vec!["a", "b"]);
}

#[test]
fn store_requests_need_a_store() {
    assert_eq!(require_store(""), Err(Error::StoreNotFound));
    assert_eq!(require_store("s1"), Ok(()));
    assert_eq!(store_url("http://fga", "s1", "check"), "http://fga/stores/s1/check");
    assert_eq!(
        request_failure("Check failed", "500 Internal Server Error", "boom"),
        Error::OpenFGA("Check failed: 500 Internal Server Error - boom".into())
    );
    let req = write_request(vec![TupleKey::new("a", "b", "c")], vec![], &Some("m".into()));
    assert!(req.writes.is_some() && req.deletes.is_none());
    assert_eq!(req.authorization_model_id.as_deref(), Some("m"));
}

#[test]
fn stores_are_chosen_by_name() {
    let stores = vec![
        Store { id: "1".into(), name: "other".into(), created_at: None, updated_at: None },
        Store { id: "2".into(), name: "openobserve".into(), created_at: None, updated_at: None },
        Store { id: "3".into(), name: "openobserve".into(), created_at: None, updated_at: None },
    ];
    match choose_store(&stores, "openobserve") {
        StoreChoice::Existing(id) => assert_eq!(id, "2"),
        StoreChoice::Create(_) => panic!("store exists"),
    }
    match choose_store(&stores, "new") {
        StoreChoice::Create(req) => assert_eq!(req.name, "new"),
        StoreChoice::Existing(_) => panic!("no such store"),
    }
}

#[test]
fn tuples_are_written_in_batches_of_fifty() {
    let keys: Vec<TupleKey> = (0..120).map(|i| TupleKey::new(&format!("u{i}"), "r", "o")).collect();
    let batches = chunk_tuples(keys.clone(), 50);
    assert_eq!(batches.iter().map(|b| b.len()).collect::<Vec<_>>(), vec![50, 50, 20]);
    assert_eq!(batches.concat(), keys);
    let initial = initial_tuple_batches();
    assert_eq!(initial.concat(), get_initial_tuples());
    assert!(initial.iter().all(|b| !b.is_empty() && b.len() <= 50));
}

#[test]
fn reads_page_until_token_is_empty() {
    let filter = TupleKeyFilter { user: Some("user:a".into()), relation: None, object: None };
    let mut pager = ReadPager::new(Some(filter));
    let first = pager.next_request().unwrap();
    assert!(first.tuple_key.is_none());
    assert_eq!(first.page_size, Some(100));
    pager.receive(ReadResponse {
        tuples: vec![tuple("user:a", "member", "group:o_x"), tuple("user:b", "member", "group:o_x")],
        continuation_token: Some("t1".into()),
    });
    let second = pager.next_request().unwrap();
    assert_eq!(second.continuation_token.as_deref(), Some("t1"));
    pager.receive(ReadResponse { tuples: vec![tuple("user:a", "assigned", "role:o_r")], continuation_token: Some(String::new()) });
    assert!(pager.next_request().is_none());
    let read = pager.finish();
    assert_eq!(read.len(), 2);
    assert!(read.iter().all(|t| t.key.user == "user:a"));

    let with_object = TupleKeyFilter { user: None, relation: None, object: Some("org:o".into()) };
    let pager = ReadPager::new(Some(with_object));
    assert_eq!(pager.next_request().unwrap().tuple_key.unwrap().object.as_deref(), Some("org:o"));
}

#[test]
fn openfga_error_texts_and_statuses() {
    assert_eq!(Error::StoreNotFound.message(), "OpenFGA store not found");
    assert_eq!(Error::NotInitialized("x".into()).status_code(), 503);
    assert_eq!(Error::GroupNotFound("g".into()).status_code(), 404);
    assert_eq!(Error::PermissionDenied("p".into()).status_code(), 403);
    assert_eq!(Error::DuplicateEntry("d".into()).status_code(), 409);
    assert_eq!(Error::Validation("v".into()).message(), "Validation error: v");
    assert_eq!(Error::Validation("v".into()).status_code(), 400);
    assert_eq!(Error::Http("timeout".into()).message(), "HTTP error: timeout");
    assert_eq!(Error::Http("timeout".into()).status_code(), 500);
}

#[test]
fn permission_names_parse_back() {
    for p in [
        Permission::AllowAll,
        Permission::AllowList,
        Permission::AllowGet,
        Permission::AllowPost,
        Permission::AllowPut,
        Permission::AllowDelete,
    ] {
        assert_eq!(Permission::from_str(p.as_str()), Some(p));
        assert_eq!(relation_to_permission(permission_to_relation(p.as_str())), p.as_str());
    }
}

#[test]
fn root_and_disabled_checks_allow_without_asking() {
    assert!(matches!(plan_check(true, "org1", "bob@x.com", "DELETE", "nonsense", "Root"), CheckPlan::Decided(true)));
    assert!(matches!(plan_check(false, "org1", "bob@x.com", "GET", "dashboard:d1", "viewer"), CheckPlan::Decided(true)));
}

#[test]
fn unknown_objects_are_denied() {
    assert!(matches!(plan_check(true, "org1", "bob@x.com", "GET", "no-colon", "viewer"), CheckPlan::Decided(false)));
    assert!(matches!(plan_check(true, "org1", "bob@x.com", "GET", "spaceship:s1", "viewer"), CheckPlan::Decided(false)));
}

#[test]
fn created_role_and_group_are_listed() {
    let key = plan_create_role(&vec![], "org1", "auditor").unwrap();
    let stored = vec![tuple("user:a@x.com", "member", "group:org1_ops"), Tuple { key, timestamp: None }];
    assert_eq!(role_names(&stored, "org1"), vec!["auditor".to_string()]);

    let gkey = plan_create_group(&vec![], "org1", "ops2").unwrap();
    let stored = vec![Tuple { key: gkey, timestamp: None }];
    assert_eq!(group_names(&stored, "org1"), vec!["ops2".to_string()]);
}

#[test]
fn role_assignment_is_read_back_from_both_sides() {
    let written = role_user_tuples("org1", "auditor", &vec!["a@x.com".to_string()]);
    let stored: Vec<Tuple> = written.iter().map(|k| Tuple { key: k.clone(), timestamp: None }).collect();
    assert!(tuple_matches(&written[0], &role_users_filter("org1", "auditor")));
    assert!(tuple_matches(&written[0], &user_roles_filter("a@x.com")));
    assert_eq!(user_emails(&stored), vec!["a@x.com".to_string()]);
    assert_eq!(org_role_names(&stored, "org1"), vec!["auditor".to_string()]);
}

#[test]
fn group_membership_and_roles_are_read_back() {
    let members = group_user_tuples("org1", "ops", &vec!["b@x.com".to_string()]);
    let stored: Vec<Tuple> = members.iter().map(|k| Tuple { key: k.clone(), timestamp: None }).collect();
    assert!(tuple_matches(&members[0], &group_member_filter("org1", "ops")));
    assert!(tuple_matches(&members[0], &user_groups_filter("b@x.com")));
    assert_eq!(user_emails(&stored), vec!["b@x.com".to_string()]);
    assert_eq!(org_group_names(&stored, "org1"), vec!["ops".to_string()]);

    let roles = group_role_tuples("org1", "ops", &vec!["auditor".to_string()]);
    let stored: Vec<Tuple> = roles.iter().map(|k| Tuple { key: k.clone(), timestamp: None }).collect();
    assert!(tuple_matches(&roles[0], &group_roles_filter("org1", "ops")));
    assert_eq!(org_role_names(&stored, "org1"), vec!["auditor".to_string()]);
}

#[test]
fn object_names_parse_back() {
    let one = resource_object("dashboard", "d1");
    assert_eq!(parse_object(&one), Some(("dashboard", "d1")));
    let all = resource_object_all("org1", "dashboard");
    assert_eq!(parse_object(&all), Some(("dashboard", "_all_org1")));
    assert!(is_all_org_entity("_all_org1", "org1"));
}
