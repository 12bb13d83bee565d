use seeker::store::{projects_from_rows, Project, ProjectListResource};

fn mem_conn() -> rusqlite::Connection {
    rusqlite::Connection::open_in_memory().unwrap()
}

#[test]
fn test_project() {
    let conn = mem_conn();
    let data = Project { project_name: "111".to_string(), path: "111".to_string() };

    if let Err(e) = data.insert_data(&conn) {
        println!("{}", e.message);
    };
}

#[test]
fn insert_then_select_all_roundtrip() {
    let conn = mem_conn();
    Project::create_table(&conn).unwrap();
    let p = Project { project_name: "demo".to_string(), path: "/work/demo".to_string() };
    assert_eq!(p.insert(&conn).unwrap(), 1);
    let q = Project { project_name: "other".to_string(), path: "/work/other".to_string() };
    assert_eq!(q.insert(&conn).unwrap(), 1);

    let all = Project::select_all(&conn).unwrap();
    assert_eq!(all.len(), 2);
    assert_eq!(all[0].project_name, "demo");
    assert_eq!(all[0].path, "/work/demo");
    assert_eq!(all[1].project_name, "other");
}

#[test]
fn insert_without_table_reports_error() {
    let conn = mem_conn();
    let p = Project { project_name: "x".to_string(), path: "/x".to_string() };
    let err = p.insert(&conn).unwrap_err();
    assert!(err.message.contains("no such table"));
}

#[test]
fn create_table_twice_reports_error() {
    let conn = mem_conn();
    Project::create_table(&conn).unwrap();
    assert!(Project::create_table(&conn).is_err());
}

#[test]
fn select_by_id_queries_leave_placeholder_unbound() {
    // The id queries send a `?` placeholder and bind nothing, so the
    // statement is refused by the driver.
    let conn = mem_conn();
    Project::create_table(&conn).unwrap();
    let p = Project { project_name: "x".to_string(), path: "/x".to_string() };
    p.insert(&conn).unwrap();
    assert!(Project::select_optional_by_id(&conn, 1).is_err());
    assert!(Project::select_one_by_id(&conn, 1).is_err());
}

#[test]
fn projects_from_rows_maps_each_row_in_order() {
    let rows = vec![
        ("a".to_string(), "/pa".to_string()),
        ("b".to_string(), "/pb".to_string()),
    ];
    let projects = projects_from_rows(rows);
    assert_eq!(projects.len(), 2);
    assert_eq!(projects[0].project_name, "a");
    assert_eq!(projects[0].path, "/pa");
    assert_eq!(projects[1].project_name, "b");
    assert_eq!(projects[1].path, "/pb");
}

#[test]
fn project_list_resource_holds_loaded_records() {
    let records = vec![Project { project_name: "a".to_string(), path: "/pa".to_string() }];
    let res = ProjectListResource::new(records);
    assert_eq!(res.projects.len(), 1);
    assert_eq!(res.projects[0].project_name, "a");
}
