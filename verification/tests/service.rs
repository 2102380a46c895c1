use todo_api::dispatch::handle;
use todo_api::error::HttpError;
use todo_api::models::{Todo, TodoPartial};
use todo_api::openapi::{asset_response, openapi_json, AssetLookup, ExplorerState};
use todo_api::routes::{match_path, Method, Target};
use todo_api::store::TodoStore;

fn explorer() -> ExplorerState {
    ExplorerState::new("/explorer/swagger.json")
}

fn get(store: &mut TodoStore, path: &str) -> todo_api::error::Response {
    let ex = explorer();
    handle(store, &ex, Method::Get, path.as_bytes(), b"")
}

fn post(store: &mut TodoStore, path: &str, body: &str) -> todo_api::error::Response {
    let ex = explorer();
    handle(store, &ex, Method::Post, path.as_bytes(), body.as_bytes())
}

fn put(store: &mut TodoStore, path: &str, body: &str) -> todo_api::error::Response {
    let ex = explorer();
    handle(store, &ex, Method::Put, path.as_bytes(), body.as_bytes())
}

fn delete(store: &mut TodoStore, path: &str) -> todo_api::error::Response {
    let ex = explorer();
    handle(store, &ex, Method::Delete, path.as_bytes(), b"")
}

fn body_json(r: &todo_api::error::Response) -> serde_json::Value {
    serde_json::from_slice(&r.body).expect("body must be valid JSON")
}

#[test]
fn list_starts_empty() {
    let mut store = TodoStore::new();
    let r = get(&mut store, "/todos");
    assert_eq!(r.status, 200);
    assert_eq!(r.body, b"[]".to_vec());
    assert_eq!(r.content_type, Some(b"application/json".to_vec()));
}

#[test]
fn create_returns_created_todo() {
    let mut store = TodoStore::new();
    let r = post(&mut store, "/todos", "{\"title\":\"write tests\"}");
    assert_eq!(r.status, 201);
    assert_eq!(
        String::from_utf8(r.body).unwrap(),
        "{\"id\":1,\"title\":\"write tests\",\"completed\":false}"
    );
}

#[test]
fn create_round_trips_title_with_escapes() {
    let mut store = TodoStore::new();
    let r = post(
        &mut store,
        "/todos",
        "{\"title\":\"a \\\"quoted\\\" t\\u00e9l\\u00e9phone\\n\"}",
    );
    assert_eq!(r.status, 201);
    let v = body_json(&r);
    assert_eq!(v["title"].as_str().unwrap(), "a \"quoted\" t\u{e9}l\u{e9}phone\n");
}

#[test]
fn create_without_title_is_rejected_before_creation() {
    let mut store = TodoStore::new();
    let r = post(&mut store, "/todos", "{\"text\":\"no title here\"}");
    assert_eq!(r.status, 400);
    let v = body_json(&r);
    assert_eq!(v["msg"].as_str().unwrap(), "invalid todo payload");
    // nothing was created
    let r = get(&mut store, "/todos");
    assert_eq!(r.body, b"[]".to_vec());
}

#[test]
fn create_with_malformed_json_is_rejected() {
    let mut store = TodoStore::new();
    assert_eq!(post(&mut store, "/todos", "{\"title\":\"x\"").status, 400);
    assert_eq!(post(&mut store, "/todos", "").status, 400);
    assert_eq!(post(&mut store, "/todos", "[1,2]").status, 400);
    assert_eq!(post(&mut store, "/todos", "{\"title\":5}").status, 400);
    assert_eq!(
        post(&mut store, "/todos", "{\"title\":\"a\",\"title\":\"b\"}").status,
        400
    );
}

#[test]
fn create_skips_unknown_members() {
    let mut store = TodoStore::new();
    let r = post(
        &mut store,
        "/todos",
        "{\"extra\":{\"deep\":[1,true,null,{\"x\":\"y\"}]},\"title\":\"kept\",\"n\":-1.5e3}",
    );
    assert_eq!(r.status, 201);
    assert_eq!(body_json(&r)["title"].as_str().unwrap(), "kept");
}

#[test]
fn get_present_and_absent_id() {
    let mut store = TodoStore::new();
    post(&mut store, "/todos", "{\"title\":\"one\"}");
    let r = get(&mut store, "/todos/1");
    assert_eq!(r.status, 200);
    let v = body_json(&r);
    assert_eq!(v["id"].as_i64().unwrap(), 1);
    assert_eq!(v["title"].as_str().unwrap(), "one");
    assert_eq!(v["completed"].as_bool().unwrap(), false);

    let r = get(&mut store, "/todos/2");
    assert_eq!(r.status, 404);
    assert_eq!(body_json(&r)["msg"].as_str().unwrap(), "todo not found");
}

#[test]
fn invalid_id_segment_is_not_found_with_error_body() {
    let mut store = TodoStore::new();
    for p in ["/todos/abc", "/todos/12x", "/todos/-3", "/todos/9999999999"] {
        let r = get(&mut store, p);
        assert_eq!(r.status, 404, "{}", p);
        assert_eq!(body_json(&r)["msg"].as_str().unwrap(), "todo not found");
    }
}

#[test]
fn update_replaces_title_and_keeps_completed() {
    let mut store = TodoStore::new();
    post(&mut store, "/todos", "{\"title\":\"old\"}");
    let r = put(&mut store, "/todos/1", "{\"title\":\"new\"}");
    assert_eq!(r.status, 200);
    let v = body_json(&r);
    assert_eq!(v["id"].as_i64().unwrap(), 1);
    assert_eq!(v["title"].as_str().unwrap(), "new");
    assert_eq!(v["completed"].as_bool().unwrap(), false);

    let r = put(&mut store, "/todos/7", "{\"title\":\"x\"}");
    assert_eq!(r.status, 404);
    let r = put(&mut store, "/todos/1", "{}");
    assert_eq!(r.status, 400);
}

#[test]
fn delete_then_delete_again_is_not_found() {
    let mut store = TodoStore::new();
    post(&mut store, "/todos", "{\"title\":\"gone soon\"}");
    let first = delete(&mut store, "/todos/1");
    assert_eq!(first.status, 200);
    assert_eq!(body_json(&first)["title"].as_str().unwrap(), "gone soon");
    let second = delete(&mut store, "/todos/1");
    assert_eq!(second.status, 404);
    assert_eq!(body_json(&second)["msg"].as_str().unwrap(), "todo not found");
}

#[test]
fn deleted_id_is_not_reused_for_lookup() {
    let mut store = TodoStore::new();
    post(&mut store, "/todos", "{\"title\":\"a\"}");
    post(&mut store, "/todos", "{\"title\":\"b\"}");
    delete(&mut store, "/todos/1");
    assert_eq!(get(&mut store, "/todos/1").status, 404);
    assert_eq!(get(&mut store, "/todos/2").status, 200);
    // the next creation takes a fresh id
    let r = post(&mut store, "/todos", "{\"title\":\"c\"}");
    assert_eq!(body_json(&r)["id"].as_i64().unwrap(), 3);
}

#[test]
fn unregistered_routes_return_bodiless_404() {
    let mut store = TodoStore::new();
    for p in ["/", "/nope", "/todos/", "/todos/1/sub", "/explorer", "/Todos"] {
        let r = get(&mut store, p);
        assert_eq!(r.status, 404, "{}", p);
        assert!(r.body.is_empty(), "{}", p);
        assert!(r.content_type.is_none(), "{}", p);
    }
    // registered path, unregistered method
    let r = put(&mut store, "/todos", "{\"title\":\"x\"}");
    assert_eq!(r.status, 404);
    assert!(r.body.is_empty());
    let r = delete(&mut store, "/todos");
    assert_eq!(r.status, 404);
    assert!(r.body.is_empty());
    let ex = explorer();
    let r = handle(&mut store, &ex, Method::Other, b"/todos", b"");
    assert_eq!(r.status, 404);
    assert!(r.body.is_empty());
    // ... while a handler's 404 carries the error envelope
    let r = get(&mut store, "/todos/1");
    assert_eq!(r.status, 404);
    assert!(!r.body.is_empty());
}

#[test]
fn default_response_is_bodiless_404() {
    let r = todo_api::dispatch::default();
    assert_eq!(r.status, 404);
    assert!(r.body.is_empty());
    assert!(r.content_type.is_none());
}

#[test]
fn swagger_json_is_valid_openapi_with_exactly_the_five_routes() {
    let doc = openapi_json();
    let v: serde_json::Value = serde_json::from_slice(&doc).expect("the document must parse");
    assert_eq!(v["openapi"].as_str().unwrap(), "3.0.3");
    let paths = v["paths"].as_object().unwrap();
    let mut keys: Vec<&String> = paths.keys().collect();
    keys.sort();
    assert_eq!(keys, ["/todos", "/todos/{id}"]);
    let collection = paths["/todos"].as_object().unwrap();
    let mut ops: Vec<&String> = collection.keys().collect();
    ops.sort();
    assert_eq!(ops, ["get", "post"]);
    let item = paths["/todos/{id}"].as_object().unwrap();
    let mut ops: Vec<&String> = item.keys().collect();
    ops.sort();
    assert_eq!(ops, ["delete", "get", "put"]);
    // declared status/schema pairs
    let list = &collection["get"]["responses"];
    assert_eq!(
        list["200"]["content"]["application/json"]["schema"]["items"]["$ref"]
            .as_str()
            .unwrap(),
        "#/components/schemas/Todo"
    );
    assert!(collection["post"]["responses"]["201"].is_object());
    assert_eq!(
        collection["post"]["requestBody"]["content"]["application/json"]["schema"]["$ref"]
            .as_str()
            .unwrap(),
        "#/components/schemas/TodoPartial"
    );
    for op in ["get", "put", "delete"] {
        let resp = item[op]["responses"].as_object().unwrap();
        let mut statuses: Vec<&String> = resp.keys().collect();
        statuses.sort();
        assert_eq!(statuses, ["200", "404"], "{}", op);
        assert_eq!(
            resp["404"]["content"]["application/json"]["schema"]["$ref"]
                .as_str()
                .unwrap(),
            "#/components/schemas/HttpError"
        );
    }
    // the schemas of the three models are declared
    let schemas = v["components"]["schemas"].as_object().unwrap();
    let mut names: Vec<&String> = schemas.keys().collect();
    names.sort();
    assert_eq!(names, ["HttpError", "Todo", "TodoPartial"]);
    // the error schema has no status property
    assert!(schemas["HttpError"]["properties"]["status"].is_null());
}

#[test]
fn swagger_json_served_through_dispatch() {
    let mut store = TodoStore::new();
    let r = get(&mut store, "/explorer/swagger.json");
    assert_eq!(r.status, 200);
    assert_eq!(r.content_type, Some(b"application/json".to_vec()));
    assert_eq!(r.body, openapi_json());
}

#[test]
fn explorer_serves_bundled_assets() {
    let mut store = TodoStore::new();
    let r = get(&mut store, "/explorer/");
    assert_eq!(r.status, 200);
    let ct = String::from_utf8(r.content_type.expect("an asset has a content type")).unwrap();
    assert!(ct.contains("html"), "{}", ct);
    assert!(!r.body.is_empty());
}

#[test]
fn explorer_missing_asset_names_the_path() {
    let mut store = TodoStore::new();
    let r = get(&mut store, "/explorer/nonexistent-asset");
    assert_eq!(r.status, 404);
    let v = body_json(&r);
    assert_eq!(v["msg"].as_str().unwrap(), "path not found: nonexistent-asset");
}

#[test]
fn asset_outcomes_map_to_responses() {
    let r = asset_response(
        b"style.css",
        AssetLookup::Found {
            content_type: b"text/css".to_vec(),
            bytes: b"body{}".to_vec(),
            gzipped: false,
        },
    )
    .unwrap();
    assert_eq!(r.status, 200);
    assert_eq!(r.content_type, Some(b"text/css".to_vec()));
    assert_eq!(r.body, b"body{}".to_vec());

    let e = asset_response(b"style.css", AssetLookup::NotFound).unwrap_err();
    assert_eq!(e.status, 404);
    assert_eq!(e.msg, b"path not found: style.css".to_vec());

    let e = asset_response(b"style.css", AssetLookup::Failed { msg: b"boom".to_vec() })
        .unwrap_err();
    assert_eq!(e.status, 500);
    assert_eq!(e.msg, b"Error serving Swagger UI: boom".to_vec());
}

#[test]
fn error_serialization_never_includes_status() {
    for status in [400u16, 404, 500, 503] {
        let e = HttpError::new(status, b"same message".to_vec());
        let body = e.body();
        let v: serde_json::Value = serde_json::from_slice(&body).unwrap();
        assert_eq!(v["msg"].as_str().unwrap(), "same message");
        assert!(v.as_object().unwrap().get("status").is_none());
        assert_eq!(v.as_object().unwrap().len(), 1);
        // equal messages serialize identically whatever the status
        assert_eq!(body, HttpError::new(200, b"same message".to_vec()).body());
    }
}

#[test]
fn error_body_escapes_the_message() {
    let e = HttpError::new(400, b"a \"b\" \\ c\n".to_vec());
    let v: serde_json::Value = serde_json::from_slice(&e.body()).unwrap();
    assert_eq!(v["msg"].as_str().unwrap(), "a \"b\" \\ c\n");
}

#[test]
fn error_display_form() {
    let e = HttpError::new(404, b"todo not found".to_vec());
    assert_eq!(e.display_bytes(), b"[404] todo not found".to_vec());
    assert_eq!(e.error_response().status, 404);
}

#[test]
fn todo_json_renders_negative_ids_and_escapes() {
    let t = Todo { id: -12, title: b"x\ty".to_vec(), completed: true };
    assert_eq!(
        String::from_utf8(t.to_json()).unwrap(),
        "{\"id\":-12,\"title\":\"x\\u0009y\",\"completed\":true}"
    );
}

#[test]
fn partial_from_body_validates_the_schema() {
    assert_eq!(
        TodoPartial::from_body(b" { \"title\" : \"ok\" } ").unwrap().title,
        b"ok".to_vec()
    );
    assert!(TodoPartial::from_body(b"{}").is_none());
    assert!(TodoPartial::from_body(b"null").is_none());
}

#[test]
fn router_targets() {
    assert!(matches!(match_path(b"/todos"), Target::TodoCollection));
    assert!(matches!(match_path(b"/todos/42"), Target::TodoItem(42)));
    assert!(matches!(match_path(b"/todos/007"), Target::TodoItem(7)));
    assert!(matches!(match_path(b"/todos/2147483647"), Target::TodoItem(2147483647)));
    assert!(matches!(match_path(b"/todos/2147483648"), Target::TodoItemInvalid));
    assert!(matches!(match_path(b"/todos/abc"), Target::TodoItemInvalid));
    assert!(matches!(match_path(b"/todos/1/x"), Target::NoRoute));
    assert!(matches!(match_path(b"/explorer/swagger.json"), Target::Explorer(_)));
    assert!(matches!(match_path(b"/elsewhere"), Target::NoRoute));
}
