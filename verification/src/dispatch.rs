//! The request dispatcher: method and path pick a handler from the route
//! table's combinations, an unregistered combination falls through to the
//! default 404 with an empty body.

use vstd::prelude::*;
use crate::error::{Response, spec_error_body, ct_json};
use crate::json::body_title;
use crate::models::{Todo, TodoPartial, spec_todo_json, spec_todo_list_json};
use crate::openapi::{ExplorerState, get_swagger, spec_api_doc, path_not_found_msg,
    serve_error_msg};
use crate::routes::{Method, Target, SpecTarget, match_path, spec_match_path, swagger_json_tail};
use crate::store::{TodoStore, spec_has_id};
use crate::todo::{create_todo, delete_todo, get_todo, get_todos, update_todo,
    invalid_payload_msg, invalid_payload_error, not_found_msg, not_found_error};

verus! {

/// The default handler: any unregistered method and path combination answers
/// 404 with an empty body — no error envelope, which tells this 404 apart
/// from a handler's not-found error.
pub fn default() -> (r: Response)
    ensures
        r.status == 404,
        r.body@ == Seq::<u8>::empty(),
        r.content_type is None,
{
    Response { status: 404, content_type: None, body: Vec::new(), gzipped: false }
}

/// Whether a method and path combination is registered: the route table's
/// combinations plus the explorer scope, everything else is unmatched.
pub open spec fn spec_registered(method: Method, path: Seq<u8>) -> bool {
    match spec_match_path(path) {
        SpecTarget::TodoCollection => method == Method::Get || method == Method::Post,
        SpecTarget::TodoItem(_) => method == Method::Get || method == Method::Put || method
            == Method::Delete,
        SpecTarget::TodoItemInvalid => method == Method::Get || method == Method::Put || method
            == Method::Delete,
        SpecTarget::Explorer(_) => method == Method::Get,
        SpecTarget::NoRoute => false,
    }
}

/// One request, dispatched: routes the path, runs the handler the method
/// picks, converts a handler error into the response it stands for, and
/// answers every unregistered combination with the bodiless default 404.
pub fn handle(
    store: &mut TodoStore,
    explorer: &ExplorerState,
    method: Method,
    path: &[u8],
    body: &[u8],
) -> (r: Response)
    requires
        old(store).wf(),
        old(store).next_id < i32::MAX,
    ensures
        final(store).wf(),
        !spec_registered(method, path@) ==> r.status == 404 && r.body@ == Seq::<u8>::empty()
            && r.content_type is None && final(store).items@ == old(store).items@
            && final(store).next_id == old(store).next_id,
        method == Method::Get && spec_match_path(path@) is TodoCollection ==> r.status == 200
            && r.body@ == spec_todo_list_json(old(store).items@) && final(store).items@ == old(store).items@ && final(store).next_id == old(store).next_id,
        method == Method::Post && spec_match_path(path@) is TodoCollection ==> {
            &&& body_title(body@) is None ==> r.status == 400 && r.body@ == spec_error_body(
                invalid_payload_msg(),
            ) && final(store).items@ == old(store).items@ && final(store).next_id == old(store).next_id
            &&& body_title(body@) is Some ==> r.status == 201 && r.body@ == spec_todo_json(
                old(store).next_id as int,
                body_title(body@)->0,
                false,
            ) && final(store).items@.len() == old(store).items@.len() + 1 && final(store).items@.drop_last() == old(store).items@ && final(store).items@.last().title@
                == body_title(body@)->0 && final(store).items@.last().id == old(store).next_id
                && final(store).next_id == old(store).next_id + 1
        },
        method == Method::Get && spec_match_path(path@) is TodoItem ==> {
            let id = spec_match_path(path@)->TodoItem_0;
            &&& final(store).items@ == old(store).items@ && final(store).next_id == old(store).next_id
            &&& spec_has_id(old(store).items@, id) ==> r.status == 200 && exists|k: int|
                0 <= k < old(store).items@.len() && old(store).items@[k].id == id && r.body@
                    == spec_todo_json(id, old(store).items@[k].title@,
                    old(store).items@[k].completed,
                )
            &&& !spec_has_id(old(store).items@, id) ==> r.status == 404 && r.body@
                == spec_error_body(not_found_msg())
        },
        method == Method::Put && spec_match_path(path@) is TodoItem ==> {
            let id = spec_match_path(path@)->TodoItem_0;
            &&& final(store).next_id == old(store).next_id
            &&& body_title(body@) is None ==> r.status == 400 && r.body@ == spec_error_body(
                invalid_payload_msg(),
            ) && final(store).items@ == old(store).items@
            &&& body_title(body@) is Some && !spec_has_id(old(store).items@, id) ==> r.status
                == 404 && r.body@ == spec_error_body(not_found_msg()) && final(store).items@
                == old(store).items@
            &&& body_title(body@) is Some && spec_has_id(old(store).items@, id) ==> r.status
                == 200 && exists|k: int|
                0 <= k < old(store).items@.len() && old(store).items@[k].id == id && final(store).items@ == old(store).items@.update(
                    k,
                    Todo {
                        id: id as i32,
                        title: final(store).items@[k].title,
                        completed: old(store).items@[k].completed,
                    },
                ) && final(store).items@[k].title@ == body_title(body@)->0 && r.body@
                    == spec_todo_json(id, body_title(body@)->0, old(store).items@[k].completed)
        },
        method == Method::Delete && spec_match_path(path@) is TodoItem ==> {
            let id = spec_match_path(path@)->TodoItem_0;
            &&& final(store).next_id == old(store).next_id
            &&& spec_has_id(old(store).items@, id) ==> r.status == 200 && !spec_has_id(
                final(store).items@,
                id,
            ) && exists|k: int|
                0 <= k < old(store).items@.len() && old(store).items@[k].id == id && final(store).items@ == old(store).items@.remove(k) && r.body@ == spec_todo_json(
                    id,
                    old(store).items@[k].title@,
                    old(store).items@[k].completed,
                )
            &&& !spec_has_id(old(store).items@, id) ==> r.status == 404 && r.body@
                == spec_error_body(not_found_msg()) && final(store).items@ == old(store).items@
        },
        method != Method::Post && spec_match_path(path@) is TodoItemInvalid && spec_registered(
            method,
            path@,
        ) ==> {
            &&& final(store).items@ == old(store).items@ && final(store).next_id == old(store).next_id
            &&& method == Method::Put && body_title(body@) is None ==> r.status == 400
                && r.body@ == spec_error_body(invalid_payload_msg())
            &&& (method == Method::Get || method == Method::Delete || body_title(body@) is Some)
                ==> r.status == 404 && r.body@ == spec_error_body(not_found_msg())
        },
        method == Method::Get && spec_match_path(path@) is Explorer ==> {
            let tail = spec_match_path(path@)->Explorer_0;
            &&& final(store).items@ == old(store).items@ && final(store).next_id == old(store).next_id
            &&& tail == swagger_json_tail() ==> r.status == 200 && r.body@ == spec_api_doc()
                && r.content_type is Some && r.content_type->0@ == ct_json()
            &&& tail != swagger_json_tail() ==> (r.status == 200 && r.content_type is Some) || (
            r.status == 404 && r.body@ == spec_error_body(path_not_found_msg(tail))) || (r.status
                == 500 && exists|m: Seq<u8>| r.body@ == spec_error_body(serve_error_msg(m)))
        },
{
    match match_path(path) {
        Target::NoRoute => default(),
        Target::TodoCollection => {
            match method {
                Method::Get => get_todos(store),
                Method::Post => {
                    match create_todo(store, body) {
                        Ok(resp) => resp,
                        Err(e) => e.error_response(),
                    }
                },
                _ => default(),
            }
        },
        Target::TodoItem(id) => {
            match method {
                Method::Get => {
                    match get_todo(store, id) {
                        Ok(resp) => resp,
                        Err(e) => e.error_response(),
                    }
                },
                Method::Put => {
                    match update_todo(store, id, body) {
                        Ok(resp) => resp,
                        Err(e) => e.error_response(),
                    }
                },
                Method::Delete => {
                    match delete_todo(store, id) {
                        Ok(resp) => resp,
                        Err(e) => e.error_response(),
                    }
                },
                _ => default(),
            }
        },
        Target::TodoItemInvalid => {
            match method {
                Method::Get => not_found_error().error_response(),
                Method::Delete => not_found_error().error_response(),
                Method::Put => {
                    match TodoPartial::from_body(body) {
                        None => invalid_payload_error().error_response(),
                        Some(_) => not_found_error().error_response(),
                    }
                },
                _ => default(),
            }
        },
        Target::Explorer(tail) => {
            match method {
                Method::Get => {
                    match get_swagger(explorer, tail.as_slice()) {
                        Ok(resp) => resp,
                        Err(e) => e.error_response(),
                    }
                },
                _ => default(),
            }
        },
    }
}

} // verus!
