//! The todo resource handlers: list, create, get, update, delete. Each states
//! the contract of the operation it serves: when it succeeds, what body it
//! returns, and on which inputs each error comes.

use vstd::prelude::*;
use crate::error::{HttpError, Response, ct_json, ct_json_vec};
use crate::json::body_title;
use crate::models::{Todo, TodoPartial, spec_todo_json, spec_todo_list_json, todos_to_json};
use crate::store::{TodoStore, spec_has_id};
use crate::text::put;

verus! {

/// The message of a missing or malformed creation payload.
pub open spec fn invalid_payload_msg() -> Seq<u8> {
    // "invalid todo payload"
    seq![
        0x69u8,
        0x6eu8,
        0x76u8,
        0x61u8,
        0x6cu8,
        0x69u8,
        0x64u8,
        0x20u8,
        0x74u8,
        0x6fu8,
        0x64u8,
        0x6fu8,
        0x20u8,
        0x70u8,
        0x61u8,
        0x79u8,
        0x6cu8,
        0x6fu8,
        0x61u8,
        0x64u8,
    ]
}

/// The message of a lookup that found no todo.
pub open spec fn not_found_msg() -> Seq<u8> {
    // "todo not found"
    seq![
        0x74u8,
        0x6fu8,
        0x64u8,
        0x6fu8,
        0x20u8,
        0x6eu8,
        0x6fu8,
        0x74u8,
        0x20u8,
        0x66u8,
        0x6fu8,
        0x75u8,
        0x6eu8,
        0x64u8,
    ]
}

/// Builds the invalid-payload error, status 400.
pub fn invalid_payload_error() -> (r: HttpError)
    ensures
        r.status == 400,
        r.msg@ == invalid_payload_msg(),
{
    let mut m: Vec<u8> = Vec::new();
    put(
        &mut m,
        &[
            0x69,
            0x6e,
            0x76,
            0x61,
            0x6c,
            0x69,
            0x64,
            0x20,
            0x74,
            0x6f,
            0x64,
            0x6f,
            0x20,
            0x70,
            0x61,
            0x79,
            0x6c,
            0x6f,
            0x61,
            0x64,
        ],
    );
    proof {
        assert(m@ =~= invalid_payload_msg());
    }
    HttpError::new(400, m)
}

/// Builds the not-found error, status 404.
pub fn not_found_error() -> (r: HttpError)
    ensures
        r.status == 404,
        r.msg@ == not_found_msg(),
{
    let mut m: Vec<u8> = Vec::new();
    put(
        &mut m,
        &[0x74, 0x6f, 0x64, 0x6f, 0x20, 0x6e, 0x6f, 0x74, 0x20, 0x66, 0x6f, 0x75, 0x6e, 0x64],
    );
    proof {
        assert(m@ =~= not_found_msg());
    }
    HttpError::new(404, m)
}

/// A 200 or 201 response with a JSON body.
fn ok_json(status: u16, body: Vec<u8>) -> (r: Response)
    ensures
        r.status == status,
        r.content_type is Some && r.content_type->0@ == ct_json(),
        r.body == body,
        r.gzipped == false,
{
    Response { status, content_type: Some(ct_json_vec()), body, gzipped: false }
}

/// List all todos: 200, the JSON rendering of the whole collection.
pub fn get_todos(store: &TodoStore) -> (r: Response)
    requires
        store.wf(),
    ensures
        r.status == 200,
        r.body@ == spec_todo_list_json(store.items@),
        r.content_type is Some && r.content_type->0@ == ct_json(),
{
    ok_json(200, todos_to_json(&store.items))
}

/// Create a new todo. A body that is not one JSON object with a string
/// `title` is rejected with 400 before any creation happens; otherwise the
/// todo is appended under the next id and returned with 201.
pub fn create_todo(store: &mut TodoStore, body: &[u8]) -> (r: Result<Response, HttpError>)
    requires
        old(store).wf(),
        old(store).next_id < i32::MAX,
    ensures
        final(store).wf(),
        body_title(body@) is None ==> r is Err && r->Err_0.status == 400 && r->Err_0.msg@
            == invalid_payload_msg() && final(store).items@ == old(store).items@
            && final(store).next_id == old(store).next_id,
        body_title(body@) is Some ==> {
            let title = body_title(body@)->0;
            &&& r is Ok
            &&& r->Ok_0.status == 201
            &&& r->Ok_0.body@ == spec_todo_json(old(store).next_id as int, title, false)
            &&& r->Ok_0.content_type is Some && r->Ok_0.content_type->0@ == ct_json()
            &&& final(store).items@.len() == old(store).items@.len() + 1
            &&& final(store).items@.drop_last() == old(store).items@
            &&& final(store).items@.last().id == old(store).next_id
            &&& final(store).items@.last().title@ == title
            &&& final(store).items@.last().completed == false
            &&& final(store).next_id == old(store).next_id + 1
        },
{
    match TodoPartial::from_body(body) {
        None => Err(invalid_payload_error()),
        Some(p) => {
            let id = store.next_id;
            let ghost title = p.title@;
            let body_json = {
                let todo = Todo { id, title: p.title, completed: false };
                let b = todo.to_json();
                store.create(TodoPartial { title: todo.title });
                b
            };
            Ok(ok_json(201, body_json))
        },
    }
}

/// Get a todo by id: 200 with its JSON body when the id is present, the
/// not-found error when it is absent.
pub fn get_todo(store: &TodoStore, id: i32) -> (r: Result<Response, HttpError>)
    requires
        store.wf(),
    ensures
        r is Ok <==> spec_has_id(store.items@, id as int),
        r is Ok ==> r->Ok_0.status == 200 && r->Ok_0.content_type is Some
            && r->Ok_0.content_type->0@ == ct_json() && exists|k: int|
            0 <= k < store.items@.len() && store.items@[k].id == id && r->Ok_0.body@
                == spec_todo_json(id as int, store.items@[k].title@, store.items@[k].completed),
        r is Err ==> r->Err_0.status == 404 && r->Err_0.msg@ == not_found_msg(),
{
    match store.get(id) {
        Some(t) => Ok(ok_json(200, t.to_json())),
        None => Err(not_found_error()),
    }
}

/// Update a todo by id: the payload is validated first (400 when it is not
/// one JSON object with a string `title`), then the todo takes the new title,
/// keeping its id and completed status; an absent id is the not-found error.
pub fn update_todo(store: &mut TodoStore, id: i32, body: &[u8]) -> (r: Result<
    Response,
    HttpError,
>)
    requires
        old(store).wf(),
    ensures
        final(store).wf(),
        body_title(body@) is None ==> r is Err && r->Err_0.status == 400 && r->Err_0.msg@
            == invalid_payload_msg() && final(store).items@ == old(store).items@
            && final(store).next_id == old(store).next_id,
        body_title(body@) is Some && !spec_has_id(old(store).items@, id as int) ==> r is Err
            && r->Err_0.status == 404 && r->Err_0.msg@ == not_found_msg()
            && final(store).items@ == old(store).items@
            && final(store).next_id == old(store).next_id,
        body_title(body@) is Some && spec_has_id(old(store).items@, id as int) ==> {
            let title = body_title(body@)->0;
            &&& r is Ok
            &&& r->Ok_0.status == 200
            &&& r->Ok_0.content_type is Some && r->Ok_0.content_type->0@ == ct_json()
            &&& final(store).next_id == old(store).next_id
            &&& exists|k: int|
                0 <= k < old(store).items@.len() && old(store).items@[k].id == id
                    && final(store).items@ == old(store).items@.update(
                    k,
                    Todo { id, title: final(store).items@[k].title, completed: old(
                        store,
                    ).items@[k].completed },
                ) && final(store).items@[k].title@ == title && r->Ok_0.body@ == spec_todo_json(
                    id as int,
                    title,
                    old(store).items@[k].completed,
                )
        },
{
    match TodoPartial::from_body(body) {
        None => Err(invalid_payload_error()),
        Some(p) => {
            let ghost title = p.title@;
            let ghost pt: Vec<u8> = p.title;
            let had = store.update(id, p);
            if !had {
                return Err(not_found_error());
            }
            let ghost k = choose|k: int|
                0 <= k < old(store).items@.len() && old(store).items@[k].id == id
                    && store.items@ == old(store).items@.update(
                    k,
                    Todo { id, title: pt, completed: old(store).items@[k].completed },
                );
            match store.get(id) {
                Some(t) => {
                    proof {
                        assert(store.items@[k].id == id);
                        let k2 = choose|k2: int|
                            0 <= k2 < store.items@.len() && *t == store.items@[k2];
                        if k2 != k {
                            assert(store.items@[k2].id != store.items@[k].id);
                        }
                        assert(*t == store.items@[k]);
                    }
                    Ok(ok_json(200, t.to_json()))
                },
                None => {
                    proof {
                        assert(store.items@[k].id == id);
                        assert(spec_has_id(store.items@, id as int));
                        assert(false);
                    }
                    Err(not_found_error())
                },
            }
        },
    }
}

/// Delete a todo by id: 200 with the removed todo's JSON body when the id is
/// present — and the id is gone afterwards, so repeating the call reports the
/// not-found error; an absent id is the not-found error at once.
pub fn delete_todo(store: &mut TodoStore, id: i32) -> (r: Result<Response, HttpError>)
    requires
        old(store).wf(),
    ensures
        final(store).wf(),
        final(store).next_id == old(store).next_id,
        r is Ok <==> spec_has_id(old(store).items@, id as int),
        r is Err ==> r->Err_0.status == 404 && r->Err_0.msg@ == not_found_msg()
            && final(store).items@ == old(store).items@,
        r is Ok ==> r->Ok_0.status == 200 && r->Ok_0.content_type is Some
            && r->Ok_0.content_type->0@ == ct_json() && !spec_has_id(
            final(store).items@,
            id as int,
        ) && exists|k: int|
            0 <= k < old(store).items@.len() && old(store).items@[k].id == id
                && final(store).items@ == old(store).items@.remove(k) && r->Ok_0.body@
                == spec_todo_json(id as int, old(store).items@[k].title@,
                old(store).items@[k].completed,
            ),
{
    match store.delete(id) {
        Some(t) => Ok(ok_json(200, t.to_json())),
        None => Err(not_found_error()),
    }
}

} // verus!
