//! The documentation aggregator: the OpenAPI document built byte for byte
//! from the route table, and the explorer service that serves the document
//! and the bundled interactive UI assets.

use vstd::prelude::*;
use crate::error::{HttpError, Response, ct_json, ct_json_vec};
use crate::json::bytes_eq;
use crate::routes::{RouteDoc, RouteDocV, SchemaId, StatusDoc, route_table, spec_route_table,
    swagger_json_tail, todos_item_template, todos_path};
use crate::text::{dec_digits, json_string, put, put_json_string, put_u32_dec};

verus! {

/// The bytes of `{"openapi":"3.0.3","info":{"title":"todo_api","version":"0.1.0"},"paths":{`.
pub open spec fn lit_doc_head() -> Seq<u8> {
    seq![0x7bu8, 0x22u8, 0x6fu8, 0x70u8, 0x65u8, 0x6eu8, 0x61u8, 0x70u8, 0x69u8, 0x22u8, 0x3au8, 0x22u8, 0x33u8, 0x2eu8, 0x30u8, 0x2eu8, 0x33u8, 0x22u8, 0x2cu8, 0x22u8, 0x69u8, 0x6eu8, 0x66u8, 0x6fu8, 0x22u8, 0x3au8, 0x7bu8, 0x22u8, 0x74u8, 0x69u8, 0x74u8, 0x6cu8, 0x65u8, 0x22u8, 0x3au8, 0x22u8, 0x74u8, 0x6fu8, 0x64u8, 0x6fu8, 0x5fu8, 0x61u8, 0x70u8, 0x69u8, 0x22u8, 0x2cu8, 0x22u8, 0x76u8, 0x65u8, 0x72u8, 0x73u8, 0x69u8, 0x6fu8, 0x6eu8, 0x22u8, 0x3au8, 0x22u8, 0x30u8, 0x2eu8, 0x31u8, 0x2eu8, 0x30u8, 0x22u8, 0x7du8, 0x2cu8, 0x22u8, 0x70u8, 0x61u8, 0x74u8, 0x68u8, 0x73u8, 0x22u8, 0x3au8, 0x7bu8]
}
/// The bytes of `:{`.
pub open spec fn lit_obj_open() -> Seq<u8> {
    seq![0x3au8, 0x7bu8]
}
/// The bytes of `"get":`.
pub open spec fn lit_get_key() -> Seq<u8> {
    seq![0x22u8, 0x67u8, 0x65u8, 0x74u8, 0x22u8, 0x3au8]
}
/// The bytes of `"post":`.
pub open spec fn lit_post_key() -> Seq<u8> {
    seq![0x22u8, 0x70u8, 0x6fu8, 0x73u8, 0x74u8, 0x22u8, 0x3au8]
}
/// The bytes of `"put":`.
pub open spec fn lit_put_key() -> Seq<u8> {
    seq![0x22u8, 0x70u8, 0x75u8, 0x74u8, 0x22u8, 0x3au8]
}
/// The bytes of `"delete":`.
pub open spec fn lit_delete_key() -> Seq<u8> {
    seq![0x22u8, 0x64u8, 0x65u8, 0x6cu8, 0x65u8, 0x74u8, 0x65u8, 0x22u8, 0x3au8]
}
/// The bytes of `},`.
pub open spec fn lit_item_sep() -> Seq<u8> {
    seq![0x7du8, 0x2cu8]
}
/// The bytes of `"requestBody":{"required":true,"content":{"application/json":{"schema":`.
pub open spec fn lit_req_open() -> Seq<u8> {
    seq![0x22u8, 0x72u8, 0x65u8, 0x71u8, 0x75u8, 0x65u8, 0x73u8, 0x74u8, 0x42u8, 0x6fu8, 0x64u8, 0x79u8, 0x22u8, 0x3au8, 0x7bu8, 0x22u8, 0x72u8, 0x65u8, 0x71u8, 0x75u8, 0x69u8, 0x72u8, 0x65u8, 0x64u8, 0x22u8, 0x3au8, 0x74u8, 0x72u8, 0x75u8, 0x65u8, 0x2cu8, 0x22u8, 0x63u8, 0x6fu8, 0x6eu8, 0x74u8, 0x65u8, 0x6eu8, 0x74u8, 0x22u8, 0x3au8, 0x7bu8, 0x22u8, 0x61u8, 0x70u8, 0x70u8, 0x6cu8, 0x69u8, 0x63u8, 0x61u8, 0x74u8, 0x69u8, 0x6fu8, 0x6eu8, 0x2fu8, 0x6au8, 0x73u8, 0x6fu8, 0x6eu8, 0x22u8, 0x3au8, 0x7bu8, 0x22u8, 0x73u8, 0x63u8, 0x68u8, 0x65u8, 0x6du8, 0x61u8, 0x22u8, 0x3au8]
}
/// The bytes of `}}},`.
pub open spec fn lit_req_close() -> Seq<u8> {
    seq![0x7du8, 0x7du8, 0x7du8, 0x2cu8]
}
/// The bytes of `"responses":{`.
pub open spec fn lit_resp_open() -> Seq<u8> {
    seq![0x22u8, 0x72u8, 0x65u8, 0x73u8, 0x70u8, 0x6fu8, 0x6eu8, 0x73u8, 0x65u8, 0x73u8, 0x22u8, 0x3au8, 0x7bu8]
}
/// The bytes of `:{"description":"","content":{"application/json":{"schema":`.
pub open spec fn lit_resp_mid() -> Seq<u8> {
    seq![0x3au8, 0x7bu8, 0x22u8, 0x64u8, 0x65u8, 0x73u8, 0x63u8, 0x72u8, 0x69u8, 0x70u8, 0x74u8, 0x69u8, 0x6fu8, 0x6eu8, 0x22u8, 0x3au8, 0x22u8, 0x22u8, 0x2cu8, 0x22u8, 0x63u8, 0x6fu8, 0x6eu8, 0x74u8, 0x65u8, 0x6eu8, 0x74u8, 0x22u8, 0x3au8, 0x7bu8, 0x22u8, 0x61u8, 0x70u8, 0x70u8, 0x6cu8, 0x69u8, 0x63u8, 0x61u8, 0x74u8, 0x69u8, 0x6fu8, 0x6eu8, 0x2fu8, 0x6au8, 0x73u8, 0x6fu8, 0x6eu8, 0x22u8, 0x3au8, 0x7bu8, 0x22u8, 0x73u8, 0x63u8, 0x68u8, 0x65u8, 0x6du8, 0x61u8, 0x22u8, 0x3au8]
}
/// The bytes of `}}}`.
pub open spec fn lit_resp_close() -> Seq<u8> {
    seq![0x7du8, 0x7du8, 0x7du8]
}
/// The bytes of `{"$ref":"#/components/schemas/Todo"}`.
pub open spec fn lit_ref_todo() -> Seq<u8> {
    seq![0x7bu8, 0x22u8, 0x24u8, 0x72u8, 0x65u8, 0x66u8, 0x22u8, 0x3au8, 0x22u8, 0x23u8, 0x2fu8, 0x63u8, 0x6fu8, 0x6du8, 0x70u8, 0x6fu8, 0x6eu8, 0x65u8, 0x6eu8, 0x74u8, 0x73u8, 0x2fu8, 0x73u8, 0x63u8, 0x68u8, 0x65u8, 0x6du8, 0x61u8, 0x73u8, 0x2fu8, 0x54u8, 0x6fu8, 0x64u8, 0x6fu8, 0x22u8, 0x7du8]
}
/// The bytes of `{"type":"array","items":{"$ref":"#/components/schemas/Todo"}}`.
pub open spec fn lit_ref_todo_list() -> Seq<u8> {
    seq![0x7bu8, 0x22u8, 0x74u8, 0x79u8, 0x70u8, 0x65u8, 0x22u8, 0x3au8, 0x22u8, 0x61u8, 0x72u8, 0x72u8, 0x61u8, 0x79u8, 0x22u8, 0x2cu8, 0x22u8, 0x69u8, 0x74u8, 0x65u8, 0x6du8, 0x73u8, 0x22u8, 0x3au8, 0x7bu8, 0x22u8, 0x24u8, 0x72u8, 0x65u8, 0x66u8, 0x22u8, 0x3au8, 0x22u8, 0x23u8, 0x2fu8, 0x63u8, 0x6fu8, 0x6du8, 0x70u8, 0x6fu8, 0x6eu8, 0x65u8, 0x6eu8, 0x74u8, 0x73u8, 0x2fu8, 0x73u8, 0x63u8, 0x68u8, 0x65u8, 0x6du8, 0x61u8, 0x73u8, 0x2fu8, 0x54u8, 0x6fu8, 0x64u8, 0x6fu8, 0x22u8, 0x7du8, 0x7du8]
}
/// The bytes of `{"$ref":"#/components/schemas/TodoPartial"}`.
pub open spec fn lit_ref_todo_partial() -> Seq<u8> {
    seq![0x7bu8, 0x22u8, 0x24u8, 0x72u8, 0x65u8, 0x66u8, 0x22u8, 0x3au8, 0x22u8, 0x23u8, 0x2fu8, 0x63u8, 0x6fu8, 0x6du8, 0x70u8, 0x6fu8, 0x6eu8, 0x65u8, 0x6eu8, 0x74u8, 0x73u8, 0x2fu8, 0x73u8, 0x63u8, 0x68u8, 0x65u8, 0x6du8, 0x61u8, 0x73u8, 0x2fu8, 0x54u8, 0x6fu8, 0x64u8, 0x6fu8, 0x50u8, 0x61u8, 0x72u8, 0x74u8, 0x69u8, 0x61u8, 0x6cu8, 0x22u8, 0x7du8]
}
/// The bytes of `{"$ref":"#/components/schemas/HttpError"}`.
pub open spec fn lit_ref_http_error() -> Seq<u8> {
    seq![0x7bu8, 0x22u8, 0x24u8, 0x72u8, 0x65u8, 0x66u8, 0x22u8, 0x3au8, 0x22u8, 0x23u8, 0x2fu8, 0x63u8, 0x6fu8, 0x6du8, 0x70u8, 0x6fu8, 0x6eu8, 0x65u8, 0x6eu8, 0x74u8, 0x73u8, 0x2fu8, 0x73u8, 0x63u8, 0x68u8, 0x65u8, 0x6du8, 0x61u8, 0x73u8, 0x2fu8, 0x48u8, 0x74u8, 0x74u8, 0x70u8, 0x45u8, 0x72u8, 0x72u8, 0x6fu8, 0x72u8, 0x22u8, 0x7du8]
}
/// The bytes of `}},"components":{"schemas":{"Todo":{"type":"object","required":["id","title","completed"],"properties":{"id":{"type":"integer","format":"int32"},"title":{"type":"string"},"completed":{"type":"boolean"}}},"TodoPartial":{"type":"object","required":["title"],"properties":{"title":{"type":"string"}}},"HttpError":{"type":"object","required":["msg"],"properties":{"msg":{"type":"string"}}}}}}`.
pub open spec fn lit_doc_tail() -> Seq<u8> {
    seq![0x7du8, 0x7du8, 0x2cu8, 0x22u8, 0x63u8, 0x6fu8, 0x6du8, 0x70u8, 0x6fu8, 0x6eu8, 0x65u8, 0x6eu8, 0x74u8, 0x73u8, 0x22u8, 0x3au8, 0x7bu8, 0x22u8, 0x73u8, 0x63u8, 0x68u8, 0x65u8, 0x6du8, 0x61u8, 0x73u8, 0x22u8, 0x3au8, 0x7bu8, 0x22u8, 0x54u8, 0x6fu8, 0x64u8, 0x6fu8, 0x22u8, 0x3au8, 0x7bu8, 0x22u8, 0x74u8, 0x79u8, 0x70u8, 0x65u8, 0x22u8, 0x3au8, 0x22u8, 0x6fu8, 0x62u8, 0x6au8, 0x65u8, 0x63u8, 0x74u8, 0x22u8, 0x2cu8, 0x22u8, 0x72u8, 0x65u8, 0x71u8, 0x75u8, 0x69u8, 0x72u8, 0x65u8, 0x64u8, 0x22u8, 0x3au8, 0x5bu8, 0x22u8, 0x69u8, 0x64u8, 0x22u8, 0x2cu8, 0x22u8, 0x74u8, 0x69u8, 0x74u8, 0x6cu8, 0x65u8, 0x22u8, 0x2cu8, 0x22u8, 0x63u8, 0x6fu8, 0x6du8, 0x70u8, 0x6cu8, 0x65u8, 0x74u8, 0x65u8, 0x64u8, 0x22u8, 0x5du8, 0x2cu8, 0x22u8, 0x70u8, 0x72u8, 0x6fu8, 0x70u8, 0x65u8, 0x72u8, 0x74u8, 0x69u8, 0x65u8, 0x73u8, 0x22u8, 0x3au8, 0x7bu8, 0x22u8, 0x69u8, 0x64u8, 0x22u8, 0x3au8, 0x7bu8, 0x22u8, 0x74u8, 0x79u8, 0x70u8, 0x65u8, 0x22u8, 0x3au8, 0x22u8, 0x69u8, 0x6eu8, 0x74u8, 0x65u8, 0x67u8, 0x65u8, 0x72u8, 0x22u8, 0x2cu8, 0x22u8, 0x66u8, 0x6fu8, 0x72u8, 0x6du8, 0x61u8, 0x74u8, 0x22u8, 0x3au8, 0x22u8, 0x69u8, 0x6eu8, 0x74u8, 0x33u8, 0x32u8, 0x22u8, 0x7du8, 0x2cu8, 0x22u8, 0x74u8, 0x69u8, 0x74u8, 0x6cu8, 0x65u8, 0x22u8, 0x3au8, 0x7bu8, 0x22u8, 0x74u8, 0x79u8, 0x70u8, 0x65u8, 0x22u8, 0x3au8, 0x22u8, 0x73u8, 0x74u8, 0x72u8, 0x69u8, 0x6eu8, 0x67u8, 0x22u8, 0x7du8, 0x2cu8, 0x22u8, 0x63u8, 0x6fu8, 0x6du8, 0x70u8, 0x6cu8, 0x65u8, 0x74u8, 0x65u8, 0x64u8, 0x22u8, 0x3au8, 0x7bu8, 0x22u8, 0x74u8, 0x79u8, 0x70u8, 0x65u8, 0x22u8, 0x3au8, 0x22u8, 0x62u8, 0x6fu8, 0x6fu8, 0x6cu8, 0x65u8, 0x61u8, 0x6eu8, 0x22u8, 0x7du8, 0x7du8, 0x7du8, 0x2cu8, 0x22u8, 0x54u8, 0x6fu8, 0x64u8, 0x6fu8, 0x50u8, 0x61u8, 0x72u8, 0x74u8, 0x69u8, 0x61u8, 0x6cu8, 0x22u8, 0x3au8, 0x7bu8, 0x22u8, 0x74u8, 0x79u8, 0x70u8, 0x65u8, 0x22u8, 0x3au8, 0x22u8, 0x6fu8, 0x62u8, 0x6au8, 0x65u8, 0x63u8, 0x74u8, 0x22u8, 0x2cu8, 0x22u8, 0x72u8, 0x65u8, 0x71u8, 0x75u8, 0x69u8, 0x72u8, 0x65u8, 0x64u8, 0x22u8, 0x3au8, 0x5bu8, 0x22u8, 0x74u8, 0x69u8, 0x74u8, 0x6cu8, 0x65u8, 0x22u8, 0x5du8, 0x2cu8, 0x22u8, 0x70u8, 0x72u8, 0x6fu8, 0x70u8, 0x65u8, 0x72u8, 0x74u8, 0x69u8, 0x65u8, 0x73u8, 0x22u8, 0x3au8, 0x7bu8, 0x22u8, 0x74u8, 0x69u8, 0x74u8, 0x6cu8, 0x65u8, 0x22u8, 0x3au8, 0x7bu8, 0x22u8, 0x74u8, 0x79u8, 0x70u8, 0x65u8, 0x22u8, 0x3au8, 0x22u8, 0x73u8, 0x74u8, 0x72u8, 0x69u8, 0x6eu8, 0x67u8, 0x22u8, 0x7du8, 0x7du8, 0x7du8, 0x2cu8, 0x22u8, 0x48u8, 0x74u8, 0x74u8, 0x70u8, 0x45u8, 0x72u8, 0x72u8, 0x6fu8, 0x72u8, 0x22u8, 0x3au8, 0x7bu8, 0x22u8, 0x74u8, 0x79u8, 0x70u8, 0x65u8, 0x22u8, 0x3au8, 0x22u8, 0x6fu8, 0x62u8, 0x6au8, 0x65u8, 0x63u8, 0x74u8, 0x22u8, 0x2cu8, 0x22u8, 0x72u8, 0x65u8, 0x71u8, 0x75u8, 0x69u8, 0x72u8, 0x65u8, 0x64u8, 0x22u8, 0x3au8, 0x5bu8, 0x22u8, 0x6du8, 0x73u8, 0x67u8, 0x22u8, 0x5du8, 0x2cu8, 0x22u8, 0x70u8, 0x72u8, 0x6fu8, 0x70u8, 0x65u8, 0x72u8, 0x74u8, 0x69u8, 0x65u8, 0x73u8, 0x22u8, 0x3au8, 0x7bu8, 0x22u8, 0x6du8, 0x73u8, 0x67u8, 0x22u8, 0x3au8, 0x7bu8, 0x22u8, 0x74u8, 0x79u8, 0x70u8, 0x65u8, 0x22u8, 0x3au8, 0x22u8, 0x73u8, 0x74u8, 0x72u8, 0x69u8, 0x6eu8, 0x67u8, 0x22u8, 0x7du8, 0x7du8, 0x7du8, 0x7du8, 0x7du8, 0x7du8]
}
/// The bytes of `path not found: `.
pub open spec fn lit_path_not_found() -> Seq<u8> {
    seq![0x70u8, 0x61u8, 0x74u8, 0x68u8, 0x20u8, 0x6eu8, 0x6fu8, 0x74u8, 0x20u8, 0x66u8, 0x6fu8, 0x75u8, 0x6eu8, 0x64u8, 0x3au8, 0x20u8]
}
/// The bytes of `Error serving Swagger UI: `.
pub open spec fn lit_serve_error() -> Seq<u8> {
    seq![0x45u8, 0x72u8, 0x72u8, 0x6fu8, 0x72u8, 0x20u8, 0x73u8, 0x65u8, 0x72u8, 0x76u8, 0x69u8, 0x6eu8, 0x67u8, 0x20u8, 0x53u8, 0x77u8, 0x61u8, 0x67u8, 0x67u8, 0x65u8, 0x72u8, 0x20u8, 0x55u8, 0x49u8, 0x3au8, 0x20u8]
}
/// The bytes of `swagger.json`.
pub open spec fn lit_swagger_json() -> Seq<u8> {
    seq![0x73u8, 0x77u8, 0x61u8, 0x67u8, 0x67u8, 0x65u8, 0x72u8, 0x2eu8, 0x6au8, 0x73u8, 0x6fu8, 0x6eu8]
}
/// The schema reference the documentation uses for `s`.
pub open spec fn spec_schema_ref(s: SchemaId) -> Seq<u8> {
    match s {
        SchemaId::TodoSchema => lit_ref_todo(),
        SchemaId::TodoListSchema => lit_ref_todo_list(),
        SchemaId::TodoPartialSchema => lit_ref_todo_partial(),
        SchemaId::HttpErrorSchema => lit_ref_http_error(),
    }
}

/// One documented response: the status as key, then the body schema.
pub open spec fn spec_response(sd: StatusDoc) -> Seq<u8> {
    seq![0x22u8] + dec_digits(sd.status as nat) + seq![0x22u8] + lit_resp_mid()
        + spec_schema_ref(sd.schema) + lit_resp_close()
}

/// The comma-joined documented responses of one route.
pub open spec fn spec_responses(rs: Seq<StatusDoc>) -> Seq<u8>
    decreases rs.len(),
{
    if rs.len() == 0 {
        seq![]
    } else if rs.len() == 1 {
        spec_response(rs[0])
    } else {
        spec_responses(rs.drop_last()) + seq![0x2cu8] + spec_response(rs.last())
    }
}

/// The operation object of one route table row: its request body schema,
/// where the row declares one, and its response table.
pub open spec fn spec_operation(row: RouteDocV) -> Seq<u8> {
    seq![0x7bu8] + (match row.request_body {
        Some(s) => lit_req_open() + spec_schema_ref(s) + lit_req_close(),
        None => seq![],
    }) + lit_resp_open() + spec_responses(row.responses) + seq![0x7du8, 0x7du8]
}

/// The whole OpenAPI document: header and info, then the two path items
/// carrying the five operations of `spec_route_table`, then the component
/// schemas of the three models.
pub open spec fn spec_api_doc() -> Seq<u8> {
    lit_doc_head() + json_string(todos_path()) + lit_obj_open() + lit_get_key() + spec_operation(
        spec_route_table()[0],
    ) + seq![0x2cu8] + lit_post_key() + spec_operation(spec_route_table()[1]) + lit_item_sep()
        + json_string(todos_item_template()) + lit_obj_open() + lit_get_key() + spec_operation(
        spec_route_table()[2],
    ) + seq![0x2cu8] + lit_put_key() + spec_operation(spec_route_table()[3]) + seq![0x2cu8]
        + lit_delete_key() + spec_operation(spec_route_table()[4]) + lit_doc_tail()
}

/// Appends the schema reference for `s`.
fn put_schema_ref(out: &mut Vec<u8>, s: SchemaId)
    ensures
        final(out)@ == old(out)@ + spec_schema_ref(s),
{
    match s {
        SchemaId::TodoSchema => put_ref_todo(out),
        SchemaId::TodoListSchema => put_ref_todo_list(out),
        SchemaId::TodoPartialSchema => put_ref_todo_partial(out),
        SchemaId::HttpErrorSchema => put_ref_http_error(out),
    }
}

/// Appends one documented response.
fn put_response(out: &mut Vec<u8>, sd: StatusDoc)
    ensures
        final(out)@ == old(out)@ + spec_response(sd),
{
    out.push(0x22);
    put_u32_dec(out, sd.status as u32);
    out.push(0x22);
    put_resp_mid(out);
    put_schema_ref(out, sd.schema);
    put_resp_close(out);
    proof {
        assert(out@ =~= old(out)@ + spec_response(sd));
    }
}

/// Appends the comma-joined responses of one route.
fn put_responses(out: &mut Vec<u8>, rs: &Vec<StatusDoc>)
    ensures
        final(out)@ == old(out)@ + spec_responses(rs@),
{
    let mut i: usize = 0;
    while i < rs.len()
        invariant
            i <= rs@.len(),
            out@ == old(out)@ + spec_responses(rs@.take(i as int)),
        decreases rs@.len() - i,
    {
        if i > 0 {
            out.push(0x2c);
        }
        put_response(out, rs[i]);
        proof {
            assert(rs@.take(i + 1).drop_last() =~= rs@.take(i as int));
            assert(rs@.take(i + 1).last() == rs@[i as int]);
            assert(out@ =~= old(out)@ + spec_responses(rs@.take(i + 1)));
        }
        i = i + 1;
    }
    proof {
        assert(rs@.take(rs@.len() as int) =~= rs@);
    }
}

/// Appends the operation object of one route table row.
fn put_operation(out: &mut Vec<u8>, row: &RouteDoc)
    ensures
        final(out)@ == old(out)@ + spec_operation(row@),
{
    out.push(0x7b);
    match row.request_body {
        Some(s) => {
            put_req_open(out);
            put_schema_ref(out, s);
            put_req_close(out);
        },
        None => {},
    }
    put_resp_open(out);
    put_responses(out, &row.responses);
    put(out, &[0x7d, 0x7d]);
    proof {
        assert(out@ =~= old(out)@ + spec_operation(row@));
    }
}

/// Builds the OpenAPI document, byte for byte as `spec_api_doc` states it,
/// from the route table.
pub fn openapi_json() -> (r: Vec<u8>)
    ensures
        r@ == spec_api_doc(),
{
    let t = route_table();
    let mut out: Vec<u8> = Vec::new();
    put_doc_head(&mut out);
    let cp = crate::routes::collection_path();
    put_json_string(&mut out, cp.as_slice());
    put_obj_open(&mut out);
    put_get_key(&mut out);
    put_operation(&mut out, &t[0]);
    out.push(0x2c);
    put_post_key(&mut out);
    put_operation(&mut out, &t[1]);
    put_item_sep(&mut out);
    let ip = crate::routes::item_template_path();
    put_json_string(&mut out, ip.as_slice());
    put_obj_open(&mut out);
    put_get_key(&mut out);
    put_operation(&mut out, &t[2]);
    out.push(0x2c);
    put_put_key(&mut out);
    put_operation(&mut out, &t[3]);
    out.push(0x2c);
    put_delete_key(&mut out);
    put_operation(&mut out, &t[4]);
    put_doc_tail(&mut out);
    proof {
        assert(out@ =~= spec_api_doc());
    }
    out
}

/// Appends `lit_doc_head` to `out`.
fn put_doc_head(out: &mut Vec<u8>)
    ensures
        final(out)@ == old(out)@ + lit_doc_head(),
{
    put(out, &[0x7b, 0x22, 0x6f, 0x70, 0x65, 0x6e, 0x61, 0x70, 0x69, 0x22, 0x3a, 0x22, 0x33, 0x2e, 0x30, 0x2e, 0x33, 0x22, 0x2c, 0x22, 0x69, 0x6e, 0x66, 0x6f, 0x22, 0x3a, 0x7b, 0x22, 0x74, 0x69, 0x74, 0x6c, 0x65, 0x22, 0x3a, 0x22, 0x74, 0x6f, 0x64, 0x6f, 0x5f, 0x61, 0x70, 0x69, 0x22, 0x2c, 0x22, 0x76, 0x65, 0x72, 0x73, 0x69, 0x6f, 0x6e, 0x22, 0x3a, 0x22, 0x30, 0x2e, 0x31, 0x2e, 0x30, 0x22, 0x7d, 0x2c, 0x22, 0x70, 0x61, 0x74, 0x68, 0x73, 0x22, 0x3a, 0x7b]);
    proof {
        assert(out@ =~= old(out)@ + lit_doc_head());
    }
}
/// Appends `lit_obj_open` to `out`.
fn put_obj_open(out: &mut Vec<u8>)
    ensures
        final(out)@ == old(out)@ + lit_obj_open(),
{
    put(out, &[0x3a, 0x7b]);
    proof {
        assert(out@ =~= old(out)@ + lit_obj_open());
    }
}
/// Appends `lit_get_key` to `out`.
fn put_get_key(out: &mut Vec<u8>)
    ensures
        final(out)@ == old(out)@ + lit_get_key(),
{
    put(out, &[0x22, 0x67, 0x65, 0x74, 0x22, 0x3a]);
    proof {
        assert(out@ =~= old(out)@ + lit_get_key());
    }
}
/// Appends `lit_post_key` to `out`.
fn put_post_key(out: &mut Vec<u8>)
    ensures
        final(out)@ == old(out)@ + lit_post_key(),
{
    put(out, &[0x22, 0x70, 0x6f, 0x73, 0x74, 0x22, 0x3a]);
    proof {
        assert(out@ =~= old(out)@ + lit_post_key());
    }
}
/// Appends `lit_put_key` to `out`.
fn put_put_key(out: &mut Vec<u8>)
    ensures
        final(out)@ == old(out)@ + lit_put_key(),
{
    put(out, &[0x22, 0x70, 0x75, 0x74, 0x22, 0x3a]);
    proof {
        assert(out@ =~= old(out)@ + lit_put_key());
    }
}
/// Appends `lit_delete_key` to `out`.
fn put_delete_key(out: &mut Vec<u8>)
    ensures
        final(out)@ == old(out)@ + lit_delete_key(),
{
    put(out, &[0x22, 0x64, 0x65, 0x6c, 0x65, 0x74, 0x65, 0x22, 0x3a]);
    proof {
        assert(out@ =~= old(out)@ + lit_delete_key());
    }
}
/// Appends `lit_item_sep` to `out`.
fn put_item_sep(out: &mut Vec<u8>)
    ensures
        final(out)@ == old(out)@ + lit_item_sep(),
{
    put(out, &[0x7d, 0x2c]);
    proof {
        assert(out@ =~= old(out)@ + lit_item_sep());
    }
}
/// Appends `lit_req_open` to `out`.
fn put_req_open(out: &mut Vec<u8>)
    ensures
        final(out)@ == old(out)@ + lit_req_open(),
{
    put(out, &[0x22, 0x72, 0x65, 0x71, 0x75, 0x65, 0x73, 0x74, 0x42, 0x6f, 0x64, 0x79, 0x22, 0x3a, 0x7b, 0x22, 0x72, 0x65, 0x71, 0x75, 0x69, 0x72, 0x65, 0x64, 0x22, 0x3a, 0x74, 0x72, 0x75, 0x65, 0x2c, 0x22, 0x63, 0x6f, 0x6e, 0x74, 0x65, 0x6e, 0x74, 0x22, 0x3a, 0x7b, 0x22, 0x61, 0x70, 0x70, 0x6c, 0x69, 0x63, 0x61, 0x74, 0x69, 0x6f, 0x6e, 0x2f, 0x6a, 0x73, 0x6f, 0x6e, 0x22, 0x3a, 0x7b, 0x22, 0x73, 0x63, 0x68, 0x65, 0x6d, 0x61, 0x22, 0x3a]);
    proof {
        assert(out@ =~= old(out)@ + lit_req_open());
    }
}
/// Appends `lit_req_close` to `out`.
fn put_req_close(out: &mut Vec<u8>)
    ensures
        final(out)@ == old(out)@ + lit_req_close(),
{
    put(out, &[0x7d, 0x7d, 0x7d, 0x2c]);
    proof {
        assert(out@ =~= old(out)@ + lit_req_close());
    }
}
/// Appends `lit_resp_open` to `out`.
fn put_resp_open(out: &mut Vec<u8>)
    ensures
        final(out)@ == old(out)@ + lit_resp_open(),
{
    put(out, &[0x22, 0x72, 0x65, 0x73, 0x70, 0x6f, 0x6e, 0x73, 0x65, 0x73, 0x22, 0x3a, 0x7b]);
    proof {
        assert(out@ =~= old(out)@ + lit_resp_open());
    }
}
/// Appends `lit_resp_mid` to `out`.
fn put_resp_mid(out: &mut Vec<u8>)
    ensures
        final(out)@ == old(out)@ + lit_resp_mid(),
{
    put(out, &[0x3a, 0x7b, 0x22, 0x64, 0x65, 0x73, 0x63, 0x72, 0x69, 0x70, 0x74, 0x69, 0x6f, 0x6e, 0x22, 0x3a, 0x22, 0x22, 0x2c, 0x22, 0x63, 0x6f, 0x6e, 0x74, 0x65, 0x6e, 0x74, 0x22, 0x3a, 0x7b, 0x22, 0x61, 0x70, 0x70, 0x6c, 0x69, 0x63, 0x61, 0x74, 0x69, 0x6f, 0x6e, 0x2f, 0x6a, 0x73, 0x6f, 0x6e, 0x22, 0x3a, 0x7b, 0x22, 0x73, 0x63, 0x68, 0x65, 0x6d, 0x61, 0x22, 0x3a]);
    proof {
        assert(out@ =~= old(out)@ + lit_resp_mid());
    }
}
/// Appends `lit_resp_close` to `out`.
fn put_resp_close(out: &mut Vec<u8>)
    ensures
        final(out)@ == old(out)@ + lit_resp_close(),
{
    put(out, &[0x7d, 0x7d, 0x7d]);
    proof {
        assert(out@ =~= old(out)@ + lit_resp_close());
    }
}
/// Appends `lit_ref_todo` to `out`.
fn put_ref_todo(out: &mut Vec<u8>)
    ensures
        final(out)@ == old(out)@ + lit_ref_todo(),
{
    put(out, &[0x7b, 0x22, 0x24, 0x72, 0x65, 0x66, 0x22, 0x3a, 0x22, 0x23, 0x2f, 0x63, 0x6f, 0x6d, 0x70, 0x6f, 0x6e, 0x65, 0x6e, 0x74, 0x73, 0x2f, 0x73, 0x63, 0x68, 0x65, 0x6d, 0x61, 0x73, 0x2f, 0x54, 0x6f, 0x64, 0x6f, 0x22, 0x7d]);
    proof {
        assert(out@ =~= old(out)@ + lit_ref_todo());
    }
}
/// Appends `lit_ref_todo_list` to `out`.
fn put_ref_todo_list(out: &mut Vec<u8>)
    ensures
        final(out)@ == old(out)@ + lit_ref_todo_list(),
{
    put(out, &[0x7b, 0x22, 0x74, 0x79, 0x70, 0x65, 0x22, 0x3a, 0x22, 0x61, 0x72, 0x72, 0x61, 0x79, 0x22, 0x2c, 0x22, 0x69, 0x74, 0x65, 0x6d, 0x73, 0x22, 0x3a, 0x7b, 0x22, 0x24, 0x72, 0x65, 0x66, 0x22, 0x3a, 0x22, 0x23, 0x2f, 0x63, 0x6f, 0x6d, 0x70, 0x6f, 0x6e, 0x65, 0x6e, 0x74, 0x73, 0x2f, 0x73, 0x63, 0x68, 0x65, 0x6d, 0x61, 0x73, 0x2f, 0x54, 0x6f, 0x64, 0x6f, 0x22, 0x7d, 0x7d]);
    proof {
        assert(out@ =~= old(out)@ + lit_ref_todo_list());
    }
}
/// Appends `lit_ref_todo_partial` to `out`.
fn put_ref_todo_partial(out: &mut Vec<u8>)
    ensures
        final(out)@ == old(out)@ + lit_ref_todo_partial(),
{
    put(out, &[0x7b, 0x22, 0x24, 0x72, 0x65, 0x66, 0x22, 0x3a, 0x22, 0x23, 0x2f, 0x63, 0x6f, 0x6d, 0x70, 0x6f, 0x6e, 0x65, 0x6e, 0x74, 0x73, 0x2f, 0x73, 0x63, 0x68, 0x65, 0x6d, 0x61, 0x73, 0x2f, 0x54, 0x6f, 0x64, 0x6f, 0x50, 0x61, 0x72, 0x74, 0x69, 0x61, 0x6c, 0x22, 0x7d]);
    proof {
        assert(out@ =~= old(out)@ + lit_ref_todo_partial());
    }
}
/// Appends `lit_ref_http_error` to `out`.
fn put_ref_http_error(out: &mut Vec<u8>)
    ensures
        final(out)@ == old(out)@ + lit_ref_http_error(),
{
    put(out, &[0x7b, 0x22, 0x24, 0x72, 0x65, 0x66, 0x22, 0x3a, 0x22, 0x23, 0x2f, 0x63, 0x6f, 0x6d, 0x70, 0x6f, 0x6e, 0x65, 0x6e, 0x74, 0x73, 0x2f, 0x73, 0x63, 0x68, 0x65, 0x6d, 0x61, 0x73, 0x2f, 0x48, 0x74, 0x74, 0x70, 0x45, 0x72, 0x72, 0x6f, 0x72, 0x22, 0x7d]);
    proof {
        assert(out@ =~= old(out)@ + lit_ref_http_error());
    }
}
/// Appends `lit_doc_tail` to `out`.
fn put_doc_tail(out: &mut Vec<u8>)
    ensures
        final(out)@ == old(out)@ + lit_doc_tail(),
{
    put(out, &[0x7d, 0x7d, 0x2c, 0x22, 0x63, 0x6f, 0x6d, 0x70, 0x6f, 0x6e, 0x65, 0x6e, 0x74, 0x73, 0x22, 0x3a, 0x7b, 0x22, 0x73, 0x63, 0x68, 0x65, 0x6d, 0x61, 0x73, 0x22, 0x3a, 0x7b, 0x22, 0x54, 0x6f, 0x64, 0x6f, 0x22, 0x3a, 0x7b, 0x22, 0x74, 0x79, 0x70, 0x65, 0x22, 0x3a, 0x22, 0x6f, 0x62, 0x6a, 0x65, 0x63, 0x74, 0x22, 0x2c, 0x22, 0x72, 0x65, 0x71, 0x75, 0x69, 0x72, 0x65, 0x64, 0x22, 0x3a, 0x5b, 0x22, 0x69, 0x64, 0x22, 0x2c, 0x22, 0x74, 0x69, 0x74, 0x6c, 0x65, 0x22, 0x2c, 0x22, 0x63, 0x6f, 0x6d, 0x70, 0x6c, 0x65, 0x74, 0x65, 0x64, 0x22, 0x5d, 0x2c, 0x22, 0x70, 0x72, 0x6f, 0x70, 0x65, 0x72, 0x74, 0x69, 0x65, 0x73, 0x22, 0x3a, 0x7b, 0x22, 0x69, 0x64, 0x22, 0x3a, 0x7b, 0x22, 0x74, 0x79, 0x70, 0x65, 0x22, 0x3a, 0x22, 0x69, 0x6e, 0x74, 0x65, 0x67, 0x65, 0x72, 0x22, 0x2c, 0x22, 0x66, 0x6f, 0x72, 0x6d, 0x61, 0x74, 0x22, 0x3a, 0x22, 0x69, 0x6e, 0x74, 0x33, 0x32, 0x22, 0x7d, 0x2c, 0x22, 0x74, 0x69, 0x74, 0x6c, 0x65, 0x22, 0x3a, 0x7b, 0x22, 0x74, 0x79, 0x70, 0x65, 0x22, 0x3a, 0x22, 0x73, 0x74, 0x72, 0x69, 0x6e, 0x67, 0x22, 0x7d, 0x2c, 0x22, 0x63, 0x6f, 0x6d, 0x70, 0x6c, 0x65, 0x74, 0x65, 0x64, 0x22, 0x3a, 0x7b, 0x22, 0x74, 0x79, 0x70, 0x65, 0x22, 0x3a, 0x22, 0x62, 0x6f, 0x6f, 0x6c, 0x65, 0x61, 0x6e, 0x22, 0x7d, 0x7d, 0x7d, 0x2c, 0x22, 0x54, 0x6f, 0x64, 0x6f, 0x50, 0x61, 0x72, 0x74, 0x69, 0x61, 0x6c, 0x22, 0x3a, 0x7b, 0x22, 0x74, 0x79, 0x70, 0x65, 0x22, 0x3a, 0x22, 0x6f, 0x62, 0x6a, 0x65, 0x63, 0x74, 0x22, 0x2c, 0x22, 0x72, 0x65, 0x71, 0x75, 0x69, 0x72, 0x65, 0x64, 0x22, 0x3a, 0x5b, 0x22, 0x74, 0x69, 0x74, 0x6c, 0x65, 0x22, 0x5d, 0x2c, 0x22, 0x70, 0x72, 0x6f, 0x70, 0x65, 0x72, 0x74, 0x69, 0x65, 0x73, 0x22, 0x3a, 0x7b, 0x22, 0x74, 0x69, 0x74, 0x6c, 0x65, 0x22, 0x3a, 0x7b, 0x22, 0x74, 0x79, 0x70, 0x65, 0x22, 0x3a, 0x22, 0x73, 0x74, 0x72, 0x69, 0x6e, 0x67, 0x22, 0x7d, 0x7d, 0x7d, 0x2c, 0x22, 0x48, 0x74, 0x74, 0x70, 0x45, 0x72, 0x72, 0x6f, 0x72, 0x22, 0x3a, 0x7b, 0x22, 0x74, 0x79, 0x70, 0x65, 0x22, 0x3a, 0x22, 0x6f, 0x62, 0x6a, 0x65, 0x63, 0x74, 0x22, 0x2c, 0x22, 0x72, 0x65, 0x71, 0x75, 0x69, 0x72, 0x65, 0x64, 0x22, 0x3a, 0x5b, 0x22, 0x6d, 0x73, 0x67, 0x22, 0x5d, 0x2c, 0x22, 0x70, 0x72, 0x6f, 0x70, 0x65, 0x72, 0x74, 0x69, 0x65, 0x73, 0x22, 0x3a, 0x7b, 0x22, 0x6d, 0x73, 0x67, 0x22, 0x3a, 0x7b, 0x22, 0x74, 0x79, 0x70, 0x65, 0x22, 0x3a, 0x22, 0x73, 0x74, 0x72, 0x69, 0x6e, 0x67, 0x22, 0x7d, 0x7d, 0x7d, 0x7d, 0x7d, 0x7d]);
    proof {
        assert(out@ =~= old(out)@ + lit_doc_tail());
    }
}
/// Appends `lit_path_not_found` to `out`.
fn put_path_not_found(out: &mut Vec<u8>)
    ensures
        final(out)@ == old(out)@ + lit_path_not_found(),
{
    put(out, &[0x70, 0x61, 0x74, 0x68, 0x20, 0x6e, 0x6f, 0x74, 0x20, 0x66, 0x6f, 0x75, 0x6e, 0x64, 0x3a, 0x20]);
    proof {
        assert(out@ =~= old(out)@ + lit_path_not_found());
    }
}
/// Appends `lit_serve_error` to `out`.
fn put_serve_error(out: &mut Vec<u8>)
    ensures
        final(out)@ == old(out)@ + lit_serve_error(),
{
    put(out, &[0x45, 0x72, 0x72, 0x6f, 0x72, 0x20, 0x73, 0x65, 0x72, 0x76, 0x69, 0x6e, 0x67, 0x20, 0x53, 0x77, 0x61, 0x67, 0x67, 0x65, 0x72, 0x20, 0x55, 0x49, 0x3a, 0x20]);
    proof {
        assert(out@ =~= old(out)@ + lit_serve_error());
    }
}
/// Appends `lit_swagger_json` to `out`.
fn put_swagger_json(out: &mut Vec<u8>)
    ensures
        final(out)@ == old(out)@ + lit_swagger_json(),
{
    put(out, &[0x73, 0x77, 0x61, 0x67, 0x67, 0x65, 0x72, 0x2e, 0x6a, 0x73, 0x6f, 0x6e]);
    proof {
        assert(out@ =~= old(out)@ + lit_swagger_json());
    }
}

/// The message of a missing explorer asset: `path not found: <tail>`.
pub open spec fn path_not_found_msg(tail: Seq<u8>) -> Seq<u8> {
    lit_path_not_found() + tail
}

/// The message of a failing asset lookup: `Error serving Swagger UI: <err>`.
pub open spec fn serve_error_msg(err: Seq<u8>) -> Seq<u8> {
    lit_serve_error() + err
}

/// What an asset lookup in the bundled explorer UI can yield.
pub enum AssetLookup {
    /// The asset exists: its content type, its bytes, and whether the bytes
    /// are stored gzip-compressed.
    Found { content_type: Vec<u8>, bytes: Vec<u8>, gzipped: bool },
    /// No asset of that name is bundled.
    NotFound,
    /// The lookup mechanism itself failed, with its message.
    Failed { msg: Vec<u8> },
}

/// The explorer's shared state: the swagger UI configuration, built once at
/// startup and never mutated, handed read-only to every lookup.
pub struct ExplorerState {
    conf: std::sync::Arc<utoipa_swagger_ui::Config<'static>>,
}

#[verifier::external_type_specification]
#[verifier::external_body]
pub struct ExConfig<'a>(utoipa_swagger_ui::Config<'a>);

impl ExplorerState {
    /// Relies on utoipa_swagger_ui::Config::new and Config::use_base_layout:
    /// a configuration that points the UI at `doc_url` and asks for the base
    /// layout, shared behind a reference count.
    #[verifier::external_body]
    pub fn new(doc_url: &'static str) -> (r: ExplorerState) {
        ExplorerState {
            conf: std::sync::Arc::new(
                utoipa_swagger_ui::Config::new([doc_url]).use_base_layout(),
            ),
        }
    }

    /// Relies on utoipa_swagger_ui::serve: looks `tail` up among the bundled
    /// Swagger UI assets. The bundle is fixed at build time, but nothing is
    /// assumed of the outcome here; callers state what holds of every result.
    #[verifier::external_body]
    fn lookup(&self, tail: &[u8]) -> (r: AssetLookup) {
        let tail = match std::str::from_utf8(tail) {
            Ok(t) => t,
            Err(e) => return AssetLookup::Failed { msg: e.to_string().into_bytes() },
        };
        match utoipa_swagger_ui::serve(tail, self.conf.clone()) {
            Ok(Some(f)) => AssetLookup::Found {
                content_type: f.content_type.into_bytes(),
                bytes: f.bytes.to_vec(),
                gzipped: f.gzpipped,
            },
            Ok(None) => AssetLookup::NotFound,
            Err(e) => AssetLookup::Failed { msg: e.to_string().into_bytes() },
        }
    }
}

/// The response an asset lookup outcome stands for: the asset with its
/// content type on 200; a 404 error naming the requested path when nothing is
/// bundled under it; a 500 error wrapping the failure otherwise.
pub fn asset_response(tail: &[u8], lookup: AssetLookup) -> (r: Result<Response, HttpError>)
    ensures
        match lookup {
            AssetLookup::Found { content_type, bytes, gzipped } => r is Ok
                && r->Ok_0.status == 200 && r->Ok_0.content_type is Some
                && r->Ok_0.content_type->0@ == content_type@ && r->Ok_0.body@ == bytes@
                && r->Ok_0.gzipped == gzipped,
            AssetLookup::NotFound => r is Err && r->Err_0.status == 404 && r->Err_0.msg@
                == path_not_found_msg(tail@),
            AssetLookup::Failed { msg } => r is Err && r->Err_0.status == 500 && r->Err_0.msg@
                == serve_error_msg(msg@),
        },
{
    match lookup {
        AssetLookup::Found { content_type, bytes, gzipped } => Ok(
            Response { status: 200, content_type: Some(content_type), body: bytes, gzipped },
        ),
        AssetLookup::NotFound => {
            let mut m: Vec<u8> = Vec::new();
            put_path_not_found(&mut m);
            put(&mut m, tail);
            Err(HttpError::new(404, m))
        },
        AssetLookup::Failed { msg } => {
            let mut m: Vec<u8> = Vec::new();
            put_serve_error(&mut m);
            put(&mut m, msg.as_slice());
            Err(HttpError::new(500, m))
        },
    }
}

/// The explorer handler: `swagger.json` is answered with the generated
/// OpenAPI document; every other tail is looked up among the bundled UI
/// assets and answered as `asset_response` states, so a missing asset is a
/// 404 error naming the path and a failing lookup a 500 error.
pub fn get_swagger(state: &ExplorerState, tail: &[u8]) -> (r: Result<Response, HttpError>)
    ensures
        tail@ == swagger_json_tail() ==> r is Ok && r->Ok_0.status == 200
            && r->Ok_0.content_type is Some && r->Ok_0.content_type->0@ == ct_json()
            && r->Ok_0.body@ == spec_api_doc() && r->Ok_0.gzipped == false,
        tail@ != swagger_json_tail() ==> match r {
            Ok(resp) => resp.status == 200 && resp.content_type is Some,
            Err(e) => (e.status == 404 && e.msg@ == path_not_found_msg(tail@)) || (e.status == 500
                && exists|m: Seq<u8>| e.msg@ == serve_error_msg(m)),
        },
{
    let is_doc = bytes_eq(
        tail,
        &[0x73, 0x77, 0x61, 0x67, 0x67, 0x65, 0x72, 0x2e, 0x6a, 0x73, 0x6f, 0x6e],
    );
    proof {
        assert(seq![
            0x73u8, 0x77u8, 0x61u8, 0x67u8, 0x67u8, 0x65u8, 0x72u8, 0x2eu8, 0x6au8, 0x73u8,
            0x6fu8, 0x6eu8,
        ] =~= swagger_json_tail());
    }
    if is_doc {
        return Ok(
            Response {
                status: 200,
                content_type: Some(ct_json_vec()),
                body: openapi_json(),
                gzipped: false,
            },
        );
    }
    asset_response(tail, state.lookup(tail))
}

/// A byte sequence occurring somewhere inside another.
pub open spec fn contains_seq(hay: Seq<u8>, needle: Seq<u8>) -> bool {
    exists|k: int|
        0 <= k <= hay.len() - needle.len() && #[trigger] hay.subrange(k, k + needle.len()) == needle
}

/// A sequence contains whatever stands between two others.
proof fn lemma_contains_middle(a: Seq<u8>, b: Seq<u8>, c: Seq<u8>)
    ensures
        contains_seq(a + b + c, b),
{
    let hay = a + b + c;
    assert(hay.subrange(a.len() as int, (a.len() + b.len()) as int) =~= b);
}

/// The served document lists every route table row: each row's operation
/// object, built from its declared request body and status/schema table,
/// stands in the document. (That nothing else stands beside them is visible
/// from `spec_api_doc` itself, which is assembled from these five rows and
/// fixed framing alone.)
#[verifier::rlimit(60)]
pub proof fn lemma_doc_lists_route_ops()
    ensures
        spec_route_table().len() == 5,
        forall|i: int|
            0 <= i < 5 ==> #[trigger] contains_seq(
                spec_api_doc(),
                spec_operation(spec_route_table()[i]),
            ),
{
    let t = spec_route_table();
    let h = lit_doc_head() + json_string(todos_path()) + lit_obj_open() + lit_get_key();
    let r0 = spec_operation(t[0]);
    let m1 = seq![0x2cu8] + lit_post_key();
    let r1 = spec_operation(t[1]);
    let m2 = lit_item_sep() + json_string(todos_item_template()) + lit_obj_open() + lit_get_key();
    let r2 = spec_operation(t[2]);
    let m3 = seq![0x2cu8] + lit_put_key();
    let r3 = spec_operation(t[3]);
    let m4 = seq![0x2cu8] + lit_delete_key();
    let r4 = spec_operation(t[4]);
    let tl = lit_doc_tail();
    assert(spec_api_doc() =~= h + r0 + (m1 + r1 + m2 + r2 + m3 + r3 + m4 + r4 + tl));
    lemma_contains_middle(h, r0, m1 + r1 + m2 + r2 + m3 + r3 + m4 + r4 + tl);
    assert(spec_api_doc() =~= (h + r0 + m1) + r1 + (m2 + r2 + m3 + r3 + m4 + r4 + tl));
    lemma_contains_middle(h + r0 + m1, r1, m2 + r2 + m3 + r3 + m4 + r4 + tl);
    assert(spec_api_doc() =~= (h + r0 + m1 + r1 + m2) + r2 + (m3 + r3 + m4 + r4 + tl));
    lemma_contains_middle(h + r0 + m1 + r1 + m2, r2, m3 + r3 + m4 + r4 + tl);
    assert(spec_api_doc() =~= (h + r0 + m1 + r1 + m2 + r2 + m3) + r3 + (m4 + r4 + tl));
    lemma_contains_middle(h + r0 + m1 + r1 + m2 + r2 + m3, r3, m4 + r4 + tl);
    assert(spec_api_doc() =~= (h + r0 + m1 + r1 + m2 + r2 + m3 + r3 + m4) + r4 + tl);
    lemma_contains_middle(h + r0 + m1 + r1 + m2 + r2 + m3 + r3 + m4, r4, tl);
}


} // verus!
