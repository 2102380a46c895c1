//! The declarative route table and the request router. The table is the one
//! source both for route matching and for the OpenAPI document, so the served
//! documentation cannot drift from the dispatch behaviour.

use vstd::prelude::*;
use crate::text::put;

verus! {

broadcast use vstd::seq_lib::lemma_seq_skip_index;

/// The HTTP methods the service distinguishes; anything else dispatches like
/// an unregistered route.
#[derive(Clone, Copy, PartialEq, Eq, Structural)]
pub enum Method {
    Get,
    Post,
    Put,
    Delete,
    Other,
}

/// The schemas the documentation refers to.
#[derive(Clone, Copy, PartialEq, Eq, Structural)]
pub enum SchemaId {
    TodoSchema,
    TodoListSchema,
    TodoPartialSchema,
    HttpErrorSchema,
}

/// One documented response: a status code and the schema of its body.
#[derive(Clone, Copy, PartialEq, Eq, Structural)]
pub struct StatusDoc {
    /// The status code.
    pub status: u16,
    /// The schema of the response body.
    pub schema: SchemaId,
}

/// One row of the route table: a handler's method, path template, request
/// body schema (where one is accepted) and possible responses.
pub struct RouteDoc {
    /// The HTTP method.
    pub method: Method,
    /// The path template, as bytes.
    pub path: Vec<u8>,
    /// The request body schema, if the route takes a body.
    pub request_body: Option<SchemaId>,
    /// The possible responses.
    pub responses: Vec<StatusDoc>,
}

/// The spec-level shape of a route table row.
#[verifier::ext_equal]
pub struct RouteDocV {
    /// The HTTP method.
    pub method: Method,
    /// The path template.
    pub path: Seq<u8>,
    /// The request body schema, if any.
    pub request_body: Option<SchemaId>,
    /// The possible responses.
    pub responses: Seq<StatusDoc>,
}

impl View for RouteDoc {
    type V = RouteDocV;

    open spec fn view(&self) -> RouteDocV {
        RouteDocV {
            method: self.method,
            path: self.path@,
            request_body: self.request_body,
            responses: self.responses@,
        }
    }
}

/// The collection path, `/todos`.
pub open spec fn todos_path() -> Seq<u8> {
    seq![0x2fu8, 0x74u8, 0x6fu8, 0x64u8, 0x6fu8, 0x73u8]
}

/// The item prefix, `/todos/`.
pub open spec fn todos_item_prefix() -> Seq<u8> {
    seq![0x2fu8, 0x74u8, 0x6fu8, 0x64u8, 0x6fu8, 0x73u8, 0x2fu8]
}

/// The item path template, `/todos/{id}`.
pub open spec fn todos_item_template() -> Seq<u8> {
    todos_item_prefix() + seq![0x7bu8, 0x69u8, 0x64u8, 0x7du8]
}

/// The explorer prefix, `/explorer/`; what follows it is the asset tail.
pub open spec fn explorer_prefix() -> Seq<u8> {
    seq![0x2fu8, 0x65u8, 0x78u8, 0x70u8, 0x6cu8, 0x6fu8, 0x72u8, 0x65u8, 0x72u8, 0x2fu8]
}

/// The tail that serves the OpenAPI document, `swagger.json`.
pub open spec fn swagger_json_tail() -> Seq<u8> {
    seq![
        0x73u8,
        0x77u8,
        0x61u8,
        0x67u8,
        0x67u8,
        0x65u8,
        0x72u8,
        0x2eu8,
        0x6au8,
        0x73u8,
        0x6fu8,
        0x6eu8,
    ]
}

/// An ASCII decimal digit.
pub open spec fn is_digit(b: u8) -> bool {
    0x30 <= b && b <= 0x39
}

/// A well-formed id segment: one or more decimal digits.
pub open spec fn is_id_digits(s: Seq<u8>) -> bool {
    s.len() > 0 && forall|k: int| 0 <= k < s.len() ==> is_digit(#[trigger] s[k])
}

/// The numeric value of a run of decimal digits.
pub open spec fn digits_val(s: Seq<u8>) -> nat
    decreases s.len(),
{
    if s.len() == 0 {
        0
    } else {
        digits_val(s.drop_last()) * 10 + (s.last() - 0x30) as nat
    }
}

/// The five documented todo routes: list, create, get, update, delete. Both
/// the router's registered combinations and the OpenAPI document follow this
/// one table.
pub open spec fn spec_route_table() -> Seq<RouteDocV> {
    seq![
        RouteDocV {
            method: Method::Get,
            path: todos_path(),
            request_body: None,
            responses: seq![StatusDoc { status: 200, schema: SchemaId::TodoListSchema }],
        },
        RouteDocV {
            method: Method::Post,
            path: todos_path(),
            request_body: Some(SchemaId::TodoPartialSchema),
            responses: seq![StatusDoc { status: 201, schema: SchemaId::TodoSchema }],
        },
        RouteDocV {
            method: Method::Get,
            path: todos_item_template(),
            request_body: None,
            responses: seq![
                StatusDoc { status: 200, schema: SchemaId::TodoSchema },
                StatusDoc { status: 404, schema: SchemaId::HttpErrorSchema },
            ],
        },
        RouteDocV {
            method: Method::Put,
            path: todos_item_template(),
            request_body: Some(SchemaId::TodoPartialSchema),
            responses: seq![
                StatusDoc { status: 200, schema: SchemaId::TodoSchema },
                StatusDoc { status: 404, schema: SchemaId::HttpErrorSchema },
            ],
        },
        RouteDocV {
            method: Method::Delete,
            path: todos_item_template(),
            request_body: None,
            responses: seq![
                StatusDoc { status: 200, schema: SchemaId::TodoSchema },
                StatusDoc { status: 404, schema: SchemaId::HttpErrorSchema },
            ],
        },
    ]
}

/// Builds the route table, row for row as `spec_route_table` states it.
pub fn route_table() -> (r: Vec<RouteDoc>)
    ensures
        r@.len() == spec_route_table().len(),
        forall|i: int| 0 <= i < r@.len() ==> #[trigger] r@[i]@ == spec_route_table()[i],
{
    let mut t: Vec<RouteDoc> = Vec::new();
    let mut resp: Vec<StatusDoc> = Vec::new();
    resp.push(StatusDoc { status: 200, schema: SchemaId::TodoListSchema });
    t.push(RouteDoc { method: Method::Get, path: collection_path(), request_body: None,
        responses: resp });
    let mut resp: Vec<StatusDoc> = Vec::new();
    resp.push(StatusDoc { status: 201, schema: SchemaId::TodoSchema });
    t.push(RouteDoc { method: Method::Post, path: collection_path(),
        request_body: Some(SchemaId::TodoPartialSchema), responses: resp });
    let mut resp: Vec<StatusDoc> = Vec::new();
    resp.push(StatusDoc { status: 200, schema: SchemaId::TodoSchema });
    resp.push(StatusDoc { status: 404, schema: SchemaId::HttpErrorSchema });
    t.push(RouteDoc { method: Method::Get, path: item_template_path(), request_body: None,
        responses: resp });
    let mut resp: Vec<StatusDoc> = Vec::new();
    resp.push(StatusDoc { status: 200, schema: SchemaId::TodoSchema });
    resp.push(StatusDoc { status: 404, schema: SchemaId::HttpErrorSchema });
    t.push(RouteDoc { method: Method::Put, path: item_template_path(),
        request_body: Some(SchemaId::TodoPartialSchema), responses: resp });
    let mut resp: Vec<StatusDoc> = Vec::new();
    resp.push(StatusDoc { status: 200, schema: SchemaId::TodoSchema });
    resp.push(StatusDoc { status: 404, schema: SchemaId::HttpErrorSchema });
    t.push(RouteDoc { method: Method::Delete, path: item_template_path(), request_body: None,
        responses: resp });
    proof {
        assert(t@[0]@.path =~= spec_route_table()[0].path);
        assert(t@[0]@.responses =~= spec_route_table()[0].responses);
        assert(t@[1]@.responses =~= spec_route_table()[1].responses);
        assert(t@[2]@.path =~= spec_route_table()[2].path);
        assert(t@[2]@.responses =~= spec_route_table()[2].responses);
        assert(t@[3]@.responses =~= spec_route_table()[3].responses);
        assert(t@[4]@.responses =~= spec_route_table()[4].responses);
        assert forall|i: int| 0 <= i < t@.len() implies #[trigger] t@[i]@ == spec_route_table()[i]
            by {
            assert(t@[i]@ =~= spec_route_table()[i]);
        }
    }
    t
}

/// The collection path, `/todos`, as a fresh vector.
pub fn collection_path() -> (r: Vec<u8>)
    ensures
        r@ == todos_path(),
{
    let mut p: Vec<u8> = Vec::new();
    put(&mut p, &[0x2f, 0x74, 0x6f, 0x64, 0x6f, 0x73]);
    proof {
        assert(p@ =~= todos_path());
    }
    p
}

/// The item path template, `/todos/{id}`, as a fresh vector.
pub fn item_template_path() -> (r: Vec<u8>)
    ensures
        r@ == todos_item_template(),
{
    let mut p: Vec<u8> = Vec::new();
    put(&mut p, &[0x2f, 0x74, 0x6f, 0x64, 0x6f, 0x73, 0x2f, 0x7b, 0x69, 0x64, 0x7d]);
    proof {
        assert(p@ =~= todos_item_template());
    }
    p
}

/// Where a request path leads, at the spec level.
pub enum SpecTarget {
    /// `/todos` itself.
    TodoCollection,
    /// `/todos/{id}` with a well-formed id in range.
    TodoItem(int),
    /// `/todos/{seg}` whose segment is not a well-formed id in range.
    TodoItemInvalid,
    /// `/explorer/{tail}`: the documentation scope, with the asset tail.
    Explorer(Seq<u8>),
    /// No registered path.
    NoRoute,
}

/// The routing function: which target a request path reaches. An id segment
/// must be non-empty, all digits, without further path segments.
pub open spec fn spec_match_path(path: Seq<u8>) -> SpecTarget {
    if path == todos_path() {
        SpecTarget::TodoCollection
    } else if path.len() > 7 && path.take(7) == todos_item_prefix() {
        let seg = path.skip(7);
        if seg.contains(0x2fu8) {
            SpecTarget::NoRoute
        } else if is_id_digits(seg) && digits_val(seg) <= 0x7fffffff {
            SpecTarget::TodoItem(digits_val(seg) as int)
        } else {
            SpecTarget::TodoItemInvalid
        }
    } else if path.len() >= 10 && path.take(10) == explorer_prefix() {
        SpecTarget::Explorer(path.skip(10))
    } else {
        SpecTarget::NoRoute
    }
}

/// Where a request path leads: the executable router.
pub enum Target {
    /// `/todos` itself.
    TodoCollection,
    /// `/todos/{id}` with a well-formed id in range.
    TodoItem(i32),
    /// `/todos/{seg}` whose segment is not a well-formed id in range.
    TodoItemInvalid,
    /// `/explorer/{tail}`: the documentation scope, with the asset tail.
    Explorer(Vec<u8>),
    /// No registered path.
    NoRoute,
}

/// Routes a request path, following `spec_match_path` exactly.
pub fn match_path(path: &[u8]) -> (r: Target)
    ensures
        match r {
            Target::TodoCollection => spec_match_path(path@) is TodoCollection,
            Target::TodoItem(id) => spec_match_path(path@) == SpecTarget::TodoItem(id as int),
            Target::TodoItemInvalid => spec_match_path(path@) is TodoItemInvalid,
            Target::Explorer(t) => spec_match_path(path@) == SpecTarget::Explorer(t@),
            Target::NoRoute => spec_match_path(path@) is NoRoute,
        },
{
    let n = path.len();
    if n == 6 && path[0] == 0x2f && path[1] == 0x74 && path[2] == 0x6f && path[3] == 0x64
        && path[4] == 0x6f && path[5] == 0x73 {
        proof {
            assert(path@ =~= todos_path());
        }
        return Target::TodoCollection;
    }
    proof {
        assert(path@ != todos_path());
    }
    if n > 7 && path[0] == 0x2f && path[1] == 0x74 && path[2] == 0x6f && path[3] == 0x64 && path[4]
        == 0x6f && path[5] == 0x73 && path[6] == 0x2f {
        proof {
            assert(path@.take(7) =~= todos_item_prefix());
        }
        let ghost seg = path@.skip(7);
        let mut k: usize = 7;
        let mut all_digits: bool = true;
        let mut too_big: bool = false;
        let mut acc: u32 = 0;
        while k < n
            invariant
                7 <= k <= n,
                n == path@.len(),
                seg == path@.skip(7),
                path@ != todos_path(),
                path@.take(7) == todos_item_prefix(),
                forall|j: int| 7 <= j < k ==> path@[j] != 0x2f,
                all_digits <==> (forall|j: int| 7 <= j < k ==> is_digit(#[trigger] path@[j])),
                all_digits && !too_big ==> acc == digits_val(seg.take(k - 7)) && acc
                    <= 0x7fffffff,
                all_digits && too_big ==> digits_val(seg.take(k - 7)) > 0x7fffffff,
            decreases n - k,
        {
            let b = path[k];
            if b == 0x2f {
                proof {
                    assert(path@[k as int] == 0x2f);
                    assert(0 <= k - 7 < seg.len());
                    assert(path@.skip(7)[k - 7] == path@[(k - 7) + 7]);
                    assert(seg[k - 7] == 0x2f);
                    assert(seg.contains(0x2fu8));
                    assert(spec_match_path(path@) is NoRoute);
                }
                return Target::NoRoute;
            }
            proof {
                assert(seg.take(k - 7 + 1).drop_last() =~= seg.take(k - 7));
                assert(path@.skip(7)[k - 7] == path@[(k - 7) + 7]);
                assert(seg.take(k - 7 + 1).last() == seg[k - 7]);
                assert(seg.take(k - 7 + 1).last() == path@[k as int]);
            }
            if b < 0x30 || b > 0x39 {
                all_digits = false;
            } else if all_digits && !too_big {
                let d = (b - 0x30) as u32;
                if acc > 214748364 || (acc == 214748364 && d > 7) {
                    too_big = true;
                } else {
                    acc = acc * 10 + d;
                }
            }
            k = k + 1;
        }
        proof {
            assert(seg.take(n - 7) =~= seg);
            assert forall|j: int| 0 <= j < seg.len() implies #[trigger] seg[j] != 0x2f by {
                assert(path@.skip(7)[j] == path@[j + 7]);
            }
            assert(!seg.contains(0x2fu8));
        }
        proof {
            assert(seg.len() == n - 7);
            if all_digits {
                assert forall|j: int| 0 <= j < seg.len() implies is_digit(
                    #[trigger] seg[j],
                ) by {
                    assert(path@.skip(7)[j] == path@[j + 7]);
                }
                assert(is_id_digits(seg));
            } else {
                let j = choose|j: int| 7 <= j < n && !is_digit(#[trigger] path@[j]);
                assert(path@.skip(7)[j - 7] == path@[(j - 7) + 7]);
                assert(!is_id_digits(seg));
            }
        }
        if all_digits && !too_big {
            return Target::TodoItem(acc as i32);
        }
        return Target::TodoItemInvalid;
    }
    if n >= 10 && path[0] == 0x2f && path[1] == 0x65 && path[2] == 0x78 && path[3] == 0x70
        && path[4] == 0x6c && path[5] == 0x6f && path[6] == 0x72 && path[7] == 0x65 && path[8]
        == 0x72 && path[9] == 0x2f {
        proof {
            assert(path@.take(10) =~= explorer_prefix());
        }
        let mut tail: Vec<u8> = Vec::new();
        let mut k: usize = 10;
        while k < n
            invariant
                10 <= k <= n,
                n == path@.len(),
                tail@ == path@.skip(10).take(k - 10),
            decreases n - k,
        {
            tail.push(path[k]);
            proof {
                assert(path@.skip(10).take(k - 10 + 1) =~= path@.skip(10).take(k - 10).push(
                    path@[k as int],
                ));
            }
            k = k + 1;
        }
        proof {
            assert(path@.skip(10).take(n - 10) =~= path@.skip(10));
        }
        return Target::Explorer(tail);
    }
    proof {
        if path@.len() > 7 && path@.take(7) == todos_item_prefix() {
            assert(path@[0] == 0x2f && path@[1] == 0x74 && path@[2] == 0x6f && path@[3] == 0x64
                && path@[4] == 0x6f && path@[5] == 0x73 && path@[6] == 0x2f);
        }
        if path@.len() >= 10 && path@.take(10) == explorer_prefix() {
            assert(path@[0] == 0x2f && path@[1] == 0x65 && path@[2] == 0x78 && path@[3] == 0x70
                && path@[4] == 0x6c && path@[5] == 0x6f && path@[6] == 0x72 && path@[7] == 0x65
                && path@[8] == 0x72 && path@[9] == 0x2f);
        }
    }
    Target::NoRoute
}

} // verus!
