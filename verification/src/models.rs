//! The resource shapes: the persisted todo and the client-supplied partial
//! payload, with their JSON renderings and the payload's validation.

use vstd::prelude::*;
use crate::text::{json_string, int_digits, put, put_json_string, put_i32_dec};
use crate::json::{body_title, parse_body_title, is_num_byte, is_ws, lemma_esc_plain,
    lemma_int_digits_bytes, lemma_scan_escaped, lemma_skip_num_to, members_rest, scan_members,
    scan_string, skip_num, skip_value, skip_ws, title_key};
use crate::text::{QUOTE, esc_bytes};

verus! {

/// Todo model: a persisted task.
pub struct Todo {
    /// The todo id.
    pub id: i32,
    /// The todo title, as UTF-8 bytes.
    pub title: Vec<u8>,
    /// The todo completed status.
    pub completed: bool,
}

/// Partial Todo model: the client-supplied subset of fields accepted on
/// creation and reused for update.
pub struct TodoPartial {
    /// The todo title, as UTF-8 bytes.
    pub title: Vec<u8>,
}

/// The JSON rendering of one todo:
/// `{"id": <id>, "title": <title>, "completed": <completed>}`.
pub open spec fn spec_todo_json(id: int, title: Seq<u8>, completed: bool) -> Seq<u8> {
    seq![0x7bu8, 0x22u8, 0x69u8, 0x64u8, 0x22u8, 0x3au8] + int_digits(id)
        + seq![0x2cu8, 0x22u8, 0x74u8, 0x69u8, 0x74u8, 0x6cu8, 0x65u8, 0x22u8, 0x3au8]
        + json_string(title)
        + seq![
        0x2cu8,
        0x22u8,
        0x63u8,
        0x6fu8,
        0x6du8,
        0x70u8,
        0x6cu8,
        0x65u8,
        0x74u8,
        0x65u8,
        0x64u8,
        0x22u8,
        0x3au8,
    ] + spec_bool_json(completed) + seq![0x7du8]
}

/// The JSON rendering of a boolean.
pub open spec fn spec_bool_json(b: bool) -> Seq<u8> {
    if b {
        seq![0x74u8, 0x72u8, 0x75u8, 0x65u8]
    } else {
        seq![0x66u8, 0x61u8, 0x6cu8, 0x73u8, 0x65u8]
    }
}

/// The comma-separated renderings of a sequence of todos, defined from the
/// back so that it grows as a builder appends.
pub open spec fn spec_todos_joined(items: Seq<Todo>) -> Seq<u8>
    decreases items.len(),
{
    if items.len() == 0 {
        seq![]
    } else if items.len() == 1 {
        spec_todo_json(items[0].id as int, items[0].title@, items[0].completed)
    } else {
        spec_todos_joined(items.drop_last()) + seq![0x2cu8] + spec_todo_json(
            items.last().id as int,
            items.last().title@,
            items.last().completed,
        )
    }
}

/// The JSON rendering of a todo list: the joined todos between brackets.
pub open spec fn spec_todo_list_json(items: Seq<Todo>) -> Seq<u8> {
    seq![0x5bu8] + spec_todos_joined(items) + seq![0x5du8]
}

impl Todo {
    /// Appends this todo's JSON rendering to `out`.
    pub fn put_json(&self, out: &mut Vec<u8>)
        ensures
            final(out)@ == old(out)@ + spec_todo_json(self.id as int, self.title@,
                self.completed,
            ),
    {
        put(out, &[0x7b, 0x22, 0x69, 0x64, 0x22, 0x3a]);
        put_i32_dec(out, self.id);
        put(out, &[0x2c, 0x22, 0x74, 0x69, 0x74, 0x6c, 0x65, 0x22, 0x3a]);
        put_json_string(out, self.title.as_slice());
        put(out, &[0x2c, 0x22, 0x63, 0x6f, 0x6d, 0x70, 0x6c, 0x65, 0x74, 0x65, 0x64, 0x22, 0x3a]);
        if self.completed {
            put(out, &[0x74, 0x72, 0x75, 0x65]);
        } else {
            put(out, &[0x66, 0x61, 0x6c, 0x73, 0x65]);
        }
        out.push(0x7d);
        proof {
            assert(out@ =~= old(out)@ + spec_todo_json(self.id as int, self.title@,
                self.completed,
            ));
        }
    }

    /// This todo's JSON body.
    pub fn to_json(&self) -> (r: Vec<u8>)
        ensures
            r@ == spec_todo_json(self.id as int, self.title@, self.completed),
    {
        let mut out: Vec<u8> = Vec::new();
        self.put_json(&mut out);
        out
    }
}

/// The JSON body of a todo list response.
pub fn todos_to_json(items: &Vec<Todo>) -> (r: Vec<u8>)
    ensures
        r@ == spec_todo_list_json(items@),
{
    let mut out: Vec<u8> = Vec::new();
    out.push(0x5b);
    let ghost pre = out@;
    let mut i: usize = 0;
    while i < items.len()
        invariant
            i <= items@.len(),
            pre =~= seq![0x5bu8],
            out@ == pre + spec_todos_joined(items@.take(i as int)),
        decreases items@.len() - i,
    {
        if i > 0 {
            out.push(0x2c);
        }
        items[i].put_json(&mut out);
        proof {
            assert(items@.take(i + 1).drop_last() =~= items@.take(i as int));
            assert(items@.take(i + 1).last() == items@[i as int]);
            assert(out@ =~= pre + spec_todos_joined(items@.take(i + 1)));
        }
        i = i + 1;
    }
    out.push(0x5d);
    proof {
        assert(items@.take(items@.len() as int) =~= items@);
        assert(out@ =~= spec_todo_list_json(items@));
    }
    out
}

impl TodoPartial {
    /// Validates a request body against the payload schema: `Some` exactly
    /// when the body is one JSON object with a string member `title`.
    pub fn from_body(body: &[u8]) -> (r: Option<TodoPartial>)
        ensures
            match r {
                Some(p) => body_title(body@) == Some(p.title@),
                None => body_title(body@) is None,
            },
    {
        match parse_body_title(body) {
            Some(title) => Some(TodoPartial { title }),
            None => None,
        }
    }
}

/// The shared skeleton of the round-trip proof: the body of a todo is the
/// concatenation of fixed framing, the id digits, the title string literal,
/// and the completed literal.
spec fn todo_json_parts(id: int, title: Seq<u8>, completed: bool) -> (Seq<u8>, Seq<u8>, Seq<u8>) {
    (int_digits(id), json_string(title), spec_bool_json(completed))
}

proof fn lemma_todo_json_shape(id: int, title: Seq<u8>, completed: bool)
    ensures
        ({
            let (nd, ts, bl) = todo_json_parts(id, title, completed);
            spec_todo_json(id, title, completed) =~= seq![
                0x7bu8, 0x22u8, 0x69u8, 0x64u8, 0x22u8, 0x3au8,
            ] + nd + seq![0x2cu8, 0x22u8, 0x74u8, 0x69u8, 0x74u8, 0x6cu8, 0x65u8, 0x22u8, 0x3au8]
                + ts + seq![
                0x2cu8, 0x22u8, 0x63u8, 0x6fu8, 0x6du8, 0x70u8, 0x6cu8, 0x65u8, 0x74u8, 0x65u8,
                0x64u8, 0x22u8, 0x3au8,
            ] + bl + seq![0x7du8]
        }),
{
}

/// The id member: key and number token, scanned from index 2.
#[verifier::rlimit(100)]
proof fn lemma_scan_id_member(id: int, title: Seq<u8>, completed: bool)
    ensures
        ({
            let doc = spec_todo_json(id, title, completed);
            let p2 = 6 + int_digits(id).len() as int;
            &&& scan_string(doc, 2) == Some((seq![0x69u8, 0x64u8], 5int))
            &&& skip_value(doc, 6) == Some(p2)
            &&& doc[5] == 0x3a && doc[6] == int_digits(id)[0] && !is_ws(doc[6])
        }),
{
    let doc = spec_todo_json(id, title, completed);
    lemma_todo_json_shape(id, title, completed);
    lemma_int_digits_bytes(id);
    let nd = int_digits(id);
    let p2 = 6 + nd.len() as int;
    lemma_esc_plain(seq![0x69u8, 0x64u8]);
    assert(doc =~= doc.take(2) + esc_bytes(seq![0x69u8, 0x64u8]) + seq![QUOTE] + doc.skip(5));
    lemma_scan_escaped(doc, doc.take(2), seq![0x69u8, 0x64u8], doc.skip(5));
    assert forall|k: int| 6 <= k < p2 implies is_num_byte(#[trigger] doc[k]) by {
        assert(doc[k] == nd[k - 6]);
    }
    assert(doc[p2] == 0x2c && !is_num_byte(doc[p2]));
    lemma_skip_num_to(doc, 6, p2);
}

/// The title member: key and string literal, scanned after the id member.
#[verifier::rlimit(100)]
proof fn lemma_scan_title_member(id: int, title: Seq<u8>, completed: bool)
    ensures
        ({
            let doc = spec_todo_json(id, title, completed);
            let p2 = 6 + int_digits(id).len() as int;
            let p3 = p2 + 9;
            let p4 = p3 + json_string(title).len() as int;
            &&& scan_string(doc, p2 + 2) == Some((title_key(), p2 + 8))
            &&& scan_string(doc, p3 + 1) == Some((title, p4))
            &&& doc[p2] == 0x2c && doc[p2 + 1] == 0x22 && doc[p2 + 8] == 0x3a && doc[p3] == QUOTE
        }),
{
    let doc = spec_todo_json(id, title, completed);
    lemma_todo_json_shape(id, title, completed);
    let p2 = 6 + int_digits(id).len() as int;
    let p3 = p2 + 9;
    let p4 = p3 + json_string(title).len() as int;
    lemma_esc_plain(title_key());
    assert(doc =~= doc.take(p2 + 2) + esc_bytes(title_key()) + seq![QUOTE] + doc.skip(p2 + 8));
    lemma_scan_escaped(doc, doc.take(p2 + 2), title_key(), doc.skip(p2 + 8));
    assert(doc =~= doc.take(p3 + 1) + esc_bytes(title) + seq![QUOTE] + doc.skip(p4));
    lemma_scan_escaped(doc, doc.take(p3 + 1), title, doc.skip(p4));
}

/// The completed member: key and boolean literal, and the closing brace.
#[verifier::rlimit(100)]
proof fn lemma_scan_completed_member(id: int, title: Seq<u8>, completed: bool)
    ensures
        ({
            let doc = spec_todo_json(id, title, completed);
            let p4 = 6 + int_digits(id).len() + 9 + json_string(title).len() as int;
            let p5 = p4 + 13;
            let p6 = p5 + spec_bool_json(completed).len() as int;
            &&& scan_string(doc, p4 + 2) == Some(
                (seq![0x63u8, 0x6fu8, 0x6du8, 0x70u8, 0x6cu8, 0x65u8, 0x74u8, 0x65u8, 0x64u8],
                p4 + 12),
            )
            &&& skip_value(doc, p5) == Some(p6)
            &&& doc[p4] == 0x2c && doc[p4 + 1] == 0x22 && doc[p4 + 12] == 0x3a && !is_ws(doc[p5])
                && doc[p5] != QUOTE && doc[p6] == 0x7d
            &&& doc.len() == p6 + 1
        }),
{
    let doc = spec_todo_json(id, title, completed);
    lemma_todo_json_shape(id, title, completed);
    let p4 = 6 + int_digits(id).len() + 9 + json_string(title).len() as int;
    let p5 = p4 + 13;
    let p6 = p5 + spec_bool_json(completed).len() as int;
    let ck = seq![0x63u8, 0x6fu8, 0x6du8, 0x70u8, 0x6cu8, 0x65u8, 0x74u8, 0x65u8, 0x64u8];
    lemma_esc_plain(ck);
    assert(doc =~= doc.take(p4 + 2) + esc_bytes(ck) + seq![QUOTE] + doc.skip(p4 + 12));
    lemma_scan_escaped(doc, doc.take(p4 + 2), ck, doc.skip(p4 + 12));
    if completed {
        assert(doc[p5] == 0x74 && doc[p5 + 1] == 0x72 && doc[p5 + 2] == 0x75 && doc[p5 + 3]
            == 0x65);
        assert(skip_value(doc, p5) == Some(p6));
    } else {
        assert(doc[p5] == 0x66 && doc[p5 + 1] == 0x61 && doc[p5 + 2] == 0x6c && doc[p5 + 3]
            == 0x73 && doc[p5 + 4] == 0x65);
        assert(skip_value(doc, p5) == Some(p6));
    }
}

/// The payload round trip: the JSON body of a todo, read back as a request
/// body, yields exactly the title the todo carries. A created or updated
/// todo's response therefore returns the supplied title unchanged.
#[verifier::rlimit(100)]
pub proof fn lemma_todo_json_round_trips_title(id: int, title: Seq<u8>, completed: bool)
    ensures
        body_title(spec_todo_json(id, title, completed)) == Some(title),
{
    let doc = spec_todo_json(id, title, completed);
    let p2 = 6 + int_digits(id).len() as int;
    let p3 = p2 + 9;
    let p4 = p3 + json_string(title).len() as int;
    let p5 = p4 + 13;
    let p6 = p5 + spec_bool_json(completed).len() as int;
    lemma_todo_json_shape(id, title, completed);
    lemma_scan_id_member(id, title, completed);
    lemma_scan_title_member(id, title, completed);
    lemma_scan_completed_member(id, title, completed);
    let ck = seq![0x63u8, 0x6fu8, 0x6du8, 0x70u8, 0x6cu8, 0x65u8, 0x74u8, 0x65u8, 0x64u8];
    assert(seq![0x69u8, 0x64u8] != title_key());
    assert(ck != title_key());
    assert(doc[0] == 0x7b && doc[1] == 0x22);
    assert(members_rest(doc, p6, true, Some(title)) == Some((Some(title), p6 + 1)));
    assert(scan_members(doc, p4 + 1, false, true, Some(title)) == Some((Some(title), p6 + 1)));
    assert(members_rest(doc, p4, true, Some(title)) == Some((Some(title), p6 + 1)));
    assert(scan_members(doc, p2 + 1, false, true, None) == Some((Some(title), p6 + 1)));
    assert(members_rest(doc, p2, true, None) == Some((Some(title), p6 + 1)));
    assert(scan_members(doc, 1, true, true, None) == Some((Some(title), p6 + 1)));
    assert(skip_ws(doc, p6 + 1) == doc.len());
    assert(body_title(doc) == Some(title));
}


} // verus!
