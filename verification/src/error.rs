//! The uniform error envelope: a message and the HTTP status it travels
//! with. The status shapes the response's status line only; the serialized
//! body is a function of the message alone.

use vstd::prelude::*;
use crate::text::{json_string, dec_digits, put_json_string, put, put_u32_dec};

verus! {

/// An http error response: a human-readable message (UTF-8 bytes) and the
/// http status code, which is never part of the serialized body.
#[derive(Debug)]
pub struct HttpError {
    /// The error message.
    pub msg: Vec<u8>,
    /// The http status code, conveyed by the status line alone.
    pub status: u16,
}

/// The JSON body of an error response: an object with the single member
/// `msg`. It is, by construction, a function of the message alone.
pub open spec fn spec_error_body(msg: Seq<u8>) -> Seq<u8> {
    seq![0x7bu8, 0x22u8, 0x6du8, 0x73u8, 0x67u8, 0x22u8, 0x3au8] + json_string(msg)
        + seq![0x7du8]
}

/// The display form of an error: `[<status>] <msg>`.
pub open spec fn spec_error_display(status: u16, msg: Seq<u8>) -> Seq<u8> {
    seq![0x5bu8] + dec_digits(status as nat) + seq![0x5du8, 0x20u8] + msg
}

impl HttpError {
    /// A fresh error with the given status and message.
    pub fn new(status: u16, msg: Vec<u8>) -> (r: HttpError)
        ensures
            r.status == status,
            r.msg@ == msg@,
    {
        HttpError { msg, status }
    }

    /// The serialized JSON body, `{"msg": <message>}`. The status takes no
    /// part in it.
    pub fn body(&self) -> (r: Vec<u8>)
        ensures
            r@ == spec_error_body(self.msg@),
    {
        let mut out: Vec<u8> = Vec::new();
        put(&mut out, &[0x7b, 0x22, 0x6d, 0x73, 0x67, 0x22, 0x3a]);
        put_json_string(&mut out, self.msg.as_slice());
        out.push(0x7d);
        proof {
            assert(out@ =~= spec_error_body(self.msg@));
        }
        out
    }

    /// The display form, `[<status>] <msg>`.
    pub fn display_bytes(&self) -> (r: Vec<u8>)
        ensures
            r@ == spec_error_display(self.status, self.msg@),
    {
        let mut out: Vec<u8> = Vec::new();
        out.push(0x5b);
        put_u32_dec(&mut out, self.status as u32);
        put(&mut out, &[0x5d, 0x20]);
        put(&mut out, self.msg.as_slice());
        proof {
            assert(out@ =~= spec_error_display(self.status, self.msg@));
        }
        out
    }
}

/// The content type of JSON responses, `application/json`.
pub open spec fn ct_json() -> Seq<u8> {
    seq![
        0x61u8,
        0x70u8,
        0x70u8,
        0x6cu8,
        0x69u8,
        0x63u8,
        0x61u8,
        0x74u8,
        0x69u8,
        0x6fu8,
        0x6eu8,
        0x2fu8,
        0x6au8,
        0x73u8,
        0x6fu8,
        0x6eu8,
    ]
}

/// A transport-level response: the status line, an optional content type,
/// and the body bytes. Whether the body is stored compressed is carried for
/// the transport's `Content-Encoding` header.
#[derive(Debug)]
pub struct Response {
    /// The status code of the status line.
    pub status: u16,
    /// The content type, where one is declared.
    pub content_type: Option<Vec<u8>>,
    /// The body bytes; empty for bodiless responses.
    pub body: Vec<u8>,
    /// Whether the body bytes are gzip-compressed.
    pub gzipped: bool,
}

/// Builds `application/json` as a fresh vector.
pub fn ct_json_vec() -> (r: Vec<u8>)
    ensures
        r@ == ct_json(),
{
    let mut v: Vec<u8> = Vec::new();
    put(
        &mut v,
        &[
            0x61,
            0x70,
            0x70,
            0x6c,
            0x69,
            0x63,
            0x61,
            0x74,
            0x69,
            0x6f,
            0x6e,
            0x2f,
            0x6a,
            0x73,
            0x6f,
            0x6e,
        ],
    );
    proof {
        assert(v@ =~= ct_json());
    }
    v
}

impl HttpError {
    /// Converts this error into the transport response it stands for: the
    /// stored status on the status line, and `{"msg": <message>}` as a JSON
    /// body, so code and body always come from the same value.
    pub fn error_response(&self) -> (r: Response)
        ensures
            r.status == self.status,
            r.content_type is Some && r.content_type->0@ == ct_json(),
            r.body@ == spec_error_body(self.msg@),
            r.gzipped == false,
    {
        Response {
            status: self.status,
            content_type: Some(ct_json_vec()),
            body: self.body(),
            gzipped: false,
        }
    }
}

/// The serialized body never includes the status: errors with equal messages
/// serialize to the same bytes, whatever their statuses.
pub proof fn lemma_error_body_omits_status(a: HttpError, b: HttpError)
    requires
        a.msg@ == b.msg@,
    ensures
        spec_error_body(a.msg@) == spec_error_body(b.msg@),
{
}

} // verus!
