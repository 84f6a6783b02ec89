use vstd::prelude::*;
use crate::error::{AkcClientError, AkcError, ErrorWrapper};
use crate::json::{Json, member, int_in};
use crate::model::{FromJson, text_member};

verus! {

/// The only status under which the remote sends a payload.
pub const STATUS_OK: u16 = 200;

/// What a shape mismatch is reported with.
pub open spec fn shape_error(e: AkcClientError) -> bool {
    e is InternalError && e->InternalError_0@ == "error parsing json: "@ + "unexpected shape"@
}

/// The `u32` member `key` of `j`.
pub open spec fn u32_member(j: Json, key: Seq<char>) -> Option<int> {
    match member(j, key) {
        Some(v) => int_in(v, 0, u32::MAX as int),
        None => None,
    }
}

/// The error a failing answer with body `body` stands for: the remote's own
/// code and message when the body is an error envelope, else a shape error.
pub open spec fn rejection(body: Json, e: AkcClientError) -> bool {
    match member(body, "error"@) {
        Some(inner) => if u32_member(inner, "code"@) is Some && text_member(inner, "message"@) is Some {
            &&& e is AkcError
            &&& e->AkcError_0 as int == u32_member(inner, "code"@)->0
            &&& e->AkcError_1@ == text_member(inner, "message"@)->0
        } else {
            shape_error(e)
        },
        None => shape_error(e),
    }
}

fn shape_mismatch() -> (r: AkcClientError)
    ensures
        shape_error(r),
{
    AkcClientError::decode_error("unexpected shape")
}

/// The error carried by the body of a failing answer.
pub fn rejection_of(body: &Json) -> (r: AkcClientError)
    ensures
        rejection(*body, r),
{
    let inner = match body.get("error") {
        Some(e) => e,
        None => return shape_mismatch(),
    };
    let code = match inner.get("code") {
        Some(c) => c.as_u32(),
        None => None,
    };
    let message = match inner.get("message") {
        Some(m) => m.as_text(),
        None => None,
    };
    match (code, message) {
        (Some(code), Some(message)) => AkcClientError::from(
            ErrorWrapper { error: AkcError { code, message } },
        ),
        _ => shape_mismatch(),
    }
}

/// Opens the envelope of an answer: the `data` member under status 200, else
/// the error that the body reports.
pub fn decode_envelope(status: u16, body: &Json) -> (r: Result<&Json, AkcClientError>)
    ensures
        status == STATUS_OK ==> match r {
            Ok(d) => member(*body, "data"@) == Some(*d),
            Err(e) => member(*body, "data"@) is None && shape_error(e),
        },
        status != STATUS_OK ==> r is Err && rejection(*body, r->Err_0),
{
    if status == STATUS_OK {
        match body.get("data") {
            Some(d) => Ok(d),
            None => Err(shape_mismatch()),
        }
    } else {
        Err(rejection_of(body))
    }
}

/// `j` can be read as a `T`.
pub open spec fn decodable<T: FromJson>(j: Json) -> bool {
    exists|v: T| #[trigger] T::decodes_to(j, v)
}

/// Every element of `xs` can be read as a `T`.
pub open spec fn all_decodable<T: FromJson>(xs: Seq<Json>) -> bool {
    forall|i: int| 0 <= i < xs.len() ==> #[trigger] decodable::<T>(xs[i])
}

/// `vs` is what the elements of `xs` read as, one for one.
pub open spec fn all_decode_to<T: FromJson>(xs: Seq<Json>, vs: Seq<T>) -> bool {
    &&& vs.len() == xs.len()
    &&& forall|i: int| 0 <= i < xs.len() ==> T::decodes_to(xs[i], #[trigger] vs[i])
}

/// Reads every element of a JSON array.
pub fn decode_all<T: FromJson>(xs: &Vec<Json>) -> (r: Option<Vec<T>>)
    ensures
        match r {
            Some(vs) => all_decode_to(xs@, vs@),
            None => !all_decodable::<T>(xs@),
        },
{
    let mut out: Vec<T> = Vec::new();
    let mut i: usize = 0;
    while i < xs.len()
        invariant
            i <= xs.len(),
            out@.len() == i,
            forall|k: int| 0 <= k < i ==> T::decodes_to(xs@[k], #[trigger] out@[k]),
        decreases xs.len() - i,
    {
        match T::from_json(&xs[i]) {
            Some(v) => out.push(v),
            None => {
                assert(!decodable::<T>(xs@[i as int]));
                return None;
            },
        }
        i = i + 1;
    }
    Some(out)
}

/// The payload of a successful answer can be read as a `T`.
pub open spec fn data_decodes_to<T: FromJson>(body: Json, v: T) -> bool {
    member(body, "data"@) is Some && T::decodes_to(member(body, "data"@)->0, v)
}

/// Reads an answer whose payload is a single `T`.
pub fn decode_data<T: FromJson>(status: u16, body: &Json) -> (r: Result<T, AkcClientError>)
    ensures
        status == STATUS_OK ==> match r {
            Ok(v) => data_decodes_to(*body, v),
            Err(e) => shape_error(e) && forall|v: T| !#[trigger] data_decodes_to(*body, v),
        },
        status != STATUS_OK ==> r is Err && rejection(*body, r->Err_0),
{
    let d = decode_envelope(status, body)?;
    match T::from_json(d) {
        Some(v) => Ok(v),
        None => Err(shape_mismatch()),
    }
}

/// The array that member `key` of `j` holds.
pub open spec fn array_member(j: Json, key: Seq<char>) -> Option<Seq<Json>> {
    match member(j, key) {
        Some(Json::Array(xs)) => Some(xs@),
        _ => None,
    }
}

/// Reads an answer whose payload is an array of `T`.
pub fn decode_data_list<T: FromJson>(status: u16, body: &Json) -> (r: Result<Vec<T>, AkcClientError>)
    ensures
        status == STATUS_OK ==> match r {
            Ok(vs) => array_member(*body, "data"@) is Some && all_decode_to(
                array_member(*body, "data"@)->0,
                vs@,
            ),
            Err(e) => shape_error(e) && !(array_member(*body, "data"@) is Some && all_decodable::<T>(
                array_member(*body, "data"@)->0,
            )),
        },
        status != STATUS_OK ==> r is Err && rejection(*body, r->Err_0),
{
    let d = decode_envelope(status, body)?;
    match d {
        Json::Array(xs) => match decode_all(xs) {
            Some(vs) => Ok(vs),
            None => Err(shape_mismatch()),
        },
        _ => Err(shape_mismatch()),
    }
}

/// One page of a remote collection.
#[derive(Debug)]
pub struct Page<T> {
    /// The items this page holds.
    pub items: Vec<T>,
    /// The size of the whole collection, as the remote reports it.
    pub total: u32,
    /// How many items the remote says this page holds.
    pub count: u32,
}

/// The items of a page body: `data.<plural>`.
pub open spec fn page_items(body: Json, plural: Seq<char>) -> Option<Seq<Json>> {
    match member(body, "data"@) {
        Some(d) => array_member(d, plural),
        None => None,
    }
}

/// A page body has every part a page needs.
pub open spec fn page_readable<T: FromJson>(body: Json, plural: Seq<char>) -> bool {
    &&& page_items(body, plural) is Some
    &&& all_decodable::<T>(page_items(body, plural)->0)
    &&& u32_member(body, "total"@) is Some
    &&& u32_member(body, "count"@) is Some
}

/// `p` is what a page body reads as.
pub open spec fn page_decodes_to<T: FromJson>(body: Json, plural: Seq<char>, p: Page<T>) -> bool {
    &&& page_items(body, plural) is Some
    &&& all_decode_to(page_items(body, plural)->0, p.items@)
    &&& u32_member(body, "total"@) == Some(p.total as int)
    &&& u32_member(body, "count"@) == Some(p.count as int)
}

/// Reads one page of a collection whose items sit under `data.<plural>`.
pub fn decode_page<T: FromJson>(status: u16, body: &Json, plural: &str) -> (r: Result<
    Page<T>,
    AkcClientError,
>)
    ensures
        status == STATUS_OK ==> match r {
            Ok(p) => page_decodes_to(*body, plural@, p),
            Err(e) => shape_error(e) && !page_readable::<T>(*body, plural@),
        },
        status != STATUS_OK ==> r is Err && rejection(*body, r->Err_0),
{
    let d = decode_envelope(status, body)?;
    let items = match d.get(plural) {
        Some(Json::Array(xs)) => match decode_all(xs) {
            Some(vs) => vs,
            None => return Err(shape_mismatch()),
        },
        _ => return Err(shape_mismatch()),
    };
    let total = match body.get("total") {
        Some(t) => t.as_u32(),
        None => None,
    };
    let count = match body.get("count") {
        Some(c) => c.as_u32(),
        None => None,
    };
    match (total, count) {
        (Some(total), Some(count)) => Ok(Page { items, total, count }),
        _ => Err(shape_mismatch()),
    }
}

} // verus!
