//! Reading the store's result payload: `{ results: [ { series: [ { columns,
//! values } ] } ] }`. The pipeline reads `results[0].series[0].values` as
//! the row sequence; a missing member on that path, or a payload that does
//! not parse, is a payload-shape fault. Parsing and navigation go through
//! the JSON library; what that extraction yields for a given payload text is
//! named `rows_of`, and every contract here speaks through that name, so the
//! verified projector's exact clauses reach the payload boundary.

use vstd::prelude::*;
use crate::project::RawCell;
use crate::project::Schema;
use crate::project::ShapeFault;
use crate::project::Table;
use crate::project::cell_text;
use crate::project::field_faults;
use crate::project::project;

verus! {

/// The row sequence the JSON library extracts from payload text `s`:
/// `results[0].series[0].values`, each value classified into a [`RawCell`]
/// (text stays text, a number keeps its decimal text, anything else is
/// opaque). `None` when `s` does not parse or the path to the values is
/// missing. A pure function of the text: the library parses
/// deterministically.
pub uninterp spec fn rows_of(s: Seq<char>) -> Option<Seq<Seq<RawCell>>>;

/// The rows a vector of raw-cell rows holds, as sequences.
pub open spec fn rows_view(v: Seq<Vec<RawCell>>) -> Seq<Seq<RawCell>> {
    Seq::new(v.len(), |i: int| v[i]@)
}

/// Relies on serde_json: `from_str` parses the payload text, `Value::get`
/// with a key or an index walks to `results[0].series[0].values` without
/// panicking, `Value::as_array` hands out an array's elements, and
/// `Number`'s text form is the number's decimal text. `rows_of` names what
/// this extraction returns.
#[verifier::external_body]
fn fetch_rows(payload: &str) -> (r: Option<Vec<Vec<RawCell>>>)
    ensures
        r is Some <==> rows_of(payload@) is Some,
        r matches Some(v) ==> Some(rows_view(v@)) == rows_of(payload@),
{
    let v: serde_json::Value = serde_json::from_str(payload).ok()?;
    let rows = v.get("results")?.get(0)?.get("series")?.get(0)?.get("values")?.as_array()?;
    let mut out: Vec<Vec<RawCell>> = Vec::new();
    for row in rows {
        out.push(row.as_array()?.iter().map(|c| match c {
            serde_json::Value::String(s) => RawCell::Text(s.clone()),
            serde_json::Value::Number(n) => RawCell::Num(n.to_string()),
            _ => RawCell::Other,
        }).collect());
    }
    Some(out)
}

/// Extracts the payload's row sequence, `results[0].series[0].values`, as
/// raw cells: exactly `rows_of` the payload text. `None` exactly when the
/// payload does not parse or the path to the values is missing.
pub fn extract_rows(payload: &str) -> (r: Option<Vec<Vec<RawCell>>>)
    ensures
        r is Some <==> rows_of(payload@) is Some,
        r matches Some(v) ==> Some(rows_view(v@)) == rows_of(payload@),
{
    fetch_rows(payload)
}

/// Why a payload yielded no table.
#[derive(Clone, Copy, Debug, PartialEq, Eq, Structural)]
pub enum PayloadError {
    /// The payload did not parse, or held no `results[0].series[0].values`.
    Unreadable,
    /// A raw row failed the schema's shape: the first faulting row and
    /// schema position.
    Shape(ShapeFault),
}

/// Extracts the payload's rows and projects them through `schema`.
///
/// Succeeds exactly when the payload's rows exist (`rows_of`) and no schema
/// field faults on any of them. The table then has one column per schema
/// field, in the schema's declared order, each with one coerced cell per
/// extracted row, in row order. `Unreadable` exactly when the payload has
/// no rows; otherwise the first faulting row and schema position, in
/// row-major order.
pub fn process_payload(payload: &str, schema: &Schema) -> (r: Result<Table, PayloadError>)
    ensures
        r is Ok <==> (rows_of(payload@) matches Some(rs) && (forall|i: int, j: int|
            0 <= i < rs.len() && 0 <= j < schema.fields@.len() ==> !#[trigger] field_faults(
                rs[i],
                schema.fields@[j],
            ))),
        r matches Ok(t) ==> t.wf() && t.columns@.len() == schema.fields@.len(),
        r matches Ok(t) ==> (forall|j: int|
            0 <= j < schema.fields@.len() ==> (#[trigger] t.columns@[j]).name@
                == schema.fields@[j].name@ && t.columns@[j].kind == schema.fields@[j].kind),
        r matches Ok(t) ==> (rows_of(payload@) matches Some(rs) ==> (forall|j: int|
            0 <= j < schema.fields@.len() ==> (#[trigger] t.columns@[j]).cells@.len()
                == rs.len())),
        r matches Ok(t) ==> (rows_of(payload@) matches Some(rs) ==> (forall|i: int, j: int|
            0 <= i < rs.len() && 0 <= j < schema.fields@.len()
                ==> #[trigger] t.columns@[j].cells@[i]@ == cell_text(
                rs[i][schema.fields@[j].index as int],
            ))),
        r matches Err(e) ==> (e == PayloadError::Unreadable <==> rows_of(payload@) is None),
        r matches Err(e) ==> (e matches PayloadError::Shape(f) ==> (rows_of(
            payload@,
        ) matches Some(rs) && f.row < rs.len() && f.field < schema.fields@.len()
            && field_faults(rs[f.row as int], schema.fields@[f.field as int]) && (forall|j: int|
            0 <= j < f.field ==> !#[trigger] field_faults(rs[f.row as int], schema.fields@[j]))
            && (forall|i: int, j: int|
            0 <= i < f.row && 0 <= j < schema.fields@.len() ==> !#[trigger] field_faults(
                rs[i],
                schema.fields@[j],
            )))),
{
    let rows = match extract_rows(payload) {
        Some(v) => v,
        None => {
            return Err(PayloadError::Unreadable);
        },
    };
    match project(&rows, schema) {
        Ok(t) => {
            proof {
                assert(rows_of(payload@) == Some(rows_view(rows@)));
                let rs = rows_of(payload@)->Some_0;
                assert(rs == rows_view(rows@));
                assert(rs.len() == rows@.len());
                assert forall|i: int, j: int|
                    0 <= i < rs.len() && 0 <= j < schema.fields@.len()
                    implies !#[trigger] field_faults(rs[i], schema.fields@[j]) by {
                    assert(rs[i] == rows@[i]@);
                    assert(!field_faults(rows@[i]@, schema.fields@[j]));
                }
                assert forall|i: int, j: int|
                    0 <= i < rs.len() && 0 <= j < schema.fields@.len()
                    implies #[trigger] t.columns@[j].cells@[i]@ == cell_text(
                    rs[i][schema.fields@[j].index as int],
                ) by {
                    assert(rs[i] == rows@[i]@);
                    assert(t.columns@[j].cells@[i]@ == cell_text(
                        rows@[i]@[schema.fields@[j].index as int],
                    ));
                }
            }
            Ok(t)
        },
        Err(f) => {
            proof {
                assert(rows_of(payload@) == Some(rows_view(rows@)));
                let rs = rows_of(payload@)->Some_0;
                assert(rs == rows_view(rows@));
                assert(rs.len() == rows@.len());
                assert(rs[f.row as int] == rows@[f.row as int]@);
                assert(field_faults(rs[f.row as int], schema.fields@[f.field as int]));
                assert forall|j: int| 0 <= j < f.field implies !#[trigger] field_faults(
                    rs[f.row as int],
                    schema.fields@[j],
                ) by {
                    assert(!field_faults(rows@[f.row as int]@, schema.fields@[j]));
                }
                assert forall|i: int, j: int|
                    0 <= i < f.row && 0 <= j < schema.fields@.len()
                    implies !#[trigger] field_faults(rs[i], schema.fields@[j]) by {
                    assert(rs[i] == rows@[i]@);
                    assert(!field_faults(rows@[i]@, schema.fields@[j]));
                }
            }
            Err(PayloadError::Shape(f))
        },
    }
}

} // verus!
