//! The row projector: turns a sequence of loosely-typed raw rows into a
//! columnar table shaped by a per-category schema. A schema maps each output
//! column name to a fixed positional index within a raw row and an expected
//! value type. Projection fails fast on the first data-shape fault: a row
//! shorter than a required index, or a value that cannot coerce to the
//! declared type.

use vstd::prelude::*;
use vstd::string::StringExecFns;
use crate::text::check_decimal;
use crate::text::is_decimal;

verus! {

/// One loosely-typed value of a raw row as the store returned it: text, a
/// number (kept as its decimal text), or anything else.
#[derive(Debug)]
pub enum RawCell {
    Text(String),
    Num(String),
    Other,
}

/// The expected type of an output column.
#[derive(Clone, Copy, Debug, PartialEq, Eq, Structural)]
pub enum FieldKind {
    Text,
    Numeric,
}

/// One output column's name, the fixed index it reads within a raw row, and
/// its expected type.
#[derive(Debug)]
pub struct SchemaField {
    pub name: &'static str,
    pub index: usize,
    pub kind: FieldKind,
}

/// A category schema: the output columns in their declared order.
#[derive(Debug)]
pub struct Schema {
    pub fields: Vec<SchemaField>,
}

/// Whether `c` coerces to type `k`: a text field takes text; a numeric field
/// takes a number, or text that is plain decimal number text.
pub open spec fn cell_ok(c: RawCell, k: FieldKind) -> bool {
    match k {
        FieldKind::Text => c is Text,
        FieldKind::Numeric => match c {
            RawCell::Num(_) => true,
            RawCell::Text(s) => is_decimal(s@),
            RawCell::Other => false,
        },
    }
}

/// The text a coerced cell keeps: its value's decimal or literal text.
pub open spec fn cell_text(c: RawCell) -> Seq<char> {
    match c {
        RawCell::Text(s) => s@,
        RawCell::Num(s) => s@,
        RawCell::Other => Seq::empty(),
    }
}

/// Whether schema field `f` faults on `row`: the row is shorter than the
/// field's index, or the value there does not coerce to the field's type.
pub open spec fn field_faults(row: Seq<RawCell>, f: SchemaField) -> bool {
    f.index >= row.len() || !cell_ok(row[f.index as int], f.kind)
}

/// One output column: an ordered sequence of cell texts of a single type.
#[derive(Debug)]
pub struct Column {
    pub name: String,
    pub kind: FieldKind,
    pub cells: Vec<String>,
}

/// A columnar table: named, typed columns, all of the same row count, row
/// `i` across all columns describing the same raw row `i`.
#[derive(Debug)]
pub struct Table {
    pub columns: Vec<Column>,
}

impl Table {
    /// The common row count of the table's columns.
    pub open spec fn row_count(self) -> int {
        if self.columns@.len() == 0 {
            0
        } else {
            self.columns@[0].cells@.len() as int
        }
    }

    /// Every column holds exactly `row_count` cells.
    pub open spec fn wf(self) -> bool {
        forall|j: int|
            0 <= j < self.columns@.len() ==> (#[trigger] self.columns@[j]).cells@.len()
                == self.row_count()
    }
}

/// A data-shape fault: the first row and schema position (in row-major
/// order) at which projection failed.
#[derive(Clone, Copy, Debug, PartialEq, Eq, Structural)]
pub struct ShapeFault {
    pub row: usize,
    pub field: usize,
}

/// The surface-sensor schema: timestamp, battery voltage, and the two probe
/// temperatures, at their fixed raw-row indices.
pub fn surface_schema() -> (r: Schema)
    ensures
        r.fields@.len() == 4,
        r.fields@[0].name@ == "timestamp"@ && r.fields@[0].index == 0 && r.fields@[0].kind
            == FieldKind::Text,
        r.fields@[1].name@ == "bat_volt"@ && r.fields@[1].index == 1 && r.fields@[1].kind
            == FieldKind::Numeric,
        r.fields@[2].name@ == "temp_bot_c"@ && r.fields@[2].index == 5 && r.fields@[2].kind
            == FieldKind::Numeric,
        r.fields@[3].name@ == "temp_top_c"@ && r.fields@[3].index == 6 && r.fields@[3].kind
            == FieldKind::Numeric,
{
    let mut fields: Vec<SchemaField> = Vec::new();
    fields.push(SchemaField { name: "timestamp", index: 0, kind: FieldKind::Text });
    fields.push(SchemaField { name: "bat_volt", index: 1, kind: FieldKind::Numeric });
    fields.push(SchemaField { name: "temp_bot_c", index: 5, kind: FieldKind::Numeric });
    fields.push(SchemaField { name: "temp_top_c", index: 6, kind: FieldKind::Numeric });
    Schema { fields }
}

/// The ambient-sensor schema: timestamp, battery voltage, humidity, light,
/// rain rate and temperature, at their fixed raw-row indices.
pub fn ambient_schema() -> (r: Schema)
    ensures
        r.fields@.len() == 6,
        r.fields@[0].name@ == "timestamp"@ && r.fields@[0].index == 0 && r.fields@[0].kind
            == FieldKind::Text,
        r.fields@[1].name@ == "bat_volt"@ && r.fields@[1].index == 1 && r.fields@[1].kind
            == FieldKind::Numeric,
        r.fields@[2].name@ == "hum_pct"@ && r.fields@[2].index == 4 && r.fields@[2].kind
            == FieldKind::Numeric,
        r.fields@[3].name@ == "light_lux"@ && r.fields@[3].index == 6 && r.fields@[3].kind
            == FieldKind::Numeric,
        r.fields@[4].name@ == "rain_rate"@ && r.fields@[4].index == 7 && r.fields@[4].kind
            == FieldKind::Numeric,
        r.fields@[5].name@ == "temp_c"@ && r.fields@[5].index == 8 && r.fields@[5].kind
            == FieldKind::Numeric,
{
    let mut fields: Vec<SchemaField> = Vec::new();
    fields.push(SchemaField { name: "timestamp", index: 0, kind: FieldKind::Text });
    fields.push(SchemaField { name: "bat_volt", index: 1, kind: FieldKind::Numeric });
    fields.push(SchemaField { name: "hum_pct", index: 4, kind: FieldKind::Numeric });
    fields.push(SchemaField { name: "light_lux", index: 6, kind: FieldKind::Numeric });
    fields.push(SchemaField { name: "rain_rate", index: 7, kind: FieldKind::Numeric });
    fields.push(SchemaField { name: "temp_c", index: 8, kind: FieldKind::Numeric });
    Schema { fields }
}

/// The AC-channel schema: timestamp, current, energy, frequency, power
/// factor, power and voltage, at their fixed raw-row indices.
pub fn ac_schema() -> (r: Schema)
    ensures
        r.fields@.len() == 7,
        r.fields@[0].name@ == "timestamp"@ && r.fields@[0].index == 0 && r.fields@[0].kind
            == FieldKind::Text,
        r.fields@[1].name@ == "current"@ && r.fields@[1].index == 2 && r.fields@[1].kind
            == FieldKind::Numeric,
        r.fields@[2].name@ == "energy"@ && r.fields@[2].index == 4 && r.fields@[2].kind
            == FieldKind::Numeric,
        r.fields@[3].name@ == "freq"@ && r.fields@[3].index == 5 && r.fields@[3].kind
            == FieldKind::Numeric,
        r.fields@[4].name@ == "pf"@ && r.fields@[4].index == 7 && r.fields@[4].kind
            == FieldKind::Numeric,
        r.fields@[5].name@ == "power"@ && r.fields@[5].index == 8 && r.fields@[5].kind
            == FieldKind::Numeric,
        r.fields@[6].name@ == "voltage"@ && r.fields@[6].index == 9 && r.fields@[6].kind
            == FieldKind::Numeric,
{
    let mut fields: Vec<SchemaField> = Vec::new();
    fields.push(SchemaField { name: "timestamp", index: 0, kind: FieldKind::Text });
    fields.push(SchemaField { name: "current", index: 2, kind: FieldKind::Numeric });
    fields.push(SchemaField { name: "energy", index: 4, kind: FieldKind::Numeric });
    fields.push(SchemaField { name: "freq", index: 5, kind: FieldKind::Numeric });
    fields.push(SchemaField { name: "pf", index: 7, kind: FieldKind::Numeric });
    fields.push(SchemaField { name: "power", index: 8, kind: FieldKind::Numeric });
    fields.push(SchemaField { name: "voltage", index: 9, kind: FieldKind::Numeric });
    Schema { fields }
}

/// The DC-channel schema: timestamp, current and voltage, at their fixed
/// raw-row indices.
pub fn dc_schema() -> (r: Schema)
    ensures
        r.fields@.len() == 3,
        r.fields@[0].name@ == "timestamp"@ && r.fields@[0].index == 0 && r.fields@[0].kind
            == FieldKind::Text,
        r.fields@[1].name@ == "current"@ && r.fields@[1].index == 2 && r.fields@[1].kind
            == FieldKind::Numeric,
        r.fields@[2].name@ == "voltage"@ && r.fields@[2].index == 9 && r.fields@[2].kind
            == FieldKind::Numeric,
{
    let mut fields: Vec<SchemaField> = Vec::new();
    fields.push(SchemaField { name: "timestamp", index: 0, kind: FieldKind::Text });
    fields.push(SchemaField { name: "current", index: 2, kind: FieldKind::Numeric });
    fields.push(SchemaField { name: "voltage", index: 9, kind: FieldKind::Numeric });
    Schema { fields }
}

/// Decides whether `c` coerces to type `k`.
pub fn cell_matches(c: &RawCell, k: FieldKind) -> (r: bool)
    ensures
        r == cell_ok(*c, k),
{
    match k {
        FieldKind::Text => match c {
            RawCell::Text(_) => true,
            RawCell::Num(_) => false,
            RawCell::Other => false,
        },
        FieldKind::Numeric => match c {
            RawCell::Num(_) => true,
            RawCell::Text(s) => check_decimal(s.as_str()),
            RawCell::Other => false,
        },
    }
}

/// The text a coerced cell keeps.
pub fn cell_to_text(c: &RawCell) -> (r: String)
    ensures
        r@ == cell_text(*c),
{
    match c {
        RawCell::Text(s) => s.clone(),
        RawCell::Num(s) => s.clone(),
        RawCell::Other => {
            let e = String::new();
            proof {
                assert(e@ =~= cell_text(*c));
            }
            e
        },
    }
}

/// Projects raw rows through a schema into a columnar table.
///
/// Succeeds exactly when no schema field faults on any row. The table then
/// has one column per schema field, in the schema's declared order, each
/// with one coerced cell per input row, in input order. On failure, the
/// returned fault names the first faulting row and schema position, in
/// row-major order.
pub fn project(rows: &Vec<Vec<RawCell>>, schema: &Schema) -> (r: Result<Table, ShapeFault>)
    ensures
        r is Ok <==> (forall|i: int, j: int|
            0 <= i < rows@.len() && 0 <= j < schema.fields@.len() ==> !#[trigger] field_faults(
                rows@[i]@,
                schema.fields@[j],
            )),
        r matches Ok(t) ==> t.wf() && t.columns@.len() == schema.fields@.len(),
        r matches Ok(t) ==> (forall|j: int|
            0 <= j < schema.fields@.len() ==> (#[trigger] t.columns@[j]).name@
                == schema.fields@[j].name@ && t.columns@[j].kind == schema.fields@[j].kind
                && t.columns@[j].cells@.len() == rows@.len()),
        r matches Ok(t) ==> (forall|i: int, j: int|
            0 <= i < rows@.len() && 0 <= j < schema.fields@.len()
                ==> #[trigger] t.columns@[j].cells@[i]@ == cell_text(
                rows@[i]@[schema.fields@[j].index as int],
            )),
        r matches Err(e) ==> e.row < rows@.len() && e.field < schema.fields@.len()
            && field_faults(rows@[e.row as int]@, schema.fields@[e.field as int]),
        r matches Err(e) ==> (forall|j: int|
            0 <= j < e.field ==> !#[trigger] field_faults(
                rows@[e.row as int]@,
                schema.fields@[j],
            )),
        r matches Err(e) ==> (forall|i: int, j: int|
            0 <= i < e.row && 0 <= j < schema.fields@.len() ==> !#[trigger] field_faults(
                rows@[i]@,
                schema.fields@[j],
            )),
{
    let nrows = rows.len();
    let nfields = schema.fields.len();

    // First pass: find the first data-shape fault, if any.
    let mut i: usize = 0;
    while i < nrows
        invariant
            i <= nrows,
            nrows == rows@.len(),
            nfields == schema.fields@.len(),
            forall|a: int, j: int|
                0 <= a < i && 0 <= j < nfields ==> !#[trigger] field_faults(
                    rows@[a]@,
                    schema.fields@[j],
                ),
        decreases nrows - i,
    {
        let row = &rows[i];
        let mut j: usize = 0;
        while j < nfields
            invariant
                i < nrows,
                j <= nfields,
                nrows == rows@.len(),
                nfields == schema.fields@.len(),
                row@ == rows@[i as int]@,
                forall|a: int, jj: int|
                    0 <= a < i && 0 <= jj < nfields ==> !#[trigger] field_faults(
                        rows@[a]@,
                        schema.fields@[jj],
                    ),
                forall|jj: int|
                    0 <= jj < j ==> !#[trigger] field_faults(rows@[i as int]@, schema.fields@[jj]),
            decreases nfields - j,
        {
            let f = &schema.fields[j];
            let fits = f.index < row.len();
            let ok = if fits {
                cell_matches(&row[f.index], f.kind)
            } else {
                false
            };
            if !ok {
                proof {
                    assert(field_faults(rows@[i as int]@, schema.fields@[j as int]));
                }
                return Err(ShapeFault { row: i, field: j });
            }
            j = j + 1;
        }
        i = i + 1;
    }

    // Second pass: build the columns in schema order; every cell coerces.
    let mut columns: Vec<Column> = Vec::new();
    let mut j: usize = 0;
    while j < nfields
        invariant
            j <= nfields,
            nrows == rows@.len(),
            nfields == schema.fields@.len(),
            columns@.len() == j,
            forall|a: int, jj: int|
                0 <= a < nrows && 0 <= jj < nfields ==> !#[trigger] field_faults(
                    rows@[a]@,
                    schema.fields@[jj],
                ),
            forall|jj: int|
                0 <= jj < j ==> (#[trigger] columns@[jj]).name@ == schema.fields@[jj].name@
                    && columns@[jj].kind == schema.fields@[jj].kind && columns@[jj].cells@.len()
                    == nrows,
            forall|a: int, jj: int|
                0 <= a < nrows && 0 <= jj < j ==> #[trigger] columns@[jj].cells@[a]@ == cell_text(
                    rows@[a]@[schema.fields@[jj].index as int],
                ),
        decreases nfields - j,
    {
        let f = &schema.fields[j];
        let mut cells: Vec<String> = Vec::new();
        let mut a: usize = 0;
        while a < nrows
            invariant
                a <= nrows,
                j < nfields,
                nrows == rows@.len(),
                nfields == schema.fields@.len(),
                f.index == schema.fields@[j as int].index,
                f.kind == schema.fields@[j as int].kind,
                cells@.len() == a,
                forall|b: int, jj: int|
                    0 <= b < nrows && 0 <= jj < nfields ==> !#[trigger] field_faults(
                        rows@[b]@,
                        schema.fields@[jj],
                    ),
                forall|b: int|
                    0 <= b < a ==> #[trigger] cells@[b]@ == cell_text(
                        rows@[b]@[schema.fields@[j as int].index as int],
                    ),
            decreases nrows - a,
        {
            let row = &rows[a];
            proof {
                assert(!field_faults(rows@[a as int]@, schema.fields@[j as int]));
            }
            let txt = cell_to_text(&row[f.index]);
            cells.push(txt);
            a = a + 1;
        }
        let name = String::from_str(f.name);
        columns.push(Column { name, kind: f.kind, cells });
        j = j + 1;
    }
    Ok(Table { columns })
}

} // verus!
