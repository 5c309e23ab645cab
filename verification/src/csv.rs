//! Strict, schema-driven parsing of delimited text into column-major batches.
//!
//! Rows are the newline-separated lines of the raw bytes (a final trailing
//! newline does not open an empty last row); fields are the comma-separated
//! parts of a row. Parsing is positional and strict: every row must have
//! exactly one field per schema column, and field `j` of every row must parse
//! as column `j`'s declared type, or the whole parse fails, reporting the
//! first offending row.

use vstd::prelude::*;

use crate::column::{Batch, BatchV, Column, ColumnV};
use crate::error::{LoadError, LoadErrorV, RowFault, RowFaultV};
use crate::schema::{ColumnType, FieldV, Schema};
use crate::text::decode_text;
use vstd::utf8::{decode_utf8, valid_utf8};

verus! {

/// The row separator: a line feed.
pub const NEWLINE: u8 = 10;

/// The field separator: a comma.
pub const COMMA: u8 = 44;

/// The segments of `data` between occurrences of `sep`.
///
/// There is always one segment more than there are separators; in
/// particular, empty input has one empty segment.
pub open spec fn split_seq(data: Seq<u8>, sep: u8) -> Seq<Seq<u8>>
    decreases data.len(),
{
    if data.len() == 0 {
        seq![Seq::<u8>::empty()]
    } else if data[0] == sep {
        seq![Seq::<u8>::empty()] + split_seq(data.drop_first(), sep)
    } else {
        let rest = split_seq(data.drop_first(), sep);
        seq![seq![data[0]] + rest[0]] + rest.drop_first()
    }
}

pub proof fn lemma_split_nonempty(data: Seq<u8>, sep: u8)
    ensures
        split_seq(data, sep).len() >= 1,
    decreases data.len(),
{
    if data.len() != 0 {
        lemma_split_nonempty(data.drop_first(), sep);
    }
}

/// Splitting separator-free data yields that data as the one segment.
pub proof fn lemma_split_no_sep(data: Seq<u8>, sep: u8)
    requires
        forall|k: int| 0 <= k < data.len() ==> data[k] != sep,
    ensures
        split_seq(data, sep) == seq![data],
    decreases data.len(),
{
    if data.len() == 0 {
        assert(split_seq(data, sep) =~~= seq![data]);
    } else {
        lemma_split_no_sep(data.drop_first(), sep);
        assert(seq![data[0]] + data.drop_first() =~= data);
        assert(split_seq(data, sep) =~~= seq![data]);
    }
}

/// Splitting at the first separator: the part before it is the first
/// segment, and the rest splits on its own.
pub proof fn lemma_split_at_sep(data: Seq<u8>, sep: u8, k: int)
    requires
        0 <= k < data.len(),
        data[k] == sep,
        forall|m: int| 0 <= m < k ==> data[m] != sep,
    ensures
        split_seq(data, sep) == seq![data.take(k)] + split_seq(data.skip(k + 1), sep),
    decreases k,
{
    if k == 0 {
        assert(data.take(0) =~= Seq::<u8>::empty());
        assert(data.skip(1) =~= data.drop_first());
        assert(split_seq(data, sep) =~~= seq![data.take(0)] + split_seq(data.skip(1), sep));
    } else {
        let tail = data.drop_first();
        lemma_split_at_sep(tail, sep, k - 1);
        lemma_split_nonempty(tail.skip(k), sep);
        assert(seq![data[0]] + tail.take(k - 1) =~= data.take(k));
        assert(tail.skip(k) =~= data.skip(k + 1));
        assert(split_seq(data, sep) =~~= seq![data.take(k)] + split_seq(data.skip(k + 1), sep));
    }
}

/// The rows of the raw bytes: newline-separated lines, where a final
/// trailing newline does not open an empty last row.
pub open spec fn csv_rows(data: Seq<u8>) -> Seq<Seq<u8>> {
    let segments = split_seq(data, NEWLINE);
    if segments.len() > 0 && segments.last().len() == 0 {
        segments.drop_last()
    } else {
        segments
    }
}

/// The data rows: all rows, less one header row when the format carries one.
pub open spec fn data_rows(data: Seq<u8>, has_header: bool) -> Seq<Seq<u8>> {
    let rows = csv_rows(data);
    if has_header && rows.len() > 0 {
        rows.drop_first()
    } else {
        rows
    }
}

/// The fields of one row.
pub open spec fn row_fields(row: Seq<u8>) -> Seq<Seq<u8>> {
    split_seq(row, COMMA)
}

/// Whether `b` is an ASCII decimal digit.
pub open spec fn is_digit(b: u8) -> bool {
    48 <= b <= 57
}

pub open spec fn all_digits(s: Seq<u8>) -> bool {
    forall|k: int| 0 <= k < s.len() ==> is_digit(#[trigger] s[k])
}

/// The number denoted by a sequence of decimal digits.
pub open spec fn digits_value(s: Seq<u8>) -> int
    decreases s.len(),
{
    if s.len() == 0 {
        0
    } else {
        digits_value(s.drop_last()) * 10 + (s.last() - 48)
    }
}

/// Whether `s` opens with an explicit sign.
pub open spec fn has_sign(s: Seq<u8>) -> bool {
    s.len() > 0 && (s[0] == 43 || s[0] == 45)
}

/// `s` less a leading sign, if any.
pub open spec fn unsigned_part(s: Seq<u8>) -> Seq<u8> {
    if has_sign(s) {
        s.drop_first()
    } else {
        s
    }
}

/// An optional sign followed by one or more decimal digits.
pub open spec fn is_int_literal(s: Seq<u8>) -> bool {
    unsigned_part(s).len() > 0 && all_digits(unsigned_part(s))
}

/// The value of an integer literal.
pub open spec fn int_literal_value(s: Seq<u8>) -> int {
    if s.len() > 0 && s[0] == 45 {
        -digits_value(unsigned_part(s))
    } else {
        digits_value(unsigned_part(s))
    }
}

/// What an `Int64` cell holds: the literal's value when it is one and fits.
pub open spec fn int_cell_value(s: Seq<u8>) -> Option<i64> {
    if is_int_literal(s) && i64::MIN <= int_literal_value(s) <= i64::MAX {
        Some(int_literal_value(s) as i64)
    } else {
        None
    }
}

/// The length of the run of decimal digits that opens `s`.
pub open spec fn digit_run_len(s: Seq<u8>) -> int
    decreases s.len(),
{
    if s.len() == 0 || !is_digit(s[0]) {
        0
    } else {
        1 + digit_run_len(s.drop_first())
    }
}

/// What may follow a float literal's digits: nothing, or an exponent marker
/// with a (possibly signed) integer literal.
pub open spec fn exponent_ok(s: Seq<u8>) -> bool {
    if s.len() == 0 {
        true
    } else if s[0] == 101 || s[0] == 69 {
        is_int_literal(s.drop_first())
    } else {
        false
    }
}

/// What may follow a float literal's integer digits: an optional fraction
/// (a point with one or more digits), then an optional exponent.
pub open spec fn fraction_ok(s: Seq<u8>) -> bool {
    if s.len() > 0 && s[0] == 46 {
        let f = s.drop_first();
        digit_run_len(f) > 0 && exponent_ok(f.skip(digit_run_len(f)))
    } else {
        exponent_ok(s)
    }
}

/// A decimal float literal: an optional sign, one or more integer digits,
/// an optional fraction and an optional exponent.
pub open spec fn is_float_literal(s: Seq<u8>) -> bool {
    let m = unsigned_part(s);
    digit_run_len(m) > 0 && fraction_ok(m.skip(digit_run_len(m)))
}

/// Whether one field parses as a column of type `t`.
pub open spec fn cell_ok(t: ColumnType, field: Seq<u8>) -> bool {
    match t {
        ColumnType::Int64 => int_cell_value(field) is Some,
        ColumnType::Float64 => valid_utf8(field) && is_float_literal(field),
        ColumnType::Utf8 => valid_utf8(field),
    }
}

proof fn lemma_digits_nonneg(s: Seq<u8>)
    requires
        all_digits(s),
    ensures
        digits_value(s) >= 0,
    decreases s.len(),
{
    if s.len() > 0 {
        assert(all_digits(s.drop_last()));
        lemma_digits_nonneg(s.drop_last());
    }
}

/// Appending digits never shrinks the denoted number.
proof fn lemma_digits_extend(s: Seq<u8>, m: int)
    requires
        all_digits(s),
        0 <= m <= s.len(),
    ensures
        digits_value(s.take(m)) <= digits_value(s),
    decreases s.len() - m,
{
    if m == s.len() {
        assert(s.take(m) =~= s);
    } else {
        assert(s.take(m + 1).drop_last() =~= s.take(m));
        assert(all_digits(s.take(m)));
        lemma_digits_nonneg(s.take(m));
        assert(digits_value(s.take(m + 1)) == digits_value(s.take(m)) * 10 + (s[m] - 48));
        lemma_digits_extend(s, m + 1);
    }
}

/// A literal whose digits already exceed the signed 64-bit magnitudes
/// denotes no 64-bit value, whatever its sign.
proof fn lemma_int_out_of_range(s: Seq<u8>, m: int)
    requires
        0 <= m <= unsigned_part(s).len(),
        digits_value(unsigned_part(s).take(m)) > 0x8000_0000_0000_0000,
    ensures
        int_cell_value(s) is None,
{
    if is_int_literal(s) {
        lemma_digits_extend(unsigned_part(s), m);
    }
}

/// The segments of `data` between occurrences of `sep`.
fn split_bytes_exec(data: &Vec<u8>, sep: u8) -> (r: Vec<Vec<u8>>)
    ensures
        r.deep_view() == split_seq(data@, sep),
{
    let n = data.len();
    let mut out: Vec<Vec<u8>> = Vec::new();
    let mut cur: Vec<u8> = Vec::new();
    let mut i: usize = 0;
    proof {
        assert(data@.skip(0) =~= data@);
        assert(out.deep_view() + split_seq(data@, sep) =~= split_seq(data@, sep));
    }
    while i < n
        invariant
            n == data.len(),
            cur.len() <= i <= n,
            cur@ == data@.subrange(i - cur.len(), i as int),
            forall|m: int| i - cur.len() <= m < i ==> data@[m] != sep,
            split_seq(data@, sep) == out.deep_view() + split_seq(
                data@.skip(i - cur.len()),
                sep,
            ),
        decreases n - i,
    {
        if data[i] == sep {
            proof {
                let st = i - cur.len();
                let tail = data@.skip(st);
                lemma_split_at_sep(tail, sep, i - st);
                assert(tail.take(i - st) =~= cur@);
                assert(tail.skip(i - st + 1) =~= data@.skip(i + 1));
            }
            let ghost done = out.deep_view();
            let ghost segment = cur@;
            out.push(cur);
            proof {
                assert(out.deep_view() =~~= done.push(segment));
                assert(done.push(segment) + split_seq(data@.skip(i + 1), sep) =~= done + (seq![
                    segment,
                ] + split_seq(data@.skip(i + 1), sep)));
                assert(split_seq(data@, sep) == out.deep_view() + split_seq(
                    data@.skip(i + 1),
                    sep,
                ));
            }
            cur = Vec::new();
        } else {
            cur.push(data[i]);
            proof {
                assert(cur@ =~= data@.subrange(i + 1 - cur.len(), i + 1));
            }
        }
        i = i + 1;
    }
    proof {
        let st = i - cur.len();
        assert(data@.skip(st) =~= cur@);
        lemma_split_no_sep(cur@, sep);
    }
    let ghost done = out.deep_view();
    let ghost segment = cur@;
    out.push(cur);
    proof {
        assert(out.deep_view() =~~= done.push(segment));
        assert(done.push(segment) =~= done + seq![segment]);
        assert(out.deep_view() == split_seq(data@, sep));
    }
    out
}

/// The length of the digit run of `cell` that starts at `from`.
fn scan_digits(cell: &Vec<u8>, from: usize) -> (r: usize)
    requires
        from <= cell.len(),
    ensures
        r == digit_run_len(cell@.skip(from as int)),
        from + r <= cell.len(),
{
    let n = cell.len();
    let mut i: usize = from;
    while i < n && 48 <= cell[i] && cell[i] <= 57
        invariant
            n == cell.len(),
            from <= i <= n,
            digit_run_len(cell@.skip(from as int)) == (i - from) + digit_run_len(
                cell@.skip(i as int),
            ),
        decreases n - i,
    {
        proof {
            assert(cell@.skip(i as int).drop_first() =~= cell@.skip(i + 1));
        }
        i = i + 1;
    }
    proof {
        if i < n {
            assert(digit_run_len(cell@.skip(i as int)) == 0);
        }
    }
    i - from
}

/// Parses one `Int64` cell: an optional sign and decimal digits, strictly.
fn parse_int_cell(cell: &Vec<u8>) -> (r: Option<i64>)
    ensures
        r == int_cell_value(cell@),
{
    let ghost s = cell@;
    let n = cell.len();
    let mut start: usize = 0;
    let mut negative: bool = false;
    if n > 0 && (cell[0] == 43 || cell[0] == 45) {
        negative = cell[0] == 45;
        start = 1;
    }
    proof {
        assert(s.skip(start as int) =~= unsigned_part(s));
    }
    if start == n {
        return None;
    }
    let mut acc: i64 = 0;
    let mut i: usize = start;
    while i < n
        invariant
            s == cell@,
            n == s.len(),
            start <= i <= n,
            start < n,
            s.skip(start as int) =~= unsigned_part(s),
            forall|k: int| start <= k < i ==> is_digit(#[trigger] s[k]),
            acc == -digits_value(s.subrange(start as int, i as int)),
        decreases n - i,
    {
        let b = cell[i];
        if !(48 <= b && b <= 57) {
            proof {
                assert(!is_digit(unsigned_part(s)[i - start]));
            }
            return None;
        }
        proof {
            assert(all_digits(s.subrange(start as int, i as int)));
            lemma_digits_nonneg(s.subrange(start as int, i as int));
            assert(s.subrange(start as int, i + 1).drop_last() =~= s.subrange(
                start as int,
                i as int,
            ));
            assert(digits_value(s.subrange(start as int, i + 1)) == digits_value(
                s.subrange(start as int, i as int),
            ) * 10 + (b - 48));
            assert(unsigned_part(s).take(i + 1 - start) =~= s.subrange(start as int, i + 1));
        }
        let step = acc.checked_mul(10);
        if step.is_none() {
            proof {
                lemma_int_out_of_range(s, i + 1 - start);
            }
            return None;
        }
        let step2 = step.unwrap().checked_sub((b - 48) as i64);
        if step2.is_none() {
            proof {
                lemma_int_out_of_range(s, i + 1 - start);
            }
            return None;
        }
        acc = step2.unwrap();
        i = i + 1;
    }
    proof {
        assert(s.subrange(start as int, n as int) =~= unsigned_part(s));
        assert(is_int_literal(s));
        lemma_digits_nonneg(unsigned_part(s));
    }
    if negative {
        Some(acc)
    } else if acc == i64::MIN {
        None
    } else {
        Some(-acc)
    }
}

/// Checks one `Float64` cell against the decimal float literal grammar.
fn is_float_cell(cell: &Vec<u8>) -> (r: bool)
    ensures
        r == is_float_literal(cell@),
{
    let ghost s = cell@;
    let n = cell.len();
    let mut start: usize = 0;
    if n > 0 && (cell[0] == 43 || cell[0] == 45) {
        start = 1;
    }
    proof {
        assert(s.skip(start as int) =~= unsigned_part(s));
    }
    let d1 = scan_digits(cell, start);
    if d1 == 0 {
        return false;
    }
    let mut j: usize = start + d1;
    proof {
        assert(s.skip(start as int).skip(d1 as int) =~= s.skip(j as int));
        assert(unsigned_part(s).skip(digit_run_len(unsigned_part(s))) =~= s.skip(j as int));
    }
    // Optional fraction: a point with one or more digits.
    if j < n && cell[j] == 46 {
        let d2 = scan_digits(cell, j + 1);
        if d2 == 0 {
            proof {
                assert(s.skip(j as int).drop_first() =~= s.skip(j + 1));
            }
            return false;
        }
        proof {
            assert(s.skip(j as int).drop_first() =~= s.skip(j + 1));
            assert(s.skip(j + 1).skip(d2 as int) =~= s.skip(j + 1 + d2));
        }
        let fraction_end: usize = j + 1 + d2;
        proof {
            assert(fraction_ok(s.skip(j as int)) == exponent_ok(s.skip(fraction_end as int)));
        }
        j = fraction_end;
        // Optional exponent after the fraction.
        exponent_check(cell, j)
    } else {
        proof {
            if j < n {
                assert(s.skip(j as int)[0] != 46);
            }
            assert(fraction_ok(s.skip(j as int)) == exponent_ok(s.skip(j as int)));
        }
        exponent_check(cell, j)
    }
}

/// Checks the tail of a float literal from `j` on: empty, or an exponent.
fn exponent_check(cell: &Vec<u8>, j: usize) -> (r: bool)
    requires
        j <= cell.len(),
    ensures
        r == exponent_ok(cell@.skip(j as int)),
{
    let ghost s = cell@;
    let n = cell.len();
    if j == n {
        return true;
    }
    let marker = cell[j];
    if !(marker == 101 || marker == 69) {
        return false;
    }
    let ghost tail = s.skip(j + 1);
    proof {
        assert(s.skip(j as int).drop_first() =~= tail);
    }
    let mut k: usize = j + 1;
    if k < n && (cell[k] == 43 || cell[k] == 45) {
        k = k + 1;
    }
    proof {
        assert(tail.skip(k - (j + 1)) =~= unsigned_part(tail));
        assert(s.skip(k as int) =~= unsigned_part(tail));
    }
    if k == n {
        return false;
    }
    let d = scan_digits(cell, k);
    proof {
        let u = unsigned_part(tail);
        assert(u.len() == n - k);
        assert(digit_run_len(u) == d);
        if k + d == n {
            lemma_run_is_all(u);
        } else {
            lemma_run_stop(u);
            assert(!all_digits(u));
        }
    }
    k + d == n
}

/// The digit run is never longer than the sequence.
proof fn lemma_run_bounds(s: Seq<u8>)
    ensures
        0 <= digit_run_len(s) <= s.len(),
    decreases s.len(),
{
    if s.len() > 0 && is_digit(s[0]) {
        lemma_run_bounds(s.drop_first());
    }
}

/// A digit run that spans the whole sequence means every byte is a digit.
proof fn lemma_run_is_all(s: Seq<u8>)
    requires
        digit_run_len(s) == s.len(),
    ensures
        all_digits(s),
    decreases s.len(),
{
    if s.len() > 0 {
        lemma_run_bounds(s.drop_first());
        lemma_run_is_all(s.drop_first());
        assert(forall|k: int| 1 <= k < s.len() ==> #[trigger] s[k] == s.drop_first()[k - 1]);
    }
}

/// The byte just past the digit run is not a digit.
proof fn lemma_run_stop(s: Seq<u8>)
    requires
        digit_run_len(s) < s.len(),
    ensures
        !is_digit(s[digit_run_len(s)]),
    decreases s.len(),
{
    if s.len() > 0 && is_digit(s[0]) {
        lemma_run_bounds(s.drop_first());
        lemma_run_stop(s.drop_first());
        assert(s.drop_first()[digit_run_len(s.drop_first())] == s[digit_run_len(s)]);
    }
}

/// The first column of a row's fields, from `j` on, that does not parse.
pub open spec fn first_bad_cell(schema: Seq<FieldV>, fields: Seq<Seq<u8>>, j: int) -> Option<int>
    decreases schema.len() - j,
    when 0 <= j <= schema.len()
{
    if j >= schema.len() {
        None
    } else if !cell_ok(schema[j].data_type, fields[j]) {
        Some(j)
    } else {
        first_bad_cell(schema, fields, j + 1)
    }
}

/// What is wrong with a row already split into fields, if anything.
pub open spec fn fields_fault(schema: Seq<FieldV>, fields: Seq<Seq<u8>>) -> Option<RowFaultV> {
    if fields.len() != schema.len() {
        Some(RowFaultV::Width { found: fields.len() as int })
    } else {
        match first_bad_cell(schema, fields, 0) {
            Some(j) => Some(RowFaultV::Cell { column: j }),
            None => None,
        }
    }
}

/// What is wrong with one row of raw bytes, if anything.
pub open spec fn row_fault(schema: Seq<FieldV>, row: Seq<u8>) -> Option<RowFaultV> {
    fields_fault(schema, row_fields(row))
}

/// The first faulty row, with its fault.
pub open spec fn first_bad_row(schema: Seq<FieldV>, rows: Seq<Seq<u8>>) -> Option<(int, RowFaultV)>
    decreases rows.len(),
{
    if rows.len() == 0 {
        None
    } else {
        match row_fault(schema, rows[0]) {
            Some(f) => Some((0, f)),
            None => match first_bad_row(schema, rows.drop_first()) {
                Some(p) => Some((p.0 + 1, p.1)),
                None => None,
            },
        }
    }
}

/// The field at row `i`, column `j`.
pub open spec fn cell_at(rows: Seq<Seq<u8>>, i: int, j: int) -> Seq<u8> {
    row_fields(rows[i])[j]
}

/// Column `j` of the parsed batch, one value per row.
pub open spec fn column_values(t: ColumnType, rows: Seq<Seq<u8>>, j: int) -> ColumnV {
    match t {
        ColumnType::Int64 => ColumnV::Int64(
            Seq::new(rows.len(), |i: int| int_cell_value(cell_at(rows, i, j)).unwrap()),
        ),
        ColumnType::Float64 => ColumnV::Float64(
            Seq::new(rows.len(), |i: int| decode_utf8(cell_at(rows, i, j))),
        ),
        ColumnType::Utf8 => ColumnV::Utf8(
            Seq::new(rows.len(), |i: int| decode_utf8(cell_at(rows, i, j))),
        ),
    }
}

/// All columns of the parsed batch.
pub open spec fn batch_columns(schema: Seq<FieldV>, rows: Seq<Seq<u8>>) -> Seq<ColumnV> {
    Seq::new(schema.len(), |j: int| column_values(schema[j].data_type, rows, j))
}

/// What parsing raw bytes against a schema yields: the batch, or the first
/// faulty row.
pub open spec fn parse_result(schema: Seq<FieldV>, has_header: bool, data: Seq<u8>) -> Result<
    BatchV,
    LoadErrorV,
> {
    let rows = data_rows(data, has_header);
    match first_bad_row(schema, rows) {
        Some(p) => Err(LoadErrorV::Parse { row: p.0, fault: p.1 }),
        None => Ok(BatchV { schema, columns: batch_columns(schema, rows) }),
    }
}

/// Maps an executable parse outcome to its mathematical image.
pub open spec fn batch_result_view(r: Result<Batch, LoadError>) -> Result<BatchV, LoadErrorV> {
    match r {
        Ok(b) => Ok(b@),
        Err(e) => Err(e@),
    }
}

proof fn lemma_no_bad_rows(schema: Seq<FieldV>, rows: Seq<Seq<u8>>)
    requires
        forall|k: int| 0 <= k < rows.len() ==> row_fault(schema, #[trigger] rows[k]) is None,
    ensures
        first_bad_row(schema, rows) is None,
    decreases rows.len(),
{
    if rows.len() > 0 {
        assert(forall|k: int|
            0 <= k < rows.drop_first().len() ==> #[trigger] rows.drop_first()[k] == rows[k + 1]);
        lemma_no_bad_rows(schema, rows.drop_first());
    }
}

proof fn lemma_bad_row_at(schema: Seq<FieldV>, rows: Seq<Seq<u8>>, i: int)
    requires
        0 <= i < rows.len(),
        row_fault(schema, rows[i]) is Some,
        forall|k: int| 0 <= k < i ==> row_fault(schema, #[trigger] rows[k]) is None,
    ensures
        first_bad_row(schema, rows) == Some((i, row_fault(schema, rows[i]).unwrap())),
    decreases i,
{
    if i > 0 {
        assert(forall|k: int|
            0 <= k < rows.drop_first().len() ==> #[trigger] rows.drop_first()[k] == rows[k + 1]);
        lemma_bad_row_at(schema, rows.drop_first(), i - 1);
    }
}

proof fn lemma_cells_ok_until(schema: Seq<FieldV>, fields: Seq<Seq<u8>>, j: int, b: int)
    requires
        0 <= j <= b <= schema.len(),
        forall|k: int| j <= k < b ==> cell_ok(schema[k].data_type, #[trigger] fields[k]),
    ensures
        b < schema.len() && !cell_ok(schema[b].data_type, fields[b]) ==> first_bad_cell(
            schema,
            fields,
            j,
        ) == Some(b),
        b == schema.len() ==> first_bad_cell(schema, fields, j) is None,
    decreases b - j,
{
    if j < b {
        lemma_cells_ok_until(schema, fields, j + 1, b);
    }
}

proof fn lemma_all_cells_ok(schema: Seq<FieldV>, fields: Seq<Seq<u8>>, j: int)
    requires
        0 <= j <= schema.len(),
        first_bad_cell(schema, fields, j) is None,
    ensures
        forall|k: int| j <= k < schema.len() ==> cell_ok(schema[k].data_type, #[trigger] fields[k]),
    decreases schema.len() - j,
{
    if j < schema.len() {
        lemma_all_cells_ok(schema, fields, j + 1);
    }
}

/// Checks one split row against the schema: the width, then each cell.
fn fields_fault_exec(schema: &Schema, fields: &Vec<Vec<u8>>) -> (r: Option<RowFault>)
    ensures
        match r {
            None => fields_fault(schema@, fields.deep_view()) is None,
            Some(f) => fields_fault(schema@, fields.deep_view()) == Some(f@),
        },
{
    let ghost fs = fields.deep_view();
    let ncols = schema.num_fields();
    if fields.len() != ncols {
        return Some(RowFault::Width { found: fields.len() });
    }
    let mut j: usize = 0;
    while j < ncols
        invariant
            fs == fields.deep_view(),
            ncols == schema@.len(),
            fields.len() == ncols,
            j <= ncols,
            forall|k: int| 0 <= k < j ==> cell_ok(schema@[k].data_type, #[trigger] fs[k]),
        decreases ncols - j,
    {
        let ok: bool = match *schema.field(j).data_type() {
            ColumnType::Int64 => parse_int_cell(&fields[j]).is_some(),
            ColumnType::Float64 => decode_text(&fields[j]).is_some() && is_float_cell(&fields[j]),
            ColumnType::Utf8 => decode_text(&fields[j]).is_some(),
        };
        proof {
            assert(fs[j as int] =~= fields@[j as int]@);
            assert(ok == cell_ok(schema@[j as int].data_type, fs[j as int]));
        }
        if !ok {
            proof {
                lemma_cells_ok_until(schema@, fs, 0, j as int);
            }
            return Some(RowFault::Cell { column: j });
        }
        j = j + 1;
    }
    proof {
        lemma_cells_ok_until(schema@, fs, 0, ncols as int);
    }
    None
}

/// Builds column `j` from the pre-split, pre-checked rows.
#[verifier::loop_isolation(false)]
fn build_column(
    t: ColumnType,
    cells: &Vec<Vec<Vec<u8>>>,
    j: usize,
    Ghost(rows): Ghost<Seq<Seq<u8>>>,
) -> (r: Column)
    requires
        cells@.len() == rows.len(),
        forall|k: int| 0 <= k < rows.len() ==> (#[trigger] cells@[k]).deep_view() == row_fields(
            rows[k],
        ),
        forall|k: int| 0 <= k < rows.len() ==> j < row_fields(#[trigger] rows[k]).len(),
        forall|k: int| 0 <= k < rows.len() ==> cell_ok(t, cell_at(rows, k, j as int)),
    ensures
        r@ == column_values(t, rows, j as int),
{
    let nrows = cells.len();
    match t {
        ColumnType::Int64 => {
            let mut values: Vec<i64> = Vec::new();
            let mut i: usize = 0;
            while i < nrows
                invariant
                    i <= nrows,
                    values.len() == i,
                    forall|k: int|
                        0 <= k < i ==> values@[k] == int_cell_value(
                            cell_at(rows, k, j as int),
                        ).unwrap(),
                decreases nrows - i,
            {
                proof {
                    assert(cell_ok(t, cell_at(rows, i as int, j as int)));
                    assert(cells@[i as int].deep_view()[j as int] =~= cells@[i as int]@[j as int]@);
                }
                let parsed = parse_int_cell(&cells[i][j]);
                values.push(parsed.unwrap());
                i = i + 1;
            }
            proof {
                assert(values@ =~= Seq::new(
                    rows.len(),
                    |i: int| int_cell_value(cell_at(rows, i, j as int)).unwrap(),
                ));
            }
            Column::Int64(values)
        },
        ColumnType::Float64 => Column::Float64(decode_column(cells, j, Ghost(rows), Ghost(t))),
        ColumnType::Utf8 => Column::Utf8(decode_column(cells, j, Ghost(rows), Ghost(t))),
    }
}

/// Decodes column `j`'s fields as text, one string per row.
#[verifier::loop_isolation(false)]
fn decode_column(
    cells: &Vec<Vec<Vec<u8>>>,
    j: usize,
    Ghost(rows): Ghost<Seq<Seq<u8>>>,
    Ghost(t): Ghost<ColumnType>,
) -> (r: Vec<String>)
    requires
        t != ColumnType::Int64,
        cells@.len() == rows.len(),
        forall|k: int| 0 <= k < rows.len() ==> (#[trigger] cells@[k]).deep_view() == row_fields(
            rows[k],
        ),
        forall|k: int| 0 <= k < rows.len() ==> j < row_fields(#[trigger] rows[k]).len(),
        forall|k: int| 0 <= k < rows.len() ==> cell_ok(t, cell_at(rows, k, j as int)),
    ensures
        r.deep_view() == Seq::new(rows.len(), |i: int| decode_utf8(cell_at(rows, i, j as int))),
{
    let nrows = cells.len();
    let mut values: Vec<String> = Vec::new();
    let mut i: usize = 0;
    while i < nrows
        invariant
            i <= nrows,
            values.len() == i,
            forall|k: int|
                0 <= k < i ==> values@[k]@ == decode_utf8(cell_at(rows, k, j as int)),
        decreases nrows - i,
    {
        proof {
            assert(cells@[i as int].deep_view()[j as int] =~= cells@[i as int]@[j as int]@);
            assert(valid_utf8(cell_at(rows, i as int, j as int)));
        }
        let text = decode_text(&cells[i][j]);
        values.push(text.unwrap());
        i = i + 1;
    }
    proof {
        assert(values.deep_view() =~= Seq::new(
            rows.len(),
            |i: int| decode_utf8(cell_at(rows, i, j as int)),
        ));
    }
    values
}

/// Parses raw delimited bytes against a schema into one column-major batch.
///
/// Strict and positional: succeeds exactly when every data row has one field
/// per schema column and every field parses as its column's declared type;
/// otherwise reports the first faulty row.
#[verifier::loop_isolation(false)]
pub fn parse_batch(schema: Schema, has_header: bool, data: &Vec<u8>) -> (r: Result<
    Batch,
    LoadError,
>)
    ensures
        batch_result_view(r) == parse_result(schema@, has_header, data@),
{
    let ghost drows = data_rows(data@, has_header);
    let mut rows = split_bytes_exec(data, NEWLINE);
    if rows.len() > 0 && rows[rows.len() - 1].len() == 0 {
        let ghost before = rows.deep_view();
        let _ = rows.pop();
        proof {
            assert(before.last().len() == 0);
            assert(rows.deep_view() =~~= before.drop_last());
        }
    }
    if has_header && rows.len() > 0 {
        let ghost before = rows.deep_view();
        let _ = rows.remove(0);
        proof {
            assert(rows.deep_view() =~~= before.drop_first());
        }
    }
    proof {
        assert(rows.deep_view() =~~= drows);
    }
    let nrows = rows.len();
    let ncols = schema.num_fields();

    // First pass: split every row and find the first fault, if any.
    let mut cells: Vec<Vec<Vec<u8>>> = Vec::new();
    let mut i: usize = 0;
    while i < nrows
        invariant
            i <= nrows,
            cells.len() == i,
            forall|k: int| 0 <= k < i ==> (#[trigger] cells@[k]).deep_view() == row_fields(
                drows[k],
            ),
            forall|k: int| 0 <= k < i ==> row_fault(schema@, #[trigger] drows[k]) is None,
        decreases nrows - i,
    {
        let fields = split_bytes_exec(&rows[i], COMMA);
        proof {
            assert(rows@[i as int]@ =~= rows.deep_view()[i as int]);
            assert(fields.deep_view() == row_fields(drows[i as int]));
        }
        if let Some(fault) = fields_fault_exec(&schema, &fields) {
            proof {
                lemma_bad_row_at(schema@, drows, i as int);
            }
            return Err(LoadError::Parse { row: i, fault });
        }
        cells.push(fields);
        i = i + 1;
    }
    proof {
        lemma_no_bad_rows(schema@, drows);
    }

    // Second pass: everything parses, so build the columns.
    let mut columns: Vec<Column> = Vec::new();
    let mut j: usize = 0;
    while j < ncols
        invariant
            j <= ncols,
            columns.len() == j,
            forall|k: int|
                0 <= k < j ==> columns@[k]@ == column_values(
                    schema@[k].data_type,
                    drows,
                    k,
                ),
        decreases ncols - j,
    {
        let t = *schema.field(j).data_type();
        proof {
            assert forall|k: int| 0 <= k < drows.len() implies j
                < row_fields(#[trigger] drows[k]).len() && cell_ok(
                t,
                cell_at(drows, k, j as int),
            ) by {
                assert(row_fault(schema@, drows[k]) is None);
                lemma_all_cells_ok(schema@, row_fields(drows[k]), 0);
            }
        }
        let column = build_column(t, &cells, j, Ghost(drows));
        columns.push(column);
        j = j + 1;
    }
    let ghost schema_v = schema@;
    let ghost columns_v = columns.deep_view();
    let batch = Batch::new(schema, columns);
    proof {
        assert(columns_v =~= batch_columns(schema_v, drows));
    }
    Ok(batch)
}

/// A successful parse is well formed: one column per schema field, each of
/// its declared type, all as long as the run of data rows.
pub proof fn lemma_parse_shape(schema: Seq<FieldV>, has_header: bool, data: Seq<u8>)
    requires
        parse_result(schema, has_header, data) is Ok,
    ensures
        parse_result(schema, has_header, data)->Ok_0.wf(),
        parse_result(schema, has_header, data)->Ok_0.schema == schema,
        parse_result(schema, has_header, data)->Ok_0.columns.len() == schema.len(),
        schema.len() > 0 ==> parse_result(schema, has_header, data)->Ok_0.num_rows()
            == data_rows(data, has_header).len(),
{
    let rows = data_rows(data, has_header);
    let b = parse_result(schema, has_header, data)->Ok_0;
    assert forall|j: int| 0 <= j < b.columns.len() implies (#[trigger] b.columns[j]).matches(
        schema[j].data_type,
    ) && b.columns[j].len() == rows.len() by {
        assert(b.columns[j] == column_values(schema[j].data_type, rows, j));
    }
}

} // verus!
