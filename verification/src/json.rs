//! Encoding of inline import rows as a JSON payload document.
//!
//! An inline import carries structured rows; they are serialized to a
//! temporary payload file that the worker subprocess reads. The document
//! is a JSON array of objects whose values are scalars. Text is handled
//! as UTF-8 bytes: escaping the two JSON metacharacters and the control
//! range at the byte level keeps any valid UTF-8 text intact. Numbers are
//! carried as their literal text and validated against the JSON number
//! grammar; a row holding an invalid number literal fails serialization.

use vstd::prelude::*;

verus! {

/// One scalar value of an inline row.
#[derive(Debug, Clone)]
pub enum JsonScalar {
    /// The JSON `null`.
    Null,
    /// A JSON boolean.
    Bool(bool),
    /// A JSON number, as its literal text (UTF-8 bytes).
    Num(Vec<u8>),
    /// A JSON string, as unescaped UTF-8 bytes.
    Str(Vec<u8>),
}

/// One key/value pair of an inline row.
#[derive(Debug, Clone)]
pub struct JsonField {
    /// The member name, as unescaped UTF-8 bytes.
    pub key: Vec<u8>,
    /// The member value.
    pub value: JsonScalar,
}

/// One inline row: an object of scalar members.
#[derive(Debug, Clone)]
pub struct JsonRow {
    pub fields: Vec<JsonField>,
}

/// An ASCII decimal digit.
pub open spec fn is_digit(b: u8) -> bool {
    48 <= b <= 57
}

/// The lower-case hex digit of a value below 16.
pub open spec fn hex_digit(n: int) -> u8
    recommends
        0 <= n < 16,
{
    if n < 10 {
        (48 + n) as u8
    } else {
        (87 + n) as u8
    }
}

/// The escaped form of one byte inside a JSON string: `"` and `\` get a
/// backslash, the control range becomes a `\u00XX` escape, and every
/// other byte stands as itself.
pub open spec fn esc_byte(b: u8) -> Seq<u8> {
    if b == 34 {
        seq![92u8, 34u8]
    } else if b == 92 {
        seq![92u8, 92u8]
    } else if b < 32 {
        seq![92u8, 117u8, 48u8, 48u8, hex_digit(b as int / 16), hex_digit(b as int % 16)]
    } else {
        seq![b]
    }
}

/// The escaped form of a whole string body.
pub open spec fn esc(s: Seq<u8>) -> Seq<u8>
    decreases s.len(),
{
    if s.len() == 0 {
        Seq::empty()
    } else {
        esc(s.drop_last()) + esc_byte(s.last())
    }
}

/// The first index at or after `i` that does not hold a digit.
pub open spec fn span_digits(s: Seq<u8>, i: int) -> int
    decreases s.len() - i,
    when 0 <= i <= s.len()
{
    if i < s.len() && is_digit(s[i]) {
        span_digits(s, i + 1)
    } else {
        i
    }
}

/// The exponent part of a JSON number begins at `i2` and reaches the end,
/// or there is none and `i2` is already the end.
pub open spec fn exp_ok(s: Seq<u8>, i2: int) -> bool
    recommends
        0 <= i2 <= s.len(),
{
    let n = s.len() as int;
    if i2 < n && (s[i2] == 101 || s[i2] == 69) {
        let i3: int = if i2 + 1 < n && (s[i2 + 1] == 43 || s[i2 + 1] == 45) {
            i2 + 2
        } else {
            i2 + 1
        };
        &&& i3 < n
        &&& is_digit(s[i3])
        &&& span_digits(s, i3) == n
    } else {
        i2 == n
    }
}

/// The optional fraction part begins at `i1`, followed by a well-formed
/// exponent part.
pub open spec fn frac_exp_ok(s: Seq<u8>, i1: int) -> bool
    recommends
        0 <= i1 <= s.len(),
{
    let n = s.len() as int;
    if i1 < n && s[i1] == 46 {
        &&& i1 + 1 < n
        &&& is_digit(s[i1 + 1])
        &&& exp_ok(s, span_digits(s, i1 + 1))
    } else {
        exp_ok(s, i1)
    }
}

/// The JSON number grammar: an optional minus sign, an integer part
/// without leading zeros, an optional fraction, an optional exponent.
pub open spec fn is_json_number(s: Seq<u8>) -> bool {
    let n = s.len() as int;
    let i0: int = if n > 0 && s[0] == 45 {
        1
    } else {
        0
    };
    &&& i0 < n
    &&& is_digit(s[i0])
    &&& {
        let i1: int = if s[i0] == 48 {
            i0 + 1
        } else {
            span_digits(s, i0)
        };
        frac_exp_ok(s, i1)
    }
}

/// The serialized form of one scalar.
pub open spec fn scalar_json(v: JsonScalar) -> Seq<u8> {
    match v {
        JsonScalar::Null => seq![0x6eu8, 0x75u8, 0x6cu8, 0x6cu8],
        JsonScalar::Bool(b) => if b {
            seq![0x74u8, 0x72u8, 0x75u8, 0x65u8]
        } else {
            seq![0x66u8, 0x61u8, 0x6cu8, 0x73u8, 0x65u8]
        },
        JsonScalar::Num(t) => t@,
        JsonScalar::Str(t) => seq![34u8] + esc(t@) + seq![34u8],
    }
}

/// A scalar serializes cleanly: a number literal must meet the grammar.
pub open spec fn scalar_ok(v: JsonScalar) -> bool {
    match v {
        JsonScalar::Num(t) => is_json_number(t@),
        _ => true,
    }
}

/// The serialized form of one member: escaped key, colon, value.
pub open spec fn field_json(f: JsonField) -> Seq<u8> {
    seq![34u8] + esc(f.key@) + seq![34u8, 58u8] + scalar_json(f.value)
}

/// The members of one row, comma-separated.
pub open spec fn fields_json(fs: Seq<JsonField>) -> Seq<u8>
    decreases fs.len(),
{
    if fs.len() == 0 {
        Seq::empty()
    } else if fs.len() == 1 {
        field_json(fs[0])
    } else {
        fields_json(fs.drop_last()) + seq![44u8] + field_json(fs.last())
    }
}

/// The serialized form of one row: an object.
pub open spec fn row_json(r: JsonRow) -> Seq<u8> {
    seq![123u8] + fields_json(r.fields@) + seq![125u8]
}

/// Every scalar of the row serializes cleanly.
pub open spec fn row_ok(r: JsonRow) -> bool {
    forall|i: int| 0 <= i < r.fields@.len() ==> scalar_ok(#[trigger] r.fields@[i].value)
}

/// The rows of the document, comma-separated.
pub open spec fn rows_json_inner(rows: Seq<JsonRow>) -> Seq<u8>
    decreases rows.len(),
{
    if rows.len() == 0 {
        Seq::empty()
    } else if rows.len() == 1 {
        row_json(rows[0])
    } else {
        rows_json_inner(rows.drop_last()) + seq![44u8] + row_json(rows.last())
    }
}

/// The serialized payload document: an array of row objects.
pub open spec fn rows_json(rows: Seq<JsonRow>) -> Seq<u8> {
    seq![91u8] + rows_json_inner(rows) + seq![93u8]
}

/// Every row of the document serializes cleanly.
pub open spec fn rows_ok(rows: Seq<JsonRow>) -> bool {
    forall|i: int| 0 <= i < rows.len() ==> row_ok(#[trigger] rows[i])
}

/// The lower-case hex digit of a value below 16.
fn hex_digit_byte(n: u8) -> (r: u8)
    requires
        n < 16,
    ensures
        r == hex_digit(n as int),
{
    if n < 10 {
        48 + n
    } else {
        87 + n
    }
}

/// Append every byte of `s` to `out`.
fn push_all(out: &mut Vec<u8>, s: &Vec<u8>)
    ensures
        final(out)@ == old(out)@ + s@,
{
    let mut i: usize = 0;
    proof {
        assert(old(out)@ + s@.take(0) =~= old(out)@);
    }
    while i < s.len()
        invariant
            i <= s@.len(),
            out@ == old(out)@ + s@.take(i as int),
        decreases s@.len() - i,
    {
        out.push(s[i]);
        proof {
            assert(old(out)@ + s@.take(i + 1) =~= (old(out)@ + s@.take(i as int)).push(
                s@[i as int],
            ));
        }
        i += 1;
    }
    proof {
        assert(s@.take(s@.len() as int) =~= s@);
    }
}

/// Append the escaped form of the string body `s` to `out`.
fn escape_into(out: &mut Vec<u8>, s: &Vec<u8>)
    ensures
        final(out)@ == old(out)@ + esc(s@),
{
    let mut i: usize = 0;
    proof {
        assert(esc(s@.take(0)) =~= Seq::<u8>::empty());
        assert(old(out)@ + esc(s@.take(0)) =~= old(out)@);
    }
    while i < s.len()
        invariant
            i <= s@.len(),
            out@ == old(out)@ + esc(s@.take(i as int)),
        decreases s@.len() - i,
    {
        let b = s[i];
        if b == 34 {
            out.push(92);
            out.push(34);
        } else if b == 92 {
            out.push(92);
            out.push(92);
        } else if b < 32 {
            out.push(92);
            out.push(117);
            out.push(48);
            out.push(48);
            out.push(hex_digit_byte(b / 16));
            out.push(hex_digit_byte(b % 16));
        } else {
            out.push(b);
        }
        proof {
            assert(s@.take(i + 1).drop_last() =~= s@.take(i as int));
            assert(s@.take(i + 1).last() == s@[i as int]);
            assert(esc(s@.take(i + 1)) == esc(s@.take(i as int)) + esc_byte(s@[i as int]));
            assert(out@ =~= old(out)@ + esc(s@.take(i + 1)));
        }
        i += 1;
    }
    proof {
        assert(s@.take(s@.len() as int) =~= s@);
    }
}

/// Scan the digit run beginning at `start`.
fn scan_digits(s: &Vec<u8>, start: usize) -> (r: usize)
    requires
        start <= s@.len(),
    ensures
        r == span_digits(s@, start as int),
        start <= r <= s@.len(),
{
    let mut j: usize = start;
    while j < s.len() && s[j] >= 48 && s[j] <= 57
        invariant
            start <= j <= s@.len(),
            span_digits(s@, start as int) == span_digits(s@, j as int),
        decreases s@.len() - j,
    {
        j += 1;
    }
    j
}

/// Check the exponent part beginning at `i2`.
fn check_exp(s: &Vec<u8>, i2: usize) -> (r: bool)
    requires
        i2 <= s@.len(),
    ensures
        r == exp_ok(s@, i2 as int),
{
    let n = s.len();
    if i2 < n && (s[i2] == 101 || s[i2] == 69) {
        let i3: usize = if i2 + 1 < n && (s[i2 + 1] == 43 || s[i2 + 1] == 45) {
            i2 + 2
        } else {
            i2 + 1
        };
        if i3 < n && s[i3] >= 48 && s[i3] <= 57 {
            scan_digits(s, i3) == n
        } else {
            false
        }
    } else {
        i2 == n
    }
}

/// Check the fraction and exponent parts beginning at `i1`.
fn check_frac_exp(s: &Vec<u8>, i1: usize) -> (r: bool)
    requires
        i1 <= s@.len(),
    ensures
        r == frac_exp_ok(s@, i1 as int),
{
    let n = s.len();
    if i1 < n && s[i1] == 46 {
        if i1 + 1 < n && s[i1 + 1] >= 48 && s[i1 + 1] <= 57 {
            let sp = scan_digits(s, i1 + 1);
            check_exp(s, sp)
        } else {
            false
        }
    } else {
        check_exp(s, i1)
    }
}

/// Check a number literal against the JSON number grammar.
pub fn check_json_number(s: &Vec<u8>) -> (r: bool)
    ensures
        r == is_json_number(s@),
{
    let n = s.len();
    let i0: usize = if n > 0 && s[0] == 45 {
        1
    } else {
        0
    };
    if i0 >= n {
        return false;
    }
    if !(s[i0] >= 48 && s[i0] <= 57) {
        return false;
    }
    let i1: usize = if s[i0] == 48 {
        i0 + 1
    } else {
        scan_digits(s, i0)
    };
    check_frac_exp(s, i1)
}

/// Append the serialized form of one scalar to `out`; a number literal
/// that fails the grammar stops the encoding.
fn encode_scalar(out: &mut Vec<u8>, v: &JsonScalar) -> (ok: bool)
    ensures
        ok == scalar_ok(*v),
        ok ==> final(out)@ == old(out)@ + scalar_json(*v),
{
    match v {
        JsonScalar::Null => {
            out.push(0x6e);
            out.push(0x75);
            out.push(0x6c);
            out.push(0x6c);
            proof {
                assert(out@ =~= old(out)@ + scalar_json(*v));
            }
            true
        },
        JsonScalar::Bool(b) => {
            if *b {
                out.push(0x74);
                out.push(0x72);
                out.push(0x75);
                out.push(0x65);
            } else {
                out.push(0x66);
                out.push(0x61);
                out.push(0x6c);
                out.push(0x73);
                out.push(0x65);
            }
            proof {
                assert(out@ =~= old(out)@ + scalar_json(*v));
            }
            true
        },
        JsonScalar::Num(t) => {
            if !check_json_number(t) {
                return false;
            }
            push_all(out, t);
            true
        },
        JsonScalar::Str(t) => {
            out.push(34);
            escape_into(out, t);
            out.push(34);
            proof {
                assert(out@ =~= old(out)@ + scalar_json(*v));
            }
            true
        },
    }
}

/// Append the serialized form of one member to `out`.
fn encode_field(out: &mut Vec<u8>, f: &JsonField) -> (ok: bool)
    ensures
        ok == scalar_ok(f.value),
        ok ==> final(out)@ == old(out)@ + field_json(*f),
{
    match &f.value {
        JsonScalar::Num(t) => {
            if !check_json_number(t) {
                return false;
            }
        },
        _ => {},
    }
    out.push(34);
    escape_into(out, &f.key);
    out.push(34);
    out.push(58);
    let ok = encode_scalar(out, &f.value);
    proof {
        assert(ok);
        assert(out@ =~= old(out)@ + field_json(*f));
    }
    true
}

/// Append the serialized form of one row to `out`.
fn encode_row(out: &mut Vec<u8>, r: &JsonRow) -> (ok: bool)
    ensures
        ok == row_ok(*r),
        ok ==> final(out)@ == old(out)@ + row_json(*r),
{
    out.push(123);
    let mut i: usize = 0;
    proof {
        assert(fields_json(r.fields@.take(0)) =~= Seq::<u8>::empty());
        assert(out@ =~= old(out)@ + seq![123u8] + fields_json(r.fields@.take(0)));
    }
    while i < r.fields.len()
        invariant
            i <= r.fields@.len(),
            out@ == old(out)@ + seq![123u8] + fields_json(r.fields@.take(i as int)),
            forall|j: int| 0 <= j < i ==> scalar_ok(#[trigger] r.fields@[j].value),
        decreases r.fields@.len() - i,
    {
        if i > 0 {
            out.push(44);
        }
        let ok = encode_field(out, &r.fields[i]);
        if !ok {
            proof {
                assert(!scalar_ok(r.fields@[i as int].value));
            }
            return false;
        }
        proof {
            assert(r.fields@.take(i + 1).drop_last() =~= r.fields@.take(i as int));
            assert(r.fields@.take(i + 1).last() == r.fields@[i as int]);
            if i == 0 {
                assert(fields_json(r.fields@.take(1)) == field_json(r.fields@[0]));
                assert(out@ =~= old(out)@ + seq![123u8] + fields_json(r.fields@.take(i + 1)));
            } else {
                assert(fields_json(r.fields@.take(i + 1)) == fields_json(r.fields@.take(i as int))
                    + seq![44u8] + field_json(r.fields@[i as int]));
                assert(out@ =~= old(out)@ + seq![123u8] + fields_json(r.fields@.take(i + 1)));
            }
        }
        i += 1;
    }
    out.push(125);
    proof {
        assert(r.fields@.take(r.fields@.len() as int) =~= r.fields@);
        assert(out@ =~= old(out)@ + row_json(*r));
    }
    true
}

/// Serialize the inline rows as one JSON payload document, or report that
/// a row cannot be encoded.
pub fn encode_rows(rows: &Vec<JsonRow>) -> (r: Result<Vec<u8>, crate::errors::ImportError>)
    ensures
        r is Ok <==> rows_ok(rows@),
        r is Ok ==> r->Ok_0@ == rows_json(rows@),
        r is Err ==> r->Err_0 is Serialization,
{
    let mut out: Vec<u8> = Vec::new();
    out.push(91);
    let mut i: usize = 0;
    proof {
        assert(rows_json_inner(rows@.take(0)) =~= Seq::<u8>::empty());
        assert(out@ =~= seq![91u8] + rows_json_inner(rows@.take(0)));
    }
    while i < rows.len()
        invariant
            i <= rows@.len(),
            out@ == seq![91u8] + rows_json_inner(rows@.take(i as int)),
            forall|j: int| 0 <= j < i ==> row_ok(#[trigger] rows@[j]),
        decreases rows@.len() - i,
    {
        if i > 0 {
            out.push(44);
        }
        let ok = encode_row(&mut out, &rows[i]);
        if !ok {
            proof {
                assert(!row_ok(rows@[i as int]));
            }
            return Err(crate::errors::ImportError::Serialization);
        }
        proof {
            assert(rows@.take(i + 1).drop_last() =~= rows@.take(i as int));
            assert(rows@.take(i + 1).last() == rows@[i as int]);
            if i == 0 {
                assert(rows_json_inner(rows@.take(1)) == row_json(rows@[0]));
                assert(out@ =~= seq![91u8] + rows_json_inner(rows@.take(i + 1)));
            } else {
                assert(rows_json_inner(rows@.take(i + 1)) == rows_json_inner(rows@.take(i as int))
                    + seq![44u8] + row_json(rows@[i as int]));
                assert(out@ =~= seq![91u8] + rows_json_inner(rows@.take(i + 1)));
            }
        }
        i += 1;
    }
    out.push(93);
    proof {
        assert(rows@.take(rows@.len() as int) =~= rows@);
        assert(out@ =~= rows_json(rows@));
    }
    Ok(out)
}

} // verus!
