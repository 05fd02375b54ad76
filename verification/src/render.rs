//! The format-aware renderer: a handler result becomes the exact text
//! printed to stdout. Domain objects are reduced to keyed columns and
//! emitted as a tab-separated table, a pretty JSON document with two-space
//! indent, or a YAML document; structured server values go through the
//! serde boundary.

use vstd::prelude::*;
use crate::examples::Example;
use crate::examples::GuestLanguage;
use crate::jsonio::json_parsed;
use crate::jsonio::json_pretty;
use crate::jsonio::json_to_string_pretty;
use crate::jsonio::json_to_yaml_string;
use crate::jsonio::yaml_text;
use crate::model::Format;
use crate::model::GolemResult;
use crate::model::InvocationKey;
use crate::model::Renderable;
use crate::model::Template;
use crate::model::Worker;
use crate::model::WorkerStatus;
use crate::text::chars_to_string;
use crate::text::push_chars;
use crate::text::push_decimal;
use crate::text::push_string;
use crate::text::spec_decimal;

verus! {

/// One column of a rendered entity: a string or a counter.
pub enum ColValue {
    S(String),
    N(u64),
}

/// The mathematical view of a column.
pub enum SpecCol {
    S(Seq<char>),
    N(nat),
}

/// The view of one column.
pub open spec fn col_view(c: ColValue) -> SpecCol {
    match c {
        ColValue::S(s) => SpecCol::S(s@),
        ColValue::N(n) => SpecCol::N(n as nat),
    }
}

/// The views of a column list.
pub open spec fn cols_view(cs: Seq<ColValue>) -> Seq<SpecCol> {
    Seq::new(cs.len(), |i: int| col_view(cs[i]))
}

/// The views of a key list.
pub open spec fn keys_view(ks: Seq<String>) -> Seq<Seq<char>> {
    Seq::new(ks.len(), |i: int| ks[i]@)
}

/// The views of a row list.
pub open spec fn rows_view(rs: Seq<Vec<ColValue>>) -> Seq<Seq<SpecCol>> {
    Seq::new(rs.len(), |i: int| cols_view(rs[i]@))
}

/// The character for one hexadecimal digit.
pub open spec fn spec_hex_digit(d: nat) -> char {
    if d == 0 {
        '0'
    } else if d == 1 {
        '1'
    } else if d == 2 {
        '2'
    } else if d == 3 {
        '3'
    } else if d == 4 {
        '4'
    } else if d == 5 {
        '5'
    } else if d == 6 {
        '6'
    } else if d == 7 {
        '7'
    } else if d == 8 {
        '8'
    } else if d == 9 {
        '9'
    } else if d == 10 {
        'a'
    } else if d == 11 {
        'b'
    } else if d == 12 {
        'c'
    } else if d == 13 {
        'd'
    } else if d == 14 {
        'e'
    } else {
        'f'
    }
}

/// The character for one hexadecimal digit.
fn hex_digit(d: u32) -> (r: char)
    requires
        d < 16,
    ensures
        r == spec_hex_digit(d as nat),
{
    if d == 0 {
        '0'
    } else if d == 1 {
        '1'
    } else if d == 2 {
        '2'
    } else if d == 3 {
        '3'
    } else if d == 4 {
        '4'
    } else if d == 5 {
        '5'
    } else if d == 6 {
        '6'
    } else if d == 7 {
        '7'
    } else if d == 8 {
        '8'
    } else if d == 9 {
        '9'
    } else if d == 10 {
        'a'
    } else if d == 11 {
        'b'
    } else if d == 12 {
        'c'
    } else if d == 13 {
        'd'
    } else if d == 14 {
        'e'
    } else {
        'f'
    }
}

/// How one character is written inside a JSON string literal: the short
/// escapes, `\u00XX` for the other control characters, else the character
/// itself.
pub open spec fn spec_json_escape_char(c: char) -> Seq<char> {
    if c == '"' {
        seq!['\\', '"']
    } else if c == '\\' {
        seq!['\\', '\\']
    } else if c == '\n' {
        seq!['\\', 'n']
    } else if c == '\t' {
        seq!['\\', 't']
    } else if c == '\r' {
        seq!['\\', 'r']
    } else if (c as u32) < 32 {
        seq![
            '\\',
            'u',
            '0',
            '0',
            spec_hex_digit(((c as u32) / 16) as nat),
            spec_hex_digit(((c as u32) % 16) as nat),
        ]
    } else {
        seq![c]
    }
}

/// How a text is written inside a JSON string literal.
pub open spec fn spec_json_escape(s: Seq<char>) -> Seq<char>
    decreases s.len(),
{
    if s.len() == 0 {
        Seq::empty()
    } else {
        spec_json_escape_char(s.first()) + spec_json_escape(s.drop_first())
    }
}

/// Escaping distributes over appending one character.
proof fn lemma_escape_snoc(s: Seq<char>, c: char)
    ensures
        spec_json_escape(s.push(c)) == spec_json_escape(s) + spec_json_escape_char(c),
    decreases s.len(),
{
    let sp = s.push(c);
    if s.len() == 0 {
        assert(sp.first() == c);
        assert(sp.drop_first() =~= Seq::<char>::empty());
        assert(spec_json_escape(sp.drop_first()) == Seq::<char>::empty());
        assert(spec_json_escape(sp) == spec_json_escape_char(c) + Seq::<char>::empty());
        assert(spec_json_escape_char(c) + Seq::<char>::empty() =~= spec_json_escape(s)
            + spec_json_escape_char(c));
    } else {
        assert(sp.first() == s.first());
        assert(sp.drop_first() =~= s.drop_first().push(c));
        lemma_escape_snoc(s.drop_first(), c);
        assert(spec_json_escape(sp) == spec_json_escape_char(s.first()) + (spec_json_escape(
            s.drop_first(),
        ) + spec_json_escape_char(c)));
        assert(spec_json_escape_char(s.first()) + (spec_json_escape(s.drop_first())
            + spec_json_escape_char(c)) =~= (spec_json_escape_char(s.first()) + spec_json_escape(
            s.drop_first(),
        )) + spec_json_escape_char(c));
    }
}

/// Appends `s` escaped for a JSON string literal.
fn push_json_escaped(out: &mut Vec<char>, s: &String)
    ensures
        final(out)@ == old(out)@ + spec_json_escape(s@),
{
    let sl = s.as_str();
    let n = sl.unicode_len();
    let mut i: usize = 0;
    proof {
        assert(s@.take(0) =~= Seq::<char>::empty());
        assert(out@ + spec_json_escape(s@.take(0)) =~= out@);
    }
    while i < n
        invariant
            n == s@.len(),
            i <= n,
            sl@ == s@,
            out@ == old(out)@ + spec_json_escape(s@.take(i as int)),
        decreases n - i,
    {
        let c = sl.get_char(i);
        proof {
            lemma_escape_snoc(s@.take(i as int), s@[i as int]);
            assert(s@.take(i + 1 as int) =~= s@.take(i as int).push(s@[i as int]));
        }
        if c == '"' {
            out.push('\\');
            out.push('"');
        } else if c == '\\' {
            out.push('\\');
            out.push('\\');
        } else if c == '\n' {
            out.push('\\');
            out.push('n');
        } else if c == '\t' {
            out.push('\\');
            out.push('t');
        } else if c == '\r' {
            out.push('\\');
            out.push('r');
        } else if (c as u32) < 32 {
            out.push('\\');
            out.push('u');
            out.push('0');
            out.push('0');
            out.push(hex_digit((c as u32) / 16));
            out.push(hex_digit((c as u32) % 16));
        } else {
            out.push(c);
        }
        proof {
            assert(out@ =~= old(out)@ + spec_json_escape(s@.take(i + 1 as int)));
        }
        i = i + 1;
    }
    proof {
        assert(s@.take(n as int) =~= s@);
    }
}

/// How one column is written as a JSON value.
pub open spec fn spec_json_col(c: SpecCol) -> Seq<char> {
    match c {
        SpecCol::S(s) => seq!['"'] + spec_json_escape(s) + seq!['"'],
        SpecCol::N(n) => spec_decimal(n),
    }
}

/// How one column is written as a plain scalar (tables and YAML).
pub open spec fn spec_plain_col(c: SpecCol) -> Seq<char> {
    match c {
        SpecCol::S(s) => s,
        SpecCol::N(n) => spec_decimal(n),
    }
}

/// Appends one column as a JSON value.
fn push_json_col(out: &mut Vec<char>, c: &ColValue)
    ensures
        final(out)@ == old(out)@ + spec_json_col(col_view(*c)),
{
    match c {
        ColValue::S(s) => {
            out.push('"');
            push_json_escaped(out, s);
            out.push('"');
            proof {
                assert(out@ =~= old(out)@ + spec_json_col(col_view(*c)));
            }
        },
        ColValue::N(n) => {
            push_decimal(out, *n);
        },
    }
}

/// Appends one column as a plain scalar.
fn push_plain_col(out: &mut Vec<char>, c: &ColValue)
    ensures
        final(out)@ == old(out)@ + spec_plain_col(col_view(*c)),
{
    match c {
        ColValue::S(s) => push_string(out, s),
        ColValue::N(n) => push_decimal(out, *n),
    }
}

/// The field lines of a JSON object: each indented two spaces past `base`,
/// the last without a comma.
pub open spec fn spec_json_fields(keys: Seq<Seq<char>>, cols: Seq<SpecCol>, base: Seq<char>) -> Seq<
    char,
>
    decreases keys.len(),
{
    if keys.len() == 0 {
        Seq::empty()
    } else {
        base + "  "@ + seq!['"'] + spec_json_escape(keys.first()) + "\": "@ + spec_json_col(
            cols.first(),
        ) + (if keys.len() > 1 {
            ",\n"@
        } else {
            "\n"@
        }) + spec_json_fields(keys.drop_first(), cols.drop_first(), base)
    }
}

/// A JSON object of the keyed columns, its braces indented by `base`.
pub open spec fn spec_json_obj(keys: Seq<Seq<char>>, cols: Seq<SpecCol>, base: Seq<char>) -> Seq<
    char,
> {
    if keys.len() == 0 {
        "{}"@
    } else {
        "{\n"@ + spec_json_fields(keys, cols, base) + base + "}"@
    }
}

/// Appends the field lines of a JSON object.
fn push_json_fields(out: &mut Vec<char>, keys: &Vec<String>, cols: &Vec<ColValue>, base: &str)
    requires
        keys@.len() == cols@.len(),
    ensures
        final(out)@ == old(out)@ + spec_json_fields(keys_view(keys@), cols_view(cols@), base@),
{
    let ghost sk = keys_view(keys@);
    let ghost sc = cols_view(cols@);
    let mut i: usize = 0;
    proof {
        assert(sk.skip(0) =~= sk);
        assert(sc.skip(0) =~= sc);
    }
    while i < keys.len()
        invariant
            keys@.len() == cols@.len(),
            i <= keys@.len(),
            sk == keys_view(keys@),
            sc == cols_view(cols@),
            out@ + spec_json_fields(sk.skip(i as int), sc.skip(i as int), base@) == old(out)@
                + spec_json_fields(sk, sc, base@),
        decreases keys@.len() - i,
    {
        proof {
            assert(sk.skip(i as int).first() == sk[i as int]);
            assert(sc.skip(i as int).first() == sc[i as int]);
            assert(sk.skip(i as int).drop_first() =~= sk.skip(i + 1 as int));
            assert(sc.skip(i as int).drop_first() =~= sc.skip(i + 1 as int));
        }
        let ghost before = out@;
        push_chars(out, base);
        push_chars(out, "  ");
        out.push('"');
        push_json_escaped(out, &keys[i]);
        push_chars(out, "\": ");
        push_json_col(out, &cols[i]);
        if i + 1 < keys.len() {
            push_chars(out, ",\n");
        } else {
            push_chars(out, "\n");
        }
        proof {
            assert(out@ =~= before + (base@ + "  "@ + seq!['"'] + spec_json_escape(sk[i as int])
                + "\": "@ + spec_json_col(sc[i as int]) + (if sk.skip(i as int).len() > 1 {
                ",\n"@
            } else {
                "\n"@
            })));
            assert(out@ + spec_json_fields(sk.skip(i + 1 as int), sc.skip(i + 1 as int), base@)
                =~= before + spec_json_fields(sk.skip(i as int), sc.skip(i as int), base@));
        }
        i = i + 1;
    }
    proof {
        assert(spec_json_fields(sk.skip(sk.len() as int), sc.skip(sc.len() as int), base@)
            =~= Seq::<char>::empty());
        assert(out@ =~= out@ + Seq::<char>::empty());
        assert(old(out)@ + spec_json_fields(sk, sc, base@) =~= out@);
    }
}

/// Emits a JSON object of the keyed columns.
fn emit_json_obj(keys: &Vec<String>, cols: &Vec<ColValue>) -> (r: String)
    requires
        keys@.len() == cols@.len(),
    ensures
        r@ == spec_json_obj(keys_view(keys@), cols_view(cols@), Seq::<char>::empty()),
{
    let mut out: Vec<char> = Vec::new();
    if keys.len() == 0 {
        push_chars(&mut out, "{}");
        proof {
            assert(out@ =~= "{}"@);
        }
    } else {
        push_chars(&mut out, "{\n");
        push_json_fields(&mut out, keys, cols, "");
        push_chars(&mut out, "}");
        proof {
            reveal_strlit("");
            assert(""@ =~= Seq::<char>::empty());
            assert(out@ =~= "{\n"@ + spec_json_fields(keys_view(keys@), cols_view(cols@), Seq::<
                char,
            >::empty()) + Seq::<char>::empty() + "}"@);
        }
    }
    chars_to_string(&out)
}

/// The item lines of a JSON array of objects.
pub open spec fn spec_json_items(keys: Seq<Seq<char>>, rows: Seq<Seq<SpecCol>>) -> Seq<char>
    decreases rows.len(),
{
    if rows.len() == 0 {
        Seq::empty()
    } else {
        "  "@ + spec_json_obj(keys, rows.first(), "  "@) + (if rows.len() > 1 {
            ",\n"@
        } else {
            "\n"@
        }) + spec_json_items(keys, rows.drop_first())
    }
}

/// A pretty JSON array of one object per row; empty rows give `[]`.
pub open spec fn spec_json_array(keys: Seq<Seq<char>>, rows: Seq<Seq<SpecCol>>) -> Seq<char> {
    if rows.len() == 0 {
        "[]"@
    } else {
        "[\n"@ + spec_json_items(keys, rows) + "]"@
    }
}

/// Emits a pretty JSON array of one object per row.
fn emit_json_array(keys: &Vec<String>, rows: &Vec<Vec<ColValue>>) -> (r: String)
    requires
        forall|i: int| 0 <= i < rows@.len() ==> #[trigger] rows@[i]@.len() == keys@.len(),
    ensures
        r@ == spec_json_array(keys_view(keys@), rows_view(rows@)),
{
    let ghost sk = keys_view(keys@);
    let ghost sr = rows_view(rows@);
    let mut out: Vec<char> = Vec::new();
    if rows.len() == 0 {
        push_chars(&mut out, "[]");
        proof {
            assert(out@ =~= "[]"@);
        }
        return chars_to_string(&out);
    }
    push_chars(&mut out, "[\n");
    let mut i: usize = 0;
    proof {
        assert(sr.skip(0) =~= sr);
    }
    while i < rows.len()
        invariant
            forall|k: int| 0 <= k < rows@.len() ==> #[trigger] rows@[k]@.len() == keys@.len(),
            i <= rows@.len(),
            sk == keys_view(keys@),
            sr == rows_view(rows@),
            out@ + spec_json_items(sk, sr.skip(i as int)) == "[\n"@ + spec_json_items(sk, sr),
        decreases rows@.len() - i,
    {
        proof {
            assert(sr.skip(i as int).first() == sr[i as int]);
            assert(sr.skip(i as int).drop_first() =~= sr.skip(i + 1 as int));
        }
        let ghost before = out@;
        push_chars(&mut out, "  ");
        let row = &rows[i];
        if row.len() == 0 {
            push_chars(&mut out, "{}");
        } else {
            push_chars(&mut out, "{\n");
            push_json_fields(&mut out, keys, row, "  ");
            push_chars(&mut out, "  ");
            push_chars(&mut out, "}");
        }
        proof {
            assert(out@ =~= before + ("  "@ + spec_json_obj(sk, sr[i as int], "  "@)));
        }
        if i + 1 < rows.len() {
            push_chars(&mut out, ",\n");
        } else {
            push_chars(&mut out, "\n");
        }
        proof {
            assert(out@ + spec_json_items(sk, sr.skip(i + 1 as int)) =~= before + spec_json_items(
                sk,
                sr.skip(i as int),
            ));
        }
        i = i + 1;
    }
    push_chars(&mut out, "]");
    proof {
        assert(spec_json_items(sk, sr.skip(sr.len() as int)) =~= Seq::<char>::empty());
        assert(out@ =~= spec_json_array(sk, sr));
    }
    chars_to_string(&out)
}

/// One table line: the cells separated by tabs.
pub open spec fn spec_cells(cols: Seq<SpecCol>) -> Seq<char>
    decreases cols.len(),
{
    if cols.len() == 0 {
        Seq::empty()
    } else {
        spec_plain_col(cols.first()) + (if cols.len() > 1 {
            "\t"@
        } else {
            Seq::empty()
        }) + spec_cells(cols.drop_first())
    }
}

/// The header line: the keys separated by tabs.
pub open spec fn spec_header(keys: Seq<Seq<char>>) -> Seq<char>
    decreases keys.len(),
{
    if keys.len() == 0 {
        Seq::empty()
    } else {
        keys.first() + (if keys.len() > 1 {
            "\t"@
        } else {
            Seq::empty()
        }) + spec_header(keys.drop_first())
    }
}

/// The body lines of the table, each on its own line below the header.
pub open spec fn spec_table_rows(rows: Seq<Seq<SpecCol>>) -> Seq<char>
    decreases rows.len(),
{
    if rows.len() == 0 {
        Seq::empty()
    } else {
        "\n"@ + spec_cells(rows.first()) + spec_table_rows(rows.drop_first())
    }
}

/// The tabular human view: a header line of the keys, then one line per
/// entity.
pub open spec fn spec_text_table(keys: Seq<Seq<char>>, rows: Seq<Seq<SpecCol>>) -> Seq<char> {
    spec_header(keys) + spec_table_rows(rows)
}

/// Appends one table line of cells.
fn push_cells(out: &mut Vec<char>, cols: &Vec<ColValue>)
    ensures
        final(out)@ == old(out)@ + spec_cells(cols_view(cols@)),
{
    let ghost sc = cols_view(cols@);
    let mut i: usize = 0;
    proof {
        assert(sc.skip(0) =~= sc);
    }
    while i < cols.len()
        invariant
            i <= cols@.len(),
            sc == cols_view(cols@),
            out@ + spec_cells(sc.skip(i as int)) == old(out)@ + spec_cells(sc),
        decreases cols@.len() - i,
    {
        proof {
            assert(sc.skip(i as int).first() == sc[i as int]);
            assert(sc.skip(i as int).drop_first() =~= sc.skip(i + 1 as int));
        }
        let ghost before = out@;
        push_plain_col(out, &cols[i]);
        if i + 1 < cols.len() {
            push_chars(out, "\t");
            proof {
                assert(out@ =~= before + (spec_plain_col(sc[i as int]) + "\t"@));
            }
        } else {
            proof {
                assert(out@ =~= before + (spec_plain_col(sc[i as int]) + Seq::<char>::empty()));
            }
        }
        proof {
            assert(out@ + spec_cells(sc.skip(i + 1 as int)) =~= before + spec_cells(
                sc.skip(i as int),
            ));
        }
        i = i + 1;
    }
    proof {
        assert(spec_cells(sc.skip(sc.len() as int)) =~= Seq::<char>::empty());
        assert(out@ =~= old(out)@ + spec_cells(sc));
    }
}

/// Emits the tabular human view.
fn emit_text_table(keys: &Vec<String>, rows: &Vec<Vec<ColValue>>) -> (r: String)
    ensures
        r@ == spec_text_table(keys_view(keys@), rows_view(rows@)),
{
    let ghost sk = keys_view(keys@);
    let ghost sr = rows_view(rows@);
    let mut out: Vec<char> = Vec::new();
    let mut i: usize = 0;
    proof {
        assert(sk.skip(0) =~= sk);
    }
    while i < keys.len()
        invariant
            i <= keys@.len(),
            sk == keys_view(keys@),
            out@ + spec_header(sk.skip(i as int)) == spec_header(sk),
        decreases keys@.len() - i,
    {
        proof {
            assert(sk.skip(i as int).first() == sk[i as int]);
            assert(sk.skip(i as int).drop_first() =~= sk.skip(i + 1 as int));
        }
        let ghost before = out@;
        push_string(&mut out, &keys[i]);
        if i + 1 < keys.len() {
            push_chars(&mut out, "\t");
            proof {
                assert(out@ =~= before + (sk[i as int] + "\t"@));
            }
        } else {
            proof {
                assert(out@ =~= before + (sk[i as int] + Seq::<char>::empty()));
            }
        }
        proof {
            assert(out@ + spec_header(sk.skip(i + 1 as int)) =~= before + spec_header(
                sk.skip(i as int),
            ));
        }
        i = i + 1;
    }
    proof {
        assert(spec_header(sk.skip(sk.len() as int)) =~= Seq::<char>::empty());
        assert(out@ =~= spec_header(sk));
    }
    let mut j: usize = 0;
    proof {
        assert(sr.skip(0) =~= sr);
    }
    while j < rows.len()
        invariant
            j <= rows@.len(),
            sr == rows_view(rows@),
            out@ + spec_table_rows(sr.skip(j as int)) == spec_header(sk) + spec_table_rows(sr),
        decreases rows@.len() - j,
    {
        proof {
            assert(sr.skip(j as int).first() == sr[j as int]);
            assert(sr.skip(j as int).drop_first() =~= sr.skip(j + 1 as int));
        }
        let ghost before = out@;
        push_chars(&mut out, "\n");
        push_cells(&mut out, &rows[j]);
        proof {
            assert(out@ =~= before + ("\n"@ + spec_cells(sr[j as int])));
            assert(out@ + spec_table_rows(sr.skip(j + 1 as int)) =~= before + spec_table_rows(
                sr.skip(j as int),
            ));
        }
        j = j + 1;
    }
    proof {
        assert(spec_table_rows(sr.skip(sr.len() as int)) =~= Seq::<char>::empty());
        assert(out@ =~= spec_text_table(sk, sr));
    }
    chars_to_string(&out)
}

/// The lines of a YAML mapping, separated by `sep`. String scalars are
/// emitted in YAML's double-quoted style with JSON-style escapes, so any
/// value — newlines and YAML-special prefixes included — stays one
/// unambiguous scalar.
pub open spec fn spec_yaml_lines(keys: Seq<Seq<char>>, cols: Seq<SpecCol>, sep: Seq<char>) -> Seq<
    char,
>
    decreases keys.len(),
{
    if keys.len() == 0 {
        Seq::empty()
    } else {
        keys.first() + ": "@ + spec_json_col(cols.first()) + (if keys.len() > 1 {
            sep
        } else {
            Seq::empty()
        }) + spec_yaml_lines(keys.drop_first(), cols.drop_first(), sep)
    }
}

/// A YAML mapping of the keyed columns; no fields give `{}`.
pub open spec fn spec_yaml_map(keys: Seq<Seq<char>>, cols: Seq<SpecCol>) -> Seq<char> {
    if keys.len() == 0 {
        "{}"@
    } else {
        spec_yaml_lines(keys, cols, "\n"@)
    }
}

/// One YAML sequence entry of the keyed columns.
pub open spec fn spec_yaml_entry(keys: Seq<Seq<char>>, cols: Seq<SpecCol>) -> Seq<char> {
    "- "@ + spec_yaml_lines(keys, cols, "\n  "@)
}

/// The entries of a YAML sequence, one per row.
pub open spec fn spec_yaml_rows(keys: Seq<Seq<char>>, rows: Seq<Seq<SpecCol>>) -> Seq<char>
    decreases rows.len(),
{
    if rows.len() == 0 {
        Seq::empty()
    } else {
        spec_yaml_entry(keys, rows.first()) + (if rows.len() > 1 {
            "\n"@
        } else {
            Seq::empty()
        }) + spec_yaml_rows(keys, rows.drop_first())
    }
}

/// A YAML sequence of one mapping per row; empty rows give `[]`.
pub open spec fn spec_yaml_array(keys: Seq<Seq<char>>, rows: Seq<Seq<SpecCol>>) -> Seq<char> {
    if rows.len() == 0 {
        "[]"@
    } else {
        spec_yaml_rows(keys, rows)
    }
}

/// Appends the lines of a YAML mapping, separated by `sep`.
fn push_yaml_lines(out: &mut Vec<char>, keys: &Vec<String>, cols: &Vec<ColValue>, sep: &str)
    requires
        keys@.len() == cols@.len(),
    ensures
        final(out)@ == old(out)@ + spec_yaml_lines(keys_view(keys@), cols_view(cols@), sep@),
{
    let ghost sk = keys_view(keys@);
    let ghost sc = cols_view(cols@);
    let mut i: usize = 0;
    proof {
        assert(sk.skip(0) =~= sk);
        assert(sc.skip(0) =~= sc);
    }
    while i < keys.len()
        invariant
            keys@.len() == cols@.len(),
            i <= keys@.len(),
            sk == keys_view(keys@),
            sc == cols_view(cols@),
            out@ + spec_yaml_lines(sk.skip(i as int), sc.skip(i as int), sep@) == old(out)@
                + spec_yaml_lines(sk, sc, sep@),
        decreases keys@.len() - i,
    {
        proof {
            assert(sk.skip(i as int).first() == sk[i as int]);
            assert(sc.skip(i as int).first() == sc[i as int]);
            assert(sk.skip(i as int).drop_first() =~= sk.skip(i + 1 as int));
            assert(sc.skip(i as int).drop_first() =~= sc.skip(i + 1 as int));
        }
        let ghost before = out@;
        push_string(out, &keys[i]);
        push_chars(out, ": ");
        push_json_col(out, &cols[i]);
        if i + 1 < keys.len() {
            push_chars(out, sep);
            proof {
                assert(out@ =~= before + (sk[i as int] + ": "@ + spec_json_col(sc[i as int])
                    + sep@));
            }
        } else {
            proof {
                assert(out@ =~= before + (sk[i as int] + ": "@ + spec_json_col(sc[i as int])
                    + Seq::<char>::empty()));
            }
        }
        proof {
            assert(out@ + spec_yaml_lines(sk.skip(i + 1 as int), sc.skip(i + 1 as int), sep@)
                =~= before + spec_yaml_lines(sk.skip(i as int), sc.skip(i as int), sep@));
        }
        i = i + 1;
    }
    proof {
        assert(spec_yaml_lines(sk.skip(sk.len() as int), sc.skip(sc.len() as int), sep@)
            =~= Seq::<char>::empty());
        assert(out@ =~= old(out)@ + spec_yaml_lines(sk, sc, sep@));
    }
}

/// Emits a YAML mapping of the keyed columns.
fn emit_yaml_map(keys: &Vec<String>, cols: &Vec<ColValue>) -> (r: String)
    requires
        keys@.len() == cols@.len(),
    ensures
        r@ == spec_yaml_map(keys_view(keys@), cols_view(cols@)),
{
    let mut out: Vec<char> = Vec::new();
    if keys.len() == 0 {
        push_chars(&mut out, "{}");
        proof {
            assert(out@ =~= "{}"@);
        }
    } else {
        push_yaml_lines(&mut out, keys, cols, "\n");
        proof {
            assert(out@ =~= spec_yaml_lines(keys_view(keys@), cols_view(cols@), "\n"@));
        }
    }
    chars_to_string(&out)
}

/// Emits a YAML sequence of one mapping per row.
fn emit_yaml_array(keys: &Vec<String>, rows: &Vec<Vec<ColValue>>) -> (r: String)
    requires
        forall|i: int| 0 <= i < rows@.len() ==> #[trigger] rows@[i]@.len() == keys@.len(),
    ensures
        r@ == spec_yaml_array(keys_view(keys@), rows_view(rows@)),
{
    let ghost sk = keys_view(keys@);
    let ghost sr = rows_view(rows@);
    let mut out: Vec<char> = Vec::new();
    if rows.len() == 0 {
        push_chars(&mut out, "[]");
        proof {
            assert(out@ =~= "[]"@);
        }
        return chars_to_string(&out);
    }
    let mut i: usize = 0;
    proof {
        assert(sr.skip(0) =~= sr);
    }
    while i < rows.len()
        invariant
            forall|k: int| 0 <= k < rows@.len() ==> #[trigger] rows@[k]@.len() == keys@.len(),
            i <= rows@.len(),
            sk == keys_view(keys@),
            sr == rows_view(rows@),
            out@ + spec_yaml_rows(sk, sr.skip(i as int)) == spec_yaml_rows(sk, sr),
        decreases rows@.len() - i,
    {
        proof {
            assert(sr.skip(i as int).first() == sr[i as int]);
            assert(sr.skip(i as int).drop_first() =~= sr.skip(i + 1 as int));
        }
        let ghost before = out@;
        push_chars(&mut out, "- ");
        push_yaml_lines(&mut out, keys, &rows[i], "\n  ");
        proof {
            assert(out@ =~= before + ("- "@ + spec_yaml_lines(sk, sr[i as int], "\n  "@)));
        }
        if i + 1 < rows.len() {
            push_chars(&mut out, "\n");
            proof {
                assert(out@ =~= before + (spec_yaml_entry(sk, sr[i as int]) + "\n"@));
            }
        } else {
            proof {
                assert(out@ =~= before + (spec_yaml_entry(sk, sr[i as int])
                    + Seq::<char>::empty()));
            }
        }
        proof {
            assert(out@ + spec_yaml_rows(sk, sr.skip(i + 1 as int)) =~= before + spec_yaml_rows(
                sk,
                sr.skip(i as int),
            ));
        }
        i = i + 1;
    }
    proof {
        assert(spec_yaml_rows(sk, sr.skip(sr.len() as int)) =~= Seq::<char>::empty());
        assert(out@ =~= spec_yaml_rows(sk, sr));
    }
    chars_to_string(&out)
}

/// The name of a worker status.
pub open spec fn spec_status_name(s: WorkerStatus) -> Seq<char> {
    match s {
        WorkerStatus::Running => "Running"@,
        WorkerStatus::Suspended => "Suspended"@,
        WorkerStatus::Interrupted => "Interrupted"@,
        WorkerStatus::Failed => "Failed"@,
        WorkerStatus::Exited => "Exited"@,
    }
}

/// The name of a worker status.
pub fn status_name(s: WorkerStatus) -> (r: String)
    ensures
        r@ == spec_status_name(s),
{
    let lit = match s {
        WorkerStatus::Running => "Running",
        WorkerStatus::Suspended => "Suspended",
        WorkerStatus::Interrupted => "Interrupted",
        WorkerStatus::Failed => "Failed",
        WorkerStatus::Exited => "Exited",
    };
    let mut out: Vec<char> = Vec::new();
    push_chars(&mut out, lit);
    proof {
        assert(out@ =~= lit@);
    }
    chars_to_string(&out)
}

/// Status names round-trip: the name the renderer gives a status is exactly
/// the wire string that decodes back to it.
pub proof fn lemma_status_name_round_trip(s: WorkerStatus)
    ensures
        crate::model::spec_worker_status_of(spec_status_name(s)) == Some(s),
{
    reveal_strlit("Running");
    reveal_strlit("Suspended");
    reveal_strlit("Interrupted");
    reveal_strlit("Failed");
    reveal_strlit("Exited");
    assert("Running"@.len() == 7 && "Suspended"@.len() == 9 && "Interrupted"@.len() == 11
        && "Failed"@.len() == 6 && "Exited"@.len() == 6);
    assert("Exited"@ != "Failed"@) by {
        assert("Exited"@[0] == 'E' && "Failed"@[0] == 'F');
    }
}

/// The name of a guest language.
pub open spec fn spec_language_name(l: GuestLanguage) -> Seq<char> {
    match l {
        GuestLanguage::Rust => "rust"@,
        GuestLanguage::Go => "go"@,
        GuestLanguage::C => "c"@,
        GuestLanguage::JavaScript => "javascript"@,
        GuestLanguage::TypeScript => "typescript"@,
        GuestLanguage::Python => "python"@,
    }
}

/// The name of a guest language.
pub fn language_name(l: GuestLanguage) -> (r: String)
    ensures
        r@ == spec_language_name(l),
{
    let lit = match l {
        GuestLanguage::Rust => "rust",
        GuestLanguage::Go => "go",
        GuestLanguage::C => "c",
        GuestLanguage::JavaScript => "javascript",
        GuestLanguage::TypeScript => "typescript",
        GuestLanguage::Python => "python",
    };
    let mut out: Vec<char> = Vec::new();
    push_chars(&mut out, lit);
    proof {
        assert(out@ =~= lit@);
    }
    chars_to_string(&out)
}

/// The keys under which a template renders.
pub open spec fn spec_template_keys() -> Seq<Seq<char>> {
    seq!["templateId"@, "templateName"@, "templateVersion"@]
}

/// The columns of one template.
pub open spec fn spec_template_cols(t: Template) -> Seq<SpecCol> {
    seq![SpecCol::S(t.id.value@), SpecCol::S(t.name.value@), SpecCol::N(t.version as nat)]
}

/// The keys under which a worker renders.
pub open spec fn spec_worker_keys() -> Seq<Seq<char>> {
    seq!["templateId"@, "workerName"@, "status"@]
}

/// The columns of one worker.
pub open spec fn spec_worker_cols(w: Worker) -> Seq<SpecCol> {
    seq![
        SpecCol::S(w.template_id.value@),
        SpecCol::S(w.name.value@),
        SpecCol::S(spec_status_name(w.status)),
    ]
}

/// The keys under which an example renders.
pub open spec fn spec_example_keys() -> Seq<Seq<char>> {
    seq!["name"@, "language"@, "tier"@, "description"@]
}

/// The columns of one example.
pub open spec fn spec_example_cols(e: Example) -> Seq<SpecCol> {
    seq![
        SpecCol::S(e.name@),
        SpecCol::S(spec_language_name(e.language)),
        SpecCol::N(e.tier as nat),
        SpecCol::S(e.description@),
    ]
}

/// The key under which an invocation key renders.
pub open spec fn spec_key_keys() -> Seq<Seq<char>> {
    seq!["invocationKey"@]
}

/// The column of an invocation key.
pub open spec fn spec_key_cols(k: InvocationKey) -> Seq<SpecCol> {
    seq![SpecCol::S(k.value@)]
}

/// Builds one string from a literal.
fn lit_string(s: &str) -> (r: String)
    ensures
        r@ == s@,
{
    let mut cs: Vec<char> = Vec::new();
    push_chars(&mut cs, s);
    proof {
        assert(cs@ =~= s@);
    }
    chars_to_string(&cs)
}

/// The keys under which a template renders.
fn template_keys() -> (r: Vec<String>)
    ensures
        keys_view(r@) == spec_template_keys(),
{
    let mut out: Vec<String> = Vec::new();
    out.push(lit_string("templateId"));
    out.push(lit_string("templateName"));
    out.push(lit_string("templateVersion"));
    proof {
        assert(keys_view(out@) =~= spec_template_keys());
    }
    out
}

/// The keys under which a worker renders.
fn worker_keys() -> (r: Vec<String>)
    ensures
        keys_view(r@) == spec_worker_keys(),
{
    let mut out: Vec<String> = Vec::new();
    out.push(lit_string("templateId"));
    out.push(lit_string("workerName"));
    out.push(lit_string("status"));
    proof {
        assert(keys_view(out@) =~= spec_worker_keys());
    }
    out
}

/// The keys under which an example renders.
fn example_keys() -> (r: Vec<String>)
    ensures
        keys_view(r@) == spec_example_keys(),
{
    let mut out: Vec<String> = Vec::new();
    out.push(lit_string("name"));
    out.push(lit_string("language"));
    out.push(lit_string("tier"));
    out.push(lit_string("description"));
    proof {
        assert(keys_view(out@) =~= spec_example_keys());
    }
    out
}

/// The key under which an invocation key renders.
fn key_keys() -> (r: Vec<String>)
    ensures
        keys_view(r@) == spec_key_keys(),
{
    let mut out: Vec<String> = Vec::new();
    out.push(lit_string("invocationKey"));
    proof {
        assert(keys_view(out@) =~= spec_key_keys());
    }
    out
}

/// The columns of one template.
fn template_cols(t: &Template) -> (r: Vec<ColValue>)
    ensures
        cols_view(r@) == spec_template_cols(*t),
{
    let mut out: Vec<ColValue> = Vec::new();
    out.push(ColValue::S(t.id.value.clone()));
    out.push(ColValue::S(t.name.value.clone()));
    out.push(ColValue::N(t.version));
    proof {
        assert(cols_view(out@) =~= spec_template_cols(*t));
    }
    out
}

/// The columns of one worker.
fn worker_cols(w: &Worker) -> (r: Vec<ColValue>)
    ensures
        cols_view(r@) == spec_worker_cols(*w),
{
    let mut out: Vec<ColValue> = Vec::new();
    out.push(ColValue::S(w.template_id.value.clone()));
    out.push(ColValue::S(w.name.value.clone()));
    out.push(ColValue::S(status_name(w.status)));
    proof {
        assert(cols_view(out@) =~= spec_worker_cols(*w));
    }
    out
}

/// The columns of one example.
fn example_cols(e: &Example) -> (r: Vec<ColValue>)
    ensures
        cols_view(r@) == spec_example_cols(*e),
{
    let mut out: Vec<ColValue> = Vec::new();
    out.push(ColValue::S(e.name.clone()));
    out.push(ColValue::S(language_name(e.language)));
    out.push(ColValue::N(e.tier as u64));
    out.push(ColValue::S(e.description.clone()));
    proof {
        assert(cols_view(out@) =~= spec_example_cols(*e));
    }
    out
}

/// One entity in the chosen format: a one-row table, a JSON object, or a
/// YAML mapping.
pub open spec fn spec_single(keys: Seq<Seq<char>>, cols: Seq<SpecCol>, fmt: Format) -> Seq<char> {
    match fmt {
        Format::Text => spec_text_table(keys, seq![cols]),
        Format::Json => spec_json_obj(keys, cols, Seq::empty()),
        Format::Yaml => spec_yaml_map(keys, cols),
    }
}

/// A list of entities in the chosen format: a table, a JSON array, or a
/// YAML sequence.
pub open spec fn spec_many(keys: Seq<Seq<char>>, rows: Seq<Seq<SpecCol>>, fmt: Format) -> Seq<
    char,
> {
    match fmt {
        Format::Text => spec_text_table(keys, rows),
        Format::Json => spec_json_array(keys, rows),
        Format::Yaml => spec_yaml_array(keys, rows),
    }
}

/// The rows of the template views.
pub open spec fn spec_template_rows(ts: Seq<Template>) -> Seq<Seq<SpecCol>> {
    Seq::new(ts.len(), |i: int| spec_template_cols(ts[i]))
}

/// The rows of the worker views.
pub open spec fn spec_worker_rows(ws: Seq<Worker>) -> Seq<Seq<SpecCol>> {
    Seq::new(ws.len(), |i: int| spec_worker_cols(ws[i]))
}

/// The rows of the example views.
pub open spec fn spec_example_rows(es: Seq<Example>) -> Seq<Seq<SpecCol>> {
    Seq::new(es.len(), |i: int| spec_example_cols(es[i]))
}

/// The exact text the renderer emits for a handler result in a format; the
/// caller prints it followed by one newline.
pub open spec fn spec_render(res: GolemResult, fmt: Format) -> Seq<char> {
    match res {
        GolemResult::Str(s) => s@,
        GolemResult::Json(v) => if fmt is Json {
            json_pretty(v)
        } else {
            yaml_text(v)
        },
        GolemResult::Item(x) => match x {
            Renderable::Template(t) => spec_single(spec_template_keys(), spec_template_cols(t), fmt),
            Renderable::Templates(ts) => spec_many(spec_template_keys(), spec_template_rows(ts@), fmt),
            Renderable::Worker(w) => spec_single(spec_worker_keys(), spec_worker_cols(w), fmt),
            Renderable::Workers(ws) => spec_many(spec_worker_keys(), spec_worker_rows(ws@), fmt),
            Renderable::InvocationKey(k) => spec_single(spec_key_keys(), spec_key_cols(k), fmt),
            Renderable::Examples(es) => spec_many(spec_example_keys(), spec_example_rows(es@), fmt),
        },
    }
}

/// The rows of the template views.
fn templates_rows(ts: &Vec<Template>) -> (r: Vec<Vec<ColValue>>)
    ensures
        rows_view(r@) == spec_template_rows(ts@),
        forall|i: int| 0 <= i < r@.len() ==> #[trigger] r@[i]@.len() == 3,
{
    let mut out: Vec<Vec<ColValue>> = Vec::new();
    let mut i: usize = 0;
    while i < ts.len()
        invariant
            i <= ts@.len(),
            out@.len() == i,
            forall|j: int|
                0 <= j < i ==> #[trigger] cols_view(out@[j]@) == spec_template_cols(ts@[j])
                    && out@[j]@.len() == 3,
        decreases ts@.len() - i,
    {
        let cols = template_cols(&ts[i]);
        proof {
            assert(cols@.len() == cols_view(cols@).len());
        }
        out.push(cols);
        i = i + 1;
    }
    proof {
        assert(rows_view(out@) =~= spec_template_rows(ts@));
        assert forall|k: int| 0 <= k < out@.len() implies #[trigger] out@[k]@.len() == 3 by {
            assert(cols_view(out@[k]@) == spec_template_cols(ts@[k]));
            assert(cols_view(out@[k]@).len() == out@[k]@.len());
        }
    }
    out
}

/// The rows of the worker views.
fn workers_rows(ws: &Vec<Worker>) -> (r: Vec<Vec<ColValue>>)
    ensures
        rows_view(r@) == spec_worker_rows(ws@),
        forall|i: int| 0 <= i < r@.len() ==> #[trigger] r@[i]@.len() == 3,
{
    let mut out: Vec<Vec<ColValue>> = Vec::new();
    let mut i: usize = 0;
    while i < ws.len()
        invariant
            i <= ws@.len(),
            out@.len() == i,
            forall|j: int|
                0 <= j < i ==> #[trigger] cols_view(out@[j]@) == spec_worker_cols(ws@[j])
                    && out@[j]@.len() == 3,
        decreases ws@.len() - i,
    {
        let cols = worker_cols(&ws[i]);
        proof {
            assert(cols@.len() == cols_view(cols@).len());
        }
        out.push(cols);
        i = i + 1;
    }
    proof {
        assert(rows_view(out@) =~= spec_worker_rows(ws@));
        assert forall|k: int| 0 <= k < out@.len() implies #[trigger] out@[k]@.len() == 3 by {
            assert(cols_view(out@[k]@) == spec_worker_cols(ws@[k]));
            assert(cols_view(out@[k]@).len() == out@[k]@.len());
        }
    }
    out
}

/// The rows of the example views.
fn examples_rows(es: &Vec<Example>) -> (r: Vec<Vec<ColValue>>)
    ensures
        rows_view(r@) == spec_example_rows(es@),
        forall|i: int| 0 <= i < r@.len() ==> #[trigger] r@[i]@.len() == 4,
{
    let mut out: Vec<Vec<ColValue>> = Vec::new();
    let mut i: usize = 0;
    while i < es.len()
        invariant
            i <= es@.len(),
            out@.len() == i,
            forall|j: int|
                0 <= j < i ==> #[trigger] cols_view(out@[j]@) == spec_example_cols(es@[j])
                    && out@[j]@.len() == 4,
        decreases es@.len() - i,
    {
        let cols = example_cols(&es[i]);
        proof {
            assert(cols@.len() == cols_view(cols@).len());
        }
        out.push(cols);
        i = i + 1;
    }
    proof {
        assert(rows_view(out@) =~= spec_example_rows(es@));
        assert forall|k: int| 0 <= k < out@.len() implies #[trigger] out@[k]@.len() == 4 by {
            assert(cols_view(out@[k]@) == spec_example_cols(es@[k]));
            assert(cols_view(out@[k]@).len() == out@[k]@.len());
        }
    }
    out
}

/// Emits one entity in the chosen format.
fn render_single(keys: &Vec<String>, cols: Vec<ColValue>, fmt: Format) -> (r: String)
    requires
        keys@.len() == cols@.len(),
    ensures
        r@ == spec_single(keys_view(keys@), cols_view(cols@), fmt),
{
    match fmt {
        Format::Text => {
            let mut rows: Vec<Vec<ColValue>> = Vec::new();
            let ghost sc = cols_view(cols@);
            rows.push(cols);
            proof {
                assert(rows_view(rows@) =~= seq![sc]);
            }
            emit_text_table(keys, &rows)
        },
        Format::Json => emit_json_obj(keys, &cols),
        Format::Yaml => emit_yaml_map(keys, &cols),
    }
}

/// Emits a list of entities in the chosen format.
fn render_many(keys: &Vec<String>, rows: &Vec<Vec<ColValue>>, fmt: Format) -> (r: String)
    requires
        forall|i: int| 0 <= i < rows@.len() ==> #[trigger] rows@[i]@.len() == keys@.len(),
    ensures
        r@ == spec_many(keys_view(keys@), rows_view(rows@), fmt),
{
    match fmt {
        Format::Text => emit_text_table(keys, rows),
        Format::Json => emit_json_array(keys, rows),
        Format::Yaml => emit_yaml_array(keys, rows),
    }
}

/// Renders a handler result in the chosen format: a pre-rendered message
/// verbatim; a structured server value as pretty JSON under `--format
/// json`, else as YAML; a domain object as a table, JSON document or YAML
/// document. Emitting a structured value as JSON and parsing the text back
/// yields the value again, for every value the JSON parser can yield —
/// which covers every value that came off the wire.
pub fn render(res: &GolemResult, fmt: Format) -> (out: String)
    ensures
        out@ == spec_render(*res, fmt),
        *res matches GolemResult::Json(v) ==> (fmt is Json && (exists|s: Seq<char>|
            json_parsed(s) == Some(v)) ==> json_parsed(out@) == Some(v)),
{
    match res {
        GolemResult::Str(s) => s.clone(),
        GolemResult::Json(v) => match fmt {
            Format::Json => json_to_string_pretty(v),
            _ => json_to_yaml_string(v),
        },
        GolemResult::Item(x) => match x {
            Renderable::Template(t) => {
                let keys = template_keys();
                let cols = template_cols(t);
                proof {
                    assert(keys@.len() == keys_view(keys@).len());
                    assert(cols@.len() == cols_view(cols@).len());
                }
                render_single(&keys, cols, fmt)
            },
            Renderable::Templates(ts) => {
                let keys = template_keys();
                let rows = templates_rows(ts);
                proof {
                    assert(keys@.len() == keys_view(keys@).len());
                }
                render_many(&keys, &rows, fmt)
            },
            Renderable::Worker(w) => {
                let keys = worker_keys();
                let cols = worker_cols(w);
                proof {
                    assert(keys@.len() == keys_view(keys@).len());
                    assert(cols@.len() == cols_view(cols@).len());
                }
                render_single(&keys, cols, fmt)
            },
            Renderable::Workers(ws) => {
                let keys = worker_keys();
                let rows = workers_rows(ws);
                proof {
                    assert(keys@.len() == keys_view(keys@).len());
                }
                render_many(&keys, &rows, fmt)
            },
            Renderable::InvocationKey(k) => {
                let keys = key_keys();
                let mut cols: Vec<ColValue> = Vec::new();
                cols.push(ColValue::S(k.value.clone()));
                proof {
                    assert(cols_view(cols@) =~= spec_key_cols(*k));
                    assert(keys@.len() == keys_view(keys@).len());
                }
                render_single(&keys, cols, fmt)
            },
            Renderable::Examples(es) => {
                let keys = example_keys();
                let rows = examples_rows(es);
                proof {
                    assert(keys@.len() == keys_view(keys@).len());
                }
                render_many(&keys, &rows, fmt)
            },
        },
    }
}

} // verus!
