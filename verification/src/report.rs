//! The rows of the benchmark reports: comma-separated, or tab-separated in
//! columns 20 characters wide (numbers to the right, text to the left).

use crate::drand::{decimal, decimal_string};
use vstd::prelude::*;
use vstd::string::{StrSliceExecFns, StringExecFns};

verus! {

/// The width of a column of the aligned report.
pub const COLUMN_WIDTH: usize = 20;

/// `n` spaces.
pub open spec fn spaces(n: nat) -> Seq<char> {
    Seq::new(n, |i: int| ' ')
}

/// `s` followed by spaces up to `width` characters.
pub open spec fn pad_end_spec(s: Seq<char>, width: nat) -> Seq<char> {
    if s.len() >= width {
        s
    } else {
        s + spaces((width - s.len()) as nat)
    }
}

/// `s` preceded by spaces up to `width` characters.
pub open spec fn pad_start_spec(s: Seq<char>, width: nat) -> Seq<char> {
    if s.len() >= width {
        s
    } else {
        spaces((width - s.len()) as nat) + s
    }
}

fn push_spaces(s: &mut String, n: usize)
    ensures
        final(s)@ == old(s)@ + spaces(n as nat),
{
    let mut i: usize = 0;
    while i < n
        invariant
            i <= n,
            s@ == old(s)@ + spaces(i as nat),
        decreases n - i,
    {
        s.append(" ");
        i = i + 1;
        proof {
            reveal_strlit(" ");
            assert(s@ =~= old(s)@ + spaces(i as nat));
        }
    }
}

/// `s` left-aligned in a column of `width` characters.
pub fn pad_end(s: &str, width: usize) -> (r: String)
    ensures
        r@ == pad_end_spec(s@, width as nat),
{
    let mut r = String::from_str(s);
    let len = s.unicode_len();
    if len < width {
        push_spaces(&mut r, width - len);
    }
    r
}

/// `s` right-aligned in a column of `width` characters.
pub fn pad_start(s: &str, width: usize) -> (r: String)
    ensures
        r@ == pad_start_spec(s@, width as nat),
{
    let mut r = String::new();
    let len = s.unicode_len();
    if len < width {
        push_spaces(&mut r, width - len);
    }
    r.append(s);
    proof {
        assert(r@ =~= pad_start_spec(s@, width as nat));
    }
    r
}

/// A comma-separated row of three columns, ending the line.
pub open spec fn csv_row_spec(a: Seq<char>, b: Seq<char>, c: Seq<char>) -> Seq<char> {
    a + ","@ + b + ","@ + c + "\n"@
}

/// A comma-separated row of three columns, ending the line.
pub fn csv_row(a: &str, b: &str, c: &str) -> (r: String)
    ensures
        r@ == csv_row_spec(a@, b@, c@),
{
    let mut r = String::from_str(a);
    r.append(",");
    r.append(b);
    r.append(",");
    r.append(c);
    r.append("\n");
    r
}

/// The comma-separated row of one measurement.
pub fn csv_gas_row(exec_gas: u64, data_gas: u64, algorithm: &str) -> (r: String)
    ensures
        r@ == csv_row_spec(decimal(exec_gas as nat), decimal(data_gas as nat), algorithm@),
{
    let e = decimal_string(exec_gas);
    let d = decimal_string(data_gas);
    csv_row(e.as_str(), d.as_str(), algorithm)
}

/// A row of three tab-separated columns, ending the line.
pub open spec fn tsv_row_spec(a: Seq<char>, b: Seq<char>, c: Seq<char>) -> Seq<char> {
    a + "\t"@ + b + "\t"@ + c + "\n"@
}

/// The aligned row of three text columns, each left-aligned.
pub fn aligned_text_row(a: &str, b: &str, c: &str) -> (r: String)
    ensures
        r@ == tsv_row_spec(
            pad_end_spec(a@, 20),
            pad_end_spec(b@, 20),
            pad_end_spec(c@, 20),
        ),
{
    let mut r = pad_end(a, COLUMN_WIDTH);
    r.append("\t");
    r.append(pad_end(b, COLUMN_WIDTH).as_str());
    r.append("\t");
    r.append(pad_end(c, COLUMN_WIDTH).as_str());
    r.append("\n");
    r
}

/// The aligned row of one measurement: the two gas amounts right-aligned,
/// the algorithm left-aligned.
pub fn aligned_gas_row(exec_gas: u64, data_gas: u64, algorithm: &str) -> (r: String)
    ensures
        r@ == tsv_row_spec(
            pad_start_spec(decimal(exec_gas as nat), 20),
            pad_start_spec(decimal(data_gas as nat), 20),
            pad_end_spec(algorithm@, 20),
        ),
{
    let e = decimal_string(exec_gas);
    let d = decimal_string(data_gas);
    let mut r = pad_start(e.as_str(), COLUMN_WIDTH);
    r.append("\t");
    r.append(pad_start(d.as_str(), COLUMN_WIDTH).as_str());
    r.append("\t");
    r.append(pad_end(algorithm, COLUMN_WIDTH).as_str());
    r.append("\n");
    r
}


/// Law: `s` right-aligned in `width` columns is `width` characters long, or
/// `s` itself where `s` is longer; it ends with `s`, and every character
/// before `s` is a space.
pub proof fn lemma_pad_start_shape(s: Seq<char>, width: nat)
    ensures
        pad_start_spec(s, width).len() == if s.len() >= width {
            s.len()
        } else {
            width
        },
        pad_start_spec(s, width).subrange(
            pad_start_spec(s, width).len() - s.len(),
            pad_start_spec(s, width).len() as int,
        ) == s,
        forall|i: int|
            0 <= i < pad_start_spec(s, width).len() - s.len() ==> #[trigger] pad_start_spec(
                s,
                width,
            )[i] == ' ',
{
    let r = pad_start_spec(s, width);
    assert(r.subrange(r.len() - s.len(), r.len() as int) =~= s);
}

/// Law: `s` left-aligned in `width` columns is `width` characters long, or
/// `s` itself where `s` is longer; it starts with `s`, and every character
/// after `s` is a space.
pub proof fn lemma_pad_end_shape(s: Seq<char>, width: nat)
    ensures
        pad_end_spec(s, width).len() == if s.len() >= width {
            s.len()
        } else {
            width
        },
        pad_end_spec(s, width).subrange(0, s.len() as int) == s,
        forall|i: int|
            s.len() <= i < pad_end_spec(s, width).len() ==> #[trigger] pad_end_spec(s, width)[i]
                == ' ',
{
    let r = pad_end_spec(s, width);
    assert(r.subrange(0, s.len() as int) =~= s);
}


/// Law: a comma-separated row holds its three columns in order, separated
/// by one comma each and followed by a newline, and nothing else.
pub proof fn lemma_csv_row_fields(a: Seq<char>, b: Seq<char>, c: Seq<char>)
    ensures
        ({
            let r = csv_row_spec(a, b, c);
            let i = a.len() as int;
            let j = i + 1 + b.len();
            let k = j + 1 + c.len();
            &&& r.len() == k + 1
            &&& r.subrange(0, i) == a
            &&& r[i] == ','
            &&& r.subrange(i + 1, j) == b
            &&& r[j] == ','
            &&& r.subrange(j + 1, k) == c
            &&& r[k] == '\n'
        }),
{
    reveal_strlit(",");
    reveal_strlit("\n");
    let r = csv_row_spec(a, b, c);
    let i = a.len() as int;
    let j = i + 1 + b.len();
    let k = j + 1 + c.len();
    assert(r.subrange(0, i) =~= a);
    assert(r.subrange(i + 1, j) =~= b);
    assert(r.subrange(j + 1, k) =~= c);
}

/// Law: a tab-separated row holds its three columns in order, separated
/// by one tab each and followed by a newline, and nothing else.
pub proof fn lemma_tsv_row_fields(a: Seq<char>, b: Seq<char>, c: Seq<char>)
    ensures
        ({
            let r = tsv_row_spec(a, b, c);
            let i = a.len() as int;
            let j = i + 1 + b.len();
            let k = j + 1 + c.len();
            &&& r.len() == k + 1
            &&& r.subrange(0, i) == a
            &&& r[i] == '\t'
            &&& r.subrange(i + 1, j) == b
            &&& r[j] == '\t'
            &&& r.subrange(j + 1, k) == c
            &&& r[k] == '\n'
        }),
{
    reveal_strlit("\t");
    reveal_strlit("\n");
    let r = tsv_row_spec(a, b, c);
    let i = a.len() as int;
    let j = i + 1 + b.len();
    let k = j + 1 + c.len();
    assert(r.subrange(0, i) =~= a);
    assert(r.subrange(i + 1, j) =~= b);
    assert(r.subrange(j + 1, k) =~= c);
}
} // verus!
