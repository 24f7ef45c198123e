//! The tensor record: the triple of input data, input shapes and
//! declared output data that is persisted as a project's canonical
//! input artifact before the engine runs.
//!
//! Fixed-point entries are written as plain decimals with nine
//! fractional digits, so the engine reads exactly the value the judge
//! reasons about.

use vstd::prelude::*;
use vstd::string::*;

use crate::codec::{push_digits, push_padded, spec_digits, spec_padded};
use crate::judge::{row_wf, FIXED_SCALE, MAX_ELEM};

verus! {

/// The decimal text of a fixed-point value: integer part, a dot, nine
/// fractional digits.
pub open spec fn spec_fixed(v: int) -> Seq<char> {
    if v < 0 {
        seq!['-'] + spec_fixed_mag((-v) as nat)
    } else {
        spec_fixed_mag(v as nat)
    }
}

pub open spec fn spec_fixed_mag(m: nat) -> Seq<char> {
    spec_digits(m / (FIXED_SCALE as nat)) + seq!['.'] + spec_padded(m % (FIXED_SCALE as nat), 9)
}

/// A row of fixed-point values: comma separated, in brackets.
pub open spec fn spec_row_inner(r: Seq<i64>) -> Seq<char>
    decreases r.len(),
{
    if r.len() == 0 {
        Seq::empty()
    } else if r.len() == 1 {
        spec_fixed(r[0] as int)
    } else {
        spec_row_inner(r.drop_last()) + seq![','] + spec_fixed(r.last() as int)
    }
}

pub open spec fn spec_row(r: Seq<i64>) -> Seq<char> {
    seq!['['] + spec_row_inner(r) + seq![']']
}

/// A block of rows: comma separated, in brackets.
pub open spec fn spec_rows_inner(rs: Seq<Seq<i64>>) -> Seq<char>
    decreases rs.len(),
{
    if rs.len() == 0 {
        Seq::empty()
    } else if rs.len() == 1 {
        spec_row(rs[0])
    } else {
        spec_rows_inner(rs.drop_last()) + seq![','] + spec_row(rs.last())
    }
}

pub open spec fn spec_rows(rs: Seq<Seq<i64>>) -> Seq<char> {
    seq!['['] + spec_rows_inner(rs) + seq![']']
}

/// A shape row: dimension sizes as plain decimals.
pub open spec fn spec_shape_inner(r: Seq<usize>) -> Seq<char>
    decreases r.len(),
{
    if r.len() == 0 {
        Seq::empty()
    } else if r.len() == 1 {
        spec_digits(r[0] as nat)
    } else {
        spec_shape_inner(r.drop_last()) + seq![','] + spec_digits(r.last() as nat)
    }
}

pub open spec fn spec_shape(r: Seq<usize>) -> Seq<char> {
    seq!['['] + spec_shape_inner(r) + seq![']']
}

pub open spec fn spec_shapes_inner(rs: Seq<Seq<usize>>) -> Seq<char>
    decreases rs.len(),
{
    if rs.len() == 0 {
        Seq::empty()
    } else if rs.len() == 1 {
        spec_shape(rs[0])
    } else {
        spec_shapes_inner(rs.drop_last()) + seq![','] + spec_shape(rs.last())
    }
}

pub open spec fn spec_shapes(rs: Seq<Seq<usize>>) -> Seq<char> {
    seq!['['] + spec_shapes_inner(rs) + seq![']']
}

/// A tensor record: what a caller submits and what is persisted as the
/// canonical input artifact.
pub struct EchoData {
    pub input_data: Vec<Vec<i64>>,
    pub input_shapes: Vec<Vec<usize>>,
    pub output_data: Vec<Vec<i64>>,
}

/// The mathematical model of a record.
pub struct EchoDataV {
    pub input_data: Seq<Seq<i64>>,
    pub input_shapes: Seq<Seq<usize>>,
    pub output_data: Seq<Seq<i64>>,
}

impl View for EchoData {
    type V = EchoDataV;

    open spec fn view(&self) -> EchoDataV {
        EchoDataV {
            input_data: self.input_data@.map_values(|r: Vec<i64>| r@),
            input_shapes: self.input_shapes@.map_values(|r: Vec<usize>| r@),
            output_data: self.output_data@.map_values(|r: Vec<i64>| r@),
        }
    }
}

pub open spec fn rows_wf(rs: Seq<Seq<i64>>) -> bool {
    forall|i: int| 0 <= i < rs.len() ==> row_wf(#[trigger] rs[i])
}

impl EchoDataV {
    /// Every data row is within the judge's bounds.
    pub open spec fn wf(self) -> bool {
        rows_wf(self.input_data) && rows_wf(self.output_data)
    }
}

/// The persisted document of a record.
pub open spec fn spec_render_record(e: EchoDataV) -> Seq<char> {
    "{\"input_data\":"@ + spec_rows(e.input_data) + ",\"input_shapes\":"@ + spec_shapes(
        e.input_shapes,
    ) + ",\"output_data\":"@ + spec_rows(e.output_data) + "}"@
}

fn push_fixed(out: &mut String, v: i64)
    requires
        -MAX_ELEM <= v <= MAX_ELEM,
    ensures
        final(out)@ == old(out)@ + spec_fixed(v as int),
{
    let m: u64 = if v < 0 {
        out.append("-");
        (-v) as u64
    } else {
        v as u64
    };
    push_digits(out, m / (FIXED_SCALE as u64));
    out.append(".");
    push_padded(out, m % (FIXED_SCALE as u64), 9);
    proof {
        reveal_strlit("-");
        reveal_strlit(".");
        assert("-"@ =~= seq!['-']);
        assert("."@ =~= seq!['.']);
        assert(final(out)@ =~= old(out)@ + spec_fixed(v as int));
    }
}

fn push_row(out: &mut String, r: &Vec<i64>)
    requires
        row_wf(r@),
    ensures
        final(out)@ == old(out)@ + spec_row(r@),
{
    out.append("[");
    let mut k: usize = 0;
    proof {
        reveal_strlit("[");
        reveal_strlit("]");
        reveal_strlit(",");
        assert("["@ =~= seq!['[']);
        assert("]"@ =~= seq![']']);
        assert(","@ =~= seq![',']);
        assert(r@.take(0) =~= Seq::<i64>::empty());
    }
    while k < r.len()
        invariant
            0 <= k <= r@.len(),
            row_wf(r@),
            "["@ =~= seq!['['],
            "]"@ =~= seq![']'],
            ","@ =~= seq![','],
            out@ == old(out)@ + seq!['['] + spec_row_inner(r@.take(k as int)),
        decreases r@.len() - k,
    {
        if k > 0 {
            out.append(",");
        }
        push_fixed(out, r[k]);
        proof {
            let pre = r@.take(k as int);
            let cur = r@.take(k as int + 1);
            assert(cur.drop_last() =~= pre);
            assert(cur.last() == r@[k as int]);
            assert(out@ =~= old(out)@ + seq!['['] + spec_row_inner(cur));
        }
        k += 1;
    }
    out.append("]");
    proof {
        assert(r@.take(r@.len() as int) =~= r@);
        assert(final(out)@ =~= old(out)@ + spec_row(r@));
    }
}

fn push_rows(out: &mut String, rs: &Vec<Vec<i64>>)
    requires
        rows_wf(rs@.map_values(|r: Vec<i64>| r@)),
    ensures
        final(out)@ == old(out)@ + spec_rows(rs@.map_values(|r: Vec<i64>| r@)),
{
    let ghost v = rs@.map_values(|r: Vec<i64>| r@);
    out.append("[");
    let mut k: usize = 0;
    proof {
        reveal_strlit("[");
        reveal_strlit("]");
        reveal_strlit(",");
        assert("["@ =~= seq!['[']);
        assert("]"@ =~= seq![']']);
        assert(","@ =~= seq![',']);
        assert(v.take(0) =~= Seq::<Seq<i64>>::empty());
    }
    while k < rs.len()
        invariant
            0 <= k <= v.len(),
            v == rs@.map_values(|r: Vec<i64>| r@),
            rows_wf(v),
            "["@ =~= seq!['['],
            "]"@ =~= seq![']'],
            ","@ =~= seq![','],
            out@ == old(out)@ + seq!['['] + spec_rows_inner(v.take(k as int)),
        decreases v.len() - k,
    {
        if k > 0 {
            out.append(",");
        }
        proof {
            assert(v[k as int] == rs@[k as int]@);
            assert(row_wf(v[k as int]));
        }
        push_row(out, &rs[k]);
        proof {
            let pre = v.take(k as int);
            let cur = v.take(k as int + 1);
            assert(cur.drop_last() =~= pre);
            assert(cur.last() == v[k as int]);
            assert(out@ =~= old(out)@ + seq!['['] + spec_rows_inner(cur));
        }
        k += 1;
    }
    out.append("]");
    proof {
        assert(v.take(v.len() as int) =~= v);
        assert(final(out)@ =~= old(out)@ + spec_rows(v));
    }
}

fn push_shape(out: &mut String, r: &Vec<usize>)
    ensures
        final(out)@ == old(out)@ + spec_shape(r@),
{
    out.append("[");
    let mut k: usize = 0;
    proof {
        reveal_strlit("[");
        reveal_strlit("]");
        reveal_strlit(",");
        assert("["@ =~= seq!['[']);
        assert("]"@ =~= seq![']']);
        assert(","@ =~= seq![',']);
        assert(r@.take(0) =~= Seq::<usize>::empty());
    }
    while k < r.len()
        invariant
            0 <= k <= r@.len(),
            "["@ =~= seq!['['],
            "]"@ =~= seq![']'],
            ","@ =~= seq![','],
            out@ == old(out)@ + seq!['['] + spec_shape_inner(r@.take(k as int)),
        decreases r@.len() - k,
    {
        if k > 0 {
            out.append(",");
        }
        push_digits(out, r[k] as u64);
        proof {
            let pre = r@.take(k as int);
            let cur = r@.take(k as int + 1);
            assert(cur.drop_last() =~= pre);
            assert(cur.last() == r@[k as int]);
            assert(out@ =~= old(out)@ + seq!['['] + spec_shape_inner(cur));
        }
        k += 1;
    }
    out.append("]");
    proof {
        assert(r@.take(r@.len() as int) =~= r@);
        assert(final(out)@ =~= old(out)@ + spec_shape(r@));
    }
}

fn push_shapes(out: &mut String, rs: &Vec<Vec<usize>>)
    ensures
        final(out)@ == old(out)@ + spec_shapes(rs@.map_values(|r: Vec<usize>| r@)),
{
    let ghost v = rs@.map_values(|r: Vec<usize>| r@);
    out.append("[");
    let mut k: usize = 0;
    proof {
        reveal_strlit("[");
        reveal_strlit("]");
        reveal_strlit(",");
        assert("["@ =~= seq!['[']);
        assert("]"@ =~= seq![']']);
        assert(","@ =~= seq![',']);
        assert(v.take(0) =~= Seq::<Seq<usize>>::empty());
    }
    while k < rs.len()
        invariant
            0 <= k <= v.len(),
            v == rs@.map_values(|r: Vec<usize>| r@),
            "["@ =~= seq!['['],
            "]"@ =~= seq![']'],
            ","@ =~= seq![','],
            out@ == old(out)@ + seq!['['] + spec_shapes_inner(v.take(k as int)),
        decreases v.len() - k,
    {
        if k > 0 {
            out.append(",");
        }
        proof {
            assert(v[k as int] == rs@[k as int]@);
        }
        push_shape(out, &rs[k]);
        proof {
            let pre = v.take(k as int);
            let cur = v.take(k as int + 1);
            assert(cur.drop_last() =~= pre);
            assert(cur.last() == v[k as int]);
            assert(out@ =~= old(out)@ + seq!['['] + spec_shapes_inner(cur));
        }
        k += 1;
    }
    out.append("]");
    proof {
        assert(v.take(v.len() as int) =~= v);
        assert(final(out)@ =~= old(out)@ + spec_shapes(v));
    }
}

/// Renders a record to the canonical input artifact text.
pub fn render_record(e: &EchoData) -> (r: String)
    requires
        e@.wf(),
    ensures
        r@ == spec_render_record(e@),
{
    let mut out = String::new();
    out.append("{\"input_data\":");
    push_rows(&mut out, &e.input_data);
    out.append(",\"input_shapes\":");
    push_shapes(&mut out, &e.input_shapes);
    out.append(",\"output_data\":");
    push_rows(&mut out, &e.output_data);
    out.append("}");
    proof {
        assert(out@ =~= spec_render_record(e@));
    }
    out
}

/// Runtime check that every data row of a record is within the judge's
/// bounds.
pub fn check_record(e: &EchoData) -> (r: bool)
    ensures
        r == e@.wf(),
{
    check_rows(&e.input_data) && check_rows(&e.output_data)
}

/// Runtime check of `rows_wf`.
pub fn check_rows(rs: &Vec<Vec<i64>>) -> (r: bool)
    ensures
        r == rows_wf(rs@.map_values(|q: Vec<i64>| q@)),
{
    let ghost v = rs@.map_values(|q: Vec<i64>| q@);
    let mut i: usize = 0;
    while i < rs.len()
        invariant
            0 <= i <= v.len(),
            v == rs@.map_values(|q: Vec<i64>| q@),
            forall|k: int| 0 <= k < i ==> row_wf(#[trigger] v[k]),
        decreases v.len() - i,
    {
        let row = &rs[i];
        if row.len() > crate::judge::MAX_ROW {
            proof {
                assert(v[i as int] == rs@[i as int]@);
            }
            return false;
        }
        let mut j: usize = 0;
        while j < row.len()
            invariant
                0 <= j <= row@.len(),
                0 <= i < v.len(),
                v == rs@.map_values(|q: Vec<i64>| q@),
                row@ == v[i as int],
                row@.len() <= crate::judge::MAX_ROW,
                forall|l: int| 0 <= l < j ==> -MAX_ELEM <= #[trigger] row@[l] <= MAX_ELEM,
            decreases row@.len() - j,
        {
            let x = row[j];
            if x < -MAX_ELEM || x > MAX_ELEM {
                proof {
                    assert(!row_wf(v[i as int]));
                }
                return false;
            }
            j += 1;
        }
        i += 1;
    }
    true
}

} // verus!
