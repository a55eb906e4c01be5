use vstd::prelude::*;
use vstd::arithmetic::div_mod::lemma_fundamental_div_mod_converse;

verus! {

/// Column and row of the `k`-th pixel written out: rows run from the top
/// (row `height - 1`) down to row 0, and each row from column 0 rightwards.
pub open spec fn pixel_at(width: nat, height: nat, k: nat) -> (nat, nat) {
    (k % width, (height - 1 - k / width) as nat)
}

/// Every pixel of a `width` by `height` image as `(column, row)`, in the order
/// in which the image lists them; row 0 is the bottom one.
pub fn scanline_order(width: u16, height: u16) -> (r: Vec<(u16, u16)>)
    ensures
        r@.len() == width as int * height as int,
        forall|k: int|
            0 <= k < r@.len() ==> (r@[k].0 as nat, r@[k].1 as nat) == pixel_at(
                width as nat,
                height as nat,
                k as nat,
            ),
{
    let mut out: Vec<(u16, u16)> = Vec::new();
    let mut row: u16 = 0;
    while row < height
        invariant
            row <= height,
            out@.len() == row as int * width as int,
            forall|k: int|
                0 <= k < out@.len() ==> (out@[k].0 as nat, out@[k].1 as nat) == pixel_at(
                    width as nat,
                    height as nat,
                    k as nat,
                ),
        decreases height - row,
    {
        let j: u16 = height - 1 - row;
        let mut i: u16 = 0;
        while i < width
            invariant
                row < height,
                j == height - 1 - row,
                i <= width,
                out@.len() == row as int * width as int + i as int,
                forall|k: int|
                    0 <= k < out@.len() ==> (out@[k].0 as nat, out@[k].1 as nat) == pixel_at(
                        width as nat,
                        height as nat,
                        k as nat,
                    ),
            decreases width - i,
        {
            proof {
                lemma_fundamental_div_mod_converse(
                    row as int * width as int + i as int,
                    width as int,
                    row as int,
                    i as int,
                );
            }
            out.push((i, j));
            i = i + 1;
        }
        assert(row as int * width as int + width as int == (row as int + 1) * width as int)
            by (nonlinear_arith);
        row = row + 1;
    }
    out
}

} // verus!
