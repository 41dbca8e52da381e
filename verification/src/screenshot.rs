//! The compute half of framebuffer capture: flipping row-major pixel data
//! vertically, in place. Device read-back returns the bottom row first;
//! image files want the top row first.
use vstd::prelude::*;

verus! {

/// Byte `c` of row `r` in row-major data with `rb` bytes per row.
pub open spec fn spec_row_byte(s: Seq<u8>, rb: int, r: int, c: int) -> u8 {
    s[r * rb + c]
}

/// Row-major addressing is injective: two (row, column) pairs with in-range
/// columns address the same byte only if they are equal.
proof fn lemma_row_col_injective(rb: int, r1: int, c1: int, r2: int, c2: int)
    requires
        rb > 0,
        0 <= c1 < rb,
        0 <= c2 < rb,
        r1 >= 0,
        r2 >= 0,
        r1 * rb + c1 == r2 * rb + c2,
    ensures
        r1 == r2,
        c1 == c2,
{
    vstd::arithmetic::div_mod::lemma_fundamental_div_mod_converse(r1 * rb + c1, rb, r1, c1);
    vstd::arithmetic::div_mod::lemma_fundamental_div_mod_converse(r2 * rb + c2, rb, r2, c2);
}

/// A row's bytes lie inside the data.
proof fn lemma_row_in_bounds(rb: int, rows: int, r: int, c: int)
    requires
        rb > 0,
        0 <= c < rb,
        0 <= r < rows,
    ensures
        0 <= r * rb + c < rows * rb,
{
    assert((r + 1) * rb <= rows * rb) by (nonlinear_arith)
        requires
            r + 1 <= rows,
            rb >= 0,
    ;
    assert((r + 1) * rb == r * rb + rb) by (nonlinear_arith);
    assert(r * rb >= 0) by (nonlinear_arith)
        requires
            r >= 0,
            rb >= 0,
    ;
}

/// Flip row-major data vertically, in place: row `r` ends holding what row
/// `rows - 1 - r` held, byte for byte.
pub fn flip_rows_vertically(data: &mut Vec<u8>, row_bytes: usize, rows: usize)
    requires
        old(data)@.len() == rows * row_bytes,
    ensures
        final(data)@.len() == old(data)@.len(),
        forall|r: int, c: int|
            0 <= r < rows && 0 <= c < row_bytes ==> #[trigger] spec_row_byte(
                final(data)@,
                row_bytes as int,
                r,
                c,
            ) == spec_row_byte(old(data)@, row_bytes as int, rows - 1 - r, c),
{
    if row_bytes == 0 {
        return;
    }
    let rb = row_bytes;
    let half = rows / 2;
    let mut i: usize = 0;
    while i < half
        invariant
            rb == row_bytes,
            rb > 0,
            half == rows / 2,
            i <= half,
            data@.len() == rows * rb,
            data@.len() == old(data)@.len(),
            forall|r: int, c: int|
                0 <= c < rb && (0 <= r < i || rows - i <= r < rows) ==> #[trigger] spec_row_byte(
                    data@,
                    rb as int,
                    r,
                    c,
                ) == spec_row_byte(old(data)@, rb as int, rows - 1 - r, c),
            forall|r: int, c: int|
                0 <= c < rb && i <= r < rows - i ==> #[trigger] spec_row_byte(data@, rb as int, r, c)
                    == spec_row_byte(old(data)@, rb as int, r, c),
        decreases half - i,
    {
        proof {
            vstd::arithmetic::div_mod::lemma_fundamental_div_mod(rows as int, 2);
        }
        let j = rows - 1 - i;
        let mut c: usize = 0;
        while c < rb
            invariant
                rb > 0,
                i < half,
                half == rows / 2,
                2 * half <= rows,
                j == rows - 1 - i,
                i < j < rows,
                c <= rb,
                data@.len() == rows * rb,
                data@.len() == old(data)@.len(),
                forall|r: int, c2: int|
                    0 <= c2 < rb && (0 <= r < i || rows - i <= r < rows)
                        ==> #[trigger] spec_row_byte(data@, rb as int, r, c2) == spec_row_byte(
                        old(data)@,
                        rb as int,
                        rows - 1 - r,
                        c2,
                    ),
                forall|c2: int|
                    0 <= c2 < c ==> #[trigger] spec_row_byte(data@, rb as int, i as int, c2)
                        == spec_row_byte(old(data)@, rb as int, j as int, c2) && spec_row_byte(
                        data@,
                        rb as int,
                        j as int,
                        c2,
                    ) == spec_row_byte(old(data)@, rb as int, i as int, c2),
                forall|c2: int|
                    c <= c2 < rb ==> #[trigger] spec_row_byte(data@, rb as int, i as int, c2)
                        == spec_row_byte(old(data)@, rb as int, i as int, c2) && spec_row_byte(
                        data@,
                        rb as int,
                        j as int,
                        c2,
                    ) == spec_row_byte(old(data)@, rb as int, j as int, c2),
                forall|r: int, c2: int|
                    0 <= c2 < rb && i < r < j ==> #[trigger] spec_row_byte(data@, rb as int, r, c2)
                        == spec_row_byte(old(data)@, rb as int, r, c2),
            decreases rb - c,
        {
            proof {
                lemma_row_in_bounds(rb as int, rows as int, i as int, c as int);
                lemma_row_in_bounds(rb as int, rows as int, j as int, c as int);
                assert(i * rb + rb <= j * rb) by (nonlinear_arith)
                    requires
                        i + 1 <= j,
                        rb >= 0,
                ;
            }
            let total = data.len();
            proof {
                assert(i * rb + c < total && j * rb + c < total);
            }
            let ghost before = data@;
            let a = i * rb + c;
            let b = j * rb + c;
            let va = data[a];
            let vb = data[b];
            data[a] = vb;
            data[b] = va;
            proof {
                assert(data@ =~= before.update(a as int, vb).update(b as int, va));
                assert forall|r: int, c2: int|
                    0 <= c2 < rb && (0 <= r < i || rows - i <= r < rows) implies #[trigger] spec_row_byte(
                    data@,
                    rb as int,
                    r,
                    c2,
                ) == spec_row_byte(old(data)@, rb as int, rows - 1 - r, c2) by {
                    lemma_row_in_bounds(rb as int, rows as int, r, c2);
                    if r * rb + c2 == i * rb + c {
                        lemma_row_col_injective(rb as int, r, c2, i as int, c as int);
                    }
                    if r * rb + c2 == j * rb + c {
                        lemma_row_col_injective(rb as int, r, c2, j as int, c as int);
                    }
                    assert(spec_row_byte(before, rb as int, r, c2) == spec_row_byte(
                        old(data)@,
                        rb as int,
                        rows - 1 - r,
                        c2,
                    ));
                    assert(spec_row_byte(data@, rb as int, r, c2) == spec_row_byte(
                        before,
                        rb as int,
                        r,
                        c2,
                    ));
                }
                assert forall|c2: int|
                    0 <= c2 < c + 1 implies #[trigger] spec_row_byte(data@, rb as int, i as int, c2)
                    == spec_row_byte(old(data)@, rb as int, j as int, c2) && spec_row_byte(
                    data@,
                    rb as int,
                    j as int,
                    c2,
                ) == spec_row_byte(old(data)@, rb as int, i as int, c2) by {
                    lemma_row_in_bounds(rb as int, rows as int, i as int, c2);
                    lemma_row_in_bounds(rb as int, rows as int, j as int, c2);
                    if c2 < c {
                        if i * rb + c2 == i * rb + c {
                            lemma_row_col_injective(rb as int, i as int, c2, i as int, c as int);
                        }
                        if i * rb + c2 == j * rb + c {
                            lemma_row_col_injective(rb as int, i as int, c2, j as int, c as int);
                        }
                        if j * rb + c2 == i * rb + c {
                            lemma_row_col_injective(rb as int, j as int, c2, i as int, c as int);
                        }
                        if j * rb + c2 == j * rb + c {
                            lemma_row_col_injective(rb as int, j as int, c2, j as int, c as int);
                        }
                        assert(spec_row_byte(before, rb as int, i as int, c2) == spec_row_byte(
                            old(data)@,
                            rb as int,
                            j as int,
                            c2,
                        ));
                        assert(spec_row_byte(before, rb as int, j as int, c2) == spec_row_byte(
                            old(data)@,
                            rb as int,
                            i as int,
                            c2,
                        ));
                        assert(spec_row_byte(data@, rb as int, i as int, c2) == spec_row_byte(
                            before,
                            rb as int,
                            i as int,
                            c2,
                        ));
                        assert(spec_row_byte(data@, rb as int, j as int, c2) == spec_row_byte(
                            before,
                            rb as int,
                            j as int,
                            c2,
                        ));
                    } else {
                        assert(spec_row_byte(before, rb as int, i as int, c as int)
                            == spec_row_byte(old(data)@, rb as int, i as int, c as int));
                        assert(spec_row_byte(before, rb as int, j as int, c as int)
                            == spec_row_byte(old(data)@, rb as int, j as int, c as int));
                        assert(spec_row_byte(data@, rb as int, i as int, c as int) == vb);
                        assert(spec_row_byte(data@, rb as int, j as int, c as int) == va);
                        assert(va == spec_row_byte(before, rb as int, i as int, c as int));
                        assert(vb == spec_row_byte(before, rb as int, j as int, c as int));
                    }
                }
                assert forall|c2: int|
                    c + 1 <= c2 < rb implies #[trigger] spec_row_byte(data@, rb as int, i as int, c2)
                    == spec_row_byte(old(data)@, rb as int, i as int, c2) && spec_row_byte(
                    data@,
                    rb as int,
                    j as int,
                    c2,
                ) == spec_row_byte(old(data)@, rb as int, j as int, c2) by {
                    lemma_row_in_bounds(rb as int, rows as int, i as int, c2);
                    lemma_row_in_bounds(rb as int, rows as int, j as int, c2);
                    if i * rb + c2 == i * rb + c {
                        lemma_row_col_injective(rb as int, i as int, c2, i as int, c as int);
                    }
                    if i * rb + c2 == j * rb + c {
                        lemma_row_col_injective(rb as int, i as int, c2, j as int, c as int);
                    }
                    if j * rb + c2 == i * rb + c {
                        lemma_row_col_injective(rb as int, j as int, c2, i as int, c as int);
                    }
                    if j * rb + c2 == j * rb + c {
                        lemma_row_col_injective(rb as int, j as int, c2, j as int, c as int);
                    }
                    assert(spec_row_byte(before, rb as int, i as int, c2) == spec_row_byte(
                        old(data)@,
                        rb as int,
                        i as int,
                        c2,
                    ));
                    assert(spec_row_byte(before, rb as int, j as int, c2) == spec_row_byte(
                        old(data)@,
                        rb as int,
                        j as int,
                        c2,
                    ));
                    assert(spec_row_byte(data@, rb as int, i as int, c2) == spec_row_byte(
                        before,
                        rb as int,
                        i as int,
                        c2,
                    ));
                    assert(spec_row_byte(data@, rb as int, j as int, c2) == spec_row_byte(
                        before,
                        rb as int,
                        j as int,
                        c2,
                    ));
                }
                assert forall|r: int, c2: int|
                    0 <= c2 < rb && i < r < j implies #[trigger] spec_row_byte(
                    data@,
                    rb as int,
                    r,
                    c2,
                ) == spec_row_byte(old(data)@, rb as int, r, c2) by {
                    lemma_row_in_bounds(rb as int, rows as int, r, c2);
                    if r * rb + c2 == i * rb + c {
                        lemma_row_col_injective(rb as int, r, c2, i as int, c as int);
                    }
                    if r * rb + c2 == j * rb + c {
                        lemma_row_col_injective(rb as int, r, c2, j as int, c as int);
                    }
                    assert(spec_row_byte(before, rb as int, r, c2) == spec_row_byte(
                        old(data)@,
                        rb as int,
                        r,
                        c2,
                    ));
                    assert(spec_row_byte(data@, rb as int, r, c2) == spec_row_byte(
                        before,
                        rb as int,
                        r,
                        c2,
                    ));
                }
            }
            c = c + 1;
        }
        proof {
            assert forall|r: int, c2: int|
                0 <= c2 < rb && (0 <= r < i + 1 || rows - (i + 1) <= r < rows)
                implies #[trigger] spec_row_byte(data@, rb as int, r, c2) == spec_row_byte(
                old(data)@,
                rb as int,
                rows - 1 - r,
                c2,
            ) by {
                if r == i {
                    assert(rows - 1 - r == j);
                    assert(spec_row_byte(data@, rb as int, i as int, c2) == spec_row_byte(
                        old(data)@,
                        rb as int,
                        j as int,
                        c2,
                    ));
                } else if r == j {
                    assert(rows - 1 - r == i);
                    assert(spec_row_byte(data@, rb as int, i as int, c2) == spec_row_byte(
                        old(data)@,
                        rb as int,
                        j as int,
                        c2,
                    ));
                    assert(spec_row_byte(data@, rb as int, j as int, c2) == spec_row_byte(
                        old(data)@,
                        rb as int,
                        i as int,
                        c2,
                    ));
                }
            }
            assert forall|r: int, c2: int|
                0 <= c2 < rb && i + 1 <= r < rows - (i + 1) implies #[trigger] spec_row_byte(
                data@,
                rb as int,
                r,
                c2,
            ) == spec_row_byte(old(data)@, rb as int, r, c2) by {
                assert(i < r < j);
            }
        }
        i = i + 1;
    }
    proof {
        vstd::arithmetic::div_mod::lemma_fundamental_div_mod(rows as int, 2);
        assert forall|r: int, c: int|
            0 <= r < rows && 0 <= c < row_bytes implies #[trigger] spec_row_byte(
            data@,
            row_bytes as int,
            r,
            c,
        ) == spec_row_byte(old(data)@, row_bytes as int, rows - 1 - r, c) by {
            if half <= r < rows - half {
                assert(r == rows - 1 - r);
            }
        }
    }
}

} // verus!
