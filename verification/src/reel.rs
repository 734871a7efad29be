use vstd::prelude::*;
use crate::symbol::Symbol;
use vstd::arithmetic::div_mod::{
    lemma_add_mod_noop_right, lemma_fundamental_div_mod, lemma_fundamental_div_mod_converse,
    lemma_small_mod,
};

verus! {

/// The position on a strip of `len` pictures that row `row` shows when the
/// reel stands at grid position `base` (the number of whole pictures it has
/// turned past).  The strip wraps around, in both directions.
pub open spec fn row_position(len: int, base: int, row: int) -> int
    recommends
        len > 0,
{
    (base + row) % len
}

/// The picture that row `row` shows on a reel with strip `strip` standing at
/// grid position `base`; an empty strip shows a cherry.
pub open spec fn picture_at(strip: Seq<Symbol>, base: int, row: int) -> Symbol {
    if strip.len() == 0 {
        Symbol::Cherry
    } else {
        strip[row_position(strip.len() as int, base, row)]
    }
}

/// The remainder of a negative number in terms of the remainder of its
/// absolute value.
proof fn lemma_negated_mod(a: int, n: int)
    requires
        a > 0,
        n > 0,
    ensures
        (-a) % n == if a % n == 0 { 0 } else { n - a % n },
{
    let q = a / n;
    let r = a % n;
    lemma_fundamental_div_mod(a, n);
    assert(0 <= r < n);
    if r == 0 {
        assert(-a == (-q) * n + 0) by (nonlinear_arith)
            requires
                a == n * q + r,
                r == 0,
        ;
        lemma_fundamental_div_mod_converse(-a, n, -q, 0);
    } else {
        assert(-a == (-q - 1) * n + (n - r)) by (nonlinear_arith)
            requires
                a == n * q + r,
        ;
        lemma_fundamental_div_mod_converse(-a, n, -q - 1, n - r);
    }
}

/// The picture shown on row `row_idx` of the window by a reel whose strip is
/// `symbols` and whose offset has passed `base_idx` whole pictures.
pub fn symbol_at_row(symbols: &Vec<Symbol>, base_idx: i32, row_idx: usize) -> (s: Symbol)
    requires
        symbols.len() <= i32::MAX,
        row_idx <= i32::MAX,
        base_idx + row_idx <= i32::MAX,
    ensures
        s == picture_at(symbols@, base_idx as int, row_idx as int),
        symbols.len() == 0 ==> s == Symbol::Cherry,
        symbols.len() > 0 ==> s == symbols@[(base_idx + row_idx) % (symbols.len() as int)],
{
    let total_symbols = symbols.len();
    if total_symbols == 0 {
        return Symbol::Cherry;
    }
    let total: i32 = total_symbols as i32;
    let row: i32 = row_idx as i32;
    let sum: i32 = base_idx + row;
    let mut target_idx: i32 = sum % total;
    proof {
        let t0 = target_idx as int;
        if sum < 0 {
            assert(t0 == -((-(sum as int)) % (total as int)));
            lemma_negated_mod(-(sum as int), total as int);
        }
    }
    if target_idx < 0 {
        target_idx = target_idx + total;
    }
    proof {
        assert(0 <= target_idx < total);
        assert(target_idx == row_position(total as int, base_idx as int, row_idx as int));
    }
    symbols[target_idx as usize]
}

/// Row `row` of a reel standing at grid position `base` shows the strip's
/// picture at position `(base + row) mod len`, a true position of the strip,
/// whatever the signs of `base` and `row`.
pub proof fn lemma_picture_at_wraps(strip: Seq<Symbol>, base: int, row: int)
    requires
        strip.len() > 0,
    ensures
        0 <= (base + row) % (strip.len() as int) < strip.len(),
        picture_at(strip, base, row) == strip[(base + row) % (strip.len() as int)],
{
}

/// A reel at rest on its first picture shows the strip top to bottom: row
/// `i` shows position `i`.
pub proof fn lemma_rows_read_strip_in_order(strip: Seq<Symbol>, i: int)
    requires
        0 <= i < strip.len(),
    ensures
        picture_at(strip, 0, i) == strip[i],
{
    lemma_small_mod(i as nat, strip.len());
}

/// Wherever a reel stands, every position of its strip is shown by one of
/// the first `len` rows: no picture of the strip is ever hidden.
pub proof fn lemma_every_position_shown(strip: Seq<Symbol>, base: int, i: int)
    requires
        0 <= i < strip.len(),
    ensures
        exists|row: int| 0 <= row < strip.len() && #[trigger] picture_at(strip, base, row) == strip[i],
{
    let n = strip.len() as int;
    let row = (i - base) % n;
    assert(0 <= row < n);
    lemma_add_mod_noop_right(base, i - base, n);
    assert((base + row) % n == (base + (i - base)) % n);
    assert(base + (i - base) == i);
    lemma_small_mod(i as nat, n as nat);
    assert((base + row) % n == i);
    assert(picture_at(strip, base, row) == strip[i]);
}

/// A reel's window repeats every turn of the strip: a row one strip length
/// further down shows the same picture.
pub proof fn lemma_picture_periodic(strip: Seq<Symbol>, base: int, row: int)
    ensures
        picture_at(strip, base, row + strip.len()) == picture_at(strip, base, row),
{
    if strip.len() > 0 {
        let n = strip.len() as int;
        lemma_fundamental_div_mod(base + row, n);
        let q = (base + row) / n;
        let r = (base + row) % n;
        assert(base + row + n == (q + 1) * n + r) by (nonlinear_arith)
            requires
                base + row == n * q + r,
        ;
        lemma_fundamental_div_mod_converse(base + row + n, n, q + 1, r);
    }
}

/// Turning the reel on by one picture moves every picture one row up.
pub proof fn lemma_picture_shift(strip: Seq<Symbol>, base: int, row: int)
    ensures
        picture_at(strip, base + 1, row) == picture_at(strip, base, row + 1),
{
    assert(base + 1 + row == base + (row + 1));
}

/// Every row of a reel with pictures shows a picture of its strip.
pub proof fn lemma_picture_on_strip(strip: Seq<Symbol>, base: int, row: int)
    requires
        strip.len() > 0,
    ensures
        strip.contains(picture_at(strip, base, row)),
{
    let i = row_position(strip.len() as int, base, row);
    assert(0 <= i < strip.len());
    assert(strip[i] == picture_at(strip, base, row));
}

} // verus!
