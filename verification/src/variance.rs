//! Population variance as an exact fraction.

use vstd::prelude::*;

verus! {

/// An exact fraction `numerator / denominator`.
#[derive(Clone, Copy, Debug)]
pub struct Ratio {
    pub numerator: u128,
    pub denominator: u128,
}

impl View for Ratio {
    type V = (int, int);

    open spec fn view(&self) -> (int, int) {
        (self.numerator as int, self.denominator as int)
    }
}

/// Sum of the first `n` values.
pub open spec fn sum_upto(values: Seq<i32>, n: int) -> int
    decreases n,
{
    if n <= 0 {
        0
    } else {
        sum_upto(values, n - 1) + values[n - 1]
    }
}

/// Sum of the squares of the first `n` values.
pub open spec fn square_sum_upto(values: Seq<i32>, n: int) -> int
    decreases n,
{
    if n <= 0 {
        0
    } else {
        square_sum_upto(values, n - 1) + values[n - 1] * values[n - 1]
    }
}

/// Sum over the first `n` values `v` of the square of `count * v - total`.
pub open spec fn squared_deviations_upto(values: Seq<i32>, n: int, count: int, total: int) -> int
    decreases n,
{
    if n <= 0 {
        0
    } else {
        squared_deviations_upto(values, n - 1, count, total) + (count * values[n - 1] - total) * (
        count * values[n - 1] - total)
    }
}

/// Numerator of the population variance of `values` over the denominator
/// [`variance_denominator`]: with `n` values of sum `s` and sum of squares
/// `q`, the variance `q / n - (s / n)^2` is `(n * q - s * s) / (n * n)`.
pub open spec fn variance_numerator(values: Seq<i32>) -> int {
    let n = values.len() as int;
    n * square_sum_upto(values, n) - sum_upto(values, n) * sum_upto(values, n)
}

/// Denominator of the population variance of `values`: the square of their
/// number.
pub open spec fn variance_denominator(values: Seq<i32>) -> int {
    (values.len() * values.len()) as int
}

proof fn lemma_sums_bounded(values: Seq<i32>, n: int)
    requires
        0 <= n <= values.len(),
    ensures
        -0x8000_0000 * n <= sum_upto(values, n) <= 0x8000_0000 * n,
        0 <= square_sum_upto(values, n) <= 0x4000_0000_0000_0000 * n,
    decreases n,
{
    if n > 0 {
        lemma_sums_bounded(values, n - 1);
        let v = values[n - 1];
        assert(0 <= v * v <= 0x4000_0000_0000_0000) by (nonlinear_arith)
            requires
                -0x8000_0000 <= v <= 0x8000_0000,
        ;
    }
}

proof fn lemma_deviations_expand(values: Seq<i32>, n: int, count: int, total: int)
    requires
        0 <= n,
    ensures
        squared_deviations_upto(values, n, count, total) == count * count * square_sum_upto(
            values,
            n,
        ) - 2 * count * total * sum_upto(values, n) + n * total * total,
        squared_deviations_upto(values, n, count, total) >= 0,
    decreases n,
{
    if n > 0 {
        lemma_deviations_expand(values, n - 1, count, total);
        let v = values[n - 1] as int;
        let q = square_sum_upto(values, n - 1);
        let s = sum_upto(values, n - 1);
        assert(count * count * q - 2 * count * total * s + (n - 1) * total * total + (count * v
            - total) * (count * v - total) == count * count * (q + v * v) - 2 * count * total * (s
            + v) + n * total * total) by (nonlinear_arith);
        assert((count * v - total) * (count * v - total) >= 0) by (nonlinear_arith);
    } else {
        assert(count * count * 0 - 2 * count * total * 0 + 0 * total * total == 0);
    }
}

/// The variance is the mean squared deviation from the mean: `n` times the
/// numerator is the sum of the squares of `n * v - s` over the `n` values `v`
/// of sum `s`. So the variance is never negative.
pub proof fn lemma_variance_is_mean_squared_deviation(values: Seq<i32>)
    ensures
        values.len() * variance_numerator(values) == squared_deviations_upto(
            values,
            values.len() as int,
            values.len() as int,
            sum_upto(values, values.len() as int),
        ),
        variance_numerator(values) >= 0,
{
    let n = values.len() as int;
    let s = sum_upto(values, n);
    let q = square_sum_upto(values, n);
    lemma_deviations_expand(values, n, n, s);
    assert(n * n * q - 2 * n * s * s + n * s * s == n * (n * q - s * s)) by (nonlinear_arith);
    if n > 0 {
        assert(n * q - s * s >= 0) by (nonlinear_arith)
            requires
                n > 0,
                n * (n * q - s * s) >= 0,
        ;
    }
}

/// Population variance of a matrix of `rows` by `cols` values, as an exact
/// fraction. An empty matrix has none.
pub fn variance_2d(matrix: &[i32], rows: usize, cols: usize) -> (variance: Option<Ratio>)
    requires
        matrix.len() == rows * cols,
        matrix.len() <= u32::MAX,
    ensures
        variance is Some <==> matrix.len() > 0,
        variance matches Some(v) ==> v.numerator == variance_numerator(matrix@) && v.denominator
            == variance_denominator(matrix@) && v.denominator > 0,
{
    let count = matrix.len();
    if count == 0 {
        return None;
    }
    let mut sum: i128 = 0;
    let mut squares: u128 = 0;
    let mut k: usize = 0;
    while k < count
        invariant
            count == matrix.len(),
            count <= u32::MAX,
            k <= count,
            sum == sum_upto(matrix@, k as int),
            squares == square_sum_upto(matrix@, k as int),
        decreases count - k,
    {
        proof {
            lemma_sums_bounded(matrix@, k as int);
            lemma_sums_bounded(matrix@, k + 1);
        }
        let value = matrix[k] as i128;
        assert(0 <= value * value <= 0x4000_0000_0000_0000) by (nonlinear_arith)
            requires
                -0x8000_0000 <= value <= 0x8000_0000,
        ;
        sum = sum + value;
        squares = squares + (value * value) as u128;
        k += 1;
    }
    proof {
        lemma_sums_bounded(matrix@, count as int);
        lemma_variance_is_mean_squared_deviation(matrix@);
        let s = sum as int;
        assert(0 <= s * s <= 0x4000_0000_0000_0000 * 0x1_0000_0000 * 0x1_0000_0000)
            by (nonlinear_arith)
            requires
                -0x8000_0000 * 0x1_0000_0000 <= s <= 0x8000_0000 * 0x1_0000_0000,
        ;
        assert(0 <= count * squares <= 0x1_0000_0000 * (0x4000_0000_0000_0000 * 0x1_0000_0000))
            by (nonlinear_arith)
            requires
                0 <= count <= 0x1_0000_0000,
                0 <= squares <= 0x4000_0000_0000_0000 * 0x1_0000_0000,
        ;
        assert(0 < count * count <= 0x1_0000_0000 * 0x1_0000_0000) by (nonlinear_arith)
            requires
                0 < count <= 0x1_0000_0000,
        ;
    }
    let total = count as u128;
    let mean_square = total * squares;
    let square_mean = (sum * sum) as u128;
    Some(Ratio { numerator: mean_square - square_mean, denominator: total * total })
}

proof fn lemma_constant_sums(values: Seq<i32>, n: int, value: int)
    requires
        0 <= n <= values.len(),
        forall|k: int| 0 <= k < n ==> values[k] == value,
    ensures
        sum_upto(values, n) == n * value,
        square_sum_upto(values, n) == n * (value * value),
    decreases n,
{
    if n > 0 {
        lemma_constant_sums(values, n - 1, value);
        assert(values[n - 1] == value);
        assert(n * value == (n - 1) * value + value && n * (value * value) == (n - 1) * (value
            * value) + value * value) by (nonlinear_arith);
    } else {
        assert(n * value == 0 && n * (value * value) == 0) by (nonlinear_arith)
            requires
                n == 0,
        ;
    }
}

/// Values that are all alike have variance zero.
pub proof fn lemma_constant_values_have_no_variance(values: Seq<i32>, value: int)
    requires
        forall|k: int| 0 <= k < values.len() ==> values[k] == value,
    ensures
        variance_numerator(values) == 0,
{
    let n = values.len() as int;
    lemma_constant_sums(values, n, value);
    assert(n * (n * (value * value)) - (n * value) * (n * value) == 0) by (nonlinear_arith);
}

proof fn lemma_no_deviation(values: Seq<i32>, n: int, count: int, total: int, k: int)
    requires
        0 <= k < n,
        squared_deviations_upto(values, n, count, total) == 0,
    ensures
        count * values[k] == total,
    decreases n,
{
    lemma_deviations_expand(values, n - 1, count, total);
    let d = count * values[n - 1] - total;
    assert(d * d >= 0 && (d * d == 0 ==> d == 0)) by (nonlinear_arith);
    if k < n - 1 {
        lemma_no_deviation(values, n - 1, count, total, k);
    }
}

/// Values of variance zero are all alike: any two of them are equal. So
/// values that differ anywhere have a variance above zero.
pub proof fn lemma_no_variance_means_constant(values: Seq<i32>, i: int, j: int)
    requires
        variance_numerator(values) == 0,
        0 <= i < values.len(),
        0 <= j < values.len(),
    ensures
        values[i] == values[j],
{
    let n = values.len() as int;
    let total = sum_upto(values, n);
    lemma_variance_is_mean_squared_deviation(values);
    assert(n * variance_numerator(values) == 0) by (nonlinear_arith)
        requires
            variance_numerator(values) == 0,
    ;
    lemma_no_deviation(values, n, n, total, i);
    lemma_no_deviation(values, n, n, total, j);
    let a = values[i] as int;
    let b = values[j] as int;
    assert(a == b) by (nonlinear_arith)
        requires
            n > 0,
            n * a == n * b,
    ;
}

} // verus!
