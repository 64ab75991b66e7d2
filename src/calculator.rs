//! The calculator and its history of completed operations.
use vstd::prelude::*;
use vstd::string::StringExecFns;
use crate::clock::{now, Timestamp};
use crate::error::CalculatorError;
use crate::number::{is_negative, is_negative_bits, is_zero, is_zero_bits};

verus! {

/// One completed operation: what was asked, on which operands, what came out
/// and when. Numbers are binary64 bit patterns.
#[derive(Debug, Clone)]
pub struct CalculationResult {
    pub result: u64,
    pub operation: String,
    pub operands: Vec<u64>,
    pub timestamp: Timestamp,
}

/// `rec` records the operation named `operation` on `operands` with outcome `result`.
pub open spec fn describes(
    rec: CalculationResult,
    operation: Seq<char>,
    operands: Seq<u64>,
    result: u64,
) -> bool {
    &&& rec.operation@ == operation
    &&& rec.operands@ == operands
    &&& rec.result == result
}

/// How one operation changes the history: a success appends exactly one record
/// and keeps the earlier ones; a failure changes nothing.
pub open spec fn outcome_step(
    pre: Seq<CalculationResult>,
    post: Seq<CalculationResult>,
    succeeded: bool,
) -> bool {
    if succeeded {
        post.len() == pre.len() + 1 && post.drop_last() == pre
    } else {
        post == pre
    }
}

/// The number of successes among `outcomes`.
pub open spec fn successes(outcomes: Seq<bool>) -> nat
    decreases outcomes.len(),
{
    if outcomes.len() == 0 {
        0
    } else {
        successes(outcomes.drop_last()) + if outcomes.last() { 1nat } else { 0nat }
    }
}

/// A calculator that records each successful operation, in the order of completion.
#[derive(Debug)]
pub struct Calculator {
    history: Vec<CalculationResult>,
}

impl View for Calculator {
    type V = Seq<CalculationResult>;

    /// The recorded operations, oldest first.
    closed spec fn view(&self) -> Seq<CalculationResult> {
        self.history@
    }
}

impl Calculator {
    /// A calculator with an empty history.
    pub fn new() -> (r: Self)
        ensures
            r@ == Seq::<CalculationResult>::empty(),
    {
        Calculator { history: Vec::new() }
    }

    fn record_operation(
        &mut self,
        operation: &str,
        operands: Vec<u64>,
        result: u64,
        timestamp: Timestamp,
    )
        ensures
            outcome_step(old(self)@, final(self)@, true),
            describes(final(self)@.last(), operation@, operands@, result),
            final(self)@.last().timestamp == timestamp,
    {
        let rec = CalculationResult {
            result,
            operation: String::from_str(operation),
            operands,
            timestamp,
        };
        self.history.push(rec);
        assert(self@.drop_last() =~= old(self)@);
    }

    /// Records the addition `a + b`, whose value is `sum`, and returns `sum`.
    pub fn add(&mut self, a: u64, b: u64, sum: u64) -> (r: u64)
        ensures
            r == sum,
            outcome_step(old(self)@, final(self)@, true),
            describes(final(self)@.last(), "add"@, seq![a, b], sum),
    {
        self.record_operation("add", vec![a, b], sum, now());
        sum
    }

    /// Records the subtraction `a - b`, whose value is `difference`, and returns it.
    pub fn subtract(&mut self, a: u64, b: u64, difference: u64) -> (r: u64)
        ensures
            r == difference,
            outcome_step(old(self)@, final(self)@, true),
            describes(final(self)@.last(), "subtract"@, seq![a, b], difference),
    {
        self.record_operation("subtract", vec![a, b], difference, now());
        difference
    }

    /// Records the multiplication `a * b`, whose value is `product`, and returns it.
    pub fn multiply(&mut self, a: u64, b: u64, product: u64) -> (r: u64)
        ensures
            r == product,
            outcome_step(old(self)@, final(self)@, true),
            describes(final(self)@.last(), "multiply"@, seq![a, b], product),
    {
        self.record_operation("multiply", vec![a, b], product, now());
        product
    }

    /// The division `a / b`, whose value is `quotient`: refused when `b` is a
    /// zero, otherwise recorded and `quotient` returned.
    pub fn divide(&mut self, a: u64, b: u64, quotient: u64) -> (r: Result<u64, CalculatorError>)
        ensures
            r is Err <==> is_zero_bits(b),
            r is Err ==> r matches Err(CalculatorError::DivisionByZero),
            r is Ok ==> r == Ok::<u64, CalculatorError>(quotient),
            outcome_step(old(self)@, final(self)@, r is Ok),
            r is Ok ==> describes(final(self)@.last(), "divide"@, seq![a, b], quotient),
    {
        if is_zero(b) {
            return Err(CalculatorError::DivisionByZero);
        }
        self.record_operation("divide", vec![a, b], quotient, now());
        Ok(quotient)
    }

    /// Records `base` raised to `exponent`, whose value is `value`, and returns it.
    pub fn power(&mut self, base: u64, exponent: u64, value: u64) -> (r: u64)
        ensures
            r == value,
            outcome_step(old(self)@, final(self)@, true),
            describes(final(self)@.last(), "power"@, seq![base, exponent], value),
    {
        self.record_operation("power", vec![base, exponent], value, now());
        value
    }

    /// The square root of `x`, whose value is `root`: refused when `x` is
    /// negative, otherwise recorded and `root` returned.
    pub fn sqrt(&mut self, x: u64, root: u64) -> (r: Result<u64, CalculatorError>)
        ensures
            r is Err <==> is_negative_bits(x),
            r is Err ==> r matches Err(CalculatorError::NegativeSquareRoot),
            r is Ok ==> r == Ok::<u64, CalculatorError>(root),
            outcome_step(old(self)@, final(self)@, r is Ok),
            r is Ok ==> describes(final(self)@.last(), "sqrt"@, seq![x], root),
    {
        if is_negative(x) {
            return Err(CalculatorError::NegativeSquareRoot);
        }
        let operands = vec![x];
        assert(operands@ =~= seq![x]);
        self.record_operation("sqrt", operands, root, now());
        Ok(root)
    }

    /// The recorded operations, oldest first.
    pub fn get_history(&self) -> (r: &[CalculationResult])
        ensures
            r@ == self@,
    {
        self.history.as_slice()
    }

    /// Discards every recorded operation.
    pub fn clear_history(&mut self)
        ensures
            final(self)@ == Seq::<CalculationResult>::empty(),
    {
        self.history.clear();
    }

    /// The number of recorded operations.
    pub fn history_count(&self) -> (r: usize)
        ensures
            r == self@.len(),
    {
        self.history.len()
    }
}

impl Default for Calculator {
    fn default() -> (r: Self)
        ensures
            r@ == Seq::<CalculationResult>::empty(),
    {
        Self::new()
    }
}

/// After a run of operations, each of which either succeeded or failed, the
/// history holds exactly one more record per success: failures add nothing.
/// Starting from a new calculator, N successes and M failures leave N records.
pub proof fn lemma_count_is_successes(
    histories: Seq<Seq<CalculationResult>>,
    outcomes: Seq<bool>,
)
    requires
        histories.len() == outcomes.len() + 1,
        forall|i: int|
            0 <= i < outcomes.len() ==> outcome_step(
                #[trigger] histories[i],
                histories[i + 1],
                outcomes[i],
            ),
    ensures
        histories.last().len() == histories[0].len() + successes(outcomes),
    decreases outcomes.len(),
{
    if outcomes.len() > 0 {
        let n = outcomes.len() - 1;
        lemma_count_is_successes(histories.drop_last(), outcomes.drop_last());
        assert(outcome_step(histories[n as int], histories[n + 1], outcomes[n as int]));
    }
}

} // verus!
