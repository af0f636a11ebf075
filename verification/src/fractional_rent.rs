//! A simulated lease taking fractional rent payments across billing
//! epochs, with the invariants its payment record must keep.
//!
//! Calendar dates (a lease's end, the next month boundary, prorated rents)
//! come from the lease calendar and are passed in.
use vstd::prelude::*;

verus! {

/// Seconds in the approximate billing month used to number cycles.
pub const APPROX_MONTH_SECONDS: u64 = 2_592_000;

/// A payment offered to a simulated lease.
#[derive(Copy, Clone, Debug, Eq, PartialEq, Structural)]
pub struct FractionalPayment {
    pub payment_timestamp: u64,
    /// Amount paid, possibly a fraction of the monthly rent.
    pub payment_amount: i64,
    /// Whether the payment crosses a month boundary.
    pub crosses_boundary: bool,
}

/// A recorded payment.
#[derive(Copy, Clone, Debug, Eq, PartialEq, Structural)]
pub struct PaymentRecord {
    pub timestamp: u64,
    pub amount: i64,
    pub billing_cycle: u32,
    pub prorated_amount: Option<i64>,
}

/// The boundaries a scenario exercises.
#[derive(Copy, Clone, Debug, Eq, PartialEq, Structural)]
pub enum BoundaryType {
    MonthBoundary,
    LeapYearBoundary,
    QuarterBoundary,
    YearBoundary,
    MultipleBoundaries,
    NoBoundary,
}

/// How a scenario is checked.
#[derive(Copy, Clone, Debug, Eq, PartialEq, Structural)]
pub struct TestConfig {
    pub strict_invariants: bool,
    pub test_idempotency: bool,
    pub extreme_values: bool,
}

/// Why a payment was refused.
#[derive(Copy, Clone, Debug, Eq, PartialEq, Structural)]
pub enum PaymentError {
    PaymentBeforeLeaseStart,
    PaymentAfterLeaseEnd,
    InvalidAmount,
    Overflow,
}

/// An invariant a simulated lease broke.
#[derive(Copy, Clone, Debug, Eq, PartialEq, Structural)]
pub enum InvariantViolation {
    NegativeTotalPaid,
    NegativeOutstandingBalance,
    PaymentHistoryMismatch { expected: i64, actual: i64 },
    NonMonotonicBillingCycles,
    NonMonotonicTimestamps,
    ProratedCalculationError,
}

/// A simulated lease.
#[derive(Clone, Debug)]
pub struct SimulatedLease {
    pub monthly_rent: i64,
    pub start_timestamp: u64,
    pub end_timestamp: u64,
    pub total_paid: i64,
    pub outstanding_balance: i64,
    pub last_payment_timestamp: u64,
    pub billing_cycle_count: u32,
    pub payment_history: Vec<PaymentRecord>,
}

/// The sum of the amounts of `history`.
pub open spec fn paid_sum(history: Seq<PaymentRecord>) -> int
    decreases history.len(),
{
    if history.len() == 0 {
        0
    } else {
        paid_sum(history.drop_last()) + history.last().amount
    }
}

/// Every running total of the amounts of `history` fits an `i64`.
pub open spec fn running_sums_fit(history: Seq<PaymentRecord>) -> bool {
    forall|k: int| 0 <= k <= history.len() ==> #[trigger] paid_sum(history.take(k)) <= i64::MAX
        && paid_sum(history.take(k)) >= i64::MIN
}

/// The first invariant `lease` breaks, if any, in the order they are
/// checked: a negative total, a negative balance, a history that does not
/// add up to the total, cycles or timestamps going backwards.
pub open spec fn first_violation(lease: SimulatedLease) -> Option<InvariantViolation> {
    let h = lease.payment_history@;
    if lease.total_paid < 0 {
        Some(InvariantViolation::NegativeTotalPaid)
    } else if lease.outstanding_balance < 0 {
        Some(InvariantViolation::NegativeOutstandingBalance)
    } else if paid_sum(h) != lease.total_paid {
        Some(
            InvariantViolation::PaymentHistoryMismatch {
                expected: lease.total_paid,
                actual: paid_sum(h) as i64,
            },
        )
    } else if exists|i: int| 0 <= i < h.len() - 1 && #[trigger] h[i + 1].billing_cycle < h[i].billing_cycle {
        Some(InvariantViolation::NonMonotonicBillingCycles)
    } else if exists|i: int| 0 <= i < h.len() - 1 && #[trigger] h[i + 1].timestamp < h[i].timestamp {
        Some(InvariantViolation::NonMonotonicTimestamps)
    } else {
        None
    }
}

/// The billing cycle of `timestamp` for a lease starting at `start`:
/// whole approximate months since the start, 0 before it.
pub open spec fn billing_cycle(start: u64, timestamp: u64) -> u32 {
    if timestamp < start {
        0
    } else {
        ((timestamp - start) / (APPROX_MONTH_SECONDS as int)) as u32
    }
}

/// No recorded payment lies in a cycle beyond `count`.
pub open spec fn cycles_counted(history: Seq<PaymentRecord>, count: u32) -> bool {
    forall|i: int| 0 <= i < history.len() ==> #[trigger] history[i].billing_cycle <= count
}

/// Rust's `a.saturating_sub(b)` on `i64`.
pub open spec fn i64_saturating_sub(a: i64, b: i64) -> i64 {
    if a - b > i64::MAX {
        i64::MAX
    } else if a - b < i64::MIN {
        i64::MIN
    } else {
        (a - b) as i64
    }
}

/// What a payment is answered, success aside.
pub open spec fn payment_outcome(lease: SimulatedLease, payment: FractionalPayment) -> Result<
    (),
    PaymentError,
> {
    window_outcome(lease.start_timestamp, lease.end_timestamp, payment)
}

/// What a payment is answered by a lease running from `start` to `end`,
/// success aside.
pub open spec fn window_outcome(start: u64, end: u64, payment: FractionalPayment) -> Result<
    (),
    PaymentError,
> {
    if payment.payment_timestamp < start {
        Err(PaymentError::PaymentBeforeLeaseStart)
    } else if payment.payment_timestamp > end {
        Err(PaymentError::PaymentAfterLeaseEnd)
    } else if payment.payment_amount <= 0 {
        Err(PaymentError::InvalidAmount)
    } else {
        Ok(())
    }
}

/// Whether `year` is a leap year of the Gregorian calendar.
pub open spec fn leap_year(year: int) -> bool {
    (year % 4 == 0 && year % 100 != 0) || year % 400 == 0
}

/// Whether `year` is a leap year of the Gregorian calendar.
pub fn is_leap_year(year: u64) -> (r: bool)
    ensures
        r == leap_year(year as int),
{
    (year % 4 == 0 && year % 100 != 0) || (year % 400 == 0)
}

/// Whether `month` of `year` is a February next to a leap year: in a leap
/// year, or just before or after one.
pub fn is_near_leap_year_boundary(year: u64, month: u8) -> (r: bool)
    requires
        1 <= year < u64::MAX,
    ensures
        r == (month == 2 && (leap_year(year as int) || leap_year(year + 1) || leap_year(year - 1))),
{
    if month == 2 {
        return is_leap_year(year) || is_leap_year(year + 1) || is_leap_year(year - 1);
    }
    false
}

/// Whether any payment crosses a month boundary.
pub fn has_month_boundary_crossing(payments: &[FractionalPayment]) -> (r: bool)
    ensures
        r == exists|i: int| 0 <= i < payments@.len() && #[trigger] payments@[i].crosses_boundary,
{
    let mut i: usize = 0;
    while i < payments.len()
        invariant
            0 <= i <= payments@.len(),
            forall|j: int| 0 <= j < i ==> !payments@[j].crosses_boundary,
        decreases payments@.len() - i,
    {
        if payments[i].crosses_boundary {
            assert(payments@[i as int].crosses_boundary);
            return true;
        }
        i = i + 1;
    }
    false
}

impl SimulatedLease {
    /// A lease of `monthly_rent` running from `start_timestamp` to
    /// `end_timestamp`, nothing paid and the first rent outstanding.
    pub fn new(monthly_rent: i64, start_timestamp: u64, end_timestamp: u64) -> (r: Self)
        ensures
            r.monthly_rent == monthly_rent,
            r.start_timestamp == start_timestamp,
            r.end_timestamp == end_timestamp,
            r.total_paid == 0,
            r.outstanding_balance == monthly_rent,
            r.last_payment_timestamp == 0,
            r.billing_cycle_count == 0,
            r.payment_history@ == Seq::<PaymentRecord>::empty(),
    {
        SimulatedLease {
            monthly_rent,
            start_timestamp,
            end_timestamp,
            total_paid: 0,
            outstanding_balance: monthly_rent,
            last_payment_timestamp: 0,
            billing_cycle_count: 0,
            payment_history: Vec::new(),
        }
    }

    /// The billing cycle of `timestamp`.
    pub fn get_billing_cycle(&self, timestamp: u64) -> (r: u32)
        ensures
            r == billing_cycle(self.start_timestamp, timestamp),
    {
        if timestamp < self.start_timestamp {
            return 0;
        }
        let elapsed_seconds = timestamp - self.start_timestamp;
        let approx_months = elapsed_seconds / APPROX_MONTH_SECONDS;
        approx_months as u32
    }

    /// Takes a payment: the amount is added to the total; a payment in a
    /// later cycle than any before moves the count to that cycle and starts
    /// the balance of that cycle from one rent; the amount is then taken off
    /// the balance; the payment is
    /// recorded with `prorated`, the rent prorated up to the next month
    /// boundary where the payment crosses one and it could be computed.
    pub fn process_fractional_payment(&mut self, payment: &FractionalPayment, prorated: Option<i64>) -> (r:
        Result<(), PaymentError>)
        requires
            payment_outcome(*old(self), *payment) is Ok ==> old(self).total_paid
                + payment.payment_amount <= i64::MAX,
        ensures
            r == payment_outcome(*old(self), *payment),
            r is Err ==> *final(self) == *old(self),
            paid_sum(old(self).payment_history@) == old(self).total_paid ==> paid_sum(
                final(self).payment_history@,
            ) == final(self).total_paid,
            cycles_counted(old(self).payment_history@, old(self).billing_cycle_count)
                ==> cycles_counted(final(self).payment_history@, final(self).billing_cycle_count),
            r is Ok ==> {
                let cycle = billing_cycle(old(self).start_timestamp, payment.payment_timestamp);
                let new_cycle = cycle > old(self).billing_cycle_count;
                &&& final(self).total_paid == old(self).total_paid + payment.payment_amount
                &&& final(self).outstanding_balance == if new_cycle {
                    i64_saturating_sub(old(self).monthly_rent, payment.payment_amount)
                } else {
                    i64_saturating_sub(old(self).outstanding_balance, payment.payment_amount)
                }
                &&& final(self).billing_cycle_count == if new_cycle {
                    cycle
                } else {
                    old(self).billing_cycle_count
                }
                &&& final(self).last_payment_timestamp == payment.payment_timestamp
                &&& final(self).payment_history@ == old(self).payment_history@.push(
                    PaymentRecord {
                        timestamp: payment.payment_timestamp,
                        amount: payment.payment_amount,
                        billing_cycle: cycle,
                        prorated_amount: if payment.crosses_boundary {
                            prorated
                        } else {
                            None
                        },
                    },
                )
                &&& final(self).monthly_rent == old(self).monthly_rent
                &&& final(self).start_timestamp == old(self).start_timestamp
                &&& final(self).end_timestamp == old(self).end_timestamp
            },
    {
        if payment.payment_timestamp < self.start_timestamp {
            return Err(PaymentError::PaymentBeforeLeaseStart);
        }
        if payment.payment_timestamp > self.end_timestamp {
            return Err(PaymentError::PaymentAfterLeaseEnd);
        }
        if payment.payment_amount <= 0 {
            return Err(PaymentError::InvalidAmount);
        }
        let billing_cycle = self.get_billing_cycle(payment.payment_timestamp);
        let prorated_amount = if payment.crosses_boundary {
            prorated
        } else {
            None
        };
        self.total_paid = self.total_paid + payment.payment_amount;
        // A payment in a new cycle starts that cycle's balance from a full rent.
        let owed = if billing_cycle > self.billing_cycle_count {
            self.billing_cycle_count = billing_cycle;
            self.monthly_rent
        } else {
            self.outstanding_balance
        };
        let difference = owed as i128 - payment.payment_amount as i128;
        self.outstanding_balance = if difference > i64::MAX as i128 {
            i64::MAX
        } else if difference < i64::MIN as i128 {
            i64::MIN
        } else {
            difference as i64
        };
        self.last_payment_timestamp = payment.payment_timestamp;
        let ghost before = self.payment_history@;
        self.payment_history.push(
            PaymentRecord {
                timestamp: payment.payment_timestamp,
                amount: payment.payment_amount,
                billing_cycle,
                prorated_amount,
            },
        );
        assert(self.payment_history@.drop_last() =~= before);
        Ok(())
    }

    /// Checks the lease's invariants and reports the first one broken.
    pub fn verify_invariants(&self) -> (r: Result<(), InvariantViolation>)
        requires
            running_sums_fit(self.payment_history@),
        ensures
            match first_violation(*self) {
                Some(v) => r == Err::<(), InvariantViolation>(v),
                None => r is Ok,
            },
    {
        if self.total_paid < 0 {
            return Err(InvariantViolation::NegativeTotalPaid);
        }
        if self.outstanding_balance < 0 {
            return Err(InvariantViolation::NegativeOutstandingBalance);
        }
        let h = &self.payment_history;
        let mut history_sum: i64 = 0;
        let mut i: usize = 0;
        while i < h.len()
            invariant
                0 <= i <= h@.len(),
                history_sum == paid_sum(h@.take(i as int)),
                running_sums_fit(h@),
            decreases h@.len() - i,
        {
            assert(h@.take(i as int + 1).drop_last() =~= h@.take(i as int));
            assert(paid_sum(h@.take(i as int + 1)) <= i64::MAX);
            assert(paid_sum(h@.take(i as int + 1)) >= i64::MIN);
            history_sum = history_sum + h[i].amount;
            i = i + 1;
        }
        assert(h@.take(h@.len() as int) =~= h@);
        if history_sum != self.total_paid {
            return Err(
                InvariantViolation::PaymentHistoryMismatch {
                    expected: self.total_paid,
                    actual: history_sum,
                },
            );
        }
        let mut j: usize = 1;
        while j < h.len()
            invariant
                1 <= j,
                j <= h@.len() || h@.len() == 0,
                h@ == self.payment_history@,
                self.total_paid >= 0,
                self.outstanding_balance >= 0,
                paid_sum(h@) == self.total_paid,
                forall|k: int| 0 <= k < j - 1 && k < h@.len() - 1 ==> !(#[trigger] h@[k
                    + 1].billing_cycle < h@[k].billing_cycle),
            decreases h@.len() - j,
        {
            if h[j].billing_cycle < h[j - 1].billing_cycle {
                assert(h@[(j - 1) + 1].billing_cycle < h@[j - 1].billing_cycle);
                return Err(InvariantViolation::NonMonotonicBillingCycles);
            }
            j = j + 1;
        }
        let mut j: usize = 1;
        while j < h.len()
            invariant
                1 <= j,
                j <= h@.len() || h@.len() == 0,
                h@ == self.payment_history@,
                self.total_paid >= 0,
                self.outstanding_balance >= 0,
                paid_sum(h@) == self.total_paid,
                forall|k: int| 0 <= k < j - 1 && k < h@.len() - 1 ==> !(#[trigger] h@[k
                    + 1].timestamp < h@[k].timestamp),
                !exists|k: int| 0 <= k < h@.len() - 1 && #[trigger] h@[k + 1].billing_cycle < h@[k].billing_cycle,
            decreases h@.len() - j,
        {
            if h[j].timestamp < h[j - 1].timestamp {
                assert(h@[(j - 1) + 1].timestamp < h@[j - 1].timestamp);
                return Err(InvariantViolation::NonMonotonicTimestamps);
            }
            j = j + 1;
        }
        Ok(())
    }
}

} // verus!

verus! {

/// Offers the same payment to two fresh leases and reports whether the
/// second lease's total is the first one's plus the payment, as the
/// idempotency property claims whenever the second payment is accepted.
/// Both leases take the payment alike, so the claim holds exactly when the
/// payment is refused.
pub fn test_payment_idempotency(
    monthly_rent: i64,
    start_timestamp: u64,
    end_timestamp: u64,
    payment: &FractionalPayment,
    prorated: Option<i64>,
) -> (r: bool)
    requires
        window_outcome(start_timestamp, end_timestamp, *payment) is Ok ==> 2 * payment.payment_amount
            <= i64::MAX,
    ensures
        r == (window_outcome(start_timestamp, end_timestamp, *payment) is Err),
{
    let mut lease1 = SimulatedLease::new(monthly_rent, start_timestamp, end_timestamp);
    let mut lease2 = SimulatedLease::new(monthly_rent, start_timestamp, end_timestamp);
    let _ = lease1.process_fractional_payment(payment, prorated);
    let result2 = lease2.process_fractional_payment(payment, prorated);
    if result2.is_ok() {
        lease2.total_paid == lease1.total_paid + payment.payment_amount
    } else {
        true
    }
}

/// Pays a tenth of a very large rent one day into a lease from
/// `start_timestamp` to `end_timestamp` and reports whether the lease's
/// invariants still hold afterwards (a refused payment is acceptable).
/// They always do.
pub fn verify_extreme_value_handling(_monthly_rent: i64, start_timestamp: u64, end_timestamp: u64) -> (r:
    bool)
    requires
        start_timestamp <= u64::MAX - 86400,
    ensures
        r,
{
    let large_rent = i64::MAX / 1000;
    let mut lease = SimulatedLease::new(large_rent, start_timestamp, end_timestamp);
    let payment = FractionalPayment {
        payment_timestamp: start_timestamp + 86400,
        payment_amount: large_rent / 10,
        crosses_boundary: false,
    };
    match lease.process_fractional_payment(&payment, None) {
        Ok(()) => {
            proof {
                let h = lease.payment_history@;
                assert(h.len() == 1);
                assert(h.take(0) =~= Seq::<PaymentRecord>::empty());
                assert(h.take(1) =~= h);
                assert(h.drop_last() =~= Seq::<PaymentRecord>::empty());
                assert(running_sums_fit(h));
            }
            lease.verify_invariants().is_ok()
        },
        Err(_) => true,
    }
}

} // verus!
