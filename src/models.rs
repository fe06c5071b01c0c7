use vstd::prelude::*;

use crate::date::Date;
use crate::decimal::Decimal;

verus! {

/// Available types of mortgage repayment.
#[derive(Clone, Copy, Debug, PartialEq, Eq, Structural)]
pub enum RepaymentType {
    /// Standard principal and interest payments
    StandardPrincipalAndInterest,
    /// Interest-only payments with principal due at end
    InterestOnly,
    /// Accelerated biweekly payments
    AcceleratedBiweekly,
    /// Regular payments with balloon payment at end
    BalloonPayment,
    /// Variable rate mortgage
    FloatingRate,
}

impl RepaymentType {
    pub open spec fn name_spec(self) -> Seq<char> {
        match self {
            RepaymentType::StandardPrincipalAndInterest => "Standard Principal and Interest"@,
            RepaymentType::InterestOnly => "Interest Only"@,
            RepaymentType::AcceleratedBiweekly => "Accelerated Biweekly"@,
            RepaymentType::BalloonPayment => "Balloon Payment"@,
            RepaymentType::FloatingRate => "Floating Rate"@,
        }
    }

    /// The human-readable name of this repayment type.
    pub fn display_name(&self) -> (r: String)
        ensures
            r@ == self.name_spec(),
    {
        match self {
            RepaymentType::StandardPrincipalAndInterest => "Standard Principal and Interest".to_owned(),
            RepaymentType::InterestOnly => "Interest Only".to_owned(),
            RepaymentType::AcceleratedBiweekly => "Accelerated Biweekly".to_owned(),
            RepaymentType::BalloonPayment => "Balloon Payment".to_owned(),
            RepaymentType::FloatingRate => "Floating Rate".to_owned(),
        }
    }

    pub open spec fn all_spec() -> Seq<RepaymentType> {
        seq![
            RepaymentType::StandardPrincipalAndInterest,
            RepaymentType::InterestOnly,
            RepaymentType::AcceleratedBiweekly,
            RepaymentType::BalloonPayment,
            RepaymentType::FloatingRate,
        ]
    }

    /// Returns all available repayment types, each once.
    pub fn all() -> (r: Vec<RepaymentType>)
        ensures
            r@ == RepaymentType::all_spec(),
            forall|t: RepaymentType| r@.contains(t),
    {
        let r = vec![
            RepaymentType::StandardPrincipalAndInterest,
            RepaymentType::InterestOnly,
            RepaymentType::AcceleratedBiweekly,
            RepaymentType::BalloonPayment,
            RepaymentType::FloatingRate,
        ];
        assert(r@ == RepaymentType::all_spec());
        assert forall|t: RepaymentType| r@.contains(t) by {
            match t {
                RepaymentType::StandardPrincipalAndInterest => assert(r@[0] == t),
                RepaymentType::InterestOnly => assert(r@[1] == t),
                RepaymentType::AcceleratedBiweekly => assert(r@[2] == t),
                RepaymentType::BalloonPayment => assert(r@[3] == t),
                RepaymentType::FloatingRate => assert(r@[4] == t),
            }
        }
        r
    }

    /// Returns whether this repayment type requires a balloon payment percentage.
    pub fn requires_balloon_percentage(&self) -> (r: bool)
        ensures
            r == (*self == RepaymentType::BalloonPayment),
    {
        match self {
            RepaymentType::BalloonPayment => true,
            _ => false,
        }
    }
}

/// A repayment type with its name, description and balloon requirement.
#[derive(Clone, Debug)]
pub struct RepaymentTypeInfo {
    pub repayment_type: RepaymentType,
    pub name: String,
    pub description: String,
    pub requires_balloon_percentage: bool,
}

impl RepaymentTypeInfo {
    pub open spec fn description_spec(t: RepaymentType) -> Seq<char> {
        match t {
            RepaymentType::StandardPrincipalAndInterest =>
                "Regular monthly payments of both principal and interest over the loan term."@,
            RepaymentType::InterestOnly =>
                "Pay only interest during the loan term with full principal due at the end."@,
            RepaymentType::AcceleratedBiweekly =>
                "Payments every two weeks, resulting in one extra monthly payment per year."@,
            RepaymentType::BalloonPayment =>
                "Regular payments with a large final balloon payment at the end of the term."@,
            RepaymentType::FloatingRate =>
                "Variable interest rate that changes monthly between 1-10% APR."@,
        }
    }

    /// The catalog entry of one repayment type.
    pub fn of(t: RepaymentType) -> (r: RepaymentTypeInfo)
        ensures
            r.repayment_type == t,
            r.name@ == t.name_spec(),
            r.description@ == RepaymentTypeInfo::description_spec(t),
            r.requires_balloon_percentage == (t == RepaymentType::BalloonPayment),
    {
        let description = match t {
            RepaymentType::StandardPrincipalAndInterest =>
                "Regular monthly payments of both principal and interest over the loan term.".to_owned(),
            RepaymentType::InterestOnly =>
                "Pay only interest during the loan term with full principal due at the end.".to_owned(),
            RepaymentType::AcceleratedBiweekly =>
                "Payments every two weeks, resulting in one extra monthly payment per year.".to_owned(),
            RepaymentType::BalloonPayment =>
                "Regular payments with a large final balloon payment at the end of the term.".to_owned(),
            RepaymentType::FloatingRate =>
                "Variable interest rate that changes monthly between 1-10% APR.".to_owned(),
        };
        RepaymentTypeInfo {
            repayment_type: t,
            name: t.display_name(),
            description,
            requires_balloon_percentage: t.requires_balloon_percentage(),
        }
    }

    /// The catalog: one entry per repayment type, in the order of `RepaymentType::all`.
    pub fn all() -> (r: Vec<RepaymentTypeInfo>)
        ensures
            r@.len() == 5,
            forall|i: int|
                0 <= i < 5 ==> {
                    let t = #[trigger] RepaymentType::all_spec()[i];
                    &&& r@[i].repayment_type == t
                    &&& r@[i].name@ == t.name_spec()
                    &&& r@[i].description@ == RepaymentTypeInfo::description_spec(t)
                    &&& r@[i].requires_balloon_percentage == (t == RepaymentType::BalloonPayment)
                },
    {
        let types = RepaymentType::all();
        let mut r: Vec<RepaymentTypeInfo> = Vec::new();
        let mut i: usize = 0;
        while i < types.len()
            invariant
                types@ == RepaymentType::all_spec(),
                0 <= i <= 5,
                r@.len() == i,
                forall|j: int|
                    0 <= j < i ==> {
                        let t = #[trigger] RepaymentType::all_spec()[j];
                        &&& r@[j].repayment_type == t
                        &&& r@[j].name@ == t.name_spec()
                        &&& r@[j].description@ == RepaymentTypeInfo::description_spec(t)
                        &&& r@[j].requires_balloon_percentage == (t
                            == RepaymentType::BalloonPayment)
                    },
            decreases 5 - i,
        {
            r.push(RepaymentTypeInfo::of(types[i]));
            i = i + 1;
        }
        r
    }
}

/// One payment of a schedule.
#[derive(Clone, Copy, Debug, PartialEq, Eq, Structural)]
pub struct PaymentScheduleEntry {
    /// Date when the payment is due
    pub payment_date: Date,
    /// Payment number in the sequence, from 1
    pub payment_number: u32,
    /// Total amount of this payment
    pub payment_amount: Decimal,
    /// Amount of payment going to principal
    pub principal_component: Decimal,
    /// Amount of payment going to interest
    pub interest_component: Decimal,
    /// Remaining principal after this payment
    pub remaining_principal: Decimal,
    /// Interest rate of this period
    pub current_rate: Option<Decimal>,
}

/// A complete amortization schedule.
#[derive(Clone, Debug)]
pub struct MortgageSchedule {
    /// Regular payment amount
    pub monthly_payment: Decimal,
    /// Sum of all payments over the loan term
    pub total_payments: Decimal,
    /// Total interest paid over the loan term
    pub total_interest: Decimal,
    /// Every payment, in order
    pub schedule: Vec<PaymentScheduleEntry>,
}

/// What a schedule holds, as mathematical values.
pub struct ScheduleModel {
    pub monthly_payment: Decimal,
    pub total_payments: Decimal,
    pub total_interest: Decimal,
    pub entries: Seq<PaymentScheduleEntry>,
}

impl View for MortgageSchedule {
    type V = ScheduleModel;

    open spec fn view(&self) -> ScheduleModel {
        ScheduleModel {
            monthly_payment: self.monthly_payment,
            total_payments: self.total_payments,
            total_interest: self.total_interest,
            entries: self.schedule@,
        }
    }
}

impl MortgageSchedule {
    /// Creates a schedule with the given totals and no payments yet.
    pub fn new(monthly_payment: Decimal, total_payments: Decimal, total_interest: Decimal) -> (r:
        MortgageSchedule)
        ensures
            r@ == (ScheduleModel {
                monthly_payment,
                total_payments,
                total_interest,
                entries: Seq::empty(),
            }),
    {
        MortgageSchedule { monthly_payment, total_payments, total_interest, schedule: Vec::new() }
    }

    /// Appends a payment to the schedule.
    pub fn add_payment(&mut self, entry: PaymentScheduleEntry)
        ensures
            final(self)@ == (ScheduleModel {
                entries: old(self)@.entries.push(entry),
                ..old(self)@
            }),
    {
        self.schedule.push(entry);
    }

    /// The number of payments in the schedule.
    pub fn payment_count(&self) -> (r: usize)
        ensures
            r == self@.entries.len(),
    {
        self.schedule.len()
    }
}

/// Summary figures of a mortgage calculation.
#[derive(Clone, Copy, Debug, PartialEq, Eq)]
pub struct MortgageSummary {
    /// Type of repayment used
    pub repayment_type: RepaymentType,
    /// Regular payment amount
    pub monthly_payment: Decimal,
    /// Total of all payments over loan term
    pub total_payments: Decimal,
    /// Total interest paid over loan term
    pub total_interest: Decimal,
    /// Total principal paid over loan term
    pub total_principal_paid: Decimal,
    /// Annual percentage rate
    pub apr: Decimal,
    /// Total number of payments
    pub number_of_payments: u32,
    /// Final balloon payment amount, where there is one
    pub balloon_payment: Option<Decimal>,
    /// Lowest and highest rate, for variable rate mortgages
    pub rate_range: Option<(Decimal, Decimal)>,
}

impl MortgageSummary {
    pub open spec fn new_spec(
        repayment_type: RepaymentType,
        monthly_payment: Decimal,
        total_payments: Decimal,
        total_interest: Decimal,
        total_principal_paid: Decimal,
        apr: Decimal,
        number_of_payments: u32,
    ) -> MortgageSummary {
        MortgageSummary {
            repayment_type,
            monthly_payment,
            total_payments,
            total_interest,
            total_principal_paid,
            apr,
            number_of_payments,
            balloon_payment: None,
            rate_range: None,
        }
    }

    /// Creates a summary with no balloon payment and no rate range.
    pub fn new(
        repayment_type: RepaymentType,
        monthly_payment: Decimal,
        total_payments: Decimal,
        total_interest: Decimal,
        total_principal_paid: Decimal,
        apr: Decimal,
        number_of_payments: u32,
    ) -> (r: MortgageSummary)
        ensures
            r == MortgageSummary::new_spec(
                repayment_type,
                monthly_payment,
                total_payments,
                total_interest,
                total_principal_paid,
                apr,
                number_of_payments,
            ),
    {
        MortgageSummary {
            repayment_type,
            monthly_payment,
            total_payments,
            total_interest,
            total_principal_paid,
            apr,
            number_of_payments,
            balloon_payment: None,
            rate_range: None,
        }
    }

    /// The same summary with a balloon payment amount.
    pub fn with_balloon_payment(self, amount: Decimal) -> (r: MortgageSummary)
        ensures
            r == (MortgageSummary { balloon_payment: Some(amount), ..self }),
    {
        MortgageSummary { balloon_payment: Some(amount), ..self }
    }

    /// The same summary with a rate range.
    pub fn with_rate_range(self, min_rate: Decimal, max_rate: Decimal) -> (r: MortgageSummary)
        ensures
            r == (MortgageSummary { rate_range: Some((min_rate, max_rate)), ..self }),
    {
        MortgageSummary { rate_range: Some((min_rate, max_rate)), ..self }
    }
}

} // verus!
