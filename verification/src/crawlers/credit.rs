//! The canonical record of one credit offer.

use vstd::prelude::*;

verus! {

/// The closed set of credit categories.
#[derive(Debug, Clone, Copy, PartialEq, Eq, Structural)]
pub enum CreditType {
    Auto,
    Mortgage,
    Micro,
    Education,
    Consumer,
    Overdraft,
    CreditCard,
    Other,
}

/// One credit offer, independent of the site it was read from. The texts are
/// kept as the site renders them; an attribute that a site does not expose
/// stays empty, or `false`.
#[derive(Debug)]
pub struct Credit {
    pub initial_fee: String,
    pub interest_rate: String,
    pub credit_period: String,
    pub max_sum: String,
    pub credit_type: CreditType,
    pub title: String,
    pub currency: String,
    /// Rate charged on overdue principal.
    pub overdue_interest_rate: String,
    /// How the money is handed over.
    pub type_of_interest_rate: String,
    pub grace_period: String,
    pub document_required: String,
    pub early_repayment: bool,
    pub loan_security: String,
    pub loan_processing_method: String,
    pub frequency_of_payments: String,
    pub additional_conditions: String,
}

/// The mathematical value of a [`Credit`].
pub struct CreditView {
    pub initial_fee: Seq<char>,
    pub interest_rate: Seq<char>,
    pub credit_period: Seq<char>,
    pub max_sum: Seq<char>,
    pub credit_type: CreditType,
    pub title: Seq<char>,
    pub currency: Seq<char>,
    pub overdue_interest_rate: Seq<char>,
    pub type_of_interest_rate: Seq<char>,
    pub grace_period: Seq<char>,
    pub document_required: Seq<char>,
    pub early_repayment: bool,
    pub loan_security: Seq<char>,
    pub loan_processing_method: Seq<char>,
    pub frequency_of_payments: Seq<char>,
    pub additional_conditions: Seq<char>,
}

impl CreditView {
    /// The offer of which nothing is known yet: every text empty, no early
    /// repayment, and the first category.
    pub open spec fn blank() -> CreditView {
        CreditView {
            initial_fee: Seq::empty(),
            interest_rate: Seq::empty(),
            credit_period: Seq::empty(),
            max_sum: Seq::empty(),
            credit_type: CreditType::Auto,
            title: Seq::empty(),
            currency: Seq::empty(),
            overdue_interest_rate: Seq::empty(),
            type_of_interest_rate: Seq::empty(),
            grace_period: Seq::empty(),
            document_required: Seq::empty(),
            early_repayment: false,
            loan_security: Seq::empty(),
            loan_processing_method: Seq::empty(),
            frequency_of_payments: Seq::empty(),
            additional_conditions: Seq::empty(),
        }
    }
}

impl View for Credit {
    type V = CreditView;

    open spec fn view(&self) -> CreditView {
        CreditView {
            initial_fee: self.initial_fee@,
            interest_rate: self.interest_rate@,
            credit_period: self.credit_period@,
            max_sum: self.max_sum@,
            credit_type: self.credit_type,
            title: self.title@,
            currency: self.currency@,
            overdue_interest_rate: self.overdue_interest_rate@,
            type_of_interest_rate: self.type_of_interest_rate@,
            grace_period: self.grace_period@,
            document_required: self.document_required@,
            early_repayment: self.early_repayment,
            loan_security: self.loan_security@,
            loan_processing_method: self.loan_processing_method@,
            frequency_of_payments: self.frequency_of_payments@,
            additional_conditions: self.additional_conditions@,
        }
    }
}

impl DeepView for Credit {
    type V = CreditView;

    open spec fn deep_view(&self) -> CreditView {
        self@
    }
}

impl Credit {
    /// The blank offer.
    pub fn new() -> (r: Credit)
        ensures
            r@ == CreditView::blank(),
    {
        Credit {
            initial_fee: String::new(),
            interest_rate: String::new(),
            credit_period: String::new(),
            max_sum: String::new(),
            credit_type: CreditType::Auto,
            title: String::new(),
            currency: String::new(),
            overdue_interest_rate: String::new(),
            type_of_interest_rate: String::new(),
            grace_period: String::new(),
            document_required: String::new(),
            early_repayment: false,
            loan_security: String::new(),
            loan_processing_method: String::new(),
            frequency_of_payments: String::new(),
            additional_conditions: String::new(),
        }
    }
}

} // verus!
