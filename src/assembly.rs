//! The nine data-entry steps that make one invoice record, in their fixed
//! order, as a state that the caller feeds with answers.

use vstd::prelude::*;
use crate::config::{Account, Config, Customer, Supplier};
use crate::date::Date;

verus! {

/// The invoice number offered before the user types one.
pub const DEFAULT_INVOICE_NUMBER: i64 = 1;

/// A finished invoice: every piece of data that the document shows.
#[derive(Clone, Debug)]
pub struct InvoiceRecord {
    pub invoice_number: u64,
    pub issue_date: Date,
    pub service_date: Date,
    pub due_date: Date,
    pub supplier: Supplier,
    pub service: String,
    /// The amount in hundredths.
    pub amount: i64,
    pub account: Account,
    pub customer: Customer,
}

/// One data-entry step.
#[derive(Clone, Copy, Debug, PartialEq, Eq, Structural)]
pub enum Step {
    InvoiceNumber,
    IssueDate,
    ServiceDate,
    DueDate,
    Supplier,
    Service,
    Amount,
    Account,
    Customer,
}

/// What the user gave at a step. A choice from a configured list is the
/// position of the chosen entry; an amount is in hundredths.
#[derive(Clone, Copy, Debug, PartialEq, Eq, Structural)]
pub enum Answer {
    InvoiceNumber(i64),
    IssueDate(Date),
    ServiceDate(Date),
    DueDate(Date),
    Supplier(usize),
    Service(usize),
    Amount(i64),
    Account(usize),
    Customer(usize),
}

/// Why an answer was not taken.
#[derive(Clone, Copy, Debug, PartialEq, Eq, Structural)]
pub enum AnswerError {
    /// Nothing is asked any more: every step is done, or the run was aborted.
    Closed,
    /// The answer is for another step than the one being asked.
    WrongStep,
    /// The invoice number is below one.
    InvalidNumber,
    /// The date does not exist.
    InvalidDate,
    /// The position is past the end of the configured list.
    NoSuchEntry,
}

/// Whether `n` may be an invoice number.
pub open spec fn valid_invoice_number(n: int) -> bool {
    n >= 1
}

/// Whether `n` may be an invoice number: one or more.
pub fn is_valid_invoice_number(n: i64) -> (r: bool)
    ensures
        r == valid_invoice_number(n as int),
{
    n >= 1
}

impl Answer {
    pub open spec fn step_spec(&self) -> Step {
        match self {
            Answer::InvoiceNumber(_) => Step::InvoiceNumber,
            Answer::IssueDate(_) => Step::IssueDate,
            Answer::ServiceDate(_) => Step::ServiceDate,
            Answer::DueDate(_) => Step::DueDate,
            Answer::Supplier(_) => Step::Supplier,
            Answer::Service(_) => Step::Service,
            Answer::Amount(_) => Step::Amount,
            Answer::Account(_) => Step::Account,
            Answer::Customer(_) => Step::Customer,
        }
    }

    /// The step that this answer is for.
    pub fn step(&self) -> (r: Step)
        ensures
            r == self.step_spec(),
    {
        match self {
            Answer::InvoiceNumber(_) => Step::InvoiceNumber,
            Answer::IssueDate(_) => Step::IssueDate,
            Answer::ServiceDate(_) => Step::ServiceDate,
            Answer::DueDate(_) => Step::DueDate,
            Answer::Supplier(_) => Step::Supplier,
            Answer::Service(_) => Step::Service,
            Answer::Amount(_) => Step::Amount,
            Answer::Account(_) => Step::Account,
            Answer::Customer(_) => Step::Customer,
        }
    }
}

/// The data gathered so far for one invoice.
#[derive(Clone, Debug)]
pub struct Assembly {
    pub invoice_number: Option<u64>,
    pub issue_date: Option<Date>,
    pub service_date: Option<Date>,
    pub due_date: Option<Date>,
    pub supplier: Option<Supplier>,
    pub service: Option<String>,
    pub amount: Option<i64>,
    pub account: Option<Account>,
    pub customer: Option<Customer>,
    pub aborted: bool,
}

impl Assembly {
    /// What is held has passed the checks of its step.
    pub open spec fn wf(&self) -> bool {
        &&& self.invoice_number matches Some(n) ==> valid_invoice_number(n as int)
        &&& self.issue_date matches Some(d) ==> d.wf()
        &&& self.service_date matches Some(d) ==> d.wf()
        &&& self.due_date matches Some(d) ==> d.wf()
    }

    /// The step being asked: the first one without data, unless the run was
    /// aborted.
    pub open spec fn next_step_spec(&self) -> Option<Step> {
        if self.aborted {
            None
        } else if self.invoice_number is None {
            Some(Step::InvoiceNumber)
        } else if self.issue_date is None {
            Some(Step::IssueDate)
        } else if self.service_date is None {
            Some(Step::ServiceDate)
        } else if self.due_date is None {
            Some(Step::DueDate)
        } else if self.supplier is None {
            Some(Step::Supplier)
        } else if self.service is None {
            Some(Step::Service)
        } else if self.amount is None {
            Some(Step::Amount)
        } else if self.account is None {
            Some(Step::Account)
        } else if self.customer is None {
            Some(Step::Customer)
        } else {
            None
        }
    }

    /// The record that the gathered data makes: there is one only when the
    /// run was not aborted and every step has its data.
    pub open spec fn outcome(&self) -> Option<InvoiceRecord> {
        if !self.aborted && self.invoice_number is Some && self.issue_date is Some
            && self.service_date is Some && self.due_date is Some && self.supplier is Some
            && self.service is Some && self.amount is Some && self.account is Some
            && self.customer is Some {
            Some(
                InvoiceRecord {
                    invoice_number: self.invoice_number->0,
                    issue_date: self.issue_date->0,
                    service_date: self.service_date->0,
                    due_date: self.due_date->0,
                    supplier: self.supplier->0,
                    service: self.service->0,
                    amount: self.amount->0,
                    account: self.account->0,
                    customer: self.customer->0,
                },
            )
        } else {
            None
        }
    }

    /// Nothing gathered yet.
    pub open spec fn is_empty(&self) -> bool {
        &&& self.invoice_number is None
        &&& self.issue_date is None
        &&& self.service_date is None
        &&& self.due_date is None
        &&& self.supplier is None
        &&& self.service is None
        &&& self.amount is None
        &&& self.account is None
        &&& self.customer is None
        &&& !self.aborted
    }

    /// The refusal that `answer` gives to `a`, if any.
    pub open spec fn refusal(&self, config: &Config, a: Answer) -> Option<AnswerError> {
        match self.next_step_spec() {
            None => Some(AnswerError::Closed),
            Some(step) => if a.step_spec() != step {
                Some(AnswerError::WrongStep)
            } else {
                match a {
                    Answer::InvoiceNumber(n) => if valid_invoice_number(n as int) {
                        None
                    } else {
                        Some(AnswerError::InvalidNumber)
                    },
                    Answer::IssueDate(d) => if d.wf() { None } else { Some(AnswerError::InvalidDate) },
                    Answer::ServiceDate(d) => if d.wf() { None } else { Some(AnswerError::InvalidDate) },
                    Answer::DueDate(d) => if d.wf() { None } else { Some(AnswerError::InvalidDate) },
                    Answer::Supplier(i) => if i < config.suppliers@.len() {
                        None
                    } else {
                        Some(AnswerError::NoSuchEntry)
                    },
                    Answer::Service(i) => if i < config.services@.len() {
                        None
                    } else {
                        Some(AnswerError::NoSuchEntry)
                    },
                    Answer::Amount(_) => None,
                    Answer::Account(i) => if i < config.accounts@.len() {
                        None
                    } else {
                        Some(AnswerError::NoSuchEntry)
                    },
                    Answer::Customer(i) => if i < config.customers@.len() {
                        None
                    } else {
                        Some(AnswerError::NoSuchEntry)
                    },
                }
            },
        }
    }

    /// The state after a taken answer: its step holds the given value, or the
    /// chosen entry of the configured list.
    pub open spec fn taken(&self, config: &Config, a: Answer) -> Assembly {
        match a {
            Answer::InvoiceNumber(n) => Assembly { invoice_number: Some(n as u64), ..*self },
            Answer::IssueDate(d) => Assembly { issue_date: Some(d), ..*self },
            Answer::ServiceDate(d) => Assembly { service_date: Some(d), ..*self },
            Answer::DueDate(d) => Assembly { due_date: Some(d), ..*self },
            Answer::Supplier(i) => Assembly { supplier: Some(config.suppliers@[i as int]), ..*self },
            Answer::Service(i) => Assembly { service: Some(config.services@[i as int]), ..*self },
            Answer::Amount(c) => Assembly { amount: Some(c), ..*self },
            Answer::Account(i) => Assembly { account: Some(config.accounts@[i as int]), ..*self },
            Answer::Customer(i) => Assembly { customer: Some(config.customers@[i as int]), ..*self },
        }
    }

    /// A fresh assembly, asking for the invoice number first.
    pub fn new() -> (r: Assembly)
        ensures
            r.wf(),
            r.is_empty(),
            r.next_step_spec() == Some(Step::InvoiceNumber),
    {
        Assembly {
            invoice_number: None,
            issue_date: None,
            service_date: None,
            due_date: None,
            supplier: None,
            service: None,
            amount: None,
            account: None,
            customer: None,
            aborted: false,
        }
    }

    /// The step being asked, if any.
    pub fn next_step(&self) -> (r: Option<Step>)
        ensures
            r == self.next_step_spec(),
    {
        if self.aborted {
            None
        } else if self.invoice_number.is_none() {
            Some(Step::InvoiceNumber)
        } else if self.issue_date.is_none() {
            Some(Step::IssueDate)
        } else if self.service_date.is_none() {
            Some(Step::ServiceDate)
        } else if self.due_date.is_none() {
            Some(Step::DueDate)
        } else if self.supplier.is_none() {
            Some(Step::Supplier)
        } else if self.service.is_none() {
            Some(Step::Service)
        } else if self.amount.is_none() {
            Some(Step::Amount)
        } else if self.account.is_none() {
            Some(Step::Account)
        } else if self.customer.is_none() {
            Some(Step::Customer)
        } else {
            None
        }
    }

    /// Takes the answer to the step being asked. A refused answer leaves the
    /// state as it was, and the same step is asked again.
    pub fn answer(&mut self, config: &Config, a: Answer) -> (r: Result<(), AnswerError>)
        requires
            old(self).wf(),
        ensures
            final(self).wf(),
            match old(self).refusal(config, a) {
                Some(e) => r == Err::<(), AnswerError>(e) && *final(self) == *old(self),
                None => r is Ok && *final(self) == old(self).taken(config, a),
            },
    {
        let step = match self.next_step() {
            None => return Err(AnswerError::Closed),
            Some(s) => s,
        };
        if a.step() != step {
            return Err(AnswerError::WrongStep);
        }
        match a {
            Answer::InvoiceNumber(n) => {
                if !is_valid_invoice_number(n) {
                    return Err(AnswerError::InvalidNumber);
                }
                self.invoice_number = Some(n as u64);
            },
            Answer::IssueDate(d) => {
                if Date::new(d.year, d.month, d.day).is_none() {
                    return Err(AnswerError::InvalidDate);
                }
                self.issue_date = Some(d);
            },
            Answer::ServiceDate(d) => {
                if Date::new(d.year, d.month, d.day).is_none() {
                    return Err(AnswerError::InvalidDate);
                }
                self.service_date = Some(d);
            },
            Answer::DueDate(d) => {
                if Date::new(d.year, d.month, d.day).is_none() {
                    return Err(AnswerError::InvalidDate);
                }
                self.due_date = Some(d);
            },
            Answer::Supplier(i) => {
                if i >= config.suppliers.len() {
                    return Err(AnswerError::NoSuchEntry);
                }
                self.supplier = Some(config.suppliers[i].duplicate());
            },
            Answer::Service(i) => {
                if i >= config.services.len() {
                    return Err(AnswerError::NoSuchEntry);
                }
                self.service = Some(config.services[i].clone());
            },
            Answer::Amount(c) => {
                self.amount = Some(c);
            },
            Answer::Account(i) => {
                if i >= config.accounts.len() {
                    return Err(AnswerError::NoSuchEntry);
                }
                self.account = Some(config.accounts[i].duplicate());
            },
            Answer::Customer(i) => {
                if i >= config.customers.len() {
                    return Err(AnswerError::NoSuchEntry);
                }
                self.customer = Some(config.customers[i].duplicate());
            },
        }
        Ok(())
    }

    /// Stops the run: no step is asked any more and no record comes out.
    pub fn abort(&mut self)
        ensures
            *final(self) == (Assembly { aborted: true, ..*old(self) }),
    {
        self.aborted = true;
    }

    /// The finished record, when every step has its data and the run was not
    /// aborted.
    pub fn finish(self) -> (r: Option<InvoiceRecord>)
        requires
            self.wf(),
        ensures
            r == self.outcome(),
            r matches Some(rec) ==> valid_invoice_number(rec.invoice_number as int)
                && rec.issue_date.wf() && rec.service_date.wf() && rec.due_date.wf(),
    {
        if self.aborted {
            return None;
        }
        match (self.invoice_number, self.issue_date, self.service_date, self.due_date) {
            (Some(invoice_number), Some(issue_date), Some(service_date), Some(due_date)) => {
                match (self.supplier, self.service, self.amount, self.account, self.customer) {
                    (Some(supplier), Some(service), Some(amount), Some(account), Some(customer)) => {
                        Some(
                            InvoiceRecord {
                                invoice_number,
                                issue_date,
                                service_date,
                                due_date,
                                supplier,
                                service,
                                amount,
                                account,
                                customer,
                            },
                        )
                    },
                    _ => None,
                }
            },
            _ => None,
        }
    }
}

/// All or nothing: an aborted run yields no record, whatever was gathered, and
/// takes no further answer; a run with a step still open yields no record.
pub proof fn lemma_all_or_nothing(s: Assembly, config: Config, a: Answer)
    ensures
        (Assembly { aborted: true, ..s }).outcome() is None,
        (Assembly { aborted: true, ..s }).refusal(&config, a) == Some(AnswerError::Closed),
        s.next_step_spec() is Some ==> s.outcome() is None,
        s.outcome() is Some <==> !s.aborted && s.next_step_spec() is None,
{
}

} // verus!
