//! The payment record, its enumerations, its errors and its builder.
use vstd::prelude::*;

verus! {

/// Why a record does not make a valid descriptor: the field that failed, and why.
#[derive(Debug, PartialEq)]
pub enum SpaydError {
    InvalidAccountNumber(&'static str),
    InvalidAmount(&'static str),
    InvalidCurrency(&'static str),
    InvalidReference(&'static str),
    InvalidRecipient(&'static str),
    InvalidDate(&'static str),
    InvalidPaymentType(&'static str),
    InvalidMessage(&'static str),
    InvalidNotifyAddress(&'static str),
}

/// Payment type.
#[derive(Debug)]
pub enum PaymentType {
    /// Instant payment, where the bank offers it.
    Instant,
    /// Another payment type, of at most three characters.
    Other(String),
}

/// How the recipient wants to be notified.
#[derive(Debug)]
pub enum NotifyType {
    Phone,
    Email,
}

/// A payment record. `account` and `amount` are always present; the other
/// fields are optional. Nothing here is checked until the record is validated.
#[derive(Debug)]
pub struct Spayd {
    pub account: String,
    pub amount: String,
    pub currency: Option<String>,
    pub reference: Option<String>,
    pub recipient: Option<String>,
    pub date: Option<String>,
    pub payment_type: Option<PaymentType>,
    pub message: Option<String>,
    pub notify: Option<NotifyType>,
    pub notify_address: Option<String>,
}

/// First stage of building a record: the account is still missing.
pub struct SpaydBuilder {}

/// Second stage: the account is set, the amount is still missing.
pub struct SpaydBuilderWithAccount {
    pub account: String,
}

/// Last stage: both mandatory fields are set; optional fields may follow.
pub struct SpaydBuilderComplete {
    pub draft: Spayd,
}

impl Spayd {
    /// Starts a builder. `account` and then `amount` must be given before
    /// `build` becomes available.
    pub fn builder() -> (r: SpaydBuilder) {
        SpaydBuilder {  }
    }
}

impl SpaydBuilder {
    pub fn account(self, account: String) -> (r: SpaydBuilderWithAccount)
        ensures
            r.account == account,
    {
        SpaydBuilderWithAccount { account }
    }
}

impl SpaydBuilderWithAccount {
    pub fn amount(self, amount: String) -> (r: SpaydBuilderComplete)
        ensures
            r.draft.account == self.account,
            r.draft.amount == amount,
            r.draft.currency is None,
            r.draft.reference is None,
            r.draft.recipient is None,
            r.draft.date is None,
            r.draft.payment_type is None,
            r.draft.message is None,
            r.draft.notify is None,
            r.draft.notify_address is None,
    {
        SpaydBuilderComplete {
            draft: Spayd {
                account: self.account,
                amount,
                currency: None,
                reference: None,
                recipient: None,
                date: None,
                payment_type: None,
                message: None,
                notify: None,
                notify_address: None,
            },
        }
    }
}

impl SpaydBuilderComplete {
    pub fn currency(self, currency: String) -> (r: Self)
        ensures
            r.draft == (Spayd { currency: Some(currency), ..self.draft }),
    {
        SpaydBuilderComplete { draft: Spayd { currency: Some(currency), ..self.draft } }
    }

    pub fn reference(self, reference: String) -> (r: Self)
        ensures
            r.draft == (Spayd { reference: Some(reference), ..self.draft }),
    {
        SpaydBuilderComplete { draft: Spayd { reference: Some(reference), ..self.draft } }
    }

    pub fn recipient(self, recipient: String) -> (r: Self)
        ensures
            r.draft == (Spayd { recipient: Some(recipient), ..self.draft }),
    {
        SpaydBuilderComplete { draft: Spayd { recipient: Some(recipient), ..self.draft } }
    }

    pub fn date(self, date: String) -> (r: Self)
        ensures
            r.draft == (Spayd { date: Some(date), ..self.draft }),
    {
        SpaydBuilderComplete { draft: Spayd { date: Some(date), ..self.draft } }
    }

    pub fn payment_type(self, payment_type: PaymentType) -> (r: Self)
        ensures
            r.draft == (Spayd { payment_type: Some(payment_type), ..self.draft }),
    {
        SpaydBuilderComplete { draft: Spayd { payment_type: Some(payment_type), ..self.draft } }
    }

    pub fn message(self, message: String) -> (r: Self)
        ensures
            r.draft == (Spayd { message: Some(message), ..self.draft }),
    {
        SpaydBuilderComplete { draft: Spayd { message: Some(message), ..self.draft } }
    }

    pub fn notify(self, notify: NotifyType) -> (r: Self)
        ensures
            r.draft == (Spayd { notify: Some(notify), ..self.draft }),
    {
        SpaydBuilderComplete { draft: Spayd { notify: Some(notify), ..self.draft } }
    }

    pub fn notify_address(self, notify_address: String) -> (r: Self)
        ensures
            r.draft == (Spayd { notify_address: Some(notify_address), ..self.draft }),
    {
        SpaydBuilderComplete { draft: Spayd { notify_address: Some(notify_address), ..self.draft } }
    }

    pub fn build(self) -> (r: Spayd)
        ensures
            r == self.draft,
    {
        self.draft
    }
}

} // verus!
