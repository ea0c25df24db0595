//! Field-by-field validation of a payment record, stopping at the first failure.
use vstd::prelude::*;
use crate::currency::{is_iso_4217_alpha, known_currency};
use crate::grammar::{
    chars_of, date_shape, is_upper, decimal_shape, digits_shape, email_shape, free_text_shape, iban_shape,
    is_date, is_decimal, is_digits, is_email, is_free_text, is_iban, is_phone, phone_shape,
};
use crate::record::{NotifyType, PaymentType, Spayd, SpaydError};

verus! {

pub open spec fn account_error(account: Seq<char>) -> Option<SpaydError> {
    if !iban_shape(account) {
        Some(SpaydError::InvalidAccountNumber("Value is not a valid IBAN"))
    } else {
        None
    }
}

pub open spec fn amount_error(amount: Seq<char>) -> Option<SpaydError> {
    if amount.len() > 10 {
        Some(SpaydError::InvalidAmount("Exceeded maximum length of 10 characters"))
    } else if !decimal_shape(amount) {
        Some(
            SpaydError::InvalidAmount(
                "Value is not in a decimal format. Maximum number of decimal places is 2.",
            ),
        )
    } else {
        None
    }
}

/// `known` is whether the currency table holds the code.
pub open spec fn currency_error(currency: Option<String>, known: bool) -> Option<SpaydError> {
    if currency is Some && !known {
        Some(SpaydError::InvalidCurrency("Invalid currency code"))
    } else {
        None
    }
}

pub open spec fn reference_error(reference: Option<String>) -> Option<SpaydError> {
    match reference {
        None => None,
        Some(r) => if r@.len() > 16 {
            Some(SpaydError::InvalidReference("Exceeded maximum length of 16 characters"))
        } else if !digits_shape(r@) {
            Some(SpaydError::InvalidReference("Value contains non-digit characters"))
        } else {
            None
        },
    }
}

pub open spec fn recipient_error(recipient: Option<String>) -> Option<SpaydError> {
    match recipient {
        None => None,
        Some(r) => if r@.len() > 35 {
            Some(SpaydError::InvalidRecipient("Exceeded maximum length of 35 characters"))
        } else if !free_text_shape(r@) {
            Some(SpaydError::InvalidRecipient("Value contains forbidden character(s)"))
        } else {
            None
        },
    }
}

pub open spec fn date_error(date: Option<String>) -> Option<SpaydError> {
    match date {
        None => None,
        Some(d) => if !date_shape(d@) {
            Some(SpaydError::InvalidDate("Date is not in YYYYMMDD format"))
        } else {
            None
        },
    }
}

pub open spec fn payment_type_error(payment_type: Option<PaymentType>) -> Option<SpaydError> {
    match payment_type {
        Some(PaymentType::Other(p)) => if p@.len() > 3 {
            Some(SpaydError::InvalidPaymentType("Exceeded maximum length of 3 characters"))
        } else if !free_text_shape(p@) {
            Some(SpaydError::InvalidPaymentType("Value contains forbidden character(s)"))
        } else {
            None
        },
        _ => None,
    }
}

pub open spec fn message_error(message: Option<String>) -> Option<SpaydError> {
    match message {
        None => None,
        Some(m) => if m@.len() > 60 {
            Some(SpaydError::InvalidMessage("Exceeded maximum length of 60 characters"))
        } else if !free_text_shape(m@) {
            Some(SpaydError::InvalidMessage("Value contains forbidden character(s)"))
        } else {
            None
        },
    }
}

pub open spec fn notify_address_error(
    notify_address: Option<String>,
    notify: Option<NotifyType>,
) -> Option<SpaydError> {
    match notify_address {
        None => None,
        Some(a) => if a@.len() > 320 {
            Some(SpaydError::InvalidNotifyAddress("Exceeded maximum length of 320 characters"))
        } else {
            match notify {
                None => Some(SpaydError::InvalidNotifyAddress("Notify type was not provided")),
                Some(NotifyType::Phone) => if !phone_shape(a@) {
                    Some(SpaydError::InvalidNotifyAddress("Invalid phone number"))
                } else {
                    None
                },
                Some(NotifyType::Email) => if !email_shape(a@) {
                    Some(SpaydError::InvalidNotifyAddress("Invalid email address"))
                } else {
                    None
                },
            }
        },
    }
}

/// `first` if it is an error, else `rest`.
pub open spec fn or_else(first: Option<SpaydError>, rest: Option<SpaydError>) -> Option<
    SpaydError,
> {
    if first is Some {
        first
    } else {
        rest
    }
}

/// The first failing field of `s`, in the order account, amount, currency,
/// reference, recipient, date, payment type, message, notify address.
pub open spec fn first_error(s: Spayd, currency_known: bool) -> Option<SpaydError> {
    or_else(
        account_error(s.account@),
        or_else(
            amount_error(s.amount@),
            or_else(
                currency_error(s.currency, currency_known),
                or_else(
                    reference_error(s.reference),
                    or_else(
                        recipient_error(s.recipient),
                        or_else(
                            date_error(s.date),
                            or_else(
                                payment_type_error(s.payment_type),
                                or_else(
                                    message_error(s.message),
                                    notify_address_error(s.notify_address, s.notify),
                                ),
                            ),
                        ),
                    ),
                ),
            ),
        ),
    )
}

pub open spec fn validation(s: Spayd, currency_known: bool) -> Result<(), SpaydError> {
    match first_error(s, currency_known) {
        Some(e) => Err(e),
        None => Ok(()),
    }
}

/// Whether the record's currency, if it has one, is in the currency table.
pub open spec fn currency_known_of(s: Spayd) -> bool {
    match s.currency {
        Some(c) => is_iso_4217_alpha(c@),
        None => true,
    }
}

fn check_account(account: &String) -> (r: Option<SpaydError>)
    ensures
        r == account_error(account@),
{
    let v = chars_of(account.as_str());
    if !is_iban(&v) {
        Some(SpaydError::InvalidAccountNumber("Value is not a valid IBAN"))
    } else {
        None
    }
}

fn check_amount(amount: &String) -> (r: Option<SpaydError>)
    ensures
        r == amount_error(amount@),
{
    let v = chars_of(amount.as_str());
    if v.len() > 10 {
        Some(SpaydError::InvalidAmount("Exceeded maximum length of 10 characters"))
    } else if !is_decimal(&v) {
        Some(
            SpaydError::InvalidAmount(
                "Value is not in a decimal format. Maximum number of decimal places is 2.",
            ),
        )
    } else {
        None
    }
}

fn check_reference(reference: &Option<String>) -> (r: Option<SpaydError>)
    ensures
        r == reference_error(*reference),
{
    match reference {
        None => None,
        Some(x) => {
            let v = chars_of(x.as_str());
            if v.len() > 16 {
                Some(SpaydError::InvalidReference("Exceeded maximum length of 16 characters"))
            } else if !is_digits(&v) {
                Some(SpaydError::InvalidReference("Value contains non-digit characters"))
            } else {
                None
            }
        },
    }
}

fn check_recipient(recipient: &Option<String>) -> (r: Option<SpaydError>)
    ensures
        r == recipient_error(*recipient),
{
    match recipient {
        None => None,
        Some(x) => {
            let v = chars_of(x.as_str());
            if v.len() > 35 {
                Some(SpaydError::InvalidRecipient("Exceeded maximum length of 35 characters"))
            } else if !is_free_text(&v) {
                Some(SpaydError::InvalidRecipient("Value contains forbidden character(s)"))
            } else {
                None
            }
        },
    }
}

fn check_date(date: &Option<String>) -> (r: Option<SpaydError>)
    ensures
        r == date_error(*date),
{
    match date {
        None => None,
        Some(x) => {
            let v = chars_of(x.as_str());
            if !is_date(&v) {
                Some(SpaydError::InvalidDate("Date is not in YYYYMMDD format"))
            } else {
                None
            }
        },
    }
}

fn check_payment_type(payment_type: &Option<PaymentType>) -> (r: Option<SpaydError>)
    ensures
        r == payment_type_error(*payment_type),
{
    match payment_type {
        Some(PaymentType::Other(x)) => {
            let v = chars_of(x.as_str());
            if v.len() > 3 {
                Some(SpaydError::InvalidPaymentType("Exceeded maximum length of 3 characters"))
            } else if !is_free_text(&v) {
                Some(SpaydError::InvalidPaymentType("Value contains forbidden character(s)"))
            } else {
                None
            }
        },
        _ => None,
    }
}

fn check_message(message: &Option<String>) -> (r: Option<SpaydError>)
    ensures
        r == message_error(*message),
{
    match message {
        None => None,
        Some(x) => {
            let v = chars_of(x.as_str());
            if v.len() > 60 {
                Some(SpaydError::InvalidMessage("Exceeded maximum length of 60 characters"))
            } else if !is_free_text(&v) {
                Some(SpaydError::InvalidMessage("Value contains forbidden character(s)"))
            } else {
                None
            }
        },
    }
}

fn check_notify_address(notify_address: &Option<String>, notify: &Option<NotifyType>) -> (r:
    Option<SpaydError>)
    ensures
        r == notify_address_error(*notify_address, *notify),
{
    match notify_address {
        None => None,
        Some(x) => {
            let v = chars_of(x.as_str());
            if v.len() > 320 {
                Some(SpaydError::InvalidNotifyAddress("Exceeded maximum length of 320 characters"))
            } else {
                match notify {
                    None => Some(SpaydError::InvalidNotifyAddress("Notify type was not provided")),
                    Some(NotifyType::Phone) => if !is_phone(&v) {
                        Some(SpaydError::InvalidNotifyAddress("Invalid phone number"))
                    } else {
                        None
                    },
                    Some(NotifyType::Email) => if !is_email(&v) {
                        Some(SpaydError::InvalidNotifyAddress("Invalid email address"))
                    } else {
                        None
                    },
                }
            }
        },
    }
}

impl Spayd {
    /// Validates the record, given whether its currency (if any) is a known
    /// currency code. The first failing field decides the error.
    pub fn validate_with_currency(&self, currency_known: bool) -> (r: Result<(), SpaydError>)
        ensures
            r == validation(*self, currency_known),
    {
        if let Some(e) = check_account(&self.account) {
            return Err(e);
        }
        if let Some(e) = check_amount(&self.amount) {
            return Err(e);
        }
        if self.currency.is_some() && !currency_known {
            return Err(SpaydError::InvalidCurrency("Invalid currency code"));
        }
        if let Some(e) = check_reference(&self.reference) {
            return Err(e);
        }
        if let Some(e) = check_recipient(&self.recipient) {
            return Err(e);
        }
        if let Some(e) = check_date(&self.date) {
            return Err(e);
        }
        if let Some(e) = check_payment_type(&self.payment_type) {
            return Err(e);
        }
        if let Some(e) = check_message(&self.message) {
            return Err(e);
        }
        if let Some(e) = check_notify_address(&self.notify_address, &self.notify) {
            return Err(e);
        }
        Ok(())
    }

    /// Validates the record, looking its currency up in the ISO 4217 table.
    pub fn validate(&self) -> (r: Result<(), SpaydError>)
        ensures
            r == validation(*self, currency_known_of(*self)),
            r is Ok && self.currency is Some ==> self.currency->0@.len() == 3 && forall|i: int|
                0 <= i < 3 ==> is_upper(#[trigger] self.currency->0@[i]),
    {
        let known = match &self.currency {
            Some(c) => known_currency(c.as_str()),
            None => true,
        };
        self.validate_with_currency(known)
    }
}

} // verus!
