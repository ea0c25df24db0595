use spayd::grammar::{chars_of, is_date, is_decimal, is_email, is_iban, is_phone};
use spayd::{NotifyType, PaymentType, Spayd, SpaydError};

const ACCOUNT: &str = "CZ5508000000001234567899";

fn base() -> spayd::record::SpaydBuilderComplete {
    Spayd::builder()
        .account(ACCOUNT.to_string())
        .amount("239.50".to_string())
}

#[test]
fn full_record_has_every_segment_in_order() {
    let spayd = base()
        .notify_address("email@example.com".to_string())
        .notify(NotifyType::Email)
        .message("PAYMENT".to_string())
        .payment_type(PaymentType::Instant)
        .date("20230810".to_string())
        .recipient("MISTR1/+.% PO:".to_string())
        .reference("123121".to_string())
        .currency("CZK".to_string())
        .build();
    assert_eq!(
        spayd.spayd_string().unwrap(),
        "SPD*1.0*ACC:CZ5508000000001234567899*AM:239.50*CC:CZK*RF:123121*RN:MISTR1/+.% PO:*DT:20230810*PT:IP*MSG:PAYMENT*NT:E*NTA:email@example.com"
    );
}

#[test]
fn serialization_and_validation_are_repeatable() {
    let spayd = base().reference("42".to_string()).message("A".to_string()).build();
    assert_eq!(spayd.spayd_string_unchecked(), spayd.spayd_string_unchecked());
    assert_eq!(spayd.validate(), spayd.validate());
    let bad = base().date("20231301".to_string()).build();
    assert_eq!(bad.validate(), bad.validate());
}

#[test]
fn account_is_reported_before_amount() {
    let spayd = Spayd::builder()
        .account("C1Z7955000000001027699338".to_string())
        .amount("239.500".to_string())
        .build();
    assert_eq!(
        spayd.validate(),
        Err(SpaydError::InvalidAccountNumber("Value is not a valid IBAN"))
    );
}

#[test]
fn notify_address_without_notify_type_fails() {
    let spayd = base().notify_address("email@example.com".to_string()).build();
    assert_eq!(
        spayd.validate(),
        Err(SpaydError::InvalidNotifyAddress("Notify type was not provided"))
    );
}

#[test]
fn malformed_email_fails() {
    let spayd = base()
        .notify(NotifyType::Email)
        .notify_address("not-an-email".to_string())
        .build();
    assert_eq!(
        spayd.validate(),
        Err(SpaydError::InvalidNotifyAddress("Invalid email address"))
    );
}

#[test]
fn notify_without_address_is_accepted() {
    let spayd = base().notify(NotifyType::Phone).build();
    assert_eq!(
        spayd.spayd_string().unwrap(),
        "SPD*1.0*ACC:CZ5508000000001234567899*AM:239.50*NT:P"
    );
}

#[test]
fn phone_numbers() {
    let ok = base()
        .notify(NotifyType::Phone)
        .notify_address("+420123456789".to_string())
        .build();
    assert!(ok.validate().is_ok());
    let bad = base()
        .notify(NotifyType::Phone)
        .notify_address("+42O".to_string())
        .build();
    assert_eq!(
        bad.validate(),
        Err(SpaydError::InvalidNotifyAddress("Invalid phone number"))
    );
}

#[test]
fn long_notify_address_fails() {
    let spayd = base()
        .notify(NotifyType::Phone)
        .notify_address("1".repeat(321))
        .build();
    assert_eq!(
        spayd.validate(),
        Err(SpaydError::InvalidNotifyAddress(
            "Exceeded maximum length of 320 characters"
        ))
    );
}

#[test]
fn long_amount_fails() {
    let spayd = Spayd::builder()
        .account(ACCOUNT.to_string())
        .amount("12345678.90".to_string())
        .build();
    assert_eq!(
        spayd.validate(),
        Err(SpaydError::InvalidAmount("Exceeded maximum length of 10 characters"))
    );
}

#[test]
fn unknown_currency_fails() {
    let spayd = base().currency("XYZ".to_string()).build();
    assert_eq!(
        spayd.validate(),
        Err(SpaydError::InvalidCurrency("Invalid currency code"))
    );
    let known = base().currency("EUR".to_string()).build();
    assert!(known.validate().is_ok());
    let lower = base().currency("eur".to_string()).build();
    assert!(lower.validate().is_err());
}

#[test]
fn currency_decision_is_taken_as_given() {
    let spayd = base().currency("CZK".to_string()).build();
    assert_eq!(
        spayd.validate_with_currency(false),
        Err(SpaydError::InvalidCurrency("Invalid currency code"))
    );
    assert_eq!(spayd.validate_with_currency(true), Ok(()));
    let none = base().build();
    assert_eq!(none.validate_with_currency(false), Ok(()));
}

#[test]
fn long_reference_fails() {
    let spayd = base().reference("12345678901234567".to_string()).build();
    assert_eq!(
        spayd.validate(),
        Err(SpaydError::InvalidReference("Exceeded maximum length of 16 characters"))
    );
}

#[test]
fn long_recipient_fails() {
    let spayd = base().recipient("A".repeat(36)).build();
    assert_eq!(
        spayd.validate(),
        Err(SpaydError::InvalidRecipient("Exceeded maximum length of 35 characters"))
    );
}

#[test]
fn bad_date_fails() {
    let spayd = base().date("20231301".to_string()).build();
    assert_eq!(
        spayd.validate(),
        Err(SpaydError::InvalidDate("Date is not in YYYYMMDD format"))
    );
    let loose = base().date("20230231".to_string()).build();
    assert!(loose.validate().is_ok());
}

#[test]
fn other_payment_types() {
    let ok = base().payment_type(PaymentType::Other("ABC".to_string())).build();
    assert_eq!(
        ok.spayd_string().unwrap(),
        "SPD*1.0*ACC:CZ5508000000001234567899*AM:239.50*PT:ABC"
    );
    let long = base().payment_type(PaymentType::Other("ABCD".to_string())).build();
    assert_eq!(
        long.validate(),
        Err(SpaydError::InvalidPaymentType("Exceeded maximum length of 3 characters"))
    );
    let bad = base().payment_type(PaymentType::Other("ab".to_string())).build();
    assert_eq!(
        bad.validate(),
        Err(SpaydError::InvalidPaymentType("Value contains forbidden character(s)"))
    );
}

#[test]
fn messages() {
    let long = base().message("A".repeat(61)).build();
    assert_eq!(
        long.validate(),
        Err(SpaydError::InvalidMessage("Exceeded maximum length of 60 characters"))
    );
    let bad = base().message("payment".to_string()).build();
    assert_eq!(
        bad.validate(),
        Err(SpaydError::InvalidMessage("Value contains forbidden character(s)"))
    );
}

#[test]
fn unchecked_output_keeps_invalid_values() {
    let spayd = Spayd::builder()
        .account("x".to_string())
        .amount("y*z".to_string())
        .notify(NotifyType::Phone)
        .build();
    assert!(spayd.spayd_string().is_err());
    assert_eq!(spayd.spayd_string_unchecked(), "SPD*1.0*ACC:x*AM:y*z*NT:P");
}

#[test]
fn qr_code_of_valid_and_invalid_records() {
    let ok = base().build();
    assert!(matches!(ok.qrcode(), Ok(Ok(_))));
    let bad = Spayd::builder()
        .account("x".to_string())
        .amount("1".to_string())
        .build();
    assert!(matches!(
        bad.qrcode(),
        Err(SpaydError::InvalidAccountNumber(_))
    ));
}

#[test]
fn field_shapes() {
    assert!(is_iban(&chars_of("CZ5508000000001234567899")));
    assert!(!is_iban(&chars_of("CZ55")));
    assert!(is_decimal(&chars_of("0")));
    assert!(is_decimal(&chars_of("1.5")));
    assert!(is_decimal(&chars_of("10.25")));
    assert!(!is_decimal(&chars_of("1.")));
    assert!(!is_decimal(&chars_of(".5")));
    assert!(!is_decimal(&chars_of("-1")));
    assert!(is_date(&chars_of("29991231")));
    assert!(!is_date(&chars_of("30000101")));
    assert!(!is_date(&chars_of("20230100")));
    assert!(is_phone(&chars_of("123")));
    assert!(!is_phone(&chars_of("+")));
    assert!(is_email(&chars_of("a.b+c@mail-x.example.cz")));
    assert!(is_email(&chars_of("a@b.cz*tail")));
    assert!(!is_email(&chars_of(".a@b.cz")));
    assert!(!is_email(&chars_of("a.@b.cz")));
    assert!(!is_email(&chars_of("a@-b.cz")));
    assert!(!is_email(&chars_of("a@b..cz")));
    assert!(!is_email(&chars_of("a@b.c")));
    assert!(!is_email(&chars_of("A@b.cz")));
}

#[test]
fn valid_descriptors_have_one_delimiter_per_segment() {
    let spayd = base()
        .currency("CZK".to_string())
        .date("20230810".to_string())
        .notify(NotifyType::Phone)
        .build();
    let text = spayd.spayd_string().unwrap();
    assert!(!text.contains("**"));
    assert!(!text.starts_with('*') && !text.ends_with('*'));
    assert_eq!(text.matches('*').count(), 3 + 3);
    assert!(text.starts_with("SPD*1.0*ACC:CZ5508000000001234567899*AM:239.50"));
}

#[test]
fn email_tail_is_not_inspected() {
    let spayd = base()
        .notify(NotifyType::Email)
        .notify_address("a@b.cz**".to_string())
        .build();
    assert!(spayd.spayd_string().unwrap().ends_with("*NTA:a@b.cz**"));
}

#[test]
fn qr_code_encodes_the_descriptor() {
    let spayd = base().reference("123121".to_string()).build();
    let text = spayd.spayd_string().unwrap();
    let expected = qrcode::QrCode::new(text.as_bytes()).unwrap();
    let made = match spayd.qrcode() {
        Ok(Ok(code)) => code,
        _ => panic!("a valid record must give a QR code"),
    };
    assert_eq!(made.width(), expected.width());
    assert!(made.to_colors() == expected.to_colors());
    let empty = qrcode::QrCode::new(b"").unwrap();
    assert!(made.to_colors() != empty.to_colors());
}
