use spayd::{NotifyType, PaymentType, Spayd, SpaydError};

#[test]
fn basic_works() {
    let spayd = Spayd::builder()
        .account("CZ5508000000001234567899".to_string())
        .amount("239.50".to_string())
        .build();

    let result = spayd.spayd_string();

    assert!(result.is_ok());
    assert_eq!(
        result.unwrap(),
        "SPD*1.0*ACC:CZ5508000000001234567899*AM:239.50".to_string()
    );
}

#[test]
fn invalid_account_fails() {
    let spayd = Spayd::builder()
        .account("C1Z7955000000001027699338".to_string())
        .amount("239.50".to_string())
        .build();

    let result = spayd.spayd_string();

    assert!(result.is_err());
    assert_eq!(
        result,
        Err(SpaydError::InvalidAccountNumber("Value is not a valid IBAN"))
    );
}

#[test]
fn invalid_amount_fails() {
    let spayd = Spayd::builder()
        .account("CZ5508000000001234567899".to_string())
        .amount("239.500".to_string())
        .build();

    let result = spayd.spayd_string();

    assert!(result.is_err());
    assert_eq!(
        result,
        Err(SpaydError::InvalidAmount(
            "Value is not in a decimal format. Maximum number of decimal places is 2."
        ))
    );
}

#[test]
fn reference_works() {
    let spayd = Spayd::builder()
        .account("CZ5508000000001234567899".to_string())
        .amount("239.50".to_string())
        .reference("123121".to_string())
        .build();

    let result = spayd.spayd_string();

    assert!(result.is_ok());
    assert_eq!(
        result.unwrap(),
        "SPD*1.0*ACC:CZ5508000000001234567899*AM:239.50*RF:123121".to_string()
    );
}

#[test]
fn invalid_reference_fails() {
    let spayd = Spayd::builder()
        .account("CZ5508000000001234567899".to_string())
        .amount("239.50".to_string())
        .reference("123121123A".to_string())
        .build();

    let result = spayd.spayd_string();

    assert!(result.is_err());
    assert_eq!(
        result,
        Err(SpaydError::InvalidReference("Value contains non-digit characters"))
    );
}

#[test]
fn recipient_works() {
    let spayd = Spayd::builder()
        .account("CZ5508000000001234567899".to_string())
        .amount("239.50".to_string())
        .recipient("MISTR1/+.% PO:".to_string())
        .build();

    let result = spayd.spayd_string();

    assert!(result.is_ok());
    assert_eq!(
        result.unwrap(),
        "SPD*1.0*ACC:CZ5508000000001234567899*AM:239.50*RN:MISTR1/+.% PO:".to_string()
    );
}

#[test]
fn invalid_recipient_fails() {
    let spayd = Spayd::builder()
        .account("CZ5508000000001234567899".to_string())
        .amount("239.50".to_string())
        .recipient("MISTR1/+*.% PO:".to_string())
        .build();

    let result = spayd.spayd_string();

    assert!(result.is_err());
    assert_eq!(
        result,
        Err(SpaydError::InvalidRecipient("Value contains forbidden character(s)"))
    );
}

#[test]
fn full_works() {
    let spayd = Spayd::builder()
        .account("CZ5508000000001234567899".to_string())
        .amount("239.50".to_string())
        .currency("CZK".to_string())
        .reference("123121".to_string())
        .recipient("MISTR1/+.% PO:".to_string())
        .date("20230810".to_string())
        .payment_type(PaymentType::Instant)
        .message("PAYMENT".to_string())
        .notify(NotifyType::Email)
        .notify_address("email@example.com".to_string())
        .build();

    let result = spayd.spayd_string();

    assert!(result.is_ok());
}
