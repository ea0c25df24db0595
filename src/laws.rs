//! Properties that relate the validator and the serializer.
use vstd::prelude::*;
use crate::grammar::{
    date_shape, decimal_shape, digits_shape, email_shape, free_text_shape, iban_shape, phone_shape,
};
use crate::record::{PaymentType, Spayd, SpaydError};
use crate::serialize::{
    descriptor, header, mandatory_part, notify_code, notify_segment, optional_segment,
    payment_type_code, payment_type_segment, segment,
};
use crate::validate::{
    account_error, amount_error, currency_error, date_error, message_error, notify_address_error,
    payment_type_error, recipient_error, reference_error, validation,
};

verus! {

/// The descriptor of a record that passes validation starts with `SPD*1.0*ACC:`,
/// the account, `*AM:` and the amount: no other field comes before them.
pub proof fn lemma_descriptor_starts_with_account_and_amount(s: Spayd, currency_known: bool)
    requires
        validation(s, currency_known) is Ok,
    ensures
        descriptor(s).subrange(0, 16 + s.account@.len() + s.amount@.len() as int) == seq![
            'S',
            'P',
            'D',
            '*',
            '1',
            '.',
            '0',
            '*',
            'A',
            'C',
            'C',
            ':',
        ] + s.account@ + seq!['*', 'A', 'M', ':'] + s.amount@,
{
    let expected = seq!['S', 'P', 'D', '*', '1', '.', '0', '*', 'A', 'C', 'C', ':'] + s.account@
        + seq!['*', 'A', 'M', ':'] + s.amount@;
    assert(mandatory_part(s) =~= expected);
    assert(descriptor(s).subrange(0, 16 + s.account@.len() + s.amount@.len() as int) =~= expected);
}

/// Two records with the same field values have the same descriptor and the
/// same validation result: both depend on the field values alone.
pub proof fn lemma_deterministic(a: Spayd, b: Spayd, currency_known: bool)
    requires
        a == b,
    ensures
        descriptor(a) == descriptor(b),
        validation(a, currency_known) == validation(b, currency_known),
{
}

/// The account is checked first: an invalid account is reported whatever
/// else is wrong with the record, an invalid amount included.
pub proof fn lemma_account_checked_first(s: Spayd, currency_known: bool)
    requires
        !iban_shape(s.account@),
    ensures
        validation(s, currency_known) == Err::<(), SpaydError>(
            SpaydError::InvalidAccountNumber("Value is not a valid IBAN"),
        ),
{
}

/// A notify address of at most 320 characters without a notify type fails
/// with `InvalidNotifyAddress("Notify type was not provided")`, once every
/// field checked before it has passed.
pub proof fn lemma_notify_address_needs_notify_type(s: Spayd, currency_known: bool)
    requires
        s.notify_address is Some,
        s.notify_address->0@.len() <= 320,
        s.notify is None,
        account_error(s.account@) is None,
        amount_error(s.amount@) is None,
        currency_error(s.currency, currency_known) is None,
        reference_error(s.reference) is None,
        recipient_error(s.recipient) is None,
        date_error(s.date) is None,
        payment_type_error(s.payment_type) is None,
        message_error(s.message) is None,
    ensures
        validation(s, currency_known) == Err::<(), SpaydError>(
            SpaydError::InvalidNotifyAddress("Notify type was not provided"),
        ),
{
}

pub open spec fn star_free(v: Seq<char>) -> bool {
    forall|i: int| 0 <= i < v.len() ==> #[trigger] v[i] != '*'
}

/// Neither two `*` side by side, nor a `*` at either end.
#[verifier::opaque]
pub open spec fn delimiters_separate(t: Seq<char>) -> bool {
    t.len() > 0 && t[0] != '*' && t.last() != '*' && forall|i: int|
        0 <= i < t.len() - 1 ==> !(#[trigger] t[i] == '*' && t[i + 1] == '*')
}

/// A value that is not empty and holds no `*`.
pub open spec fn plain_value(v: Seq<char>) -> bool {
    v.len() > 0 && star_free(v)
}

proof fn lemma_append_segment(t: Seq<char>, key: Seq<char>, v: Seq<char>)
    requires
        delimiters_separate(t),
        plain_value(key),
        plain_value(v),
    ensures
        delimiters_separate(t + segment(key, v)),
{
    reveal(delimiters_separate);
    let r = t + segment(key, v);
    let n = t.len() as int;
    let kl = key.len() as int;
    assert(r.len() == n + 2 + kl + v.len());
    assert forall|i: int| 0 <= i < r.len() && i != n implies #[trigger] r[i] != '*' || i < n by {
        if n < i < n + 1 + kl {
            assert(r[i] == key[i - n - 1]);
        } else if i == n + 1 + kl {
            assert(r[i] == ':');
        } else if i > n + 1 + kl {
            assert(r[i] == v[i - n - 2 - kl]);
        }
    }
    assert(r[0] == t[0]);
    assert(r.last() == v.last());
    assert forall|i: int| 0 <= i < r.len() - 1 implies !(#[trigger] r[i] == '*' && r[i + 1] == '*') by {
        if i < n - 1 {
            assert(r[i] == t[i] && r[i + 1] == t[i + 1]);
        } else if i == n - 1 {
            assert(r[i] == t.last());
        }
    }
}

proof fn lemma_append_optional(t: Seq<char>, key: Seq<char>, v: Option<String>)
    requires
        delimiters_separate(t),
        plain_value(key),
        v is Some ==> plain_value(v->0@),
    ensures
        delimiters_separate(t + optional_segment(key, v)),
{
    match v {
        Some(x) => lemma_append_segment(t, key, x@),
        None => assert(t + optional_segment(key, v) =~= t),
    }
}

proof fn lemma_plain_from_shapes(v: Seq<char>)
    ensures
        iban_shape(v) ==> plain_value(v),
        decimal_shape(v) ==> plain_value(v),
        digits_shape(v) ==> plain_value(v),
        free_text_shape(v) ==> plain_value(v),
        date_shape(v) ==> plain_value(v),
{
    if iban_shape(v) {
        assert forall|i: int| 0 <= i < v.len() implies #[trigger] v[i] != '*' by {
            if i >= 4 {
                assert(crate::grammar::is_digit(v[i]) || crate::grammar::is_upper(v[i]));
            }
        }
    }
    if decimal_shape(v) && !digits_shape(v) {
        let n = v.len() as int;
        assert forall|i: int| 0 <= i < v.len() implies #[trigger] v[i] != '*' by {
            if n >= 3 && v[n - 2] == '.' && digits_shape(v.subrange(0, n - 2)) && i < n - 2 {
                assert(v.subrange(0, n - 2)[i] == v[i]);
            }
            if n >= 4 && v[n - 3] == '.' && digits_shape(v.subrange(0, n - 3)) && i < n - 3 {
                assert(v.subrange(0, n - 3)[i] == v[i]);
            }
        }
    }
}

spec fn optional_plain(v: Option<String>) -> bool {
    v is Some ==> plain_value(v->0@)
}

/// Every present field of `s` serializes to a non-empty value without `*`.
spec fn fields_plain(s: Spayd) -> bool {
    plain_value(s.account@) && plain_value(s.amount@) && optional_plain(s.currency)
        && optional_plain(s.reference) && optional_plain(s.recipient) && optional_plain(s.date)
        && (s.payment_type is Some ==> plain_value(payment_type_code(s.payment_type->0)))
        && optional_plain(s.message) && (s.notify is Some ==> plain_value(
        notify_code(s.notify->0),
    )) && optional_plain(s.notify_address)
}

proof fn lemma_valid_fields_plain(s: Spayd, currency_known: bool)
    requires
        validation(s, currency_known) is Ok,
        s.currency is Some ==> plain_value(s.currency->0@),
        s.notify_address is Some ==> star_free(s.notify_address->0@),
    ensures
        fields_plain(s),
{
    assert(account_error(s.account@) is None);
    assert(amount_error(s.amount@) is None);
    assert(reference_error(s.reference) is None);
    assert(recipient_error(s.recipient) is None);
    assert(date_error(s.date) is None);
    assert(payment_type_error(s.payment_type) is None);
    assert(message_error(s.message) is None);
    assert(notify_address_error(s.notify_address, s.notify) is None);
    lemma_plain_from_shapes(s.account@);
    lemma_plain_from_shapes(s.amount@);
    if let Some(x) = s.reference {
        lemma_plain_from_shapes(x@);
    }
    if let Some(x) = s.recipient {
        lemma_plain_from_shapes(x@);
    }
    if let Some(x) = s.date {
        lemma_plain_from_shapes(x@);
    }
    if let Some(x) = s.message {
        lemma_plain_from_shapes(x@);
    }
    if let Some(x) = s.notify_address {
        if phone_shape(x@) {
            assert(x@.len() > 0);
        }
        if email_shape(x@) {
            assert(x@.len() > 0);
        }
    }
    if let Some(p) = s.payment_type {
        match p {
            PaymentType::Instant => {
                assert(plain_value(payment_type_code(p)));
            },
            PaymentType::Other(x) => {
                lemma_plain_from_shapes(x@);
            },
        }
    }
    if let Some(n) = s.notify {
        assert(plain_value(notify_code(n)));
    }
}

proof fn lemma_mandatory_separated(s: Spayd)
    requires
        plain_value(s.account@),
        plain_value(s.amount@),
    ensures
        delimiters_separate(mandatory_part(s)),
{
    let h = header();
    assert(h[0] == 'S' && h.last() == '0');
    assert(delimiters_separate(h)) by {
        reveal(delimiters_separate);
    }
    let ka = seq!['A', 'C', 'C'];
    assert(plain_value(ka));
    lemma_append_segment(h, ka, s.account@);
    let km = seq!['A', 'M'];
    assert(plain_value(km));
    lemma_append_segment(h + segment(ka, s.account@), km, s.amount@);
}

proof fn lemma_fields_separated(s: Spayd)
    requires
        fields_plain(s),
    ensures
        delimiters_separate(descriptor(s)),
{
    lemma_mandatory_separated(s);
    let t2 = mandatory_part(s);
    let k3 = seq!['C', 'C'];
    assert(plain_value(k3));
    lemma_append_optional(t2, k3, s.currency);
    let t3 = t2 + optional_segment(k3, s.currency);
    let k4 = seq!['R', 'F'];
    assert(plain_value(k4));
    lemma_append_optional(t3, k4, s.reference);
    let t4 = t3 + optional_segment(k4, s.reference);
    let k5 = seq!['R', 'N'];
    assert(plain_value(k5));
    lemma_append_optional(t4, k5, s.recipient);
    let t5 = t4 + optional_segment(k5, s.recipient);
    let k6 = seq!['D', 'T'];
    assert(plain_value(k6));
    lemma_append_optional(t5, k6, s.date);
    let t6 = t5 + optional_segment(k6, s.date);
    let k7 = seq!['P', 'T'];
    assert(plain_value(k7));
    match s.payment_type {
        Some(p) => lemma_append_segment(t6, k7, payment_type_code(p)),
        None => assert(t6 + payment_type_segment(s.payment_type) =~= t6),
    }
    let t7 = t6 + payment_type_segment(s.payment_type);
    let k8 = seq!['M', 'S', 'G'];
    assert(plain_value(k8));
    lemma_append_optional(t7, k8, s.message);
    let t8 = t7 + optional_segment(k8, s.message);
    let k9 = seq!['N', 'T'];
    assert(plain_value(k9));
    match s.notify {
        Some(n) => lemma_append_segment(t8, k9, notify_code(n)),
        None => assert(t8 + notify_segment(s.notify) =~= t8),
    }
    let t9 = t8 + notify_segment(s.notify);
    let k10 = seq!['N', 'T', 'A'];
    assert(plain_value(k10));
    lemma_append_optional(t9, k10, s.notify_address);
    assert(t9 + optional_segment(k10, s.notify_address) =~= descriptor(s));
}

/// In the descriptor of a valid record whose notify address holds no `*`,
/// every field is a non-empty segment: no two `*` stand side by side and
/// none stands at either end. (An e-mail address is checked only up to its
/// domain, so one such as `a@b.cz**` passes validation and would break this.)
/// The currency code is taken to hold no `*`, as every code of the currency
/// table does.
pub proof fn lemma_no_adjacent_delimiters(s: Spayd, currency_known: bool)
    requires
        validation(s, currency_known) is Ok,
        s.currency is Some ==> plain_value(s.currency->0@),
        s.notify_address is Some ==> star_free(s.notify_address->0@),
    ensures
        delimiters_separate(descriptor(s)),
{
    lemma_valid_fields_plain(s, currency_known);
    lemma_fields_separated(s);
}

/// The number of `*` in `t`.
pub open spec fn star_count(t: Seq<char>) -> nat
    decreases t.len(),
{
    if t.len() == 0 {
        0
    } else {
        star_count(t.drop_last()) + if t.last() == '*' {
            1nat
        } else {
            0nat
        }
    }
}

pub open spec fn present(v: bool) -> nat {
    if v {
        1
    } else {
        0
    }
}

/// How many optional fields of `s` are set.
pub open spec fn optional_field_count(s: Spayd) -> nat {
    present(s.currency is Some) + present(s.reference is Some) + present(s.recipient is Some)
        + present(s.date is Some) + present(s.payment_type is Some) + present(s.message is Some)
        + present(s.notify is Some) + present(s.notify_address is Some)
}

proof fn lemma_star_count_concat(a: Seq<char>, b: Seq<char>)
    ensures
        star_count(a + b) == star_count(a) + star_count(b),
    decreases b.len(),
{
    if b.len() == 0 {
        assert(a + b =~= a);
    } else {
        assert((a + b).drop_last() =~= a + b.drop_last());
        assert((a + b).last() == b.last());
        lemma_star_count_concat(a, b.drop_last());
    }
}

proof fn lemma_star_free_count(v: Seq<char>)
    requires
        star_free(v),
    ensures
        star_count(v) == 0,
    decreases v.len(),
{
    if v.len() > 0 {
        assert(v.last() == v[v.len() - 1]);
        assert(star_free(v.drop_last())) by {
            assert forall|i: int| 0 <= i < v.drop_last().len() implies #[trigger] v.drop_last()[i]
                != '*' by {
                assert(v.drop_last()[i] == v[i]);
            }
        }
        lemma_star_free_count(v.drop_last());
    }
}

proof fn lemma_single_count(c: char)
    ensures
        star_count(seq![c]) == present(c == '*'),
{
    assert(seq![c].drop_last() =~= Seq::<char>::empty());
    assert(seq![c].last() == c);
    assert(star_count(Seq::<char>::empty()) == 0);
}

proof fn lemma_header_count()
    ensures
        star_count(header()) == 1,
{
    let h = header();
    assert(h =~= seq!['S', 'P', 'D'] + seq!['*'] + seq!['1', '.', '0']);
    assert(star_free(seq!['S', 'P', 'D']));
    assert(star_free(seq!['1', '.', '0']));
    lemma_star_free_count(seq!['S', 'P', 'D']);
    lemma_star_free_count(seq!['1', '.', '0']);
    lemma_single_count('*');
    lemma_star_count_concat(seq!['S', 'P', 'D'], seq!['*']);
    lemma_star_count_concat(seq!['S', 'P', 'D'] + seq!['*'], seq!['1', '.', '0']);
}

proof fn lemma_mandatory_count(s: Spayd)
    requires
        star_free(s.account@),
        star_free(s.amount@),
    ensures
        star_count(mandatory_part(s)) == 3,
{
    let h = header();
    lemma_header_count();
    lemma_segment_count(seq!['A', 'C', 'C'], s.account@);
    lemma_segment_count(seq!['A', 'M'], s.amount@);
    lemma_star_count_concat(h, segment(seq!['A', 'C', 'C'], s.account@));
    lemma_star_count_concat(
        h + segment(seq!['A', 'C', 'C'], s.account@),
        segment(seq!['A', 'M'], s.amount@),
    );
}

proof fn lemma_segment_count(key: Seq<char>, v: Seq<char>)
    requires
        star_free(key),
        star_free(v),
    ensures
        star_count(segment(key, v)) == 1,
{
    lemma_star_free_count(key);
    lemma_star_free_count(v);
    lemma_single_count('*');
    lemma_single_count(':');
    lemma_star_count_concat(seq!['*'], key);
    lemma_star_count_concat(seq!['*'] + key, seq![':']);
    lemma_star_count_concat(seq!['*'] + key + seq![':'], v);
}

proof fn lemma_optional_count(key: Seq<char>, v: Option<String>)
    requires
        star_free(key),
        optional_plain(v),
    ensures
        star_count(optional_segment(key, v)) == present(v is Some),
{
    match v {
        Some(x) => lemma_segment_count(key, x@),
        None => {},
    }
}

proof fn lemma_fields_count(s: Spayd)
    requires
        fields_plain(s),
    ensures
        star_count(descriptor(s)) == 3 + optional_field_count(s),
{
    lemma_mandatory_count(s);
    let t2 = mandatory_part(s);
    lemma_optional_count(seq!['C', 'C'], s.currency);
    lemma_star_count_concat(t2, optional_segment(seq!['C', 'C'], s.currency));
    let t3 = t2 + optional_segment(seq!['C', 'C'], s.currency);
    lemma_optional_count(seq!['R', 'F'], s.reference);
    lemma_star_count_concat(t3, optional_segment(seq!['R', 'F'], s.reference));
    let t4 = t3 + optional_segment(seq!['R', 'F'], s.reference);
    lemma_optional_count(seq!['R', 'N'], s.recipient);
    lemma_star_count_concat(t4, optional_segment(seq!['R', 'N'], s.recipient));
    let t5 = t4 + optional_segment(seq!['R', 'N'], s.recipient);
    lemma_optional_count(seq!['D', 'T'], s.date);
    lemma_star_count_concat(t5, optional_segment(seq!['D', 'T'], s.date));
    let t6 = t5 + optional_segment(seq!['D', 'T'], s.date);
    match s.payment_type {
        Some(p) => lemma_segment_count(seq!['P', 'T'], payment_type_code(p)),
        None => {},
    }
    lemma_star_count_concat(t6, payment_type_segment(s.payment_type));
    let t7 = t6 + payment_type_segment(s.payment_type);
    lemma_optional_count(seq!['M', 'S', 'G'], s.message);
    lemma_star_count_concat(t7, optional_segment(seq!['M', 'S', 'G'], s.message));
    let t8 = t7 + optional_segment(seq!['M', 'S', 'G'], s.message);
    match s.notify {
        Some(n) => lemma_segment_count(seq!['N', 'T'], notify_code(n)),
        None => {},
    }
    lemma_star_count_concat(t8, notify_segment(s.notify));
    let t9 = t8 + notify_segment(s.notify);
    lemma_optional_count(seq!['N', 'T', 'A'], s.notify_address);
    lemma_star_count_concat(t9, optional_segment(seq!['N', 'T', 'A'], s.notify_address));
}

/// Each optional field of a valid record adds exactly one `*KEY:value`
/// segment when it is set and nothing when it is not: the descriptor holds
/// three delimiters (after the header, the account and the amount) plus one
/// per set optional field. The conditions are those of
/// `lemma_no_adjacent_delimiters`.
pub proof fn lemma_one_segment_per_present_field(s: Spayd, currency_known: bool)
    requires
        validation(s, currency_known) is Ok,
        s.currency is Some ==> plain_value(s.currency->0@),
        s.notify_address is Some ==> star_free(s.notify_address->0@),
    ensures
        star_count(descriptor(s)) == 3 + optional_field_count(s),
{
    lemma_valid_fields_plain(s, currency_known);
    lemma_fields_count(s);
}

} // verus!
