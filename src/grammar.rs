//! Character classes and the shapes that the descriptor's fields must have.
use vstd::prelude::*;

verus! {

pub open spec fn is_digit(c: char) -> bool {
    '0' <= c && c <= '9'
}

pub open spec fn is_upper(c: char) -> bool {
    'A' <= c && c <= 'Z'
}

pub open spec fn is_lower(c: char) -> bool {
    'a' <= c && c <= 'z'
}

/// Characters that free-text fields (recipient, message, payment type) may hold.
pub open spec fn is_free_text_char(c: char) -> bool {
    is_digit(c) || is_upper(c) || c == ' ' || c == '$' || c == '%' || c == '+' || c == '-'
        || c == '.' || c == '/' || c == ':'
}

pub open spec fn all_digits(s: Seq<char>) -> bool {
    forall|i: int| 0 <= i < s.len() ==> is_digit(#[trigger] s[i])
}

/// One or more ASCII digits.
pub open spec fn digits_shape(s: Seq<char>) -> bool {
    s.len() >= 1 && all_digits(s)
}

/// One or more characters of the free-text set.
pub open spec fn free_text_shape(s: Seq<char>) -> bool {
    s.len() >= 1 && forall|i: int| 0 <= i < s.len() ==> is_free_text_char(#[trigger] s[i])
}

/// Two uppercase letters, two digits, then 1 to 30 digits or uppercase letters.
pub open spec fn iban_shape(s: Seq<char>) -> bool {
    5 <= s.len() <= 34 && is_upper(s[0]) && is_upper(s[1]) && is_digit(s[2]) && is_digit(s[3])
        && forall|i: int| 4 <= i < s.len() ==> is_digit(#[trigger] s[i]) || is_upper(s[i])
}

/// Digits, optionally followed by a dot and one or two digits.
pub open spec fn decimal_shape(s: Seq<char>) -> bool {
    let n = s.len() as int;
    digits_shape(s)
        || (n >= 3 && s[n - 2] == '.' && digits_shape(s.subrange(0, n - 2)) && is_digit(s[n - 1]))
        || (n >= 4 && s[n - 3] == '.' && digits_shape(s.subrange(0, n - 3)) && is_digit(s[n - 2])
            && is_digit(s[n - 1]))
}

pub open spec fn digit_value(c: char) -> int {
    c as int - '0' as int
}

pub open spec fn two_digit_value(a: char, b: char) -> int {
    10 * digit_value(a) + digit_value(b)
}

/// `YYYYMMDD` with a year from 1000 to 2999, a month from 01 to 12 and a day
/// from 01 to 31; month lengths and leap years are not considered.
pub open spec fn date_shape(s: Seq<char>) -> bool {
    s.len() == 8 && all_digits(s) && (s[0] == '1' || s[0] == '2')
        && 1 <= two_digit_value(s[4], s[5]) <= 12 && 1 <= two_digit_value(s[6], s[7]) <= 31
}

/// Digits, optionally preceded by one `+`.
pub open spec fn phone_shape(s: Seq<char>) -> bool {
    digits_shape(s) || (s.len() >= 2 && s[0] == '+' && digits_shape(s.subrange(1, s.len() as int)))
}

pub open spec fn is_local_char(c: char) -> bool {
    is_lower(c) || is_digit(c) || c == '_' || c == '+'
}

pub open spec fn is_label_char(c: char) -> bool {
    is_lower(c) || is_digit(c)
}

/// The part before `@`: one or more of `[a-z0-9_+.]`, neither starting nor ending with a dot.
pub open spec fn email_local_shape(t: Seq<char>) -> bool {
    t.len() >= 1 && is_local_char(t[0]) && is_local_char(t.last())
        && forall|i: int| 0 <= i < t.len() ==> is_local_char(#[trigger] t[i]) || t[i] == '.'
}

/// Whether position `m` of `t` may stand inside a run of domain labels: a
/// label character, or a `-` or `.` right after a label character.
pub open spec fn label_run_ok_at(t: Seq<char>, m: int) -> bool {
    is_label_char(t[m]) || ((t[m] == '-' || t[m] == '.') && m > 0 && is_label_char(t[m - 1]))
}

/// Labels of `[a-z0-9]` joined by single `-` or `.`.
pub open spec fn label_run_shape(t: Seq<char>) -> bool {
    t.len() >= 1 && is_label_char(t.last()) && forall|m: int|
        0 <= m < t.len() ==> #[trigger] label_run_ok_at(t, m)
}

/// The domain starts at `r[0]` and its final dot stands at `r[j]`, followed by
/// two lowercase letters.
pub open spec fn domain_at(r: Seq<char>, j: int) -> bool {
    0 <= j && j + 3 <= r.len() && label_run_shape(r.subrange(0, j)) && r[j] == '.'
        && is_lower(r[j + 1]) && is_lower(r[j + 2])
}

/// A simplified e-mail address: a local part, `@`, labels, a dot and two
/// lowercase letters; whatever follows them is not inspected.
pub open spec fn email_shape(s: Seq<char>) -> bool {
    exists|k: int, j: int|
        0 <= k < s.len() && s[k] == '@' && email_local_shape(s.subrange(0, k))
            && #[trigger] domain_at(s.subrange(k + 1, s.len() as int), j)
}

/// The characters of a string, one per element.
pub fn chars_of(s: &str) -> (r: Vec<char>)
    ensures
        r@ == s@,
{
    let n = s.unicode_len();
    let mut r: Vec<char> = Vec::new();
    let mut i: usize = 0;
    while i < n
        invariant
            n == s@.len(),
            i <= n,
            r@ == s@.subrange(0, i as int),
        decreases n - i,
    {
        r.push(s.get_char(i));
        i = i + 1;
    }
    assert(r@ =~= s@);
    r
}

fn digit_char(c: char) -> (r: bool)
    ensures
        r == is_digit(c),
{
    '0' <= c && c <= '9'
}

fn upper_char(c: char) -> (r: bool)
    ensures
        r == is_upper(c),
{
    'A' <= c && c <= 'Z'
}

fn lower_char(c: char) -> (r: bool)
    ensures
        r == is_lower(c),
{
    'a' <= c && c <= 'z'
}

fn free_text_char(c: char) -> (r: bool)
    ensures
        r == is_free_text_char(c),
{
    digit_char(c) || upper_char(c) || c == ' ' || c == '$' || c == '%' || c == '+' || c == '-'
        || c == '.' || c == '/' || c == ':'
}

/// Whether `s[from..to]` holds digits only.
fn digits_between(s: &Vec<char>, from: usize, to: usize) -> (r: bool)
    requires
        from <= to <= s@.len(),
    ensures
        r == all_digits(s@.subrange(from as int, to as int)),
{
    let mut i: usize = from;
    while i < to
        invariant
            from <= i <= to <= s@.len(),
            forall|k: int| from <= k < i ==> is_digit(#[trigger] s@[k]),
        decreases to - i,
    {
        if !digit_char(s[i]) {
            assert(!is_digit(s@.subrange(from as int, to as int)[i - from]));
            return false;
        }
        i = i + 1;
    }
    assert forall|k: int| 0 <= k < to - from implies is_digit(
        #[trigger] s@.subrange(from as int, to as int)[k],
    ) by {
        assert(s@.subrange(from as int, to as int)[k] == s@[from + k]);
    }
    true
}

pub fn is_digits(s: &Vec<char>) -> (r: bool)
    ensures
        r == digits_shape(s@),
{
    assert(s@.subrange(0, s@.len() as int) =~= s@);
    s.len() >= 1 && digits_between(s, 0, s.len())
}

pub fn is_free_text(s: &Vec<char>) -> (r: bool)
    ensures
        r == free_text_shape(s@),
{
    if s.len() == 0 {
        return false;
    }
    let mut i: usize = 0;
    while i < s.len()
        invariant
            i <= s@.len(),
            forall|k: int| 0 <= k < i ==> is_free_text_char(#[trigger] s@[k]),
        decreases s@.len() - i,
    {
        if !free_text_char(s[i]) {
            return false;
        }
        i = i + 1;
    }
    true
}

pub fn is_iban(s: &Vec<char>) -> (r: bool)
    ensures
        r == iban_shape(s@),
{
    let n = s.len();
    if n < 5 || n > 34 {
        return false;
    }
    if !(upper_char(s[0]) && upper_char(s[1]) && digit_char(s[2]) && digit_char(s[3])) {
        return false;
    }
    let mut i: usize = 4;
    while i < n
        invariant
            4 <= i <= n,
            n == s@.len(),
            forall|k: int| 4 <= k < i ==> is_digit(#[trigger] s@[k]) || is_upper(s@[k]),
        decreases n - i,
    {
        if !(digit_char(s[i]) || upper_char(s[i])) {
            return false;
        }
        i = i + 1;
    }
    true
}

pub fn is_decimal(s: &Vec<char>) -> (r: bool)
    ensures
        r == decimal_shape(s@),
{
    let n = s.len();
    let plain = is_digits(s);
    if plain {
        return true;
    }
    if n >= 3 && s[n - 2] == '.' && n - 2 >= 1 && digits_between(s, 0, n - 2) && digit_char(s[n - 1]) {
        return true;
    }
    if n >= 4 && s[n - 3] == '.' && n - 3 >= 1 && digits_between(s, 0, n - 3) && digit_char(s[n - 2])
        && digit_char(s[n - 1]) {
        return true;
    }
    false
}

pub fn is_date(s: &Vec<char>) -> (r: bool)
    ensures
        r == date_shape(s@),
{
    if s.len() != 8 {
        return false;
    }
    assert(s@.subrange(0, 8) =~= s@);
    if !digits_between(s, 0, 8) {
        return false;
    }
    if !(s[0] == '1' || s[0] == '2') {
        return false;
    }
    let month: u32 = 10 * (s[4] as u32 - '0' as u32) + (s[5] as u32 - '0' as u32);
    let day: u32 = 10 * (s[6] as u32 - '0' as u32) + (s[7] as u32 - '0' as u32);
    1 <= month && month <= 12 && 1 <= day && day <= 31
}

pub fn is_phone(s: &Vec<char>) -> (r: bool)
    ensures
        r == phone_shape(s@),
{
    let n = s.len();
    if is_digits(s) {
        return true;
    }
    n >= 2 && s[0] == '+' && digits_between(s, 1, n)
}

fn local_char(c: char) -> (r: bool)
    ensures
        r == is_local_char(c),
{
    lower_char(c) || digit_char(c) || c == '_' || c == '+'
}

fn label_char(c: char) -> (r: bool)
    ensures
        r == is_label_char(c),
{
    lower_char(c) || digit_char(c)
}

/// Whether a domain starts at `s[from]`.
fn domain_from(s: &Vec<char>, from: usize) -> (r: bool)
    requires
        from <= s@.len(),
    ensures
        r == exists|j: int| domain_at(s@.subrange(from as int, s@.len() as int), j),
{
    let ghost t = s@.subrange(from as int, s@.len() as int);
    let n = s.len();
    let mut i: usize = from;
    while i < n
        invariant
            from <= i <= n == s@.len(),
            t == s@.subrange(from as int, s@.len() as int),
            forall|m: int| 0 <= m < i - from ==> #[trigger] label_run_ok_at(t, m),
            forall|j: int| 0 <= j < i - from ==> !#[trigger] domain_at(t, j),
        decreases n - i,
    {
        let m: usize = i - from;
        assert(t[m as int] == s@[i as int]);
        if m > 0 {
            assert(t[m - 1] == s@[i - 1]);
        }
        if s[i] == '.' && m > 0 && label_char(s[i - 1]) && n - i > 2 && lower_char(s[i + 1])
            && lower_char(s[i + 2]) {
            assert(t[m + 1] == s@[i + 1]);
            assert(t[m + 2] == s@[i + 2]);
            let ghost p = t.subrange(0, m as int);
            assert forall|q: int| 0 <= q < p.len() implies #[trigger] label_run_ok_at(p, q) by {
                assert(label_run_ok_at(t, q));
            }
            assert(domain_at(t, m as int));
            return true;
        }
        let ok = label_char(s[i]) || ((s[i] == '-' || s[i] == '.') && m > 0 && label_char(s[i - 1]));
        if !ok {
            assert(!label_run_ok_at(t, m as int));
            assert forall|j: int| #![trigger domain_at(t, j)] true implies !domain_at(t, j) by {
                if domain_at(t, j) {
                    if j > m {
                        assert(label_run_ok_at(t.subrange(0, j), m as int));
                    } else if j == m {
                        assert(t.subrange(0, j).last() == t[m - 1]);
                    }
                }
            }
            return false;
        }
        proof {
            assert forall|j: int| 0 <= j < i + 1 - from implies !#[trigger] domain_at(t, j) by {
                if j == m && domain_at(t, j) {
                    assert(t.subrange(0, j).last() == t[m - 1]);
                }
            }
        }
        i = i + 1;
    }
    assert forall|j: int| #![trigger domain_at(t, j)] true implies !domain_at(t, j) by {}
    false
}

pub fn is_email(s: &Vec<char>) -> (r: bool)
    ensures
        r == email_shape(s@),
{
    let n = s.len();
    let mut k: usize = 0;
    while k < n && (local_char(s[k]) || s[k] == '.')
        invariant
            k <= n == s@.len(),
            forall|q: int| 0 <= q < k ==> is_local_char(#[trigger] s@[q]) || s@[q] == '.',
        decreases n - k,
    {
        k = k + 1;
    }
    if k == n || s[k] != '@' || k == 0 || s[0] == '.' || s[k - 1] == '.' {
        proof {
            assert forall|k2: int, j: int|
                #![trigger domain_at(s@.subrange(k2 + 1, s@.len() as int), j)]
                0 <= k2 < s@.len() && s@[k2] == '@' && email_local_shape(s@.subrange(0, k2))
                    implies !domain_at(s@.subrange(k2 + 1, s@.len() as int), j) by {
                if k2 > k {
                    assert(s@.subrange(0, k2)[k as int] == s@[k as int]);
                } else if k2 == k {
                    assert(s@.subrange(0, k2)[0] == s@[0]);
                    assert(s@.subrange(0, k2).last() == s@[k - 1]);
                }
            }
        }
        return false;
    }
    let found = domain_from(s, k + 1);
    proof {
        let l = s@.subrange(0, k as int);
        assert forall|q: int| 0 <= q < l.len() implies is_local_char(#[trigger] l[q]) || l[q] == '.' by {}
        assert(email_local_shape(l));
        if found {
            let j = choose|j: int| #[trigger] domain_at(s@.subrange(k as int + 1, s@.len() as int), j);
            assert(domain_at(s@.subrange(k as int + 1, s@.len() as int), j));
        } else {
            assert forall|k2: int, j: int|
                #![trigger domain_at(s@.subrange(k2 + 1, s@.len() as int), j)]
                0 <= k2 < s@.len() && s@[k2] == '@' && email_local_shape(s@.subrange(0, k2))
                    implies !domain_at(s@.subrange(k2 + 1, s@.len() as int), j) by {
                if k2 > k {
                    assert(s@.subrange(0, k2)[k as int] == s@[k as int]);
                }
            }
        }
    }
    found
}

} // verus!
