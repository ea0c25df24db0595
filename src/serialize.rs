//! The descriptor string: a header, then one `*KEY:value` segment per present
//! field, in a fixed order.
use vstd::prelude::*;
use vstd::string::StringExecFns;
use crate::grammar::is_upper;
use crate::laws::{
    delimiters_separate, lemma_no_adjacent_delimiters, lemma_one_segment_per_present_field,
    optional_field_count, star_count, star_free,
};
use crate::record::{NotifyType, PaymentType, Spayd, SpaydError};
use crate::validate::{currency_known_of, validation};

verus! {

/// `SPD*1.0`: the protocol header and its version.
pub open spec fn header() -> Seq<char> {
    seq!['S', 'P', 'D', '*', '1', '.', '0']
}

pub open spec fn segment(key: Seq<char>, value: Seq<char>) -> Seq<char> {
    seq!['*'] + key + seq![':'] + value
}

pub open spec fn optional_segment(key: Seq<char>, value: Option<String>) -> Seq<char> {
    match value {
        Some(v) => segment(key, v@),
        None => Seq::empty(),
    }
}

pub open spec fn payment_type_code(p: PaymentType) -> Seq<char> {
    match p {
        PaymentType::Instant => seq!['I', 'P'],
        PaymentType::Other(s) => s@,
    }
}

pub open spec fn notify_code(n: NotifyType) -> Seq<char> {
    match n {
        NotifyType::Phone => seq!['P'],
        NotifyType::Email => seq!['E'],
    }
}

pub open spec fn payment_type_segment(p: Option<PaymentType>) -> Seq<char> {
    match p {
        Some(p) => segment(seq!['P', 'T'], payment_type_code(p)),
        None => Seq::empty(),
    }
}

pub open spec fn notify_segment(n: Option<NotifyType>) -> Seq<char> {
    match n {
        Some(n) => segment(seq!['N', 'T'], notify_code(n)),
        None => Seq::empty(),
    }
}

/// The header and the two mandatory segments.
pub open spec fn mandatory_part(s: Spayd) -> Seq<char> {
    header() + segment(seq!['A', 'C', 'C'], s.account@) + segment(seq!['A', 'M'], s.amount@)
}

/// The descriptor string of a record: the mandatory part, then a segment for
/// each present optional field, in this fixed order.
pub open spec fn descriptor(s: Spayd) -> Seq<char> {
    mandatory_part(s) + optional_segment(seq!['C', 'C'], s.currency) + optional_segment(
        seq!['R', 'F'],
        s.reference,
    ) + optional_segment(seq!['R', 'N'], s.recipient) + optional_segment(seq!['D', 'T'], s.date)
        + payment_type_segment(s.payment_type) + optional_segment(seq!['M', 'S', 'G'], s.message)
        + notify_segment(s.notify) + optional_segment(seq!['N', 'T', 'A'], s.notify_address)
}

fn push_segment(out: &mut String, key: &str, value: &str)
    ensures
        final(out)@ == old(out)@ + segment(key@, value@),
{
    out.append("*");
    out.append(key);
    out.append(":");
    out.append(value);
    proof {
        reveal_strlit("*");
        reveal_strlit(":");
        assert(final(out)@ =~= old(out)@ + segment(key@, value@));
    }
}

fn push_optional(out: &mut String, key: &str, value: &Option<String>)
    ensures
        final(out)@ == old(out)@ + optional_segment(key@, *value),
{
    match value {
        Some(v) => push_segment(out, key, v.as_str()),
        None => {
            assert(out@ =~= out@ + Seq::<char>::empty());
        },
    }
}

proof fn lemma_key_literals()
    ensures
        "ACC"@ == seq!['A', 'C', 'C'],
        "AM"@ == seq!['A', 'M'],
        "CC"@ == seq!['C', 'C'],
        "RF"@ == seq!['R', 'F'],
        "RN"@ == seq!['R', 'N'],
        "DT"@ == seq!['D', 'T'],
        "PT"@ == seq!['P', 'T'],
        "MSG"@ == seq!['M', 'S', 'G'],
        "NT"@ == seq!['N', 'T'],
        "NTA"@ == seq!['N', 'T', 'A'],
        "IP"@ == seq!['I', 'P'],
        "P"@ == seq!['P'],
        "E"@ == seq!['E'],
{
    reveal_strlit("ACC");
    reveal_strlit("AM");
    reveal_strlit("CC");
    reveal_strlit("RF");
    reveal_strlit("RN");
    reveal_strlit("DT");
    reveal_strlit("PT");
    reveal_strlit("MSG");
    reveal_strlit("NT");
    reveal_strlit("NTA");
    reveal_strlit("IP");
    reveal_strlit("P");
    reveal_strlit("E");
    assert("ACC"@ =~= seq!['A', 'C', 'C']);
    assert("AM"@ =~= seq!['A', 'M']);
    assert("CC"@ =~= seq!['C', 'C']);
    assert("RF"@ =~= seq!['R', 'F']);
    assert("RN"@ =~= seq!['R', 'N']);
    assert("DT"@ =~= seq!['D', 'T']);
    assert("PT"@ =~= seq!['P', 'T']);
    assert("MSG"@ =~= seq!['M', 'S', 'G']);
    assert("NT"@ =~= seq!['N', 'T']);
    assert("NTA"@ =~= seq!['N', 'T', 'A']);
    assert("IP"@ =~= seq!['I', 'P']);
    assert("P"@ =~= seq!['P']);
    assert("E"@ =~= seq!['E']);
}

impl Spayd {
    fn build_string(&self) -> (r: String)
        ensures
            r@ == descriptor(*self),
    {
        let mut out = String::from_str("SPD*1.0");
        proof {
            reveal_strlit("SPD*1.0");
            assert(out@ =~= header());
            lemma_key_literals();
        }
        push_segment(&mut out, "ACC", self.account.as_str());
        push_segment(&mut out, "AM", self.amount.as_str());
        let ghost mandatory = out@;
        assert(mandatory =~= mandatory_part(*self));
        push_optional(&mut out, "CC", &self.currency);
        push_optional(&mut out, "RF", &self.reference);
        push_optional(&mut out, "RN", &self.recipient);
        push_optional(&mut out, "DT", &self.date);
        let ghost before_pt = out@;
        match &self.payment_type {
            Some(p) => {
                let code: &str = match p {
                    PaymentType::Instant => "IP",
                    PaymentType::Other(s) => s.as_str(),
                };
                push_segment(&mut out, "PT", code);
            },
            None => {},
        }
        assert(out@ =~= before_pt + payment_type_segment(self.payment_type));
        push_optional(&mut out, "MSG", &self.message);
        let ghost before_nt = out@;
        match &self.notify {
            Some(n) => {
                let code: &str = match n {
                    NotifyType::Phone => "P",
                    NotifyType::Email => "E",
                };
                push_segment(&mut out, "NT", code);
            },
            None => {},
        }
        assert(out@ =~= before_nt + notify_segment(self.notify));
        push_optional(&mut out, "NTA", &self.notify_address);
        assert(out@ == descriptor(*self));
        out
    }

    /// The descriptor string, without validating the record first.
    pub fn spayd_string_unchecked(&self) -> (r: String)
        ensures
            r@ == descriptor(*self),
    {
        self.build_string()
    }

    /// The descriptor string of a valid record, or the first field error.
    pub fn spayd_string(&self) -> (r: Result<String, SpaydError>)
        ensures
            validation(*self, currency_known_of(*self)) is Ok <==> r is Ok,
            r is Ok ==> r.unwrap()@ == descriptor(*self),
            r is Err ==> validation(*self, currency_known_of(*self)) == Err::<(), _>(r->Err_0),
            r is Ok && (self.notify_address is Some ==> star_free(self.notify_address->0@))
                ==> delimiters_separate(r->Ok_0@) && star_count(r->Ok_0@) == 3
                + optional_field_count(*self),
    {
        match self.validate() {
            Ok(()) => {
                proof {
                    if self.currency is Some {
                        let c = self.currency->0@;
                        assert forall|i: int| 0 <= i < c.len() implies #[trigger] c[i] != '*' by {
                            assert(is_upper(c[i]));
                        }
                    }
                    if self.notify_address is Some ==> star_free(self.notify_address->0@) {
                        lemma_no_adjacent_delimiters(*self, currency_known_of(*self));
                        lemma_one_segment_per_present_field(*self, currency_known_of(*self));
                    }
                }
                Ok(self.build_string())
            },
            Err(e) => Err(e),
        }
    }
}

} // verus!
