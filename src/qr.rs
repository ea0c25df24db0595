//! QR symbols of descriptor strings, made by the `qrcode` crate.
use vstd::prelude::*;
use qrcode::types::QrError;
use qrcode::QrCode;
use crate::record::{Spayd, SpaydError};
use crate::serialize::descriptor;
use crate::validate::{currency_known_of, validation};

verus! {

#[verifier::external_type_specification]
#[verifier::external_body]
pub struct ExQrCode(QrCode);

#[verifier::external_type_specification]
#[verifier::external_body]
pub struct ExQrError(QrError);

/// Whether `qrcode::QrCode::new` can encode the UTF-8 bytes of `text`.
pub uninterp spec fn qr_accepts(text: Seq<char>) -> bool;

/// Relies on `qrcode::QrCode::new`: encodes the bytes at the medium error
/// correction level, or says why it cannot (the data may be too long); which
/// of the two depends on the bytes alone.
#[verifier::external_body]
fn encode_qr(text: &String) -> (r: Result<QrCode, QrError>)
    ensures
        r is Ok <==> qr_accepts(text@),
{
    QrCode::new(text.as_bytes())
}

impl Spayd {
    /// A QR symbol of the descriptor of a valid record. The outer error is the
    /// record's first field error; the inner result is the encoder's, on the
    /// descriptor string.
    pub fn qrcode(&self) -> (r: Result<Result<QrCode, QrError>, SpaydError>)
        ensures
            validation(*self, currency_known_of(*self)) is Ok <==> r is Ok,
            r is Err ==> validation(*self, currency_known_of(*self)) == Err::<(), _>(r->Err_0),
            r is Ok ==> (r->Ok_0 is Ok <==> qr_accepts(descriptor(*self))),
    {
        match self.spayd_string() {
            Ok(text) => Ok(encode_qr(&text)),
            Err(e) => Err(e),
        }
    }
}

} // verus!
