//! Invoices and the text of the file that holds one: each identifier in
//! URL-safe base64, the payment in decimal.
use vstd::prelude::*;
use crate::ids::{InvoiceId, PublicKey};
use crate::text_encoding::{
    base64_url_bytes, base64_url_text, decimal_text, lemma_decimal_round_trip, decimal_value, decode_base64_url,
    encode_base64_url, u128_from_decimal, u128_to_decimal,
};

verus! {

/// An invoice: what a buyer must pay, to whom, for what.
#[derive(Clone, Copy, Debug, PartialEq, Eq)]
pub struct Invoice {
    pub invoice_id: InvoiceId,
    pub dest_public_key: PublicKey,
    pub dest_payment: u128,
}

/// The fields of an invoice file, as the text that the file holds.
#[derive(Clone, Debug, PartialEq, Eq)]
pub struct InvoiceFile {
    pub invoice_id: String,
    pub dest_public_key: String,
    pub dest_payment: String,
}

/// Why an invoice file could not be read or written.
#[derive(Clone, Copy, Debug, PartialEq, Eq, Structural)]
pub enum InvoiceFileError {
    IoError,
    TomlDeError,
    TomlSeError,
    SerStringError,
}

/// The 32 bytes that a base64 field stands for, if it is valid and holds
/// exactly 32 bytes.
pub open spec fn field_bytes32(text: Seq<char>) -> Option<Seq<u8>> {
    match base64_url_bytes(text) {
        Some(b) => if b.len() == 32 { Some(b) } else { None },
        None => None,
    }
}

/// The invoice that the fields of a file stand for, if every field is
/// valid.
pub open spec fn invoice_of_fields(invoice_id: Seq<char>, dest_public_key: Seq<char>, dest_payment: Seq<char>) -> Option<Invoice> {
    match (field_bytes32(invoice_id), field_bytes32(dest_public_key), decimal_value(dest_payment)) {
        (Some(i), Some(k), Some(p)) => Some(Invoice {
            invoice_id: InvoiceId(bytes32_of(i)),
            dest_public_key: PublicKey(bytes32_of(k)),
            dest_payment: p,
        }),
        _ => None,
    }
}

/// The array holding a sequence of 32 bytes.
pub open spec fn bytes32_of(s: Seq<u8>) -> [u8; 32] {
    choose|a: [u8; 32]| a@ == s
}

/// Copies 32 bytes into an array.
fn bytes32_from(v: &Vec<u8>) -> (r: [u8; 32])
    requires
        v@.len() == 32,
    ensures
        r@ == v@,
        r == bytes32_of(v@),
{
    let mut r: [u8; 32] = [0u8; 32];
    let mut i: usize = 0;
    while i < 32
        invariant
            i <= 32,
            v@.len() == 32,
            r@.len() == 32,
            forall|j: int| 0 <= j < i ==> r@[j] == v@[j],
        decreases 32 - i,
    {
        r[i] = v[i];
        i = i + 1;
    }
    assert(r@ =~= v@);
    proof {
        let a = bytes32_of(v@);
        assert(a@ == v@);
        assert(a =~= r);
    }
    r
}

/// The fields of the file that holds an invoice. Reading them back gives
/// the same invoice.
pub fn invoice_to_file(invoice: &Invoice) -> (r: InvoiceFile)
    ensures
        r.invoice_id@ == base64_url_text(invoice.invoice_id.0@),
        r.dest_public_key@ == base64_url_text(invoice.dest_public_key.0@),
        r.dest_payment@ == decimal_text(invoice.dest_payment),
        invoice_of_fields(r.invoice_id@, r.dest_public_key@, r.dest_payment@) == Some(*invoice),
{
    let r = InvoiceFile {
        invoice_id: encode_base64_url(invoice.invoice_id.0.as_slice()),
        dest_public_key: encode_base64_url(invoice.dest_public_key.0.as_slice()),
        dest_payment: u128_to_decimal(invoice.dest_payment),
    };
    proof {
        lemma_bytes32_of_view(invoice.invoice_id.0);
        lemma_bytes32_of_view(invoice.dest_public_key.0);
        lemma_decimal_round_trip(invoice.dest_payment);
    }
    r
}

/// An array is the array that its bytes stand for.
pub proof fn lemma_bytes32_of_view(a: [u8; 32])
    ensures
        bytes32_of(a@) == a,
{
    let b = bytes32_of(a@);
    assert(b@ == a@);
    assert(b =~= a);
}

/// Distinct invoices have distinct file fields: fields that stand for two
/// invoices stand for the same one.
pub proof fn lemma_invoice_fields_injective(a: Invoice, b: Invoice, fa: InvoiceFile, fb: InvoiceFile)
    requires
        invoice_of_fields(fa.invoice_id@, fa.dest_public_key@, fa.dest_payment@) == Some(a),
        invoice_of_fields(fb.invoice_id@, fb.dest_public_key@, fb.dest_payment@) == Some(b),
        fa.invoice_id@ == fb.invoice_id@,
        fa.dest_public_key@ == fb.dest_public_key@,
        fa.dest_payment@ == fb.dest_payment@,
    ensures
        a == b,
{
}

/// Decodes a 32-byte identifier field.
fn decode_bytes32(text: &str) -> (r: Option<[u8; 32]>)
    ensures
        match r {
            Some(a) => field_bytes32(text@) == Some(a@) && a == bytes32_of(a@),
            None => field_bytes32(text@) is None,
        },
{
    match decode_base64_url(text) {
        Ok(v) => if v.len() == 32 {
            Some(bytes32_from(&v))
        } else {
            None
        },
        Err(_) => None,
    }
}

/// The invoice that the fields of a file hold. A field that is not valid
/// fails the file's deserialization, a `TomlDeError`.
pub fn invoice_from_file(file: &InvoiceFile) -> (r: Result<Invoice, InvoiceFileError>)
    ensures
        match invoice_of_fields(file.invoice_id@, file.dest_public_key@, file.dest_payment@) {
            Some(invoice) => r == Ok::<Invoice, InvoiceFileError>(invoice),
            None => r == Err::<Invoice, InvoiceFileError>(InvoiceFileError::TomlDeError),
        },
{
    let invoice_id = match decode_bytes32(file.invoice_id.as_str()) {
        Some(a) => a,
        None => return Err(InvoiceFileError::TomlDeError),
    };
    let dest_public_key = match decode_bytes32(file.dest_public_key.as_str()) {
        Some(a) => a,
        None => return Err(InvoiceFileError::TomlDeError),
    };
    let dest_payment = match u128_from_decimal(file.dest_payment.as_str()) {
        Ok(n) => n,
        Err(_) => return Err(InvoiceFileError::TomlDeError),
    };
    Ok(Invoice {
        invoice_id: InvoiceId(invoice_id),
        dest_public_key: PublicKey(dest_public_key),
        dest_payment,
    })
}

} // verus!
