use offst_funder::ids::{InvoiceId, PublicKey};
use offst_funder::invoice::{invoice_from_file, invoice_to_file, Invoice, InvoiceFile, InvoiceFileError};

fn sample() -> Invoice {
    Invoice {
        invoice_id: InvoiceId([0; 32]),
        dest_public_key: PublicKey([1; 32]),
        dest_payment: 100,
    }
}

#[test]
fn invoice_fields_round_trip() {
    let invoice = sample();
    let file = invoice_to_file(&invoice);
    let invoice2 = invoice_from_file(&file).unwrap();
    assert_eq!(invoice, invoice2);
}

#[test]
fn invoice_fields_text() {
    let file = invoice_to_file(&sample());
    assert_eq!(file.invoice_id, "A".repeat(43));
    assert_eq!(file.dest_public_key, "AQEBAQEBAQEBAQEBAQEBAQEBAQEBAQEBAQEBAQEBAQE");
    assert_eq!(file.dest_payment, "100");
}

#[test]
fn invoice_from_file_rejects_bad_base64() {
    let mut file = invoice_to_file(&sample());
    file.invoice_id = "not base64!".to_string();
    assert_eq!(invoice_from_file(&file), Err(InvoiceFileError::TomlDeError));
}

#[test]
fn invoice_from_file_rejects_wrong_length() {
    let mut file = invoice_to_file(&sample());
    file.dest_public_key = "AAAA".to_string();
    assert_eq!(invoice_from_file(&file), Err(InvoiceFileError::TomlDeError));
}

#[test]
fn invoice_from_file_rejects_bad_amount() {
    let mut file = invoice_to_file(&sample());
    file.dest_payment = "-5".to_string();
    assert_eq!(invoice_from_file(&file), Err(InvoiceFileError::TomlDeError));
    let file2 = InvoiceFile { dest_payment: "340282366920938463463374607431768211456".to_string(), ..invoice_to_file(&sample()) };
    assert_eq!(invoice_from_file(&file2), Err(InvoiceFileError::TomlDeError));
}

#[test]
fn invoice_from_file_reads_max_amount() {
    let file = InvoiceFile { dest_payment: "340282366920938463463374607431768211455".to_string(), ..invoice_to_file(&sample()) };
    assert_eq!(invoice_from_file(&file).unwrap().dest_payment, u128::MAX);
}

#[test]
fn distinct_invoices_have_distinct_fields() {
    let a = sample();
    let b = Invoice { dest_payment: 101, ..sample() };
    let c = Invoice { invoice_id: InvoiceId([2; 32]), ..sample() };
    assert_ne!(invoice_to_file(&a), invoice_to_file(&b));
    assert_ne!(invoice_to_file(&a), invoice_to_file(&c));
    assert_eq!(invoice_from_file(&invoice_to_file(&b)), Ok(b));
    assert_eq!(invoice_from_file(&invoice_to_file(&c)), Ok(c));
}

#[test]
fn max_invoice_round_trips() {
    let invoice = Invoice {
        invoice_id: InvoiceId([255; 32]),
        dest_public_key: PublicKey([254; 32]),
        dest_payment: u128::MAX,
    };
    assert_eq!(invoice_from_file(&invoice_to_file(&invoice)), Ok(invoice));
}
