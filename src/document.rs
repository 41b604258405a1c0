//! The text that the invoice document shows, built from a finished record.

use vstd::prelude::*;
use crate::assembly::InvoiceRecord;
use crate::date::{dmy_text, format_dmy};
use crate::text::{amount_spec, dec, decimal, format_amount, signed_dec, signed_decimal};

verus! {

/// Invoice number, month and year of the service date, joined by `sep`.
pub open spec fn id_parts(rec: InvoiceRecord, sep: Seq<char>) -> Seq<char> {
    dec(rec.invoice_number as nat) + sep + dec(rec.service_date.month as nat) + sep
        + signed_dec(rec.service_date.year as int)
}

pub open spec fn invoice_id_spec(rec: InvoiceRecord) -> Seq<char> {
    id_parts(rec, "/"@)
}

pub open spec fn file_name_spec(rec: InvoiceRecord) -> Seq<char> {
    id_parts(rec, "-"@) + ".pdf"@
}

pub open spec fn title_spec(rec: InvoiceRecord) -> Seq<char> {
    "Faktura VAT / Invoice Nr. "@ + invoice_id_spec(rec)
}

pub open spec fn dates_spec(rec: InvoiceRecord) -> Seq<char> {
    "Data wystawienia / Issue date: "@ + dmy_text(rec.issue_date) + "\nData sprzedaży / Service date: "@
        + dmy_text(rec.service_date) + "\nTermin zaplaty / Due date: "@ + dmy_text(rec.due_date)
}

pub open spec fn banking_spec(rec: InvoiceRecord) -> Seq<char> {
    "Numer konta / Account:\n"@ + rec.account.number@ + "\nBank beneficjenta / Beneficiary bank:\n"@
        + rec.account.bank@ + "\nSWIFT: "@ + rec.account.swift@
}

pub open spec fn supplier_spec(rec: InvoiceRecord) -> Seq<char> {
    rec.supplier.name@ + "\n"@ + rec.supplier.address@ + "\nNIP: "@ + rec.supplier.nip@ + "\n\n"@
        + banking_spec(rec)
}

pub open spec fn customer_spec(rec: InvoiceRecord) -> Seq<char> {
    rec.customer.name@ + "\n"@ + rec.customer.address@
}

pub open spec fn total_spec(rec: InvoiceRecord) -> Seq<char> {
    "  Kwota do zapłaty / Amount to pay: "@ + amount_spec(rec.amount as int) + " EUR"@
}

/// The column titles of the service table.
pub open spec fn header_cells_spec() -> Seq<Seq<char>> {
    seq![
        "Usługa / Service"@,
        "J.m."@,
        "Netto, EUR"@,
        "VAT stawka"@,
        "VAT, PLN"@,
        "Brutto, EUR"@,
    ]
}

/// The one data row of the service table: no VAT applies, so net and gross
/// are both the amount.
pub open spec fn service_cells_spec(rec: InvoiceRecord) -> Seq<Seq<char>> {
    seq![
        rec.service@,
        "usługa"@,
        amount_spec(rec.amount as int),
        "NP"@,
        "0.00"@,
        amount_spec(rec.amount as int),
    ]
}

/// Invoice number, number of the service month and the service year,
/// separated by `sep`.
fn id_with(rec: &InvoiceRecord, sep: &str) -> (r: String)
    ensures
        r@ == id_parts(*rec, sep@),
{
    let mut s = decimal(rec.invoice_number);
    s.append(sep);
    let m = decimal(rec.service_date.month as u64);
    s.append(m.as_str());
    s.append(sep);
    let y = signed_decimal(rec.service_date.year as i64);
    s.append(y.as_str());
    s
}

/// The invoice identifier: `number/month/year` of the service date.
pub fn generate_invoice_number(rec: &InvoiceRecord) -> (r: String)
    ensures
        r@ == invoice_id_spec(*rec),
{
    id_with(rec, "/")
}

/// The name of the document's file: `number-month-year.pdf`.
pub fn file_name(rec: &InvoiceRecord) -> (r: String)
    ensures
        r@ == file_name_spec(*rec),
{
    let mut s = id_with(rec, "-");
    s.append(".pdf");
    s
}

/// The heading line with the invoice identifier.
pub fn title(rec: &InvoiceRecord) -> (r: String)
    ensures
        r@ == title_spec(*rec),
{
    let mut s = String::from_str("Faktura VAT / Invoice Nr. ");
    let id = generate_invoice_number(rec);
    s.append(id.as_str());
    s
}

/// Issue, service and due date, one per line.
pub fn generate_dates(rec: &InvoiceRecord) -> (r: String)
    requires
        rec.issue_date.wf(),
        rec.service_date.wf(),
        rec.due_date.wf(),
    ensures
        r@ == dates_spec(*rec),
{
    let mut s = String::from_str("Data wystawienia / Issue date: ");
    let d = format_dmy(&rec.issue_date);
    s.append(d.as_str());
    s.append("\nData sprzedaży / Service date: ");
    let d = format_dmy(&rec.service_date);
    s.append(d.as_str());
    s.append("\nTermin zaplaty / Due date: ");
    let d = format_dmy(&rec.due_date);
    s.append(d.as_str());
    s
}

/// Account number, bank and SWIFT code, with their labels.
pub fn generate_banking_details(rec: &InvoiceRecord) -> (r: String)
    ensures
        r@ == banking_spec(*rec),
{
    let mut s = String::from_str("Numer konta / Account:\n");
    s.append(rec.account.number.as_str());
    s.append("\nBank beneficjenta / Beneficiary bank:\n");
    s.append(rec.account.bank.as_str());
    s.append("\nSWIFT: ");
    s.append(rec.account.swift.as_str());
    s
}

/// The supplier's name, address and tax identifier, then the banking details.
pub fn generate_supplier(rec: &InvoiceRecord) -> (r: String)
    ensures
        r@ == supplier_spec(*rec),
{
    let mut s = rec.supplier.name.clone();
    s.append("\n");
    s.append(rec.supplier.address.as_str());
    s.append("\nNIP: ");
    s.append(rec.supplier.nip.as_str());
    s.append("\n\n");
    let b = generate_banking_details(rec);
    s.append(b.as_str());
    s
}

/// The customer's name and address.
pub fn generate_customer(rec: &InvoiceRecord) -> (r: String)
    ensures
        r@ == customer_spec(*rec),
{
    let mut s = rec.customer.name.clone();
    s.append("\n");
    s.append(rec.customer.address.as_str());
    s
}

/// The closing line that restates the amount.
pub fn total_line(rec: &InvoiceRecord) -> (r: String)
    ensures
        r@ == total_spec(*rec),
{
    let mut s = String::from_str("  Kwota do zapłaty / Amount to pay: ");
    let a = format_amount(rec.amount);
    s.append(a.as_str());
    s.append(" EUR");
    s
}

/// The column titles of the service table.
pub fn header_cells() -> (r: Vec<String>)
    ensures
        r@.len() == 6,
        forall|i: int| 0 <= i < 6 ==> #[trigger] r@[i]@ == header_cells_spec()[i],
{
    let mut v = Vec::new();
    v.push(String::from_str("Usługa / Service"));
    v.push(String::from_str("J.m."));
    v.push(String::from_str("Netto, EUR"));
    v.push(String::from_str("VAT stawka"));
    v.push(String::from_str("VAT, PLN"));
    v.push(String::from_str("Brutto, EUR"));
    v
}

/// The data row of the service table.
pub fn service_cells(rec: &InvoiceRecord) -> (r: Vec<String>)
    ensures
        r@.len() == 6,
        forall|i: int| 0 <= i < 6 ==> #[trigger] r@[i]@ == service_cells_spec(*rec)[i],
{
    let mut v = Vec::new();
    v.push(rec.service.clone());
    v.push(String::from_str("usługa"));
    v.push(format_amount(rec.amount));
    v.push(String::from_str("NP"));
    v.push(String::from_str("0.00"));
    v.push(format_amount(rec.amount));
    v
}

} // verus!
