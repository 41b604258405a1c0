use invoice::assembly::{
    is_valid_invoice_number, Answer, AnswerError, Assembly, InvoiceRecord, Step,
    DEFAULT_INVOICE_NUMBER,
};
use invoice::config::{Account, Config, Customer, MissingEntry, Supplier};
use invoice::date::{
    days_in_month, default_due_date, default_issue_date, default_service_date, leap_year, Date,
};
use invoice::document::{
    file_name, generate_banking_details, generate_customer, generate_dates,
    generate_invoice_number, generate_supplier, header_cells, service_cells, title, total_line,
};
use invoice::text::{decimal, format_amount, padded_decimal, signed_decimal};

fn date(y: i32, m: u32, d: u32) -> Date {
    Date::new(y, m, d).unwrap()
}

fn sample_config() -> Config {
    Config {
        suppliers: vec![
            Supplier {
                name: "Alpha".to_string(),
                address: "Street 1".to_string(),
                nip: "111".to_string(),
            },
            Supplier {
                name: "Beta".to_string(),
                address: "Street 2".to_string(),
                nip: "222".to_string(),
            },
        ],
        accounts: vec![Account {
            number: "PL001".to_string(),
            bank: "First Bank".to_string(),
            swift: "FBXXPLPW".to_string(),
        }],
        customers: vec![Customer {
            name: "Gamma Ltd".to_string(),
            address: "Road 3".to_string(),
        }],
        services: vec!["Consulting".to_string(), "Development".to_string()],
    }
}

fn sample_record() -> InvoiceRecord {
    let c = sample_config();
    InvoiceRecord {
        invoice_number: 3,
        issue_date: date(2024, 12, 2),
        service_date: date(2024, 11, 30),
        due_date: date(2024, 12, 5),
        supplier: c.suppliers[0].clone(),
        service: "Consulting".to_string(),
        amount: 150000,
        account: c.accounts[0].clone(),
        customer: c.customers[0].clone(),
    }
}

#[test]
fn validate_accepts_complete_config() {
    assert_eq!(sample_config().validate(), Ok(()));
    assert_eq!(Config::default().validate(), Ok(()));
}

#[test]
fn validate_names_missing_supplier() {
    let mut c = sample_config();
    c.suppliers.clear();
    assert_eq!(c.validate(), Err(MissingEntry::Supplier));
    assert_eq!(
        MissingEntry::Supplier.message(),
        "Please add at list one business to the config file."
    );
}

#[test]
fn validate_names_missing_account() {
    let mut c = sample_config();
    c.accounts.clear();
    assert_eq!(c.validate(), Err(MissingEntry::Account));
    assert_eq!(MissingEntry::Account.noun(), "account");
}

#[test]
fn validate_names_missing_customer() {
    let mut c = sample_config();
    c.customers.clear();
    assert_eq!(c.validate(), Err(MissingEntry::Customer));
    assert_eq!(MissingEntry::Customer.noun(), "customer");
}

#[test]
fn validate_names_missing_service() {
    let mut c = sample_config();
    c.services.clear();
    assert_eq!(c.validate(), Err(MissingEntry::Service));
    assert_eq!(MissingEntry::Service.noun(), "service");
}

#[test]
fn validate_names_first_missing_list() {
    let mut c = sample_config();
    c.accounts.clear();
    c.services.clear();
    assert_eq!(c.validate(), Err(MissingEntry::Account));
}

#[test]
fn default_config_has_one_placeholder_each() {
    let c = Config::default();
    assert_eq!(c.suppliers.len(), 1);
    assert_eq!(c.suppliers[0].name, "Yanka Kupala");
    assert_eq!(c.suppliers[0].address, "Minsk, vul. Kupaly, 1");
    assert_eq!(c.suppliers[0].nip, "1234567890");
    assert_eq!(c.accounts[0].number, "XX00000000000000000000000000");
    assert_eq!(c.accounts[0].bank, "Bank Name");
    assert_eq!(c.accounts[0].swift, "XXXXXXXX");
    assert_eq!(c.customers[0].name, "Acme Inc");
    assert_eq!(c.customers[0].address, "Earth, Elm str. 8/12-17");
    assert_eq!(c.services, vec!["Doing stuff".to_string()]);
}

#[test]
fn labels_of_entities() {
    let c = sample_config();
    assert_eq!(c.suppliers[0].label(), "Alpha | NIP: 111");
    assert_eq!(c.accounts[0].label(), "PL001");
    assert_eq!(c.customers[0].label(), "Gamma Ltd");
}

#[test]
fn date_new_checks_calendar() {
    assert!(Date::new(2024, 2, 29).is_some());
    assert!(Date::new(2023, 2, 29).is_none());
    assert!(Date::new(2024, 13, 1).is_none());
    assert!(Date::new(2024, 0, 1).is_none());
    assert!(Date::new(2024, 4, 31).is_none());
    assert!(Date::new(2024, 4, 0).is_none());
    assert_eq!(Date::new(2024, 5, 7), Some(Date { year: 2024, month: 5, day: 7 }));
}

#[test]
fn leap_years() {
    assert!(leap_year(2024));
    assert!(!leap_year(2023));
    assert!(!leap_year(1900));
    assert!(leap_year(2000));
    assert!(leap_year(-4));
    assert_eq!(days_in_month(2024, 2), 29);
    assert_eq!(days_in_month(1900, 2), 28);
    assert_eq!(days_in_month(2024, 4), 30);
    assert_eq!(days_in_month(2024, 1), 31);
}

#[test]
fn issue_date_default_is_today() {
    let today = date(2024, 11, 14);
    assert_eq!(default_issue_date(&today), today);
}

#[test]
fn service_date_default_is_last_day_of_month() {
    assert_eq!(default_service_date(&date(2024, 11, 14)), date(2024, 11, 30));
    assert_eq!(default_service_date(&date(2024, 2, 1)), date(2024, 2, 29));
    assert_eq!(default_service_date(&date(2023, 2, 28)), date(2023, 2, 28));
    assert_eq!(default_service_date(&date(2024, 1, 31)), date(2024, 1, 31));
}

#[test]
fn service_date_default_in_december_stays_in_year() {
    assert_eq!(default_service_date(&date(2024, 12, 10)), date(2024, 12, 31));
}

#[test]
fn due_date_default_is_fifth_of_next_month() {
    assert_eq!(default_due_date(&date(2024, 11, 14)), date(2024, 12, 5));
    assert_eq!(default_due_date(&date(2024, 1, 31)), date(2024, 2, 5));
}

#[test]
fn due_date_default_in_december_is_held_at_december() {
    assert_eq!(default_due_date(&date(2024, 12, 20)), date(2024, 12, 5));
}

#[test]
fn invoice_number_validator() {
    assert!(!is_valid_invoice_number(0));
    assert!(!is_valid_invoice_number(-1));
    assert!(!is_valid_invoice_number(i64::MIN));
    assert!(is_valid_invoice_number(1));
    assert!(is_valid_invoice_number(2));
    assert!(is_valid_invoice_number(DEFAULT_INVOICE_NUMBER));
}

#[test]
fn invoice_identifier_and_file_name() {
    let rec = sample_record();
    assert_eq!(generate_invoice_number(&rec), "3/11/2024");
    assert_eq!(file_name(&rec), "3-11-2024.pdf");
    assert_eq!(title(&rec), "Faktura VAT / Invoice Nr. 3/11/2024");
}

#[test]
fn amount_formatting() {
    assert_eq!(format_amount(150000), "1500.00");
    assert_eq!(format_amount(0), "0.00");
    assert_eq!(format_amount(5), "0.05");
    assert_eq!(format_amount(1234567), "12345.67");
    assert_eq!(format_amount(-5), "-0.05");
    assert_eq!(format_amount(i64::MIN), "-92233720368547758.08");
}

#[test]
fn decimal_notation() {
    assert_eq!(decimal(0), "0");
    assert_eq!(decimal(1500), "1500");
    assert_eq!(decimal(u64::MAX), "18446744073709551615");
    assert_eq!(signed_decimal(-42), "-42");
    assert_eq!(signed_decimal(i64::MIN), "-9223372036854775808");
    assert_eq!(padded_decimal(7, 2), "07");
    assert_eq!(padded_decimal(5, 4), "0005");
    assert_eq!(padded_decimal(123, 2), "123");
}

#[test]
fn dates_block() {
    let rec = sample_record();
    assert_eq!(
        generate_dates(&rec),
        "Data wystawienia / Issue date: 02-12-2024\n\
         Data sprzedaży / Service date: 30-11-2024\n\
         Termin zaplaty / Due date: 05-12-2024"
    );
}

#[test]
fn dates_block_with_unusual_years() {
    let mut rec = sample_record();
    rec.issue_date = date(5, 1, 9);
    rec.service_date = date(-5, 3, 1);
    rec.due_date = date(12345, 10, 10);
    assert_eq!(
        generate_dates(&rec),
        "Data wystawienia / Issue date: 09-01-0005\n\
         Data sprzedaży / Service date: 01-03--0005\n\
         Termin zaplaty / Due date: 10-10-+12345"
    );
}

#[test]
fn supplier_and_customer_blocks() {
    let rec = sample_record();
    assert_eq!(
        generate_banking_details(&rec),
        "Numer konta / Account:\nPL001\nBank beneficjenta / Beneficiary bank:\nFirst Bank\nSWIFT: FBXXPLPW"
    );
    assert_eq!(
        generate_supplier(&rec),
        "Alpha\nStreet 1\nNIP: 111\n\nNumer konta / Account:\nPL001\nBank beneficjenta / Beneficiary bank:\nFirst Bank\nSWIFT: FBXXPLPW"
    );
    assert_eq!(generate_customer(&rec), "Gamma Ltd\nRoad 3");
}

#[test]
fn service_table_and_total() {
    let rec = sample_record();
    assert_eq!(
        header_cells(),
        vec!["Usługa / Service", "J.m.", "Netto, EUR", "VAT stawka", "VAT, PLN", "Brutto, EUR"]
    );
    assert_eq!(
        service_cells(&rec),
        vec!["Consulting", "usługa", "1500.00", "NP", "0.00", "1500.00"]
    );
    assert_eq!(total_line(&rec), "  Kwota do zapłaty / Amount to pay: 1500.00 EUR");
}

fn full_answers() -> Vec<Answer> {
    vec![
        Answer::InvoiceNumber(3),
        Answer::IssueDate(date(2024, 12, 2)),
        Answer::ServiceDate(date(2024, 11, 30)),
        Answer::DueDate(date(2024, 12, 5)),
        Answer::Supplier(1),
        Answer::Service(1),
        Answer::Amount(150000),
        Answer::Account(0),
        Answer::Customer(0),
    ]
}

#[test]
fn assembly_runs_steps_in_order() {
    let c = sample_config();
    let mut a = Assembly::new();
    let steps = [
        Step::InvoiceNumber,
        Step::IssueDate,
        Step::ServiceDate,
        Step::DueDate,
        Step::Supplier,
        Step::Service,
        Step::Amount,
        Step::Account,
        Step::Customer,
    ];
    for (answer, step) in full_answers().into_iter().zip(steps) {
        assert_eq!(a.next_step(), Some(step));
        assert_eq!(a.answer(&c, answer), Ok(()));
    }
    assert_eq!(a.next_step(), None);
    assert_eq!(a.answer(&c, Answer::Amount(1)), Err(AnswerError::Closed));
    let rec = a.finish().unwrap();
    assert_eq!(rec.invoice_number, 3);
    assert_eq!(rec.service_date, date(2024, 11, 30));
    assert_eq!(rec.supplier.name, "Beta");
    assert_eq!(rec.service, "Development");
    assert_eq!(rec.amount, 150000);
    assert_eq!(rec.account.number, "PL001");
    assert_eq!(rec.customer.name, "Gamma Ltd");
}

#[test]
fn assembly_abort_at_any_step_yields_nothing() {
    let c = sample_config();
    for stop in 0..=9 {
        let mut a = Assembly::new();
        for answer in full_answers().into_iter().take(stop) {
            assert_eq!(a.answer(&c, answer), Ok(()));
        }
        a.abort();
        assert_eq!(a.next_step(), None);
        assert_eq!(a.answer(&c, Answer::InvoiceNumber(1)), Err(AnswerError::Closed));
        assert!(a.finish().is_none());
    }
}

#[test]
fn assembly_unfinished_yields_nothing() {
    let c = sample_config();
    let mut a = Assembly::new();
    for answer in full_answers().into_iter().take(8) {
        assert_eq!(a.answer(&c, answer), Ok(()));
    }
    assert!(a.finish().is_none());
}

#[test]
fn assembly_refuses_bad_answers() {
    let c = sample_config();
    let mut a = Assembly::new();
    assert_eq!(a.answer(&c, Answer::Amount(5)), Err(AnswerError::WrongStep));
    assert_eq!(a.answer(&c, Answer::InvoiceNumber(0)), Err(AnswerError::InvalidNumber));
    assert_eq!(a.answer(&c, Answer::InvoiceNumber(-3)), Err(AnswerError::InvalidNumber));
    assert_eq!(a.next_step(), Some(Step::InvoiceNumber));
    assert_eq!(a.answer(&c, Answer::InvoiceNumber(1)), Ok(()));
    let bad = Date { year: 2023, month: 2, day: 29 };
    assert_eq!(a.answer(&c, Answer::IssueDate(bad)), Err(AnswerError::InvalidDate));
    assert_eq!(a.answer(&c, Answer::IssueDate(date(2024, 1, 1))), Ok(()));
    assert_eq!(a.answer(&c, Answer::ServiceDate(date(2024, 1, 31))), Ok(()));
    assert_eq!(a.answer(&c, Answer::DueDate(date(2024, 2, 5))), Ok(()));
    assert_eq!(a.answer(&c, Answer::Supplier(2)), Err(AnswerError::NoSuchEntry));
    assert_eq!(a.next_step(), Some(Step::Supplier));
    assert_eq!(a.answer(&c, Answer::Supplier(0)), Ok(()));
    assert_eq!(a.answer(&c, Answer::Service(5)), Err(AnswerError::NoSuchEntry));
}
