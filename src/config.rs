//! The configured business entities that an invoice chooses from.

use vstd::prelude::*;

verus! {

/// A business that issues invoices.
#[derive(Clone, Debug)]
pub struct Supplier {
    pub name: String,
    pub address: String,
    pub nip: String,
}

/// A bank account that payments go to.
#[derive(Clone, Debug)]
pub struct Account {
    pub number: String,
    pub bank: String,
    pub swift: String,
}

/// A business that is invoiced.
#[derive(Clone, Debug)]
pub struct Customer {
    pub name: String,
    pub address: String,
}

/// Suppliers, accounts, customers and service names, each list in the order
/// it was configured.
#[derive(Clone, Debug)]
pub struct Config {
    pub suppliers: Vec<Supplier>,
    pub accounts: Vec<Account>,
    pub customers: Vec<Customer>,
    pub services: Vec<String>,
}

/// The list of the configuration that is empty.
#[derive(Clone, Copy, Debug, PartialEq, Eq, Structural)]
pub enum MissingEntry {
    Supplier,
    Account,
    Customer,
    Service,
}

pub open spec fn supplier_label_spec(s: Supplier) -> Seq<char> {
    s.name@ + " | NIP: "@ + s.nip@
}

impl Supplier {
    /// How the supplier is listed for choosing: name and tax identifier.
    pub fn label(&self) -> (r: String)
        ensures
            r@ == supplier_label_spec(*self),
    {
        let mut s = self.name.clone();
        s.append(" | NIP: ");
        s.append(self.nip.as_str());
        s
    }

    /// A copy of the supplier.
    pub fn duplicate(&self) -> (r: Supplier)
        ensures
            r == *self,
    {
        Supplier { name: self.name.clone(), address: self.address.clone(), nip: self.nip.clone() }
    }
}

impl Account {
    /// How the account is listed for choosing: its number.
    pub fn label(&self) -> (r: String)
        ensures
            r@ == self.number@,
    {
        self.number.clone()
    }

    /// A copy of the account.
    pub fn duplicate(&self) -> (r: Account)
        ensures
            r == *self,
    {
        Account { number: self.number.clone(), bank: self.bank.clone(), swift: self.swift.clone() }
    }
}

impl Customer {
    /// How the customer is listed for choosing: its name.
    pub fn label(&self) -> (r: String)
        ensures
            r@ == self.name@,
    {
        self.name.clone()
    }

    /// A copy of the customer.
    pub fn duplicate(&self) -> (r: Customer)
        ensures
            r == *self,
    {
        Customer { name: self.name.clone(), address: self.address.clone() }
    }
}

impl MissingEntry {
    /// The word that names the missing kind of entry to the user.
    pub fn noun(&self) -> (r: &'static str)
        ensures
            r@ == missing_noun(*self),
    {
        match self {
            MissingEntry::Supplier => "business",
            MissingEntry::Account => "account",
            MissingEntry::Customer => "customer",
            MissingEntry::Service => "service",
        }
    }

    /// The message that asks the user to add the missing entry.
    pub fn message(&self) -> (r: String)
        ensures
            r@ == "Please add at list one "@ + missing_noun(*self) + " to the config file."@,
    {
        let mut s = String::from_str("Please add at list one ");
        s.append(self.noun());
        s.append(" to the config file.");
        s
    }
}

pub open spec fn missing_noun(m: MissingEntry) -> Seq<char> {
    match m {
        MissingEntry::Supplier => "business"@,
        MissingEntry::Account => "account"@,
        MissingEntry::Customer => "customer"@,
        MissingEntry::Service => "service"@,
    }
}

impl Config {
    /// Every list holds at least one entry.
    pub open spec fn is_complete(&self) -> bool {
        &&& self.suppliers@.len() > 0
        &&& self.accounts@.len() > 0
        &&& self.customers@.len() > 0
        &&& self.services@.len() > 0
    }

    /// The first empty list, in the order suppliers, accounts, customers,
    /// services.
    pub open spec fn first_missing(&self) -> Option<MissingEntry> {
        if self.suppliers@.len() == 0 {
            Some(MissingEntry::Supplier)
        } else if self.accounts@.len() == 0 {
            Some(MissingEntry::Account)
        } else if self.customers@.len() == 0 {
            Some(MissingEntry::Customer)
        } else if self.services@.len() == 0 {
            Some(MissingEntry::Service)
        } else {
            None
        }
    }

    /// Succeeds when every list holds an entry; otherwise names the first
    /// empty one.
    pub fn validate(&self) -> (r: Result<(), MissingEntry>)
        ensures
            r is Ok <==> self.is_complete(),
            r matches Err(m) ==> Some(m) == self.first_missing(),
    {
        if self.suppliers.len() == 0 {
            Err(MissingEntry::Supplier)
        } else if self.accounts.len() == 0 {
            Err(MissingEntry::Account)
        } else if self.customers.len() == 0 {
            Err(MissingEntry::Customer)
        } else if self.services.len() == 0 {
            Err(MissingEntry::Service)
        } else {
            Ok(())
        }
    }
}

/// The configuration written for a first run: one placeholder of each kind.
pub open spec fn is_placeholder(c: Config) -> bool {
    &&& c.suppliers@.len() == 1
    &&& c.suppliers@[0].name@ == "Yanka Kupala"@
    &&& c.suppliers@[0].address@ == "Minsk, vul. Kupaly, 1"@
    &&& c.suppliers@[0].nip@ == "1234567890"@
    &&& c.accounts@.len() == 1
    &&& c.accounts@[0].number@ == "XX00000000000000000000000000"@
    &&& c.accounts@[0].bank@ == "Bank Name"@
    &&& c.accounts@[0].swift@ == "XXXXXXXX"@
    &&& c.customers@.len() == 1
    &&& c.customers@[0].name@ == "Acme Inc"@
    &&& c.customers@[0].address@ == "Earth, Elm str. 8/12-17"@
    &&& c.services@.len() == 1
    &&& c.services@[0]@ == "Doing stuff"@
}

impl Default for Config {
    fn default() -> (r: Config)
        ensures
            is_placeholder(r),
    {
        let supplier = Supplier {
            name: String::from_str("Yanka Kupala"),
            address: String::from_str("Minsk, vul. Kupaly, 1"),
            nip: String::from_str("1234567890"),
        };
        let account = Account {
            number: String::from_str("XX00000000000000000000000000"),
            bank: String::from_str("Bank Name"),
            swift: String::from_str("XXXXXXXX"),
        };
        let customer = Customer {
            name: String::from_str("Acme Inc"),
            address: String::from_str("Earth, Elm str. 8/12-17"),
        };
        let mut suppliers = Vec::new();
        suppliers.push(supplier);
        let mut accounts = Vec::new();
        accounts.push(account);
        let mut customers = Vec::new();
        customers.push(customer);
        let mut services = Vec::new();
        services.push(String::from_str("Doing stuff"));
        Config { suppliers, accounts, customers, services }
    }
}

/// The first-run configuration passes validation.
pub proof fn lemma_placeholder_is_complete(c: Config)
    requires
        is_placeholder(c),
    ensures
        c.is_complete(),
{
}

} // verus!
