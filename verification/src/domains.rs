//! The `namecheap.domains` command namespace: availability checks,
//! registration, and DNS host records.
use vstd::prelude::*;

use crate::params::{optional_param, push_optional, push_param};
use crate::text::{decimal, decimal_string, find_char, has_char, join, joined, to_strings};

verus! {

// --- domains.check ---------------------------------------------------------

/// The parameters of `namecheap.domains.check`: the domains, joined by `,`,
/// as `DomainList`.
pub open spec fn check_params_spec(domains: Seq<Seq<char>>) -> Seq<(Seq<char>, Seq<char>)> {
    seq![("DomainList"@, joined(domains, ","@))]
}

/// The parameters for checking the availability of `domains`.
pub fn check_params(domains: &[&str]) -> (res: Vec<(String, String)>)
    ensures
        res.deep_view() == check_params_spec(domains.deep_view()),
{
    let list = join(&to_strings(domains), ",");
    let mut params: Vec<(String, String)> = Vec::new();
    push_param(&mut params, String::from_str("DomainList"), list);
    params
}

// --- domains.create --------------------------------------------------------

/// A single postal and email contact used when registering a domain.
///
/// Namecheap requires four contact roles (registrant, technical,
/// administrative and billing); [`DomainCreateRequest::new`] reuses one
/// `Contact` for all four. `phone` uses Namecheap's `+NNN.NNNNNNNNNN` format
/// and `country` is a two-letter ISO country code such as `"US"`.
#[derive(Debug)]
pub struct Contact {
    /// Given name.
    pub first_name: String,
    /// Family name.
    pub last_name: String,
    /// First address line.
    pub address1: String,
    /// Optional second address line.
    pub address2: Option<String>,
    /// City.
    pub city: String,
    /// State or province.
    pub state_province: String,
    /// Postal or ZIP code.
    pub postal_code: String,
    /// Two-letter ISO country code (for example `"US"`).
    pub country: String,
    /// Phone number in `+NNN.NNNNNNNNNN` format.
    pub phone: String,
    /// Email address.
    pub email_address: String,
    /// Optional organization name.
    pub organization: Option<String>,
}

fn clone_optional(value: &Option<String>) -> (res: Option<String>)
    ensures
        res == *value,
{
    match value {
        Some(v) => Some(v.clone()),
        None => None,
    }
}

impl Clone for Contact {
    fn clone(&self) -> (res: Self)
        ensures
            res == *self,
    {
        Contact {
            first_name: self.first_name.clone(),
            last_name: self.last_name.clone(),
            address1: self.address1.clone(),
            address2: clone_optional(&self.address2),
            city: self.city.clone(),
            state_province: self.state_province.clone(),
            postal_code: self.postal_code.clone(),
            country: self.country.clone(),
            phone: self.phone.clone(),
            email_address: self.email_address.clone(),
            organization: clone_optional(&self.organization),
        }
    }
}

impl Contact {
    /// Creates a contact from the fields Namecheap requires, leaving the
    /// optional `address2` and `organization` unset.
    #[allow(clippy::too_many_arguments)]
    pub fn new(
        first_name: &str,
        last_name: &str,
        address1: &str,
        city: &str,
        state_province: &str,
        postal_code: &str,
        country: &str,
        phone: &str,
        email_address: &str,
    ) -> (res: Self)
        ensures
            res.first_name@ == first_name@,
            res.last_name@ == last_name@,
            res.address1@ == address1@,
            res.address2 is None,
            res.city@ == city@,
            res.state_province@ == state_province@,
            res.postal_code@ == postal_code@,
            res.country@ == country@,
            res.phone@ == phone@,
            res.email_address@ == email_address@,
            res.organization is None,
    {
        Contact {
            first_name: String::from_str(first_name),
            last_name: String::from_str(last_name),
            address1: String::from_str(address1),
            address2: None,
            city: String::from_str(city),
            state_province: String::from_str(state_province),
            postal_code: String::from_str(postal_code),
            country: String::from_str(country),
            phone: String::from_str(phone),
            email_address: String::from_str(email_address),
            organization: None,
        }
    }

    /// Sets the optional second address line.
    pub fn with_address2(self, address2: &str) -> (res: Self)
        ensures
            res.address2 matches Some(a) && a@ == address2@,
            res == (Contact { address2: res.address2, ..self }),
    {
        let mut c = self;
        c.address2 = Some(String::from_str(address2));
        c
    }

    /// Sets the optional organization name.
    pub fn with_organization(self, organization: &str) -> (res: Self)
        ensures
            res.organization matches Some(o) && o@ == organization@,
            res == (Contact { organization: res.organization, ..self }),
    {
        let mut c = self;
        c.organization = Some(String::from_str(organization));
        c
    }
}

/// A request to register a domain.
#[derive(Debug, Clone)]
pub struct DomainCreateRequest {
    /// The domain to register (for example `"example.com"`).
    pub domain: String,
    /// The number of years to register for.
    pub years: u32,
    /// The registrant contact.
    pub registrant: Contact,
    /// The technical contact.
    pub tech: Contact,
    /// The administrative contact.
    pub admin: Contact,
    /// The billing contact.
    pub aux_billing: Contact,
    /// Custom nameservers. When empty, Namecheap's default DNS is used.
    pub nameservers: Vec<String>,
    /// Whether to request the free WhoisGuard privacy add-on with the order.
    pub add_free_whoisguard: bool,
    /// Whether to enable WhoisGuard privacy once the order completes.
    pub enable_whoisguard: bool,
}

impl DomainCreateRequest {
    /// Builds a registration request that reuses `contact` for all four
    /// required contact roles, with WhoisGuard privacy enabled.
    pub fn new(domain: &str, years: u32, contact: Contact) -> (res: Self)
        ensures
            res.domain@ == domain@,
            res.years == years,
            res.registrant == contact,
            res.tech == contact,
            res.admin == contact,
            res.aux_billing == contact,
            res.nameservers@.len() == 0,
            res.add_free_whoisguard,
            res.enable_whoisguard,
    {
        DomainCreateRequest {
            domain: String::from_str(domain),
            years,
            registrant: contact.clone(),
            tech: contact.clone(),
            admin: contact.clone(),
            aux_billing: contact,
            nameservers: Vec::new(),
            add_free_whoisguard: true,
            enable_whoisguard: true,
        }
    }

    /// Sets custom nameservers for the domain.
    pub fn with_nameservers(self, nameservers: &[&str]) -> (res: Self)
        ensures
            res.nameservers.deep_view() == nameservers.deep_view(),
            res == (DomainCreateRequest { nameservers: res.nameservers, ..self }),
    {
        let mut r = self;
        r.nameservers = to_strings(nameservers);
        r
    }

    /// Enables or disables the WhoisGuard privacy add-on (enabled by default).
    pub fn with_whois_privacy(self, enabled: bool) -> (res: Self)
        ensures
            res.add_free_whoisguard == enabled,
            res.enable_whoisguard == enabled,
            res == (DomainCreateRequest {
                add_free_whoisguard: enabled,
                enable_whoisguard: enabled,
                ..self
            }),
    {
        let mut r = self;
        r.add_free_whoisguard = enabled;
        r.enable_whoisguard = enabled;
        r
    }
}

/// `yes` or `no`, as Namecheap spells booleans in requests.
pub open spec fn yes_no_text(value: bool) -> Seq<char> {
    if value {
        "yes"@
    } else {
        "no"@
    }
}

/// The parameters of one contact role: each field under its name prefixed
/// with the role, the optional ones only when they are set.
pub open spec fn contact_params(role: Seq<char>, c: Contact) -> Seq<(Seq<char>, Seq<char>)> {
    seq![
        (role + "FirstName"@, c.first_name@),
        (role + "LastName"@, c.last_name@),
        (role + "Address1"@, c.address1@),
    ] + optional_param(role + "Address2"@, c.address2) + seq![
        (role + "City"@, c.city@),
        (role + "StateProvince"@, c.state_province@),
        (role + "PostalCode"@, c.postal_code@),
        (role + "Country"@, c.country@),
        (role + "Phone"@, c.phone@),
        (role + "EmailAddress"@, c.email_address@),
    ] + optional_param(role + "OrganizationName"@, c.organization)
}

/// The parameters of `namecheap.domains.create`.
pub open spec fn create_params(r: DomainCreateRequest) -> Seq<(Seq<char>, Seq<char>)> {
    seq![("DomainName"@, r.domain@), ("Years"@, decimal(r.years as nat))]
        + contact_params("Registrant"@, r.registrant) + contact_params("Tech"@, r.tech)
        + contact_params("Admin"@, r.admin) + contact_params("AuxBilling"@, r.aux_billing) + (
    if r.nameservers@.len() > 0 {
        seq![("Nameservers"@, joined(r.nameservers.deep_view(), ","@))]
    } else {
        Seq::empty()
    }) + seq![
        ("AddFreeWhoisguard"@, yes_no_text(r.add_free_whoisguard)),
        ("WGEnabled"@, yes_no_text(r.enable_whoisguard)),
    ]
}

/// The key of a contact field: the role followed by the field's name.
fn role_key(role: &str, suffix: &str) -> (res: String)
    ensures
        res@ == role@ + suffix@,
{
    String::from_str(role).concat(suffix)
}

/// Appends the parameters of one contact role.
fn push_contact(params: &mut Vec<(String, String)>, role: &str, contact: &Contact)
    ensures
        final(params).deep_view() == old(params).deep_view() + contact_params(role@, *contact),
{
    push_param(params, role_key(role, "FirstName"), contact.first_name.clone());
    push_param(params, role_key(role, "LastName"), contact.last_name.clone());
    push_param(params, role_key(role, "Address1"), contact.address1.clone());
    push_optional(params, role_key(role, "Address2"), &contact.address2);
    push_param(params, role_key(role, "City"), contact.city.clone());
    push_param(params, role_key(role, "StateProvince"), contact.state_province.clone());
    push_param(params, role_key(role, "PostalCode"), contact.postal_code.clone());
    push_param(params, role_key(role, "Country"), contact.country.clone());
    push_param(params, role_key(role, "Phone"), contact.phone.clone());
    push_param(params, role_key(role, "EmailAddress"), contact.email_address.clone());
    push_optional(params, role_key(role, "OrganizationName"), &contact.organization);
    assert(params.deep_view() =~= old(params).deep_view() + contact_params(role@, *contact));
}

/// `yes` or `no`.
fn yes_no(value: bool) -> (res: String)
    ensures
        res@ == yes_no_text(value),
{
    if value {
        String::from_str("yes")
    } else {
        String::from_str("no")
    }
}

impl DomainCreateRequest {
    /// The parameters of `namecheap.domains.create` for this request.
    pub fn to_params(&self) -> (res: Vec<(String, String)>)
        ensures
            res.deep_view() == create_params(*self),
    {
        let mut params: Vec<(String, String)> = Vec::new();
        push_param(&mut params, String::from_str("DomainName"), self.domain.clone());
        push_param(&mut params, String::from_str("Years"), decimal_string(self.years as u64));
        push_contact(&mut params, "Registrant", &self.registrant);
        push_contact(&mut params, "Tech", &self.tech);
        push_contact(&mut params, "Admin", &self.admin);
        push_contact(&mut params, "AuxBilling", &self.aux_billing);
        let ghost before_ns = params.deep_view();
        if self.nameservers.len() > 0 {
            push_param(&mut params, String::from_str("Nameservers"), join(&self.nameservers, ","));
        }
        push_param(&mut params, String::from_str("AddFreeWhoisguard"), yes_no(self.add_free_whoisguard));
        push_param(&mut params, String::from_str("WGEnabled"), yes_no(self.enable_whoisguard));
        assert(params.deep_view() =~= create_params(*self));
        params
    }
}

// --- domains.dns.setHosts --------------------------------------------------

/// A DNS record type accepted by `namecheap.domains.dns.setHosts`.
#[derive(Debug, Clone, Copy, PartialEq, Eq, Structural)]
#[non_exhaustive]
pub enum RecordType {
    /// IPv4 address record.
    A,
    /// IPv6 address record.
    Aaaa,
    /// Canonical name (alias) record.
    Cname,
    /// Mail exchanger record.
    Mx,
    /// Namecheap "mail forwarding" record type.
    Mxe,
    /// Text record (used for SPF, DKIM, DMARC, verification tokens).
    Txt,
    /// Nameserver record.
    Ns,
    /// Namecheap URL redirect (unmasked) record.
    Url,
    /// Namecheap permanent (301) URL redirect record.
    Url301,
    /// Namecheap masked URL redirect (frame) record.
    Frame,
    /// Certification Authority Authorization record.
    Caa,
}

/// The value Namecheap expects for a record type.
pub open spec fn record_type_text(t: RecordType) -> Seq<char> {
    match t {
        RecordType::A => "A"@,
        RecordType::Aaaa => "AAAA"@,
        RecordType::Cname => "CNAME"@,
        RecordType::Mx => "MX"@,
        RecordType::Mxe => "MXE"@,
        RecordType::Txt => "TXT"@,
        RecordType::Ns => "NS"@,
        RecordType::Url => "URL"@,
        RecordType::Url301 => "URL301"@,
        RecordType::Frame => "FRAME"@,
        RecordType::Caa => "CAA"@,
    }
}

impl RecordType {
    /// The value Namecheap expects for this record type in the `RecordType`
    /// parameter.
    pub fn as_str(self) -> (res: &'static str)
        ensures
            res@ == record_type_text(self),
    {
        match self {
            RecordType::A => "A",
            RecordType::Aaaa => "AAAA",
            RecordType::Cname => "CNAME",
            RecordType::Mx => "MX",
            RecordType::Mxe => "MXE",
            RecordType::Txt => "TXT",
            RecordType::Ns => "NS",
            RecordType::Url => "URL",
            RecordType::Url301 => "URL301",
            RecordType::Frame => "FRAME",
            RecordType::Caa => "CAA",
        }
    }
}

/// The mail setting to apply with `namecheap.domains.dns.setHosts`.
///
/// Namecheap stores one email routing mode per domain alongside the host
/// records. `Mx` is for supplying your own `MX` records.
#[derive(Debug, Clone, Copy, PartialEq, Eq, Structural)]
#[non_exhaustive]
pub enum EmailType {
    /// Custom user-defined `MX` records.
    Mx,
    /// Namecheap email forwarding via `MXE`.
    Mxe,
    /// Namecheap email forwarding.
    Forward,
    /// Namecheap Private Email (Open-Xchange).
    PrivateEmail,
    /// Google Workspace / Gmail preset.
    Gmail,
}

/// The value Namecheap expects for an email type.
pub open spec fn email_type_text(t: EmailType) -> Seq<char> {
    match t {
        EmailType::Mx => "MX"@,
        EmailType::Mxe => "MXE"@,
        EmailType::Forward => "FWD"@,
        EmailType::PrivateEmail => "OX"@,
        EmailType::Gmail => "GMAIL"@,
    }
}

impl EmailType {
    /// The value Namecheap expects for this setting in the `EmailType`
    /// parameter.
    pub fn as_str(self) -> (res: &'static str)
        ensures
            res@ == email_type_text(self),
    {
        match self {
            EmailType::Mx => "MX",
            EmailType::Mxe => "MXE",
            EmailType::Forward => "FWD",
            EmailType::PrivateEmail => "OX",
            EmailType::Gmail => "GMAIL",
        }
    }
}

/// A single DNS host record to set.
#[derive(Debug)]
pub struct HostRecord {
    /// The host (subdomain), for example `"@"` for the apex or `"www"`.
    pub host_name: String,
    /// The record type.
    pub record_type: RecordType,
    /// The record value (an IP, hostname, or text payload).
    pub address: String,
    /// The `MX` preference. Required for `MX` records; ignored otherwise.
    pub mx_pref: Option<u32>,
    /// The record TTL in seconds (Namecheap allows 60 to 60000).
    pub ttl: Option<u32>,
}

impl Clone for HostRecord {
    fn clone(&self) -> (res: Self)
        ensures
            res == *self,
    {
        HostRecord {
            host_name: self.host_name.clone(),
            record_type: self.record_type,
            address: self.address.clone(),
            mx_pref: self.mx_pref,
            ttl: self.ttl,
        }
    }
}

impl HostRecord {
    /// Creates a host record with no explicit `MX` preference or TTL.
    pub fn new(host_name: &str, record_type: RecordType, address: &str) -> (res: Self)
        ensures
            res.host_name@ == host_name@,
            res.record_type == record_type,
            res.address@ == address@,
            res.mx_pref is None,
            res.ttl is None,
    {
        HostRecord {
            host_name: String::from_str(host_name),
            record_type,
            address: String::from_str(address),
            mx_pref: None,
            ttl: None,
        }
    }

    /// Creates an `A` (IPv4 address) record.
    pub fn a(host_name: &str, ipv4: &str) -> (res: Self)
        ensures
            res.host_name@ == host_name@,
            res.record_type == RecordType::A,
            res.address@ == ipv4@,
            res.mx_pref is None,
            res.ttl is None,
    {
        Self::new(host_name, RecordType::A, ipv4)
    }

    /// Creates an `AAAA` (IPv6 address) record.
    pub fn aaaa(host_name: &str, ipv6: &str) -> (res: Self)
        ensures
            res.host_name@ == host_name@,
            res.record_type == RecordType::Aaaa,
            res.address@ == ipv6@,
            res.mx_pref is None,
            res.ttl is None,
    {
        Self::new(host_name, RecordType::Aaaa, ipv6)
    }

    /// Creates a `CNAME` (alias) record.
    pub fn cname(host_name: &str, target: &str) -> (res: Self)
        ensures
            res.host_name@ == host_name@,
            res.record_type == RecordType::Cname,
            res.address@ == target@,
            res.mx_pref is None,
            res.ttl is None,
    {
        Self::new(host_name, RecordType::Cname, target)
    }

    /// Creates a `TXT` record (SPF, DKIM, DMARC, verification tokens, ...).
    pub fn txt(host_name: &str, value: &str) -> (res: Self)
        ensures
            res.host_name@ == host_name@,
            res.record_type == RecordType::Txt,
            res.address@ == value@,
            res.mx_pref is None,
            res.ttl is None,
    {
        Self::new(host_name, RecordType::Txt, value)
    }

    /// Creates an `MX` record with the given mail server and preference.
    pub fn mx(host_name: &str, mail_server: &str, preference: u32) -> (res: Self)
        ensures
            res.host_name@ == host_name@,
            res.record_type == RecordType::Mx,
            res.address@ == mail_server@,
            res.mx_pref == Some(preference),
            res.ttl is None,
    {
        HostRecord {
            host_name: String::from_str(host_name),
            record_type: RecordType::Mx,
            address: String::from_str(mail_server),
            mx_pref: Some(preference),
            ttl: None,
        }
    }

    /// Sets the TTL (in seconds) for this record.
    pub fn with_ttl(self, ttl: u32) -> (res: Self)
        ensures
            res == (HostRecord { ttl: Some(ttl), ..self }),
    {
        let mut r = self;
        r.ttl = Some(ttl);
        r
    }

    /// Sets the `MX` preference for this record.
    pub fn with_mx_pref(self, preference: u32) -> (res: Self)
        ensures
            res == (HostRecord { mx_pref: Some(preference), ..self }),
    {
        let mut r = self;
        r.mx_pref = Some(preference);
        r
    }
}

/// A request to replace a domain's DNS host records.
///
/// Namecheap addresses the domain by its second-level and top-level parts,
/// so `example.com` is `sld = "example"`, `tld = "com"`.
#[derive(Debug, Clone)]
pub struct SetHostsRequest {
    /// The second-level domain (the `example` of `example.com`).
    pub sld: String,
    /// The top-level domain (the `com` of `example.com`, or `co.uk`).
    pub tld: String,
    /// The complete set of host records the domain should have afterward.
    pub records: Vec<HostRecord>,
    /// The optional email routing mode to apply.
    pub email_type: Option<EmailType>,
}

/// `sld` and `tld` are `domain` split at its first dot.
pub open spec fn splits_at_first_dot(domain: Seq<char>, sld: Seq<char>, tld: Seq<char>) -> bool {
    &&& domain == sld + seq!['.'] + tld
    &&& !has_char(sld, '.')
}

impl SetHostsRequest {
    /// Builds a request from explicit second-level and top-level domain parts.
    pub fn new(sld: &str, tld: &str, records: Vec<HostRecord>) -> (res: Self)
        ensures
            res.sld@ == sld@,
            res.tld@ == tld@,
            res.records == records,
            res.email_type is None,
    {
        SetHostsRequest {
            sld: String::from_str(sld),
            tld: String::from_str(tld),
            records,
            email_type: None,
        }
    }

    /// Builds a request from a registrable domain, splitting it at the first
    /// dot (so `example.com` and `example.co.uk` both work). Returns `None`
    /// if the input has no dot or an empty part.
    pub fn from_domain(domain: &str, records: Vec<HostRecord>) -> (res: Option<Self>)
        ensures
            res matches Some(r) ==> {
                &&& splits_at_first_dot(domain@, r.sld@, r.tld@)
                &&& r.sld@.len() > 0
                &&& r.tld@.len() > 0
                &&& r.records == records
                &&& r.email_type is None
            },
            res is None ==> forall|sld: Seq<char>, tld: Seq<char>|
                #[trigger] splits_at_first_dot(domain@, sld, tld) ==> sld.len() == 0 || tld.len()
                    == 0,
    {
        let len = domain.unicode_len();
        match find_char(domain, '.') {
            None => {
                assert forall|sld: Seq<char>, tld: Seq<char>|
                    #[trigger] splits_at_first_dot(domain@, sld, tld) implies sld.len() == 0
                    || tld.len() == 0 by {
                    assert(domain@[sld.len() as int] == '.');
                }
                None
            },
            Some(i) => {
                let ghost d = domain@;
                assert forall|sld: Seq<char>, tld: Seq<char>|
                    #[trigger] splits_at_first_dot(d, sld, tld) implies sld =~= d.subrange(
                    0,
                    i as int,
                ) && tld =~= d.subrange(i + 1, d.len() as int) by {
                    assert(d[sld.len() as int] == '.');
                    if sld.len() < i {
                        assert(d.subrange(0, i as int)[sld.len() as int] == '.');
                    } else if sld.len() > i {
                        assert(sld[i as int] == '.');
                    }
                    assert(sld.len() == i);
                    assert forall|k: int| 0 <= k < sld.len() implies sld[k] == d.subrange(
                        0,
                        i as int,
                    )[k] by {
                        assert(d[k] == sld[k]);
                    }
                    assert forall|k: int| 0 <= k < tld.len() implies tld[k] == d.subrange(
                        i + 1,
                        d.len() as int,
                    )[k] by {
                        assert(d[i + 1 + k] == tld[k]);
                    }
                }
                if i == 0 || i + 1 >= len {
                    return None;
                }
                let sld = domain.substring_char(0, i);
                let tld = domain.substring_char(i + 1, len);
                assert(d =~= sld@ + seq!['.'] + tld@);
                Some(Self::new(sld, tld, records))
            },
        }
    }

    /// Sets the email routing mode.
    pub fn with_email_type(self, email_type: EmailType) -> (res: Self)
        ensures
            res == (SetHostsRequest { email_type: Some(email_type), ..self }),
    {
        let mut r = self;
        r.email_type = Some(email_type);
        r
    }
}

/// The `MX` preference sent for a record: its own, or 10 for an `MX` record
/// that has none.
pub open spec fn effective_mx_pref(r: HostRecord) -> Option<u32> {
    match r.mx_pref {
        Some(p) => Some(p),
        None => if r.record_type == RecordType::Mx {
            Some(10u32)
        } else {
            None
        },
    }
}

/// One parameter holding the decimal rendering of a number, when present.
pub open spec fn optional_number_param(key: Seq<char>, value: Option<u32>) -> Seq<(Seq<char>, Seq<char>)> {
    match value {
        Some(v) => seq![(key, decimal(v as nat))],
        None => Seq::empty(),
    }
}

/// The parameters of the record at (1-based) position `n`.
pub open spec fn record_params(r: HostRecord, n: nat) -> Seq<(Seq<char>, Seq<char>)> {
    let idx = decimal(n);
    seq![
        ("HostName"@ + idx, r.host_name@),
        ("RecordType"@ + idx, record_type_text(r.record_type)),
        ("Address"@ + idx, r.address@),
    ] + optional_number_param("MXPref"@ + idx, effective_mx_pref(r)) + optional_number_param(
        "TTL"@ + idx,
        r.ttl,
    )
}

/// The parameters of a sequence of records, numbered from 1.
pub open spec fn records_params(records: Seq<HostRecord>) -> Seq<(Seq<char>, Seq<char>)>
    decreases records.len(),
{
    if records.len() == 0 {
        Seq::empty()
    } else {
        records_params(records.drop_last()) + record_params(records.last(), records.len())
    }
}

/// The parameters of `namecheap.domains.dns.setHosts`.
pub open spec fn set_hosts_params(r: SetHostsRequest) -> Seq<(Seq<char>, Seq<char>)> {
    seq![("SLD"@, r.sld@), ("TLD"@, r.tld@)] + records_params(r.records@) + match r.email_type {
        Some(e) => seq![("EmailType"@, email_type_text(e))],
        None => Seq::empty(),
    }
}

fn indexed_key(name: &str, idx: &String) -> (res: String)
    ensures
        res@ == name@ + idx@,
{
    String::from_str(name).concat(idx.as_str())
}

fn push_optional_number(params: &mut Vec<(String, String)>, key: String, value: Option<u32>)
    ensures
        final(params).deep_view() == old(params).deep_view() + optional_number_param(key@, value),
{
    match value {
        Some(v) => {
            push_param(params, key, decimal_string(v as u64));
        },
        None => {
            assert(params.deep_view() =~= old(params).deep_view() + optional_number_param(key@, value));
        },
    }
}

/// Appends the parameters of one record at position `n`.
fn push_record(params: &mut Vec<(String, String)>, record: &HostRecord, n: u64)
    ensures
        final(params).deep_view() == old(params).deep_view() + record_params(*record, n as nat),
{
    let idx = decimal_string(n);
    push_param(params, indexed_key("HostName", &idx), record.host_name.clone());
    push_param(params, indexed_key("RecordType", &idx), String::from_str(record.record_type.as_str()));
    push_param(params, indexed_key("Address", &idx), record.address.clone());
    let mx_pref = match record.mx_pref {
        Some(p) => Some(p),
        None => match record.record_type {
            RecordType::Mx => Some(10),
            _ => None,
        },
    };
    push_optional_number(params, indexed_key("MXPref", &idx), mx_pref);
    push_optional_number(params, indexed_key("TTL", &idx), record.ttl);
    assert(params.deep_view() =~= old(params).deep_view() + record_params(*record, n as nat));
}

impl SetHostsRequest {
    /// The parameters of `namecheap.domains.dns.setHosts` for this request:
    /// `SLD` and `TLD`, then every record numbered from 1, then `EmailType`
    /// when it is set. An `MX` record without a preference is sent with 10.
    pub fn to_params(&self) -> (res: Vec<(String, String)>)
        ensures
            res.deep_view() == set_hosts_params(*self),
    {
        let mut params: Vec<(String, String)> = Vec::new();
        push_param(&mut params, String::from_str("SLD"), self.sld.clone());
        push_param(&mut params, String::from_str("TLD"), self.tld.clone());
        let ghost head = params.deep_view();
        let mut i: usize = 0;
        while i < self.records.len()
            invariant
                i <= self.records.len(),
                params.deep_view() == head + records_params(self.records@.take(i as int)),
            decreases self.records.len() - i,
        {
            let ghost taken = self.records@.take(i + 1);
            assert(taken.drop_last() =~= self.records@.take(i as int));
            push_record(&mut params, &self.records[i], (i + 1) as u64);
            assert(records_params(taken) == records_params(self.records@.take(i as int))
                + record_params(self.records@[i as int], (i + 1) as nat));
            i = i + 1;
        }
        assert(self.records@.take(self.records.len() as int) =~= self.records@);
        let ghost before_email = params.deep_view();
        match self.email_type {
            Some(e) => {
                push_param(&mut params, String::from_str("EmailType"), String::from_str(e.as_str()));
            },
            None => {},
        }
        assert(params.deep_view() =~= set_hosts_params(*self));
        params
    }
}

/// The outcome of a `namecheap.domains.dns.setHosts` call.
#[derive(Debug, Clone)]
pub struct SetHostsResult {
    /// The domain whose records were updated.
    pub domain: String,
    /// Whether the update succeeded.
    pub is_success: bool,
}

} // verus!
