use namecheap_client::domains::check_params;
use namecheap_client::{
    Contact, DomainCreateRequest, EmailType, HostRecord, RecordType, SetHostsRequest,
    SetHostsResult,
};

fn value<'a>(params: &'a [(String, String)], key: &str) -> Option<&'a str> {
    params
        .iter()
        .find(|(name, _)| name == key)
        .map(|(_, value)| value.as_str())
}

fn sample_contact() -> Contact {
    Contact::new(
        "John",
        "Doe",
        "123 Main St",
        "Los Angeles",
        "CA",
        "90001",
        "US",
        "+1.5555551234",
        "john@example.com",
    )
}

#[test]
fn create_request_builds_all_contact_roles() {
    let request = DomainCreateRequest::new("example.com", 2, sample_contact())
        .with_nameservers(&["ns1.example.com", "ns2.example.com"]);
    let params = request.to_params();

    assert_eq!(value(&params, "DomainName"), Some("example.com"));
    assert_eq!(value(&params, "Years"), Some("2"));
    assert_eq!(
        value(&params, "Nameservers"),
        Some("ns1.example.com,ns2.example.com")
    );
    assert_eq!(value(&params, "AddFreeWhoisguard"), Some("yes"));
    assert_eq!(value(&params, "WGEnabled"), Some("yes"));

    for role in ["Registrant", "Tech", "Admin", "AuxBilling"] {
        assert_eq!(value(&params, &format!("{role}FirstName")), Some("John"));
        assert_eq!(value(&params, &format!("{role}Country")), Some("US"));
        assert_eq!(
            value(&params, &format!("{role}EmailAddress")),
            Some("john@example.com")
        );
    }
}

#[test]
fn create_request_can_disable_privacy() {
    let params = DomainCreateRequest::new("example.com", 1, sample_contact())
        .with_whois_privacy(false)
        .to_params();
    assert_eq!(value(&params, "AddFreeWhoisguard"), Some("no"));
    assert_eq!(value(&params, "WGEnabled"), Some("no"));
}

#[test]
fn set_hosts_request_indexes_records_and_defaults_mx_pref() {
    let request = SetHostsRequest::new(
        "example",
        "com",
        vec![
            HostRecord::mx("@", "mx1.example.com", 10),
            HostRecord::txt("@", "v=spf1 include:_spf.example.com ~all"),
            HostRecord::a("www", "203.0.113.10").with_ttl(300),
        ],
    )
    .with_email_type(EmailType::Mx);
    let params = request.to_params();

    assert_eq!(value(&params, "SLD"), Some("example"));
    assert_eq!(value(&params, "TLD"), Some("com"));

    assert_eq!(value(&params, "HostName1"), Some("@"));
    assert_eq!(value(&params, "RecordType1"), Some("MX"));
    assert_eq!(value(&params, "Address1"), Some("mx1.example.com"));
    assert_eq!(value(&params, "MXPref1"), Some("10"));

    assert_eq!(value(&params, "RecordType2"), Some("TXT"));
    // Non-MX records carry no MX preference.
    assert_eq!(value(&params, "MXPref2"), None);

    assert_eq!(value(&params, "RecordType3"), Some("A"));
    assert_eq!(value(&params, "TTL3"), Some("300"));

    assert_eq!(value(&params, "EmailType"), Some("MX"));
}

#[test]
fn from_domain_splits_at_first_dot() {
    let records = vec![HostRecord::a("@", "203.0.113.10")];

    let simple = SetHostsRequest::from_domain("example.com", records.clone()).unwrap();
    assert_eq!(simple.sld, "example");
    assert_eq!(simple.tld, "com");

    let multi = SetHostsRequest::from_domain("example.co.uk", records.clone()).unwrap();
    assert_eq!(multi.sld, "example");
    assert_eq!(multi.tld, "co.uk");

    assert!(SetHostsRequest::from_domain("nodot", records.clone()).is_none());
    assert!(SetHostsRequest::from_domain(".com", records.clone()).is_none());
    assert!(SetHostsRequest::from_domain("example.", records).is_none());
}

#[test]
fn from_domain_keeps_records_and_leaves_email_type_unset() {
    let records = vec![
        HostRecord::a("@", "203.0.113.10"),
        HostRecord::cname("www", "example.com."),
    ];
    let request = SetHostsRequest::from_domain("example.com", records).unwrap();
    assert_eq!(request.records.len(), 2);
    assert_eq!(request.records[1].host_name, "www");
    assert_eq!(request.email_type, None);
    // A lone dot has two empty parts.
    assert!(SetHostsRequest::from_domain(".", Vec::new()).is_none());
    assert!(SetHostsRequest::from_domain("", Vec::new()).is_none());
}

#[test]
fn mx_record_without_preference_is_sent_with_ten() {
    let mut record = HostRecord::mx("@", "mx.example.com", 5);
    record.mx_pref = None;
    let params = SetHostsRequest::new("example", "com", vec![record]).to_params();
    assert_eq!(value(&params, "MXPref1"), Some("10"));

    let params = SetHostsRequest::new(
        "example",
        "com",
        vec![HostRecord::mx("@", "mx.example.com", 5)],
    )
    .to_params();
    assert_eq!(value(&params, "MXPref1"), Some("5"));

    let params = SetHostsRequest::new(
        "example",
        "com",
        vec![HostRecord::txt("@", "x").with_mx_pref(20)],
    )
    .to_params();
    assert_eq!(value(&params, "MXPref1"), Some("20"));
}

#[test]
fn set_hosts_params_come_in_order() {
    let records = vec![
        HostRecord::aaaa("@", "2001:db8::1").with_ttl(1800),
        HostRecord::new("ftp", RecordType::Caa, "0 issue \"ca.example\""),
    ];
    let params = SetHostsRequest::new("example", "co.uk", records).to_params();
    let keys: Vec<&str> = params.iter().map(|(k, _)| k.as_str()).collect();
    assert_eq!(
        keys,
        vec![
            "SLD",
            "TLD",
            "HostName1",
            "RecordType1",
            "Address1",
            "TTL1",
            "HostName2",
            "RecordType2",
            "Address2",
        ]
    );
    assert_eq!(value(&params, "RecordType1"), Some("AAAA"));
    assert_eq!(value(&params, "RecordType2"), Some("CAA"));
    assert_eq!(value(&params, "TTL1"), Some("1800"));
}

#[test]
fn set_hosts_params_names_are_distinct_for_many_records() {
    let mut records = Vec::new();
    for i in 0..12 {
        records.push(HostRecord::mx("@", &format!("mx{i}.example.com"), i).with_ttl(60));
    }
    let params = SetHostsRequest::new("example", "com", records)
        .with_email_type(EmailType::Gmail)
        .to_params();
    assert_eq!(params.len(), 2 + 12 * 5 + 1);
    for i in 0..params.len() {
        for j in (i + 1)..params.len() {
            assert_ne!(params[i].0, params[j].0);
        }
    }
    assert_eq!(value(&params, "HostName12"), Some("@"));
    assert_eq!(value(&params, "Address11"), Some("mx10.example.com"));
    assert_eq!(value(&params, "MXPref12"), Some("11"));
    assert_eq!(value(&params, "EmailType"), Some("GMAIL"));
}

#[test]
fn create_params_names_are_distinct() {
    let contact = sample_contact()
        .with_address2("Suite 5")
        .with_organization("Example Inc");
    let params = DomainCreateRequest::new("example.com", 10, contact)
        .with_nameservers(&["ns1.example.com"])
        .to_params();
    assert_eq!(params.len(), 2 + 4 * 11 + 1 + 2);
    for i in 0..params.len() {
        for j in (i + 1)..params.len() {
            assert_ne!(params[i].0, params[j].0);
        }
    }
    assert_eq!(value(&params, "Years"), Some("10"));
    assert_eq!(value(&params, "TechAddress2"), Some("Suite 5"));
    assert_eq!(value(&params, "AuxBillingOrganizationName"), Some("Example Inc"));
}

#[test]
fn create_params_order_and_optional_fields() {
    let params = DomainCreateRequest::new("example.org", 1, sample_contact()).to_params();
    assert_eq!(params.len(), 2 + 4 * 9 + 2);
    assert_eq!(params[0], ("DomainName".to_string(), "example.org".to_string()));
    assert_eq!(params[1], ("Years".to_string(), "1".to_string()));
    assert_eq!(params[2].0, "RegistrantFirstName");
    assert_eq!(params[11].0, "TechFirstName");
    assert_eq!(value(&params, "Nameservers"), None);
    assert_eq!(value(&params, "RegistrantAddress2"), None);
    assert_eq!(params[params.len() - 1].0, "WGEnabled");
}

#[test]
fn contact_builders_set_optional_fields() {
    let contact = sample_contact()
        .with_address2("Floor 2")
        .with_organization("Acme");
    assert_eq!(contact.address2.as_deref(), Some("Floor 2"));
    assert_eq!(contact.organization.as_deref(), Some("Acme"));
    assert_eq!(contact.first_name, "John");
    assert_eq!(contact.postal_code, "90001");
    let copy = contact.clone();
    assert_eq!(copy.email_address, "john@example.com");
    assert_eq!(copy.address2.as_deref(), Some("Floor 2"));
}

#[test]
fn create_request_reuses_contact_for_every_role() {
    let request = DomainCreateRequest::new("example.com", 3, sample_contact());
    assert_eq!(request.registrant.last_name, "Doe");
    assert_eq!(request.tech.city, "Los Angeles");
    assert_eq!(request.admin.phone, "+1.5555551234");
    assert_eq!(request.aux_billing.state_province, "CA");
    assert!(request.nameservers.is_empty());
    assert!(request.add_free_whoisguard && request.enable_whoisguard);
    assert_eq!(request.years, 3);
}

#[test]
fn record_and_email_types_render_namecheap_values() {
    let all = [
        (RecordType::A, "A"),
        (RecordType::Aaaa, "AAAA"),
        (RecordType::Cname, "CNAME"),
        (RecordType::Mx, "MX"),
        (RecordType::Mxe, "MXE"),
        (RecordType::Txt, "TXT"),
        (RecordType::Ns, "NS"),
        (RecordType::Url, "URL"),
        (RecordType::Url301, "URL301"),
        (RecordType::Frame, "FRAME"),
        (RecordType::Caa, "CAA"),
    ];
    for (t, s) in all {
        assert_eq!(t.as_str(), s);
    }
    assert_eq!(EmailType::Mx.as_str(), "MX");
    assert_eq!(EmailType::Mxe.as_str(), "MXE");
    assert_eq!(EmailType::Forward.as_str(), "FWD");
    assert_eq!(EmailType::PrivateEmail.as_str(), "OX");
    assert_eq!(EmailType::Gmail.as_str(), "GMAIL");
}

#[test]
fn check_params_join_domains_with_commas() {
    let params = check_params(&["example.com", "example.io"]);
    assert_eq!(
        params,
        vec![("DomainList".to_string(), "example.com,example.io".to_string())]
    );
    let params = check_params(&[]);
    assert_eq!(params, vec![("DomainList".to_string(), String::new())]);
}

#[test]
fn set_hosts_result_holds_its_fields() {
    let result = SetHostsResult { domain: "example.com".to_string(), is_success: true };
    assert_eq!(result.domain, "example.com");
    assert!(result.is_success);
}
