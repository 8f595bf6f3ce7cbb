use namecheap_client::domains::check_params;
use namecheap_client::{
    ClientConfig, Contact, DomainCreateRequest, Environment, Error, HostRecord, PricingRequest,
    SetHostsRequest,
};

fn s(v: &str) -> Option<String> {
    Some(v.to_string())
}

#[test]
fn environment_endpoints_and_default() {
    assert_eq!(
        Environment::Production.endpoint(),
        "https://api.namecheap.com/xml.response"
    );
    assert_eq!(
        Environment::Sandbox.endpoint(),
        "https://api.sandbox.namecheap.com/xml.response"
    );
    assert_eq!(Environment::default(), Environment::Production);
}

#[test]
fn user_name_defaults_to_api_user() {
    let config = ClientConfig::resolve(
        s("alice"),
        s("key"),
        None,
        s("203.0.113.10"),
        Environment::Sandbox,
    )
    .unwrap();
    assert_eq!(config.user_name, "alice");
    assert_eq!(config.environment(), Environment::Sandbox);

    let config = ClientConfig::resolve(
        s("alice"),
        s("key"),
        s("bob"),
        s("203.0.113.10"),
        Environment::Production,
    )
    .unwrap();
    assert_eq!(config.user_name, "bob");
    assert_eq!(config.api_user, "alice");
    assert_eq!(config.client_ip, "203.0.113.10");
}

#[test]
fn missing_credentials_are_configuration_errors() {
    let env = Environment::Production;
    let message = |r: Result<ClientConfig, Error>| match r {
        Err(Error::Configuration(m)) => m,
        other => panic!("expected Configuration, got {other:?}"),
    };
    assert_eq!(
        message(ClientConfig::resolve(None, None, None, None, env)),
        "`api_user` is required"
    );
    assert_eq!(
        message(ClientConfig::resolve(s("u"), None, None, s("ip"), env)),
        "`api_key` is required"
    );
    assert_eq!(
        message(ClientConfig::resolve(s("u"), s("k"), s("n"), None, env)),
        "`client_ip` is required"
    );
}

#[test]
fn query_puts_global_parameters_first() {
    let config = ClientConfig::resolve(
        s("user"),
        s("secret"),
        None,
        s("198.51.100.7"),
        Environment::Production,
    )
    .unwrap();
    let query = config.query(
        "namecheap.domains.check",
        vec![("DomainList".to_string(), "a.com,b.io".to_string())],
    );
    let pairs: Vec<(&str, &str)> = query.iter().map(|(k, v)| (k.as_str(), v.as_str())).collect();
    assert_eq!(
        pairs,
        vec![
            ("ApiUser", "user"),
            ("ApiKey", "secret"),
            ("UserName", "user"),
            ("ClientIp", "198.51.100.7"),
            ("Command", "namecheap.domains.check"),
            ("DomainList", "a.com,b.io"),
        ]
    );
}

#[test]
fn full_queries_send_each_name_once() {
    let config = ClientConfig::resolve(s("u"), s("k"), s("n"), s("ip"), Environment::Sandbox).unwrap();
    let contact = Contact::new("A", "B", "C", "D", "E", "F", "G", "H", "I").with_organization("O");
    let queries = vec![
        config.query("namecheap.domains.check", check_params(&["a.com", "b.com"])),
        config.query(
            "namecheap.domains.create",
            DomainCreateRequest::new("a.com", 1, contact).with_nameservers(&["ns.a.com"]).to_params(),
        ),
        config.query(
            "namecheap.domains.dns.setHosts",
            SetHostsRequest::new("a", "com", vec![HostRecord::mx("@", "mx", 1).with_ttl(60); 1])
                .to_params(),
        ),
        config.query(
            "namecheap.users.getPricing",
            PricingRequest::domains().action("RENEW").tld("com").promotion_code("P").to_params(),
        ),
    ];
    for query in queries {
        for i in 0..query.len() {
            for j in (i + 1)..query.len() {
                assert_ne!(query[i].0, query[j].0);
            }
        }
    }
}
