use veltrix::services::ldap::{
    LdapAttribute, LdapAuthMethod, LdapClient, LdapEntry, LdapSpec, ModifyOp, SearchOptions,
    SearchScope,
};

#[test]
fn client_creation() {
    let spec = LdapSpec::new("ldap://localhost:389".into(), LdapAuthMethod::Anonymous);
    let client = LdapClient::new(spec);
    assert!(client.is_ok());
    let client = client.unwrap();
    assert!(!client.is_connected());
}

#[test]
fn add_entry_validates_dn() {
    let spec = LdapSpec::new("ldap://localhost:389".into(), LdapAuthMethod::Anonymous);
    let mut client = LdapClient::new(spec).unwrap();

    let result = client.add_entry("", &[]);
    assert!(result.is_err());
}

#[test]
fn add_entry_validates_attributes() {
    let spec = LdapSpec::new("ldap://localhost:389".into(), LdapAuthMethod::Anonymous);
    let mut client = LdapClient::new(spec).unwrap();

    let result = client.add_entry("cn=test,dc=example,dc=com", &[]);
    assert!(result.is_err());
}

#[test]
fn modify_entry_validates_input() {
    let spec = LdapSpec::new("ldap://localhost:389".into(), LdapAuthMethod::Anonymous);
    let mut client = LdapClient::new(spec).unwrap();

    let result = client.modify_entry("cn=test,dc=example,dc=com", &[]);
    assert!(result.is_err());
}

#[test]
fn delete_entry_validates_dn() {
    let spec = LdapSpec::new("ldap://localhost:389".into(), LdapAuthMethod::Anonymous);
    let mut client = LdapClient::new(spec).unwrap();

    let result = client.delete_entry("");
    assert!(result.is_err());
}

#[test]
fn search_validates_filter() {
    let spec = LdapSpec::new("ldap://localhost:389".into(), LdapAuthMethod::Anonymous);
    let mut client = LdapClient::new(spec).unwrap();

    let options = SearchOptions::new("dc=example,dc=com".into(), "invalid_filter".into());
    let result = client.search(options);
    assert!(result.is_err());
}

#[test]
fn find_user_by_uid_validates_uid() {
    let spec = LdapSpec::new("ldap://localhost:389".into(), LdapAuthMethod::Anonymous);
    let mut client = LdapClient::new(spec).unwrap();

    let result = client.find_user_by_uid("");
    assert!(result.is_err());
}

#[test]
fn uri_parsing_ldap() {
    let spec = LdapSpec::new("ldap://localhost:389".into(), LdapAuthMethod::Anonymous);
    let client = LdapClient::new(spec).unwrap();
    let (host, port) = client._parse_uri("ldap://example.com:1234").unwrap();
    assert_eq!(host, "example.com");
    assert_eq!(port, 1234);
}

#[test]
fn uri_parsing_ldaps() {
    let spec = LdapSpec::new("ldaps://localhost:636".into(), LdapAuthMethod::Anonymous);
    let client = LdapClient::new(spec).unwrap();
    let (host, port) = client._parse_uri("ldaps://example.com").unwrap();
    assert_eq!(host, "example.com");
    assert_eq!(port, 636);
}

#[test]
fn filter_value_escaping() {
    let spec = LdapSpec::new("ldap://localhost:389".into(), LdapAuthMethod::Anonymous);
    let client = LdapClient::new(spec).unwrap();
    let escaped = client._escape_filter_value("test*value");
    assert_eq!(escaped, "test\\2avalue");
}

#[test]
fn entry_get_string() {
    let mut entry = LdapEntry::new("cn=test,dc=example,dc=com".into());
    entry.insert_attribute(
        "cn".into(),
        LdapAttribute::from_strings("cn".into(), vec!["test".into()]),
    );

    assert_eq!(entry.get_string("cn"), Some("test".into()));
    assert_eq!(entry.get_string("mail"), None);
}

#[test]
fn search_scope_operations() {
    let mut opts = SearchOptions::new("dc=example,dc=com".into(), "(uid=*)".into());
    assert_eq!(opts.scope, SearchScope::Subtree);

    opts = opts.with_scope(SearchScope::Base);
    assert_eq!(opts.scope, SearchScope::Base);
}

#[test]
fn modify_operations() {
    let add = ModifyOp::add_strings("mail".into(), vec!["test@example.com".into()]);
    if let ModifyOp::Add { attr, values } = add {
        assert_eq!(attr, "mail");
        assert_eq!(values.len(), 1);
    } else {
        panic!("Expected Add operation");
    }

    let delete = ModifyOp::delete_attr("description".into());
    if let ModifyOp::Delete { attr, values } = delete {
        assert_eq!(attr, "description");
        assert_eq!(values, None);
    } else {
        panic!("Expected Delete operation");
    }
}
