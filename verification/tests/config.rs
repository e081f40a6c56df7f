use sso::config::{Conf, LdapConf, DEFAULT_DB_STORE};

#[test]
fn every_setting() {
    let conf = Conf::read_str(
        "data_store = \"/var/lib/sso\"\n\
         allowed_continue_domain = \"example.com\"\n\
         login_caption = \"Welcome\"\n\
         \n\
         [ldap]\n\
         uri = \"ldap://localhost:389\"\n\
         admin_user = \"admin\"\n\
         admin_password = \"secret\"\n\
         default_dn = \"dc=example,dc=com\"\n",
    );
    assert_eq!(conf.data_store, "/var/lib/sso");
    assert_eq!(conf.allowed_continue_domain, "example.com");
    assert_eq!(conf.login_caption, "Welcome");
    assert_eq!(conf.ldap.uri, "ldap://localhost:389");
    assert_eq!(conf.ldap.admin_user, "admin");
    assert_eq!(conf.ldap.admin_password, "secret");
    assert_eq!(conf.ldap.default_dn, "dc=example,dc=com");
}

#[test]
fn missing_settings_take_their_defaults() {
    assert_eq!(DEFAULT_DB_STORE, "/tmp/sso-store");
    let conf = Conf::read_str("");
    assert_eq!(conf.data_store, "/tmp/sso-store");
    assert_eq!(conf.allowed_continue_domain, "");
    assert_eq!(conf.login_caption, "");
    assert_eq!(conf.ldap.uri, "");
    assert_eq!(conf.ldap.admin_user, "");
    assert_eq!(conf.ldap.admin_password, "");
    assert_eq!(conf.ldap.default_dn, "dc=ansvia,dc=org");

    let conf = Conf::read_str("[ldap]\nuri = \"ldaps://directory\"\n");
    assert_eq!(conf.data_store, "/tmp/sso-store");
    assert_eq!(conf.ldap.uri, "ldaps://directory");
    assert_eq!(conf.ldap.admin_user, "");
}

#[test]
fn settings_that_are_no_strings_take_their_defaults() {
    let conf = Conf::read_str(
        "data_store = 5\nallowed_continue_domain = [\"example.com\"]\nldap = \"ldap://x\"\n",
    );
    assert_eq!(conf.data_store, "/tmp/sso-store");
    assert_eq!(conf.allowed_continue_domain, "");
    assert_eq!(conf.ldap.uri, "");
    // A setting of the ldap table is not read from the top.
    let conf = Conf::read_str("uri = \"ldap://top\"\nadmin_user = \"root\"\n");
    assert_eq!(conf.ldap.uri, "");
    assert_eq!(conf.ldap.admin_user, "");
}

#[test]
fn a_text_that_is_no_toml_gives_the_empty_configuration() {
    let conf = Conf::read_str("data_store = \"/var/lib/sso\"\nthis is not toml");
    assert_eq!(conf.data_store, "");
    assert_eq!(conf.allowed_continue_domain, "");
    assert_eq!(conf.login_caption, "");
    assert_eq!(conf.ldap.uri, "");
    assert_eq!(conf.ldap.default_dn, "");
}

#[test]
fn defaults_and_copies() {
    let conf = Conf::default();
    assert_eq!(conf.data_store, "");
    assert_eq!(conf.ldap.uri, "");
    let ldap = LdapConf::default();
    assert_eq!(ldap.admin_user, "");
    assert_eq!(ldap.admin_password, "");
    assert_eq!(ldap.default_dn, "");

    let conf = Conf::from_settings(
        None,
        Some("example.com".to_string()),
        Some("ldap://h".to_string()),
        None,
        Some("secret".to_string()),
        Some("dc=example,dc=com".to_string()),
        None,
    );
    assert_eq!(conf.ldap.default_dn, "dc=example,dc=com");
    assert_eq!(
        Conf::from_settings(None, None, None, None, None, None, None).ldap.default_dn,
        "dc=ansvia,dc=org"
    );
    assert_eq!(conf.data_store, "/tmp/sso-store");
    assert_eq!(conf.allowed_continue_domain, "example.com");
    assert_eq!(conf.ldap.uri, "ldap://h");
    assert_eq!(conf.ldap.admin_user, "");
    assert_eq!(conf.ldap.admin_password, "secret");
    assert_eq!(conf.login_caption, "");
    let copy = conf.duplicate();
    assert_eq!(copy.data_store, conf.data_store);
    assert_eq!(copy.allowed_continue_domain, conf.allowed_continue_domain);
    assert_eq!(copy.ldap.uri, conf.ldap.uri);
    assert_eq!(copy.ldap.admin_password, conf.ldap.admin_password);
    assert_eq!(copy.ldap.default_dn, conf.ldap.default_dn);
}
