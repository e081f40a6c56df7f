use sso::ldap::{bound, connect};
use sso::openldap::codes::results::{LDAP_NO_SUCH_OBJECT, LDAP_SUCCESS};
use sso::openldap::codes::scopes::{LDAP_SCOPE_BASE, LDAP_SCOPE_SUB};
use sso::openldap::codes::versions::LDAP_VERSION3;
use sso::openldap::errors::LDAPError;
use sso::openldap::{
    bind_reply, is_no_such_object, search_reply, BindRequest, DirectoryEntry, LDAPResponse,
    RustLDAP, SearchRequest,
};

const TEST_ADDRESS: &'static str = "ldap://ldap.forumsys.com";
const TEST_BIND_DN: &'static str = "cn=read-only-admin,dc=example,dc=com";
const TEST_BIND_PASS: &'static str = "password";
const TEST_SIMPLE_SEARCH_QUERY: &'static str = "uid=tesla,dc=example,dc=com";
const TEST_SEARCH_BASE: &'static str = "dc=example,dc=com";
const TEST_SEARCH_FILTER: &'static str = "(uid=euler)";
const TEST_SEARCH_INVALID_FILTER: &'static str = "(uid=INVALID)";

fn person(uid: &str, cn: &str, sn: &str) -> (String, DirectoryEntry) {
    let mut entry = DirectoryEntry::new();
    entry.insert("objectClass".to_string(), vec!["inetOrgPerson".to_string(), "top".to_string()]);
    entry.insert("uid".to_string(), vec![uid.to_string()]);
    entry.insert("cn".to_string(), vec![cn.to_string()]);
    entry.insert("sn".to_string(), vec![sn.to_string()]);
    entry.insert("mail".to_string(), vec![format!("{}@ldap.forumsys.com", uid)]);
    (format!("uid={},dc=example,dc=com", uid), entry)
}

/// Stands in for the directory server of these tests: it knows the
/// administrator and two people below `dc=example,dc=com`.
fn bind(request: &BindRequest) -> Result<i32, LDAPError> {
    if request.who == TEST_BIND_DN && request.pass == TEST_BIND_PASS {
        bind_reply(0, "Success")
    } else {
        bind_reply(49, "Invalid credentials")
    }
}

fn search(request: &SearchRequest) -> Result<LDAPResponse, LDAPError> {
    let people = vec![person("tesla", "Nikola Tesla", "Tesla"), person("euler", "Leonhard Euler", "Euler")];
    let wanted_uid = request.filter.as_ref().map(|filter| {
        filter.trim_start_matches("(uid=").trim_end_matches(")").to_string()
    });
    let mut base_exists = request.base == TEST_SEARCH_BASE;
    let mut found = Vec::new();
    for (dn, entry) in people {
        let in_scope = if request.scope == LDAP_SCOPE_BASE {
            dn == request.base
        } else {
            dn.ends_with(&request.base)
        };
        base_exists = base_exists || dn == request.base;
        let passes = match wanted_uid {
            Some(ref uid) => entry.first_value("uid") == *uid,
            None => true,
        };
        if in_scope && passes {
            let mut kept = DirectoryEntry::new();
            for attribute in entry.attributes {
                let listed = match request.attrs {
                    Some(ref names) => names.contains(&attribute.name),
                    None => true,
                };
                if listed {
                    kept.insert(attribute.name, attribute.values);
                }
            }
            found.push(kept);
        }
    }
    if base_exists {
        search_reply(LDAP_SUCCESS, "Success", found)
    } else {
        search_reply(LDAP_NO_SUCH_OBJECT, "No such object", Vec::new())
    }
}

fn print(search_res: &LDAPResponse, title: &str) {
    for result in search_res {
        println!("{}: {} attributes", title, result.attributes.len());
        for attribute in &result.attributes {
            println!("- key: {:?}", attribute.name);
            for res_val in &attribute.values {
                println!("- - res_val: {:?}", res_val);
            }
        }
    }
}

/// Test creating a RustLDAP struct with a valid uri.
#[test]
fn test_ldap_new() {
    let _ = RustLDAP::new(TEST_ADDRESS).unwrap();
}

/// Test creating a RustLDAP struct with an invalid uri.
#[test]
fn test_invalid_ldap_new() {
    if let Err(e) = RustLDAP::new("lda://localhost") {
        assert_eq!(LDAPError::NativeError("Bad parameter to an ldap routine".to_string()), e);
    } else {
        assert!(false);
    }
}

#[test]
fn test_simple_bind() {
    let ldap = RustLDAP::new(TEST_ADDRESS).unwrap();
    let res = bind(&ldap.simple_bind(TEST_BIND_DN, TEST_BIND_PASS)).unwrap();
    println!("Bind result: {:?}", res);
}

#[test]
fn test_simple_search() {
    println!("Testing simple search");
    let ldap = RustLDAP::new(TEST_ADDRESS).unwrap();
    let _ = bind(&ldap.simple_bind(TEST_BIND_DN, TEST_BIND_PASS)).unwrap();
    let search_res = search(&ldap.simple_search(TEST_SIMPLE_SEARCH_QUERY, LDAP_SCOPE_BASE)).unwrap();

    //make sure we got something back
    assert!(search_res.len() == 1);

    print(&search_res, "simple search result");
}

#[test]
fn test_search() {
    println!("Testing search");
    let ldap = RustLDAP::new(TEST_ADDRESS).unwrap();
    let _ = bind(&ldap.simple_bind(TEST_BIND_DN, TEST_BIND_PASS)).unwrap();
    let search_res = search(&ldap.ldap_search(
        TEST_SEARCH_BASE,
        LDAP_SCOPE_SUB,
        Some(TEST_SEARCH_FILTER),
        None,
        false,
        -1,
    ))
    .unwrap();

    //make sure we got something back
    assert!(search_res.len() == 1);

    print(&search_res, "search result");
}

#[test]
fn test_invalid_search() {
    println!("Testing invalid search");
    let ldap = RustLDAP::new(TEST_ADDRESS).unwrap();
    let _ = bind(&ldap.simple_bind(TEST_BIND_DN, TEST_BIND_PASS)).unwrap();
    let search_res = search(&ldap.ldap_search(
        TEST_SEARCH_BASE,
        LDAP_SCOPE_SUB,
        Some(TEST_SEARCH_INVALID_FILTER),
        None,
        false,
        -1,
    ))
    .unwrap();

    //make sure we got something back
    assert!(search_res.len() == 0);
}

#[test]
fn test_search_attrs() {
    println!("Testing search with attrs");
    let test_search_attrs_vec = vec!["cn".to_string(), "sn".to_string(), "mail".to_string()];
    let ldap = RustLDAP::new(TEST_ADDRESS).unwrap();
    let _ = bind(&ldap.simple_bind(TEST_BIND_DN, TEST_BIND_PASS)).unwrap();
    let search_res = search(&ldap.ldap_search(
        TEST_SEARCH_BASE,
        LDAP_SCOPE_SUB,
        Some(TEST_SEARCH_FILTER),
        Some(test_search_attrs_vec),
        false,
        -1,
    ))
    .unwrap();

    //make sure we got something back
    assert!(search_res.len() == 1);
    assert_eq!(search_res[0].attributes.len(), 3);
    assert_eq!(search_res[0].first_value("mail"), "euler@ldap.forumsys.com");
    assert_eq!(search_res[0].get("uid"), None);

    print(&search_res, "attrs search result");
}

#[test]
fn test_search_invalid_attrs() {
    println!("Testing search with invalid attrs");
    let test_search_attrs_vec =
        vec!["cn".to_string(), "sn".to_string(), "mail".to_string(), "INVALID".to_string()];
    let ldap = RustLDAP::new(TEST_ADDRESS).unwrap();
    let _ = bind(&ldap.simple_bind(TEST_BIND_DN, TEST_BIND_PASS)).unwrap();
    let search_res = search(&ldap.ldap_search(
        TEST_SEARCH_BASE,
        LDAP_SCOPE_SUB,
        Some(TEST_SEARCH_FILTER),
        Some(test_search_attrs_vec),
        false,
        -1,
    ))
    .unwrap();

    print(&search_res, "attrs search result");
}

#[test]
fn a_search_below_a_missing_base_is_refused() {
    let ldap = RustLDAP::new(TEST_ADDRESS).unwrap();
    let refused = search(&ldap.simple_search("uid=gauss,dc=example,dc=com", LDAP_SCOPE_BASE));
    assert_eq!(refused.err(), Some(LDAPError::NativeError("No such object".to_string())));
    let refused = bind(&ldap.simple_bind(TEST_BIND_DN, "wrong"));
    assert_eq!(refused, Err(LDAPError::NativeError("Invalid credentials".to_string())));
}

#[test]
fn uri_schemes() {
    for uri in ["ldap://h", "ldaps://h:636", "ldapi://%2Fvar%2Frun", "cldap://h", "LDAP://H", "LdApS://h"] {
        let session = RustLDAP::new(uri).unwrap();
        assert_eq!(session.address(), uri);
    }
    for uri in ["", "ldap", "ldap:/h", "http://h", "lda://localhost", " ldap://h", "INVALID\0CSTRING"] {
        assert_eq!(
            RustLDAP::new(uri).err(),
            Some(LDAPError::NativeError("Bad parameter to an ldap routine".to_string()))
        );
    }
}

#[test]
fn error_texts() {
    let error = LDAPError::from("No such object".to_string());
    assert_eq!(error, LDAPError::NativeError("No such object".to_string()));
    assert_eq!(error.description(), "No such object");
    assert_eq!(error.display(), "LDAP error: No such object");
    assert_eq!(error.cause(), None);
    assert!(is_no_such_object(&error));
    assert!(!is_no_such_object(&LDAPError::NativeError("no such object".to_string())));
    assert!(!is_no_such_object(&LDAPError::NativeError("".to_string())));
}

#[test]
fn bind_request_and_reply() {
    let ldap = RustLDAP::new(TEST_ADDRESS).unwrap();
    let request = ldap.simple_bind(TEST_BIND_DN, TEST_BIND_PASS);
    assert_eq!(request.who, TEST_BIND_DN);
    assert_eq!(request.pass, TEST_BIND_PASS);
    assert_eq!(bind_reply(0, "Success"), Ok(0));
    assert_eq!(
        bind_reply(49, "Invalid credentials"),
        Err(LDAPError::NativeError("Invalid credentials".to_string()))
    );
    assert_eq!(
        bind_reply(1, "Operations error"),
        Err(LDAPError::NativeError("Operations error".to_string()))
    );
    assert_eq!(
        bind_reply(-1, "Can't contact LDAP server"),
        Err(LDAPError::NativeError("Can't contact LDAP server".to_string()))
    );
}

#[test]
fn search_requests() {
    let ldap = RustLDAP::new(TEST_ADDRESS).unwrap();
    let simple = ldap.simple_search(TEST_SIMPLE_SEARCH_QUERY, LDAP_SCOPE_BASE);
    assert_eq!(simple.base, TEST_SIMPLE_SEARCH_QUERY);
    assert_eq!(simple.scope, 0);
    assert_eq!(simple.filter, None);
    assert_eq!(simple.attrs, None);
    assert!(!simple.attrsonly);
    assert_eq!(simple.sizelimit, -1);

    let attrs = vec!["cn".to_string(), "sn".to_string(), "mail".to_string()];
    let full = ldap.ldap_search(
        TEST_SEARCH_BASE,
        LDAP_SCOPE_SUB,
        Some(TEST_SEARCH_FILTER),
        Some(attrs.clone()),
        true,
        10,
    );
    assert_eq!(full.base, TEST_SEARCH_BASE);
    assert_eq!(full.scope, 2);
    assert_eq!(full.filter, Some("(uid=euler)".to_string()));
    assert_eq!(full.attrs, Some(attrs));
    assert!(full.attrsonly);
    assert_eq!(full.sizelimit, 10);
}

#[test]
fn search_replies() {
    let mut entry = DirectoryEntry::new();
    entry.insert("uid".to_string(), vec!["tesla".to_string()]);
    match search_reply(LDAP_SUCCESS, "Success", vec![entry]) {
        Ok(entries) => {
            assert_eq!(entries.len(), 1);
            assert_eq!(entries[0].first_value("uid"), "tesla");
        }
        Err(_) => panic!("a successful search was refused"),
    }
    match search_reply(LDAP_NO_SUCH_OBJECT, "No such object", vec![]) {
        Ok(_) => panic!("a failed search was accepted"),
        Err(error) => assert_eq!(error, LDAPError::NativeError("No such object".to_string())),
    }
    assert!(search_reply(-1, "Can't contact LDAP server", vec![]).is_err());
    assert!(search_reply(1, "Operations error", vec![DirectoryEntry::new()]).is_err());
}

#[test]
fn entry_attributes() {
    let mut entry = DirectoryEntry::new();
    assert_eq!(entry.get("cn"), None);
    assert_eq!(entry.first_value("cn"), "");
    entry.insert("cn".to_string(), vec!["Leonhard".to_string(), "Euler".to_string()]);
    entry.insert("mail".to_string(), vec![]);
    entry.insert("sn".to_string(), vec!["Euler".to_string()]);
    assert_eq!(entry.attributes.len(), 3);
    assert_eq!(entry.attributes[0].name, "cn");
    assert_eq!(entry.attributes[2].name, "sn");
    assert_eq!(entry.get("cn"), Some(&vec!["Leonhard".to_string(), "Euler".to_string()]));
    assert_eq!(entry.first_value("cn"), "Leonhard");
    assert_eq!(entry.get("mail"), Some(&vec![]));
    assert_eq!(entry.first_value("mail"), "");
    assert_eq!(entry.get("CN"), None);
    // A name that occurs again is kept, and the later occurrence is read.
    entry.insert("cn".to_string(), vec!["Euler, L.".to_string()]);
    assert_eq!(entry.attributes.len(), 4);
    assert_eq!(entry.first_value("cn"), "Euler, L.");
    assert_eq!(entry.attributes[0].values, vec!["Leonhard".to_string(), "Euler".to_string()]);
}

#[test]
fn administrator_connection() {
    match connect("ldap://localhost", "admin", "secret", "dc=ansvia,dc=org") {
        Ok(connection) => {
            assert_eq!(connection.session.address(), "ldap://localhost");
            assert_eq!(connection.protocol_version, LDAP_VERSION3);
            assert_eq!(connection.protocol_version, 3);
            assert_eq!(connection.bind.who, "cn=admin,dc=ansvia,dc=org");
            assert_eq!(connection.bind.pass, "secret");
        }
        Err(message) => panic!("refused: {}", message),
    }
    assert_eq!(
        connect("localhost", "admin", "secret", "dc=ansvia,dc=org").err(),
        Some("Cannot connect to LDAP server".to_string())
    );
    assert_eq!(bound(bind_reply(0, "Success")), Ok(()));
    assert_eq!(
        bound(bind_reply(49, "Invalid credentials")),
        Err("Cannot connect to LDAP server".to_string())
    );
    assert_eq!(
        bound(bind_reply(-1, "Can't contact LDAP server")),
        Err("Cannot connect to LDAP server".to_string())
    );
}
