//! Configuration of the service.

use crate::login_handler::DEFAULT_DN;
use crate::outside::{toml_document, toml_is_document, toml_table_string, toml_top_string};
use vstd::prelude::*;

verus! {

/// Where the token store lives when the configuration does not say.
pub const DEFAULT_DB_STORE: &'static str = "/tmp/sso-store";

/// How to reach the directory and bind to it as its administrator, and the
/// directory base for logins that name none.
pub struct LdapConf {
    pub uri: String,
    pub admin_user: String,
    pub admin_password: String,
    pub default_dn: String,
}

/// The configuration of the service.
pub struct Conf {
    pub data_store: String,
    pub allowed_continue_domain: String,
    pub ldap: LdapConf,
    pub login_caption: String,
}

/// The mathematical form of a [`Conf`].
pub struct ConfModel {
    pub data_store: Seq<char>,
    pub allowed_continue_domain: Seq<char>,
    pub uri: Seq<char>,
    pub admin_user: Seq<char>,
    pub admin_password: Seq<char>,
    pub default_dn: Seq<char>,
    pub login_caption: Seq<char>,
}

impl View for Conf {
    type V = ConfModel;

    open spec fn view(&self) -> ConfModel {
        ConfModel {
            data_store: self.data_store@,
            allowed_continue_domain: self.allowed_continue_domain@,
            uri: self.ldap.uri@,
            admin_user: self.ldap.admin_user@,
            admin_password: self.ldap.admin_password@,
            default_dn: self.ldap.default_dn@,
            login_caption: self.login_caption@,
        }
    }
}

/// The configuration in which every setting is empty.
pub open spec fn empty_conf() -> ConfModel {
    ConfModel {
        data_store: Seq::<char>::empty(),
        allowed_continue_domain: Seq::<char>::empty(),
        uri: Seq::<char>::empty(),
        admin_user: Seq::<char>::empty(),
        admin_password: Seq::<char>::empty(),
        default_dn: Seq::<char>::empty(),
        login_caption: Seq::<char>::empty(),
    }
}

/// A setting that was read, or its default where it was not.
pub open spec fn or_default(read: Option<Seq<char>>, default: Seq<char>) -> Seq<char> {
    match read {
        Some(text) => text,
        None => default,
    }
}

/// The configuration made of the settings that were read: the store's
/// place defaults to `DEFAULT_DB_STORE`, the default directory base to
/// `DEFAULT_DN`, every other setting to the empty text.
pub open spec fn conf_of(
    data_store: Option<Seq<char>>,
    allowed_continue_domain: Option<Seq<char>>,
    uri: Option<Seq<char>>,
    admin_user: Option<Seq<char>>,
    admin_password: Option<Seq<char>>,
    default_dn: Option<Seq<char>>,
    login_caption: Option<Seq<char>>,
) -> ConfModel {
    ConfModel {
        data_store: or_default(data_store, DEFAULT_DB_STORE@),
        allowed_continue_domain: or_default(allowed_continue_domain, Seq::<char>::empty()),
        uri: or_default(uri, Seq::<char>::empty()),
        admin_user: or_default(admin_user, Seq::<char>::empty()),
        admin_password: or_default(admin_password, Seq::<char>::empty()),
        default_dn: or_default(default_dn, DEFAULT_DN@),
        login_caption: or_default(login_caption, Seq::<char>::empty()),
    }
}

/// The string at `path` in a document, if there is one.
pub open spec fn string_at(document: Map<Seq<Seq<char>>, Seq<char>>, path: Seq<Seq<char>>)
    -> Option<Seq<char>> {
    if document.contains_key(path) {
        Some(document[path])
    } else {
        None
    }
}

/// The configuration that a TOML text stands for: every setting empty where
/// the text is no document, and otherwise the strings found under
/// `data_store`, `allowed_continue_domain`, `login_caption` and, in the table
/// `ldap`, under `uri`, `admin_user`, `admin_password` and `default_dn`.
pub open spec fn conf_from_toml(data: Seq<char>) -> ConfModel {
    match toml_document(data) {
        None => empty_conf(),
        Some(document) => conf_of(
            string_at(document, seq!["data_store"@]),
            string_at(document, seq!["allowed_continue_domain"@]),
            string_at(document, seq!["ldap"@, "uri"@]),
            string_at(document, seq!["ldap"@, "admin_user"@]),
            string_at(document, seq!["ldap"@, "admin_password"@]),
            string_at(document, seq!["ldap"@, "default_dn"@]),
            string_at(document, seq!["login_caption"@]),
        ),
    }
}

/// The view of an optional string.
pub open spec fn text_of(read: Option<String>) -> Option<Seq<char>> {
    match read {
        Some(text) => Some(text@),
        None => None,
    }
}

/// A setting that was read, or `default` where it was not.
fn setting(read: Option<String>, default: &str) -> (value: String)
    ensures
        value@ == or_default(text_of(read), default@),
{
    match read {
        Some(text) => text,
        None => default.to_owned(),
    }
}

impl Default for LdapConf {
    fn default() -> (conf: LdapConf)
        ensures
            conf.uri@.len() == 0,
            conf.admin_user@.len() == 0,
            conf.admin_password@.len() == 0,
            conf.default_dn@.len() == 0,
    {
        LdapConf {
            uri: String::new(),
            admin_user: String::new(),
            admin_password: String::new(),
            default_dn: String::new(),
        }
    }
}

impl Default for Conf {
    fn default() -> (conf: Conf)
        ensures
            conf@ == empty_conf(),
    {
        let conf = Conf {
            data_store: String::new(),
            allowed_continue_domain: String::new(),
            ldap: LdapConf {
                uri: String::new(),
                admin_user: String::new(),
                admin_password: String::new(),
                default_dn: String::new(),
            },
            login_caption: String::new(),
        };
        conf
    }
}

impl LdapConf {
    /// A copy of these settings.
    pub fn duplicate(&self) -> (copy: LdapConf)
        ensures
            copy == *self,
    {
        LdapConf {
            uri: self.uri.clone(),
            admin_user: self.admin_user.clone(),
            admin_password: self.admin_password.clone(),
            default_dn: self.default_dn.clone(),
        }
    }
}

impl Conf {
    /// A copy of this configuration.
    pub fn duplicate(&self) -> (copy: Conf)
        ensures
            copy == *self,
    {
        Conf {
            data_store: self.data_store.clone(),
            allowed_continue_domain: self.allowed_continue_domain.clone(),
            ldap: self.ldap.duplicate(),
            login_caption: self.login_caption.clone(),
        }
    }

    /// The configuration made of the settings that were read, with the
    /// default for each that was not.
    pub fn from_settings(
        data_store: Option<String>,
        allowed_continue_domain: Option<String>,
        uri: Option<String>,
        admin_user: Option<String>,
        admin_password: Option<String>,
        default_dn: Option<String>,
        login_caption: Option<String>,
    ) -> (conf: Conf)
        ensures
            conf@ == conf_of(
                text_of(data_store),
                text_of(allowed_continue_domain),
                text_of(uri),
                text_of(admin_user),
                text_of(admin_password),
                text_of(default_dn),
                text_of(login_caption),
            ),
    {
        proof {
            reveal_strlit("");
        }
        assert(""@ =~= Seq::<char>::empty());
        Conf {
            data_store: setting(data_store, DEFAULT_DB_STORE),
            allowed_continue_domain: setting(allowed_continue_domain, ""),
            ldap: LdapConf {
                uri: setting(uri, ""),
                admin_user: setting(admin_user, ""),
                admin_password: setting(admin_password, ""),
                default_dn: setting(default_dn, DEFAULT_DN),
            },
            login_caption: setting(login_caption, ""),
        }
    }

    /// Reads the configuration from a TOML text.
    pub fn read_str(data: &str) -> (conf: Conf)
        ensures
            conf@ == conf_from_toml(data@),
    {
        if !toml_is_document(data) {
            return Conf::default();
        }
        Conf::from_settings(
            toml_top_string(data, "data_store"),
            toml_top_string(data, "allowed_continue_domain"),
            toml_table_string(data, "ldap", "uri"),
            toml_table_string(data, "ldap", "admin_user"),
            toml_table_string(data, "ldap", "admin_password"),
            toml_table_string(data, "ldap", "default_dn"),
            toml_top_string(data, "login_caption"),
        )
    }
}

} // verus!
