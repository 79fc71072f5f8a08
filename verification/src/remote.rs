//! Remote access: its settings, and the accounts that may use it.

use crate::auth::{hash_password, password_accepted};
use vstd::prelude::*;

verus! {

/// An account for remote access as the user interface sees it.
#[derive(Debug, Clone, PartialEq, Eq)]
pub struct RemoteUser {
    pub id: String,
    pub username: String,
    pub permissions: Vec<String>,
}

/// What is stored for a new account for remote access.
#[derive(Debug, Clone, PartialEq, Eq)]
pub struct RemoteUserRecord {
    pub user: RemoteUser,
    pub password_hash: String,
    pub permissions_json: String,
}

/// The port of remote access until the user sets another.
pub const DEFAULT_PORT: u16 = 9999;

/// The settings of remote access.
#[derive(Debug, Clone, PartialEq, Eq)]
pub struct RemoteConfig {
    pub enabled: bool,
    pub port: u16,
    pub require_auth: bool,
    pub ipv4: String,
    pub ipv6: String,
    pub tunnel_url: String,
    pub methods: Vec<String>,
}

/// The settings that saved settings lack and that are added when remote
/// access is switched on or off.
#[derive(Debug, Clone, PartialEq, Eq)]
pub struct MissingSettings {
    pub port: Option<u16>,
    pub require_auth: Option<bool>,
    pub methods: Option<Vec<String>>,
}

/// The ways of reaching the server that are offered until the user sets
/// others.
pub open spec fn default_methods() -> Seq<Seq<char>> {
    seq!["ip"@, "tunnel"@]
}

fn methods() -> (list: Vec<String>)
    ensures
        list.deep_view() == default_methods(),
{
    let mut list = Vec::new();
    list.push("ip".to_owned());
    list.push("tunnel".to_owned());
    assert(list.deep_view() =~= default_methods());
    list
}

impl RemoteConfig {
    /// The settings in use until the user saves others: remote access
    /// is off, on the default port, with authentication, by address or
    /// tunnel, and no address is known.
    pub open spec fn initial(self) -> bool {
        &&& !self.enabled
        &&& self.port == DEFAULT_PORT
        &&& self.require_auth
        &&& self.ipv4@.len() == 0
        &&& self.ipv6@.len() == 0
        &&& self.tunnel_url@.len() == 0
        &&& self.methods.deep_view() == default_methods()
    }
}

impl Default for RemoteConfig {
    fn default() -> (config: RemoteConfig)
        ensures
            config.initial(),
    {
        RemoteConfig {
            enabled: false,
            port: DEFAULT_PORT,
            require_auth: true,
            ipv4: String::new(),
            ipv6: String::new(),
            tunnel_url: String::new(),
            methods: methods(),
        }
    }
}

/// The settings to add to saved settings when remote access is switched
/// on or off: the default of each of port, authentication and methods
/// that the saved settings do not hold.
pub fn missing_settings(has_port: bool, has_require_auth: bool, has_methods: bool) -> (missing:
    MissingSettings)
    ensures
        missing.port == if has_port {
            None
        } else {
            Some(DEFAULT_PORT)
        },
        missing.require_auth == if has_require_auth {
            None
        } else {
            Some(true)
        },
        list_view(missing.methods) == if has_methods {
            None
        } else {
            Some(default_methods())
        },
{
    MissingSettings {
        port: if has_port {
            None
        } else {
            Some(DEFAULT_PORT)
        },
        require_auth: if has_require_auth {
            None
        } else {
            Some(true)
        },
        methods: if has_methods {
            None
        } else {
            Some(methods())
        },
    }
}

/// The list of strings that a JSON text stands for; nothing if the text
/// is not a JSON array of strings.
pub uninterp spec fn json_string_list(text: Seq<char>) -> Option<Seq<Seq<char>>>;

/// The JSON text of a list of strings, or the text of the failure of the
/// writer.
pub uninterp spec fn string_list_json(list: Seq<Seq<char>>) -> Result<Seq<char>, Seq<char>>;

/// A list that may be missing, by the characters of its strings.
pub open spec fn list_view(list: Option<Vec<String>>) -> Option<Seq<Seq<char>>> {
    match list {
        Some(list) => Some(list.deep_view()),
        None => None,
    }
}

/// A text or the text of a failure, by their characters.
pub open spec fn written_view(written: Result<String, String>) -> Result<Seq<char>, Seq<char>> {
    match written {
        Ok(text) => Ok(text@),
        Err(reason) => Err(reason@),
    }
}

/// `serde_json::from_str` at the type of a list of strings. The result
/// depends on the text alone; every failure of the reader is given as
/// nothing. The contract is not proved: it gives the result of the
/// outside function its name.
#[verifier::external_body]
fn parse_string_list(text: &str) -> (list: Option<Vec<String>>)
    ensures
        list_view(list) == json_string_list(text@),
{
    match serde_json::from_str::<Vec<String>>(text) {
        Ok(list) => Some(list),
        Err(_) => None,
    }
}

/// `serde_json::to_string` on a list of strings. The result depends on
/// the strings alone; a failure of the writer is given by its display
/// text. The contract is not proved: it gives the result of the outside
/// function its name.
#[verifier::external_body]
fn write_string_list(list: &Vec<String>) -> (written: Result<String, String>)
    ensures
        written_view(written) == string_list_json(list.deep_view()),
{
    match serde_json::to_string(list) {
        Ok(text) => Ok(text),
        Err(error) => Err(error.to_string()),
    }
}

/// The permissions of a stored account: those that were read, or none
/// where the stored text could not be read.
pub fn permissions_or_none(read: Option<Vec<String>>) -> (permissions: Vec<String>)
    ensures
        permissions.deep_view() == match read {
            Some(list) => list.deep_view(),
            None => Seq::empty(),
        },
{
    match read {
        Some(list) => list,
        None => {
            let none: Vec<String> = Vec::new();
            assert(none.deep_view() =~= Seq::<Seq<char>>::empty());
            none
        },
    }
}

impl RemoteUser {
    /// The account that a stored row stands for. `permissions_json` is
    /// the stored text of the permissions.
    pub fn from_row(id: String, username: String, permissions_json: &str) -> (user: RemoteUser)
        ensures
            user.id == id,
            user.username == username,
            user.permissions.deep_view() == match json_string_list(permissions_json@) {
                Some(list) => list,
                None => Seq::empty(),
            },
    {
        let permissions = permissions_or_none(parse_string_list(permissions_json));
        RemoteUser { id, username, permissions }
    }
}

/// What is stored for a new account, once its password was hashed and
/// its permissions were written: the first failure of the two, the
/// hasher's before the writer's, or the record.
pub fn remote_user_record(
    id: String,
    username: String,
    permissions: Vec<String>,
    hashed: Result<String, String>,
    written: Result<String, String>,
) -> (record: Result<RemoteUserRecord, String>)
    ensures
        record == match (hashed, written) {
            (Err(reason), _) => Err(reason),
            (Ok(_), Err(reason)) => Err(reason),
            (Ok(password_hash), Ok(permissions_json)) => Ok(
                RemoteUserRecord {
                    user: RemoteUser { id, username, permissions },
                    password_hash,
                    permissions_json,
                },
            ),
        },
{
    match hashed {
        Err(reason) => Err(reason),
        Ok(password_hash) => match written {
            Err(reason) => Err(reason),
            Ok(permissions_json) => Ok(
                RemoteUserRecord {
                    user: RemoteUser { id, username, permissions },
                    password_hash,
                    permissions_json,
                },
            ),
        },
    }
}

/// `record` is what is stored for a new account with the given name,
/// password and permissions.
pub open spec fn is_record_of(
    record: RemoteUserRecord,
    id: String,
    username: String,
    password: Seq<char>,
    permissions: Vec<String>,
) -> bool {
    &&& record.user == RemoteUser { id, username, permissions }
    &&& password_accepted(password, record.password_hash@)
    &&& string_list_json(permissions.deep_view()) == Ok::<Seq<char>, Seq<char>>(
        record.permissions_json@,
    )
}

/// Prepares what is stored for a new account: hashes the password and
/// writes the permissions as JSON.
pub fn create_remote_user(
    id: String,
    username: String,
    password: &str,
    permissions: Vec<String>,
) -> (record: Result<RemoteUserRecord, String>)
    ensures
        record matches Ok(record) ==> is_record_of(record, id, username, password@, permissions),
{
    match hash_password(password) {
        Err(reason) => Err(reason),
        Ok(password_hash) => {
            let written = write_string_list(&permissions);
            remote_user_record(id, username, permissions, Ok(password_hash), written)
        },
    }
}

/// What the removal of an account reports, given the number of stored
/// rows that it removed.
pub fn deletion_result(rows_removed: usize) -> (result: Result<bool, String>)
    ensures
        match result {
            Ok(done) => rows_removed > 0 && done,
            Err(reason) => rows_removed == 0 && reason@ == "User not found"@,
        },
{
    if rows_removed == 0 {
        Err("User not found".to_owned())
    } else {
        Ok(true)
    }
}

} // verus!
