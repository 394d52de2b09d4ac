//! The tunnel's settings: the client's bind address and server address, and
//! the server's bind address, taken from a JSON document with sections
//! `client` and `server`.
use vstd::prelude::*;

verus! {

/// Why the settings cannot be used.
#[derive(PartialEq, Eq, Structural, Clone, Copy, Debug)]
pub enum ConfigError {
    /// The text is not a JSON document.
    NotJson,
    /// The bind address is absent, not a string, or empty.
    MissingBind,
    /// The server address is absent, not a string, or empty.
    MissingTarget,
}

/// Whether `json::parse` accepts the text.
pub uninterp spec fn json_parses(text: Seq<char>) -> bool;

/// The string at `document[section][key]` of the document that `json::parse`
/// reads from the text; `None` where that value is absent or not a string.
pub uninterp spec fn json_entry_text(text: Seq<char>, section: Seq<char>, key: Seq<char>) -> Option<Seq<char>>;

/// The characters of an optional string.
pub open spec fn text_view(o: Option<String>) -> Option<Seq<char>> {
    match o {
        Some(s) => Some(s@),
        None => None,
    }
}

/// Relies on `json::parse`, json's `Index<&str>` for `JsonValue` (null for a
/// missing member or a non-object) and `JsonValue::as_str` (`Some` for string
/// values only): `None` when the text does not parse, else the string at
/// `document[section][key]`, if there is one.
#[verifier::external_body]
fn entry_text(text: &str, section: &str, key: &str) -> (r: Option<Option<String>>)
    ensures
        r is Some <==> json_parses(text@),
        r is Some ==> text_view(r->0) == json_entry_text(text@, section@, key@),
{
    json::parse(text).ok().map(|doc| doc[section][key].as_str().map(String::from))
}

/// The client's settings judged from its two entries: the bind address must
/// be there and not empty, and so must the server address.
pub open spec fn client_entries_spec(bind: Option<Seq<char>>, target: Option<Seq<char>>) -> Result<ClientView, ConfigError> {
    match bind {
        None => Err(ConfigError::MissingBind),
        Some(b) => if b.len() == 0 {
            Err(ConfigError::MissingBind)
        } else {
            match target {
                None => Err(ConfigError::MissingTarget),
                Some(t) => if t.len() == 0 {
                    Err(ConfigError::MissingTarget)
                } else {
                    Ok(ClientView { bind: b, target: t })
                },
            }
        },
    }
}

/// The server's settings judged from its bind entry, which must be there and
/// not empty.
pub open spec fn server_entries_spec(bind: Option<Seq<char>>) -> Result<Seq<char>, ConfigError> {
    match bind {
        None => Err(ConfigError::MissingBind),
        Some(b) => if b.len() == 0 {
            Err(ConfigError::MissingBind)
        } else {
            Ok(b)
        },
    }
}

/// The settings file's verdict on the client: `NotJson` when it does not
/// parse, else the verdict on `client.bind` and `client.target`.
pub open spec fn client_settings_spec(text: Seq<char>) -> Result<ClientView, ConfigError> {
    if !json_parses(text) {
        Err(ConfigError::NotJson)
    } else {
        client_entries_spec(
            json_entry_text(text, "client"@, "bind"@),
            json_entry_text(text, "client"@, "target"@),
        )
    }
}

/// The settings file's verdict on the server: `NotJson` when it does not
/// parse, else the verdict on `server.bind`.
pub open spec fn server_settings_spec(text: Seq<char>) -> Result<Seq<char>, ConfigError> {
    if !json_parses(text) {
        Err(ConfigError::NotJson)
    } else {
        server_entries_spec(json_entry_text(text, "server"@, "bind"@))
    }
}

/// The client's settings: where to listen for local connections, and the
/// address of the tunnel server.
pub struct Client {
    bind: String,
    target: String,
}

pub struct ClientView {
    pub bind: Seq<char>,
    pub target: Seq<char>,
}

impl View for Client {
    type V = ClientView;

    closed spec fn view(&self) -> ClientView {
        ClientView { bind: self.bind@, target: self.target@ }
    }
}

impl Client {
    /// The client's settings as a result over views.
    pub open spec fn result_view(r: Result<Client, ConfigError>) -> Result<ClientView, ConfigError> {
        match r {
            Ok(c) => Ok(c@),
            Err(e) => Err(e),
        }
    }

    /// Settings from the two entries of the `client` section, each `None`
    /// when absent or not a string.
    pub fn from_entries(bind: Option<String>, target: Option<String>) -> (r: Result<Client, ConfigError>)
        ensures
            Client::result_view(r) == client_entries_spec(text_view(bind), text_view(target)),
    {
        match bind {
            None => Err(ConfigError::MissingBind),
            Some(b) => {
                if b.unicode_len() == 0 {
                    return Err(ConfigError::MissingBind);
                }
                match target {
                    None => Err(ConfigError::MissingTarget),
                    Some(t) => {
                        if t.unicode_len() == 0 {
                            Err(ConfigError::MissingTarget)
                        } else {
                            Ok(Client { bind: b, target: t })
                        }
                    },
                }
            },
        }
    }

    /// Settings from the text of the settings file: `client.bind` and
    /// `client.target`.
    pub fn from_json_text(text: &str) -> (r: Result<Client, ConfigError>)
        ensures
            Client::result_view(r) == client_settings_spec(text@),
    {
        let bind = match entry_text(text, "client", "bind") {
            None => return Err(ConfigError::NotJson),
            Some(b) => b,
        };
        let target = match entry_text(text, "client", "target") {
            None => return Err(ConfigError::NotJson),
            Some(t) => t,
        };
        Client::from_entries(bind, target)
    }

    pub fn get_bind(&self) -> (r: String)
        ensures
            r@ == self@.bind,
    {
        self.bind.clone()
    }

    pub fn get_target(&self) -> (r: String)
        ensures
            r@ == self@.target,
    {
        self.target.clone()
    }
}

/// The server's settings: where to accept QUIC connections.
pub struct Server {
    bind: String,
}

impl View for Server {
    type V = Seq<char>;

    closed spec fn view(&self) -> Seq<char> {
        self.bind@
    }
}

impl Server {
    /// The server's settings as a result over views.
    pub open spec fn result_view(r: Result<Server, ConfigError>) -> Result<Seq<char>, ConfigError> {
        match r {
            Ok(c) => Ok(c@),
            Err(e) => Err(e),
        }
    }

    /// Settings from the `bind` entry of the `server` section, `None` when
    /// absent or not a string.
    pub fn from_entries(bind: Option<String>) -> (r: Result<Server, ConfigError>)
        ensures
            Server::result_view(r) == server_entries_spec(text_view(bind)),
    {
        match bind {
            None => Err(ConfigError::MissingBind),
            Some(b) => {
                if b.unicode_len() == 0 {
                    Err(ConfigError::MissingBind)
                } else {
                    Ok(Server { bind: b })
                }
            },
        }
    }

    /// Settings from the text of the settings file: `server.bind`.
    pub fn from_json_text(text: &str) -> (r: Result<Server, ConfigError>)
        ensures
            Server::result_view(r) == server_settings_spec(text@),
    {
        match entry_text(text, "server", "bind") {
            None => Err(ConfigError::NotJson),
            Some(b) => Server::from_entries(b),
        }
    }

    pub fn get_bind(&self) -> (r: String)
        ensures
            r@ == self@,
    {
        self.bind.clone()
    }
}

} // verus!
