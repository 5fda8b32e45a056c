use crate::iceserver::{ICEServer, ICEServerView};
use crate::utils::random_id;
use vstd::prelude::*;
use vstd::string::StringExecFns;

verus! {

/// The text of an empty field as an absent value, any other text as it is.
pub open spec fn string_to_option_spec(value: Seq<char>) -> Option<Seq<char>> {
    if value.len() == 0 {
        None
    } else {
        Some(value)
    }
}

/// An absent value as the text of an empty field, a present one as it is.
pub open spec fn option_to_string_spec(value: Option<Seq<char>>) -> Seq<char> {
    match value {
        Some(text) => text,
        None => Seq::empty(),
    }
}

/// Reads a text field: an empty field stands for no value.
pub fn string_to_option(value: String) -> (r: Option<String>)
    ensures
        value@.len() == 0 ==> r is None,
        value@.len() != 0 ==> r == Some(value),
{
    if value.as_str().is_empty() {
        None
    } else {
        Some(value)
    }
}

/// Fills a text field: no value shows as an empty field.
pub fn option_to_string(value: Option<String>) -> (r: String)
    ensures
        match value {
            Some(text) => r == text,
            None => r@ == Seq::<char>::empty(),
        },
{
    match value {
        Some(text) => text,
        None => String::new(),
    }
}

/// A text field that is saved and loaded again shows what it showed, and a
/// saved value that is loaded and saved again is the same but for an empty
/// text, which is saved as no value.
pub proof fn lemma_field_round_trip(field: Seq<char>, saved: Option<Seq<char>>)
    ensures
        option_to_string_spec(string_to_option_spec(field)) == field,
        saved != Some(Seq::<char>::empty()) ==> string_to_option_spec(
            option_to_string_spec(saved),
        ) == saved,
        string_to_option_spec(option_to_string_spec(Some(Seq::<char>::empty()))) == None::<
            Seq<char>,
        >,
{
    if field.len() == 0 {
        assert(field == Seq::<char>::empty());
    }
    match saved {
        Some(text) => {
            if text.len() == 0 {
                assert(text == Seq::<char>::empty());
            }
        },
        None => {},
    }
}

/// One server as the settings editor holds it.
#[derive(Debug, PartialEq, Eq)]
pub struct SettingsServer {
    id: u128,
    url: String,
    username: String,
    credential: String,
    editing: bool,
}

/// What a [`SettingsServer`] stands for.
pub struct SettingsServerView {
    pub id: u128,
    pub url: Seq<char>,
    pub username: Seq<char>,
    pub credential: Seq<char>,
    pub editing: bool,
}

/// One server as it is stored.
#[derive(Debug, PartialEq, Eq)]
pub struct SavedSettingsServer {
    pub url: String,
    pub username: Option<String>,
    pub credential: Option<String>,
}

/// What a [`SavedSettingsServer`] stands for.
pub struct SavedSettingsServerView {
    pub url: Seq<char>,
    pub username: Option<Seq<char>>,
    pub credential: Option<Seq<char>>,
}

/// The settings as they are stored.
#[derive(Debug, PartialEq, Eq)]
pub struct SavedSettings {
    pub servers: Vec<SavedSettingsServer>,
}

impl View for SettingsServer {
    type V = SettingsServerView;

    closed spec fn view(&self) -> SettingsServerView {
        SettingsServerView {
            id: self.id,
            url: self.url@,
            username: self.username@,
            credential: self.credential@,
            editing: self.editing,
        }
    }
}

impl View for SavedSettingsServer {
    type V = SavedSettingsServerView;

    open spec fn view(&self) -> SavedSettingsServerView {
        SavedSettingsServerView {
            url: self.url@,
            username: crate::iceserver::option_view(self.username),
            credential: crate::iceserver::option_view(self.credential),
        }
    }
}

impl SettingsServerView {
    /// The server as it is stored: empty login fields are left out.
    pub open spec fn to_saved(self) -> SavedSettingsServerView {
        SavedSettingsServerView {
            url: self.url,
            username: string_to_option_spec(self.username),
            credential: string_to_option_spec(self.credential),
        }
    }

    /// The server as the signaling provider is told of it.
    pub open spec fn to_js(self) -> ICEServerView {
        ICEServerView {
            urls: self.url,
            username: string_to_option_spec(self.username),
            credential: string_to_option_spec(self.credential),
        }
    }

    /// The line that stands for the server in the list: its address, with
    /// the user name in front if there is one, and the credential masked.
    pub open spec fn label(self) -> Seq<char> {
        let url = if self.url.len() == 0 {
            "<missing url>"@
        } else {
            self.url
        };
        if self.username.len() == 0 && self.credential.len() == 0 {
            url
        } else if self.credential.len() == 0 {
            self.username + "@"@ + url
        } else if self.username.len() == 0 {
            ":****@"@ + url
        } else {
            self.username + ":****@"@ + url
        }
    }
}

impl SavedSettingsServerView {
    /// The stored server as the editor holds it after loading, under the
    /// number `id`: not being edited, absent login fields empty.
    pub open spec fn restore(self, id: u128) -> SettingsServerView {
        SettingsServerView {
            id,
            url: self.url,
            username: option_to_string_spec(self.username),
            credential: option_to_string_spec(self.credential),
            editing: false,
        }
    }
}

/// A server that is saved and loaded again has the address and the login it
/// had.
pub proof fn lemma_server_round_trip(server: SettingsServerView, id: u128)
    ensures
        server.to_saved().restore(id) == (SettingsServerView { id, editing: false, ..server }),
{
    lemma_field_round_trip(server.username, None);
    lemma_field_round_trip(server.credential, None);
}

impl SettingsServer {
    /// A server with the given fields, under a number drawn at random.
    pub fn new(url: String, username: String, credential: String, editing: bool) -> (server:
        SettingsServer)
        ensures
            server@ == (SettingsServerView {
                id: server@.id,
                url: url@,
                username: username@,
                credential: credential@,
                editing,
            }),
    {
        Self::with_id(random_id(), url, username, credential, editing)
    }

    /// A server with the given fields, under the number `id`.
    pub fn with_id(
        id: u128,
        url: String,
        username: String,
        credential: String,
        editing: bool,
    ) -> (server: SettingsServer)
        ensures
            server@ == (SettingsServerView {
                id,
                url: url@,
                username: username@,
                credential: credential@,
                editing,
            }),
    {
        SettingsServer { id, url, username, credential, editing }
    }

    /// The stored server as the editor holds it after loading.
    pub fn from_saved(saved: SavedSettingsServer) -> (server: SettingsServer)
        ensures
            server@ == saved@.restore(server@.id),
    {
        SettingsServer {
            id: random_id(),
            url: saved.url,
            username: option_to_string(saved.username),
            credential: option_to_string(saved.credential),
            editing: false,
        }
    }

    /// The server as it is stored.
    pub fn to_saved(&self) -> (saved: SavedSettingsServer)
        ensures
            saved@ == self@.to_saved(),
    {
        SavedSettingsServer {
            url: self.url.clone(),
            username: string_to_option(self.username.clone()),
            credential: string_to_option(self.credential.clone()),
        }
    }

    /// The server as the signaling provider is told of it.
    pub fn to_js(&self) -> (server: ICEServer)
        ensures
            server@ == self@.to_js(),
    {
        ICEServer::new(
            self.url.clone(),
            string_to_option(self.username.clone()),
            string_to_option(self.credential.clone()),
        )
    }

    /// The line that stands for the server in the list.
    pub fn label(&self) -> (label: String)
        ensures
            label@ == self@.label(),
    {
        let url = if self.url.as_str().is_empty() {
            "<missing url>".to_string()
        } else {
            self.url.clone()
        };
        let no_username = self.username.as_str().is_empty();
        let no_credential = self.credential.as_str().is_empty();
        if no_username && no_credential {
            url
        } else if no_credential {
            let mut label = self.username.clone();
            label.append("@");
            label.append(url.as_str());
            label
        } else if no_username {
            let mut label = ":****@".to_string();
            label.append(url.as_str());
            label
        } else {
            let mut label = self.username.clone();
            label.append(":****@");
            label.append(url.as_str());
            label
        }
    }

    /// The number by which the server is told from the others.
    pub fn id(&self) -> (id: u128)
        ensures
            id == self@.id,
    {
        self.id
    }

    /// The server's address.
    pub fn url(&self) -> (url: &str)
        ensures
            url@ == self@.url,
    {
        self.url.as_str()
    }

    /// The user name to log in with; empty where the server asks for none.
    pub fn username(&self) -> (username: &str)
        ensures
            username@ == self@.username,
    {
        self.username.as_str()
    }

    /// The credential to log in with; empty where the server asks for none.
    pub fn credential(&self) -> (credential: &str)
        ensures
            credential@ == self@.credential,
    {
        self.credential.as_str()
    }

    /// Whether the server's fields are open for editing.
    pub fn editing(&self) -> (editing: bool)
        ensures
            editing == self@.editing,
    {
        self.editing
    }
}

/// The settings: the servers that a session hands to the signaling provider.
#[derive(Debug, PartialEq, Eq)]
pub struct Settings {
    pub servers: Vec<SettingsServer>,
}

/// The address of the one server that the settings start out with.
pub open spec fn default_server_url() -> Seq<char> {
    "stun:stun.l.google.com:19302"@
}

impl Default for Settings {
    /// The settings as they are before anything was stored.
    fn default() -> (settings: Settings)
        ensures
            Settings::is_default(settings),
    {
        let mut servers = Vec::new();
        servers.push(
            SettingsServer::new(
                "stun:stun.l.google.com:19302".to_string(),
                String::new(),
                String::new(),
                false,
            ),
        );
        Settings { servers }
    }
}

impl Settings {
    /// `settings` holds one server and no other: the public default,
    /// without a login, not being edited.
    pub open spec fn is_default(settings: Settings) -> bool {
        &&& settings.servers@.len() == 1
        &&& settings.servers@[0]@ == (SettingsServerView {
            id: settings.servers@[0]@.id,
            url: default_server_url(),
            username: Seq::empty(),
            credential: Seq::empty(),
            editing: false,
        })
    }

    /// The settings that a session starts with: what was stored, if
    /// anything was and could be read, else the default.
    pub fn loaded_or_default(saved: Option<SavedSettings>) -> (settings: Settings)
        ensures
            match saved {
                Some(saved) => Self::restores(settings, saved),
                None => Self::is_default(settings),
            },
    {
        match saved {
            Some(saved) => Settings::from_saved(saved),
            None => Settings::default(),
        }
    }

    /// `settings` holds the servers of `saved`, in their order, each as the
    /// editor holds it after loading.
    pub open spec fn restores(settings: Settings, saved: SavedSettings) -> bool {
        &&& settings.servers@.len() == saved.servers@.len()
        &&& forall|i: int|
            0 <= i < saved.servers@.len() ==> (#[trigger] settings.servers@[i])@
                == saved.servers@[i]@.restore(settings.servers@[i]@.id)
    }

    /// The stored settings as the editor holds them after loading.
    pub fn from_saved(saved: SavedSettings) -> (settings: Settings)
        ensures
            Self::restores(settings, saved),
    {
        let mut servers: Vec<SettingsServer> = Vec::new();
        let ghost all = saved.servers@;
        for next in it: saved.servers.into_iter()
            invariant
                it.seq() == all,
                servers@.len() == it.index(),
                forall|i: int|
                    0 <= i < servers@.len() ==> (#[trigger] servers@[i])@ == all[i]@.restore(
                        servers@[i]@.id,
                    ),
        {
            servers.push(SettingsServer::from_saved(next));
        }
        Settings { servers }
    }

    /// The settings as they are stored: every server, in its order.
    pub fn to_saved(&self) -> (saved: SavedSettings)
        ensures
            saved.servers@.len() == self.servers@.len(),
            forall|i: int|
                0 <= i < self.servers@.len() ==> (#[trigger] saved.servers@[i])@
                    == self.servers@[i]@.to_saved(),
    {
        let mut servers: Vec<SavedSettingsServer> = Vec::new();
        let mut i: usize = 0;
        while i < self.servers.len()
            invariant
                i <= self.servers@.len(),
                servers@.len() == i,
                forall|j: int|
                    0 <= j < i ==> (#[trigger] servers@[j])@ == self.servers@[j]@.to_saved(),
            decreases self.servers@.len() - i,
        {
            servers.push(self.servers[i].to_saved());
            i = i + 1;
        }
        SavedSettings { servers }
    }

    /// The servers as the signaling provider is told of them, in their
    /// order.
    pub fn to_js(&self) -> (servers: Vec<ICEServer>)
        ensures
            servers@.len() == self.servers@.len(),
            forall|i: int|
                0 <= i < self.servers@.len() ==> (#[trigger] servers@[i])@
                    == self.servers@[i]@.to_js(),
    {
        let mut servers: Vec<ICEServer> = Vec::new();
        let mut i: usize = 0;
        while i < self.servers.len()
            invariant
                i <= self.servers@.len(),
                servers@.len() == i,
                forall|j: int| 0 <= j < i ==> (#[trigger] servers@[j])@ == self.servers@[j]@.to_js(),
            decreases self.servers@.len() - i,
        {
            servers.push(self.servers[i].to_js());
            i = i + 1;
        }
        servers
    }
}

} // verus!
