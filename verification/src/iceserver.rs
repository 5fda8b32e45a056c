use vstd::prelude::*;

verus! {

/// One relay or ICE server that the signaling provider is told to use.
#[derive(Debug, PartialEq, Eq)]
pub struct ICEServer {
    urls: String,
    username: Option<String>,
    credential: Option<String>,
}

/// What an [`ICEServer`] stands for.
pub struct ICEServerView {
    pub urls: Seq<char>,
    pub username: Option<Seq<char>>,
    pub credential: Option<Seq<char>>,
}

/// The text of an optional string.
pub open spec fn option_view(value: Option<String>) -> Option<Seq<char>> {
    match value {
        Some(text) => Some(text@),
        None => None,
    }
}

impl View for ICEServer {
    type V = ICEServerView;

    closed spec fn view(&self) -> ICEServerView {
        ICEServerView {
            urls: self.urls@,
            username: option_view(self.username),
            credential: option_view(self.credential),
        }
    }
}

impl Clone for ICEServer {
    fn clone(&self) -> (copy: Self)
        ensures
            copy == *self,
    {
        ICEServer {
            urls: self.urls.clone(),
            username: self.username.clone(),
            credential: self.credential.clone(),
        }
    }
}

impl ICEServer {
    /// A server descriptor with the given address and optional login.
    pub fn new(urls: String, username: Option<String>, credential: Option<String>) -> (server:
        ICEServer)
        ensures
            server@ == (ICEServerView {
                urls: urls@,
                username: option_view(username),
                credential: option_view(credential),
            }),
    {
        ICEServer { urls, username, credential }
    }

    /// The server's address.
    pub fn urls(&self) -> (urls: String)
        ensures
            urls@ == self@.urls,
    {
        self.urls.clone()
    }

    /// The user name to log in with, if the server asks for one.
    pub fn username(&self) -> (username: Option<String>)
        ensures
            option_view(username) == self@.username,
    {
        self.username.clone()
    }

    /// The credential to log in with, if the server asks for one.
    pub fn credential(&self) -> (credential: Option<String>)
        ensures
            option_view(credential) == self@.credential,
    {
        self.credential.clone()
    }
}

} // verus!
