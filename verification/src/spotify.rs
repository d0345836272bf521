//! The Spotify integration.

use vstd::prelude::*;

verus! {

/// A client of the Spotify Web API.
#[derive(Debug, Clone)]
pub struct SpotifyClient {
    client_id: String,
    redirect_uri: String,
    access_token: Option<String>,
}

/// The mathematical value of a [`SpotifyClient`].
pub struct SpotifyClientView {
    pub client_id: Seq<char>,
    pub redirect_uri: Seq<char>,
    pub access_token: Option<Seq<char>>,
}

impl View for SpotifyClient {
    type V = SpotifyClientView;

    closed spec fn view(&self) -> SpotifyClientView {
        SpotifyClientView {
            client_id: self.client_id@,
            redirect_uri: self.redirect_uri@,
            access_token: match self.access_token {
                Some(token) => Some(token@),
                None => None,
            },
        }
    }
}

impl SpotifyClient {
    /// A client that has not authenticated yet.
    pub fn new(client_id: String, redirect_uri: String) -> (client: Self)
        ensures
            client@ == (SpotifyClientView {
                client_id: client_id@,
                redirect_uri: redirect_uri@,
                access_token: None,
            }),
    {
        Self { client_id, redirect_uri, access_token: None }
    }
}

/// A track as Spotify describes it.
#[derive(Debug, Clone)]
pub struct SpotifyTrack {
    pub id: String,
    pub name: String,
    pub artists: Vec<String>,
    pub album: String,
    pub duration_ms: u64,
    pub preview_url: Option<String>,
}

} // verus!
