use vstd::prelude::*;

verus! {

/// Path and query of the playlist listing, relative to the server's base address.
pub const PLAYLISTS_QUERY: &'static str = "/playlists?playlistType=audio&includeCollections=1&includeExternalMedia=1&includeAdvanced=1&includeMeta=1&";

/// Query key under which the access token is sent.
pub const TOKEN_QUERY_KEY: &'static str = "X-Plex-Token=";

/// Fixed client identification sent with every request, after the token.
pub const CLIENT_QUERY_PARAMS: &'static str = "&X-Plex-Product=Plex%20Web&X-Plex-Version=4.64.3&X-Plex-Client-Identifier=mg7p5uivc6f90wsoxu2asvad&X-Plex-Platform=Chrome&X-Plex-Platform-Version=92.0&X-Plex-Sync-Version=2&X-Plex-Features=external-media%2Cindirect-media&X-Plex-Model=hosted&X-Plex-Device=Windows&X-Plex-Device-Name=Chrome&X-Plex-Device-Screen-Resolution=2498x632%2C2560x1440&X-Plex-Language=en-GB&X-Plex-Drm=widevine&X-Plex-Text-Format=plain&X-Plex-Provider-Version=3.2";

/// The query parameters that every request carries: the token, then the client identification.
pub open spec fn static_query_params_spec(token: Seq<char>) -> Seq<char> {
    TOKEN_QUERY_KEY@ + token + CLIENT_QUERY_PARAMS@
}

/// Address of the playlist listing of the server at `url`.
pub open spec fn playlists_url_spec(url: Seq<char>, token: Seq<char>) -> Seq<char> {
    url + PLAYLISTS_QUERY@ + static_query_params_spec(token)
}

/// Access to a media server: its base address and an access token.
#[derive(Debug, Clone)]
pub struct PlexConfig {
    pub token: String,
    pub url: String,
}

impl PlexConfig {
    /// Address of the listing of the server's audio playlists.
    pub fn get_playlists_url(&self) -> (r: String)
        ensures
            r@ == playlists_url_spec(self.url@, self.token@),
    {
        let params = self.get_static_query_params();
        let mut r = self.url.clone();
        r.append(PLAYLISTS_QUERY);
        r.append(params.as_str());
        r
    }

    /// Query parameters sent with every request: the token and the client identification.
    pub fn get_static_query_params(&self) -> (r: String)
        ensures
            r@ == static_query_params_spec(self.token@),
    {
        let mut r = String::from_str(TOKEN_QUERY_KEY);
        r.append(self.token.as_str());
        r.append(CLIENT_QUERY_PARAMS);
        r
    }
}

impl Default for PlexConfig {
    fn default() -> (r: Self)
        ensures
            r.token@ == Seq::<char>::empty(),
            r.url@ == Seq::<char>::empty(),
    {
        PlexConfig { token: String::new(), url: String::new() }
    }
}

} // verus!
