//! The operator's configuration record and the locations derived from a home
//! directory.

use vstd::prelude::*;
use vstd::string::StringExecFns;
use crate::lists::holds;
use crate::lists::without;
use crate::text::copy_opt_string;
use crate::text::copy_strings;
use crate::text::texts;

verus! {

/// Settings of one operator: key material, relay lists and optional endpoints.
#[derive(Debug)]
pub struct NostaroConfig {
    pub secret_key: Option<String>,
    pub relays: Vec<String>,
    pub default_relays: Vec<String>,
    pub blossom_server: Option<String>,
    pub coinos_api_token_path: Option<String>,
}

/// The relay list a fresh configuration falls back on.
pub open spec fn builtin_relays() -> Seq<Seq<char>> {
    seq![
        "wss://relay.damus.io"@,
        "wss://nos.lol"@,
        "wss://relay.nostr.band"@,
        "wss://r.kojira.io"@,
    ]
}

/// The upload server used when the configuration names none.
pub open spec fn builtin_blossom_url() -> Seq<char> {
    "https://blossom.primal.net"@
}

impl Clone for NostaroConfig {
    fn clone(&self) -> (out: Self)
        ensures
            out.secret_key == self.secret_key,
            out.relays@ == self.relays@,
            out.default_relays@ == self.default_relays@,
            out.blossom_server == self.blossom_server,
            out.coinos_api_token_path == self.coinos_api_token_path,
    {
        NostaroConfig {
            secret_key: copy_opt_string(&self.secret_key),
            relays: copy_strings(&self.relays),
            default_relays: copy_strings(&self.default_relays),
            blossom_server: copy_opt_string(&self.blossom_server),
            coinos_api_token_path: copy_opt_string(&self.coinos_api_token_path),
        }
    }
}

impl Default for NostaroConfig {
    fn default() -> (config: Self)
        ensures
            config.secret_key is None,
            config.relays@.len() == 0,
            texts(config.default_relays@) == builtin_relays(),
            config.blossom_server is None,
            config.coinos_api_token_path is None,
    {
        let mut default_relays: Vec<String> = Vec::new();
        default_relays.push("wss://relay.damus.io".to_owned());
        default_relays.push("wss://nos.lol".to_owned());
        default_relays.push("wss://relay.nostr.band".to_owned());
        default_relays.push("wss://r.kojira.io".to_owned());
        assert(texts(default_relays@) =~= builtin_relays());
        NostaroConfig {
            secret_key: None,
            relays: Vec::new(),
            default_relays,
            blossom_server: None,
            coinos_api_token_path: None,
        }
    }
}

impl NostaroConfig {
    /// The relay list in force: the operator's own list, or the fallback list
    /// while the operator's list is empty.
    pub open spec fn spec_active_relays(&self) -> Seq<String> {
        if self.relays@.len() == 0 {
            self.default_relays@
        } else {
            self.relays@
        }
    }

    /// The directory that holds the configuration and the cache, below `home`.
    pub fn config_dir(home: &str) -> (dir: String)
        ensures
            dir@ == home@ + "/.nostaro"@,
    {
        let mut dir = home.to_owned();
        dir.append("/.nostaro");
        dir
    }

    /// The configuration file below `home`.
    pub fn config_path(home: &str) -> (path: String)
        ensures
            path@ == home@ + "/.nostaro"@ + "/config.toml"@,
    {
        let mut path = Self::config_dir(home);
        path.append("/config.toml");
        path
    }

    pub fn active_relays(&self) -> (active: Vec<String>)
        ensures
            active@ == self.spec_active_relays(),
    {
        if self.relays.len() == 0 {
            copy_strings(&self.default_relays)
        } else {
            copy_strings(&self.relays)
        }
    }

    /// The first relay in force, or the empty text where there is none.
    pub fn first_active_relay(&self) -> (relay: String)
        ensures
            relay@ == (if self.spec_active_relays().len() > 0 {
                self.spec_active_relays()[0]@
            } else {
                Seq::<char>::empty()
            }),
    {
        if self.relays.len() > 0 {
            self.relays[0].clone()
        } else if self.default_relays.len() > 0 {
            self.default_relays[0].clone()
        } else {
            String::new()
        }
    }

    /// Adds `url` to the operator's relays unless it is among them already;
    /// says whether it was added.
    pub fn add_relay(&mut self, url: &str) -> (added: bool)
        ensures
            added == !holds(old(self).relays@, url@),
            added ==> final(self).relays@.len() == old(self).relays@.len() + 1,
            added ==> final(self).relays@.drop_last() == old(self).relays@,
            added ==> final(self).relays@.last()@ == url@,
            !added ==> final(self).relays@ == old(self).relays@,
            final(self).secret_key == old(self).secret_key,
            final(self).default_relays == old(self).default_relays,
            final(self).blossom_server == old(self).blossom_server,
            final(self).coinos_api_token_path == old(self).coinos_api_token_path,
    {
        crate::lists::insert(&mut self.relays, url)
    }

    /// Removes `url` from the operator's relays; says whether it was among
    /// them.
    pub fn remove_relay(&mut self, url: &str) -> (removed: bool)
        ensures
            removed == holds(old(self).relays@, url@),
            final(self).relays@ == without(old(self).relays@, url@),
            final(self).secret_key == old(self).secret_key,
            final(self).default_relays == old(self).default_relays,
            final(self).blossom_server == old(self).blossom_server,
            final(self).coinos_api_token_path == old(self).coinos_api_token_path,
    {
        crate::lists::remove(&mut self.relays, url)
    }

    /// Whether `relay` is shown as a fallback relay: it is one, and the
    /// operator has no relays of their own.
    pub fn is_shown_as_default(&self, relay: &str) -> (shown: bool)
        ensures
            shown == (holds(self.default_relays@, relay@) && self.relays@.len() == 0),
    {
        crate::lists::contains(&self.default_relays, relay) && self.relays.len() == 0
    }

    /// Takes `secret_key` as the operator's key. An operator without relays
    /// of their own gets the fallback relays as their own.
    pub fn adopt_secret_key(&mut self, secret_key: String)
        ensures
            final(self).secret_key == Some(secret_key),
            final(self).relays@ == old(self).spec_active_relays(),
            final(self).default_relays == old(self).default_relays,
            final(self).blossom_server == old(self).blossom_server,
            final(self).coinos_api_token_path == old(self).coinos_api_token_path,
    {
        self.secret_key = Some(secret_key);
        if self.relays.len() == 0 {
            self.relays = copy_strings(&self.default_relays);
        }
    }

    /// The upload server in force.
    pub fn blossom_url(&self) -> (url: String)
        ensures
            url@ == (match self.blossom_server {
                Some(server) => server@,
                None => builtin_blossom_url(),
            }),
    {
        match &self.blossom_server {
            Some(server) => server.clone(),
            None => "https://blossom.primal.net".to_owned(),
        }
    }
}

} // verus!
