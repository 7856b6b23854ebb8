//! Start-up configuration: the bot's credentials, the values shared with commands, and
//! each guild's command prefix.
use vstd::prelude::*;
use std::collections::HashMap;
use crate::text::same_text;

verus! {

broadcast use vstd::std_specs::hash::group_hash_axioms;

/// The credentials that the bot starts with.
pub struct Credentials {
    pub bot_token: String,
    pub default_prefix: String,
    /// Not read from the credentials file: it comes separately.
    pub db_connection: String,
    pub lavalink_host: String,
    pub lavalink_auth: String,
    pub tenor_key: String,
    pub spotify_client_id: String,
    pub spotify_client_secret: String,
}

impl Credentials {
    /// The credentials with the database connection string set to `db_connection`.
    pub fn with_db_connection(self, db_connection: String) -> (r: Credentials)
        ensures
            r.db_connection == db_connection,
            r.bot_token == self.bot_token,
            r.default_prefix == self.default_prefix,
            r.lavalink_host == self.lavalink_host,
            r.lavalink_auth == self.lavalink_auth,
            r.tenor_key == self.tenor_key,
            r.spotify_client_id == self.spotify_client_id,
            r.spotify_client_secret == self.spotify_client_secret,
    {
        Credentials { db_connection, ..self }
    }
}

/// The credentials that commands may read, by name: `tenor` and `default prefix`.
pub struct PubCreds {
    tenor: String,
    default_prefix: String,
}

impl PubCreds {
    /// The value named `tenor`.
    pub closed spec fn tenor_key(&self) -> Seq<char> {
        self.tenor@
    }

    /// The value named `default prefix`.
    pub closed spec fn prefix(&self) -> Seq<char> {
        self.default_prefix@
    }

    /// Takes the gif-search key and the default prefix out of `creds`.
    pub fn from_credentials(creds: &Credentials) -> (r: PubCreds)
        ensures
            r.tenor_key() == creds.tenor_key@,
            r.prefix() == creds.default_prefix@,
    {
        PubCreds { tenor: creds.tenor_key.clone(), default_prefix: creds.default_prefix.clone() }
    }

    /// The value named `name`, if there is one.
    pub fn get(&self, name: &str) -> (r: Option<String>)
        ensures
            name@ == "tenor"@ ==> (r matches Some(v) && v@ == self.tenor_key()),
            name@ == "default prefix"@ ==> (r matches Some(v) && v@ == self.prefix()),
            name@ != "tenor"@ && name@ != "default prefix"@ ==> r.is_none(),
    {
        proof {
            reveal_strlit("tenor");
            reveal_strlit("default prefix");
            assert("tenor"@.len() != "default prefix"@.len());
        }
        if same_text(name, "tenor") {
            Some(self.tenor.clone())
        } else if same_text(name, "default prefix") {
            Some(self.default_prefix.clone())
        } else {
            None
        }
    }
}

/// The bot's own user identifier.
#[derive(Clone, Copy, Debug, PartialEq, Eq, Structural)]
pub struct BotId(pub u64);

/// Each guild's command prefix, where it set one.
pub struct PrefixMap {
    prefixes: HashMap<u64, String>,
}

impl PrefixMap {
    /// The guilds' prefixes.
    pub closed spec fn view_map(&self) -> Map<u64, Seq<char>> {
        self.prefixes@.map_values(|p: String| p@)
    }

    /// No guild has a prefix of its own.
    pub fn new() -> (r: PrefixMap)
        ensures
            r.view_map() == Map::<u64, Seq<char>>::empty(),
    {
        let r = PrefixMap { prefixes: HashMap::new() };
        assert(r.view_map() =~= Map::<u64, Seq<char>>::empty());
        r
    }

    /// Sets `guild`'s prefix.
    pub fn set(&mut self, guild: u64, prefix: String)
        ensures
            final(self).view_map() == old(self).view_map().insert(guild, prefix@),
    {
        self.prefixes.insert(guild, prefix);
        assert(self.view_map() =~= old(self).view_map().insert(guild, prefix@));
    }

    /// Drops `guild`'s prefix, so that the default applies again.
    pub fn reset(&mut self, guild: u64)
        ensures
            final(self).view_map() == old(self).view_map().remove(guild),
    {
        self.prefixes.remove(&guild);
        assert(self.view_map() =~= old(self).view_map().remove(guild));
    }

    /// The prefix that applies in `guild`: its own, else `default`.
    pub fn prefix_for(&self, guild: u64, default: &str) -> (r: String)
        ensures
            self.view_map().contains_key(guild) ==> r@ == self.view_map()[guild],
            !self.view_map().contains_key(guild) ==> r@ == default@,
    {
        match self.prefixes.get(&guild) {
            Some(p) => p.clone(),
            None => default.to_owned(),
        }
    }
}

} // verus!
