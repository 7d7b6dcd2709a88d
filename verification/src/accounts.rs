//! The application-wide configuration: the list of stored accounts and their
//! per-character configurations, looked up by character name and server.
//! Names and servers are compared case-insensitively with surrounding
//! whitespace ignored.

use vstd::prelude::*;

use crate::config::{AvailableTheme, CharacterConfig, SFAccCharacter};
use crate::config::{
    default_blacklist_threshhold, default_class_icons, default_start_threads, default_threads,
    default_ui_refresh_ms,
};
use crate::rng::{random_bool, random_in_range};

verus! {

/// The lowercase form of a string, as `str::to_lowercase` computes it.
pub uninterp spec fn lower_of(s: Seq<char>) -> Seq<char>;

/// Relies on str::to_lowercase: the result depends on the characters alone.
#[verifier::external_body]
fn lowercase(s: &str) -> (r: String)
    ensures
        r@ == lower_of(s@),
{
    s.to_lowercase()
}

/// A string with leading and trailing whitespace removed, as `str::trim`
/// computes it.
pub uninterp spec fn trimmed_of(s: Seq<char>) -> Seq<char>;

/// Relies on str::trim: the result depends on the characters alone.
#[verifier::external_body]
fn trim(s: &str) -> (r: &str)
    ensures
        r@ == trimmed_of(s@),
{
    s.trim()
}

/// Relies on String::from_utf8: bytes below 128 are ASCII, which is valid
/// UTF-8 with one character per byte and the same code points, so the
/// conversion cannot fail and keeps every byte.
#[verifier::external_body]
fn ascii_string(bytes: Vec<u8>) -> (r: String)
    requires
        forall|i: int| 0 <= i < bytes@.len() ==> bytes@[i] < 128,
    ensures
        r@.len() == bytes@.len(),
        forall|i: int| 0 <= i < bytes@.len() ==> r@[i] == bytes@[i] as char,
{
    String::from_utf8(bytes).unwrap_or_default()
}

/// The normal form under which names and servers are compared.
pub open spec fn normal_of(s: Seq<char>) -> Seq<char> {
    trimmed_of(lower_of(s))
}

/// Whether two names are the same up to case and surrounding whitespace.
pub open spec fn names_match(a: Seq<char>, b: Seq<char>) -> bool {
    normal_of(a) == normal_of(b)
}

/// The normal form of a string: lowercased, then trimmed.
fn normalized(s: &str) -> (r: String)
    ensures
        r@ == normal_of(s@),
{
    let low = lowercase(s);
    let t = trim(low.as_str());
    t.to_owned()
}

/// Stored credentials for one account (the password hash itself stays with
/// the surrounding application).
#[derive(Debug, Clone)]
pub enum AccountCreds {
    Regular { name: String, server: String },
    SF { name: String },
}

/// One stored account: a regular character on one server with its
/// configuration, or a single-sign-on account with any number of characters.
#[derive(Debug, Clone)]
pub enum AccountConfig {
    Regular { name: String, server: String, config: CharacterConfig },
    SF { name: String, characters: Vec<SFAccCharacter> },
}

impl AccountConfig {
    /// A fresh account entry for the given credentials, with a default
    /// configuration and no characters.
    pub fn new(creds: AccountCreds) -> (r: AccountConfig)
        ensures
            match creds {
                AccountCreds::Regular { name, server } => r matches AccountConfig::Regular {
                    name: n,
                    server: s,
                    config,
                } && n == name && s == server && config
                    == crate::config::spec_default_character_config(),
                AccountCreds::SF { name } => r matches AccountConfig::SF { name: n, characters }
                    && n == name && characters@.len() == 0,
            },
    {
        match creds {
            AccountCreds::Regular { name, server } => AccountConfig::Regular {
                name,
                server,
                config: Default::default(),
            },
            AccountCreds::SF { name } => AccountConfig::SF { name, characters: Vec::new() },
        }
    }
}

impl From<AccountConfig> for AccountCreds {
    fn from(value: AccountConfig) -> (r: Self) {
        match value {
            AccountConfig::Regular { name, server, .. } => AccountCreds::Regular { name, server },
            AccountConfig::SF { name, .. } => AccountCreds::SF { name },
        }
    }
}

impl vstd::std_specs::convert::FromSpecImpl<AccountConfig> for AccountCreds {
    open spec fn obeys_from_spec() -> bool {
        true
    }

    open spec fn from_spec(value: AccountConfig) -> Self {
        match value {
            AccountConfig::Regular { name, server, .. } => AccountCreds::Regular { name, server },
            AccountConfig::SF { name, .. } => AccountCreds::SF { name },
        }
    }
}

/// Where a character's configuration sits in the account list.
pub enum ConfPos {
    /// The regular account at this index.
    Regular(int),
    /// The single-sign-on account at the first index, character at the
    /// second.
    SF(int, int),
}

/// Whether one single-sign-on character matches the queried name and server.
pub open spec fn sf_char_matches(c: SFAccCharacter, name: Seq<char>, server: Seq<char>) -> bool {
    names_match(c.ident.name@, name) && names_match(c.ident.server@, server)
}

/// The last matching character of a single-sign-on account; a later entry
/// overrides an earlier one.
pub open spec fn sf_last_pos(chars: Seq<SFAccCharacter>, name: Seq<char>, server: Seq<char>) -> Option<
    int,
>
    decreases chars.len(),
{
    if chars.len() == 0 {
        None
    } else if sf_char_matches(chars.last(), name, server) {
        Some(chars.len() - 1)
    } else {
        sf_last_pos(chars.drop_last(), name, server)
    }
}

/// Where the lookup for (name, server) lands, scanning from index `i`: the
/// first matching regular account wins outright; a single-sign-on match is
/// kept but overridden by any later match.
pub open spec fn find_pos_from(
    accounts: Seq<AccountConfig>,
    i: nat,
    name: Seq<char>,
    server: Seq<char>,
) -> Option<ConfPos>
    decreases accounts.len() - i,
{
    if i >= accounts.len() {
        None
    } else {
        match accounts[i as int] {
            AccountConfig::Regular { name: n, server: s, .. } => if names_match(n@, name)
                && names_match(s@, server) {
                Some(ConfPos::Regular(i as int))
            } else {
                find_pos_from(accounts, i + 1, name, server)
            },
            AccountConfig::SF { characters, .. } => match find_pos_from(
                accounts,
                i + 1,
                name,
                server,
            ) {
                Some(p) => Some(p),
                None => match sf_last_pos(characters@, name, server) {
                    Some(j) => Some(ConfPos::SF(i as int, j)),
                    None => None,
                },
            },
        }
    }
}

/// The configuration at a lookup position.
pub open spec fn conf_at(accounts: Seq<AccountConfig>, p: ConfPos) -> CharacterConfig {
    match p {
        ConfPos::Regular(i) => accounts[i]->Regular_config,
        ConfPos::SF(i, j) => (accounts[i]->SF_characters)@[j].config,
    }
}

/// The configuration the lookup for (name, server) finds, if any.
pub open spec fn find_conf(
    accounts: Seq<AccountConfig>,
    name: Seq<char>,
    server: Seq<char>,
) -> Option<CharacterConfig> {
    match find_pos_from(accounts, 0, name, server) {
        Some(p) => Some(conf_at(accounts, p)),
        None => None,
    }
}

proof fn lemma_sf_last_pos_valid(chars: Seq<SFAccCharacter>, name: Seq<char>, server: Seq<char>)
    ensures
        sf_last_pos(chars, name, server) matches Some(j) ==> 0 <= j < chars.len(),
    decreases chars.len(),
{
    if chars.len() > 0 {
        lemma_sf_last_pos_valid(chars.drop_last(), name, server);
    }
}

proof fn lemma_find_pos_valid(
    accounts: Seq<AccountConfig>,
    i: nat,
    name: Seq<char>,
    server: Seq<char>,
)
    ensures
        match find_pos_from(accounts, i, name, server) {
            Some(ConfPos::Regular(k)) => i <= k < accounts.len() && accounts[k] is Regular,
            Some(ConfPos::SF(k, j)) => i <= k < accounts.len() && accounts[k] is SF && 0 <= j < (
            accounts[k]->SF_characters)@.len(),
            None => true,
        },
    decreases accounts.len() - i,
{
    if i < accounts.len() {
        lemma_find_pos_valid(accounts, i + 1, name, server);
        match accounts[i as int] {
            AccountConfig::Regular { .. } => {},
            AccountConfig::SF { characters, .. } => {
                lemma_sf_last_pos_valid(characters@, name, server);
            },
        }
    }
}

/// The index of the first single-sign-on account with the queried name.
pub open spec fn find_sso_from(accounts: Seq<AccountConfig>, i: nat, name: Seq<char>) -> Option<int>
    decreases accounts.len() - i,
{
    if i >= accounts.len() {
        None
    } else {
        match accounts[i as int] {
            AccountConfig::SF { name: n, .. } => if names_match(n@, name) {
                Some(i as int)
            } else {
                find_sso_from(accounts, i + 1, name)
            },
            _ => find_sso_from(accounts, i + 1, name),
        }
    }
}

/// Whether two configurations agree on everything but the account list.
pub open spec fn same_but_accounts(a: Config, b: Config) -> bool {
    &&& a.theme == b.theme
    &&& a.base_name == b.base_name
    &&& a.auto_fetch_newest == b.auto_fetch_newest
    &&& a.auto_poll == b.auto_poll
    &&& a.ui_refresh_ms == b.ui_refresh_ms
    &&& a.max_threads == b.max_threads
    &&& a.start_threads == b.start_threads
    &&& a.show_crawling_restrict == b.show_crawling_restrict
    &&& a.show_class_icons == b.show_class_icons
    &&& a.blacklist_threshold == b.blacklist_threshold
}

/// The application configuration.
#[derive(Debug, Clone)]
pub struct Config {
    pub accounts: Vec<AccountConfig>,
    pub theme: AvailableTheme,
    pub base_name: String,
    pub auto_fetch_newest: bool,
    pub auto_poll: bool,
    pub ui_refresh_ms: u64,
    pub max_threads: usize,
    pub start_threads: usize,
    pub show_crawling_restrict: bool,
    pub show_class_icons: bool,
    pub blacklist_threshold: usize,
}

/// An ASCII letter or digit, as the random base name uses them.
pub open spec fn is_base_name_char(c: char) -> bool {
    ('A' <= c && c <= 'Z') || ('a' <= c && c <= 'z') || ('0' <= c && c <= '9')
}

/// A random account-name prefix: an uppercase letter followed by six or
/// seven letters or digits.
pub fn random_base_name() -> (s: String)
    ensures
        7 <= s@.len() <= 8,
        'A' <= s@[0] && s@[0] <= 'Z',
        forall|i: int| 0 <= i < s@.len() ==> is_base_name_char(#[trigger] s@[i]),
{
    let mut bytes: Vec<u8> = Vec::new();
    let first = random_in_range(0, 25) as u8;
    bytes.push(65 + first);
    let extra = random_in_range(6, 7);
    let mut i: u64 = 0;
    while i < extra
        invariant
            0 <= i <= extra,
            6 <= extra <= 7,
            bytes@.len() == i + 1,
            65 <= bytes@[0] <= 90,
            forall|k: int|
                0 <= k < bytes@.len() ==> is_base_name_char((#[trigger] bytes@[k]) as char),
        decreases extra - i,
    {
        let c: u8 = if random_bool() {
            let n = random_in_range(0, 51) as u8;
            if n < 26 {
                65 + n
            } else {
                97 + (n - 26)
            }
        } else {
            48 + (random_in_range(0, 9) as u8)
        };
        bytes.push(c);
        i = i + 1;
    }
    assert(forall|k: int| 0 <= k < bytes@.len() ==> bytes@[k] < 128);
    ascii_string(bytes)
}

impl Default for Config {
    /// A fresh configuration: no accounts, the Nord palette, a random base
    /// name, and the usual defaults everywhere else.
    fn default() -> (r: Self)
        ensures
            r.accounts@.len() == 0,
            r.theme == AvailableTheme::Nord,
            7 <= r.base_name@.len() <= 8,
            r.auto_fetch_newest,
            !r.auto_poll,
            r.ui_refresh_ms == 1000,
            r.max_threads == 10,
            r.start_threads == 1,
            !r.show_crawling_restrict,
            r.show_class_icons,
            r.blacklist_threshold == 2,
    {
        Config {
            accounts: Vec::new(),
            theme: AvailableTheme::Nord,
            base_name: random_base_name(),
            auto_fetch_newest: true,
            auto_poll: false,
            ui_refresh_ms: default_ui_refresh_ms(),
            max_threads: default_threads(),
            start_threads: default_start_threads(),
            show_crawling_restrict: false,
            show_class_icons: default_class_icons(),
            blacklist_threshold: default_blacklist_threshhold(),
        }
    }
}

impl Config {
    /// Where the lookup for (name, server) lands: the index of the first
    /// matching regular account, or the account and character indices of the
    /// last matching single-sign-on character.
    pub fn find_position(&self, name: &str, server: &str) -> (r: Option<(usize, Option<usize>)>)
        ensures
            match find_pos_from(self.accounts@, 0, name@, server@) {
                Some(ConfPos::Regular(i)) => r matches Some((ri, rj)) && ri == i && rj is None,
                Some(ConfPos::SF(i, j)) => r matches Some((ri, rj)) && ri == i && (rj matches
                Some(x) && x == j),
                None => r is None,
            },
    {
        let qname = normalized(name);
        let qserver = normalized(server);
        let ghost accounts = self.accounts@;
        let mut res: Option<(usize, Option<usize>)> = None;
        let ghost mut respos: Option<ConfPos> = None;
        let mut i: usize = 0;
        while i < self.accounts.len()
            invariant
                0 <= i <= accounts.len(),
                accounts == self.accounts@,
                qname@ == normal_of(name@),
                qserver@ == normal_of(server@),
                find_pos_from(accounts, 0, name@, server@) == match find_pos_from(
                    accounts,
                    i as nat,
                    name@,
                    server@,
                ) {
                    Some(p) => Some(p),
                    None => respos,
                },
                match respos {
                    Some(ConfPos::Regular(k)) => false,
                    Some(ConfPos::SF(k, j)) => res matches Some((ri, rj)) && ri == k && (
                    rj matches Some(x) && x == j),
                    None => res is None,
                },
            decreases accounts.len() - i,
        {
            match &self.accounts[i] {
                AccountConfig::Regular { name: n, server: s, .. } => {
                    let nn = normalized(n.as_str());
                    let ns = normalized(s.as_str());
                    if nn == qname && ns == qserver {
                        assert(find_pos_from(accounts, i as nat, name@, server@) == Some(
                            ConfPos::Regular(i as int),
                        ));
                        return Some((i, None));
                    }
                },
                AccountConfig::SF { characters, .. } => {
                    let ghost entrypos = respos;
                    let mut k: usize = 0;
                    while k < characters.len()
                        invariant
                            0 <= k <= characters@.len(),
                            qname@ == normal_of(name@),
                            qserver@ == normal_of(server@),
                            i < accounts.len(),
                            match sf_last_pos(characters@.take(k as int), name@, server@) {
                                Some(j) => respos == Some(ConfPos::SF(i as int, j)),
                                None => respos == entrypos,
                            },
                            match respos {
                                Some(ConfPos::Regular(_)) => false,
                                Some(ConfPos::SF(kk, j)) => res matches Some((ri, rj)) && ri
                                    == kk && (rj matches Some(x) && x == j),
                                None => res is None,
                            },
                        decreases characters@.len() - k,
                    {
                        let c = &characters[k];
                        let cn = normalized(c.ident.name.as_str());
                        let cs = normalized(c.ident.server.as_str());
                        if cn == qname && cs == qserver {
                            res = Some((i, Some(k)));
                            proof {
                                respos = Some(ConfPos::SF(i as int, k as int));
                            }
                        }
                        proof {
                            assert(characters@.take(k + 1).drop_last() =~= characters@.take(
                                k as int,
                            ));
                            assert(characters@.take(k + 1).last() == characters@[k as int]);
                        }
                        k = k + 1;
                    }
                    proof {
                        assert(characters@.take(characters@.len() as int) =~= characters@);
                    }
                },
            }
            i = i + 1;
        }
        res
    }

    /// The stored configuration for the character of that name on that
    /// server: the first matching regular account, or the last matching
    /// single-sign-on character.
    pub fn get_char_conf<'a>(&'a self, name: &str, server: &str) -> (r: Option<&'a CharacterConfig>)
        ensures
            match find_conf(self.accounts@, name@, server@) {
                Some(c) => r matches Some(rc) && *rc == c,
                None => r is None,
            },
    {
        proof {
            lemma_find_pos_valid(self.accounts@, 0, name@, server@);
        }
        match self.find_position(name, server) {
            None => None,
            Some((i, None)) => {
                match &self.accounts[i] {
                    AccountConfig::Regular { config, .. } => Some(config),
                    _ => {
                        proof {
                            assert(false);
                        }
                        None
                    },
                }
            },
            Some((i, Some(j))) => {
                match &self.accounts[i] {
                    AccountConfig::SF { characters, .. } => Some(&characters[j].config),
                    _ => {
                        proof {
                            assert(false);
                        }
                        None
                    },
                }
            },
        }
    }

    /// Replaces the stored configuration for the character of that name on
    /// that server; reports whether a character was found.
    pub fn set_char_conf(&mut self, name: &str, server: &str, conf: CharacterConfig) -> (changed:
        bool)
        ensures
            match find_pos_from(old(self).accounts@, 0, name@, server@) {
                Some(ConfPos::Regular(i)) => changed && final(self).accounts@ == old(
                    self,
                ).accounts@.update(
                    i,
                    AccountConfig::Regular {
                        name: old(self).accounts@[i]->Regular_name,
                        server: old(self).accounts@[i]->Regular_server,
                        config: conf,
                    },
                ) && same_but_accounts(*final(self), *old(self)),
                Some(ConfPos::SF(i, j)) => changed && same_but_accounts(*final(self), *old(self))
                    && final(self).accounts@.len() == old(self).accounts@.len() && (forall|k: int|
                    0 <= k < old(self).accounts@.len() && k != i ==> final(self).accounts@[k] == old(
                        self,
                    ).accounts@[k]) && (final(self).accounts@[i] matches AccountConfig::SF {
                    name: nm,
                    characters: cs,
                } && nm == old(self).accounts@[i]->SF_name && cs@ == (old(
                    self,
                ).accounts@[i]->SF_characters)@.update(
                    j,
                    SFAccCharacter {
                        ident: (old(self).accounts@[i]->SF_characters)@[j].ident,
                        config: conf,
                    },
                )),
                None => !changed && *final(self) == *old(self),
            },
    {
        proof {
            lemma_find_pos_valid(self.accounts@, 0, name@, server@);
        }
        match self.find_position(name, server) {
            None => false,
            Some((i, None)) => {
                let acc = &mut self.accounts[i];
                match acc {
                    AccountConfig::Regular { config, .. } => {
                        *config = conf;
                    },
                    _ => {
                        proof {
                            assert(false);
                        }
                    },
                }
                true
            },
            Some((i, Some(j))) => {
                let acc = &mut self.accounts[i];
                match acc {
                    AccountConfig::SF { characters, .. } => {
                        let c = &mut characters[j];
                        c.config = conf;
                    },
                    _ => {
                        proof {
                            assert(false);
                        }
                    },
                }
                true
            },
        }
    }

    /// The characters stored under the first single-sign-on account with the
    /// queried name.
    pub fn get_sso_accounts<'a>(&'a self, name: &str) -> (r: Option<&'a Vec<SFAccCharacter>>)
        ensures
            match find_sso_from(self.accounts@, 0, name@) {
                Some(i) => r matches Some(cs) && *cs == self.accounts@[i]->SF_characters,
                None => r is None,
            },
    {
        let qname = normalized(name);
        let ghost accounts = self.accounts@;
        let mut i: usize = 0;
        while i < self.accounts.len()
            invariant
                0 <= i <= accounts.len(),
                accounts == self.accounts@,
                qname@ == normal_of(name@),
                find_sso_from(accounts, 0, name@) == find_sso_from(accounts, i as nat, name@),
            decreases accounts.len() - i,
        {
            match &self.accounts[i] {
                AccountConfig::SF { name: n, characters } => {
                    let nn = normalized(n.as_str());
                    if nn == qname {
                        assert(find_sso_from(accounts, i as nat, name@) == Some(i as int));
                        return Some(characters);
                    }
                },
                _ => {},
            }
            i = i + 1;
        }
        None
    }
}

} // verus!
