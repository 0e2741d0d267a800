//! Versioned ticket-system configuration.

use vstd::prelude::*;

use crate::error::CliError;
use crate::history_walk::{lemma_text_less_total, lemma_text_less_transitive, text_before, text_less};
use crate::text::{decimal, decimal_string, literal, push_str};
use crate::text_compare::same_text;

verus! {

/// The configuration schema version that this release reads and writes.
pub const CONFIG_VERSION: u32 = 1;

/// A Jira connection as stored; every field may be absent.
#[derive(Clone, Debug, PartialEq, Eq)]
pub struct JiraConnection {
    pub site: Option<String>,
    pub email: Option<String>,
    pub token: Option<String>,
    pub account_id: Option<String>,
    pub display_name: Option<String>,
}

/// A named ticket-system connection.
#[derive(Clone, Debug, PartialEq, Eq)]
pub enum ConnectionConfig {
    Jira(JiraConnection),
}

/// The configuration file: its version, the default connection and every connection by
/// name, each name at most once.
#[derive(Clone, Debug)]
pub struct Config {
    pub version: u32,
    pub default_connection: Option<String>,
    pub connections: Vec<(String, ConnectionConfig)>,
}

/// The flat configuration of releases before the versioned schema.
#[derive(Clone, Debug, Default)]
pub struct LegacyConfig {
    pub account_id: Option<String>,
    pub display_name: Option<String>,
    pub atlassian_user_email: Option<String>,
    pub atlassian_token: Option<String>,
    pub hostname: Option<String>,
}

/// What the login screens start from.
#[derive(Clone, Debug, Default, PartialEq, Eq)]
pub struct LoginDefaults {
    pub hostname: Option<String>,
    pub atlassian_user_email: Option<String>,
    pub atlassian_token: Option<String>,
}

/// The name of the Jira connection.
pub open spec fn jira_name() -> Seq<char> {
    "jira"@
}

/// The connection stored under `name`, if any.
pub open spec fn connection_named(connections: Seq<(String, ConnectionConfig)>, name: Seq<char>) -> Option<ConnectionConfig>
    decreases connections.len(),
{
    if connections.len() == 0 {
        None
    } else if connections[0].0@ == name {
        Some(connections[0].1)
    } else {
        connection_named(connections.drop_first(), name)
    }
}

/// Names in strictly ascending order, as a sorted map keeps its keys.
pub open spec fn ascending_names(connections: Seq<(String, ConnectionConfig)>) -> bool {
    forall|i: int, j: int|
        0 <= i < j < connections.len() ==> text_less(#[trigger] connections[i].0@, #[trigger] connections[j].0@)
}

/// Names in ascending order are unique.
pub proof fn lemma_ascending_names_unique(connections: Seq<(String, ConnectionConfig)>)
    requires
        ascending_names(connections),
    ensures
        unique_names(connections),
{
    assert forall|i: int, j: int| 0 <= i < j < connections.len() implies #[trigger] connections[i].0@
        != #[trigger] connections[j].0@ by {
        lemma_text_less_total(connections[i].0@, connections[i].0@);
    }
}

/// No name occurs twice.
pub open spec fn unique_names(connections: Seq<(String, ConnectionConfig)>) -> bool {
    forall|i: int, j: int|
        0 <= i < j < connections.len() ==> #[trigger] connections[i].0@ != #[trigger] connections[j].0@
}

/// The login defaults that a stored Jira connection supplies: its site, email and token.
pub open spec fn login_defaults_of(jira: Option<ConnectionConfig>) -> LoginDefaults {
    match jira {
        Some(ConnectionConfig::Jira(connection)) => LoginDefaults {
            hostname: connection.site,
            atlassian_user_email: connection.email,
            atlassian_token: connection.token,
        },
        None => LoginDefaults { hostname: None, atlassian_user_email: None, atlassian_token: None },
    }
}

/// The site, email and token of a stored Jira connection, when all three are present.
pub open spec fn credentials_of(jira: Option<ConnectionConfig>) -> Option<(Seq<char>, Seq<char>, Seq<char>)> {
    match jira {
        Some(ConnectionConfig::Jira(connection)) => match (connection.site, connection.email, connection.token) {
            (Some(site), Some(email), Some(token)) => Some((site@, email@, token@)),
            _ => None,
        },
        None => None,
    }
}

impl Config {
    /// The configuration invariant: connections are kept by name in ascending order, as a
    /// sorted map holds them, so no name occurs twice.
    pub open spec fn well_formed(&self) -> bool {
        ascending_names(self.connections@)
    }

    /// Whether the connections are in ascending order of name, none repeated.
    pub fn names_ascending(&self) -> (ascending: bool)
        ensures
            ascending == self.well_formed(),
    {
        let mut i: usize = 1;
        if self.connections.len() == 0 {
            return true;
        }
        while i < self.connections.len()
            invariant
                1 <= i <= self.connections@.len(),
                forall|a: int, b: int|
                    0 <= a < b < i ==> text_less(
                        #[trigger] self.connections@[a].0@,
                        #[trigger] self.connections@[b].0@,
                    ),
            decreases self.connections.len() - i,
        {
            if !text_before(&self.connections[i - 1].0, &self.connections[i].0) {
                return false;
            }
            proof {
                assert forall|a: int, b: int| 0 <= a < b < i + 1 implies text_less(
                    #[trigger] self.connections@[a].0@,
                    #[trigger] self.connections@[b].0@,
                ) by {
                    if b == i && a < i - 1 {
                        lemma_text_less_transitive(
                            self.connections@[a].0@,
                            self.connections@[i - 1].0@,
                            self.connections@[b].0@,
                        );
                    }
                }
            }
            i = i + 1;
        }
        true
    }

    /// The Jira connection, if one is stored.
    pub open spec fn jira_spec(&self) -> Option<ConnectionConfig> {
        connection_named(self.connections@, jira_name())
    }

    /// An empty configuration of the current version.
    pub fn default() -> (config: Config)
        ensures
            config.version == CONFIG_VERSION,
            config.default_connection is None,
            config.connections@.len() == 0,
            config.well_formed(),
    {
        Config { version: CONFIG_VERSION, default_connection: None, connections: Vec::new() }
    }

    /// Converts a flat configuration: any Jira field makes the Jira connection the default.
    pub fn from_legacy(legacy: LegacyConfig) -> (config: Config)
        ensures
            config.version == CONFIG_VERSION,
            config.well_formed(),
            ({
                let has_jira = legacy.hostname is Some || legacy.atlassian_user_email is Some
                    || legacy.atlassian_token is Some || legacy.account_id is Some
                    || legacy.display_name is Some;
                if has_jira {
                    &&& config.default_connection matches Some(name) && name@ == jira_name()
                    &&& config.connections@.len() == 1
                    &&& config.connections@[0].0@ == jira_name()
                    &&& config.connections@[0].1 == ConnectionConfig::Jira(
                        JiraConnection {
                            site: legacy.hostname,
                            email: legacy.atlassian_user_email,
                            token: legacy.atlassian_token,
                            account_id: legacy.account_id,
                            display_name: legacy.display_name,
                        },
                    )
                } else {
                    config.default_connection is None && config.connections@.len() == 0
                }
            }),
    {
        let has_jira = legacy.hostname.is_some() || legacy.atlassian_user_email.is_some()
            || legacy.atlassian_token.is_some() || legacy.account_id.is_some()
            || legacy.display_name.is_some();
        let mut config = Config::default();
        if has_jira {
            config.default_connection = Some(literal("jira"));
            config.connections.push(
                (
                    literal("jira"),
                    ConnectionConfig::Jira(
                        JiraConnection {
                            site: legacy.hostname,
                            email: legacy.atlassian_user_email,
                            token: legacy.atlassian_token,
                            account_id: legacy.account_id,
                            display_name: legacy.display_name,
                        },
                    ),
                ),
            );
        }
        config
    }

    /// The index of the connection named `name`.
    fn find(&self, name: &str) -> (index: Option<usize>)
        ensures
            match index {
                Some(i) => i < self.connections@.len() && self.connections@[i as int].0@ == name@
                    && forall|j: int| 0 <= j < i ==> self.connections@[j].0@ != name@,
                None => forall|j: int|
                    0 <= j < self.connections@.len() ==> self.connections@[j].0@ != name@,
            },
    {
        let mut i: usize = 0;
        while i < self.connections.len()
            invariant
                i <= self.connections@.len(),
                forall|j: int| 0 <= j < i ==> self.connections@[j].0@ != name@,
            decreases self.connections.len() - i,
        {
            if same_text(self.connections[i].0.as_str(), name) {
                return Some(i);
            }
            i = i + 1;
        }
        None
    }

    /// The login defaults that the stored Jira connection supplies.
    pub fn jira_login_defaults(&self) -> (defaults: LoginDefaults)
        ensures
            defaults == login_defaults_of(self.jira_spec()),
    {
        proof {
            reveal_strlit("jira");
        }
        let index = self.find("jira");
        proof {
            lemma_first_named(self.connections@, jira_name(), index);
        }
        match index {
            Some(i) => match &self.connections[i].1 {
                ConnectionConfig::Jira(jira) => LoginDefaults {
                    hostname: jira.site.clone(),
                    atlassian_user_email: jira.email.clone(),
                    atlassian_token: jira.token.clone(),
                },
            },
            None => LoginDefaults { hostname: None, atlassian_user_email: None, atlassian_token: None },
        }
    }

    /// The site, email and token of the stored Jira connection, when all three are present.
    pub fn jira_credential_fields(&self) -> (fields: Option<(String, String, String)>)
        ensures
            match credentials_of(self.jira_spec()) {
                Some((site, email, token)) => fields matches Some(f) && f.0@ == site && f.1@ == email
                    && f.2@ == token,
                None => fields is None,
            },
    {
        proof {
            reveal_strlit("jira");
        }
        let index = self.find("jira");
        proof {
            lemma_first_named(self.connections@, jira_name(), index);
        }
        match index {
            Some(i) => match &self.connections[i].1 {
                ConnectionConfig::Jira(jira) => match (&jira.site, &jira.email, &jira.token) {
                    (Some(site), Some(email), Some(token)) => Some(
                        (site.clone(), email.clone(), token.clone()),
                    ),
                    _ => None,
                },
            },
            None => None,
        }
    }

    /// Stores a verified Jira connection and makes it the default.
    pub fn set_jira_connection(
        &mut self,
        site: String,
        email: String,
        token: String,
        account_id: String,
        display_name: String,
    )
        requires
            old(self).well_formed(),
        ensures
            final(self).well_formed(),
            final(self).version == old(self).version,
            final(self).default_connection matches Some(name) && name@ == jira_name(),
            final(self).jira_spec() == Some(
                ConnectionConfig::Jira(
                    JiraConnection {
                        site: Some(site),
                        email: Some(email),
                        token: Some(token),
                        account_id: Some(account_id),
                        display_name: Some(display_name),
                    },
                ),
            ),
            forall|name: Seq<char>|
                name != jira_name() ==> connection_named(final(self).connections@, name)
                    == connection_named(old(self).connections@, name),
    {
        proof {
            reveal_strlit("jira");
        }
        let connection = ConnectionConfig::Jira(
            JiraConnection {
                site: Some(site),
                email: Some(email),
                token: Some(token),
                account_id: Some(account_id),
                display_name: Some(display_name),
            },
        );
        self.default_connection = Some(literal("jira"));
        let index = self.find("jira");
        let ghost before = self.connections@;
        match index {
            Some(i) => {
                self.connections.set(i, (literal("jira"), connection));
                let count = self.connections.len();
                proof {
                    assert(self.connections@.len() == count);
                    lemma_named_after_set(before, i as int, self.connections@);
                }
            },
            None => {
                let mut k: usize = 0;
                while k < self.connections.len() && !text_before("jira", &self.connections[k].0)
                    invariant
                        self.connections@ == before,
                        k <= before.len(),
                        forall|j: int| 0 <= j < k ==> !text_less(jira_name(), #[trigger] before[j].0@),
                    decreases self.connections.len() - k,
                {
                    k = k + 1;
                }
                self.connections.insert(k, (literal("jira"), connection));
                let count = self.connections.len();
                proof {
                    assert(self.connections@.len() == count);
                    lemma_named_after_insert(before, k as int, self.connections@);
                }
            },
        }
    }
}

proof fn lemma_first_named(connections: Seq<(String, ConnectionConfig)>, name: Seq<char>, index: Option<usize>)
    requires
        match index {
            Some(i) => i < connections.len() && connections[i as int].0@ == name && forall|j: int|
                0 <= j < i ==> connections[j].0@ != name,
            None => forall|j: int| 0 <= j < connections.len() ==> connections[j].0@ != name,
        },
    ensures
        match index {
            Some(i) => connection_named(connections, name) == Some(connections[i as int].1),
            None => connection_named(connections, name) is None,
        },
    decreases connections.len(),
{
    if connections.len() > 0 {
        if connections[0].0@ != name {
            let rest_index: Option<usize> = match index {
                Some(i) => Some((i - 1) as usize),
                None => None,
            };
            assert forall|j: int| 0 <= j < connections.len() - 1 implies (#[trigger] connections.drop_first()[j]).0@ == connections[j + 1].0@ by {}
            lemma_first_named(connections.drop_first(), name, rest_index);
        }
    }
}

/// Among unique names, the connection stored under a name is the one that has it.
proof fn lemma_named_unique(connections: Seq<(String, ConnectionConfig)>, name: Seq<char>)
    requires
        unique_names(connections),
        connections.len() <= usize::MAX,
    ensures
        forall|i: int|
            0 <= i < connections.len() && #[trigger] connections[i].0@ == name ==> connection_named(connections, name)
                == Some(connections[i].1),
        (forall|i: int| 0 <= i < connections.len() ==> #[trigger] connections[i].0@ != name) ==> connection_named(
            connections,
            name,
        ) is None,
{
    assert forall|i: int| 0 <= i < connections.len() && #[trigger] connections[i].0@ == name implies connection_named(
        connections,
        name,
    ) == Some(connections[i].1) by {
        assert forall|j: int| 0 <= j < i implies connections[j].0@ != name by {
            assert(connections[j].0@ != connections[i].0@);
        }
        lemma_first_named(connections, name, Some(i as usize));
    }
    if forall|i: int| 0 <= i < connections.len() ==> #[trigger] connections[i].0@ != name {
        lemma_first_named(connections, name, None);
    }
}

proof fn lemma_named_after_set(before: Seq<(String, ConnectionConfig)>, i: int, after: Seq<(String, ConnectionConfig)>)
    requires
        ascending_names(before),
        before.len() <= usize::MAX,
        0 <= i < before.len(),
        before[i].0@ == jira_name(),
        after.len() == before.len(),
        after[i].0@ == jira_name(),
        forall|j: int| 0 <= j < before.len() && j != i ==> after[j] == before[j],
    ensures
        ascending_names(after),
        connection_named(after, jira_name()) == Some(after[i].1),
        forall|name: Seq<char>|
            name != jira_name() ==> connection_named(after, name) == connection_named(before, name),
{
    assert forall|j: int| 0 <= j < after.len() implies #[trigger] after[j].0@ == before[j].0@ by {
        if j != i {
            assert(after[j] == before[j]);
        }
    }
    assert forall|a: int, b: int| 0 <= a < b < after.len() implies text_less(
        #[trigger] after[a].0@,
        #[trigger] after[b].0@,
    ) by {
        assert(after[a].0@ == before[a].0@);
        assert(after[b].0@ == before[b].0@);
    }
    lemma_ascending_names_unique(before);
    lemma_ascending_names_unique(after);
    lemma_named_unique(after, jira_name());
    assert forall|name: Seq<char>| name != jira_name() implies connection_named(after, name) == connection_named(
        before,
        name,
    ) by {
        lemma_named_unique(before, name);
        lemma_named_unique(after, name);
        if exists|k: int| 0 <= k < before.len() && #[trigger] before[k].0@ == name {
            let k = choose|k: int| 0 <= k < before.len() && #[trigger] before[k].0@ == name;
            assert(k != i);
            assert(after[k] == before[k]);
        } else {
            assert forall|k: int| 0 <= k < after.len() implies #[trigger] after[k].0@ != name by {
                assert(after[k].0@ == before[k].0@);
            }
        }
    }
}

proof fn lemma_named_after_insert(before: Seq<(String, ConnectionConfig)>, k: int, after: Seq<(String, ConnectionConfig)>)
    requires
        ascending_names(before),
        after.len() <= usize::MAX,
        forall|j: int| 0 <= j < before.len() ==> #[trigger] before[j].0@ != jira_name(),
        0 <= k <= before.len(),
        forall|j: int| 0 <= j < k ==> !text_less(jira_name(), #[trigger] before[j].0@),
        k < before.len() ==> text_less(jira_name(), before[k].0@),
        after.len() == before.len() + 1,
        after[k].0@ == jira_name(),
        forall|j: int| 0 <= j < k ==> #[trigger] after[j] == before[j],
        forall|j: int| k < j < after.len() ==> #[trigger] after[j] == before[j - 1],
    ensures
        ascending_names(after),
        connection_named(after, jira_name()) == Some(after[k].1),
        forall|name: Seq<char>|
            name != jira_name() ==> connection_named(after, name) == connection_named(before, name),
{
    assert forall|a: int, b: int| 0 <= a < b < after.len() implies text_less(
        #[trigger] after[a].0@,
        #[trigger] after[b].0@,
    ) by {
        if a == k {
            assert(after[b] == before[b - 1]);
            if b - 1 > k {
                lemma_text_less_transitive(jira_name(), before[k].0@, before[b - 1].0@);
            }
        } else if b == k {
            assert(after[a] == before[a]);
            assert(!text_less(jira_name(), before[a].0@));
            assert(before[a].0@ != jira_name());
            lemma_text_less_total(before[a].0@, jira_name());
        } else if b < k {
            assert(after[a] == before[a]);
            assert(after[b] == before[b]);
        } else if a < k {
            assert(after[a] == before[a]);
            assert(after[b] == before[b - 1]);
        } else {
            assert(after[a] == before[a - 1]);
            assert(after[b] == before[b - 1]);
        }
    }
    lemma_ascending_names_unique(before);
    lemma_ascending_names_unique(after);
    lemma_named_unique(after, jira_name());
    assert forall|name: Seq<char>| name != jira_name() implies connection_named(after, name) == connection_named(
        before,
        name,
    ) by {
        lemma_named_unique(before, name);
        lemma_named_unique(after, name);
        if exists|j: int| 0 <= j < before.len() && #[trigger] before[j].0@ == name {
            let j = choose|j: int| 0 <= j < before.len() && #[trigger] before[j].0@ == name;
            if j < k {
                assert(after[j] == before[j]);
            } else {
                assert(after[j + 1] == before[j]);
            }
        } else {
            assert forall|m: int| 0 <= m < after.len() implies #[trigger] after[m].0@ != name by {
                if m < k {
                    assert(after[m] == before[m]);
                } else if m > k {
                    assert(after[m] == before[m - 1]);
                }
            }
        }
    }
}

/// The message that rejects a configuration of another version.
pub open spec fn unsupported_version_message(version: u32, path: Seq<char>) -> Seq<char> {
    "unsupported configuration version "@ + decimal(version as nat) + " in "@ + path
        + "; expected 1"@
}

/// Accepts a parsed configuration of the current version; any other version is refused.
pub fn check_version(config: Config, path: &str) -> (result: Result<Config, CliError>)
    ensures
        config.version == CONFIG_VERSION ==> (result matches Ok(c) && c.version == config.version
            && c.default_connection == config.default_connection && c.connections@
            == config.connections@),
        config.version != CONFIG_VERSION ==> (result matches Err(CliError::Config(message))
            && message@ == unsupported_version_message(config.version, path@)),
{
    if config.version != CONFIG_VERSION {
        let mut message = literal("unsupported configuration version ");
        let number = decimal_string(config.version as u64);
        push_str(&mut message, number.as_str());
        push_str(&mut message, " in ");
        push_str(&mut message, path);
        push_str(&mut message, "; expected 1");
        return Err(CliError::Config(message));
    }
    Ok(config)
}


/// What a login saves is what the next login reads: once a verified connection is stored
/// as the Jira connection, its site, email and token are both the login defaults and the
/// stored credentials.
pub proof fn lemma_saved_connection_read_back(
    config: Config,
    site: String,
    email: String,
    token: String,
    account_id: String,
    display_name: String,
)
    requires
        config.jira_spec() == Some(
            ConnectionConfig::Jira(
                JiraConnection {
                    site: Some(site),
                    email: Some(email),
                    token: Some(token),
                    account_id: Some(account_id),
                    display_name: Some(display_name),
                },
            ),
        ),
    ensures
        login_defaults_of(config.jira_spec()) == (LoginDefaults {
            hostname: Some(site),
            atlassian_user_email: Some(email),
            atlassian_token: Some(token),
        }),
        credentials_of(config.jira_spec()) == Some((site@, email@, token@)),
{
}

/// A configuration read from the legacy flat fields offers those fields at the next login.
pub proof fn lemma_legacy_fields_are_login_defaults(legacy: LegacyConfig, config: Config)
    requires
        config.connections@.len() == 1,
        config.connections@[0].0@ == jira_name(),
        config.connections@[0].1 == ConnectionConfig::Jira(
            JiraConnection {
                site: legacy.hostname,
                email: legacy.atlassian_user_email,
                token: legacy.atlassian_token,
                account_id: legacy.account_id,
                display_name: legacy.display_name,
            },
        ),
    ensures
        login_defaults_of(config.jira_spec()) == (LoginDefaults {
            hostname: legacy.hostname,
            atlassian_user_email: legacy.atlassian_user_email,
            atlassian_token: legacy.atlassian_token,
        }),
{
}

} // verus!
