use vstd::prelude::*;
use crate::config::system_config::{law_postgres_url_layout, postgres_url};
use crate::text::{decimal, decimal_string, digits_value, law_decimal_denotes_its_number};

verus! {

/// The settings of the first server version, read from
/// `config/configuration.yaml`.
pub struct SystemSettings {
    pub db_settings: DBSettings,
    pub application_port: u16,
}

/// How that version reached the database.
pub struct DBSettings {
    pub username: String,
    pub password: String,
    pub database: String,
    pub host: String,
    pub port: u16,
}

/// `postgres://<user>:<password>@<host>:<port>`, naming no database.
pub open spec fn postgres_server_url(username: Seq<char>, password: Seq<char>, host: Seq<char>, port: u16) -> Seq<char> {
    "postgres://"@ + username + ":"@ + password + "@"@ + host + ":"@ + decimal(port as nat)
}

/// The server URL is `postgres://`, the user name, `:`, the password, `@`,
/// the host, `:` and the port written in decimal; the database URL is the
/// server URL followed by `/` and the database name.  The port part is
/// made of digits and denotes exactly the configured port.
pub proof fn law_first_version_urls(
    username: Seq<char>,
    password: Seq<char>,
    host: Seq<char>,
    port: u16,
    database: Seq<char>,
)
    ensures
        postgres_server_url(username, password, host, port) == "postgres://"@ + username + ":"@ + password
            + "@"@ + host + ":"@ + decimal(port as nat),
        postgres_url(username, password, host, port, database) == postgres_server_url(
            username,
            password,
            host,
            port,
        ) + "/"@ + database,
        ({
            let url = postgres_server_url(username, password, host, port);
            let tail = decimal(port as nat);
            &&& url.subrange(url.len() - tail.len(), url.len() as int) == tail
            &&& digits_value(tail) == port
            &&& url[url.len() - tail.len() - 1] == ':'
        }),
{
    reveal_strlit(":");
    law_postgres_url_layout(username, password, host, port, database);
    law_decimal_denotes_its_number(port as nat);
    let url = postgres_server_url(username, password, host, port);
    let tail = decimal(port as nat);
    assert(url.subrange(url.len() - tail.len(), url.len() as int) =~= tail);
}

impl DBSettings {
    /// The URL of the configured database.
    pub fn connection_url(&self) -> (r: String)
        ensures
            r@ == postgres_url(self.username@, self.password@, self.host@, self.port, self.database@),
    {
        self.connection_url_without_db().concat("/").concat(self.database.as_str())
    }

    /// The URL of the database server, naming no database.
    pub fn connection_url_without_db(&self) -> (r: String)
        ensures
            r@ == postgres_server_url(self.username@, self.password@, self.host@, self.port),
    {
        String::from_str("postgres://")
            .concat(self.username.as_str())
            .concat(":")
            .concat(self.password.as_str())
            .concat("@")
            .concat(self.host.as_str())
            .concat(":")
            .concat(decimal_string(self.port as u64).as_str())
    }
}

} // verus!
