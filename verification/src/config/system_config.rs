use vstd::prelude::*;
use std::time::Duration;
use crate::domain::subscriber_email::{SubscriberEmail, has_user_and_domain, invalid_email_detail, validator_accepts_email};
use crate::exception::biz_exception::{BizError, BizResult};
use crate::text::{decimal, decimal_string, digits_value, is_decimal_digit, law_decimal_denotes_its_number};

verus! {

/// Everything the server is started with.
pub struct SystemConfig {
    pub db_settings: DBSettings,
    pub application_config: ApplicationConfig,
    pub email_config: EmailConfig,
}

/// How the confirmation mails are sent.
pub struct EmailConfig {
    pub base_url: String,
    pub sender_email: String,
    pub authorization_token: String,
    pub timeout_milliseconds: u64,
}

/// Where the server listens.
pub struct ApplicationConfig {
    pub host: String,
    pub port: u16,
}

/// How to reach the database.
pub struct DBSettings {
    pub username: String,
    pub password: String,
    pub database: String,
    pub host: String,
    pub port: u16,
}

/// The name of the settings file every environment shares.
pub const BASE_CONFIG_FILE_NAME: &'static str = "base.yaml";

/// The name of the settings file of the environment `APP_ENVIRONMENT`
/// names, `local` when it names none.
pub open spec fn environment_file_name(app_environment: Option<Seq<char>>) -> Seq<char> {
    match app_environment {
        Some(env) => env + ".yaml"@,
        None => "local.yaml"@,
    }
}

/// The settings file of the environment: `<environment>.yaml`, where the
/// environment is the value of `APP_ENVIRONMENT` (`None` when unset), by
/// default `local`.
pub fn environment_config_file_name(app_environment: Option<String>) -> (r: String)
    ensures
        r@ == environment_file_name(match app_environment {
            Some(e) => Some(e@),
            None => None,
        }),
{
    proof {
        reveal_strlit("local");
        reveal_strlit(".yaml");
        reveal_strlit("local.yaml");
    }
    let env = match app_environment {
        Some(e) => e,
        None => String::from_str("local"),
    };
    let r = env.concat(".yaml");
    proof {
        assert(("local"@ + ".yaml"@) =~= "local.yaml"@);
    }
    r
}

/// The environment's settings file is the environment's name followed by
/// `.yaml`, and `local.yaml` when no environment is named.
pub proof fn law_environment_file_name(env: Seq<char>)
    ensures
        environment_file_name(Some(env)) == env + ".yaml"@,
        environment_file_name(Some(env)).subrange(0, env.len() as int) == env,
        environment_file_name(None) == "local.yaml"@,
{
    assert((env + ".yaml"@).subrange(0, env.len() as int) =~= env);
}

/// `postgres://<user>:<password>@<host>:<port>/<database>`.
pub open spec fn postgres_url(
    username: Seq<char>,
    password: Seq<char>,
    host: Seq<char>,
    port: u16,
    database: Seq<char>,
) -> Seq<char> {
    "postgres://"@ + username + ":"@ + password + "@"@ + host + ":"@ + decimal(port as nat) + "/"@ + database
}

/// `<host>:<port>`.
pub open spec fn host_port(host: Seq<char>, port: u16) -> Seq<char> {
    host + ":"@ + decimal(port as nat)
}

/// The database URL is `postgres://`, the user name, `:`, the password
/// unchanged, `@`, the host, `:`, the port written in decimal, `/` and the
/// database name; the password stands whole between the `:` that follows
/// the user name and the `@` before the host.
pub proof fn law_postgres_url_layout(
    username: Seq<char>,
    password: Seq<char>,
    host: Seq<char>,
    port: u16,
    database: Seq<char>,
)
    ensures
        postgres_url(username, password, host, port, database) == "postgres://"@ + username + ":"@ + password
            + "@"@ + host + ":"@ + decimal(port as nat) + "/"@ + database,
        ({
            let url = postgres_url(username, password, host, port, database);
            let ulen: int = username.len() as int;
            let start: int = 11 + ulen + 1;
            &&& url.subrange(0, 11) == "postgres://"@
            &&& url.subrange(11, 11 + ulen) == username
            &&& url[11 + ulen] == ':'
            &&& url.subrange(start, start + password.len()) == password
            &&& url[start + password.len()] == '@'
        }),
{
    reveal_strlit("postgres://");
    reveal_strlit(":");
    reveal_strlit("@");
    let url = postgres_url(username, password, host, port, database);
    let ulen: int = username.len() as int;
    let start: int = 11 + ulen + 1;
    assert(url.subrange(0, 11) =~= "postgres://"@);
    assert(url.subrange(11, 11 + ulen) =~= username);
    assert(url.subrange(start, start + password.len()) =~= password);
}

/// The listen address is the host, `:`, and the port written in decimal:
/// the part after the host's `:` is made of digits and denotes exactly
/// the configured port, `0` included.
pub proof fn law_listen_address_layout(host: Seq<char>, port: u16)
    ensures
        host_port(host, port) == host + ":"@ + decimal(port as nat),
        host_port(host, port).subrange(0, host.len() as int) == host,
        host_port(host, port)[host.len() as int] == ':',
        ({
            let digits = host_port(host, port).subrange(host.len() as int + 1, host_port(host, port).len() as int);
            &&& digits_value(digits) == port
            &&& forall|i: int| 0 <= i < digits.len() ==> #[trigger] is_decimal_digit(digits[i])
        }),
{
    reveal_strlit(":");
    law_decimal_denotes_its_number(port as nat);
    let hp = host_port(host, port);
    assert(hp.subrange(0, host.len() as int) =~= host);
    assert(hp.subrange(host.len() as int + 1, hp.len() as int) =~= decimal(port as nat));
}

impl ApplicationConfig {
    /// The address the server binds to: `<host>:<port>`.
    pub fn listen_address(&self) -> (r: String)
        ensures
            r@ == host_port(self.host@, self.port),
    {
        self.host.clone().concat(":").concat(decimal_string(self.port as u64).as_str())
    }
}

impl DBSettings {
    /// The database URL: the value of `DATABASE_URL` when that is set
    /// (`database_url` is `None` otherwise), else the URL built from these
    /// settings.
    pub fn connection_url(&self, database_url: Option<String>) -> (r: String)
        ensures
            r@ == match database_url {
                Some(u) => u@,
                None => postgres_url(self.username@, self.password@, self.host@, self.port, self.database@),
            },
    {
        match database_url {
            Some(u) => u,
            None => String::from_str("postgres://")
                .concat(self.username.as_str())
                .concat(":")
                .concat(self.password.as_str())
                .concat("@")
                .concat(self.host.as_str())
                .concat(":")
                .concat(decimal_string(self.port as u64).as_str())
                .concat("/")
                .concat(self.database.as_str()),
        }
    }
}

/// The `Duration` of `ms` milliseconds.
pub uninterp spec fn duration_of_millis(ms: u64) -> Duration;

/// Calls `std::time::Duration::from_millis`; its result is named
/// `duration_of_millis`.
#[verifier::external_body]
fn duration_from_millis(ms: u64) -> (d: Duration)
    ensures
        d == duration_of_millis(ms),
{
    Duration::from_millis(ms)
}

impl EmailConfig {
    /// The configured sender address, checked as a subscriber address is.
    pub fn sender_email(&self) -> (r: BizResult<SubscriberEmail>)
        ensures
            match r {
                Ok(email) => validator_accepts_email(self.sender_email@) && has_user_and_domain(self.sender_email@)
                    && email@ == self.sender_email@,
                Err(e) => !validator_accepts_email(self.sender_email@) && (e matches BizError::ParamInvalid(
                    detail,
                ) && detail@ == invalid_email_detail(self.sender_email@)),
            },
    {
        SubscriberEmail::parse(self.sender_email.clone())
    }

    /// How long a request to the mail service may take.
    pub fn timeout(&self) -> (r: Duration)
        ensures
            r == duration_of_millis(self.timeout_milliseconds),
    {
        duration_from_millis(self.timeout_milliseconds)
    }
}

} // verus!
