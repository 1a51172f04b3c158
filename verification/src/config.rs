//! Service configuration, read from the process environment.
use vstd::prelude::*;
use crate::text::str_chars;
use crate::github::digits_of;

verus! {

/// Settings the service starts with.
pub struct Config {
    pub github_webhook_secret: String,
    pub venice_ai_api_key: String,
    pub oneshot_api_key: String,
    pub database_url: String,
    pub port: u16,
}

/// The environment variables that must be set.
#[derive(Debug, Clone, Copy, PartialEq, Eq, Structural)]
pub enum EnvVar {
    GithubWebhookSecret,
    VeniceAiApiKey,
    OneshotApiKey,
    DatabaseUrl,
}

/// The name of each required environment variable.
pub open spec fn env_var_name(v: EnvVar) -> Seq<char> {
    match v {
        EnvVar::GithubWebhookSecret => "GITHUB_WEBHOOK_SECRET"@,
        EnvVar::VeniceAiApiKey => "VENICE_AI_API_KEY"@,
        EnvVar::OneshotApiKey => "ONESHOT_API_KEY"@,
        EnvVar::DatabaseUrl => "DATABASE_URL"@,
    }
}

impl EnvVar {
    /// The name under which the variable is looked up.
    pub fn name(&self) -> (res: &'static str)
        ensures
            res@ == env_var_name(*self),
    {
        match self {
            EnvVar::GithubWebhookSecret => "GITHUB_WEBHOOK_SECRET",
            EnvVar::VeniceAiApiKey => "VENICE_AI_API_KEY",
            EnvVar::OneshotApiKey => "ONESHOT_API_KEY",
            EnvVar::DatabaseUrl => "DATABASE_URL",
        }
    }
}

/// Why the configuration could not be built.
#[derive(Debug, Clone, Copy, PartialEq, Eq, Structural)]
pub enum ConfigError {
    /// A required variable is not set ("... must be set").
    Missing(EnvVar),
    /// `PORT` is set but is not a number from 0 to 65535
    /// ("PORT must be a valid number").
    InvalidPort,
}

/// The port used when `PORT` is not set.
pub const DEFAULT_PORT: u16 = 3001;

/// Whether `c` is an ASCII decimal digit.
pub open spec fn is_digit(c: char) -> bool {
    '0' <= c <= '9'
}

/// The number written by the decimal digits `s`, most significant first.
pub open spec fn decimal_value(s: Seq<char>) -> int
    decreases s.len(),
{
    if s.len() == 0 {
        0
    } else {
        10 * decimal_value(s.drop_last()) + (s.last() as int - 48)
    }
}

/// The digits of an unsigned number text: the text without one leading '+'.
pub open spec fn unsigned_digits(s: Seq<char>) -> Seq<char> {
    if s.len() > 0 && s[0] == '+' {
        s.drop_first()
    } else {
        s
    }
}

/// What `str::parse::<u16>` gives: an optional '+', then at least one
/// decimal digit and nothing else, with a value of at most 65535.
pub open spec fn spec_parse_u16(s: Seq<char>) -> Option<u16> {
    let d = unsigned_digits(s);
    if d.len() > 0 && (forall|i: int| 0 <= i < d.len() ==> is_digit(#[trigger] d[i]))
        && decimal_value(d) <= 65535 {
        Some(decimal_value(d) as u16)
    } else {
        None
    }
}

/// A longer run of digits never stands for a smaller number.
proof fn lemma_decimal_value_prefix(s: Seq<char>, k: int)
    requires
        0 <= k <= s.len(),
        forall|i: int| 0 <= i < s.len() ==> is_digit(#[trigger] s[i]),
    ensures
        0 <= decimal_value(s.take(k)) <= decimal_value(s),
    decreases s.len(),
{
    if s.len() > 0 {
        let t = s.drop_last();
        assert forall|i: int| 0 <= i < t.len() implies is_digit(#[trigger] t[i]) by {
            assert(t[i] == s[i]);
        }
        if k < s.len() {
            lemma_decimal_value_prefix(t, k);
            assert(t.take(k) =~= s.take(k));
        } else {
            lemma_decimal_value_prefix(t, t.len() as int);
            assert(t.take(t.len() as int) =~= t);
            assert(s.take(k) =~= s);
        }
    }
}

/// A single decimal digit parses to its value.
pub proof fn lemma_parse_single_digit(c: char)
    requires
        '0' <= c <= '9',
    ensures
        spec_parse_u16(seq![c]) == Some(((c as u32) - 48) as u16),
{
    let s = seq![c];
    assert(unsigned_digits(s) =~= s);
    assert(s.drop_last() =~= Seq::<char>::empty());
    assert(decimal_value(Seq::<char>::empty()) == 0);
    assert(decimal_value(s) == c as int - 48);
    assert(forall|i: int| 0 <= i < s.len() ==> is_digit(#[trigger] s[i]));
}

/// Appending a decimal digit to a port text multiplies its value by ten and
/// adds the digit, as long as the result stays within 65535.
pub proof fn lemma_parse_append_digit(s: Seq<char>, c: char, a: u16)
    requires
        '0' <= c <= '9',
        spec_parse_u16(s) == Some(a),
        10 * a + ((c as u32) - 48) <= 65535,
    ensures
        spec_parse_u16(s.push(c)) == Some((10 * a + ((c as u32) - 48)) as u16),
{
    let d = unsigned_digits(s);
    let t = s.push(c);
    assert(s.len() > 0);
    if s[0] == '+' {
        assert(unsigned_digits(t) =~= d.push(c));
    } else {
        assert(unsigned_digits(t) =~= d.push(c));
    }
    let e = d.push(c);
    assert(e.drop_last() =~= d);
    assert forall|i: int| 0 <= i < e.len() implies is_digit(#[trigger] e[i]) by {
        if i < d.len() {
            assert(e[i] == d[i]);
        }
    }
    lemma_decimal_value_prefix(d, 0);
    assert(decimal_value(d) == a);
}

/// The decimal rendering of a number is all digits and reads back as it.
proof fn lemma_digits_of_value(n: nat)
    ensures
        digits_of(n).len() > 0,
        forall|i: int| 0 <= i < digits_of(n).len() ==> is_digit(#[trigger] digits_of(n)[i]),
        decimal_value(digits_of(n)) == n,
    decreases n,
{
    let s = digits_of(n);
    if n < 10 {
        assert(((48 + n) as char) as int == 48 + n);
        assert(s.drop_last() =~= Seq::<char>::empty());
        assert(decimal_value(Seq::<char>::empty()) == 0);
        assert(decimal_value(s) == 10 * decimal_value(s.drop_last()) + (s.last() as int - 48));
    } else {
        lemma_digits_of_value(n / 10);
        let t = digits_of(n / 10);
        assert(((48 + n % 10) as char) as int == 48 + n % 10);
        assert(s.drop_last() =~= t);
        assert(decimal_value(s) == 10 * decimal_value(t) + (s.last() as int - 48));
        assert forall|i: int| 0 <= i < s.len() implies is_digit(#[trigger] s[i]) by {
            if i < t.len() {
                assert(s[i] == t[i]);
            }
        }
    }
}

/// Every port number, written in decimal, parses back to itself.
pub proof fn lemma_parse_port_roundtrip(n: u16)
    ensures
        spec_parse_u16(digits_of(n as nat)) == Some(n),
{
    lemma_digits_of_value(n as nat);
    let s = digits_of(n as nat);
    assert(is_digit(s[0]));
    assert(unsigned_digits(s) == s);
}

/// Parses a port number as `str::parse::<u16>` does.
pub fn parse_port(text: &str) -> (res: Option<u16>)
    ensures
        res == spec_parse_u16(text@),
{
    let v = str_chars(text);
    let n = v.len();
    let start: usize = if n > 0 && v[0] == '+' { 1 } else { 0 };
    let ghost d = unsigned_digits(v@);
    assert(d =~= v@.subrange(start as int, n as int));
    if start == n {
        return None;
    }
    let mut value: u32 = 0;
    let mut i = start;
    while i < n
        invariant
            start <= i <= n == v@.len(),
            d == v@.subrange(start as int, n as int),
            d == unsigned_digits(v@),
            v@ == text@,
            forall|j: int| 0 <= j < i - start ==> is_digit(#[trigger] d[j]),
            value == decimal_value(d.take(i - start)),
            value <= 65535,
        decreases n - i,
    {
        let c = v[i];
        if !('0' <= c && c <= '9') {
            assert(d[i - start] == c);
            assert(!is_digit(d[i - start]));
            assert(spec_parse_u16(v@) is None);
            return None;
        }
        let digit = (c as u32) - 48;
        assert(d.take(i + 1 - start).drop_last() =~= d.take(i - start));
        assert(d.take(i + 1 - start).last() == c);
        assert(decimal_value(d.take(i + 1 - start)) == 10 * value + digit);
        value = value * 10 + digit;
        i = i + 1;
        if value > 65535 {
            proof {
                if forall|j: int| 0 <= j < d.len() ==> is_digit(#[trigger] d[j]) {
                    lemma_decimal_value_prefix(d, i - start);
                }
                assert(spec_parse_u16(v@) is None);
            }
            return None;
        }
    }
    assert(d.take(n - start) =~= d);
    Some(value as u16)
}

/// The outcome of reading the configuration from the values of the
/// variables, in the order in which they are read: the first unset required
/// variable, then an unparsable `PORT`; an unset `PORT` means 3001.
pub open spec fn config_outcome(
    github: Option<String>,
    venice: Option<String>,
    oneshot: Option<String>,
    database: Option<String>,
    port: Option<String>,
) -> Result<u16, ConfigError> {
    if github is None {
        Err(ConfigError::Missing(EnvVar::GithubWebhookSecret))
    } else if venice is None {
        Err(ConfigError::Missing(EnvVar::VeniceAiApiKey))
    } else if oneshot is None {
        Err(ConfigError::Missing(EnvVar::OneshotApiKey))
    } else if database is None {
        Err(ConfigError::Missing(EnvVar::DatabaseUrl))
    } else {
        match port {
            None => Ok(DEFAULT_PORT),
            Some(p) => match spec_parse_u16(p@) {
                Some(n) => Ok(n),
                None => Err(ConfigError::InvalidPort),
            },
        }
    }
}

/// The variables are checked in order (`GITHUB_WEBHOOK_SECRET`,
/// `VENICE_AI_API_KEY`, `ONESHOT_API_KEY`, `DATABASE_URL`) and the first unset
/// one is reported; `PORT` matters only when all four are set, an unset
/// `PORT` meaning 3001 and a set one being parsed.
pub proof fn lemma_config_checks_in_order(
    github: Option<String>,
    venice: Option<String>,
    oneshot: Option<String>,
    database: Option<String>,
    port: Option<String>,
)
    ensures
        ({
            let r = config_outcome(github, venice, oneshot, database, port);
            &&& github is None ==> r == Err::<u16, ConfigError>(ConfigError::Missing(EnvVar::GithubWebhookSecret))
            &&& github is Some && venice is None ==> r == Err::<u16, ConfigError>(
                ConfigError::Missing(EnvVar::VeniceAiApiKey),
            )
            &&& github is Some && venice is Some && oneshot is None ==> r == Err::<u16, ConfigError>(
                ConfigError::Missing(EnvVar::OneshotApiKey),
            )
            &&& github is Some && venice is Some && oneshot is Some && database is None ==> r == Err::<
                u16,
                ConfigError,
            >(ConfigError::Missing(EnvVar::DatabaseUrl))
            &&& github is Some && venice is Some && oneshot is Some && database is Some ==> {
                &&& port is None ==> r == Ok::<u16, ConfigError>(3001)
                &&& port matches Some(p) ==> match spec_parse_u16(p@) {
                    Some(n) => r == Ok::<u16, ConfigError>(n),
                    None => r == Err::<u16, ConfigError>(ConfigError::InvalidPort),
                }
            }
        }),
{
}

impl Config {
    /// Builds the configuration from the values of `GITHUB_WEBHOOK_SECRET`,
    /// `VENICE_AI_API_KEY`, `ONESHOT_API_KEY`, `DATABASE_URL` and `PORT`
    /// (`None` where a variable is unset).
    pub fn from_lookups(
        github: Option<String>,
        venice: Option<String>,
        oneshot: Option<String>,
        database: Option<String>,
        port: Option<String>,
    ) -> (res: Result<Config, ConfigError>)
        ensures
            match (res, config_outcome(github, venice, oneshot, database, port)) {
                (Ok(c), Ok(p)) => {
                    &&& Some(c.github_webhook_secret) == github
                    &&& Some(c.venice_ai_api_key) == venice
                    &&& Some(c.oneshot_api_key) == oneshot
                    &&& Some(c.database_url) == database
                    &&& c.port == p
                },
                (Err(e), Err(f)) => e == f,
                _ => false,
            },
    {
        let github_webhook_secret = match github {
            Some(v) => v,
            None => return Err(ConfigError::Missing(EnvVar::GithubWebhookSecret)),
        };
        let venice_ai_api_key = match venice {
            Some(v) => v,
            None => return Err(ConfigError::Missing(EnvVar::VeniceAiApiKey)),
        };
        let oneshot_api_key = match oneshot {
            Some(v) => v,
            None => return Err(ConfigError::Missing(EnvVar::OneshotApiKey)),
        };
        let database_url = match database {
            Some(v) => v,
            None => return Err(ConfigError::Missing(EnvVar::DatabaseUrl)),
        };
        let port = match port {
            None => DEFAULT_PORT,
            Some(p) => match parse_port(p.as_str()) {
                Some(n) => n,
                None => return Err(ConfigError::InvalidPort),
            },
        };
        Ok(Config { github_webhook_secret, venice_ai_api_key, oneshot_api_key, database_url, port })
    }
}

} // verus!
