//! Startup configuration: the settings the service needs, validated once.
use vstd::prelude::*;

verus! {

pub open spec fn is_digit(c: char) -> bool {
    '0' <= c && c <= '9'
}

pub open spec fn all_digits(s: Seq<char>) -> bool {
    forall|i: int| 0 <= i < s.len() ==> is_digit(#[trigger] s[i])
}

/// The number that a string of decimal digits denotes.
pub open spec fn decimal_value(s: Seq<char>) -> int
    decreases s.len(),
{
    if s.len() == 0 {
        0
    } else {
        decimal_value(s.drop_last()) * 10 + (s.last() as int - '0' as int)
    }
}

/// The digits of a port number, after an optional leading `+`.
pub open spec fn port_digits(s: Seq<char>) -> Seq<char> {
    if s.len() > 0 && s[0] == '+' {
        s.drop_first()
    } else {
        s
    }
}

/// The port that a text denotes: one or more decimal digits, optionally after a
/// `+`, whose value fits in sixteen bits.
pub open spec fn port_of(s: Seq<char>) -> Option<u16> {
    let d = port_digits(s);
    if d.len() > 0 && all_digits(d) && decimal_value(d) <= 65535 {
        Some(decimal_value(d) as u16)
    } else {
        None
    }
}

proof fn lemma_decimal_nonneg(s: Seq<char>)
    requires
        all_digits(s),
    ensures
        decimal_value(s) >= 0,
    decreases s.len(),
{
    if s.len() > 0 {
        assert(is_digit(s[s.len() - 1]));
        lemma_decimal_nonneg(s.drop_last());
    }
}

/// Reads a port number as `u16::from_str` does.
pub fn parse_port(text: &str) -> (r: Option<u16>)
    ensures
        r == port_of(text@),
{
    let n = text.unicode_len();
    let start: usize = if n > 0 && text.get_char(0) == '+' { 1 } else { 0 };
    proof {
        assert(port_digits(text@) =~= text@.subrange(start as int, n as int));
    }
    if start == n {
        return None;
    }
    let mut val: u32 = 0;
    let mut i: usize = start;
    while i < n
        invariant
            n == text@.len(),
            start <= i <= n,
            port_digits(text@) == text@.subrange(start as int, n as int),
            all_digits(text@.subrange(start as int, i as int)),
            val as int == if decimal_value(text@.subrange(start as int, i as int)) > 65536 {
                65536
            } else {
                decimal_value(text@.subrange(start as int, i as int))
            },
        decreases n - i,
    {
        let c = text.get_char(i);
        let ghost prev = text@.subrange(start as int, i as int);
        let ghost next = text@.subrange(start as int, i as int + 1);
        proof {
            assert(next.drop_last() =~= prev);
        }
        if c < '0' || c > '9' {
            proof {
                assert(next[next.len() - 1] == c);
                assert(!all_digits(text@.subrange(start as int, n as int))) by {
                    assert(text@.subrange(start as int, n as int)[i - start] == c);
                }
            }
            return None;
        }
        proof {
            lemma_decimal_nonneg(prev);
            assert(all_digits(next)) by {
                assert forall|j: int| 0 <= j < next.len() implies is_digit(#[trigger] next[j]) by {
                    if j < prev.len() {
                        assert(next[j] == prev[j]);
                    }
                }
            }
        }
        let d: u32 = (c as u32) - ('0' as u32);
        if val == 65536 {
            val = 65536;
        } else {
            val = val * 10 + d;
            if val > 65536 {
                val = 65536;
            }
        }
        i = i + 1;
    }
    if val > 65535 {
        None
    } else {
        Some(val as u16)
    }
}

/// A setting the service reads at startup.
#[derive(Clone, Copy, PartialEq, Eq, Structural, Debug)]
pub enum Setting {
    ElasticHost,
    ElasticUser,
    ElasticPassword,
    SearcherAddress,
    SearcherPort,
    CorsOrigin,
}

impl Setting {
    /// The environment variable that holds the setting.
    pub fn variable_name(&self) -> (r: &'static str)
        ensures
            r@.len() > 0,
    {
        let r = match self {
            Setting::ElasticHost => "ELASTIC_HOST",
            Setting::ElasticUser => "ELASTIC_USER",
            Setting::ElasticPassword => "ELASTIC_PASSWORD",
            Setting::SearcherAddress => "SEARCHER_ADDRESS",
            Setting::SearcherPort => "SEARCHER_PORT",
            Setting::CorsOrigin => "CORS_ORIGIN",
        };
        proof {
            reveal_strlit("ELASTIC_HOST");
            reveal_strlit("ELASTIC_USER");
            reveal_strlit("ELASTIC_PASSWORD");
            reveal_strlit("SEARCHER_ADDRESS");
            reveal_strlit("SEARCHER_PORT");
            reveal_strlit("CORS_ORIGIN");
        }
        r
    }
}

/// Why the service could not be configured.
#[derive(PartialEq, Eq, Structural, Debug)]
pub enum ConfigError {
    /// A required setting was not given.
    MissingVariable(Setting),
    /// The port setting is not a number from 0 to 65535.
    InvalidPort,
}

/// Abstract value of [`ServiceParameters`].
pub struct ParametersModel {
    pub es_host: Seq<char>,
    pub es_user: Seq<char>,
    pub es_passwd: Seq<char>,
    pub service_addr: Seq<char>,
    pub service_port: u16,
    pub cors_origin: Seq<char>,
}

/// Everything the service needs at startup: where the engine is, how to log in,
/// and where to listen.
pub struct ServiceParameters {
    es_host: String,
    es_user: String,
    es_passwd: String,
    service_addr: String,
    service_port: u16,
    cors_origin: String,
}

impl View for ServiceParameters {
    type V = ParametersModel;

    closed spec fn view(&self) -> ParametersModel {
        ParametersModel {
            es_host: self.es_host@,
            es_user: self.es_user@,
            es_passwd: self.es_passwd@,
            service_addr: self.service_addr@,
            service_port: self.service_port,
            cors_origin: self.cors_origin@,
        }
    }
}

/// The first setting, in reading order, that was not given.
pub open spec fn first_missing(
    es_host: Option<String>,
    es_user: Option<String>,
    es_passwd: Option<String>,
    service_addr: Option<String>,
    service_port: Option<String>,
    cors_origin: Option<String>,
) -> Option<Setting> {
    if es_host is None {
        Some(Setting::ElasticHost)
    } else if es_user is None {
        Some(Setting::ElasticUser)
    } else if es_passwd is None {
        Some(Setting::ElasticPassword)
    } else if service_addr is None {
        Some(Setting::SearcherAddress)
    } else if service_port is None {
        Some(Setting::SearcherPort)
    } else if cors_origin is None {
        Some(Setting::CorsOrigin)
    } else {
        None
    }
}

impl ServiceParameters {
    pub fn new(
        es_host: String,
        es_user: String,
        es_passwd: String,
        service_addr: String,
        service_port: u16,
        cors_origin: String,
    ) -> (r: ServiceParameters)
        ensures
            r@ == (ParametersModel {
                es_host: es_host@,
                es_user: es_user@,
                es_passwd: es_passwd@,
                service_addr: service_addr@,
                service_port,
                cors_origin: cors_origin@,
            }),
    {
        ServiceParameters { es_host, es_user, es_passwd, service_addr, service_port, cors_origin }
    }

    /// Validates the settings as read at startup. The first setting that is
    /// absent is reported; if all are present, the port must be a valid number.
    pub fn from_settings(
        es_host: Option<String>,
        es_user: Option<String>,
        es_passwd: Option<String>,
        service_addr: Option<String>,
        service_port: Option<String>,
        cors_origin: Option<String>,
    ) -> (r: Result<ServiceParameters, ConfigError>)
        ensures
            ({
                let missing = first_missing(
                    es_host,
                    es_user,
                    es_passwd,
                    service_addr,
                    service_port,
                    cors_origin,
                );
                match missing {
                    Some(s) => r == Err::<ServiceParameters, ConfigError>(
                        ConfigError::MissingVariable(s),
                    ),
                    None => match port_of(service_port.unwrap()@) {
                        None => r == Err::<ServiceParameters, ConfigError>(ConfigError::InvalidPort),
                        Some(port) => r is Ok && r->Ok_0@ == (ParametersModel {
                            es_host: es_host.unwrap()@,
                            es_user: es_user.unwrap()@,
                            es_passwd: es_passwd.unwrap()@,
                            service_addr: service_addr.unwrap()@,
                            service_port: port,
                            cors_origin: cors_origin.unwrap()@,
                        }),
                    },
                }
            }),
    {
        let es_host = match es_host {
            Some(v) => v,
            None => return Err(ConfigError::MissingVariable(Setting::ElasticHost)),
        };
        let es_user = match es_user {
            Some(v) => v,
            None => return Err(ConfigError::MissingVariable(Setting::ElasticUser)),
        };
        let es_passwd = match es_passwd {
            Some(v) => v,
            None => return Err(ConfigError::MissingVariable(Setting::ElasticPassword)),
        };
        let service_addr = match service_addr {
            Some(v) => v,
            None => return Err(ConfigError::MissingVariable(Setting::SearcherAddress)),
        };
        let port_text = match service_port {
            Some(v) => v,
            None => return Err(ConfigError::MissingVariable(Setting::SearcherPort)),
        };
        let cors_origin = match cors_origin {
            Some(v) => v,
            None => return Err(ConfigError::MissingVariable(Setting::CorsOrigin)),
        };
        match parse_port(port_text.as_str()) {
            Some(port) => Ok(
                ServiceParameters::new(es_host, es_user, es_passwd, service_addr, port, cors_origin),
            ),
            None => Err(ConfigError::InvalidPort),
        }
    }

    pub fn es_host(&self) -> (r: &str)
        ensures
            r@ == self@.es_host,
    {
        self.es_host.as_str()
    }

    pub fn es_user(&self) -> (r: &str)
        ensures
            r@ == self@.es_user,
    {
        self.es_user.as_str()
    }

    pub fn es_passwd(&self) -> (r: &str)
        ensures
            r@ == self@.es_passwd,
    {
        self.es_passwd.as_str()
    }

    pub fn service_address(&self) -> (r: &str)
        ensures
            r@ == self@.service_addr,
    {
        self.service_addr.as_str()
    }

    pub fn service_port(&self) -> (r: u16)
        ensures
            r == self@.service_port,
    {
        self.service_port
    }

    pub fn cors_origin(&self) -> (r: &str)
        ensures
            r@ == self@.cors_origin,
    {
        self.cors_origin.as_str()
    }
}

} // verus!
