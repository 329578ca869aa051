//! Settings of the service, read from its environment variables.

use vstd::prelude::*;
use crate::text::{
    lemma_replace_by_itself, parse_bounded, parse_unsigned, replace_all, replace_str, str_equals,
};

verus! {

/// Why an environment variable has no usable value (as `std::env::VarError`).
#[derive(Debug, Clone, Copy, PartialEq, Eq, Structural)]
pub enum VarError {
    /// The variable is not set.
    NotPresent,
    /// The variable is set, but its value is not valid Unicode.
    NotUnicode,
}

/// The abstract content of an environment: its variables in the order they
/// were recorded, each with its value, or `None` where the value is not valid
/// Unicode.
pub type EnvView = Seq<(Seq<char>, Option<Seq<char>>)>;

/// A snapshot of the environment variables of the process.
pub struct EnvVars {
    entries: Vec<(String, Option<String>)>,
}

/// The value of `name` in `env`: the first record of that name decides, as
/// `getenv` finds it, and names match exactly (as on Unix).
pub open spec fn env_var(env: EnvView, name: Seq<char>) -> Result<Seq<char>, VarError>
    decreases env.len(),
{
    if env.len() == 0 {
        Err(VarError::NotPresent)
    } else if env[0].0 == name {
        match env[0].1 {
            Some(v) => Ok(v),
            None => Err(VarError::NotUnicode),
        }
    } else {
        env_var(env.drop_first(), name)
    }
}

impl View for EnvVars {
    type V = EnvView;

    closed spec fn view(&self) -> EnvView {
        self.entries@.map_values(|e: (String, Option<String>)| (e.0@, e.1.deep_view()))
    }
}

impl EnvVars {
    /// An environment without variables.
    pub fn new() -> (env: Self)
        ensures
            env@ == Seq::<(Seq<char>, Option<Seq<char>>)>::empty(),
    {
        let env = EnvVars { entries: Vec::new() };
        assert(env@ =~= Seq::<(Seq<char>, Option<Seq<char>>)>::empty());
        env
    }

    /// Records that `name` has `value` (`None`: a value that is not Unicode),
    /// after the records made before; where a name is recorded twice, the
    /// first record decides.
    pub fn set(&mut self, name: String, value: Option<String>)
        ensures
            final(self)@ == old(self)@.push((name@, value.deep_view())),
    {
        let ghost n = name@;
        let ghost v = value.deep_view();
        self.entries.push((name, value));
        assert(self@ =~= old(self)@.push((n, v)));
    }

    /// The value of `name`, as `std::env::var` gives it.
    pub fn var(&self, name: &str) -> (res: Result<String, VarError>)
        ensures
            match env_var(self@, name@) {
                Ok(v) => res matches Ok(s) && s@ == v,
                Err(e) => res == Err::<String, VarError>(e),
            },
    {
        let mut i: usize = 0;
        assert(self@.skip(0) =~= self@);
        while i < self.entries.len()
            invariant
                i <= self.entries.len(),
                self@.len() == self.entries.len(),
                env_var(self@, name@) == env_var(self@.skip(i as int), name@),
            decreases self.entries.len() - i,
        {
            let ghost rest = self@.skip(i as int);
            assert(rest.drop_first() =~= self@.skip(i + 1));
            assert(rest[0] == (self.entries@[i as int].0@, self.entries@[i as int].1.deep_view()));
            if str_equals(self.entries[i].0.as_str(), name) {
                return match &self.entries[i].1 {
                    Some(v) => Ok(v.clone()),
                    None => Err(VarError::NotUnicode),
                };
            }
            i = i + 1;
        }
        assert(self@.skip(i as int) =~= Seq::<(Seq<char>, Option<Seq<char>>)>::empty());
        Err(VarError::NotPresent)
    }
}

/// The text of a variable with a default: the default where the variable is
/// not set or not Unicode.
pub open spec fn var_or(env: EnvView, name: Seq<char>, default: Seq<char>) -> Seq<char> {
    match env_var(env, name) {
        Ok(v) => v,
        Err(_) => default,
    }
}

/// A numeric setting: the variable (or the default text) read as a number no
/// larger than `max`, or `default` where it does not read.
pub open spec fn numeric_var(env: EnvView, name: Seq<char>, default: nat, max: nat) -> nat {
    match parse_unsigned(var_or(env, name, decimal_text(default)), max) {
        Some(v) => v,
        None => default,
    }
}

/// A numeric setting whose variable is unset or not Unicode takes its
/// default.
pub proof fn lemma_unset_numeric_var_is_default(env: EnvView, name: Seq<char>, default: nat, max: nat)
    requires
        env_var(env, name) is Err,
        default <= max,
    ensures
        numeric_var(env, name, default, max) == default,
{
    crate::text::lemma_decimal_round_trip(default);
}

/// The decimal text of a default value.
pub open spec fn decimal_text(n: nat) -> Seq<char> {
    crate::text::decimal_digits(n)
}

/// The text of `name`, or `default` where it has none.
fn text_var(env: &EnvVars, name: &str, default: &str) -> (s: String)
    ensures
        s@ == var_or(env@, name@, default@),
{
    match env.var(name) {
        Ok(v) => v,
        Err(_) => String::from_str(default),
    }
}

/// A numeric variable with its default.
fn number_var(env: &EnvVars, name: &str, default: u64, max: u64) -> (n: u64)
    requires
        default <= max,
    ensures
        n == numeric_var(env@, name@, default as nat, max as nat),
{
    let mut d = String::new();
    crate::text::push_decimal(&mut d, default);
    let text = text_var(env, name, d.as_str());
    match parse_bounded(text.as_str(), max) {
        Some(v) => v,
        None => default,
    }
}

/// Sizes and timing of the batch writer.
#[derive(Debug, Clone)]
pub struct BatchSettings {
    /// Events per batch (`BATCH_SIZE`, default 1000).
    pub batch_size: usize,
    /// Milliseconds between timed flushes (`FLUSH_INTERVAL_MS`, default 2000).
    pub flush_interval_ms: u64,
    /// Events the channel to the writer holds (`CHANNEL_CAPACITY`, default 10000).
    pub channel_capacity: usize,
}

/// Whether `s` holds the batch settings that `env` gives.
pub open spec fn batch_settings_of(env: EnvView, s: BatchSettings) -> bool {
    &&& s.batch_size == numeric_var(env, "BATCH_SIZE"@, 1000, usize::MAX as nat)
    &&& s.flush_interval_ms == numeric_var(env, "FLUSH_INTERVAL_MS"@, 2000, u64::MAX as nat)
    &&& s.channel_capacity == numeric_var(env, "CHANNEL_CAPACITY"@, 10000, usize::MAX as nat)
}

impl BatchSettings {
    /// Reads the batch settings; a variable that is unset or does not read as
    /// a number gives the default.
    pub fn from_env(env: &EnvVars) -> (res: Result<Self, VarError>)
        ensures
            res matches Ok(s) && batch_settings_of(env@, s),
    {
        let batch_size = number_var(env, "BATCH_SIZE", 1000, usize::MAX as u64) as usize;
        let flush_interval_ms = number_var(env, "FLUSH_INTERVAL_MS", 2000, u64::MAX);
        let channel_capacity = number_var(env, "CHANNEL_CAPACITY", 10000, usize::MAX as u64) as usize;
        Ok(BatchSettings { batch_size, flush_interval_ms, channel_capacity })
    }
}


/// The first error among the variables `names`, in order, if any.
pub open spec fn first_var_error(env: EnvView, names: Seq<Seq<char>>) -> Option<VarError>
    decreases names.len(),
{
    if names.len() == 0 {
        None
    } else {
        match env_var(env, names[0]) {
            Err(e) => Some(e),
            Ok(_) => first_var_error(env, names.drop_first()),
        }
    }
}

/// The value of a variable that has one.
pub open spec fn value_of(env: EnvView, name: Seq<char>) -> Seq<char> {
    env_var(env, name)->Ok_0
}

/// The variables that the Kafka settings require, in the order they are read.
pub open spec fn kafka_required_vars() -> Seq<Seq<char>> {
    seq![
        "KAFKA_BOOTSTRAP_SERVERS"@,
        "KAFKA_SECURITY_PROTOCOL"@,
        "KAFKA_SSL_CA_LOCATION"@,
        "KAFKA_SSL_CERTIFICATE_LOCATION"@,
        "KAFKA_SSL_KEY_LOCATION"@,
        "KAFKA_CONSUMER_GROUP"@,
        "KAFKA_TOPIC"@,
        "KAFKA_AUTO_OFFSET_RESET"@,
    ]
}

/// Connection settings of the Kafka consumer.
#[derive(Debug, Clone)]
pub struct KafkaSettings {
    pub bootstrap_servers: String,
    pub security_protocol: String,
    pub ssl_ca_location: String,
    pub ssl_certificate_location: String,
    pub ssl_key_location: String,
    pub consumer_group: String,
    pub topic: String,
    pub auto_offset_reset: String,
    pub session_timeout_ms: String,
    pub heartbeat_interval_ms: String,
}

/// The abstract content of [`KafkaSettings`].
pub struct KafkaSettingsView {
    pub bootstrap_servers: Seq<char>,
    pub security_protocol: Seq<char>,
    pub ssl_ca_location: Seq<char>,
    pub ssl_certificate_location: Seq<char>,
    pub ssl_key_location: Seq<char>,
    pub consumer_group: Seq<char>,
    pub topic: Seq<char>,
    pub auto_offset_reset: Seq<char>,
    pub session_timeout_ms: Seq<char>,
    pub heartbeat_interval_ms: Seq<char>,
}

impl View for KafkaSettings {
    type V = KafkaSettingsView;

    open spec fn view(&self) -> KafkaSettingsView {
        KafkaSettingsView {
            bootstrap_servers: self.bootstrap_servers@,
            security_protocol: self.security_protocol@,
            ssl_ca_location: self.ssl_ca_location@,
            ssl_certificate_location: self.ssl_certificate_location@,
            ssl_key_location: self.ssl_key_location@,
            consumer_group: self.consumer_group@,
            topic: self.topic@,
            auto_offset_reset: self.auto_offset_reset@,
            session_timeout_ms: self.session_timeout_ms@,
            heartbeat_interval_ms: self.heartbeat_interval_ms@,
        }
    }
}

/// The Kafka settings that an environment without missing variables gives.
pub open spec fn kafka_settings_of(env: EnvView) -> KafkaSettingsView {
    KafkaSettingsView {
        bootstrap_servers: value_of(env, "KAFKA_BOOTSTRAP_SERVERS"@),
        security_protocol: value_of(env, "KAFKA_SECURITY_PROTOCOL"@),
        ssl_ca_location: value_of(env, "KAFKA_SSL_CA_LOCATION"@),
        ssl_certificate_location: value_of(env, "KAFKA_SSL_CERTIFICATE_LOCATION"@),
        ssl_key_location: value_of(env, "KAFKA_SSL_KEY_LOCATION"@),
        consumer_group: value_of(env, "KAFKA_CONSUMER_GROUP"@),
        topic: value_of(env, "KAFKA_TOPIC"@),
        auto_offset_reset: value_of(env, "KAFKA_AUTO_OFFSET_RESET"@),
        session_timeout_ms: var_or(env, "KAFKA_SESSION_TIMEOUT_MS"@, "45000"@),
        heartbeat_interval_ms: var_or(env, "KAFKA_HEARTBEAT_INTERVAL_MS"@, "15000"@),
    }
}

/// The consumer configuration of the Kafka settings, as (key, value) pairs.
pub open spec fn kafka_config(k: KafkaSettingsView) -> Seq<(Seq<char>, Seq<char>)> {
    seq![
        ("bootstrap.servers"@, k.bootstrap_servers),
        ("security.protocol"@, k.security_protocol),
        ("ssl.ca.location"@, k.ssl_ca_location),
        ("ssl.certificate.location"@, k.ssl_certificate_location),
        ("ssl.key.location"@, k.ssl_key_location),
        ("group.id"@, k.consumer_group),
        ("auto.offset.reset"@, k.auto_offset_reset),
        ("enable.auto.commit"@, "true"@),
        ("session.timeout.ms"@, k.session_timeout_ms),
        ("heartbeat.interval.ms"@, k.heartbeat_interval_ms),
    ]
}

/// The value under `key` in a list of configuration pairs: the first pair
/// with that key decides.
pub open spec fn config_value(pairs: Seq<(Seq<char>, Seq<char>)>, key: Seq<char>) -> Option<
    Seq<char>,
>
    decreases pairs.len(),
{
    if pairs.len() == 0 {
        None
    } else if pairs[0].0 == key {
        Some(pairs[0].1)
    } else {
        config_value(pairs.drop_first(), key)
    }
}

/// Each key of the consumer configuration carries the setting of the same
/// name; auto-commit is switched on.
pub proof fn lemma_kafka_config_keys(k: KafkaSettingsView)
    ensures
        config_value(kafka_config(k), "bootstrap.servers"@) == Some(k.bootstrap_servers),
        config_value(kafka_config(k), "security.protocol"@) == Some(k.security_protocol),
        config_value(kafka_config(k), "ssl.ca.location"@) == Some(k.ssl_ca_location),
        config_value(kafka_config(k), "ssl.certificate.location"@) == Some(
            k.ssl_certificate_location,
        ),
        config_value(kafka_config(k), "ssl.key.location"@) == Some(k.ssl_key_location),
        config_value(kafka_config(k), "group.id"@) == Some(k.consumer_group),
        config_value(kafka_config(k), "auto.offset.reset"@) == Some(k.auto_offset_reset),
        config_value(kafka_config(k), "enable.auto.commit"@) == Some("true"@),
        config_value(kafka_config(k), "session.timeout.ms"@) == Some(k.session_timeout_ms),
        config_value(kafka_config(k), "heartbeat.interval.ms"@) == Some(k.heartbeat_interval_ms),
{
    reveal_strlit("bootstrap.servers");
    reveal_strlit("security.protocol");
    reveal_strlit("ssl.ca.location");
    reveal_strlit("ssl.certificate.location");
    reveal_strlit("ssl.key.location");
    reveal_strlit("group.id");
    reveal_strlit("auto.offset.reset");
    reveal_strlit("enable.auto.commit");
    reveal_strlit("session.timeout.ms");
    reveal_strlit("heartbeat.interval.ms");
    let c = kafka_config(k);
    let keys = c.map_values(|p: (Seq<char>, Seq<char>)| p.0);
    // Distinct keys: any two differ in one of their first six characters.
    assert(keys[0][0] == 'b' && keys[0][1] == 'o' && keys[0][2] == 'o'
        && keys[0][4] == 's' && keys[0][5] == 't');
    assert(keys[1][0] == 's' && keys[1][1] == 'e' && keys[1][2] == 'c'
        && keys[1][4] == 'r' && keys[1][5] == 'i');
    assert(keys[2][0] == 's' && keys[2][1] == 's' && keys[2][2] == 'l'
        && keys[2][4] == 'c' && keys[2][5] == 'a');
    assert(keys[3][0] == 's' && keys[3][1] == 's' && keys[3][2] == 'l'
        && keys[3][4] == 'c' && keys[3][5] == 'e');
    assert(keys[4][0] == 's' && keys[4][1] == 's' && keys[4][2] == 'l'
        && keys[4][4] == 'k' && keys[4][5] == 'e');
    assert(keys[5][0] == 'g' && keys[5][1] == 'r' && keys[5][2] == 'o'
        && keys[5][4] == 'p' && keys[5][5] == '.');
    assert(keys[6][0] == 'a' && keys[6][1] == 'u' && keys[6][2] == 't'
        && keys[6][4] == '.' && keys[6][5] == 'o');
    assert(keys[7][0] == 'e' && keys[7][1] == 'n' && keys[7][2] == 'a'
        && keys[7][4] == 'l' && keys[7][5] == 'e');
    assert(keys[8][0] == 's' && keys[8][1] == 'e' && keys[8][2] == 's'
        && keys[8][4] == 'i' && keys[8][5] == 'o');
    assert(keys[9][0] == 'h' && keys[9][1] == 'e' && keys[9][2] == 'a'
        && keys[9][4] == 't' && keys[9][5] == 'b');
    assert(c.drop_first()[0] == c[1]);
    reveal_with_fuel(config_value, 11);
    assert(c.drop_first().drop_first() =~= c.subrange(2, 10));
    assert(c.subrange(2, 10).drop_first() =~= c.subrange(3, 10));
    assert(c.subrange(3, 10).drop_first() =~= c.subrange(4, 10));
    assert(c.subrange(4, 10).drop_first() =~= c.subrange(5, 10));
    assert(c.subrange(5, 10).drop_first() =~= c.subrange(6, 10));
    assert(c.subrange(6, 10).drop_first() =~= c.subrange(7, 10));
    assert(c.subrange(7, 10).drop_first() =~= c.subrange(8, 10));
    assert(c.subrange(8, 10).drop_first() =~= c.subrange(9, 10));
}

fn required_var(env: &EnvVars, name: &str) -> (res: Result<String, VarError>)
    ensures
        match env_var(env@, name@) {
            Ok(v) => res matches Ok(s) && s@ == v,
            Err(e) => res == Err::<String, VarError>(e),
        },
{
    env.var(name)
}

impl KafkaSettings {
    /// Reads the Kafka settings: the first of the required variables that is
    /// unset or not Unicode fails the whole; the timeouts have defaults.
    pub fn from_env(env: &EnvVars) -> (res: Result<Self, VarError>)
        ensures
            match first_var_error(env@, kafka_required_vars()) {
                Some(e) => res == Err::<Self, VarError>(e),
                None => res matches Ok(k) && k@ == kafka_settings_of(env@),
            },
    {
        reveal_with_fuel(first_var_error, 9);
        let ghost names = kafka_required_vars();
        assert(names.drop_first() =~= names.subrange(1, 8));
        assert(names.subrange(1, 8).drop_first() =~= names.subrange(2, 8));
        assert(names.subrange(2, 8).drop_first() =~= names.subrange(3, 8));
        assert(names.subrange(3, 8).drop_first() =~= names.subrange(4, 8));
        assert(names.subrange(4, 8).drop_first() =~= names.subrange(5, 8));
        assert(names.subrange(5, 8).drop_first() =~= names.subrange(6, 8));
        assert(names.subrange(6, 8).drop_first() =~= names.subrange(7, 8));
        assert(names.subrange(7, 8).drop_first() =~= Seq::<Seq<char>>::empty());
        let bootstrap_servers = required_var(env, "KAFKA_BOOTSTRAP_SERVERS")?;
        let security_protocol = required_var(env, "KAFKA_SECURITY_PROTOCOL")?;
        let ssl_ca_location = required_var(env, "KAFKA_SSL_CA_LOCATION")?;
        let ssl_certificate_location = required_var(env, "KAFKA_SSL_CERTIFICATE_LOCATION")?;
        let ssl_key_location = required_var(env, "KAFKA_SSL_KEY_LOCATION")?;
        let consumer_group = required_var(env, "KAFKA_CONSUMER_GROUP")?;
        let topic = required_var(env, "KAFKA_TOPIC")?;
        let auto_offset_reset = required_var(env, "KAFKA_AUTO_OFFSET_RESET")?;
        let session_timeout_ms = text_var(env, "KAFKA_SESSION_TIMEOUT_MS", "45000");
        let heartbeat_interval_ms = text_var(env, "KAFKA_HEARTBEAT_INTERVAL_MS", "15000");
        Ok(KafkaSettings {
            bootstrap_servers,
            security_protocol,
            ssl_ca_location,
            ssl_certificate_location,
            ssl_key_location,
            consumer_group,
            topic,
            auto_offset_reset,
            session_timeout_ms,
            heartbeat_interval_ms,
        })
    }

    /// The consumer configuration, as (key, value) pairs.
    pub fn as_dict(&self) -> (pairs: Vec<(&str, &str)>)
        ensures
            pairs.len() == 10,
            forall|i: int|
                0 <= i < 10 ==> (#[trigger] pairs@[i].0@, pairs@[i].1@) == kafka_config(self@)[i],
    {
        let mut pairs: Vec<(&str, &str)> = Vec::new();
        pairs.push(("bootstrap.servers", self.bootstrap_servers.as_str()));
        pairs.push(("security.protocol", self.security_protocol.as_str()));
        pairs.push(("ssl.ca.location", self.ssl_ca_location.as_str()));
        pairs.push(("ssl.certificate.location", self.ssl_certificate_location.as_str()));
        pairs.push(("ssl.key.location", self.ssl_key_location.as_str()));
        pairs.push(("group.id", self.consumer_group.as_str()));
        pairs.push(("auto.offset.reset", self.auto_offset_reset.as_str()));
        pairs.push(("enable.auto.commit", "true"));
        pairs.push(("session.timeout.ms", self.session_timeout_ms.as_str()));
        pairs.push(("heartbeat.interval.ms", self.heartbeat_interval_ms.as_str()));
        pairs
    }
}


/// Connection settings of the TimescaleDB pool.
#[derive(Debug, Clone)]
pub struct TimeScale {
    /// `TIMESCALE_DATABASE_TIMEZONE`, default `Europe/Lisbon`; kept but unused.
    pub database_timezone: String,
    /// `TIMESCALE_CONNECTION`, required.
    pub connection: String,
    /// `DB_MAX_CONNECTIONS`, default 10.
    pub max_connections: u32,
    /// `DB_ACQUIRE_TIMEOUT_MS`, default 5000.
    pub acquire_timeout_ms: u64,
}

/// Whether `t` holds the database settings that `env` gives, where it sets
/// `TIMESCALE_CONNECTION`.
pub open spec fn timescale_settings_of(env: EnvView, t: TimeScale) -> bool {
    &&& env_var(env, "TIMESCALE_CONNECTION"@) == Ok::<Seq<char>, VarError>(t.connection@)
    &&& t.database_timezone@ == var_or(env, "TIMESCALE_DATABASE_TIMEZONE"@, "Europe/Lisbon"@)
    &&& t.max_connections == numeric_var(env, "DB_MAX_CONNECTIONS"@, 10, u32::MAX as nat)
    &&& t.acquire_timeout_ms == numeric_var(env, "DB_ACQUIRE_TIMEOUT_MS"@, 5000, u64::MAX as nat)
}

impl TimeScale {
    /// Reads the database settings; only `TIMESCALE_CONNECTION` is required.
    pub fn from_env(env: &EnvVars) -> (res: Result<Self, VarError>)
        ensures
            match env_var(env@, "TIMESCALE_CONNECTION"@) {
                Err(e) => res == Err::<Self, VarError>(e),
                Ok(_) => res matches Ok(t) && timescale_settings_of(env@, t),
            },
    {
        let database_timezone = text_var(env, "TIMESCALE_DATABASE_TIMEZONE", "Europe/Lisbon");
        let connection = required_var(env, "TIMESCALE_CONNECTION")?;
        let max_connections = number_var(env, "DB_MAX_CONNECTIONS", 10, u32::MAX as u64) as u32;
        let acquire_timeout_ms = number_var(env, "DB_ACQUIRE_TIMEOUT_MS", 5000, u64::MAX);
        Ok(TimeScale { database_timezone, connection, max_connections, acquire_timeout_ms })
    }

    /// The connection string for the pool: `connection` with its scheme
    /// `postgresql://` written as `postgresql://`, which leaves it unchanged.
    pub fn get_connection(&self) -> (url: String)
        ensures
            url@ == replace_all(self.connection@, "postgresql://"@, "postgresql://"@),
            url@ == self.connection@,
    {
        proof {
            reveal_strlit("postgresql://");
            lemma_replace_by_itself(self.connection@, "postgresql://"@);
        }
        replace_str(self.connection.as_str(), "postgresql://", "postgresql://")
    }
}

/// All settings of the service.
#[derive(Debug, Clone)]
pub struct Settings {
    /// `LOG_LEVEL`, default `INFO`.
    pub log_level: String,
    pub kafka: KafkaSettings,
    pub timescale: TimeScale,
    pub batch: BatchSettings,
}

impl Settings {
    /// Reads all settings; the Kafka settings are read before the database
    /// settings, and the first missing variable fails the whole.
    pub fn from_env(env: &EnvVars) -> (res: Result<Self, VarError>)
        ensures
            match first_var_error(env@, kafka_required_vars()) {
                Some(e) => res == Err::<Self, VarError>(e),
                None => match env_var(env@, "TIMESCALE_CONNECTION"@) {
                    Err(e) => res == Err::<Self, VarError>(e),
                    Ok(c) => res matches Ok(s) && s.log_level@ == var_or(
                        env@,
                        "LOG_LEVEL"@,
                        "INFO"@,
                    ) && s.kafka@ == kafka_settings_of(env@) && s.timescale.connection@ == c
                        && timescale_settings_of(env@, s.timescale) && batch_settings_of(
                        env@,
                        s.batch,
                    ),
                },
            },
    {
        let log_level = text_var(env, "LOG_LEVEL", "INFO");
        let kafka = KafkaSettings::from_env(env)?;
        let timescale = TimeScale::from_env(env)?;
        let batch = BatchSettings::from_env(env)?;
        Ok(Settings { log_level, kafka, timescale, batch })
    }
}


/// A numeric setting whose variable holds the decimal text of a number no
/// larger than its limit takes that number.
pub proof fn lemma_numeric_var_reads_value(
    env: EnvView,
    name: Seq<char>,
    default: nat,
    max: nat,
    n: nat,
)
    requires
        env_var(env, name) == Ok::<Seq<char>, VarError>(crate::text::decimal_digits(n)),
        n <= max,
    ensures
        numeric_var(env, name, default, max) == n,
{
    crate::text::lemma_decimal_round_trip(n);
}

/// Each batch setting is the number its variable holds, or its default
/// (1000, 2000, 10000) where the variable is unset or not Unicode.
pub proof fn lemma_batch_settings_follow_env(env: EnvView, s: BatchSettings, n: nat)
    requires
        batch_settings_of(env, s),
    ensures
        env_var(env, "BATCH_SIZE"@) == Ok::<Seq<char>, VarError>(crate::text::decimal_digits(n))
            && n <= usize::MAX ==> s.batch_size == n,
        env_var(env, "FLUSH_INTERVAL_MS"@) == Ok::<Seq<char>, VarError>(
            crate::text::decimal_digits(n),
        ) && n <= u64::MAX ==> s.flush_interval_ms == n,
        env_var(env, "CHANNEL_CAPACITY"@) == Ok::<Seq<char>, VarError>(
            crate::text::decimal_digits(n),
        ) && n <= usize::MAX ==> s.channel_capacity == n,
        env_var(env, "BATCH_SIZE"@) is Err ==> s.batch_size == 1000,
        env_var(env, "FLUSH_INTERVAL_MS"@) is Err ==> s.flush_interval_ms == 2000,
        env_var(env, "CHANNEL_CAPACITY"@) is Err ==> s.channel_capacity == 10000,
{
    crate::text::lemma_decimal_round_trip(n);
    crate::text::lemma_decimal_round_trip(1000);
    crate::text::lemma_decimal_round_trip(2000);
    crate::text::lemma_decimal_round_trip(10000);
}

/// The database settings take the connection string as set, the time zone
/// as set or `Europe/Lisbon`, and each number as its variable holds it or its
/// default (10 connections, 5000 ms).
pub proof fn lemma_timescale_settings_follow_env(env: EnvView, t: TimeScale, n: nat)
    requires
        timescale_settings_of(env, t),
    ensures
        env_var(env, "TIMESCALE_CONNECTION"@) == Ok::<Seq<char>, VarError>(t.connection@),
        env_var(env, "TIMESCALE_DATABASE_TIMEZONE"@) matches Ok(z) ==> t.database_timezone@ == z,
        env_var(env, "TIMESCALE_DATABASE_TIMEZONE"@) is Err ==> t.database_timezone@
            == "Europe/Lisbon"@,
        env_var(env, "DB_MAX_CONNECTIONS"@) == Ok::<Seq<char>, VarError>(
            crate::text::decimal_digits(n),
        ) && n <= u32::MAX ==> t.max_connections == n,
        env_var(env, "DB_ACQUIRE_TIMEOUT_MS"@) == Ok::<Seq<char>, VarError>(
            crate::text::decimal_digits(n),
        ) && n <= u64::MAX ==> t.acquire_timeout_ms == n,
        env_var(env, "DB_MAX_CONNECTIONS"@) is Err ==> t.max_connections == 10,
        env_var(env, "DB_ACQUIRE_TIMEOUT_MS"@) is Err ==> t.acquire_timeout_ms == 5000,
{
    crate::text::lemma_decimal_round_trip(n);
    crate::text::lemma_decimal_round_trip(10);
    crate::text::lemma_decimal_round_trip(5000);
}

/// In an environment that sets every required variable, each Kafka setting is
/// the value of its variable; the timeouts are their variables' values, or
/// `45000` and `15000` where unset.
pub proof fn lemma_kafka_settings_follow_env(env: EnvView)
    requires
        first_var_error(env, kafka_required_vars()) is None,
    ensures
        ({
            let k = kafka_settings_of(env);
            &&& env_var(env, "KAFKA_BOOTSTRAP_SERVERS"@) == Ok::<Seq<char>, VarError>(
                k.bootstrap_servers,
            )
            &&& env_var(env, "KAFKA_SECURITY_PROTOCOL"@) == Ok::<Seq<char>, VarError>(
                k.security_protocol,
            )
            &&& env_var(env, "KAFKA_SSL_CA_LOCATION"@) == Ok::<Seq<char>, VarError>(
                k.ssl_ca_location,
            )
            &&& env_var(env, "KAFKA_SSL_CERTIFICATE_LOCATION"@) == Ok::<Seq<char>, VarError>(
                k.ssl_certificate_location,
            )
            &&& env_var(env, "KAFKA_SSL_KEY_LOCATION"@) == Ok::<Seq<char>, VarError>(
                k.ssl_key_location,
            )
            &&& env_var(env, "KAFKA_CONSUMER_GROUP"@) == Ok::<Seq<char>, VarError>(
                k.consumer_group,
            )
            &&& env_var(env, "KAFKA_TOPIC"@) == Ok::<Seq<char>, VarError>(k.topic)
            &&& env_var(env, "KAFKA_AUTO_OFFSET_RESET"@) == Ok::<Seq<char>, VarError>(
                k.auto_offset_reset,
            )
            &&& env_var(env, "KAFKA_SESSION_TIMEOUT_MS"@) matches Ok(v) ==> k.session_timeout_ms
                == v
            &&& env_var(env, "KAFKA_SESSION_TIMEOUT_MS"@) is Err ==> k.session_timeout_ms
                == "45000"@
            &&& env_var(env, "KAFKA_HEARTBEAT_INTERVAL_MS"@) matches Ok(v)
                ==> k.heartbeat_interval_ms == v
            &&& env_var(env, "KAFKA_HEARTBEAT_INTERVAL_MS"@) is Err ==> k.heartbeat_interval_ms
                == "15000"@
        }),
{
    reveal_with_fuel(first_var_error, 9);
    let names = kafka_required_vars();
    assert(names.drop_first() =~= names.subrange(1, 8));
    assert(names.subrange(1, 8).drop_first() =~= names.subrange(2, 8));
    assert(names.subrange(2, 8).drop_first() =~= names.subrange(3, 8));
    assert(names.subrange(3, 8).drop_first() =~= names.subrange(4, 8));
    assert(names.subrange(4, 8).drop_first() =~= names.subrange(5, 8));
    assert(names.subrange(5, 8).drop_first() =~= names.subrange(6, 8));
    assert(names.subrange(6, 8).drop_first() =~= names.subrange(7, 8));
}

} // verus!
