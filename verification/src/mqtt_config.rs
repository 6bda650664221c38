//! Configuration for the MQTT sink: connection settings, quality of service,
//! and the construction of broker connector options.

use vstd::prelude::*;
use vstd::string::StringExecFns;

verus! {

/// Supported quality-of-service levels for MQTT delivery.
#[derive(Clone, Copy, Debug, PartialEq, Eq, Structural)]
pub enum MqttQoS {
    /// Deliver at least once; duplicates possible.
    AtLeastOnce,
    /// Deliver at most once; loss possible.
    AtMostOnce,
    /// Deliver exactly once.
    ExactlyOnce,
}

impl Default for MqttQoS {
    /// Exactly-once is the default service level.
    fn default() -> (r: Self)
        ensures
            r == MqttQoS::ExactlyOnce,
    {
        MqttQoS::ExactlyOnce
    }
}

/// How events handed to the sink are serialized for transmission.
#[derive(Clone, Copy, Debug, PartialEq, Eq, Structural)]
pub enum EncodingConfig {
    /// Serialize each event as JSON.
    Json,
    /// Serialize each event as plain text.
    Text,
    /// Pass each event's bytes through unchanged.
    Bytes,
}

/// End-to-end acknowledgement setting; `None` defers to the global default.
#[derive(Clone, Copy, Debug, PartialEq, Eq, Structural)]
pub struct AcknowledgementsConfig {
    /// Whether delivery is acknowledged end to end.
    pub enabled: Option<bool>,
}

/// TLS settings for the broker connection, with the certificate material
/// already loaded into memory.
#[derive(Debug)]
pub struct TlsEnableableConfig {
    /// Whether TLS is enabled; `None` leaves it off.
    pub enabled: Option<bool>,
    /// Certificate authorities, PEM-encoded.
    pub ca_pem: Vec<u8>,
}

/// Configuration for the MQTT sink.
#[derive(Debug)]
pub struct MqttSinkConfig {
    /// MQTT server address.
    pub host: String,
    /// TCP port.
    pub port: u16,
    /// MQTT username.
    pub user: Option<String>,
    /// MQTT password.
    pub password: Option<String>,
    /// MQTT client identifier.
    pub client_id: String,
    /// Connection keep-alive interval, in seconds.
    pub keep_alive: u16,
    /// Whether to discard session state on login.
    pub clean_session: bool,
    /// TLS settings, if the connection is encrypted.
    pub tls: Option<TlsEnableableConfig>,
    /// MQTT publish topic.
    pub topic: String,
    /// Serialization applied to outbound events.
    pub encoding: EncodingConfig,
    /// End-to-end acknowledgement setting.
    pub acknowledgements: AcknowledgementsConfig,
    /// Quality of service for publishing.
    pub quality_of_service: MqttQoS,
}

/// The default MQTT port.
pub fn default_port() -> (r: u16)
    ensures
        r == 1883,
{
    1883
}

/// The default keep-alive interval, in seconds.
pub fn default_keep_alive() -> (r: u16)
    ensures
        r == 60,
{
    60
}

/// By default the broker keeps session state across reconnects.
pub fn default_clean_session() -> (r: bool)
    ensures
        r == false,
{
    false
}

/// Relies on rand::random: draws a value from the thread-local generator;
/// nothing can be promised of the value drawn.
pub assume_specification<T>[ rand::random::<T> ]() -> (r: T)
    where
        rand::distributions::Standard: rand::distributions::Distribution<T>,
;

/// The sixteen lowercase hexadecimal digit characters.
pub open spec fn hex_digit_char(d: nat) -> char {
    if d == 0 {
        '0'
    } else if d == 1 {
        '1'
    } else if d == 2 {
        '2'
    } else if d == 3 {
        '3'
    } else if d == 4 {
        '4'
    } else if d == 5 {
        '5'
    } else if d == 6 {
        '6'
    } else if d == 7 {
        '7'
    } else if d == 8 {
        '8'
    } else if d == 9 {
        '9'
    } else if d == 10 {
        'a'
    } else if d == 11 {
        'b'
    } else if d == 12 {
        'c'
    } else if d == 13 {
        'd'
    } else if d == 14 {
        'e'
    } else {
        'f'
    }
}

/// Lowercase hexadecimal digits of a number, most significant first.
pub open spec fn hex_digits(n: nat) -> Seq<char>
    decreases n,
{
    if n < 16 {
        seq![hex_digit_char(n)]
    } else {
        hex_digits(n / 16).push(hex_digit_char(n % 16))
    }
}

/// A digit sequence left-padded with zeros to at least eight digits.
pub open spec fn zero_padded8(s: Seq<char>) -> Seq<char> {
    if s.len() >= 8 {
        s
    } else {
        Seq::new((8 - s.len()) as nat, |j: int| '0') + s
    }
}

/// The client identifier generated for a drawn number: a fixed prefix and the
/// number's hexadecimal digits, at least eight of them.
pub open spec fn client_id_of(n: u64) -> Seq<char> {
    "vector-"@ + zero_padded8(hex_digits(n as nat))
}

spec fn pow16(k: nat) -> nat
    decreases k,
{
    if k == 0 {
        1
    } else {
        16 * pow16((k - 1) as nat)
    }
}

proof fn lemma_hex_digits_len(n: nat, k: nat)
    requires
        k >= 1,
        n < pow16(k),
    ensures
        1 <= hex_digits(n).len() <= k,
    decreases k,
{
    if n < 16 {
    } else {
        assert(pow16(k) > 16);
        if k == 1 {
            assert(pow16(0) == 1);
            assert(pow16(1) == 16);
        }
        assert(pow16(k) == 16 * pow16((k - 1) as nat));
        assert(n / 16 < pow16((k - 1) as nat)) by (nonlinear_arith)
            requires
                n < 16 * pow16((k - 1) as nat),
        ;
        lemma_hex_digits_len(n / 16, (k - 1) as nat);
    }
}

/// A sixty-four bit number has at most sixteen hexadecimal digits.
proof fn lemma_hex_digits_len_u64(n: u64)
    ensures
        1 <= hex_digits(n as nat).len() <= 16,
{
    assert(pow16(0) == 1);
    assert(pow16(1) == 16);
    assert(pow16(2) == 0x100);
    assert(pow16(3) == 0x1000);
    assert(pow16(4) == 0x1_0000);
    assert(pow16(5) == 0x10_0000);
    assert(pow16(6) == 0x100_0000);
    assert(pow16(7) == 0x1000_0000);
    assert(pow16(8) == 0x1_0000_0000);
    assert(pow16(9) == 0x10_0000_0000);
    assert(pow16(10) == 0x100_0000_0000);
    assert(pow16(11) == 0x1000_0000_0000);
    assert(pow16(12) == 0x1_0000_0000_0000);
    assert(pow16(13) == 0x10_0000_0000_0000);
    assert(pow16(14) == 0x100_0000_0000_0000);
    assert(pow16(15) == 0x1000_0000_0000_0000);
    assert(pow16(16) == 0x1_0000_0000_0000_0000);
    lemma_hex_digits_len(n as nat, 16);
}

/// One lowercase hexadecimal digit as a string slice.
fn hex_digit_str(d: u64) -> (r: &'static str)
    requires
        d < 16,
    ensures
        r@ == seq![hex_digit_char(d as nat)],
{
    proof {
        reveal_strlit("0");
        reveal_strlit("1");
        reveal_strlit("2");
        reveal_strlit("3");
        reveal_strlit("4");
        reveal_strlit("5");
        reveal_strlit("6");
        reveal_strlit("7");
        reveal_strlit("8");
        reveal_strlit("9");
        reveal_strlit("a");
        reveal_strlit("b");
        reveal_strlit("c");
        reveal_strlit("d");
        reveal_strlit("e");
        reveal_strlit("f");
    }
    let r = if d == 0 {
        "0"
    } else if d == 1 {
        "1"
    } else if d == 2 {
        "2"
    } else if d == 3 {
        "3"
    } else if d == 4 {
        "4"
    } else if d == 5 {
        "5"
    } else if d == 6 {
        "6"
    } else if d == 7 {
        "7"
    } else if d == 8 {
        "8"
    } else if d == 9 {
        "9"
    } else if d == 10 {
        "a"
    } else if d == 11 {
        "b"
    } else if d == 12 {
        "c"
    } else if d == 13 {
        "d"
    } else if d == 14 {
        "e"
    } else {
        "f"
    };
    proof {
        assert(r@ =~= seq![hex_digit_char(d as nat)]);
    }
    r
}

/// Append a number's hexadecimal digits, most significant first.
fn push_hex(s: &mut String, n: u64)
    ensures
        final(s)@ == old(s)@ + hex_digits(n as nat),
    decreases n,
{
    if n >= 16 {
        push_hex(s, n / 16);
    }
    let ghost mid = s@;
    s.append(hex_digit_str(n % 16));
    proof {
        if n < 16 {
            assert(s@ =~= old(s)@ + hex_digits(n as nat));
        } else {
            assert(mid == old(s)@ + hex_digits((n / 16) as nat));
            assert(hex_digits(n as nat) == hex_digits((n as nat) / 16).push(
                hex_digit_char((n as nat) % 16),
            ));
            assert((n / 16) as nat == (n as nat) / 16);
            assert((n % 16) as nat == (n as nat) % 16);
            assert(s@ =~= old(s)@ + hex_digits(n as nat));
        }
    }
}

/// The number of hexadecimal digits of a number.
fn hex_len(n: u64) -> (r: usize)
    ensures
        r == hex_digits(n as nat).len(),
        1 <= r <= 16,
    decreases n,
{
    proof {
        lemma_hex_digits_len_u64(n);
    }
    if n < 16 {
        1
    } else {
        let rest = hex_len(n / 16);
        rest + 1
    }
}

/// A fresh client identifier: the fixed prefix and at least eight lowercase
/// hexadecimal digits of a number drawn at random, so that concurrently
/// connecting clients do not collide at the broker.
#[verifier::loop_isolation(false)]
pub fn default_client_id() -> (r: String)
    ensures
        exists|n: u64| r@ == client_id_of(n),
{
    let n: u64 = rand::random::<u64>();
    let mut s = String::from_str("vector-");
    let len = hex_len(n);
    let total_pad: usize = if len >= 8 {
        0
    } else {
        8 - len
    };
    let mut i: usize = 0;
    while i < total_pad
        invariant
            i <= total_pad,
            s@ == "vector-"@ + Seq::new(i as nat, |j: int| '0'),
        decreases total_pad - i,
    {
        proof {
            reveal_strlit("0");
        }
        let ghost mid = s@;
        s.append("0");
        proof {
            assert(s@ =~= "vector-"@ + Seq::new((i + 1) as nat, |j: int| '0'));
        }
        i = i + 1;
    }
    let ghost padded = s@;
    push_hex(&mut s, n);
    proof {
        if total_pad == 0 {
            assert(padded =~= "vector-"@ + Seq::new(0, |j: int| '0'));
            assert(zero_padded8(hex_digits(n as nat)) == hex_digits(n as nat));
            assert(s@ =~= client_id_of(n));
        } else {
            assert(zero_padded8(hex_digits(n as nat)) == Seq::new(
                (8 - hex_digits(n as nat).len()) as nat,
                |j: int| '0',
            ) + hex_digits(n as nat));
            assert(s@ =~= client_id_of(n));
        }
        assert(exists|m: u64| s@ == client_id_of(m)) by {
            assert(s@ == client_id_of(n));
        }
    }
    s
}

/// The plain connection settings an MQTT connector is built from, with every
/// decision of the configuration applied.
#[derive(Debug)]
pub struct MqttConnectorSettings {
    /// Client identifier the options are built with.
    pub client_id: String,
    /// Broker host.
    pub host: String,
    /// Broker port.
    pub port: u16,
    /// Keep-alive interval, in seconds.
    pub keep_alive_secs: u16,
    /// Whether session state is discarded on login.
    pub clean_session: bool,
    /// Username and password, present only when both are configured.
    pub credentials: Option<(String, String)>,
    /// Certificate authorities for a TLS transport, present only when TLS is
    /// enabled.
    pub tls_ca_pem: Option<Vec<u8>>,
}

/// Whether this configuration asks for a TLS transport.
pub open spec fn tls_enabled(tls: &Option<TlsEnableableConfig>) -> bool {
    match tls {
        Some(t) => t.enabled == Some(true),
        None => false,
    }
}

#[verifier::external_type_specification]
#[verifier::external_body]
pub struct ExMqttOptions(rumqttc::MqttOptions);

/// Broker client options, carrying beside the opaque options the plain
/// values that have been applied to them. The shadow fields are written only
/// by the trusted wrappers below, each of which applies a value to the real
/// options and records the same value here, so contracts over the view speak
/// of what the options really hold — in particular, of the client id they
/// were built with.
pub struct MqttClientOptions {
    inner: rumqttc::MqttOptions,
    client_id: String,
    host: String,
    port: u16,
    keep_alive_secs: u16,
    clean_session: bool,
    credentials: Option<(String, String)>,
    tls_ca_pem: Option<Vec<u8>>,
}

/// Mathematical model of assembled broker client options.
#[verifier::ext_equal]
pub ghost struct MqttOptionsModel {
    pub client_id: Seq<char>,
    pub host: Seq<char>,
    pub port: u16,
    pub keep_alive_secs: u16,
    pub clean_session: bool,
    pub credentials: Option<(Seq<char>, Seq<char>)>,
    pub tls_ca_pem: Option<Seq<u8>>,
}

impl View for MqttClientOptions {
    type V = MqttOptionsModel;

    closed spec fn view(&self) -> MqttOptionsModel {
        MqttOptionsModel {
            client_id: self.client_id@,
            host: self.host@,
            port: self.port,
            keep_alive_secs: self.keep_alive_secs,
            clean_session: self.clean_session,
            credentials: match self.credentials {
                Some((ref user, ref password)) => Some((user@, password@)),
                None => None,
            },
            tls_ca_pem: match self.tls_ca_pem {
                Some(ref ca) => Some(ca@),
                None => None,
            },
        }
    }
}

impl MqttClientOptions {
    /// The underlying broker client options, for handing to the client.
    pub fn raw(&self) -> &rumqttc::MqttOptions {
        &self.inner
    }
}

/// Relies on rumqttc::MqttOptions::new: builds connection options for this
/// client id, host and port. rumqttc validates nothing here and starts the
/// options with a sixty-second keep-alive, clean session on, no credentials
/// and a plain TCP transport; the id, host and port are recorded beside the
/// options.
#[verifier::external_body]
fn mqtt_options_new(client_id: &String, host: &String, port: u16) -> (r: MqttClientOptions)
    ensures
        r@ == (MqttOptionsModel {
            client_id: client_id@,
            host: host@,
            port,
            keep_alive_secs: 60,
            clean_session: true,
            credentials: None,
            tls_ca_pem: None,
        }),
{
    MqttClientOptions {
        inner: rumqttc::MqttOptions::new(client_id.as_str(), host.as_str(), port),
        client_id: client_id.clone(),
        host: host.clone(),
        port,
        keep_alive_secs: 60,
        clean_session: true,
        credentials: None,
        tls_ca_pem: None,
    }
}

/// Relies on rumqttc::MqttOptions::set_keep_alive: sets the keep-alive
/// interval. Whole seconds are always accepted; the call rejects only
/// sub-second intervals, which cannot be passed here.
#[verifier::external_body]
fn mqtt_set_keep_alive(options: &mut MqttClientOptions, secs: u16)
    ensures
        final(options)@ == (MqttOptionsModel { keep_alive_secs: secs, ..old(options)@ }),
{
    options.inner.set_keep_alive(std::time::Duration::from_secs(secs as u64));
    options.keep_alive_secs = secs;
}

/// Relies on rumqttc::MqttOptions::set_clean_session, which panics when
/// clean session is switched off while the options' client id is empty: the
/// precondition speaks of the client id recorded when the options were
/// built, which is the id they hold.
#[verifier::external_body]
fn mqtt_set_clean_session(options: &mut MqttClientOptions, clean_session: bool)
    requires
        clean_session || old(options)@.client_id.len() > 0,
    ensures
        final(options)@ == (MqttOptionsModel { clean_session, ..old(options)@ }),
{
    options.inner.set_clean_session(clean_session);
    options.clean_session = clean_session;
}

/// Relies on rumqttc::MqttOptions::set_credentials: stores the username and
/// password for the connection.
#[verifier::external_body]
fn mqtt_set_credentials(options: &mut MqttClientOptions, user: &String, password: &String)
    ensures
        final(options)@ == (MqttOptionsModel {
            credentials: Some((user@, password@)),
            ..old(options)@
        }),
{
    options.inner.set_credentials(user.as_str(), password.as_str());
    options.credentials = Some((user.clone(), password.clone()));
}

/// Relies on rumqttc::MqttOptions::set_transport: switches the connection to
/// TLS with these certificate authorities and application protocols, and no
/// client authentication. The certificate material is recorded beside the
/// options; the protocol list is not modeled.
#[verifier::external_body]
fn mqtt_set_transport_tls(
    options: &mut MqttClientOptions,
    ca: Vec<u8>,
    alpn: Vec<Vec<u8>>,
)
    ensures
        final(options)@ == (MqttOptionsModel { tls_ca_pem: Some(ca@), ..old(options)@ }),
{
    options.inner.set_transport(rumqttc::Transport::Tls(rumqttc::TlsConfiguration::Simple {
        ca: ca.clone(),
        client_auth: None,
        alpn: Some(alpn),
    }));
    options.tls_ca_pem = Some(ca);
}

/// A failure while assembling the MQTT connector.
#[derive(Clone, Copy, Debug, PartialEq, Eq, Structural)]
pub enum MqttError {
    /// The TLS settings could not be applied.
    Tls,
}

/// A configured broker connector: the assembled client options and the
/// publish topic.
pub struct MqttConnector {
    /// Connection options for the broker client.
    pub options: MqttClientOptions,
    /// Topic events are published to.
    pub topic: String,
}

impl MqttSinkConfig {
    /// This sink's end-to-end acknowledgement setting.
    pub fn acknowledgements(&self) -> (r: &AcknowledgementsConfig)
        ensures
            r == &self.acknowledgements,
    {
        &self.acknowledgements
    }

    /// The plain connection settings this configuration decides on:
    /// credentials are used only when both a username and a password are
    /// configured, and a TLS transport only when TLS is present and enabled.
    pub fn connector_settings(&self) -> (s: MqttConnectorSettings)
        ensures
            s.client_id@ == self.client_id@,
            s.host@ == self.host@,
            s.port == self.port,
            s.keep_alive_secs == self.keep_alive,
            s.clean_session == self.clean_session,
            match (&self.user, &self.password) {
                (Some(u), Some(p)) => {
                    &&& s.credentials is Some
                    &&& s.credentials->Some_0.0@ == u@
                    &&& s.credentials->Some_0.1@ == p@
                },
                _ => s.credentials is None,
            },
            tls_enabled(&self.tls) ==> {
                &&& s.tls_ca_pem is Some
                &&& s.tls_ca_pem->Some_0@ == self.tls->Some_0.ca_pem@
            },
            !tls_enabled(&self.tls) ==> s.tls_ca_pem is None,
    {
        let credentials = match (&self.user, &self.password) {
            (Some(user), Some(password)) => Some((user.clone(), password.clone())),
            _ => None,
        };
        let tls_ca_pem = match &self.tls {
            Some(tls) => match tls.enabled {
                Some(true) => Some(tls.ca_pem.clone()),
                _ => None,
            },
            None => None,
        };
        MqttConnectorSettings {
            client_id: self.client_id.clone(),
            host: self.host.clone(),
            port: self.port,
            keep_alive_secs: self.keep_alive,
            clean_session: self.clean_session,
            credentials,
            tls_ca_pem,
        }
    }

    /// The options model this configuration decides on: its connection
    /// values as given, credentials only when both parts are configured, and
    /// TLS certificate material only when TLS is present and enabled.
    pub open spec fn decided_options(&self) -> MqttOptionsModel {
        MqttOptionsModel {
            client_id: self.client_id@,
            host: self.host@,
            port: self.port,
            keep_alive_secs: self.keep_alive,
            clean_session: self.clean_session,
            credentials: match (self.user, self.password) {
                (Some(user), Some(password)) => Some((user@, password@)),
                _ => None,
            },
            tls_ca_pem: if tls_enabled(&self.tls) {
                Some(self.tls->Some_0.ca_pem@)
            } else {
                None
            },
        }
    }

    /// Assemble the broker connector: client options carrying every decided
    /// setting, and the publish topic. Requires a client id whenever session
    /// state is to be kept, as the broker needs one to hold state against.
    pub fn build_connector(&self) -> (r: Result<MqttConnector, MqttError>)
        requires
            self.clean_session || self.client_id@.len() > 0,
        ensures
            r is Ok,
            r->Ok_0.topic@ == self.topic@,
            r->Ok_0.options@ == self.decided_options(),
    {
        let settings = self.connector_settings();
        let mut options = mqtt_options_new(&settings.client_id, &settings.host, settings.port);
        mqtt_set_keep_alive(&mut options, settings.keep_alive_secs);
        mqtt_set_clean_session(&mut options, settings.clean_session);
        match settings.credentials {
            Some((user, password)) => {
                mqtt_set_credentials(&mut options, &user, &password);
            },
            None => {},
        }
        match settings.tls_ca_pem {
            Some(ca) => {
                // The application protocol name "mqtt", byte by byte.
                let mut alpn: Vec<Vec<u8>> = Vec::new();
                let mut proto: Vec<u8> = Vec::new();
                proto.push(109);
                proto.push(113);
                proto.push(116);
                proto.push(116);
                alpn.push(proto);
                mqtt_set_transport_tls(&mut options, ca, alpn);
            },
            None => {},
        }
        proof {
            assert(options@ =~= self.decided_options());
        }
        Ok(MqttConnector { options, topic: self.topic.clone() })
    }
}

impl MqttSinkConfig {
    /// An example configuration: the local broker on the default port, no
    /// credentials and no TLS, a freshly drawn client id, JSON encoding, and
    /// the default service level.
    pub fn generate_config() -> (r: MqttSinkConfig)
        ensures
            r.host@ == "localhost"@,
            r.port == 1883,
            r.user is None,
            r.password is None,
            (exists|n: u64| r.client_id@ == client_id_of(n)),
            r.keep_alive == 60,
            r.clean_session == false,
            r.tls is None,
            r.topic@ == "vector"@,
            r.encoding == EncodingConfig::Json,
            r.acknowledgements.enabled is None,
            r.quality_of_service == MqttQoS::ExactlyOnce,
    {
        MqttSinkConfig {
            host: String::from_str("localhost"),
            port: default_port(),
            user: None,
            password: None,
            client_id: default_client_id(),
            keep_alive: default_keep_alive(),
            clean_session: default_clean_session(),
            tls: None,
            topic: String::from_str("vector"),
            encoding: EncodingConfig::Json,
            acknowledgements: AcknowledgementsConfig { enabled: None },
            quality_of_service: MqttQoS::default(),
        }
    }
}

} // verus!
