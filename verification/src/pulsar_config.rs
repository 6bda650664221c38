//! Configuration for the Pulsar source: connection, subscription and
//! authentication settings, and the decisions that turn them into consumer
//! settings for the broker client.

use vstd::prelude::*;
use vstd::string::StringExecFns;

verus! {

/// How raw message payloads are framed into records.
#[derive(Clone, Copy, Debug, PartialEq, Eq, Structural)]
pub enum FramingConfig {
    /// Each message is one frame.
    Bytes,
    /// Frames are separated by newlines.
    NewlineDelimited,
}

/// How each framed record is deserialized into events.
#[derive(Clone, Copy, Debug, PartialEq, Eq, Structural)]
pub enum DeserializerConfig {
    /// Keep the raw bytes.
    Bytes,
    /// Parse each record as JSON.
    Json,
}

/// End-to-end acknowledgement setting for a source; `None` defers to the
/// global default.
#[derive(Clone, Copy, Debug, PartialEq, Eq, Structural)]
pub struct SourceAcknowledgementsConfig {
    /// Whether messages are acknowledged only after downstream delivery.
    pub enabled: Option<bool>,
}

/// OAuth2 authentication settings.
#[derive(Debug)]
pub struct OAuth2Config {
    /// The issuer URL.
    pub issuer_url: String,
    /// The credentials URL; a data URL is also supported.
    pub credentials_url: String,
    /// The OAuth2 audience.
    pub audience: Option<String>,
    /// The OAuth2 scope.
    pub scope: Option<String>,
}

/// Authentication settings: either a name/token pair or OAuth2, never both.
#[derive(Debug)]
pub struct AuthConfig {
    /// Basic or JWT authentication name.
    pub name: Option<String>,
    /// Basic authentication password, or the signed JWT.
    pub token: Option<String>,
    /// OAuth2 settings.
    pub oauth2: Option<OAuth2Config>,
}

/// Dead-letter queue policy.
#[derive(Debug)]
pub struct DeadLetterQueuePolicy {
    /// How often a message is redelivered before it goes to the dead-letter
    /// topic.
    pub max_redeliver_count: usize,
    /// The topic failing messages are sent to.
    pub dead_letter_topic: String,
}

/// Configuration for the Pulsar source.
#[derive(Debug)]
pub struct PulsarSourceConfig {
    /// The endpoint the client connects to.
    pub endpoint: String,
    /// The topic names to read events from.
    pub topics: Vec<String>,
    /// The consumer name.
    pub consumer_name: Option<String>,
    /// The subscription name.
    pub subscription_name: Option<String>,
    /// Priority given to this consumer by the broker when dispatching, lower
    /// values first.
    pub priority_level: Option<i32>,
    /// Maximum count of messages in a batch.
    pub batch_size: Option<u32>,
    /// Authentication settings.
    pub auth: Option<AuthConfig>,
    /// Dead-letter queue policy.
    pub dead_letter_queue_policy: Option<DeadLetterQueuePolicy>,
    /// Framing applied to raw payloads.
    pub framing: FramingConfig,
    /// Deserialization applied to framed records.
    pub decoding: DeserializerConfig,
    /// End-to-end acknowledgement setting.
    pub acknowledgements: SourceAcknowledgementsConfig,
    /// Log namespace override for this source.
    pub log_namespace: Option<bool>,
}

impl DeserializerConfig {
    /// The kind of events this deserializer produces.
    pub open spec fn output_type(&self) -> DataType {
        DataType::Log
    }

    /// The kind of events this deserializer produces.
    pub fn output_type_exec(&self) -> (r: DataType)
        ensures
            r == self.output_type(),
    {
        DataType::Log
    }
}

/// The framing used by default for message-based sources.
pub fn default_framing_message_based() -> (r: FramingConfig)
    ensures
        r == FramingConfig::Bytes,
{
    FramingConfig::Bytes
}

/// The deserializer used by default.
pub fn default_decoding() -> (r: DeserializerConfig)
    ensures
        r == DeserializerConfig::Bytes,
{
    DeserializerConfig::Bytes
}

impl Default for PulsarSourceConfig {
    /// An empty configuration with the default framing and decoding.
    fn default() -> (r: Self)
        ensures
            r.endpoint@ == Seq::<char>::empty(),
            r.topics.deep_view() == Seq::<Seq<char>>::empty(),
            r.consumer_name is None,
            r.subscription_name is None,
            r.priority_level is None,
            r.batch_size is None,
            r.auth is None,
            r.dead_letter_queue_policy is None,
            r.framing == FramingConfig::Bytes,
            r.decoding == DeserializerConfig::Bytes,
            r.acknowledgements.enabled is None,
            r.log_namespace is None,
    {
        let r = PulsarSourceConfig {
            endpoint: String::new(),
            topics: Vec::new(),
            consumer_name: None,
            subscription_name: None,
            priority_level: None,
            batch_size: None,
            auth: None,
            dead_letter_queue_policy: None,
            framing: default_framing_message_based(),
            decoding: default_decoding(),
            acknowledgements: SourceAcknowledgementsConfig { enabled: None },
            log_namespace: None,
        };
        proof {
            assert(r.topics.deep_view() =~= Seq::<Seq<char>>::empty());
        }
        r
    }
}

/// A failure while assembling the consumer.
#[derive(Clone, Copy, Debug, PartialEq, Eq, Structural)]
pub enum PulsarSourceError {
    /// The authentication settings name neither a complete name/token pair
    /// nor an OAuth2 configuration.
    InvalidAuthConfiguration,
}

impl PulsarSourceError {
    /// The error's text.
    pub fn message(&self) -> (r: String)
        ensures
            self is InvalidAuthConfiguration ==> r@
                == "Invalid auth config: can only specify name and token or oauth2 configuration"@,
    {
        String::from_str(
            "Invalid auth config: can only specify name and token or oauth2 configuration",
        )
    }
}

/// The authentication a consumer is built with.
#[derive(Debug)]
pub enum AuthMode {
    /// No authentication.
    Anonymous,
    /// Name and token authentication, for basic or JWT credentials.
    Basic {
        /// Authentication name.
        name: String,
        /// Password or signed JWT.
        token: String,
    },
    /// OAuth2 client-credentials authentication.
    OAuth2 {
        /// The issuer URL.
        issuer_url: String,
        /// The credentials URL.
        credentials_url: String,
        /// The OAuth2 audience.
        audience: Option<String>,
        /// The OAuth2 scope.
        scope: Option<String>,
    },
}

/// The subscription types a consumer can be built with.
#[derive(Clone, Copy, Debug, PartialEq, Eq, Structural)]
pub enum SubscriptionType {
    /// Messages are shared among this subscription's consumers.
    Shared,
}

/// The kind of events an output of the source carries.
#[derive(Clone, Copy, Debug, PartialEq, Eq, Structural)]
pub enum DataType {
    /// Log events.
    Log,
}

/// One output the source exposes to the surrounding topology.
#[derive(Clone, Copy, Debug, PartialEq, Eq, Structural)]
pub struct SourceOutput {
    /// The kind of events the output carries.
    pub data_type: DataType,
    /// The namespace the output's event metadata lives under.
    pub log_namespace: LogNamespace,
}

/// The plain settings a Pulsar consumer is built from, with every decision of
/// the configuration applied.
#[derive(Debug)]
pub struct ConsumerSettings {
    /// The endpoint the client connects to.
    pub endpoint: String,
    /// Topics subscribed to.
    pub topics: Vec<String>,
    /// Authentication to present.
    pub auth: AuthMode,
    /// Subscription type.
    pub subscription_type: SubscriptionType,
    /// Consumer priority, if one is set.
    pub priority_level: Option<i32>,
    /// Batch size, if one is set.
    pub batch_size: Option<u32>,
    /// Consumer name, if one is set.
    pub consumer_name: Option<String>,
    /// Subscription name, if one is set.
    pub subscription_name: Option<String>,
    /// Dead-letter policy, if one is set.
    pub dead_letter_policy: Option<DeadLetterQueuePolicy>,
}

/// The authentication mode that acceptable settings select: no settings
/// select no authentication; a name/token pair selects name/token
/// authentication carrying exactly that pair; an OAuth2 configuration
/// selects OAuth2 authentication carrying exactly its fields.
pub open spec fn selected_auth(auth: Option<AuthConfig>, mode: AuthMode) -> bool {
    match auth {
        None => mode is Anonymous,
        Some(a) => {
            &&& (a.name is Some && a.token is Some && a.oauth2 is None) ==> {
                &&& mode is Basic
                &&& mode->Basic_name@ == a.name->Some_0@
                &&& mode->Basic_token@ == a.token->Some_0@
            }
            &&& (a.name is None && a.token is None && a.oauth2 is Some) ==> {
                &&& mode is OAuth2
                &&& mode->OAuth2_issuer_url@ == a.oauth2->Some_0.issuer_url@
                &&& mode->OAuth2_credentials_url@ == a.oauth2->Some_0.credentials_url@
                &&& match a.oauth2->Some_0.audience {
                    Some(audience) => mode->OAuth2_audience is Some
                        && mode->OAuth2_audience->Some_0@ == audience@,
                    None => mode->OAuth2_audience is None,
                }
                &&& match a.oauth2->Some_0.scope {
                    Some(scope) => mode->OAuth2_scope is Some && mode->OAuth2_scope->Some_0@
                        == scope@,
                    None => mode->OAuth2_scope is None,
                }
            }
        },
    }
}

/// Whether authentication settings are acceptable: absent, a complete
/// name/token pair alone, or an OAuth2 configuration alone.
pub open spec fn auth_config_valid(auth: &Option<AuthConfig>) -> bool {
    match auth {
        Some(a) => {
            ||| (a.name is Some && a.token is Some && a.oauth2 is None)
            ||| (a.name is None && a.token is None && a.oauth2 is Some)
        },
        None => true,
    }
}

/// Clone a list of strings, keeping the contents.
fn clone_strings(v: &Vec<String>) -> (r: Vec<String>)
    ensures
        r.deep_view() == v.deep_view(),
{
    let mut r: Vec<String> = Vec::new();
    let n = v.len();
    let mut i: usize = 0;
    while i < n
        invariant
            n == v.len(),
            i <= n,
            r.deep_view() == v.deep_view().take(i as int),
        decreases n - i,
    {
        let s = v[i].clone();
        let ghost pre_deep = r.deep_view();
        let ghost pre_view = r@;
        let ghost s_view = s@;
        let ghost s_val = s;
        proof {
            assert(s@ == v@[i as int]@);
            assert(v.deep_view()[i as int] == v@[i as int]@);
        }
        r.push(s);
        proof {
            assert(pre_deep.len() == pre_view.len());
            assert(pre_view.len() == i);
            assert(r@ == pre_view.push(s_val));
            assert forall|j: int| 0 <= j < i + 1 implies r.deep_view()[j] == v.deep_view().take(
                i + 1,
            )[j] by {
                if j < i {
                    assert(r@[j] == pre_view[j]);
                    assert(r.deep_view()[j] == pre_deep[j]);
                } else {
                    assert(r@[j] == s_val);
                    assert(r.deep_view()[j] == s_view);
                }
            }
            assert(r.deep_view() =~= v.deep_view().take(i + 1));
        }
        i = i + 1;
    }
    proof {
        assert(v.deep_view().take(n as int) =~= v.deep_view());
    }
    r
}


/// Which namespace ingested log events carry their metadata under.
#[derive(Clone, Copy, Debug, PartialEq, Eq, Structural)]
pub enum LogNamespace {
    /// Metadata lives beside the event fields, as older deployments expect.
    Legacy,
    /// Metadata lives in a namespaced section of its own.
    Vector,
}

impl LogNamespace {
    /// The namespace a source resolves to: its own override when one is set,
    /// the global setting otherwise.
    pub fn merge(self, source_override: Option<bool>) -> (r: LogNamespace)
        ensures
            source_override == Some(true) ==> r == LogNamespace::Vector,
            source_override == Some(false) ==> r == LogNamespace::Legacy,
            source_override is None ==> r == self,
    {
        match source_override {
            Some(true) => LogNamespace::Vector,
            Some(false) => LogNamespace::Legacy,
            None => self,
        }
    }
}

impl PulsarSourceConfig {
    /// This source can acknowledge messages to the broker.
    pub fn can_acknowledge(&self) -> (b: bool)
        ensures
            b == true,
    {
        true
    }


    /// The outputs this source exposes: exactly one, carrying log events —
    /// every configured deserializer decodes to logs — under the namespace
    /// resolved from the global setting and this source's override.
    pub fn outputs(&self, global_log_namespace: LogNamespace) -> (r: Vec<SourceOutput>)
        ensures
            r@.len() == 1,
            r@[0].data_type == self.decoding.output_type(),
            r@[0].log_namespace == (match self.log_namespace {
                Some(true) => LogNamespace::Vector,
                Some(false) => LogNamespace::Legacy,
                None => global_log_namespace,
            }),
    {
        let log_namespace = global_log_namespace.merge(self.log_namespace);
        vec![SourceOutput { data_type: self.decoding.output_type_exec(), log_namespace }]
    }

    /// Whether this source runs with end-to-end acknowledgements: its own
    /// setting when one is present, the global default otherwise.
    pub fn do_acknowledgements(&self, global_enabled: bool) -> (b: bool)
        ensures
            b == (match self.acknowledgements.enabled {
                Some(enabled) => enabled,
                None => global_enabled,
            }),
    {
        match self.acknowledgements.enabled {
            Some(enabled) => enabled,
            None => global_enabled,
        }
    }

    /// The authentication the configuration selects: none when no settings
    /// are present, name/token when exactly that pair is given, OAuth2 when
    /// exactly an OAuth2 configuration is given, and an error for every other
    /// combination.
    pub fn auth_mode(&self) -> (r: Result<AuthMode, PulsarSourceError>)
        ensures
            r is Ok <==> auth_config_valid(&self.auth),
            r is Err ==> r->Err_0 == PulsarSourceError::InvalidAuthConfiguration,
            r is Ok ==> selected_auth(self.auth, r->Ok_0),
    {
        match &self.auth {
            None => Ok(AuthMode::Anonymous),
            Some(auth) => match (&auth.name, &auth.token, &auth.oauth2) {
                (Some(name), Some(token), None) => Ok(AuthMode::Basic {
                    name: name.clone(),
                    token: token.clone(),
                }),
                (None, None, Some(oauth2)) => Ok(AuthMode::OAuth2 {
                    issuer_url: oauth2.issuer_url.clone(),
                    credentials_url: oauth2.credentials_url.clone(),
                    audience: match &oauth2.audience {
                        Some(audience) => Some(audience.clone()),
                        None => None,
                    },
                    scope: match &oauth2.scope {
                        Some(scope) => Some(scope.clone()),
                        None => None,
                    },
                }),
                _ => Err(PulsarSourceError::InvalidAuthConfiguration),
            },
        }
    }

    /// The consumer settings this configuration decides on: a shared
    /// subscription over the configured topics, the configured authentication,
    /// and every optional setting passed through exactly when it is present.
    /// Fails if and only if the authentication settings are invalid.
    pub fn consumer_settings(&self) -> (r: Result<ConsumerSettings, PulsarSourceError>)
        ensures
            r is Ok <==> auth_config_valid(&self.auth),
            r is Err ==> r->Err_0 == PulsarSourceError::InvalidAuthConfiguration,
            r is Ok ==> {
                let s = r->Ok_0;
                &&& s.endpoint@ == self.endpoint@
                &&& s.topics.deep_view() == self.topics.deep_view()
                &&& selected_auth(self.auth, s.auth)
                &&& s.subscription_type == SubscriptionType::Shared
                &&& s.priority_level == self.priority_level
                &&& s.batch_size == self.batch_size
                &&& match self.consumer_name {
                    Some(ref n) => s.consumer_name is Some && s.consumer_name->Some_0@ == n@,
                    None => s.consumer_name is None,
                }
                &&& match self.subscription_name {
                    Some(ref n) => s.subscription_name is Some && s.subscription_name->Some_0@
                        == n@,
                    None => s.subscription_name is None,
                }
                &&& match self.dead_letter_queue_policy {
                    Some(ref p) => {
                        &&& s.dead_letter_policy is Some
                        &&& s.dead_letter_policy->Some_0.max_redeliver_count
                            == p.max_redeliver_count
                        &&& s.dead_letter_policy->Some_0.dead_letter_topic@ == p.dead_letter_topic@
                    },
                    None => s.dead_letter_policy is None,
                }
            },
    {
        let auth = match self.auth_mode() {
            Ok(auth) => auth,
            Err(e) => {
                return Err(e);
            },
        };
        Ok(ConsumerSettings {
            endpoint: self.endpoint.clone(),
            topics: clone_strings(&self.topics),
            auth,
            subscription_type: SubscriptionType::Shared,
            priority_level: self.priority_level,
            batch_size: self.batch_size,
            consumer_name: match &self.consumer_name {
                Some(name) => Some(name.clone()),
                None => None,
            },
            subscription_name: match &self.subscription_name {
                Some(name) => Some(name.clone()),
                None => None,
            },
            dead_letter_policy: match &self.dead_letter_queue_policy {
                Some(policy) => Some(DeadLetterQueuePolicy {
                    max_redeliver_count: policy.max_redeliver_count,
                    dead_letter_topic: policy.dead_letter_topic.clone(),
                }),
                None => None,
            },
        })
    }
}

} // verus!
