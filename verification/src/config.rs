//! The configuration of a deployment: the agent, the pipeline and its providers,
//! the transport, and the HTTP server.

use crate::json::{json_of_text, json_of_yaml, FieldsV, Json, JsonMap, JsonV};
use crate::text::{join2, join3, same};
use vstd::prelude::*;
use vstd::string::StringExecFns;

verus! {

/// A provider with its model, key and options.
#[derive(Debug, Clone)]
pub struct ProviderSpec {
    pub provider: String,
    pub model: String,
    /// Never part of a configuration file; filled in from the environment.
    pub api_key: String,
    pub options: JsonMap,
}

/// The view of a [`ProviderSpec`].
#[verifier::ext_equal]
pub struct ProviderSpecV {
    pub provider: Seq<char>,
    pub model: Seq<char>,
    pub api_key: Seq<char>,
    pub options: FieldsV,
}

impl View for ProviderSpec {
    type V = ProviderSpecV;

    open spec fn view(&self) -> ProviderSpecV {
        ProviderSpecV {
            provider: self.provider@,
            model: self.model@,
            api_key: self.api_key@,
            options: self.options@,
        }
    }
}

/// The agent: its graph, by path or inline, and the variables of a run.
#[derive(Debug, Clone)]
pub struct AgentConfig {
    /// The path of a graph document, relative to the configuration file.
    pub graph: Option<String>,
    /// A graph document; it comes before [`AgentConfig::graph`].
    pub graph_inline: Option<Json>,
    /// The variables that a run starts with.
    pub seed_vars: JsonMap,
}

/// The shape of the pipeline.
#[derive(Debug, Clone)]
pub enum TopologyConfig {
    /// Speech to speech by one provider.
    Realtime {
        provider: String,
        /// Empty for the provider's default.
        model: String,
        options: JsonMap,
    },
    /// Speech to text, a language model, and text to speech.
    Cascaded { stt: ProviderSpec, llm: ProviderSpec, tts: ProviderSpec },
}

/// The provider of a realtime pipeline that names none.
pub fn default_realtime_provider() -> (r: String)
    ensures
        r@ == "gemini"@,
{
    String::from_str("gemini")
}

/// Where calls arrive from.
#[derive(Debug, Clone)]
pub struct TransportConfig {
    /// `webrtc`, `ws-plivo`, `sip` or `local`.
    pub kind: String,
}

/// The transport of a configuration that names none.
pub fn default_transport_kind() -> (r: String)
    ensures
        r@ == "webrtc"@,
{
    String::from_str("webrtc")
}

impl Default for TransportConfig {
    fn default() -> (r: Self)
        ensures
            r.kind@ == "webrtc"@,
    {
        TransportConfig { kind: default_transport_kind() }
    }
}

/// The HTTP server.
#[derive(Debug, Clone)]
pub struct HttpConfig {
    /// The address to bind.
    pub bind: String,
}

/// The address of a configuration that names none.
pub fn default_bind() -> (r: String)
    ensures
        r@ == "0.0.0.0:6210"@,
{
    String::from_str("0.0.0.0:6210")
}

impl Default for HttpConfig {
    fn default() -> (r: Self)
        ensures
            r.bind@ == "0.0.0.0:6210"@,
    {
        HttpConfig { bind: default_bind() }
    }
}

/// One deployment of one agent.
#[derive(Debug, Clone)]
pub struct ServerConfig {
    pub agent: AgentConfig,
    pub topology: TopologyConfig,
    pub transport: TransportConfig,
    pub server: HttpConfig,
}

// ── Errors ────────────────────────────────────────────────────────────────

/// Why a configuration cannot be used.
#[derive(Debug)]
pub enum ConfigError {
    /// A file could not be read.
    Read {
        path: String,
        /// What the system said.
        source: String,
    },
    /// The configuration or the graph document could not be parsed.
    Parse { path: String, msg: String },
    /// The graph is not given.
    Graph(String),
}

/// The view of a [`ConfigError`].
pub enum ConfigErrorV {
    Read { path: Seq<char>, source: Seq<char> },
    Parse { path: Seq<char>, msg: Seq<char> },
    Graph(Seq<char>),
}

impl View for ConfigError {
    type V = ConfigErrorV;

    open spec fn view(&self) -> ConfigErrorV {
        match self {
            ConfigError::Read { path, source } => ConfigErrorV::Read {
                path: path@,
                source: source@,
            },
            ConfigError::Parse { path, msg } => ConfigErrorV::Parse { path: path@, msg: msg@ },
            ConfigError::Graph(m) => ConfigErrorV::Graph(m@),
        }
    }
}

impl ConfigErrorV {
    /// The message for a reader.
    pub open spec fn message(self) -> Seq<char> {
        match self {
            ConfigErrorV::Read { path, source } => "read "@ + path + ": "@ + source,
            ConfigErrorV::Parse { path, msg } => "parse "@ + path + ": "@ + msg,
            ConfigErrorV::Graph(m) => "agent graph: "@ + m,
        }
    }
}

impl ConfigError {
    /// The message for a reader.
    pub fn message(&self) -> (r: String)
        ensures
            r@ == self@.message(),
    {
        match self {
            ConfigError::Read { path, source } => {
                let mut s: String = join3("read ", path.as_str(), ": ");
                s.append(source.as_str());
                s
            },
            ConfigError::Parse { path, msg } => {
                let mut s: String = join3("parse ", path.as_str(), ": ");
                s.append(msg.as_str());
                s
            },
            ConfigError::Graph(m) => join2("agent graph: ", m.as_str()),
        }
    }
}

// ── The graph of the agent ────────────────────────────────────────────────

/// Where the graph comes from.
#[derive(Debug)]
pub enum GraphSource {
    /// It is given inline.
    Inline(Json),
    /// It is to be read from a file.
    File(String),
}

/// The view of a [`GraphSource`].
#[verifier::ext_equal]
pub enum GraphSourceV {
    Inline(JsonV),
    File(Seq<char>),
}

impl View for GraphSource {
    type V = GraphSourceV;

    open spec fn view(&self) -> GraphSourceV {
        match self {
            GraphSource::Inline(j) => GraphSourceV::Inline(j@),
            GraphSource::File(p) => GraphSourceV::File(p@),
        }
    }
}

/// Where an agent's graph comes from: inline if it is given, or else a file.
pub open spec fn source_of(graph: Option<String>, graph_inline: Option<Json>) -> Result<
    GraphSourceV,
    ConfigErrorV,
> {
    match graph_inline {
        Some(j) => Ok(GraphSourceV::Inline(j@)),
        None => match graph {
            Some(p) => Ok(GraphSourceV::File(p@)),
            None => Err(
                ConfigErrorV::Graph("set `agent.graph` (a path) or `agent.graph_inline`"@),
            ),
        },
    }
}

/// A resolved source agrees with its model.
pub open spec fn source_result(
    r: Result<GraphSource, ConfigError>,
    v: Result<GraphSourceV, ConfigErrorV>,
) -> bool {
    match (r, v) {
        (Ok(a), Ok(b)) => a@ == b,
        (Err(a), Err(b)) => a@ == b,
        _ => false,
    }
}

/// Whether a file extension means YAML.
pub open spec fn yaml_extension(extension: Option<Seq<char>>) -> bool {
    extension == Some("yaml"@) || extension == Some("yml"@)
}

/// Whether a file extension means YAML; anything else means JSON.
pub fn is_yaml(extension: Option<&str>) -> (r: bool)
    ensures
        r == yaml_extension(crate::json::opt_text(extension)),
{
    match extension {
        Some(e) => same(e, "yaml") || same(e, "yml"),
        None => false,
    }
}

/// The graph document in a text.
pub open spec fn document_of(text: Seq<char>, yaml: bool) -> Result<JsonV, Seq<char>> {
    if yaml {
        json_of_yaml(text)
    } else {
        json_of_text(text)
    }
}

/// The graph document in the text of the file at `path`, or why there is none.
pub fn parse_graph(path: &str, text: &str, yaml: bool) -> (r: Result<Json, ConfigError>)
    ensures
        match r {
            Ok(j) => document_of(text@, yaml) is Ok && document_of(text@, yaml)->Ok_0 == j@,
            Err(e) => document_of(text@, yaml) is Err && e@ == (ConfigErrorV::Parse {
                path: path@,
                msg: document_of(text@, yaml)->Err_0,
            }),
        },
{
    let parsed: Result<Json, String> = if yaml {
        Json::parse_yaml(text)
    } else {
        Json::parse(text)
    };
    match parsed {
        Ok(j) => Ok(j),
        Err(msg) => Err(ConfigError::Parse { path: String::from_str(path), msg }),
    }
}

impl ServerConfig {
    /// Where the agent's graph comes from. One that is given inline needs nothing
    /// more; a file is read by the caller, relative to the configuration, and its
    /// path and text go to [`parse_graph`].
    pub fn resolve_graph(&self) -> (r: Result<GraphSource, ConfigError>)
        ensures
            source_result(r, source_of(self.agent.graph, self.agent.graph_inline)),
    {
        if let Some(inline) = &self.agent.graph_inline {
            return Ok(GraphSource::Inline(inline.clone()));
        }
        match &self.agent.graph {
            Some(rel) => Ok(GraphSource::File(rel.clone())),
            None => Err(
                ConfigError::Graph(
                    String::from_str("set `agent.graph` (a path) or `agent.graph_inline`"),
                ),
            ),
        }
    }
}

} // verus!
