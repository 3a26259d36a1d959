//! Setting up sessions: what an agent's graph, the server's defaults and a registration say of one.
use crate::audio_ml::denoiser::backend::DenoiserBackend;
use crate::providers::stt::factory::default_stt_p99_latency_ms;
use crate::recording::config::{map_recording_config, RecordingConfig, RecordingRequest};
use crate::text::{concat, decimal_of, same};
use vstd::prelude::*;

verus! {

/// A node of an agent's graph.
#[derive(Clone, Debug)]
pub struct GraphNode {
    pub name: String,
    pub system_prompt: String,
    pub greeting: Option<String>,
    /// Overrides the voice of the graph.
    pub voice_id: Option<String>,
}

/// What an agent's graph says of a session.
#[derive(Clone, Debug)]
pub struct AgentGraph {
    pub language: Option<String>,
    pub voice_id: Option<String>,
    pub recording: Option<RecordingRequest>,
    /// Name of the node that a session starts in.
    pub entry: String,
    /// The nodes; no two have the same name.
    pub nodes: Vec<GraphNode>,
}

/// The settings of a session that the graph and the registration touch.
#[derive(Clone, Debug)]
pub struct SessionConfig {
    pub agent_id: String,
    pub denoise_backend: DenoiserBackend,
    pub language: String,
    pub voice_id: String,
    pub recording: RecordingConfig,
    pub system_prompt: String,
    pub greeting: Option<String>,
    pub stt_provider: String,
    pub stt_p99_latency_ms: u32,
}

/// Where the node called `name` stands among the first `n` nodes, if it does.
pub open spec fn node_index(nodes: Seq<GraphNode>, name: Seq<char>, n: nat) -> Option<int>
    decreases n,
{
    if n == 0 || n > nodes.len() {
        None
    } else if node_index(nodes, name, (n - 1) as nat) is Some {
        node_index(nodes, name, (n - 1) as nat)
    } else if nodes[n - 1].name@ == name {
        Some(n - 1)
    } else {
        None
    }
}

/// `set` where it is there and not empty, else `current`.
pub open spec fn overridden(current: String, set: Option<String>) -> String {
    match set {
        Some(s) => if s@.len() > 0 {
            s
        } else {
            current
        },
        None => current,
    }
}

fn override_with(current: &String, set: &Option<String>) -> (r: String)
    ensures
        r == overridden(*current, *set),
{
    match set {
        Some(s) => if s.as_str().is_empty() {
            current.clone()
        } else {
            s.clone()
        },
        None => current.clone(),
    }
}

impl AgentGraph {
    /// The node that a session starts in, if it is there.
    pub open spec fn entry_node(self) -> Option<GraphNode> {
        match node_index(self.nodes@, self.entry@, self.nodes@.len()) {
            Some(i) => Some(self.nodes@[i]),
            None => None,
        }
    }

    /// The node that a session starts in, if it is there.
    pub fn find_entry(&self) -> (n: Option<&GraphNode>)
        ensures
            n is Some <==> self.entry_node() is Some,
            n matches Some(x) ==> Some(*x) == self.entry_node(),
    {
        for i in 0..self.nodes.len()
            invariant
                node_index(self.nodes@, self.entry@, i as nat) is None,
        {
            if same(self.nodes[i].name.as_str(), self.entry.as_str()) {
                proof {
                    assert(node_index(self.nodes@, self.entry@, i as nat + 1) == Some(i as int));
                    lemma_first_node_stays(self.nodes@, self.entry@, i as nat + 1);
                }
                return Some(&self.nodes[i]);
            }
        }
        None
    }
}

/// Once a node is found, later ones do not matter.
proof fn lemma_first_node_stays(nodes: Seq<GraphNode>, name: Seq<char>, n: nat)
    requires
        n <= nodes.len(),
        node_index(nodes, name, n) is Some,
    ensures
        node_index(nodes, name, nodes.len()) == node_index(nodes, name, n),
    decreases nodes.len() - n,
{
    if n < nodes.len() {
        lemma_first_node_stays(nodes, name, n + 1);
    }
}

impl SessionConfig {
    /// The settings once the graph is applied: a language, voice or recording that it names, and the
    /// prompt, greeting and voice of its entry node. The node's voice wins over the graph's.
    pub open spec fn with_graph(self, g: AgentGraph, defaults: RecordingConfig, r: Self) -> bool {
        let node = g.entry_node();
        &&& r.agent_id == self.agent_id
        &&& r.denoise_backend == self.denoise_backend
        &&& r.stt_provider == self.stt_provider
        &&& r.stt_p99_latency_ms == self.stt_p99_latency_ms
        &&& r.language == overridden(self.language, g.language)
        &&& r.recording == match g.recording {
            Some(q) => crate::recording::config::requested(defaults, q),
            None => self.recording,
        }
        &&& r.system_prompt == match node {
            Some(n) => n.system_prompt,
            None => self.system_prompt,
        }
        &&& r.greeting == match node {
            Some(n) => match n.greeting {
                Some(t) => Some(t),
                None => self.greeting,
            },
            None => self.greeting,
        }
        &&& r.voice_id == overridden(
            overridden(self.voice_id, g.voice_id),
            match node {
                Some(n) => n.voice_id,
                None => None,
            },
        )
    }

    /// Applies an agent's graph, which is the source of truth for what it names.
    pub fn apply_graph(self, graph: &AgentGraph, defaults: RecordingConfig) -> (r: Self)
        ensures
            self.with_graph(*graph, defaults, r),
    {
        let mut r = self;
        r.language = override_with(&r.language, &graph.language);
        r.voice_id = override_with(&r.voice_id, &graph.voice_id);
        if let Some(request) = &graph.recording {
            r.recording = map_recording_config(defaults, request);
        }
        if let Some(node) = graph.find_entry() {
            r.system_prompt = node.system_prompt.clone();
            if let Some(g) = &node.greeting {
                r.greeting = Some(g.clone());
            }
            r.voice_id = override_with(&r.voice_id, &node.voice_id);
        }
        r
    }

    /// The settings with a recognition provider and what is known of its latency; unchanged where
    /// none is named.
    pub fn with_stt_provider(self, provider: &str) -> (r: Self)
        ensures
            provider@.len() == 0 ==> r == self,
            provider@.len() > 0 ==> {
                &&& r.stt_provider@ == provider@
                &&& r.stt_p99_latency_ms == crate::providers::stt::factory::p99_latency_ms(
                    provider@,
                )
                &&& r == (SessionConfig {
                    stt_provider: r.stt_provider,
                    stt_p99_latency_ms: r.stt_p99_latency_ms,
                    ..self
                })
            },
    {
        if provider.is_empty() {
            return self;
        }
        let mut r = self;
        r.stt_provider = provider.to_owned();
        r.stt_p99_latency_ms = default_stt_p99_latency_ms(provider);
        r
    }
}

/// The providers of a session.
///
/// It holds keys, so it has no debug form of its own.
#[derive(Clone)]
pub struct ProviderConfig {
    pub stt_url: String,
    pub stt_provider: String,
    pub stt_model: String,
    pub stt_api_key: String,
    pub llm_url: String,
    pub llm_api_key: String,
    pub llm_model: String,
    pub llm_provider: String,
    pub tts_url: String,
    pub tts_provider: String,
    pub tts_model: String,
    pub tts_api_key: String,
    /// Taken from the session.
    pub tts_voice_id: String,
}

/// A session that waits for its client.
pub struct Registration {
    pub config: SessionConfig,
    pub providers: ProviderConfig,
}

/// Registers a session: the settings learn of the recognition provider, and the providers of the
/// voice that the settings name.
pub fn register_session(config: SessionConfig, providers: ProviderConfig) -> (r: Registration)
    ensures
        r.providers == (ProviderConfig { tts_voice_id: config.voice_id, ..providers }),
        r.config.voice_id == config.voice_id,
        providers.stt_provider@.len() == 0 ==> r.config == config,
        providers.stt_provider@.len() > 0 ==> {
            &&& r.config.stt_provider@ == providers.stt_provider@
            &&& r.config.stt_p99_latency_ms == crate::providers::stt::factory::p99_latency_ms(
                providers.stt_provider@,
            )
            &&& r.config == (SessionConfig {
                stt_provider: r.config.stt_provider,
                stt_p99_latency_ms: r.config.stt_p99_latency_ms,
                ..config
            })
        },
{
    let config = config.with_stt_provider(providers.stt_provider.as_str());
    let mut providers = providers;
    providers.tts_voice_id = config.voice_id.clone();
    Registration { config, providers }
}

/// The address that a server listens on.
pub fn listen_address(host: &str, port: u16) -> (a: String)
    ensures
        a@ == host@ + ":"@ + crate::text::decimal(port as nat),
{
    let mut a = concat(host, ":");
    a.append(decimal_of(port as u64).as_str());
    a
}

/// Applying a graph that names nothing and whose entry node is missing changes nothing.
pub proof fn law_silent_graph_changes_nothing(
    c: SessionConfig,
    g: AgentGraph,
    defaults: RecordingConfig,
    r: SessionConfig,
)
    requires
        g.language is None,
        g.voice_id is None,
        g.recording is None,
        g.entry_node() is None,
        c.with_graph(g, defaults, r),
    ensures
        r == c,
{
}

/// A graph settles what it names: applying it once more changes nothing.
pub proof fn law_graph_settles(
    c: SessionConfig,
    g: AgentGraph,
    defaults: RecordingConfig,
    once: SessionConfig,
    twice: SessionConfig,
)
    requires
        c.with_graph(g, defaults, once),
        once.with_graph(g, defaults, twice),
    ensures
        twice == once,
{
}

proof fn lemma_node_index(nodes: Seq<GraphNode>, name: Seq<char>, n: nat)
    requires
        n <= nodes.len(),
    ensures
        node_index(nodes, name, n) matches Some(i) ==> 0 <= i < n && nodes[i].name@ == name
            && forall|j: int| 0 <= j < i ==> (#[trigger] nodes[j]).name@ != name,
        node_index(nodes, name, n) is None ==> forall|j: int|
            0 <= j < n ==> (#[trigger] nodes[j]).name@ != name,
    decreases n,
{
    if n > 0 {
        lemma_node_index(nodes, name, (n - 1) as nat);
    }
}

/// A session starts in the first node that has the name of the entry; where none has, it has no entry.
pub proof fn law_sessions_start_at_the_entry(g: AgentGraph)
    ensures
        g.entry_node() matches Some(n) ==> n.name@ == g.entry@ && exists|i: int|
            0 <= i < g.nodes@.len() && #[trigger] g.nodes@[i] == n && forall|j: int|
                0 <= j < i ==> (#[trigger] g.nodes@[j]).name@ != g.entry@,
        g.entry_node() is None ==> forall|j: int|
            0 <= j < g.nodes@.len() ==> (#[trigger] g.nodes@[j]).name@ != g.entry@,
{
    lemma_node_index(g.nodes@, g.entry@, g.nodes@.len());
    if g.entry_node() is Some {
        let i = node_index(g.nodes@, g.entry@, g.nodes@.len())->0;
        assert(g.nodes@[i] == g.entry_node()->0);
    }
}

/// A voice of the entry node wins over that of the graph, which wins over the configured one; an empty
/// one counts for nothing.
pub proof fn law_nearest_voice_wins(
    c: SessionConfig,
    g: AgentGraph,
    defaults: RecordingConfig,
    r: SessionConfig,
)
    requires
        c.with_graph(g, defaults, r),
    ensures
        ({
            let own: Option<String> = match g.entry_node() {
                Some(n) => n.voice_id,
                None => None,
            };
            let of_node = own matches Some(v) && v@.len() > 0;
            let of_graph = g.voice_id matches Some(v) && v@.len() > 0;
            &&& of_node ==> Some(r.voice_id) == own
            &&& !of_node && of_graph ==> Some(r.voice_id) == g.voice_id
            &&& !of_node && !of_graph ==> r.voice_id == c.voice_id
        }),
{
}

/// The graph has the last word on the language, the prompt and the greeting that it gives, and leaves
/// all else of them alone.
pub proof fn law_graph_has_the_last_word(
    c: SessionConfig,
    g: AgentGraph,
    defaults: RecordingConfig,
    r: SessionConfig,
)
    requires
        c.with_graph(g, defaults, r),
    ensures
        g.language matches Some(l) ==> l@.len() > 0 ==> r.language == l,
        g.language is None ==> r.language == c.language,
        g.language matches Some(l) ==> l@.len() == 0 ==> r.language == c.language,
        g.entry_node() matches Some(n) ==> r.system_prompt == n.system_prompt,
        g.entry_node() is None ==> r.system_prompt == c.system_prompt && r.greeting == c.greeting,
        g.entry_node() matches Some(n) ==> n.greeting is Some ==> r.greeting == n.greeting,
        g.entry_node() matches Some(n) ==> n.greeting is None ==> r.greeting == c.greeting,
        g.recording is None ==> r.recording == c.recording,
        g.recording matches Some(q) ==> r.recording.enabled == q.enabled,
{
}

} // verus!
