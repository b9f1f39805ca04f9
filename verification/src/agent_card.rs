//! The agent card: the discovery document that tells peers what this agent
//! is, where its JSON-RPC interface is, and which skills it offers.

use vstd::prelude::*;
use vstd::string::*;
use crate::text::{decimal_string, decimal_text, texts};
use crate::types::opt_text;
use crate::VERSION;

verus! {

pub const CARD_NAME_PREFIX: &'static str = "OpenCrabs Bee (v";

pub const CARD_NAME_SUFFIX: &'static str = ")";

pub const CARD_DESCRIPTION: &'static str =
    "High-performance AI orchestration agent with A2A protocol support. Part of the Bee Colony multi-agent system.";

pub const PROJECT_URL: &'static str = "https://github.com/adolfousier/opencrabs";

pub const PROVIDER_NAME: &'static str = "OpenCrabs Contributors";

pub const URL_SCHEME: &'static str = "http://";

pub const URL_PORT: &'static str = ":";

pub const URL_PATH: &'static str = "/a2a/v1";

pub const BINDING: &'static str = "JSONRPC";

pub const PROTOCOL_VERSION: &'static str = "1.0";

pub const MODE_TEXT: &'static str = "text/plain";

pub const MODE_JSON: &'static str = "application/json";

pub const TAG_ANALYSIS: &'static str = "analysis";

pub const CODE_ID: &'static str = "code-analysis";

pub const CODE_NAME: &'static str = "Code Analysis & Refactoring";

pub const CODE_DESCRIPTION: &'static str =
    "Analyze source code, identify issues, and suggest improvements.";

pub const CODE_TAG: &'static str = "code";

pub const CODE_TAG_REFACTORING: &'static str = "refactoring";

pub const CODE_EXAMPLE: &'static str = "Analyze this Rust module for performance issues.";

pub const RESEARCH_ID: &'static str = "research";

pub const RESEARCH_NAME: &'static str = "Deep Research";

pub const RESEARCH_DESCRIPTION: &'static str =
    "Perform multi-source research, cross-domain analysis, and synthesis.";

pub const RESEARCH_TAG_SYNTHESIS: &'static str = "synthesis";

pub const RESEARCH_EXAMPLE: &'static str =
    "Research the latest developments in AI agent security.";

pub const DEBATE_ID: &'static str = "debate";

pub const DEBATE_NAME: &'static str = "Multi-Agent Debate";

pub const DEBATE_DESCRIPTION: &'static str =
    "Participate in structured multi-round debates with other A2A agents.";

pub const DEBATE_TAG_COUNCIL: &'static str = "council";

pub const DEBATE_TAG_MULTI: &'static str = "multi-agent";

pub const DEBATE_EXAMPLE: &'static str = "Debate the pros and cons of microservices vs monoliths.";

/// An interface under which the agent can be reached.
#[derive(Debug, PartialEq)]
pub struct SupportedInterface {
    pub url: String,
    pub protocol_binding: String,
    pub protocol_version: Option<String>,
}

/// The mathematical model of `SupportedInterface`: texts as `Seq<char>`, lists as
/// `Seq`.
pub struct SupportedInterfaceView {
    pub url: Seq<char>,
    pub protocol_binding: Seq<char>,
    pub protocol_version: Option<Seq<char>>,
}

impl View for SupportedInterface {
    type V = SupportedInterfaceView;

    open spec fn view(&self) -> SupportedInterfaceView {
        SupportedInterfaceView {
            url: self.url@,
            protocol_binding: self.protocol_binding@,
            protocol_version: opt_text(self.protocol_version),
        }
    }
}

/// Who provides the agent.
#[derive(Debug, PartialEq)]
pub struct AgentProvider {
    pub organization: String,
    pub url: Option<String>,
}

/// The mathematical model of `AgentProvider`: texts as `Seq<char>`, lists as
/// `Seq`.
pub struct AgentProviderView {
    pub organization: Seq<char>,
    pub url: Option<Seq<char>>,
}

impl View for AgentProvider {
    type V = AgentProviderView;

    open spec fn view(&self) -> AgentProviderView {
        AgentProviderView { organization: self.organization@, url: opt_text(self.url) }
    }
}

/// What the agent's interface can do.
#[derive(Clone, Copy, Debug, PartialEq, Eq, Structural)]
pub struct AgentCapabilities {
    pub streaming: bool,
    pub push_notifications: bool,
    pub state_transition_history: bool,
}

/// A skill that the agent offers.
#[derive(Debug, PartialEq)]
pub struct AgentSkill {
    pub id: String,
    pub name: String,
    pub description: Option<String>,
    pub tags: Vec<String>,
    pub examples: Vec<String>,
    pub input_modes: Vec<String>,
    pub output_modes: Vec<String>,
}

/// The mathematical model of `AgentSkill`: texts as `Seq<char>`, lists as
/// `Seq`.
pub struct AgentSkillView {
    pub id: Seq<char>,
    pub name: Seq<char>,
    pub description: Option<Seq<char>>,
    pub tags: Seq<Seq<char>>,
    pub examples: Seq<Seq<char>>,
    pub input_modes: Seq<Seq<char>>,
    pub output_modes: Seq<Seq<char>>,
}

impl View for AgentSkill {
    type V = AgentSkillView;

    open spec fn view(&self) -> AgentSkillView {
        AgentSkillView {
            id: self.id@,
            name: self.name@,
            description: opt_text(self.description),
            tags: texts(self.tags@),
            examples: texts(self.examples@),
            input_modes: texts(self.input_modes@),
            output_modes: texts(self.output_modes@),
        }
    }
}

/// The agent card.
#[derive(Debug, PartialEq)]
pub struct AgentCard {
    pub name: String,
    pub description: Option<String>,
    pub version: Option<String>,
    pub documentation_url: Option<String>,
    pub icon_url: Option<String>,
    pub supported_interfaces: Vec<SupportedInterface>,
    pub provider: Option<AgentProvider>,
    pub capabilities: Option<AgentCapabilities>,
    pub skills: Vec<AgentSkill>,
    pub default_input_modes: Vec<String>,
    pub default_output_modes: Vec<String>,
}

/// The mathematical model of `AgentCard`: texts as `Seq<char>`, lists as
/// `Seq`.
pub struct AgentCardView {
    pub name: Seq<char>,
    pub description: Option<Seq<char>>,
    pub version: Option<Seq<char>>,
    pub documentation_url: Option<Seq<char>>,
    pub icon_url: Option<Seq<char>>,
    pub supported_interfaces: Seq<SupportedInterfaceView>,
    pub provider: Option<AgentProviderView>,
    pub capabilities: Option<AgentCapabilities>,
    pub skills: Seq<AgentSkillView>,
    pub default_input_modes: Seq<Seq<char>>,
    pub default_output_modes: Seq<Seq<char>>,
}

impl View for AgentCard {
    type V = AgentCardView;

    open spec fn view(&self) -> AgentCardView {
        AgentCardView {
            name: self.name@,
            description: opt_text(self.description),
            version: opt_text(self.version),
            documentation_url: opt_text(self.documentation_url),
            icon_url: opt_text(self.icon_url),
            supported_interfaces: Seq::new(
                self.supported_interfaces@.len(),
                |i: int| self.supported_interfaces@[i]@,
            ),
            provider: match self.provider {
                Some(p) => Some(p@),
                None => None,
            },
            capabilities: self.capabilities,
            skills: Seq::new(self.skills@.len(), |i: int| self.skills@[i]@),
            default_input_modes: texts(self.default_input_modes@),
            default_output_modes: texts(self.default_output_modes@),
        }
    }
}

/// Plain text and JSON, the modes that most skills take and give.
pub open spec fn both_modes() -> Seq<Seq<char>> {
    seq![MODE_TEXT@, MODE_JSON@]
}

/// The address of the agent's JSON-RPC interface.
pub open spec fn interface_url(host: Seq<char>, port: u16) -> Seq<char> {
    URL_SCHEME@ + host + URL_PORT@ + decimal_text(port as nat) + URL_PATH@
}

/// The three skills of the agent: code analysis, research, debate.
pub open spec fn skill_views() -> Seq<AgentSkillView> {
    seq![
        AgentSkillView {
            id: CODE_ID@,
            name: CODE_NAME@,
            description: Some(CODE_DESCRIPTION@),
            tags: seq![CODE_TAG@, TAG_ANALYSIS@, CODE_TAG_REFACTORING@],
            examples: seq![CODE_EXAMPLE@],
            input_modes: both_modes(),
            output_modes: both_modes(),
        },
        AgentSkillView {
            id: RESEARCH_ID@,
            name: RESEARCH_NAME@,
            description: Some(RESEARCH_DESCRIPTION@),
            tags: seq![RESEARCH_ID@, TAG_ANALYSIS@, RESEARCH_TAG_SYNTHESIS@],
            examples: seq![RESEARCH_EXAMPLE@],
            input_modes: seq![MODE_TEXT@],
            output_modes: both_modes(),
        },
        AgentSkillView {
            id: DEBATE_ID@,
            name: DEBATE_NAME@,
            description: Some(DEBATE_DESCRIPTION@),
            tags: seq![DEBATE_ID@, DEBATE_TAG_COUNCIL@, DEBATE_TAG_MULTI@],
            examples: seq![DEBATE_EXAMPLE@],
            input_modes: both_modes(),
            output_modes: both_modes(),
        },
    ]
}

/// The card of the agent that listens on `host` and `port`.
pub open spec fn agent_card_view(host: Seq<char>, port: u16) -> AgentCardView {
    AgentCardView {
        name: CARD_NAME_PREFIX@ + VERSION@ + CARD_NAME_SUFFIX@,
        description: Some(CARD_DESCRIPTION@),
        version: Some(VERSION@),
        documentation_url: Some(PROJECT_URL@),
        icon_url: None,
        supported_interfaces: seq![
            SupportedInterfaceView {
                url: interface_url(host, port),
                protocol_binding: BINDING@,
                protocol_version: Some(PROTOCOL_VERSION@),
            },
        ],
        provider: Some(AgentProviderView { organization: PROVIDER_NAME@, url: Some(PROJECT_URL@) }),
        capabilities: Some(
            AgentCapabilities {
                streaming: false,
                push_notifications: false,
                state_transition_history: true,
            },
        ),
        skills: skill_views(),
        default_input_modes: both_modes(),
        default_output_modes: both_modes(),
    }
}

/// A list of one string.
fn one(a: &str) -> (v: Vec<String>)
    ensures
        texts(v@) == seq![a@],
{
    let mut v: Vec<String> = Vec::new();
    v.push(String::from_str(a));
    assert(texts(v@) =~= seq![a@]);
    v
}

/// A list of two strings.
fn two(a: &str, b: &str) -> (v: Vec<String>)
    ensures
        texts(v@) == seq![a@, b@],
{
    let mut v: Vec<String> = Vec::new();
    v.push(String::from_str(a));
    v.push(String::from_str(b));
    assert(texts(v@) =~= seq![a@, b@]);
    v
}

/// A list of three strings.
fn three(a: &str, b: &str, c: &str) -> (v: Vec<String>)
    ensures
        texts(v@) == seq![a@, b@, c@],
{
    let mut v: Vec<String> = Vec::new();
    v.push(String::from_str(a));
    v.push(String::from_str(b));
    v.push(String::from_str(c));
    assert(texts(v@) =~= seq![a@, b@, c@]);
    v
}

/// Builds the agent card for the agent that listens on `host` and `port`:
/// its JSON-RPC interface is `http://<host>:<port>/a2a/v1`; it does not
/// stream or push, keeps a history of state transitions, and offers the
/// skills code analysis, research and debate.
pub fn build_agent_card(host: &str, port: u16) -> (card: AgentCard)
    ensures
        card@ == agent_card_view(host@, port),
{
    let mut url = String::from_str(URL_SCHEME);
    url.append(host);
    url.append(URL_PORT);
    url.append(decimal_string(port as u64).as_str());
    url.append(URL_PATH);
    let mut name = String::from_str(CARD_NAME_PREFIX);
    name.append(VERSION);
    name.append(CARD_NAME_SUFFIX);
    let mut supported_interfaces: Vec<SupportedInterface> = Vec::new();
    supported_interfaces.push(
        SupportedInterface {
            url,
            protocol_binding: String::from_str(BINDING),
            protocol_version: Some(String::from_str(PROTOCOL_VERSION)),
        },
    );
    let mut skills: Vec<AgentSkill> = Vec::new();
    skills.push(
        AgentSkill {
            id: String::from_str(CODE_ID),
            name: String::from_str(CODE_NAME),
            description: Some(String::from_str(CODE_DESCRIPTION)),
            tags: three(CODE_TAG, TAG_ANALYSIS, CODE_TAG_REFACTORING),
            examples: one(CODE_EXAMPLE),
            input_modes: two(MODE_TEXT, MODE_JSON),
            output_modes: two(MODE_TEXT, MODE_JSON),
        },
    );
    skills.push(
        AgentSkill {
            id: String::from_str(RESEARCH_ID),
            name: String::from_str(RESEARCH_NAME),
            description: Some(String::from_str(RESEARCH_DESCRIPTION)),
            tags: three(RESEARCH_ID, TAG_ANALYSIS, RESEARCH_TAG_SYNTHESIS),
            examples: one(RESEARCH_EXAMPLE),
            input_modes: one(MODE_TEXT),
            output_modes: two(MODE_TEXT, MODE_JSON),
        },
    );
    skills.push(
        AgentSkill {
            id: String::from_str(DEBATE_ID),
            name: String::from_str(DEBATE_NAME),
            description: Some(String::from_str(DEBATE_DESCRIPTION)),
            tags: three(DEBATE_ID, DEBATE_TAG_COUNCIL, DEBATE_TAG_MULTI),
            examples: one(DEBATE_EXAMPLE),
            input_modes: two(MODE_TEXT, MODE_JSON),
            output_modes: two(MODE_TEXT, MODE_JSON),
        },
    );
    let card = AgentCard {
        name,
        description: Some(String::from_str(CARD_DESCRIPTION)),
        version: Some(String::from_str(VERSION)),
        documentation_url: Some(String::from_str(PROJECT_URL)),
        icon_url: None,
        supported_interfaces,
        provider: Some(
            AgentProvider {
                organization: String::from_str(PROVIDER_NAME),
                url: Some(String::from_str(PROJECT_URL)),
            },
        ),
        capabilities: Some(
            AgentCapabilities {
                streaming: false,
                push_notifications: false,
                state_transition_history: true,
            },
        ),
        skills,
        default_input_modes: two(MODE_TEXT, MODE_JSON),
        default_output_modes: two(MODE_TEXT, MODE_JSON),
    };
    proof {
        let want = agent_card_view(host@, port);
        assert(card@.supported_interfaces =~= want.supported_interfaces);
        assert(card@.skills =~= want.skills);
    }
    card
}

} // verus!
