//! The configuration: which providers can be reached and how, which model
//! serves which kind of request, how many tokens may be spent, and how
//! conversations are recorded.

use vstd::prelude::*;
use crate::error::{AiError, AiResult};
use crate::provider::AiProviderType;
use crate::text::{option_view, views};
use crate::text_order::{ascending, sorted_once};

verus! {

/// Another name for a model.
#[derive(Debug, Clone, PartialEq)]
pub struct ModelAlias {
    pub alias: String,
    pub model: String,
}

/// How one provider is reached.
#[derive(Debug, Clone, PartialEq)]
pub struct ProviderConfig {
    pub enabled: bool,
    /// The key, or a placeholder of the form `${NAME}` for it.
    pub api_key: String,
    pub base_url: Option<String>,
    /// The seconds a request may take.
    pub timeout: u64,
    pub model_aliases: Option<Vec<ModelAlias>>,
    /// The provider with the smaller number is preferred.
    pub priority: Option<u32>,
}

/// Whether `config` is a configuration without aliases and with a
/// timeout of thirty seconds that holds the given values.
pub open spec fn describes(
    config: ProviderConfig,
    enabled: bool,
    api_key: Seq<char>,
    base_url: Option<Seq<char>>,
    priority: Option<u32>,
) -> bool {
    &&& config.enabled == enabled
    &&& config.api_key@ == api_key
    &&& option_view(config.base_url) == base_url
    &&& config.timeout == 30
    &&& config.model_aliases is None
    &&& config.priority == priority
}

/// Whether `slot` holds a configuration that [`describes`] would accept.
pub open spec fn holds(
    slot: Option<ProviderConfig>,
    enabled: bool,
    api_key: Seq<char>,
    base_url: Option<Seq<char>>,
    priority: u32,
) -> bool {
    slot matches Some(config) && describes(config, enabled, api_key, base_url, Some(priority))
}

impl Default for ProviderConfig {
    fn default() -> (r: Self)
        ensures
            describes(r, true, "${OPENAI_API_KEY}"@, None, None),
    {
        ProviderConfig {
            enabled: true,
            api_key: "${OPENAI_API_KEY}".to_string(),
            base_url: None,
            timeout: 30,
            model_aliases: None,
            priority: None,
        }
    }
}

/// A provider configuration without aliases and with a timeout of thirty
/// seconds.
fn provider(enabled: bool, api_key: &str, base_url: Option<&str>, priority: u32) -> (r:
    ProviderConfig)
    ensures
        describes(
            r,
            enabled,
            api_key@,
            match base_url {
                Some(u) => Some(u@),
                None => None,
            },
            Some(priority),
        ),
{
    ProviderConfig {
        enabled,
        api_key: api_key.to_owned(),
        base_url: match base_url {
            Some(u) => Some(u.to_owned()),
            None => None,
        },
        timeout: 30,
        model_aliases: None,
        priority: Some(priority),
    }
}

/// The configurations of the providers, at most one for each.
#[derive(Debug, Clone, PartialEq)]
pub struct ProviderTable {
    pub open_ai: Option<ProviderConfig>,
    pub anthropic: Option<ProviderConfig>,
    pub ollama: Option<ProviderConfig>,
    pub mock: Option<ProviderConfig>,
    pub deep_seek: Option<ProviderConfig>,
    pub groq: Option<ProviderConfig>,
    pub kimi: Option<ProviderConfig>,
    pub glm: Option<ProviderConfig>,
}

/// One for a filled slot.
pub open spec fn filled(slot: Option<ProviderConfig>) -> nat {
    if slot is Some {
        1
    } else {
        0
    }
}

impl ProviderTable {
    /// The configuration of a provider, if it has one.
    pub open spec fn slot(self, kind: AiProviderType) -> Option<ProviderConfig> {
        match kind {
            AiProviderType::OpenAi => self.open_ai,
            AiProviderType::Anthropic => self.anthropic,
            AiProviderType::Ollama => self.ollama,
            AiProviderType::Mock => self.mock,
            AiProviderType::DeepSeek => self.deep_seek,
            AiProviderType::Groq => self.groq,
            AiProviderType::Kimi => self.kimi,
            AiProviderType::Glm => self.glm,
        }
    }

    /// The number of providers that have a configuration.
    pub open spec fn count(self) -> nat {
        filled(self.open_ai) + filled(self.anthropic) + filled(self.ollama) + filled(self.mock)
            + filled(self.deep_seek) + filled(self.groq) + filled(self.kimi) + filled(self.glm)
    }

    /// Whether a provider has a configuration that is enabled.
    pub open spec fn enables(self, kind: AiProviderType) -> bool {
        self.slot(kind) matches Some(config) && config.enabled
    }

    /// A table without configurations.
    pub fn new() -> (r: Self)
        ensures
            forall|kind: AiProviderType| r.slot(kind) is None,
            r.count() == 0,
    {
        ProviderTable {
            open_ai: None,
            anthropic: None,
            ollama: None,
            mock: None,
            deep_seek: None,
            groq: None,
            kimi: None,
            glm: None,
        }
    }

    /// The configuration of a provider.
    pub fn get(&self, kind: &AiProviderType) -> (r: Option<&ProviderConfig>)
        ensures
            r is Some <==> self.slot(*kind) is Some,
            r matches Some(config) ==> self.slot(*kind) == Some(*config),
    {
        match kind {
            AiProviderType::OpenAi => self.open_ai.as_ref(),
            AiProviderType::Anthropic => self.anthropic.as_ref(),
            AiProviderType::Ollama => self.ollama.as_ref(),
            AiProviderType::Mock => self.mock.as_ref(),
            AiProviderType::DeepSeek => self.deep_seek.as_ref(),
            AiProviderType::Groq => self.groq.as_ref(),
            AiProviderType::Kimi => self.kimi.as_ref(),
            AiProviderType::Glm => self.glm.as_ref(),
        }
    }

    /// Whether a provider has a configuration.
    pub fn contains_key(&self, kind: &AiProviderType) -> (r: bool)
        ensures
            r == self.slot(*kind) is Some,
    {
        self.get(kind).is_some()
    }

    /// Gives a provider a configuration, in place of the one it had, which
    /// is returned.
    pub fn insert(&mut self, kind: AiProviderType, config: ProviderConfig) -> (r: Option<
        ProviderConfig,
    >)
        ensures
            r == old(self).slot(kind),
            final(self).slot(kind) == Some(config),
            forall|other: AiProviderType|
                other != kind ==> final(self).slot(other) == old(self).slot(other),
    {
        match kind {
            AiProviderType::OpenAi => {
                let before = self.open_ai.take();
                self.open_ai = Some(config);
                before
            },
            AiProviderType::Anthropic => {
                let before = self.anthropic.take();
                self.anthropic = Some(config);
                before
            },
            AiProviderType::Ollama => {
                let before = self.ollama.take();
                self.ollama = Some(config);
                before
            },
            AiProviderType::Mock => {
                let before = self.mock.take();
                self.mock = Some(config);
                before
            },
            AiProviderType::DeepSeek => {
                let before = self.deep_seek.take();
                self.deep_seek = Some(config);
                before
            },
            AiProviderType::Groq => {
                let before = self.groq.take();
                self.groq = Some(config);
                before
            },
            AiProviderType::Kimi => {
                let before = self.kimi.take();
                self.kimi = Some(config);
                before
            },
            AiProviderType::Glm => {
                let before = self.glm.take();
                self.glm = Some(config);
                before
            },
        }
    }

    /// The number of providers that have a configuration.
    pub fn len(&self) -> (n: usize)
        ensures
            n == self.count(),
    {
        let mut n: usize = 0;
        if self.open_ai.is_some() {
            n += 1;
        }
        if self.anthropic.is_some() {
            n += 1;
        }
        if self.ollama.is_some() {
            n += 1;
        }
        if self.mock.is_some() {
            n += 1;
        }
        if self.deep_seek.is_some() {
            n += 1;
        }
        if self.groq.is_some() {
            n += 1;
        }
        if self.kimi.is_some() {
            n += 1;
        }
        if self.glm.is_some() {
            n += 1;
        }
        n
    }

    /// Whether no provider has a configuration.
    pub fn is_empty(&self) -> (r: bool)
        ensures
            r == (self.count() == 0),
            r == forall|kind: AiProviderType| self.slot(kind) is None,
    {
        let r = self.len() == 0;
        proof {
            if !r {
                let kind = if self.open_ai is Some {
                    AiProviderType::OpenAi
                } else if self.anthropic is Some {
                    AiProviderType::Anthropic
                } else if self.ollama is Some {
                    AiProviderType::Ollama
                } else if self.mock is Some {
                    AiProviderType::Mock
                } else if self.deep_seek is Some {
                    AiProviderType::DeepSeek
                } else if self.groq is Some {
                    AiProviderType::Groq
                } else if self.kimi is Some {
                    AiProviderType::Kimi
                } else {
                    AiProviderType::Glm
                };
                assert(self.slot(kind) is Some);
            }
        }
        r
    }
}

/// Which model serves which kind of request.
#[derive(Debug, Clone, PartialEq)]
pub struct RoutingRules {
    pub simple: String,
    pub complex: String,
    pub free: String,
}

impl RoutingRules {
    /// Whether these are the rules that a configuration starts with.
    pub open spec fn is_default(self) -> bool {
        &&& self.simple@ == "gpt-4o-mini"@
        &&& self.complex@ == "gpt-4o"@
        &&& self.free@ == "deepseek-chat"@
    }
}

impl Default for RoutingRules {
    fn default() -> (r: Self)
        ensures
            r.is_default(),
    {
        RoutingRules {
            simple: "gpt-4o-mini".to_string(),
            complex: "gpt-4o".to_string(),
            free: "deepseek-chat".to_string(),
        }
    }
}

/// How many tokens may be spent.
#[derive(Debug, Clone, Copy, PartialEq, Eq, Structural)]
pub struct UsageLimits {
    pub review_budget: usize,
    pub analysis_budget: usize,
}

impl Default for UsageLimits {
    fn default() -> (r: Self)
        ensures
            r == (UsageLimits { review_budget: 2000, analysis_budget: 4000 }),
    {
        UsageLimits { review_budget: 2000, analysis_budget: 4000 }
    }
}

/// A configuration file as it was found.
#[derive(Debug, Clone, PartialEq)]
pub struct FileConfig {
    pub enabled: bool,
    pub override_env: bool,
    pub version: String,
    /// Where the file lies.
    pub config_path: String,
}

/// How conversations are recorded.
#[derive(Debug, Clone, PartialEq)]
pub struct ThreadConfig {
    pub enabled: bool,
    /// The directory that the records go to.
    pub storage_path: String,
    pub filename_template: String,
    /// The least length of a summary.
    pub min_summary_length: usize,
    /// The greatest length of a summary.
    pub max_summary_length: usize,
    /// The words that mark a paragraph as a summary.
    pub summary_keywords: Vec<String>,
    /// Whether the model is told that the conversation is recorded.
    pub inform_ai: bool,
    pub inform_message: String,
}

/// The words that mark a summary where none are configured.
pub open spec fn default_keywords() -> Seq<Seq<char>> {
    seq![
        "总结"@,
        "总之"@,
        "综上所述"@,
        "总的来说"@,
        "结论"@,
        "概要"@,
        "摘要"@,
        "最终"@,
        "归纳起来"@,
        "简而言之"@,
        "简单来说"@,
        "总体而言"@,
        "整体来看"@,
        "整体而言"@,
        "从整体上"@,
        "总体来说"@,
        "大体而言"@,
        "大体来说"@,
        "基本上"@,
        "基本而言"@,
        "summary"@,
        "conclusion"@,
        "in summary"@,
        "to summarize"@,
        "in conclusion"@,
        "to conclude"@,
        "overall"@,
        "in short"@,
        "briefly"@,
        "in brief"@,
        "essentially"@,
        "basically"@,
        "ultimately"@,
        "finally"@,
        "in essence"@,
        "to sum up"@,
    ]
}

/// The words that mark a summary where none are configured.
pub fn default_thread_summary_keywords() -> (out: Vec<String>)
    ensures
        views(out@) == default_keywords(),
{
    let out = vec![
        "总结".to_string(),
        "总之".to_string(),
        "综上所述".to_string(),
        "总的来说".to_string(),
        "结论".to_string(),
        "概要".to_string(),
        "摘要".to_string(),
        "最终".to_string(),
        "归纳起来".to_string(),
        "简而言之".to_string(),
        "简单来说".to_string(),
        "总体而言".to_string(),
        "整体来看".to_string(),
        "整体而言".to_string(),
        "从整体上".to_string(),
        "总体来说".to_string(),
        "大体而言".to_string(),
        "大体来说".to_string(),
        "基本上".to_string(),
        "基本而言".to_string(),
        "summary".to_string(),
        "conclusion".to_string(),
        "in summary".to_string(),
        "to summarize".to_string(),
        "in conclusion".to_string(),
        "to conclude".to_string(),
        "overall".to_string(),
        "in short".to_string(),
        "briefly".to_string(),
        "in brief".to_string(),
        "essentially".to_string(),
        "basically".to_string(),
        "ultimately".to_string(),
        "finally".to_string(),
        "in essence".to_string(),
        "to sum up".to_string(),
    ];
    assert(views(out@) =~= default_keywords());
    out
}

impl ThreadConfig {
    /// Whether this is the configuration that recording starts with:
    /// switched off, into `./threads`, summaries of 200 to 250 characters.
    pub open spec fn is_default(self) -> bool {
        &&& !self.enabled
        &&& self.storage_path@ == "./threads"@
        &&& self.filename_template@ == "thread-YYYY-MM-DD.md"@
        &&& self.min_summary_length == 200
        &&& self.max_summary_length == 250
        &&& views(self.summary_keywords@) == default_keywords()
        &&& !self.inform_ai
        &&& self.inform_message@
            == "【Thread记录已启用】本次对话正在被记录，请确保回答内容适合记录和分析。"@
    }
}

impl Default for ThreadConfig {
    fn default() -> (r: Self)
        ensures
            r.is_default(),
    {
        ThreadConfig {
            enabled: false,
            storage_path: "./threads".to_string(),
            filename_template: "thread-YYYY-MM-DD.md".to_string(),
            min_summary_length: 200,
            max_summary_length: 250,
            summary_keywords: default_thread_summary_keywords(),
            inform_ai: false,
            inform_message: "【Thread记录已启用】本次对话正在被记录，请确保回答内容适合记录和分析。".to_string(),
        }
    }
}

/// The configuration as a whole.
#[derive(Debug, Clone, PartialEq)]
pub struct AiConfig {
    pub providers: ProviderTable,
    pub routing: RoutingRules,
    pub limits: UsageLimits,
    pub thread: ThreadConfig,
}

/// `length`, or `fallback` in place of zero.
pub open spec fn length_or(length: usize, fallback: usize) -> usize {
    if length == 0 {
        fallback
    } else {
        length
    }
}

/// The name of the environment variable that holds the key of a provider
/// without a configuration; none for the providers that need no key.
pub open spec fn key_variable_of(provider: AiProviderType) -> Option<Seq<char>> {
    match provider {
        AiProviderType::OpenAi => Some("OPENAI_API_KEY"@),
        AiProviderType::Anthropic => Some("CLAUDE_API_KEY"@),
        AiProviderType::Ollama => None,
        AiProviderType::Mock => None,
        AiProviderType::DeepSeek => Some("DEEPSEEK_API_KEY"@),
        AiProviderType::Groq => Some("GROQ_API_KEY"@),
        AiProviderType::Kimi => Some("KIMI_API_KEY"@),
        AiProviderType::Glm => Some("GLM_API_KEY"@),
    }
}

/// The name of the environment variable that holds the key of a provider
/// without a configuration.
pub fn key_variable(provider: AiProviderType) -> (r: Option<&'static str>)
    ensures
        match r {
            Some(name) => key_variable_of(provider) == Some(name@),
            None => key_variable_of(provider) is None,
        },
{
    match provider {
        AiProviderType::OpenAi => Some("OPENAI_API_KEY"),
        AiProviderType::Anthropic => Some("CLAUDE_API_KEY"),
        AiProviderType::Ollama => None,
        AiProviderType::Mock => None,
        AiProviderType::DeepSeek => Some("DEEPSEEK_API_KEY"),
        AiProviderType::Groq => Some("GROQ_API_KEY"),
        AiProviderType::Kimi => Some("KIMI_API_KEY"),
        AiProviderType::Glm => Some("GLM_API_KEY"),
    }
}

impl AiConfig {
    /// Whether the providers are those of the sample configuration:
    /// OpenAI, DeepSeek, GLM and Kimi, all enabled, their keys as
    /// placeholders.
    pub open spec fn has_sample_providers(self) -> bool {
        let p = self.providers;
        &&& holds(
            p.open_ai,
            true,
            "${SEC_OPENAI_API_KEY}"@,
            Some("https://api.openai.com/v1"@),
            1,
        )
        &&& holds(
            p.deep_seek,
            true,
            "${SEC_DEEPSEEK_API_KEY}"@,
            Some("https://api.deepseek.com/v1"@),
            2,
        )
        &&& holds(
            p.glm,
            true,
            "${SEC_GLM_API_KEY}"@,
            Some("https://open.bigmodel.cn/api/paas/v4"@),
            3,
        )
        &&& holds(p.kimi, true, "${SEC_KIMI_API_KEY}"@, Some("https://api.moonshot.cn/v1"@), 4)
        &&& p.anthropic is None
        &&& p.ollama is None
        &&& p.mock is None
        &&& p.groq is None
    }

    /// Whether the providers are those of the starting configuration:
    /// OpenAI, DeepSeek and the mock enabled; Groq, Anthropic and Ollama
    /// known but switched off.
    pub open spec fn has_starting_providers(self) -> bool {
        let p = self.providers;
        &&& holds(p.open_ai, true, "${OPENAI_API_KEY}"@, Some("https://api.openai.com/v1"@), 1)
        &&& holds(
            p.deep_seek,
            true,
            "${DEEPSEEK_API_KEY}"@,
            Some("https://api.deepseek.com/v1"@),
            2,
        )
        &&& holds(p.groq, false, "${GROQ_API_KEY}"@, Some("https://api.groq.com/openai/v1"@), 3)
        &&& holds(p.mock, true, "mock"@, None, 999)
        &&& holds(p.anthropic, false, "${CLAUDE_API_KEY}"@, None, 4)
        &&& holds(p.ollama, false, "${OLLAMA_MODEL}"@, Some("http://localhost:11434"@), 5)
        &&& p.kimi is None
        &&& p.glm is None
    }

    /// A sample configuration for OpenAI, DeepSeek, GLM and Kimi.
    pub fn example() -> (r: Self)
        ensures
            r.has_sample_providers(),
            r.routing.is_default(),
            r.limits == (UsageLimits { review_budget: 2000, analysis_budget: 4000 }),
            r.thread.is_default(),
    {
        let mut providers = ProviderTable::new();
        providers.insert(
            AiProviderType::OpenAi,
            provider(true, "${SEC_OPENAI_API_KEY}", Some("https://api.openai.com/v1"), 1),
        );
        providers.insert(
            AiProviderType::DeepSeek,
            provider(true, "${SEC_DEEPSEEK_API_KEY}", Some("https://api.deepseek.com/v1"), 2),
        );
        providers.insert(
            AiProviderType::Glm,
            provider(true, "${SEC_GLM_API_KEY}", Some("https://open.bigmodel.cn/api/paas/v4"), 3),
        );
        providers.insert(
            AiProviderType::Kimi,
            provider(true, "${SEC_KIMI_API_KEY}", Some("https://api.moonshot.cn/v1"), 4),
        );
        proof {
            assert(providers.slot(AiProviderType::OpenAi) == providers.open_ai);
            assert(providers.slot(AiProviderType::DeepSeek) == providers.deep_seek);
            assert(providers.slot(AiProviderType::Glm) == providers.glm);
            assert(providers.slot(AiProviderType::Kimi) == providers.kimi);
            assert(providers.slot(AiProviderType::Anthropic) == providers.anthropic);
            assert(providers.slot(AiProviderType::Ollama) == providers.ollama);
            assert(providers.slot(AiProviderType::Mock) == providers.mock);
            assert(providers.slot(AiProviderType::Groq) == providers.groq);
        }
        AiConfig {
            providers,
            routing: RoutingRules::default(),
            limits: UsageLimits::default(),
            thread: ThreadConfig::default(),
        }
    }

    /// The configuration that is used where none is given. Keys are
    /// placeholders that name environment variables; nothing is read.
    pub fn from_env() -> (r: Self)
        ensures
            r.has_starting_providers(),
            r.routing.is_default(),
            r.limits == (UsageLimits { review_budget: 2000, analysis_budget: 4000 }),
            r.thread.is_default(),
    {
        let mut providers = ProviderTable::new();
        providers.insert(
            AiProviderType::OpenAi,
            provider(true, "${OPENAI_API_KEY}", Some("https://api.openai.com/v1"), 1),
        );
        providers.insert(
            AiProviderType::DeepSeek,
            provider(true, "${DEEPSEEK_API_KEY}", Some("https://api.deepseek.com/v1"), 2),
        );
        providers.insert(
            AiProviderType::Groq,
            provider(false, "${GROQ_API_KEY}", Some("https://api.groq.com/openai/v1"), 3),
        );
        providers.insert(AiProviderType::Mock, provider(true, "mock", None, 999));
        providers.insert(AiProviderType::Anthropic, provider(false, "${CLAUDE_API_KEY}", None, 4));
        providers.insert(
            AiProviderType::Ollama,
            provider(false, "${OLLAMA_MODEL}", Some("http://localhost:11434"), 5),
        );
        proof {
            assert(providers.slot(AiProviderType::OpenAi) == providers.open_ai);
            assert(providers.slot(AiProviderType::DeepSeek) == providers.deep_seek);
            assert(providers.slot(AiProviderType::Glm) == providers.glm);
            assert(providers.slot(AiProviderType::Kimi) == providers.kimi);
            assert(providers.slot(AiProviderType::Anthropic) == providers.anthropic);
            assert(providers.slot(AiProviderType::Ollama) == providers.ollama);
            assert(providers.slot(AiProviderType::Mock) == providers.mock);
            assert(providers.slot(AiProviderType::Groq) == providers.groq);
        }
        AiConfig {
            providers,
            routing: RoutingRules::default(),
            limits: UsageLimits::default(),
            thread: ThreadConfig::default(),
        }
    }

    /// The key of a provider. With a configuration it is the configured
    /// key, and none where the provider is switched off. Without one,
    /// Ollama and the mock have fixed keys, and any other provider has
    /// `from_environment`: what the host found under [`key_variable`].
    pub fn get_api_key(&self, provider: AiProviderType, from_environment: Option<String>) -> (r:
        Option<String>)
        ensures
            option_view(r) == match self.providers.slot(provider) {
                Some(config) => if config.enabled {
                    Some(config.api_key@)
                } else {
                    None
                },
                None => match provider {
                    AiProviderType::Ollama => Some("ollama"@),
                    AiProviderType::Mock => Some("mock"@),
                    _ => option_view(from_environment),
                },
            },
    {
        match self.providers.get(&provider) {
            Some(config) => {
                if config.enabled {
                    Some(config.api_key.clone())
                } else {
                    None
                }
            },
            None => match provider {
                AiProviderType::Ollama => Some("ollama".to_string()),
                AiProviderType::Mock => Some("mock".to_string()),
                _ => from_environment,
            },
        }
    }

    /// Completes the recording configuration: an empty path becomes
    /// `./threads`, a length of zero becomes 200 (the least) or 250 (the
    /// greatest), and the keywords, or the default ones where there are
    /// none, are put in ascending order, each once. A least length over
    /// the greatest is refused, with path and lengths completed and the
    /// keywords untouched.
    pub fn validate_and_postprocess(&mut self) -> (r: AiResult<()>)
        ensures
            final(self).providers == old(self).providers,
            final(self).routing == old(self).routing,
            final(self).limits == old(self).limits,
            final(self).thread.enabled == old(self).thread.enabled,
            final(self).thread.filename_template == old(self).thread.filename_template,
            final(self).thread.inform_ai == old(self).thread.inform_ai,
            final(self).thread.inform_message == old(self).thread.inform_message,
            final(self).thread.storage_path@ == if old(self).thread.storage_path@.len() == 0 {
                "./threads"@
            } else {
                old(self).thread.storage_path@
            },
            final(self).thread.min_summary_length == length_or(
                old(self).thread.min_summary_length,
                200,
            ),
            final(self).thread.max_summary_length == length_or(
                old(self).thread.max_summary_length,
                250,
            ),
            r is Err <==> length_or(old(self).thread.min_summary_length, 200) > length_or(
                old(self).thread.max_summary_length,
                250,
            ),
            r matches Err(e) ==> e matches AiError::Config(why) && why@
                == "Thread min_summary_length cannot be greater than max_summary_length"@,
            r is Err ==> final(self).thread.summary_keywords == old(self).thread.summary_keywords,
            r is Ok ==> ascending(views(final(self).thread.summary_keywords@)) && views(
                final(self).thread.summary_keywords@,
            ).to_set() == (if old(self).thread.summary_keywords@.len() == 0 {
                default_keywords()
            } else {
                views(old(self).thread.summary_keywords@)
            }).to_set(),
    {
        if self.thread.storage_path.as_str().is_empty() {
            self.thread.storage_path = "./threads".to_string();
        }
        if self.thread.min_summary_length == 0 {
            self.thread.min_summary_length = 200;
        }
        if self.thread.max_summary_length == 0 {
            self.thread.max_summary_length = 250;
        }
        if self.thread.min_summary_length > self.thread.max_summary_length {
            return Err(
                AiError::Config(
                    "Thread min_summary_length cannot be greater than max_summary_length".to_string(),
                ),
            );
        }
        let sorted = if self.thread.summary_keywords.len() == 0 {
            let defaults = default_thread_summary_keywords();
            sorted_once(&defaults)
        } else {
            sorted_once(&self.thread.summary_keywords)
        };
        self.thread.summary_keywords = sorted;
        Ok(())
    }
}

impl Default for AiConfig {
    fn default() -> (r: Self)
        ensures
            r.has_starting_providers(),
            r.routing.is_default(),
            r.thread.is_default(),
    {
        AiConfig::from_env()
    }
}

} // verus!
