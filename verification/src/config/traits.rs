//! Questions that are asked of a configuration.

use vstd::prelude::*;
use crate::config::structures::{AiConfig, ProviderTable};
use crate::provider::AiProviderType;

verus! {

/// The provider at a place of the fixed order of providers.
pub open spec fn kind_at(place: nat) -> AiProviderType {
    if place == 0 {
        AiProviderType::OpenAi
    } else if place == 1 {
        AiProviderType::Anthropic
    } else if place == 2 {
        AiProviderType::Ollama
    } else if place == 3 {
        AiProviderType::Mock
    } else if place == 4 {
        AiProviderType::DeepSeek
    } else if place == 5 {
        AiProviderType::Groq
    } else if place == 6 {
        AiProviderType::Kimi
    } else {
        AiProviderType::Glm
    }
}

/// The place of a provider in the fixed order.
pub open spec fn place_of_kind(kind: AiProviderType) -> nat {
    match kind {
        AiProviderType::OpenAi => 0,
        AiProviderType::Anthropic => 1,
        AiProviderType::Ollama => 2,
        AiProviderType::Mock => 3,
        AiProviderType::DeepSeek => 4,
        AiProviderType::Groq => 5,
        AiProviderType::Kimi => 6,
        AiProviderType::Glm => 7,
    }
}

/// The enabled providers among the first `n` of the fixed order, in that
/// order.
pub open spec fn enabled_among(table: ProviderTable, n: nat) -> Seq<AiProviderType>
    decreases n,
{
    if n == 0 {
        Seq::empty()
    } else {
        let earlier = enabled_among(table, (n - 1) as nat);
        if table.enables(kind_at((n - 1) as nat)) {
            earlier.push(kind_at((n - 1) as nat))
        } else {
            earlier
        }
    }
}

/// A provider is among the enabled ones of the first `n` exactly if it is
/// one of the first `n` and enabled, and none is there twice.
pub proof fn lemma_enabled_among(table: ProviderTable, n: nat)
    requires
        n <= 8,
    ensures
        forall|kind: AiProviderType|
            #![trigger enabled_among(table, n).contains(kind)]
            enabled_among(table, n).contains(kind) <==> place_of_kind(kind) < n && table.enables(
                kind,
            ),
        enabled_among(table, n).no_duplicates(),
    decreases n,
{
    let now = enabled_among(table, n);
    if n == 0 {
        assert forall|kind: AiProviderType| !now.contains(kind) by {}
    } else {
        let earlier = enabled_among(table, (n - 1) as nat);
        let last = kind_at((n - 1) as nat);
        lemma_enabled_among(table, (n - 1) as nat);
        assert(place_of_kind(last) == n - 1);
        assert(!earlier.contains(last));
        if table.enables(last) {
            assert(now == earlier.push(last));
            assert(now[earlier.len() as int] == last);
            assert forall|kind: AiProviderType|
                now.contains(kind) <==> place_of_kind(kind) < n && table.enables(kind) by {
                assert(kind_at(place_of_kind(kind)) == kind);
                assert(earlier.contains(kind) <==> place_of_kind(kind) < n - 1 && table.enables(
                    kind,
                ));
                if earlier.contains(kind) {
                    let k = choose|k: int| 0 <= k < earlier.len() && earlier[k] == kind;
                    assert(now[k] == kind);
                }
                if now.contains(kind) {
                    let k = choose|k: int| 0 <= k < now.len() && now[k] == kind;
                    if k < earlier.len() {
                        assert(earlier[k] == kind);
                        assert(earlier.contains(kind));
                    }
                }
            }
            assert forall|i: int, j: int|
                0 <= i < now.len() && 0 <= j < now.len() && i != j implies now[i] != now[j] by {
                if i < earlier.len() {
                    assert(earlier.contains(earlier[i]));
                }
                if j < earlier.len() {
                    assert(earlier.contains(earlier[j]));
                }
            }
        } else {
            assert(now == earlier);
            assert forall|kind: AiProviderType|
                now.contains(kind) <==> place_of_kind(kind) < n && table.enables(kind) by {
                assert(kind_at(place_of_kind(kind)) == kind);
                assert(earlier.contains(kind) <==> place_of_kind(kind) < n - 1 && table.enables(
                    kind,
                ));
            }
        }
    }
}

/// Questions that are asked of a configuration.
pub trait ConfigExt {
    /// Whether the configuration can be used.
    fn is_valid(&self) -> bool;

    /// The providers that are enabled.
    fn enabled_providers(&self) -> Vec<AiProviderType>;

    /// Whether an analysis may spend so many tokens.
    fn has_analysis_budget(&self, tokens: usize) -> bool;

    /// Whether a review may spend so many tokens.
    fn has_review_budget(&self, tokens: usize) -> bool;
}

impl ConfigExt for AiConfig {
    /// A configuration can be used where a provider is configured, each
    /// kind of request has its model, and both budgets are positive.
    fn is_valid(&self) -> (r: bool)
        ensures
            r == (self.providers.count() > 0 && self.routing.simple@.len() > 0
                && self.routing.complex@.len() > 0 && self.routing.free@.len() > 0
                && self.limits.review_budget > 0 && self.limits.analysis_budget > 0),
    {
        !self.providers.is_empty() && !self.routing.simple.as_str().is_empty()
            && !self.routing.complex.as_str().is_empty() && !self.routing.free.as_str().is_empty()
            && self.limits.review_budget > 0 && self.limits.analysis_budget > 0
    }

    /// The enabled providers, in the fixed order of providers.
    fn enabled_providers(&self) -> (out: Vec<AiProviderType>)
        ensures
            out@ == enabled_among(self.providers, 8),
            out@.no_duplicates(),
            forall|kind: AiProviderType| out@.contains(kind) <==> self.providers.enables(kind),
    {
        let kinds = [
            AiProviderType::OpenAi,
            AiProviderType::Anthropic,
            AiProviderType::Ollama,
            AiProviderType::Mock,
            AiProviderType::DeepSeek,
            AiProviderType::Groq,
            AiProviderType::Kimi,
            AiProviderType::Glm,
        ];
        let mut out: Vec<AiProviderType> = Vec::new();
        let mut i: usize = 0;
        while i < 8
            invariant
                0 <= i <= 8,
                kinds@.len() == 8,
                forall|k: int| 0 <= k < 8 ==> kinds@[k] == kind_at(k as nat),
                out@ == enabled_among(self.providers, i as nat),
            decreases 8 - i,
        {
            let kind = kinds[i];
            let enabled = match self.providers.get(&kind) {
                Some(config) => config.enabled,
                None => false,
            };
            if enabled {
                out.push(kind);
            }
            i += 1;
        }
        proof {
            lemma_enabled_among(self.providers, 8);
        }
        out
    }

    fn has_analysis_budget(&self, tokens: usize) -> (r: bool)
        ensures
            r == (tokens <= self.limits.analysis_budget),
    {
        tokens <= self.limits.analysis_budget
    }

    fn has_review_budget(&self, tokens: usize) -> (r: bool)
        ensures
            r == (tokens <= self.limits.review_budget),
    {
        tokens <= self.limits.review_budget
    }
}

} // verus!
