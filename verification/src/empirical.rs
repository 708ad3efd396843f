//! Model and prompt protocols, repeated-sampling protocols, and the
//! empirical action and communication distributions estimated over the
//! seven diagnostic choices, with their basis-point shares.

use vstd::prelude::*;
use crate::lane::{LaneIntent, LanePingSignal};
use crate::semantic::{
    catalog_domains, choice_for_id, choice_of_domain, lemma_choices_found_by_id,
    lemma_semantic_profiles_found_by_id, semantic_profile_for, DiagnosticChoiceCatalog,
    DiagnosticChoiceDomain, SemanticProfileVocabulary, CAUTIOUS_SEMANTIC_PROFILE_ID,
    RISK_TAKING_SEMANTIC_PROFILE_ID, YIELDING_SEMANTIC_PROFILE_ID,
};
use crate::text::{decimal, push_decimal, push_str, str_eq};

verus! {

/// Versioned identity for model and prompt protocols.
pub const MODEL_PROMPT_PROTOCOL_SCHEMA: &'static str = "m7-model-prompt-protocol-v1";

pub const MODEL_PROMPT_REFERENCE_STANDARD_ID: &'static str = "model-prompt-reference-standard-v1";

pub const MODEL_PROMPT_REFERENCE_DIAGNOSTIC_ID: &'static str = "model-prompt-reference-diagnostic-v1";

pub const MODEL_PROMPT_ALTERNATIVE_DIAGNOSTIC_ID: &'static str =
    "model-prompt-alternative-diagnostic-v1";

/// Versioned identity for repeated-sampling protocols.
pub const REPEATED_SAMPLING_PROTOCOL_SCHEMA: &'static str = "m7-repeated-sampling-protocol-v1";

pub const SAMPLING_STANDARD_REPEAT_10_ID: &'static str = "sampling-standard-repeat-10-v1";

pub const SAMPLING_DIAGNOSTIC_REPEAT_30_ID: &'static str = "sampling-diagnostic-repeat-30-v1";

pub const SAMPLING_QUICK_CHECK_5_ID: &'static str = "sampling-quick-check-5-v1";

/// Versioned schema for the diagnostic choice empirical distribution estimation report.
pub const EMPIRICAL_DISTRIBUTION_ESTIMATION_SCHEMA: &'static str =
    "m7-empirical-distribution-estimation-v1";

/// Versioned schema for diagnostic choice action distributions.
pub const EMPIRICAL_ACTION_DISTRIBUTION_SCHEMA: &'static str = "m7-empirical-action-distribution-v1";

/// Versioned schema for diagnostic choice communication distributions.
pub const EMPIRICAL_COMMUNICATION_DISTRIBUTION_SCHEMA: &'static str =
    "m7-empirical-communication-distribution-v1";

/// Basis-point scale for empirical distribution estimation (10,000 basis points = 100.00%).
pub const EMPIRICAL_DISTRIBUTION_SCALE_BASIS_POINTS: u16 = 10_000;

/// Errors raised when validating model and prompt version protocol definitions.
#[derive(Clone, Copy, Debug, PartialEq, Eq, Hash, Structural)]
pub enum ModelPromptProtocolError {
    UnknownProtocol,
    InvalidTemperature,
    InvalidTopP,
    PrivateChainOfThoughtForbidden,
}

/// Structured protocol for model family, prompt template, and sampling parameter bounds.
#[derive(Clone, Copy, Debug, PartialEq, Eq, Hash)]
pub struct ModelPromptProtocolDefinition {
    pub protocol_id: &'static str,
    pub schema: &'static str,
    pub model_family_id: &'static str,
    pub prompt_template_id: &'static str,
    pub system_prompt_version: &'static str,
    pub temperature_centiperc: u16,
    pub top_p_centiperc: u16,
    pub requires_structured_output: bool,
    pub chain_of_thought_required: bool,
}

/// The content of a model and prompt protocol.
pub struct ModelPromptView {
    pub protocol_id: Seq<char>,
    pub schema: Seq<char>,
    pub model_family_id: Seq<char>,
    pub prompt_template_id: Seq<char>,
    pub system_prompt_version: Seq<char>,
    pub temperature_centiperc: u16,
    pub top_p_centiperc: u16,
    pub requires_structured_output: bool,
    pub chain_of_thought_required: bool,
}

impl View for ModelPromptProtocolDefinition {
    type V = ModelPromptView;

    open spec fn view(&self) -> ModelPromptView {
        ModelPromptView {
            protocol_id: self.protocol_id@,
            schema: self.schema@,
            model_family_id: self.model_family_id@,
            prompt_template_id: self.prompt_template_id@,
            system_prompt_version: self.system_prompt_version@,
            temperature_centiperc: self.temperature_centiperc,
            top_p_centiperc: self.top_p_centiperc,
            requires_structured_output: self.requires_structured_output,
            chain_of_thought_required: self.chain_of_thought_required,
        }
    }
}

/// A catalog model/prompt protocol from its identity, family, template and sampling bounds.
pub open spec fn model_prompt_view(
    id: Seq<char>,
    family: Seq<char>,
    template: Seq<char>,
    temperature: u16,
    top_p: u16,
) -> ModelPromptView {
    ModelPromptView {
        protocol_id: id,
        schema: MODEL_PROMPT_PROTOCOL_SCHEMA@,
        model_family_id: family,
        prompt_template_id: template,
        system_prompt_version: "sysprompt-actor-contract-v1"@,
        temperature_centiperc: temperature,
        top_p_centiperc: top_p,
        requires_structured_output: true,
        chain_of_thought_required: false,
    }
}

pub open spec fn reference_standard() -> ModelPromptView {
    model_prompt_view(
        MODEL_PROMPT_REFERENCE_STANDARD_ID@,
        "model-family-reference-v1"@,
        "prompt-template-lane-standard-v1"@,
        70,
        95,
    )
}

pub open spec fn reference_diagnostic() -> ModelPromptView {
    model_prompt_view(
        MODEL_PROMPT_REFERENCE_DIAGNOSTIC_ID@,
        "model-family-reference-v1"@,
        "prompt-template-lane-diagnostic-v1"@,
        50,
        90,
    )
}

pub open spec fn alternative_diagnostic() -> ModelPromptView {
    model_prompt_view(
        MODEL_PROMPT_ALTERNATIVE_DIAGNOSTIC_ID@,
        "model-family-alternative-v1"@,
        "prompt-template-lane-diagnostic-v1"@,
        50,
        90,
    )
}

/// The bounds check of a model/prompt protocol.
pub open spec fn model_prompt_check(v: ModelPromptView) -> Result<(), ModelPromptProtocolError> {
    if v.temperature_centiperc > 200 {
        Err(ModelPromptProtocolError::InvalidTemperature)
    } else if v.top_p_centiperc > 100 {
        Err(ModelPromptProtocolError::InvalidTopP)
    } else if v.chain_of_thought_required {
        Err(ModelPromptProtocolError::PrivateChainOfThoughtForbidden)
    } else {
        Ok(())
    }
}

/// The model/prompt protocol registered under an identity, if any.
pub open spec fn model_prompt_for(id: Seq<char>) -> Option<ModelPromptView> {
    if id == MODEL_PROMPT_REFERENCE_STANDARD_ID@ {
        Some(reference_standard())
    } else if id == MODEL_PROMPT_REFERENCE_DIAGNOSTIC_ID@ {
        Some(reference_diagnostic())
    } else if id == MODEL_PROMPT_ALTERNATIVE_DIAGNOSTIC_ID@ {
        Some(alternative_diagnostic())
    } else {
        None
    }
}

impl ModelPromptProtocolDefinition {
    /// Reference model with standard decision prompt protocol.
    pub fn reference_standard_v1() -> (r: Self)
        ensures
            r@ == reference_standard(),
    {
        Self {
            protocol_id: MODEL_PROMPT_REFERENCE_STANDARD_ID,
            schema: MODEL_PROMPT_PROTOCOL_SCHEMA,
            model_family_id: "model-family-reference-v1",
            prompt_template_id: "prompt-template-lane-standard-v1",
            system_prompt_version: "sysprompt-actor-contract-v1",
            temperature_centiperc: 70,
            top_p_centiperc: 95,
            requires_structured_output: true,
            chain_of_thought_required: false,
        }
    }

    /// Reference model with diagnostic dilemma prompt protocol.
    pub fn reference_diagnostic_v1() -> (r: Self)
        ensures
            r@ == reference_diagnostic(),
    {
        Self {
            protocol_id: MODEL_PROMPT_REFERENCE_DIAGNOSTIC_ID,
            schema: MODEL_PROMPT_PROTOCOL_SCHEMA,
            model_family_id: "model-family-reference-v1",
            prompt_template_id: "prompt-template-lane-diagnostic-v1",
            system_prompt_version: "sysprompt-actor-contract-v1",
            temperature_centiperc: 50,
            top_p_centiperc: 90,
            requires_structured_output: true,
            chain_of_thought_required: false,
        }
    }

    /// Alternative model family with diagnostic dilemma prompt protocol.
    pub fn alternative_diagnostic_v1() -> (r: Self)
        ensures
            r@ == alternative_diagnostic(),
    {
        Self {
            protocol_id: MODEL_PROMPT_ALTERNATIVE_DIAGNOSTIC_ID,
            schema: MODEL_PROMPT_PROTOCOL_SCHEMA,
            model_family_id: "model-family-alternative-v1",
            prompt_template_id: "prompt-template-lane-diagnostic-v1",
            system_prompt_version: "sysprompt-actor-contract-v1",
            temperature_centiperc: 50,
            top_p_centiperc: 90,
            requires_structured_output: true,
            chain_of_thought_required: false,
        }
    }

    pub fn protocol_id(self) -> (r: &'static str)
        ensures
            r@ == self@.protocol_id,
    {
        self.protocol_id
    }

    pub fn schema(self) -> (r: &'static str)
        ensures
            r@ == self@.schema,
    {
        self.schema
    }

    pub fn model_family_id(self) -> (r: &'static str)
        ensures
            r@ == self@.model_family_id,
    {
        self.model_family_id
    }

    pub fn prompt_template_id(self) -> (r: &'static str)
        ensures
            r@ == self@.prompt_template_id,
    {
        self.prompt_template_id
    }

    pub fn system_prompt_version(self) -> (r: &'static str)
        ensures
            r@ == self@.system_prompt_version,
    {
        self.system_prompt_version
    }

    pub fn temperature_centiperc(self) -> (r: u16)
        ensures
            r == self@.temperature_centiperc,
    {
        self.temperature_centiperc
    }

    pub fn top_p_centiperc(self) -> (r: u16)
        ensures
            r == self@.top_p_centiperc,
    {
        self.top_p_centiperc
    }

    pub fn requires_structured_output(self) -> (r: bool)
        ensures
            r == self@.requires_structured_output,
    {
        self.requires_structured_output
    }

    pub fn chain_of_thought_required(self) -> (r: bool)
        ensures
            r == self@.chain_of_thought_required,
    {
        self.chain_of_thought_required
    }

    /// Validate protocol bounds.
    pub fn validate(self) -> (r: Result<(), ModelPromptProtocolError>)
        ensures
            r == model_prompt_check(self@),
    {
        if self.temperature_centiperc > 200 {
            return Err(ModelPromptProtocolError::InvalidTemperature);
        }
        if self.top_p_centiperc > 100 {
            return Err(ModelPromptProtocolError::InvalidTopP);
        }
        if self.chain_of_thought_required {
            return Err(ModelPromptProtocolError::PrivateChainOfThoughtForbidden);
        }
        Ok(())
    }
}

/// Catalog of canonical model and prompt protocols.
#[derive(Clone, Copy, Debug, PartialEq, Eq, Hash, Structural)]
pub struct ModelPromptProtocolCatalog;

impl ModelPromptProtocolCatalog {
    /// Return all registered canonical model and prompt protocols.
    pub fn all_protocols() -> (r: [ModelPromptProtocolDefinition; 3])
        ensures
            r@.len() == 3,
            r@[0]@ == reference_standard(),
            r@[1]@ == reference_diagnostic(),
            r@[2]@ == alternative_diagnostic(),
    {
        [
            ModelPromptProtocolDefinition::reference_standard_v1(),
            ModelPromptProtocolDefinition::reference_diagnostic_v1(),
            ModelPromptProtocolDefinition::alternative_diagnostic_v1(),
        ]
    }

    /// Lookup a model/prompt protocol by its stable ID.
    pub fn lookup(protocol_id: &str) -> (r: Option<ModelPromptProtocolDefinition>)
        ensures
            match r {
                Some(d) => model_prompt_for(protocol_id@) == Some(d@),
                None => model_prompt_for(protocol_id@) is None,
            },
    {
        if str_eq(protocol_id, MODEL_PROMPT_REFERENCE_STANDARD_ID) {
            Some(ModelPromptProtocolDefinition::reference_standard_v1())
        } else if str_eq(protocol_id, MODEL_PROMPT_REFERENCE_DIAGNOSTIC_ID) {
            Some(ModelPromptProtocolDefinition::reference_diagnostic_v1())
        } else if str_eq(protocol_id, MODEL_PROMPT_ALTERNATIVE_DIAGNOSTIC_ID) {
            Some(ModelPromptProtocolDefinition::alternative_diagnostic_v1())
        } else {
            None
        }
    }

    /// Validate that a protocol ID exists in the catalog and meets bounds.
    pub fn validate_protocol_id(protocol_id: &str) -> (r: Result<
        ModelPromptProtocolDefinition,
        ModelPromptProtocolError,
    >)
        ensures
            match model_prompt_for(protocol_id@) {
                None => r == Err::<ModelPromptProtocolDefinition, _>(
                    ModelPromptProtocolError::UnknownProtocol,
                ),
                Some(v) => match model_prompt_check(v) {
                    Err(e) => r == Err::<ModelPromptProtocolDefinition, _>(e),
                    Ok(_) => r is Ok && r->Ok_0@ == v,
                },
            },
    {
        let def = match Self::lookup(protocol_id) {
            Some(d) => d,
            None => {
                return Err(ModelPromptProtocolError::UnknownProtocol);
            },
        };
        match def.validate() {
            Ok(()) => Ok(def),
            Err(e) => Err(e),
        }
    }
}

/// Each catalog model/prompt protocol is found under its own identity and
/// meets the protocol bounds.
pub proof fn lemma_model_prompt_catalog_sound()
    ensures
        model_prompt_for(reference_standard().protocol_id) == Some(reference_standard()),
        model_prompt_for(reference_diagnostic().protocol_id) == Some(reference_diagnostic()),
        model_prompt_for(alternative_diagnostic().protocol_id) == Some(alternative_diagnostic()),
        model_prompt_check(reference_standard()) is Ok,
        model_prompt_check(reference_diagnostic()) is Ok,
        model_prompt_check(alternative_diagnostic()) is Ok,
{
    reveal_strlit("model-prompt-reference-standard-v1");
    reveal_strlit("model-prompt-reference-diagnostic-v1");
    reveal_strlit("model-prompt-alternative-diagnostic-v1");
    assert("model-prompt-reference-standard-v1"@[13] == 'r');
    assert("model-prompt-reference-diagnostic-v1"@[13] == 'r');
    assert("model-prompt-alternative-diagnostic-v1"@[13] == 'a');
    assert("model-prompt-reference-standard-v1"@[23] == 's');
    assert("model-prompt-reference-diagnostic-v1"@[23] == 'd');
}

/// Errors raised when validating repeated-sampling protocol definitions.
#[derive(Clone, Copy, Debug, PartialEq, Eq, Hash, Structural)]
pub enum RepeatedSamplingProtocolError {
    UnknownProtocol,
    InvalidSampleCount,
    InvalidMaxRetries,
    InvalidSeedOffsetStep,
}

/// Structured protocol for repeated empirical sampling schedules and retry budgets.
#[derive(Clone, Copy, Debug, PartialEq, Eq, Hash)]
pub struct RepeatedSamplingProtocolDefinition {
    pub protocol_id: &'static str,
    pub schema: &'static str,
    pub sample_count: u16,
    pub seed_offset_step: u32,
    pub max_repair_retries: u8,
    pub fail_closed_on_unrepaired: bool,
}

/// The content of a repeated-sampling protocol.
pub struct SamplingView {
    pub protocol_id: Seq<char>,
    pub schema: Seq<char>,
    pub sample_count: u16,
    pub seed_offset_step: u32,
    pub max_repair_retries: u8,
    pub fail_closed_on_unrepaired: bool,
}

impl View for RepeatedSamplingProtocolDefinition {
    type V = SamplingView;

    open spec fn view(&self) -> SamplingView {
        SamplingView {
            protocol_id: self.protocol_id@,
            schema: self.schema@,
            sample_count: self.sample_count,
            seed_offset_step: self.seed_offset_step,
            max_repair_retries: self.max_repair_retries,
            fail_closed_on_unrepaired: self.fail_closed_on_unrepaired,
        }
    }
}

/// A catalog sampling protocol from its identity, sample count and retry budget.
pub open spec fn sampling_view(id: Seq<char>, samples: u16, retries: u8) -> SamplingView {
    SamplingView {
        protocol_id: id,
        schema: REPEATED_SAMPLING_PROTOCOL_SCHEMA@,
        sample_count: samples,
        seed_offset_step: 1,
        max_repair_retries: retries,
        fail_closed_on_unrepaired: true,
    }
}

/// The bounds check of a sampling protocol.
pub open spec fn sampling_check(v: SamplingView) -> Result<(), RepeatedSamplingProtocolError> {
    if v.sample_count == 0 || v.sample_count > 100 {
        Err(RepeatedSamplingProtocolError::InvalidSampleCount)
    } else if v.seed_offset_step == 0 {
        Err(RepeatedSamplingProtocolError::InvalidSeedOffsetStep)
    } else if v.max_repair_retries > 10 {
        Err(RepeatedSamplingProtocolError::InvalidMaxRetries)
    } else {
        Ok(())
    }
}

/// The sampling protocol registered under an identity, if any.
pub open spec fn sampling_for(id: Seq<char>) -> Option<SamplingView> {
    if id == SAMPLING_STANDARD_REPEAT_10_ID@ {
        Some(sampling_view(SAMPLING_STANDARD_REPEAT_10_ID@, 10, 3))
    } else if id == SAMPLING_DIAGNOSTIC_REPEAT_30_ID@ {
        Some(sampling_view(SAMPLING_DIAGNOSTIC_REPEAT_30_ID@, 30, 3))
    } else if id == SAMPLING_QUICK_CHECK_5_ID@ {
        Some(sampling_view(SAMPLING_QUICK_CHECK_5_ID@, 5, 2))
    } else {
        None
    }
}

impl RepeatedSamplingProtocolDefinition {
    /// Standard 10-repeat sampling protocol.
    pub fn standard_repeat_10_v1() -> (r: Self)
        ensures
            r@ == sampling_view(SAMPLING_STANDARD_REPEAT_10_ID@, 10, 3),
    {
        Self {
            protocol_id: SAMPLING_STANDARD_REPEAT_10_ID,
            schema: REPEATED_SAMPLING_PROTOCOL_SCHEMA,
            sample_count: 10,
            seed_offset_step: 1,
            max_repair_retries: 3,
            fail_closed_on_unrepaired: true,
        }
    }

    /// Comprehensive diagnostic 30-repeat sampling protocol.
    pub fn diagnostic_repeat_30_v1() -> (r: Self)
        ensures
            r@ == sampling_view(SAMPLING_DIAGNOSTIC_REPEAT_30_ID@, 30, 3),
    {
        Self {
            protocol_id: SAMPLING_DIAGNOSTIC_REPEAT_30_ID,
            schema: REPEATED_SAMPLING_PROTOCOL_SCHEMA,
            sample_count: 30,
            seed_offset_step: 1,
            max_repair_retries: 3,
            fail_closed_on_unrepaired: true,
        }
    }

    /// Quick check 5-repeat sampling protocol.
    pub fn quick_check_5_v1() -> (r: Self)
        ensures
            r@ == sampling_view(SAMPLING_QUICK_CHECK_5_ID@, 5, 2),
    {
        Self {
            protocol_id: SAMPLING_QUICK_CHECK_5_ID,
            schema: REPEATED_SAMPLING_PROTOCOL_SCHEMA,
            sample_count: 5,
            seed_offset_step: 1,
            max_repair_retries: 2,
            fail_closed_on_unrepaired: true,
        }
    }

    pub fn protocol_id(self) -> (r: &'static str)
        ensures
            r@ == self@.protocol_id,
    {
        self.protocol_id
    }

    pub fn schema(self) -> (r: &'static str)
        ensures
            r@ == self@.schema,
    {
        self.schema
    }

    pub fn sample_count(self) -> (r: u16)
        ensures
            r == self@.sample_count,
    {
        self.sample_count
    }

    pub fn seed_offset_step(self) -> (r: u32)
        ensures
            r == self@.seed_offset_step,
    {
        self.seed_offset_step
    }

    pub fn max_repair_retries(self) -> (r: u8)
        ensures
            r == self@.max_repair_retries,
    {
        self.max_repair_retries
    }

    pub fn fail_closed_on_unrepaired(self) -> (r: bool)
        ensures
            r == self@.fail_closed_on_unrepaired,
    {
        self.fail_closed_on_unrepaired
    }

    /// Validate protocol bounds.
    pub fn validate(self) -> (r: Result<(), RepeatedSamplingProtocolError>)
        ensures
            r == sampling_check(self@),
    {
        if self.sample_count == 0 || self.sample_count > 100 {
            return Err(RepeatedSamplingProtocolError::InvalidSampleCount);
        }
        if self.seed_offset_step == 0 {
            return Err(RepeatedSamplingProtocolError::InvalidSeedOffsetStep);
        }
        if self.max_repair_retries > 10 {
            return Err(RepeatedSamplingProtocolError::InvalidMaxRetries);
        }
        Ok(())
    }
}

/// Catalog of canonical repeated sampling protocols.
#[derive(Clone, Copy, Debug, PartialEq, Eq, Hash, Structural)]
pub struct RepeatedSamplingProtocolCatalog;

impl RepeatedSamplingProtocolCatalog {
    /// Return all registered canonical repeated sampling protocols.
    pub fn all_protocols() -> (r: [RepeatedSamplingProtocolDefinition; 3])
        ensures
            r@.len() == 3,
            r@[0]@ == sampling_view(SAMPLING_STANDARD_REPEAT_10_ID@, 10, 3),
            r@[1]@ == sampling_view(SAMPLING_DIAGNOSTIC_REPEAT_30_ID@, 30, 3),
            r@[2]@ == sampling_view(SAMPLING_QUICK_CHECK_5_ID@, 5, 2),
    {
        [
            RepeatedSamplingProtocolDefinition::standard_repeat_10_v1(),
            RepeatedSamplingProtocolDefinition::diagnostic_repeat_30_v1(),
            RepeatedSamplingProtocolDefinition::quick_check_5_v1(),
        ]
    }

    /// Lookup a repeated sampling protocol by its stable ID.
    pub fn lookup(protocol_id: &str) -> (r: Option<RepeatedSamplingProtocolDefinition>)
        ensures
            match r {
                Some(d) => sampling_for(protocol_id@) == Some(d@),
                None => sampling_for(protocol_id@) is None,
            },
    {
        if str_eq(protocol_id, SAMPLING_STANDARD_REPEAT_10_ID) {
            Some(RepeatedSamplingProtocolDefinition::standard_repeat_10_v1())
        } else if str_eq(protocol_id, SAMPLING_DIAGNOSTIC_REPEAT_30_ID) {
            Some(RepeatedSamplingProtocolDefinition::diagnostic_repeat_30_v1())
        } else if str_eq(protocol_id, SAMPLING_QUICK_CHECK_5_ID) {
            Some(RepeatedSamplingProtocolDefinition::quick_check_5_v1())
        } else {
            None
        }
    }

    /// Validate that a protocol ID exists in the catalog and meets bounds.
    pub fn validate_protocol_id(protocol_id: &str) -> (r: Result<
        RepeatedSamplingProtocolDefinition,
        RepeatedSamplingProtocolError,
    >)
        ensures
            match sampling_for(protocol_id@) {
                None => r == Err::<RepeatedSamplingProtocolDefinition, _>(
                    RepeatedSamplingProtocolError::UnknownProtocol,
                ),
                Some(v) => match sampling_check(v) {
                    Err(e) => r == Err::<RepeatedSamplingProtocolDefinition, _>(e),
                    Ok(_) => r is Ok && r->Ok_0@ == v,
                },
            },
    {
        let def = match Self::lookup(protocol_id) {
            Some(d) => d,
            None => {
                return Err(RepeatedSamplingProtocolError::UnknownProtocol);
            },
        };
        match def.validate() {
            Ok(()) => Ok(def),
            Err(e) => Err(e),
        }
    }
}

/// Each catalog sampling protocol is found under its own identity and meets
/// the protocol bounds.
pub proof fn lemma_sampling_catalog_sound()
    ensures
        sampling_for(SAMPLING_STANDARD_REPEAT_10_ID@) == Some(
            sampling_view(SAMPLING_STANDARD_REPEAT_10_ID@, 10, 3),
        ),
        sampling_for(SAMPLING_DIAGNOSTIC_REPEAT_30_ID@) == Some(
            sampling_view(SAMPLING_DIAGNOSTIC_REPEAT_30_ID@, 30, 3),
        ),
        sampling_for(SAMPLING_QUICK_CHECK_5_ID@) == Some(
            sampling_view(SAMPLING_QUICK_CHECK_5_ID@, 5, 2),
        ),
        sampling_check(sampling_view(SAMPLING_STANDARD_REPEAT_10_ID@, 10, 3)) is Ok,
        sampling_check(sampling_view(SAMPLING_DIAGNOSTIC_REPEAT_30_ID@, 30, 3)) is Ok,
        sampling_check(sampling_view(SAMPLING_QUICK_CHECK_5_ID@, 5, 2)) is Ok,
{
    reveal_strlit("sampling-standard-repeat-10-v1");
    reveal_strlit("sampling-diagnostic-repeat-30-v1");
    reveal_strlit("sampling-quick-check-5-v1");
    assert("sampling-standard-repeat-10-v1"@[9] == 's');
    assert("sampling-diagnostic-repeat-30-v1"@[9] == 'd');
    assert("sampling-quick-check-5-v1"@[9] == 'q');
}

/// Errors raised when validating empirical distribution estimates.
#[derive(Clone, Copy, Debug, PartialEq, Eq, Hash, Structural)]
pub enum EmpiricalDistributionEstimationError {
    UnknownProfile,
    UnknownChoice,
    UnknownSamplingProtocol,
    UnknownModelPromptProtocol,
    InvalidSampleCount,
    CountSumMismatch,
    MismatchedChoice,
    MismatchedProfile,
}

/// Bounded empirical action distribution over repeated samples for a diagnostic choice dilemma.
#[derive(Clone, Copy, Debug, PartialEq, Eq, Hash)]
pub struct DiagnosticChoiceActionDistribution {
    schema: &'static str,
    choice_id: &'static str,
    profile_id: &'static str,
    primary_intent: LaneIntent,
    alternative_intent: LaneIntent,
    sample_count: u16,
    primary_count: u16,
    alternative_count: u16,
    other_count: u16,
}

/// The content of an action distribution.
pub struct ActionDistributionView {
    pub schema: Seq<char>,
    pub choice_id: Seq<char>,
    pub profile_id: Seq<char>,
    pub primary_intent: LaneIntent,
    pub alternative_intent: LaneIntent,
    pub sample_count: u16,
    pub primary_count: u16,
    pub alternative_count: u16,
    pub other_count: u16,
}

impl View for DiagnosticChoiceActionDistribution {
    type V = ActionDistributionView;

    closed spec fn view(&self) -> ActionDistributionView {
        ActionDistributionView {
            schema: self.schema@,
            choice_id: self.choice_id@,
            profile_id: self.profile_id@,
            primary_intent: self.primary_intent,
            alternative_intent: self.alternative_intent,
            sample_count: self.sample_count,
            primary_count: self.primary_count,
            alternative_count: self.alternative_count,
            other_count: self.other_count,
        }
    }
}

/// The shared admission check of a distribution: a known profile, a known
/// choice, one to one hundred samples, and counts adding up to the samples.
pub open spec fn counts_check(
    choice: Seq<char>,
    profile: Seq<char>,
    sample_count: u16,
    total: int,
) -> Result<(), EmpiricalDistributionEstimationError> {
    if semantic_profile_for(profile) is None {
        Err(EmpiricalDistributionEstimationError::UnknownProfile)
    } else if choice_for_id(choice) is None {
        Err(EmpiricalDistributionEstimationError::UnknownChoice)
    } else if sample_count == 0 || sample_count > 100 {
        Err(EmpiricalDistributionEstimationError::InvalidSampleCount)
    } else if total != sample_count {
        Err(EmpiricalDistributionEstimationError::CountSumMismatch)
    } else {
        Ok(())
    }
}

/// Whether an action distribution is well formed.
pub open spec fn action_ok(v: ActionDistributionView) -> bool {
    &&& v.schema == EMPIRICAL_ACTION_DISTRIBUTION_SCHEMA@
    &&& counts_check(
        v.choice_id,
        v.profile_id,
        v.sample_count,
        v.primary_count + v.alternative_count + v.other_count,
    ) is Ok
    &&& choice_for_id(v.choice_id) matches Some(c) && c.primary_intent == v.primary_intent
        && c.alternative_intent == v.alternative_intent
}

/// The basis-point share of a count out of a total.
pub open spec fn share(count: u16, total: u16) -> int {
    (count as int * 10000) / (total as int)
}

/// `[primary, alternative, other]` shares: floor shares for the first two,
/// the remainder to 10,000 for the third.
pub open spec fn action_shares(v: ActionDistributionView) -> Seq<u16> {
    let p = share(v.primary_count, v.sample_count);
    let a = share(v.alternative_count, v.sample_count);
    seq![p as u16, a as u16, (10000 - p - a) as u16]
}

/// One Markdown row of an action distribution.
pub open spec fn action_row(v: ActionDistributionView) -> Seq<char> {
    let s = action_shares(v);
    "| "@ + v.choice_id + " | "@ + decimal(v.sample_count as nat) + " | "@ + decimal(
        v.primary_count as nat,
    ) + " | "@ + decimal(s[0] as nat) + " | "@ + decimal(v.alternative_count as nat) + " | "@
        + decimal(s[1] as nat) + " |\n"@
}

impl DiagnosticChoiceActionDistribution {
    #[verifier::type_invariant]
    spec fn wf(self) -> bool {
        action_ok(self@)
    }

    /// Create and validate a new diagnostic choice action distribution.
    pub fn new(
        choice_id: &'static str,
        profile_id: &'static str,
        sample_count: u16,
        primary_count: u16,
        alternative_count: u16,
        other_count: u16,
    ) -> (r: Result<Self, EmpiricalDistributionEstimationError>)
        ensures
            match counts_check(
                choice_id@,
                profile_id@,
                sample_count,
                primary_count + alternative_count + other_count,
            ) {
                Err(e) => r == Err::<Self, _>(e),
                Ok(_) => r is Ok && r->Ok_0@ == (ActionDistributionView {
                    schema: EMPIRICAL_ACTION_DISTRIBUTION_SCHEMA@,
                    choice_id: choice_id@,
                    profile_id: profile_id@,
                    primary_intent: choice_for_id(choice_id@)->0.primary_intent,
                    alternative_intent: choice_for_id(choice_id@)->0.alternative_intent,
                    sample_count,
                    primary_count,
                    alternative_count,
                    other_count,
                }),
            },
    {
        if SemanticProfileVocabulary::validate_profile_id(profile_id).is_err() {
            return Err(EmpiricalDistributionEstimationError::UnknownProfile);
        }
        let choice = match DiagnosticChoiceCatalog::validate_choice_id(choice_id) {
            Ok(c) => c,
            Err(_) => {
                return Err(EmpiricalDistributionEstimationError::UnknownChoice);
            },
        };
        if sample_count == 0 || sample_count > 100 {
            return Err(EmpiricalDistributionEstimationError::InvalidSampleCount);
        }
        let total: u32 = primary_count as u32 + alternative_count as u32 + other_count as u32;
        if total != sample_count as u32 {
            return Err(EmpiricalDistributionEstimationError::CountSumMismatch);
        }
        Ok(
            Self {
                schema: EMPIRICAL_ACTION_DISTRIBUTION_SCHEMA,
                choice_id,
                profile_id,
                primary_intent: choice.primary_intent(),
                alternative_intent: choice.alternative_intent(),
                sample_count,
                primary_count,
                alternative_count,
                other_count,
            },
        )
    }

    /// The distribution of a catalog choice over ten samples with no other intent.
    fn canonical(
        domain: DiagnosticChoiceDomain,
        profile_id: &'static str,
        primary_count: u16,
        alternative_count: u16,
    ) -> (r: Self)
        requires
            semantic_profile_for(profile_id@) is Some,
            primary_count + alternative_count == 10,
        ensures
            r@ == canonical_action(domain, profile_id@, primary_count),
    {
        let choice = DiagnosticChoiceCatalog::choice_for_domain(domain);
        proof {
            lemma_choices_found_by_id(domain);
        }
        Self {
            schema: EMPIRICAL_ACTION_DISTRIBUTION_SCHEMA,
            choice_id: choice.choice_id(),
            profile_id,
            primary_intent: choice.primary_intent(),
            alternative_intent: choice.alternative_intent(),
            sample_count: 10,
            primary_count,
            alternative_count,
            other_count: 0,
        }
    }

    pub fn schema(self) -> (r: &'static str)
        ensures
            r@ == self@.schema,
    {
        self.schema
    }

    pub fn choice_id(self) -> (r: &'static str)
        ensures
            r@ == self@.choice_id,
    {
        self.choice_id
    }

    pub fn profile_id(self) -> (r: &'static str)
        ensures
            r@ == self@.profile_id,
    {
        self.profile_id
    }

    pub fn primary_intent(self) -> (r: LaneIntent)
        ensures
            r == self@.primary_intent,
    {
        self.primary_intent
    }

    pub fn alternative_intent(self) -> (r: LaneIntent)
        ensures
            r == self@.alternative_intent,
    {
        self.alternative_intent
    }

    pub fn sample_count(self) -> (r: u16)
        ensures
            r == self@.sample_count,
            action_ok(self@),
    {
        proof {
            use_type_invariant(&self);
        }
        self.sample_count
    }

    pub fn primary_count(self) -> (r: u16)
        ensures
            r == self@.primary_count,
    {
        self.primary_count
    }

    pub fn alternative_count(self) -> (r: u16)
        ensures
            r == self@.alternative_count,
    {
        self.alternative_count
    }

    pub fn other_count(self) -> (r: u16)
        ensures
            r == self@.other_count,
    {
        self.other_count
    }

    /// Return `[primary, alternative, other]` basis-point shares scaled to
    /// 10,000; the three shares always sum to 10,000.
    pub fn basis_points(self) -> (r: [u16; 3])
        ensures
            r@ == action_shares(self@),
            r@[0] + r@[1] + r@[2] == 10000,
    {
        proof {
            use_type_invariant(&self);
            crate::sample::lemma_shares_bounded(
                self.primary_count as int,
                self.alternative_count as int,
                0,
                0,
                self.sample_count as int,
            );
        }
        let total = self.sample_count as u32;
        let p = (self.primary_count as u32 * 10000 / total) as u16;
        let a = (self.alternative_count as u32 * 10000 / total) as u16;
        let r = [p, a, 10000 - (p + a)];
        assert(r@ =~= action_shares(self@));
        r
    }

    pub fn primary_share_basis_points(self) -> (r: u16)
        ensures
            r == action_shares(self@)[0],
    {
        self.basis_points()[0]
    }

    pub fn alternative_share_basis_points(self) -> (r: u16)
        ensures
            r == action_shares(self@)[1],
    {
        self.basis_points()[1]
    }

    pub fn other_share_basis_points(self) -> (r: u16)
        ensures
            r == action_shares(self@)[2],
    {
        self.basis_points()[2]
    }

    /// Render the distribution as a Markdown table row.
    pub fn to_markdown(&self) -> (r: String)
        ensures
            r@ == action_row(self@),
    {
        let bp = self.basis_points();
        let mut out = String::new();
        push_str(&mut out, "| ");
        push_str(&mut out, self.choice_id);
        push_str(&mut out, " | ");
        push_decimal(&mut out, self.sample_count as u64);
        push_str(&mut out, " | ");
        push_decimal(&mut out, self.primary_count as u64);
        push_str(&mut out, " | ");
        push_decimal(&mut out, bp[0] as u64);
        push_str(&mut out, " | ");
        push_decimal(&mut out, self.alternative_count as u64);
        push_str(&mut out, " | ");
        push_decimal(&mut out, bp[1] as u64);
        push_str(&mut out, " |\n");
        assert(out@ =~= action_row(self@));
        out
    }
}

/// The view of a catalog choice's distribution over ten samples with no other intent.
pub open spec fn canonical_action(
    domain: DiagnosticChoiceDomain,
    profile: Seq<char>,
    primary_count: u16,
) -> ActionDistributionView {
    ActionDistributionView {
        schema: EMPIRICAL_ACTION_DISTRIBUTION_SCHEMA@,
        choice_id: choice_of_domain(domain).choice_id,
        profile_id: profile,
        primary_intent: choice_of_domain(domain).primary_intent,
        alternative_intent: choice_of_domain(domain).alternative_intent,
        sample_count: 10,
        primary_count,
        alternative_count: (10 - primary_count) as u16,
        other_count: 0,
    }
}

/// Bounded empirical communication ping signal distribution over repeated samples.
#[derive(Clone, Copy, Debug, PartialEq, Eq, Hash)]
pub struct DiagnosticChoiceCommunicationDistribution {
    schema: &'static str,
    choice_id: &'static str,
    profile_id: &'static str,
    sample_count: u16,
    signal_counts: [u16; 5],
}

/// The content of a communication distribution; signal counts are in
/// `[None, Danger, OnMyWay, Assist, EnemyMissing]` order.
pub struct SignalDistributionView {
    pub schema: Seq<char>,
    pub choice_id: Seq<char>,
    pub profile_id: Seq<char>,
    pub sample_count: u16,
    pub signal_counts: Seq<u16>,
}

impl View for DiagnosticChoiceCommunicationDistribution {
    type V = SignalDistributionView;

    closed spec fn view(&self) -> SignalDistributionView {
        SignalDistributionView {
            schema: self.schema@,
            choice_id: self.choice_id@,
            profile_id: self.profile_id@,
            sample_count: self.sample_count,
            signal_counts: self.signal_counts@,
        }
    }
}

/// The sum of five counts.
pub open spec fn sum5(c: Seq<u16>) -> int {
    c[0] + c[1] + c[2] + c[3] + c[4]
}

/// Whether a communication distribution is well formed.
pub open spec fn signal_ok(v: SignalDistributionView) -> bool {
    &&& v.schema == EMPIRICAL_COMMUNICATION_DISTRIBUTION_SCHEMA@
    &&& v.signal_counts.len() == 5
    &&& counts_check(v.choice_id, v.profile_id, v.sample_count, sum5(v.signal_counts)) is Ok
}

/// Five signal shares: floor shares for the first four, the remainder to
/// 10,000 for the fifth.
pub open spec fn signal_shares(v: SignalDistributionView) -> Seq<u16> {
    let s0 = share(v.signal_counts[0], v.sample_count);
    let s1 = share(v.signal_counts[1], v.sample_count);
    let s2 = share(v.signal_counts[2], v.sample_count);
    let s3 = share(v.signal_counts[3], v.sample_count);
    seq![s0 as u16, s1 as u16, s2 as u16, s3 as u16, (10000 - s0 - s1 - s2 - s3) as u16]
}

/// Index of a ping signal in `[None, Danger, OnMyWay, Assist, EnemyMissing]`.
pub open spec fn signal_index(signal: LanePingSignal) -> int {
    match signal {
        LanePingSignal::NoPing => 0,
        LanePingSignal::Danger => 1,
        LanePingSignal::OnMyWay => 2,
        LanePingSignal::Assist => 3,
        LanePingSignal::EnemyMissing => 4,
    }
}

/// One Markdown row of a communication distribution.
pub open spec fn signal_row(v: SignalDistributionView) -> Seq<char> {
    let s = signal_shares(v);
    "| "@ + v.choice_id + " | "@ + decimal(v.sample_count as nat) + " | "@ + decimal(s[0] as nat)
        + " | "@ + decimal(s[1] as nat) + " | "@ + decimal(s[2] as nat) + " | "@ + decimal(
        s[3] as nat,
    ) + " | "@ + decimal(s[4] as nat) + " |\n"@
}

/// The view of a catalog choice's communication distribution over ten samples.
pub open spec fn canonical_signal(
    domain: DiagnosticChoiceDomain,
    profile: Seq<char>,
    counts: Seq<u16>,
) -> SignalDistributionView {
    SignalDistributionView {
        schema: EMPIRICAL_COMMUNICATION_DISTRIBUTION_SCHEMA@,
        choice_id: choice_of_domain(domain).choice_id,
        profile_id: profile,
        sample_count: 10,
        signal_counts: counts,
    }
}

impl DiagnosticChoiceCommunicationDistribution {
    #[verifier::type_invariant]
    spec fn wf(self) -> bool {
        signal_ok(self@)
    }

    /// Create and validate a new diagnostic choice communication distribution.
    pub fn new(
        choice_id: &'static str,
        profile_id: &'static str,
        sample_count: u16,
        signal_counts: [u16; 5],
    ) -> (r: Result<Self, EmpiricalDistributionEstimationError>)
        ensures
            match counts_check(choice_id@, profile_id@, sample_count, sum5(signal_counts@)) {
                Err(e) => r == Err::<Self, _>(e),
                Ok(_) => r is Ok && r->Ok_0@ == (SignalDistributionView {
                    schema: EMPIRICAL_COMMUNICATION_DISTRIBUTION_SCHEMA@,
                    choice_id: choice_id@,
                    profile_id: profile_id@,
                    sample_count,
                    signal_counts: signal_counts@,
                }),
            },
    {
        if SemanticProfileVocabulary::validate_profile_id(profile_id).is_err() {
            return Err(EmpiricalDistributionEstimationError::UnknownProfile);
        }
        if DiagnosticChoiceCatalog::validate_choice_id(choice_id).is_err() {
            return Err(EmpiricalDistributionEstimationError::UnknownChoice);
        }
        if sample_count == 0 || sample_count > 100 {
            return Err(EmpiricalDistributionEstimationError::InvalidSampleCount);
        }
        let total: u32 = signal_counts[0] as u32 + signal_counts[1] as u32 + signal_counts[2] as u32
            + signal_counts[3] as u32 + signal_counts[4] as u32;
        if total != sample_count as u32 {
            return Err(EmpiricalDistributionEstimationError::CountSumMismatch);
        }
        Ok(
            Self {
                schema: EMPIRICAL_COMMUNICATION_DISTRIBUTION_SCHEMA,
                choice_id,
                profile_id,
                sample_count,
                signal_counts,
            },
        )
    }

    /// The communication distribution of a catalog choice over ten samples.
    fn canonical(domain: DiagnosticChoiceDomain, profile_id: &'static str, counts: [u16; 5]) -> (r:
        Self)
        requires
            semantic_profile_for(profile_id@) is Some,
            sum5(counts@) == 10,
        ensures
            r@ == canonical_signal(domain, profile_id@, counts@),
    {
        let choice = DiagnosticChoiceCatalog::choice_for_domain(domain);
        proof {
            lemma_choices_found_by_id(domain);
        }
        Self {
            schema: EMPIRICAL_COMMUNICATION_DISTRIBUTION_SCHEMA,
            choice_id: choice.choice_id(),
            profile_id,
            sample_count: 10,
            signal_counts: counts,
        }
    }

    pub fn schema(self) -> (r: &'static str)
        ensures
            r@ == self@.schema,
    {
        self.schema
    }

    pub fn choice_id(self) -> (r: &'static str)
        ensures
            r@ == self@.choice_id,
    {
        self.choice_id
    }

    pub fn profile_id(self) -> (r: &'static str)
        ensures
            r@ == self@.profile_id,
    {
        self.profile_id
    }

    pub fn sample_count(self) -> (r: u16)
        ensures
            r == self@.sample_count,
            signal_ok(self@),
    {
        proof {
            use_type_invariant(&self);
        }
        self.sample_count
    }

    pub fn signal_counts(self) -> (r: [u16; 5])
        ensures
            r@ == self@.signal_counts,
    {
        self.signal_counts
    }

    /// Return `[None, Danger, OnMyWay, Assist, EnemyMissing]` basis-point
    /// shares scaled to 10,000; the five shares always sum to 10,000.
    pub fn basis_points(self) -> (r: [u16; 5])
        ensures
            r@ == signal_shares(self@),
            r@[0] + r@[1] + r@[2] + r@[3] + r@[4] == 10000,
    {
        proof {
            use_type_invariant(&self);
            crate::sample::lemma_shares_bounded(
                self.signal_counts[0] as int,
                self.signal_counts[1] as int,
                self.signal_counts[2] as int,
                self.signal_counts[3] as int,
                self.sample_count as int,
            );
        }
        let total = self.sample_count as u32;
        let s0 = (self.signal_counts[0] as u32 * 10000 / total) as u16;
        let s1 = (self.signal_counts[1] as u32 * 10000 / total) as u16;
        let s2 = (self.signal_counts[2] as u32 * 10000 / total) as u16;
        let s3 = (self.signal_counts[3] as u32 * 10000 / total) as u16;
        let r = [s0, s1, s2, s3, 10000 - (s0 + s1 + s2 + s3)];
        assert(r@ =~= signal_shares(self@));
        r
    }

    pub fn signal_share_basis_points(self, signal: LanePingSignal) -> (r: u16)
        ensures
            r == signal_shares(self@)[signal_index(signal)],
    {
        let idx: usize = match signal {
            LanePingSignal::NoPing => 0,
            LanePingSignal::Danger => 1,
            LanePingSignal::OnMyWay => 2,
            LanePingSignal::Assist => 3,
            LanePingSignal::EnemyMissing => 4,
        };
        self.basis_points()[idx]
    }

    /// Render the communication distribution as a Markdown table row.
    pub fn to_markdown(&self) -> (r: String)
        ensures
            r@ == signal_row(self@),
    {
        let bp = self.basis_points();
        let mut out = String::new();
        push_str(&mut out, "| ");
        push_str(&mut out, self.choice_id);
        push_str(&mut out, " | ");
        push_decimal(&mut out, self.sample_count as u64);
        push_str(&mut out, " | ");
        push_decimal(&mut out, bp[0] as u64);
        push_str(&mut out, " | ");
        push_decimal(&mut out, bp[1] as u64);
        push_str(&mut out, " | ");
        push_decimal(&mut out, bp[2] as u64);
        push_str(&mut out, " | ");
        push_decimal(&mut out, bp[3] as u64);
        push_str(&mut out, " | ");
        push_decimal(&mut out, bp[4] as u64);
        push_str(&mut out, " |\n");
        assert(out@ =~= signal_row(self@));
        out
    }
}

/// Comprehensive empirical action and communication distribution estimate
/// report over all seven diagnostic dilemmas.
#[derive(Clone, Debug, PartialEq, Eq, Hash)]
pub struct EmpiricalDistributionEstimateReport {
    pub schema: &'static str,
    pub profile_id: &'static str,
    pub sampling_protocol_id: &'static str,
    pub model_prompt_protocol_id: &'static str,
    pub action_distributions: [DiagnosticChoiceActionDistribution; 7],
    pub communication_distributions: [DiagnosticChoiceCommunicationDistribution; 7],
}

/// The content of an estimate report.
pub struct EstimateView {
    pub schema: Seq<char>,
    pub profile_id: Seq<char>,
    pub sampling_protocol_id: Seq<char>,
    pub model_prompt_protocol_id: Seq<char>,
    pub actions: Seq<ActionDistributionView>,
    pub signals: Seq<SignalDistributionView>,
}

impl View for EmpiricalDistributionEstimateReport {
    type V = EstimateView;

    open spec fn view(&self) -> EstimateView {
        EstimateView {
            schema: self.schema@,
            profile_id: self.profile_id@,
            sampling_protocol_id: self.sampling_protocol_id@,
            model_prompt_protocol_id: self.model_prompt_protocol_id@,
            actions: self.action_distributions@.map_values(
                |d: DiagnosticChoiceActionDistribution| d@,
            ),
            signals: self.communication_distributions@.map_values(
                |d: DiagnosticChoiceCommunicationDistribution| d@,
            ),
        }
    }
}

/// The problem with the `i`-th row of a report: another profile, or not the
/// `i`-th catalog choice.
pub open spec fn row_issue(profile: Seq<char>, row_profile: Seq<char>, row_choice: Seq<char>, i: int) -> Option<
    EmpiricalDistributionEstimationError,
> {
    if row_profile != profile {
        Some(EmpiricalDistributionEstimationError::MismatchedProfile)
    } else if row_choice != choice_of_domain(catalog_domains()[i]).choice_id {
        Some(EmpiricalDistributionEstimationError::MismatchedChoice)
    } else {
        None
    }
}

/// The first problem among the action rows from row `i` on.
pub open spec fn action_scan(v: EstimateView, i: int) -> Option<EmpiricalDistributionEstimationError>
    decreases 7 - i,
{
    if i >= 7 || i < 0 {
        None
    } else {
        match row_issue(v.profile_id, v.actions[i].profile_id, v.actions[i].choice_id, i) {
            Some(e) => Some(e),
            None => action_scan(v, i + 1),
        }
    }
}

/// The first problem among the communication rows from row `i` on.
pub open spec fn signal_scan(v: EstimateView, i: int) -> Option<EmpiricalDistributionEstimationError>
    decreases 7 - i,
{
    if i >= 7 || i < 0 {
        None
    } else {
        match row_issue(v.profile_id, v.signals[i].profile_id, v.signals[i].choice_id, i) {
            Some(e) => Some(e),
            None => signal_scan(v, i + 1),
        }
    }
}

/// The validation of a report: its profile and protocols are registered and
/// valid, and its rows are the catalog choices in order, all of its profile.
pub open spec fn report_check(v: EstimateView) -> Result<(), EmpiricalDistributionEstimationError> {
    if semantic_profile_for(v.profile_id) is None {
        Err(EmpiricalDistributionEstimationError::UnknownProfile)
    } else if !(sampling_for(v.sampling_protocol_id) matches Some(s) && sampling_check(s) is Ok) {
        Err(EmpiricalDistributionEstimationError::UnknownSamplingProtocol)
    } else if !(model_prompt_for(v.model_prompt_protocol_id) matches Some(m) && model_prompt_check(
        m,
    ) is Ok) {
        Err(EmpiricalDistributionEstimationError::UnknownModelPromptProtocol)
    } else {
        rows_check(v)
    }
}

/// The row check of a report: the first problem among its action rows, then
/// among its communication rows.
pub open spec fn rows_check(v: EstimateView) -> Result<(), EmpiricalDistributionEstimationError> {
    match action_scan(v, 0) {
        Some(e) => Err(e),
        None => match signal_scan(v, 0) {
            Some(e) => Err(e),
            None => Ok(()),
        },
    }
}

/// The canonical estimate of a profile: ten samples per choice under the
/// standard sampling and reference diagnostic protocols, with the given
/// primary counts and signal counts per catalog choice.
pub open spec fn canonical_estimate(
    profile: Seq<char>,
    primaries: Seq<u16>,
    signals: Seq<Seq<u16>>,
) -> EstimateView {
    EstimateView {
        schema: EMPIRICAL_DISTRIBUTION_ESTIMATION_SCHEMA@,
        profile_id: profile,
        sampling_protocol_id: SAMPLING_STANDARD_REPEAT_10_ID@,
        model_prompt_protocol_id: MODEL_PROMPT_REFERENCE_DIAGNOSTIC_ID@,
        actions: Seq::new(
            7,
            |i: int| canonical_action(catalog_domains()[i], profile, primaries[i]),
        ),
        signals: Seq::new(7, |i: int| canonical_signal(catalog_domains()[i], profile, signals[i])),
    }
}

/// Markdown rows of the first `n` action distributions.
pub open spec fn action_rows(acts: Seq<ActionDistributionView>, n: int) -> Seq<char>
    decreases n,
{
    if n <= 0 {
        Seq::empty()
    } else {
        action_rows(acts, n - 1) + action_row(acts[n - 1])
    }
}

/// Markdown rows of the first `n` communication distributions.
pub open spec fn signal_rows(sigs: Seq<SignalDistributionView>, n: int) -> Seq<char>
    decreases n,
{
    if n <= 0 {
        Seq::empty()
    } else {
        signal_rows(sigs, n - 1) + signal_row(sigs[n - 1])
    }
}

/// The Markdown rendering of an estimate report.
pub open spec fn estimate_markdown(v: EstimateView) -> Seq<char> {
    "# Empirical Distribution Estimate Report\n\n- schema: "@ + v.schema + "\n- profile_id: "@
        + v.profile_id + "\n- sampling_protocol_id: "@ + v.sampling_protocol_id
        + "\n- model_prompt_protocol_id: "@ + v.model_prompt_protocol_id
        + "\n- scale_basis_points: "@ + decimal(10000)
        + "\n\n## Action Distributions\n\n| choice_id | sample_count | primary_count | primary_bp | alternative_count | alternative_bp |\n| --- | ---: | ---: | ---: | ---: | ---: |\n"@
        + action_rows(v.actions, 7)
        + "\n## Communication Distributions\n\n| choice_id | sample_count | none_bp | danger_bp | on_my_way_bp | assist_bp | enemy_missing_bp |\n| --- | ---: | ---: | ---: | ---: | ---: | ---: |\n"@
        + signal_rows(v.signals, 7)
}

/// A canonical estimate of a registered profile passes validation.
pub proof fn lemma_canonical_estimate_valid(
    profile: Seq<char>,
    primaries: Seq<u16>,
    signals: Seq<Seq<u16>>,
)
    requires
        semantic_profile_for(profile) is Some,
    ensures
        report_check(canonical_estimate(profile, primaries, signals)) is Ok,
{
    let v = canonical_estimate(profile, primaries, signals);
    lemma_sampling_catalog_sound();
    lemma_model_prompt_catalog_sound();
    lemma_action_scan_clean(v, 0);
    lemma_signal_scan_clean(v, 0);
}

proof fn lemma_action_scan_clean(v: EstimateView, i: int)
    requires
        0 <= i <= 7,
        v.actions.len() == 7,
        forall|k: int|
            0 <= k < 7 ==> (#[trigger] v.actions[k]).profile_id == v.profile_id
                && v.actions[k].choice_id == choice_of_domain(catalog_domains()[k]).choice_id,
    ensures
        action_scan(v, i) is None,
    decreases 7 - i,
{
    if i < 7 {
        lemma_action_scan_clean(v, i + 1);
        assert(v.actions[i].profile_id == v.profile_id);
    }
}

proof fn lemma_signal_scan_clean(v: EstimateView, i: int)
    requires
        0 <= i <= 7,
        v.signals.len() == 7,
        forall|k: int|
            0 <= k < 7 ==> (#[trigger] v.signals[k]).profile_id == v.profile_id
                && v.signals[k].choice_id == choice_of_domain(catalog_domains()[k]).choice_id,
    ensures
        signal_scan(v, i) is None,
    decreases 7 - i,
{
    if i < 7 {
        lemma_signal_scan_clean(v, i + 1);
        assert(v.signals[i].profile_id == v.profile_id);
    }
}

impl EmpiricalDistributionEstimateReport {
    /// Create and validate a complete empirical distribution estimate report.
    pub fn new(
        profile_id: &'static str,
        sampling_protocol_id: &'static str,
        model_prompt_protocol_id: &'static str,
        action_distributions: [DiagnosticChoiceActionDistribution; 7],
        communication_distributions: [DiagnosticChoiceCommunicationDistribution; 7],
    ) -> (r: Result<Self, EmpiricalDistributionEstimationError>)
        ensures
            ({
                let v = EstimateView {
                    schema: EMPIRICAL_DISTRIBUTION_ESTIMATION_SCHEMA@,
                    profile_id: profile_id@,
                    sampling_protocol_id: sampling_protocol_id@,
                    model_prompt_protocol_id: model_prompt_protocol_id@,
                    actions: action_distributions@.map_values(
                        |d: DiagnosticChoiceActionDistribution| d@,
                    ),
                    signals: communication_distributions@.map_values(
                        |d: DiagnosticChoiceCommunicationDistribution| d@,
                    ),
                };
                match report_check(v) {
                    Err(e) => r == Err::<Self, _>(e),
                    Ok(_) => r is Ok && r->Ok_0@ == v,
                }
            }),
    {
        let report = Self {
            schema: EMPIRICAL_DISTRIBUTION_ESTIMATION_SCHEMA,
            profile_id,
            sampling_protocol_id,
            model_prompt_protocol_id,
            action_distributions,
            communication_distributions,
        };
        match report.validate() {
            Ok(()) => Ok(report),
            Err(e) => Err(e),
        }
    }

    pub fn schema(&self) -> (r: &'static str)
        ensures
            r@ == self@.schema,
    {
        self.schema
    }

    pub fn profile_id(&self) -> (r: &'static str)
        ensures
            r@ == self@.profile_id,
    {
        self.profile_id
    }

    pub fn sampling_protocol_id(&self) -> (r: &'static str)
        ensures
            r@ == self@.sampling_protocol_id,
    {
        self.sampling_protocol_id
    }

    pub fn model_prompt_protocol_id(&self) -> (r: &'static str)
        ensures
            r@ == self@.model_prompt_protocol_id,
    {
        self.model_prompt_protocol_id
    }

    pub fn action_distributions(&self) -> (r: &[DiagnosticChoiceActionDistribution; 7])
        ensures
            r@.map_values(|d: DiagnosticChoiceActionDistribution| d@) == self@.actions,
            r@.len() == 7,
    {
        &self.action_distributions
    }

    pub fn communication_distributions(&self) -> (r: &[DiagnosticChoiceCommunicationDistribution; 7])
        ensures
            r@.map_values(|d: DiagnosticChoiceCommunicationDistribution| d@) == self@.signals,
            r@.len() == 7,
    {
        &self.communication_distributions
    }

    /// Validate report consistency against registered catalogs and ordering.
    pub fn validate(&self) -> (r: Result<(), EmpiricalDistributionEstimationError>)
        ensures
            r == report_check(self@),
    {
        if SemanticProfileVocabulary::validate_profile_id(self.profile_id).is_err() {
            return Err(EmpiricalDistributionEstimationError::UnknownProfile);
        }
        if RepeatedSamplingProtocolCatalog::validate_protocol_id(self.sampling_protocol_id).is_err() {
            return Err(EmpiricalDistributionEstimationError::UnknownSamplingProtocol);
        }
        if ModelPromptProtocolCatalog::validate_protocol_id(self.model_prompt_protocol_id).is_err() {
            return Err(EmpiricalDistributionEstimationError::UnknownModelPromptProtocol);
        }
        let canonical_choices = DiagnosticChoiceCatalog::all_choices();
        let ghost v = self@;
        assert(report_check(v) == rows_check(v));
        let mut i: usize = 0;
        while i < 7
            invariant
                i <= 7,
                v == self@,
                canonical_choices@.len() == 7,
                forall|k: int|
                    0 <= k < 7 ==> (#[trigger] canonical_choices@[k])@ == choice_of_domain(
                        catalog_domains()[k],
                    ),
                action_scan(v, 0) == action_scan(v, i as int),
                report_check(v) == rows_check(v),
            decreases 7 - i,
        {
            let d = self.action_distributions[i];
            assert(v.actions[i as int] == d@);
            if !str_eq(d.profile_id(), self.profile_id) {
                return Err(EmpiricalDistributionEstimationError::MismatchedProfile);
            }
            if !str_eq(d.choice_id(), canonical_choices[i].choice_id()) {
                return Err(EmpiricalDistributionEstimationError::MismatchedChoice);
            }
            i = i + 1;
        }
        let mut j: usize = 0;
        while j < 7
            invariant
                j <= 7,
                v == self@,
                canonical_choices@.len() == 7,
                forall|k: int|
                    0 <= k < 7 ==> (#[trigger] canonical_choices@[k])@ == choice_of_domain(
                        catalog_domains()[k],
                    ),
                action_scan(v, 0) is None,
                signal_scan(v, 0) == signal_scan(v, j as int),
                report_check(v) == rows_check(v),
            decreases 7 - j,
        {
            let d = self.communication_distributions[j];
            assert(v.signals[j as int] == d@);
            if !str_eq(d.profile_id(), self.profile_id) {
                return Err(EmpiricalDistributionEstimationError::MismatchedProfile);
            }
            if !str_eq(d.choice_id(), canonical_choices[j].choice_id()) {
                return Err(EmpiricalDistributionEstimationError::MismatchedChoice);
            }
            j = j + 1;
        }
        Ok(())
    }

    /// A canonical estimate from its per-choice primary counts and signal counts.
    fn canonical(
        profile_id: &'static str,
        primaries: [u16; 7],
        signals: [[u16; 5]; 7],
    ) -> (r: Self)
        requires
            semantic_profile_for(profile_id@) is Some,
            forall|i: int| 0 <= i < 7 ==> #[trigger] primaries@[i] <= 10,
            forall|i: int| 0 <= i < 7 ==> sum5((#[trigger] signals@[i])@) == 10,
        ensures
            r@ == canonical_estimate(
                profile_id@,
                primaries@,
                signals@.map_values(|c: [u16; 5]| c@),
            ),
    {
        let action_distributions = [
            DiagnosticChoiceActionDistribution::canonical(
                DiagnosticChoiceDomain::ContestConcede,
                profile_id,
                primaries[0],
                10 - primaries[0],
            ),
            DiagnosticChoiceActionDistribution::canonical(
                DiagnosticChoiceDomain::FollowReject,
                profile_id,
                primaries[1],
                10 - primaries[1],
            ),
            DiagnosticChoiceActionDistribution::canonical(
                DiagnosticChoiceDomain::FarmAssist,
                profile_id,
                primaries[2],
                10 - primaries[2],
            ),
            DiagnosticChoiceActionDistribution::canonical(
                DiagnosticChoiceDomain::RecallTiming,
                profile_id,
                primaries[3],
                10 - primaries[3],
            ),
            DiagnosticChoiceActionDistribution::canonical(
                DiagnosticChoiceDomain::Sacrifice,
                profile_id,
                primaries[4],
                10 - primaries[4],
            ),
            DiagnosticChoiceActionDistribution::canonical(
                DiagnosticChoiceDomain::Surprise,
                profile_id,
                primaries[5],
                10 - primaries[5],
            ),
            DiagnosticChoiceActionDistribution::canonical(
                DiagnosticChoiceDomain::ResponseToFailure,
                profile_id,
                primaries[6],
                10 - primaries[6],
            ),
        ];
        let communication_distributions = [
            DiagnosticChoiceCommunicationDistribution::canonical(
                DiagnosticChoiceDomain::ContestConcede,
                profile_id,
                signals[0],
            ),
            DiagnosticChoiceCommunicationDistribution::canonical(
                DiagnosticChoiceDomain::FollowReject,
                profile_id,
                signals[1],
            ),
            DiagnosticChoiceCommunicationDistribution::canonical(
                DiagnosticChoiceDomain::FarmAssist,
                profile_id,
                signals[2],
            ),
            DiagnosticChoiceCommunicationDistribution::canonical(
                DiagnosticChoiceDomain::RecallTiming,
                profile_id,
                signals[3],
            ),
            DiagnosticChoiceCommunicationDistribution::canonical(
                DiagnosticChoiceDomain::Sacrifice,
                profile_id,
                signals[4],
            ),
            DiagnosticChoiceCommunicationDistribution::canonical(
                DiagnosticChoiceDomain::Surprise,
                profile_id,
                signals[5],
            ),
            DiagnosticChoiceCommunicationDistribution::canonical(
                DiagnosticChoiceDomain::ResponseToFailure,
                profile_id,
                signals[6],
            ),
        ];
        let r = Self {
            schema: EMPIRICAL_DISTRIBUTION_ESTIMATION_SCHEMA,
            profile_id,
            sampling_protocol_id: SAMPLING_STANDARD_REPEAT_10_ID,
            model_prompt_protocol_id: MODEL_PROMPT_REFERENCE_DIAGNOSTIC_ID,
            action_distributions,
            communication_distributions,
        };
        let ghost c = canonical_estimate(
            profile_id@,
            primaries@,
            signals@.map_values(|c: [u16; 5]| c@),
        );
        assert(r@.actions =~= c.actions);
        assert(r@.signals =~= c.signals);
        r
    }

    /// Canonical empirical distribution estimate for the cautious semantic profile.
    pub fn cautious_v1() -> (r: Self)
        ensures
            r@ == canonical_estimate(
                CAUTIOUS_SEMANTIC_PROFILE_ID@,
                seq![2u16, 2, 9, 8, 1, 10, 9],
                seq![
                    seq![10u16, 0, 0, 0, 0],
                    seq![10u16, 0, 0, 0, 0],
                    seq![10u16, 0, 0, 0, 0],
                    seq![9u16, 0, 1, 0, 0],
                    seq![7u16, 3, 0, 0, 0],
                    seq![5u16, 5, 0, 0, 0],
                    seq![8u16, 2, 0, 0, 0],
                ],
            ),
            report_check(r@) is Ok,
    {
        proof {
            lemma_semantic_profiles_found_by_id();
        }
        let primaries = [2u16, 2, 9, 8, 1, 10, 9];
        let signals = [
            [10u16, 0, 0, 0, 0],
            [10u16, 0, 0, 0, 0],
            [10u16, 0, 0, 0, 0],
            [9u16, 0, 1, 0, 0],
            [7u16, 3, 0, 0, 0],
            [5u16, 5, 0, 0, 0],
            [8u16, 2, 0, 0, 0],
        ];
        let r = Self::canonical(CAUTIOUS_SEMANTIC_PROFILE_ID, primaries, signals);
        proof {
            assert(primaries@ =~= seq![2u16, 2, 9, 8, 1, 10, 9]);
            assert(signals@.map_values(|c: [u16; 5]| c@) =~= seq![
                seq![10u16, 0, 0, 0, 0],
                seq![10u16, 0, 0, 0, 0],
                seq![10u16, 0, 0, 0, 0],
                seq![9u16, 0, 1, 0, 0],
                seq![7u16, 3, 0, 0, 0],
                seq![5u16, 5, 0, 0, 0],
                seq![8u16, 2, 0, 0, 0],
            ]);
            lemma_canonical_estimate_valid(
                CAUTIOUS_SEMANTIC_PROFILE_ID@,
                primaries@,
                signals@.map_values(|c: [u16; 5]| c@),
            );
        }
        r
    }

    /// Canonical empirical distribution estimate for the risk-taking semantic profile.
    pub fn risk_taking_v1() -> (r: Self)
        ensures
            r@ == canonical_estimate(
                RISK_TAKING_SEMANTIC_PROFILE_ID@,
                seq![9u16, 8, 3, 2, 9, 2, 1],
                seq![
                    seq![8u16, 0, 0, 2, 0],
                    seq![8u16, 0, 2, 0, 0],
                    seq![7u16, 0, 3, 0, 0],
                    seq![9u16, 0, 1, 0, 0],
                    seq![6u16, 0, 0, 4, 0],
                    seq![8u16, 2, 0, 0, 0],
                    seq![7u16, 0, 0, 3, 0],
                ],
            ),
            report_check(r@) is Ok,
    {
        proof {
            lemma_semantic_profiles_found_by_id();
        }
        let primaries = [9u16, 8, 3, 2, 9, 2, 1];
        let signals = [
            [8u16, 0, 0, 2, 0],
            [8u16, 0, 2, 0, 0],
            [7u16, 0, 3, 0, 0],
            [9u16, 0, 1, 0, 0],
            [6u16, 0, 0, 4, 0],
            [8u16, 2, 0, 0, 0],
            [7u16, 0, 0, 3, 0],
        ];
        let r = Self::canonical(RISK_TAKING_SEMANTIC_PROFILE_ID, primaries, signals);
        proof {
            assert(primaries@ =~= seq![9u16, 8, 3, 2, 9, 2, 1]);
            assert(signals@.map_values(|c: [u16; 5]| c@) =~= seq![
                    seq![8u16, 0, 0, 2, 0],
                    seq![8u16, 0, 2, 0, 0],
                    seq![7u16, 0, 3, 0, 0],
                    seq![9u16, 0, 1, 0, 0],
                    seq![6u16, 0, 0, 4, 0],
                    seq![8u16, 2, 0, 0, 0],
                    seq![7u16, 0, 0, 3, 0],
                ]);
            lemma_canonical_estimate_valid(
                RISK_TAKING_SEMANTIC_PROFILE_ID@,
                primaries@,
                signals@.map_values(|c: [u16; 5]| c@),
            );
        }
        r
    }

    /// Canonical empirical distribution estimate for the yielding semantic profile.
    pub fn yielding_v1() -> (r: Self)
        ensures
            r@ == canonical_estimate(
                YIELDING_SEMANTIC_PROFILE_ID@,
                seq![1u16, 1, 8, 9, 1, 9, 10],
                seq![
                    seq![10u16, 0, 0, 0, 0],
                    seq![10u16, 0, 0, 0, 0],
                    seq![10u16, 0, 0, 0, 0],
                    seq![10u16, 0, 0, 0, 0],
                    seq![8u16, 2, 0, 0, 0],
                    seq![6u16, 4, 0, 0, 0],
                    seq![9u16, 1, 0, 0, 0],
                ],
            ),
            report_check(r@) is Ok,
    {
        proof {
            lemma_semantic_profiles_found_by_id();
        }
        let primaries = [1u16, 1, 8, 9, 1, 9, 10];
        let signals = [
            [10u16, 0, 0, 0, 0],
            [10u16, 0, 0, 0, 0],
            [10u16, 0, 0, 0, 0],
            [10u16, 0, 0, 0, 0],
            [8u16, 2, 0, 0, 0],
            [6u16, 4, 0, 0, 0],
            [9u16, 1, 0, 0, 0],
        ];
        let r = Self::canonical(YIELDING_SEMANTIC_PROFILE_ID, primaries, signals);
        proof {
            assert(primaries@ =~= seq![1u16, 1, 8, 9, 1, 9, 10]);
            assert(signals@.map_values(|c: [u16; 5]| c@) =~= seq![
                    seq![10u16, 0, 0, 0, 0],
                    seq![10u16, 0, 0, 0, 0],
                    seq![10u16, 0, 0, 0, 0],
                    seq![10u16, 0, 0, 0, 0],
                    seq![8u16, 2, 0, 0, 0],
                    seq![6u16, 4, 0, 0, 0],
                    seq![9u16, 1, 0, 0, 0],
                ]);
            lemma_canonical_estimate_valid(
                YIELDING_SEMANTIC_PROFILE_ID@,
                primaries@,
                signals@.map_values(|c: [u16; 5]| c@),
            );
        }
        r
    }

    /// Render the empirical distribution estimate report as Markdown.
    pub fn to_markdown(&self) -> (r: String)
        ensures
            r@ == estimate_markdown(self@),
    {
        let ghost v = self@;
        let mut out = String::new();
        push_str(&mut out, "# Empirical Distribution Estimate Report\n\n- schema: ");
        push_str(&mut out, self.schema);
        push_str(&mut out, "\n- profile_id: ");
        push_str(&mut out, self.profile_id);
        push_str(&mut out, "\n- sampling_protocol_id: ");
        push_str(&mut out, self.sampling_protocol_id);
        push_str(&mut out, "\n- model_prompt_protocol_id: ");
        push_str(&mut out, self.model_prompt_protocol_id);
        push_str(&mut out, "\n- scale_basis_points: ");
        push_decimal(&mut out, 10000);
        push_str(
            &mut out,
            "\n\n## Action Distributions\n\n| choice_id | sample_count | primary_count | primary_bp | alternative_count | alternative_bp |\n| --- | ---: | ---: | ---: | ---: | ---: |\n",
        );
        let ghost head = out@;
        let mut i: usize = 0;
        while i < 7
            invariant
                i <= 7,
                v == self@,
                v.actions.len() == 7,
                out@ == head + action_rows(v.actions, i as int),
            decreases 7 - i,
        {
            let row = self.action_distributions[i].to_markdown();
            assert(v.actions[i as int] == self.action_distributions@[i as int]@);
            push_str(&mut out, row.as_str());
            assert(out@ =~= head + action_rows(v.actions, i + 1));
            i = i + 1;
        }
        push_str(
            &mut out,
            "\n## Communication Distributions\n\n| choice_id | sample_count | none_bp | danger_bp | on_my_way_bp | assist_bp | enemy_missing_bp |\n| --- | ---: | ---: | ---: | ---: | ---: | ---: |\n",
        );
        let ghost mid = out@;
        let mut j: usize = 0;
        while j < 7
            invariant
                j <= 7,
                v == self@,
                v.signals.len() == 7,
                out@ == mid + signal_rows(v.signals, j as int),
            decreases 7 - j,
        {
            let row = self.communication_distributions[j].to_markdown();
            assert(v.signals[j as int] == self.communication_distributions@[j as int]@);
            push_str(&mut out, row.as_str());
            assert(out@ =~= mid + signal_rows(v.signals, j + 1));
            j = j + 1;
        }
        assert(out@ =~= estimate_markdown(v));
        out
    }
}

} // verus!
