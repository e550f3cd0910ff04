//! The catalog of models that ShengSuanYun offers.
use vstd::prelude::*;
use vstd::utf8::{decode_utf8, valid_utf8};

#[allow(unused_imports)]
use crate::list::filter_keeps_members;
use crate::text::{right_align, same_text, signed_decimal_text};
#[allow(unused_imports)]
use crate::text::{right_aligned, signed_decimal};

verus! {

broadcast use vstd::string::group_string_axioms;

/// The API that a model has to support to be usable.
pub const RESPONSES_API_SUPPORT: &'static str = "/v1/responses";

/// The priority of every model. It is below the bundled catalog's range (1 to 43): the models have
/// no ranking signal, so they all stand behind the curated ones, and equally so.
pub const SHENGSUANYUN_FALLBACK_PRIORITY: i32 = 100;

/// The lowest priority in the bundled catalog.
pub const LAST_BUNDLED_PRIORITY: i32 = 43;

/// The path of the catalog, below the provider's address. It is read with `GET`.
pub const MODELS_PATH: &'static str = "models";

/// How long a refresh of the catalog may take, in seconds.
pub const MODELS_REFRESH_TIMEOUT_SECONDS: u64 = 5;

/// The catalog is asked for under `models`, and a refresh is given up after five seconds.
pub proof fn refresh_asks_for_the_models_for_five_seconds()
    ensures
        MODELS_PATH@ == "models"@,
        MODELS_REFRESH_TIMEOUT_SECONDS == 5,
{
}

/// The prices of a model, as they are shown, for a million tokens.
#[derive(Debug)]
pub struct Pricing {
    pub input_price: Option<String>,
    pub output_price: Option<String>,
    pub currency: String,
}

/// A model as the catalog lists it.
#[derive(Debug)]
pub struct ShengSuanYunModel {
    pub id: String,
    pub name: String,
    pub description: String,
    pub context_window: Option<i64>,
    pub pricing: Option<Pricing>,
    pub support_apis: Option<Vec<String>>,
}

/// What the prices of a model are.
pub struct PricingView {
    pub input_price: Option<Seq<char>>,
    pub output_price: Option<Seq<char>>,
    pub currency: Seq<char>,
}

/// What a model in the catalog is.
pub struct ModelView {
    pub id: Seq<char>,
    pub name: Seq<char>,
    pub description: Seq<char>,
    pub context_window: Option<i64>,
    pub pricing: Option<PricingView>,
    pub support_apis: Option<Seq<Seq<char>>>,
}

/// What the texts of a list are.
pub open spec fn text_views(texts: Seq<String>) -> Seq<Seq<char>> {
    texts.map_values(|t: String| t@)
}

impl View for Pricing {
    type V = PricingView;

    open spec fn view(&self) -> PricingView {
        PricingView {
            input_price: match self.input_price {
                Some(p) => Some(p@),
                None => None,
            },
            output_price: match self.output_price {
                Some(p) => Some(p@),
                None => None,
            },
            currency: self.currency@,
        }
    }
}

impl View for ShengSuanYunModel {
    type V = ModelView;

    open spec fn view(&self) -> ModelView {
        ModelView {
            id: self.id@,
            name: self.name@,
            description: self.description@,
            context_window: self.context_window,
            pricing: match self.pricing {
                Some(p) => Some(p@),
                None => None,
            },
            support_apis: match self.support_apis {
                Some(apis) => Some(text_views(apis@)),
                None => None,
            },
        }
    }
}

/// How many thousands are in `n`, rounded towards zero.
pub open spec fn thousands(n: int) -> int {
    if n >= 0 {
        n / 1000
    } else {
        -((-n) / 1000)
    }
}

/// The thousands of a number never exceed it in size, and leave less than a thousand of it over.
pub proof fn thousands_round_towards_zero(n: int)
    ensures
        n >= 0 ==> 0 <= 1000 * thousands(n) <= n < 1000 * thousands(n) + 1000,
        n <= 0 ==> 1000 * thousands(n) - 1000 < n <= 1000 * thousands(n) <= 0,
{
}

/// The column in which a context window stands.
pub open spec fn window_column(context_window: Option<i64>) -> Seq<char> {
    match context_window {
        Some(n) => right_aligned(signed_decimal(thousands(n as int)), 5),
        None => right_aligned(seq![], 5),
    }
}

/// The column in which a price stands.
pub open spec fn price_column(price: Option<Seq<char>>) -> Seq<char> {
    match price {
        Some(p) => right_aligned(p, 5),
        None => right_aligned(seq![], 5),
    }
}

/// The prices to show: without any, all parts are empty.
pub open spec fn shown_pricing(pricing: Option<PricingView>) -> PricingView {
    match pricing {
        Some(p) => p,
        None => PricingView { input_price: None, output_price: None, currency: seq![] },
    }
}

/// A line on what a model costs: its context window in thousands of tokens, and its prices.
pub open spec fn window_and_prices(model: ModelView) -> Seq<char> {
    let pricing = shown_pricing(model.pricing);
    "上下文："@ + window_column(model.context_window) + " K  输入价格："@ + price_column(
        pricing.input_price,
    ) + " "@ + pricing.currency + "/M 输出价格："@ + price_column(pricing.output_price) + " "@
        + pricing.currency + "/M"@
}

fn window_text(context_window: Option<i64>) -> (text: String)
    ensures
        text@ == window_column(context_window),
{
    match context_window {
        Some(n) => {
            let count: i64 = if n >= 0 {
                n / 1000
            } else {
                let magnitude: u64 = if n == i64::MIN {
                    0x8000_0000_0000_0000u64
                } else {
                    (-n) as u64
                };
                -((magnitude / 1000) as i64)
            };
            right_align(signed_decimal_text(count).as_str(), 5)
        },
        None => right_align(String::new().as_str(), 5),
    }
}

fn price_text(price: &Option<String>) -> (text: String)
    ensures
        text@ == price_column(
            match *price {
                Some(p) => Some(p@),
                None => None,
            },
        ),
{
    match price {
        Some(p) => right_align(p.as_str(), 5),
        None => right_align(String::new().as_str(), 5),
    }
}

/// Describes a model by its context window and its prices.
pub fn format_description(model: &ShengSuanYunModel) -> (text: String)
    ensures
        text@ == window_and_prices(model@),
        text@ == "上下文："@ + right_aligned(
            match model.context_window {
                Some(n) => signed_decimal(thousands(n as int)),
                None => seq![],
            },
            5,
        ) + " K  输入价格："@ + right_aligned(
            match model.pricing {
                Some(Pricing { input_price: Some(price), .. }) => price@,
                _ => seq![],
            },
            5,
        ) + " "@ + match model.pricing {
            Some(pricing) => pricing.currency@,
            None => seq![],
        } + "/M 输出价格："@ + right_aligned(
            match model.pricing {
                Some(Pricing { output_price: Some(price), .. }) => price@,
                _ => seq![],
            },
            5,
        ) + " "@ + match model.pricing {
            Some(pricing) => pricing.currency@,
            None => seq![],
        } + "/M"@,
{
    let empty: Option<String> = None;
    let no_currency: String = String::new();
    let (input_price, output_price, currency): (&Option<String>, &Option<String>, &String) =
        match &model.pricing {
        Some(pricing) => (&pricing.input_price, &pricing.output_price, &pricing.currency),
        None => (&empty, &empty, &no_currency),
    };
    let mut text: String = "上下文：".to_owned();
    text.append(window_text(model.context_window).as_str());
    text.append(" K  输入价格：");
    text.append(price_text(input_price).as_str());
    text.append(" ");
    text.append(currency.as_str());
    text.append("/M 输出价格：");
    text.append(price_text(output_price).as_str());
    text.append(" ");
    text.append(currency.as_str());
    text.append("/M");
    text
}

/// Says whether a model supports the Responses API.
pub open spec fn supports_responses(model: ModelView) -> bool {
    &&& model.support_apis matches Some(apis)
    &&& apis.contains(RESPONSES_API_SUPPORT@)
}

/// A model supports the Responses API if and only if one of the APIs that it lists is
/// `/v1/responses`.
pub proof fn supporting_is_listing_the_responses_api(model: ShengSuanYunModel)
    ensures
        supports_responses(model@) <==> (model.support_apis matches Some(apis) && exists|i: int|
            0 <= i < apis@.len() && (#[trigger] apis@[i])@ == "/v1/responses"@),
{
    if let Some(apis) = model.support_apis {
        let views = text_views(apis@);
        if exists|i: int| 0 <= i < apis@.len() && (#[trigger] apis@[i])@ == "/v1/responses"@ {
            let i = choose|i: int|
                0 <= i < apis@.len() && (#[trigger] apis@[i])@ == "/v1/responses"@;
            assert(views[i] == "/v1/responses"@);
        }
        if views.contains("/v1/responses"@) {
            let i = choose|i: int| 0 <= i < views.len() && views[i] == "/v1/responses"@;
            assert(apis@[i]@ == "/v1/responses"@);
        }
    }
}

/// Says whether a model supports the Responses API. One that lists no APIs does not.
pub fn supports_responses_api(model: &ShengSuanYunModel) -> (supported: bool)
    ensures
        supported == supports_responses(model@),
        supported <==> (model.support_apis matches Some(apis) && exists|i: int|
            0 <= i < apis@.len() && (#[trigger] apis@[i])@ == "/v1/responses"@),
{
    proof {
        supporting_is_listing_the_responses_api(*model);
    }
    match &model.support_apis {
        Some(apis) => {
            let ghost views = text_views(apis@);
            let mut i: usize = 0;
            while i < apis.len()
                invariant
                    i <= apis.len(),
                    views == text_views(apis@),
                    model@.support_apis == Some(views),
                    forall|j: int| 0 <= j < i ==> #[trigger] views[j] != RESPONSES_API_SUPPORT@,
                decreases apis.len() - i,
            {
                if same_text(apis[i].as_str(), RESPONSES_API_SUPPORT) {
                    assert(views[i as int] == RESPONSES_API_SUPPORT@);
                    proof {
                        supporting_is_listing_the_responses_api(*model);
                    }
                    return true;
                }
                i = i + 1;
            }
            false
        },
        None => false,
    }
}

/// The tool with which a model runs commands.
#[derive(Debug, Clone, Copy, PartialEq, Eq, Structural)]
pub enum ConfigShellToolType {
    Default,
    Local,
    UnifiedExec,
    Disabled,
    ShellCommand,
}

/// Where a model is shown.
#[derive(Debug, Clone, Copy, PartialEq, Eq, Structural)]
pub enum ModelVisibility {
    List,
    Hide,
}

/// How much a model tells of its reasoning.
#[derive(Debug, Clone, Copy, PartialEq, Eq, Structural)]
pub enum ReasoningSummary {
    Auto,
    Concise,
    Detailed,
}

/// What a model's web search returns.
#[derive(Debug, Clone, Copy, PartialEq, Eq, Structural)]
pub enum WebSearchToolType {
    Text,
    TextAndImage,
}

/// What a truncation limit counts.
#[derive(Debug, Clone, Copy, PartialEq, Eq, Structural)]
pub enum TruncationMode {
    Bytes,
    Tokens,
}

/// Where tool output is cut off.
#[derive(Debug, Clone, Copy, PartialEq, Eq, Structural)]
pub struct TruncationPolicyConfig {
    pub mode: TruncationMode,
    pub limit: i64,
}

impl TruncationPolicyConfig {
    /// Cuts output off after so many bytes.
    pub fn bytes(limit: i64) -> (policy: Self)
        ensures
            policy.mode == TruncationMode::Bytes,
            policy.limit == limit,
    {
        TruncationPolicyConfig { mode: TruncationMode::Bytes, limit }
    }
}

/// The messages with which a model is set up. Those that the catalog never fills in are held as
/// text.
#[derive(Debug)]
pub struct ModelMessages {
    pub persistent_instructions: Option<String>,
    pub tools: Option<String>,
    pub confirmation_policies: Option<String>,
    pub instructions_template: Option<String>,
    pub instructions_variables: Option<String>,
    pub approvals: Option<String>,
    pub collaboration_modes: Option<String>,
    pub auto_review: Option<String>,
    pub permissions: Option<String>,
    pub multi_agent: Option<String>,
    pub token_budget: Option<String>,
    pub guardian_v2: Option<String>,
}

/// A model as it is offered for use. Settings that the catalog never fills in are held as text.
#[derive(Debug)]
pub struct ModelInfo {
    pub guardian: Option<String>,
    pub slug: String,
    pub display_name: String,
    pub description: Option<String>,
    pub default_reasoning_level: Option<String>,
    pub supported_reasoning_levels: Vec<String>,
    pub shell_type: ConfigShellToolType,
    pub visibility: ModelVisibility,
    pub supported_in_api: bool,
    pub priority: i32,
    pub additional_speed_tiers: Vec<String>,
    pub service_tiers: Vec<String>,
    pub default_service_tier: Option<String>,
    pub availability_nux: Option<String>,
    pub upgrade: Option<String>,
    pub model_messages: Option<ModelMessages>,
    pub include_skills_usage_instructions: bool,
    pub include_plugin_usage_instructions: bool,
    pub include_apps_usage_instructions: bool,
    pub supports_reasoning_summary_parameter: bool,
    pub default_reasoning_summary: ReasoningSummary,
    pub support_verbosity: bool,
    pub default_verbosity: Option<String>,
    pub apply_patch_tool_type: Option<String>,
    pub web_search_tool_type: WebSearchToolType,
    pub truncation_policy: TruncationPolicyConfig,
    pub supports_image_detail_original: bool,
    pub context_window: Option<i64>,
    pub max_context_window: Option<i64>,
    pub auto_compact_token_limit: Option<i64>,
    pub comp_hash: Option<String>,
    pub effective_context_window_percent: i64,
    pub experimental_supported_tools: Vec<String>,
    pub input_modalities: Vec<String>,
    pub used_fallback_model_metadata: bool,
    pub supports_search_tool: bool,
    pub supports_experimental_context: bool,
    pub use_responses_lite: bool,
    pub node_repl_auto_review_required: bool,
    pub node_repl_disabled: bool,
    pub auto_review_model_override: Option<String>,
    pub model_specialty: Option<String>,
    pub tool_mode: Option<String>,
    pub multi_agent_version: Option<String>,
    pub multi_agent_reasoning_effort: Option<String>,
}

/// What every model has from the program that lists it: its base instructions, and the names of
/// the kinds of input that it takes.
#[derive(Debug)]
pub struct ModelDefaults {
    pub base_instructions: String,
    pub input_modalities: Vec<String>,
}

/// Says that messages hold the base instructions and nothing else.
pub open spec fn only_base_instructions(messages: ModelMessages, instructions: Seq<char>) -> bool {
    &&& messages.persistent_instructions is None
    &&& messages.tools is None
    &&& messages.confirmation_policies is None
    &&& messages.instructions_template matches Some(template) && template@ == instructions
    &&& messages.instructions_variables is None
    &&& messages.approvals is None
    &&& messages.collaboration_modes is None
    &&& messages.auto_review is None
    &&& messages.permissions is None
    &&& messages.multi_agent is None
    &&& messages.token_budget is None
    &&& messages.guardian_v2 is None
}

/// The name under which a model is shown: its own, or its id where it has none.
pub open spec fn shown_name(model: ModelView) -> Seq<char> {
    if model.name.len() == 0 {
        model.id
    } else {
        model.name
    }
}

/// Says that `info` offers the catalog's `model` for use.
pub open spec fn offers(info: ModelInfo, model: ModelView, defaults: ModelDefaults) -> bool {
    &&& info.slug@ == model.id
    &&& info.display_name@ == shown_name(model)
    &&& if model.description.len() == 0 {
        info.description is None
    } else {
        info.description matches Some(text) && text@ == model.description
    }
    &&& info.context_window == model.context_window
    &&& info.max_context_window == model.context_window
    &&& info.priority == SHENGSUANYUN_FALLBACK_PRIORITY
    &&& info.visibility == ModelVisibility::List
    &&& info.supported_in_api
    &&& info.model_messages matches Some(messages) && only_base_instructions(
        messages,
        defaults.base_instructions@,
    )
    &&& text_views(info.input_modalities@) == text_views(defaults.input_modalities@)
    &&& info.shell_type == ConfigShellToolType::UnifiedExec
    &&& info.truncation_policy == (TruncationPolicyConfig {
        mode: TruncationMode::Bytes,
        limit: 10_000,
    })
    &&& info.effective_context_window_percent == 95
    &&& info.web_search_tool_type == WebSearchToolType::Text
    &&& info.default_reasoning_summary == ReasoningSummary::Auto
    &&& info.supports_reasoning_summary_parameter
    &&& leaves_the_rest_unset(info)
}

/// Says that no other setting of a model is made.
pub open spec fn leaves_the_rest_unset(info: ModelInfo) -> bool {
    &&& info.guardian is None
    &&& info.default_reasoning_level is None
    &&& info.supported_reasoning_levels@.len() == 0
    &&& info.additional_speed_tiers@.len() == 0
    &&& info.service_tiers@.len() == 0
    &&& info.default_service_tier is None
    &&& info.availability_nux is None
    &&& info.upgrade is None
    &&& !info.include_skills_usage_instructions
    &&& !info.include_plugin_usage_instructions
    &&& !info.include_apps_usage_instructions
    &&& !info.support_verbosity
    &&& info.default_verbosity is None
    &&& info.apply_patch_tool_type is None
    &&& !info.supports_image_detail_original
    &&& info.auto_compact_token_limit is None
    &&& info.comp_hash is None
    &&& info.experimental_supported_tools@.len() == 0
    &&& !info.used_fallback_model_metadata
    &&& !info.supports_search_tool
    &&& !info.supports_experimental_context
    &&& !info.use_responses_lite
    &&& !info.node_repl_auto_review_required
    &&& !info.node_repl_disabled
    &&& info.auto_review_model_override is None
    &&& info.model_specialty is None
    &&& info.tool_mode is None
    &&& info.multi_agent_version is None
    &&& info.multi_agent_reasoning_effort is None
}

fn copy_texts(texts: &Vec<String>) -> (copy: Vec<String>)
    ensures
        text_views(copy@) == text_views(texts@),
{
    let mut copy: Vec<String> = Vec::new();
    let mut i: usize = 0;
    while i < texts.len()
        invariant
            i <= texts.len(),
            text_views(copy@) =~= text_views(texts@).take(i as int),
        decreases texts.len() - i,
    {
        let ghost before = copy@;
        copy.push(texts[i].clone());
        assert(copy@.last()@ == texts@[i as int]@);
        assert(text_views(copy@) =~= text_views(before).push(texts@[i as int]@));
        i = i + 1;
    }
    assert(text_views(copy@) =~= text_views(texts@));
    copy
}

/// Offers a model of the catalog for use. Its description is the catalog's own, where there is one.
pub fn shengsuanyun_model_to_model_info(
    model: &ShengSuanYunModel,
    defaults: &ModelDefaults,
) -> (info: ModelInfo)
    ensures
        offers(info, model@, *defaults),
{
    let description: Option<String> = if model.description.as_str().is_empty() {
        None
    } else {
        Some(model.description.clone())
    };
    let display_name: String = if model.name.as_str().is_empty() {
        model.id.clone()
    } else {
        model.name.clone()
    };
    ModelInfo {
        guardian: None,
        slug: model.id.clone(),
        display_name,
        description,
        default_reasoning_level: None,
        supported_reasoning_levels: Vec::new(),
        shell_type: ConfigShellToolType::UnifiedExec,
        visibility: ModelVisibility::List,
        supported_in_api: true,
        priority: SHENGSUANYUN_FALLBACK_PRIORITY,
        additional_speed_tiers: Vec::new(),
        service_tiers: Vec::new(),
        default_service_tier: None,
        availability_nux: None,
        upgrade: None,
        model_messages: Some(
            ModelMessages {
                persistent_instructions: None,
                tools: None,
                confirmation_policies: None,
                instructions_template: Some(defaults.base_instructions.clone()),
                instructions_variables: None,
                approvals: None,
                collaboration_modes: None,
                auto_review: None,
                permissions: None,
                multi_agent: None,
                token_budget: None,
                guardian_v2: None,
            },
        ),
        include_skills_usage_instructions: false,
        include_plugin_usage_instructions: false,
        include_apps_usage_instructions: false,
        supports_reasoning_summary_parameter: true,
        default_reasoning_summary: ReasoningSummary::Auto,
        support_verbosity: false,
        default_verbosity: None,
        apply_patch_tool_type: None,
        web_search_tool_type: WebSearchToolType::Text,
        truncation_policy: TruncationPolicyConfig::bytes(10_000),
        supports_image_detail_original: false,
        context_window: model.context_window,
        max_context_window: model.context_window,
        auto_compact_token_limit: None,
        comp_hash: None,
        effective_context_window_percent: 95,
        experimental_supported_tools: Vec::new(),
        input_modalities: copy_texts(&defaults.input_modalities),
        used_fallback_model_metadata: false,
        supports_search_tool: false,
        supports_experimental_context: false,
        use_responses_lite: false,
        node_repl_auto_review_required: false,
        node_repl_disabled: false,
        auto_review_model_override: None,
        model_specialty: None,
        tool_mode: None,
        multi_agent_version: None,
        multi_agent_reasoning_effort: None,
    }
}

/// What the models of a list are.
pub open spec fn model_views(models: Seq<ShengSuanYunModel>) -> Seq<ModelView> {
    models.map_values(|m: ShengSuanYunModel| m@)
}

/// The models that can be used, in the order of the catalog.
pub open spec fn usable(models: Seq<ModelView>) -> Seq<ModelView> {
    models.filter(|m: ModelView| supports_responses(m))
}

/// Says that the list offers exactly these models, in order.
pub open spec fn offers_all(
    infos: Seq<ModelInfo>,
    models: Seq<ModelView>,
    defaults: ModelDefaults,
) -> bool {
    &&& infos.len() == models.len()
    &&& forall|i: int| 0 <= i < infos.len() ==> offers(#[trigger] infos[i], models[i], defaults)
}

/// Offers the models of a catalog that can be used.
pub fn usable_models(models: &Vec<ShengSuanYunModel>, defaults: &ModelDefaults) -> (infos: Vec<
    ModelInfo,
>)
    ensures
        offers_all(infos@, usable(model_views(models@)), *defaults),
        exists|at: Seq<int>|
            {
                &&& #[trigger] at.len() == infos@.len()
                &&& forall|i: int|
                    0 <= i < at.len() ==> {
                        &&& 0 <= #[trigger] at[i] < models@.len()
                        &&& infos@[i].slug@ == models@[at[i]].id@
                        &&& offers(infos@[i], models@[at[i]]@, *defaults)
                        &&& models@[at[i]].support_apis matches Some(apis)
                        &&& exists|a: int|
                            0 <= a < apis@.len() && (#[trigger] apis@[a])@
                                == "/v1/responses"@
                    }
                &&& forall|i: int, j: int|
                    0 <= i < j < at.len() ==> #[trigger] at[i] < #[trigger] at[j]
                &&& forall|j: int|
                    0 <= j < models@.len() && ((
                    #[trigger] models@[j]).support_apis matches Some(apis) && exists|
                        a: int,
                    |
                        0 <= a < apis@.len() && (#[trigger] apis@[a])@
                            == "/v1/responses"@) ==> at.contains(j)
            },
{
    let ghost keep = |m: ModelView| supports_responses(m);
    let ghost views = model_views(models@);
    let mut infos: Vec<ModelInfo> = Vec::new();
    let ghost mut at: Seq<int> = seq![];
    let mut i: usize = 0;
    while i < models.len()
        invariant
            i <= models.len(),
            at.len() == infos@.len(),
            forall|n: int|
                0 <= n < at.len() ==> {
                    &&& 0 <= #[trigger] at[n] < i
                    &&& supports_responses(models@[at[n]]@)
                    &&& offers(infos@[n], models@[at[n]]@, *defaults)
                },
            forall|n: int, m: int| 0 <= n < m < at.len() ==> #[trigger] at[n] < #[trigger] at[m],
            forall|j: int|
                0 <= j < i && supports_responses((#[trigger] models@[j])@) ==> at.contains(j),
            keep == (|m: ModelView| supports_responses(m)),
            views == model_views(models@),
            offers_all(infos@, views.take(i as int).filter(keep), *defaults),
        decreases models.len() - i,
    {
        proof {
            reveal(Seq::filter);
            assert(views.take(i + 1).drop_last() =~= views.take(i as int));
            assert(views.take(i + 1).last() == models@[i as int]@);
        }
        if supports_responses_api(&models[i]) {
            infos.push(shengsuanyun_model_to_model_info(&models[i], defaults));
            proof {
                let earlier = at;
                at = at.push(i as int);
                assert(at.last() == i);
                assert forall|j: int|
                    0 <= j <= i && supports_responses((#[trigger] models@[j])@) implies at.contains(
                    j,
                ) by {
                    if j < i {
                        let n = choose|n: int| 0 <= n < earlier.len() && earlier[n] == j;
                        assert(at[n] == j);
                    } else {
                        assert(at[at.len() - 1] == j);
                    }
                }
            }
        }
        i = i + 1;
    }
    assert(views.take(i as int) =~= views);
    proof {
        assert forall|j: int| 0 <= j < models@.len() implies supports_responses(
            (#[trigger] models@[j])@,
        ) <==> (models@[j].support_apis matches Some(apis) && exists|a: int|
            0 <= a < apis@.len() && (#[trigger] apis@[a])@ == "/v1/responses"@) by {
            supporting_is_listing_the_responses_api(models@[j]);
        }
        assert(at.len() == infos@.len());
    }
    infos
}

/// Why the catalog could not be listed. `E` is the error of a provider that is not set up.
#[derive(Debug)]
pub enum CodexErr<E> {
    Provider(E),
    Stream(String),
    Timeout,
}

/// What an error is.
pub enum CodexErrView<E> {
    Provider(E),
    Stream(Seq<char>),
    Timeout,
}

impl<E> View for CodexErr<E> {
    type V = CodexErrView<E>;

    open spec fn view(&self) -> CodexErrView<E> {
        match *self {
            CodexErr::Provider(error) => CodexErrView::Provider(error),
            CodexErr::Stream(text) => CodexErrView::Stream(text@),
            CodexErr::Timeout => CodexErrView::Timeout,
        }
    }
}

/// What came of asking for the catalog.
pub enum RefreshOutcome<E> {
    /// The provider's address or credentials could not be settled.
    ProviderFailed(E),
    /// The request could not be signed, or there was no client to send it.
    RequestFailed(String),
    /// The request could not be carried out.
    TransportFailed(String),
    /// There was no response in time.
    TimedOut,
    /// The response could not be decoded.
    Undecodable { error: String, body: Vec<u8> },
    /// The response lists these models.
    Listed(Vec<ShengSuanYunModel>),
}

/// The text that std makes of bytes that need not be UTF-8.
pub uninterp spec fn lossy_text(bytes: Seq<u8>) -> Seq<char>;

/// Reads bytes as text with `String::from_utf8_lossy` of std.
///
/// Trusted of it: the text is fixed by the bytes, and is the text that they encode where they are
/// UTF-8. What stands for bytes that are not is not stated.
#[verifier::external_body]
fn std_from_utf8_lossy(bytes: &[u8]) -> (text: String)
    ensures
        text@ == lossy_text(bytes@),
        valid_utf8(bytes@) ==> text@ == decode_utf8(bytes@),
{
    String::from_utf8_lossy(bytes).into_owned()
}

/// The message where a response could not be decoded.
pub open spec fn undecodable_message(error: Seq<char>, body: Seq<char>) -> Seq<char> {
    "failed to decode shengsuanyun models response: "@ + error + "; body: "@ + body
}

/// The error where a request could not be carried out.
pub fn map_transport_error<E>(error: String) -> (mapped: CodexErr<E>)
    ensures
        mapped == CodexErr::<E>::Stream(error),
{
    CodexErr::Stream(error)
}

/// The error where a response could not be decoded. It quotes the response.
pub fn decode_error<E>(error: &str, body: &[u8]) -> (mapped: CodexErr<E>)
    ensures
        mapped@ == CodexErrView::<E>::Stream(undecodable_message(error@, lossy_text(body@))),
        valid_utf8(body@) ==> mapped@ == CodexErrView::<E>::Stream(
            undecodable_message(error@, decode_utf8(body@)),
        ),
        mapped matches CodexErr::Stream(message) && message@
            == "failed to decode shengsuanyun models response: "@ + error@ + "; body: "@
            + lossy_text(body@),
{
    let mut message: String = "failed to decode shengsuanyun models response: ".to_owned();
    message.append(error);
    message.append("; body: ");
    message.append(std_from_utf8_lossy(body).as_str());
    CodexErr::Stream(message)
}

/// ShengSuanYun's own endpoint for its catalog. `P` describes the provider, and `A` manages the
/// credentials; both are held as they are.
#[derive(Debug)]
pub struct ShengSuanYunModelsEndpoint<P, A> {
    pub provider_info: P,
    pub auth_manager: Option<A>,
}

impl<P, A> ShengSuanYunModelsEndpoint<P, A> {
    /// An endpoint of a provider.
    pub fn new(provider_info: P, auth_manager: Option<A>) -> (endpoint: Self)
        ensures
            endpoint.provider_info == provider_info,
            endpoint.auth_manager == auth_manager,
    {
        ShengSuanYunModelsEndpoint { provider_info, auth_manager }
    }

    /// Says whether the catalog is to be refreshed from the network. It always is.
    pub fn uses_codex_backend(&self) -> (used: bool)
        ensures
            used,
    {
        true
    }

    /// The models to offer after the catalog was asked for: those of the list that can be used, in
    /// its order. There is never an entity tag. Where there is no list, this is the error.
    pub fn list_models<E>(&self, outcome: RefreshOutcome<E>, defaults: &ModelDefaults) -> (listed:
        Result<(Vec<ModelInfo>, Option<String>), CodexErr<E>>)
        ensures
            match outcome {
                RefreshOutcome::Listed(models) => {
                    &&& listed matches Ok(l)
                    &&& offers_all(l.0@, usable(model_views(models@)), *defaults)
                    &&& l.1 is None
                    &&& exists|at: Seq<int>|
                        {
                            &&& #[trigger] at.len() == l.0@.len()
                            &&& forall|i: int|
                                0 <= i < at.len() ==> {
                                    &&& 0 <= #[trigger] at[i] < models@.len()
                                    &&& l.0@[i].slug@ == models@[at[i]].id@
                                    &&& offers(l.0@[i], models@[at[i]]@, *defaults)
                                    &&& models@[at[i]].support_apis matches Some(apis)
                                    &&& exists|a: int|
                                        0 <= a < apis@.len() && (#[trigger] apis@[a])@
                                            == "/v1/responses"@
                                }
                            &&& forall|i: int, j: int|
                                0 <= i < j < at.len() ==> #[trigger] at[i] < #[trigger] at[j]
                            &&& forall|j: int|
                                0 <= j < models@.len() && ((
                                #[trigger] models@[j]).support_apis matches Some(apis) && exists|
                                    a: int,
                                |
                                    0 <= a < apis@.len() && (#[trigger] apis@[a])@
                                        == "/v1/responses"@) ==> at.contains(j)
                        }
                },
                RefreshOutcome::ProviderFailed(error) => listed matches Err(e) && e
                    == CodexErr::Provider(error),
                RefreshOutcome::RequestFailed(text) => listed matches Err(e) && e@
                    == CodexErrView::<E>::Stream(text@) && e == CodexErr::<E>::Stream(text),
                RefreshOutcome::TransportFailed(text) => listed matches Err(e) && e@
                    == CodexErrView::<E>::Stream(text@) && e == CodexErr::<E>::Stream(text),
                RefreshOutcome::TimedOut => listed matches Err(e) && e@
                    == CodexErrView::<E>::Timeout && e == CodexErr::<E>::Timeout,
                RefreshOutcome::Undecodable { error, body } => {
                    &&& listed matches Err(e)
                    &&& e@ == CodexErrView::<E>::Stream(
                        undecodable_message(error@, lossy_text(body@)),
                    )
                    &&& valid_utf8(body@) ==> e@ == CodexErrView::<E>::Stream(
                        undecodable_message(error@, decode_utf8(body@)),
                    )
                    &&& e matches CodexErr::Stream(message)
                    &&& message@ == "failed to decode shengsuanyun models response: "@ + error@
                        + "; body: "@ + lossy_text(body@)
                },
            },
    {
        match outcome {
            RefreshOutcome::Listed(models) => Ok((usable_models(&models, defaults), None)),
            RefreshOutcome::ProviderFailed(error) => Err(CodexErr::Provider(error)),
            RefreshOutcome::RequestFailed(text) => Err(CodexErr::Stream(text)),
            RefreshOutcome::TransportFailed(text) => Err(map_transport_error(text)),
            RefreshOutcome::TimedOut => Err(CodexErr::Timeout),
            RefreshOutcome::Undecodable { error, body } => Err(
                decode_error(error.as_str(), body.as_slice()),
            ),
        }
    }
}

/// Says that `info` offers a model of the catalog that supports the Responses API.
pub open spec fn offers_a_usable_one(
    info: ModelInfo,
    models: Seq<ModelView>,
    defaults: ModelDefaults,
) -> bool {
    exists|j: int|
        0 <= j < models.len() && supports_responses(#[trigger] models[j]) && offers(
            info,
            models[j],
            defaults,
        )
}

/// A list that offers the usable models of a catalog offers every model that supports the
/// Responses API, and no other.
pub proof fn exactly_the_models_with_the_responses_api_are_offered(
    infos: Seq<ModelInfo>,
    models: Seq<ModelView>,
    defaults: ModelDefaults,
)
    requires
        offers_all(infos, usable(models), defaults),
    ensures
        forall|i: int|
            0 <= i < infos.len() ==> offers_a_usable_one(#[trigger] infos[i], models, defaults),
        forall|j: int|
            0 <= j < models.len() && supports_responses(#[trigger] models[j]) ==> exists|i: int|
                0 <= i < infos.len() && offers(#[trigger] infos[i], models[j], defaults),
{
    broadcast use vstd::seq_lib::group_filter_ensures;

    let keep = |m: ModelView| supports_responses(m);
    let kept = usable(models);
    filter_keeps_members(models, keep);
    assert forall|i: int| 0 <= i < infos.len() implies offers_a_usable_one(
        #[trigger] infos[i],
        models,
        defaults,
    ) by {
        assert(models.contains(kept[i]));
        assert(keep(models.filter(keep)[i]));
        let j = choose|j: int| 0 <= j < models.len() && models[j] == kept[i];
        assert(supports_responses(models[j]) && offers(infos[i], models[j], defaults));
    }
    assert forall|j: int|
        0 <= j < models.len() && supports_responses(#[trigger] models[j]) implies exists|i: int|
        0 <= i < infos.len() && offers(#[trigger] infos[i], models[j], defaults) by {
        assert(keep(models[j]));
        assert(kept.contains(models[j]));
        let i = choose|i: int| 0 <= i < kept.len() && kept[i] == models[j];
        assert(offers(infos[i], kept[i], defaults));
    }
}

/// Whatever a catalog lists, each model that is offered has the id of an entry that lists the API
/// `/v1/responses`, and each such entry is offered.
pub proof fn listed_models_list_the_responses_api<P, A, E>(
    endpoint: &ShengSuanYunModelsEndpoint<P, A>,
    models: Vec<ShengSuanYunModel>,
    defaults: &ModelDefaults,
    infos: Vec<ModelInfo>,
    etag: Option<String>,
)
    requires
        call_ensures(
            ShengSuanYunModelsEndpoint::<P, A>::list_models::<E>,
            (endpoint, RefreshOutcome::Listed(models), defaults),
            Ok((infos, etag)),
        ),
    ensures
        etag is None,
        infos@.len() <= models@.len(),
        forall|i: int|
            0 <= i < infos@.len() ==> exists|j: int|
                0 <= j < models@.len() && (#[trigger] infos@[i]).slug@ == (
                #[trigger] models@[j]).id@ && (models@[j].support_apis matches Some(apis)
                    && exists|a: int|
                    0 <= a < apis@.len() && (#[trigger] apis@[a])@ == "/v1/responses"@),
        forall|j: int|
            0 <= j < models@.len() && ((#[trigger] models@[j]).support_apis matches Some(apis)
                && exists|a: int|
                0 <= a < apis@.len() && (#[trigger] apis@[a])@ == "/v1/responses"@) ==> exists|
                i: int,
            | 0 <= i < infos@.len() && (#[trigger] infos@[i]).slug@ == models@[j].id@,
{
    broadcast use Seq::lemma_filter_len;

    assert(infos@.len() == usable(model_views(models@)).len());
    exactly_the_models_with_the_responses_api_are_offered(
        infos@,
        model_views(models@),
        *defaults,
    );
    assert forall|i: int| 0 <= i < infos@.len() implies exists|j: int|
        0 <= j < models@.len() && (#[trigger] infos@[i]).slug@ == (#[trigger] models@[j]).id@ && (
        models@[j].support_apis matches Some(apis) && exists|a: int|
            0 <= a < apis@.len() && (#[trigger] apis@[a])@ == "/v1/responses"@) by {
        let views = model_views(models@);
        assert(offers_a_usable_one(infos@[i], views, *defaults));
        let j = choose|j: int|
            0 <= j < views.len() && supports_responses(#[trigger] views[j]) && offers(
                infos@[i],
                views[j],
                *defaults,
            );
        supporting_is_listing_the_responses_api(models@[j]);
        assert(infos@[i].slug@ == models@[j].id@);
    }
    assert forall|j: int|
        0 <= j < models@.len() && ((#[trigger] models@[j]).support_apis matches Some(apis)
            && exists|a: int|
            0 <= a < apis@.len() && (#[trigger] apis@[a])@ == "/v1/responses"@) implies exists|
        i: int,
    | 0 <= i < infos@.len() && (#[trigger] infos@[i]).slug@ == models@[j].id@ by {
        let views = model_views(models@);
        supporting_is_listing_the_responses_api(models@[j]);
        assert(supports_responses(views[j]));
        let i = choose|i: int|
            0 <= i < infos@.len() && offers(#[trigger] infos@[i], views[j], *defaults);
        assert(infos@[i].slug@ == models@[j].id@);
    }
}

/// A model of a catalog is offered if it lists the API `/v1/responses`, and is left out otherwise,
/// whatever stands before and after it.
pub proof fn each_model_is_picked_by_its_own_apis(
    first: Seq<ModelView>,
    model: ModelView,
    rest: Seq<ModelView>,
)
    ensures
        usable(first + seq![model] + rest) == usable(first) + (if (model.support_apis matches Some(
            apis,
        ) && exists|i: int| 0 <= i < apis.len() && #[trigger] apis[i] == "/v1/responses"@) {
            seq![model]
        } else {
            seq![]
        }) + usable(rest),
        usable(Seq::<ModelView>::empty()) == Seq::<ModelView>::empty(),
{
    let keep = |m: ModelView| supports_responses(m);
    Seq::filter_distributes_over_add(first + seq![model], rest, keep);
    Seq::filter_distributes_over_add(first, seq![model], keep);
    reveal_with_fuel(Seq::filter, 2);
    assert(seq![model].drop_last() =~= Seq::<ModelView>::empty());
    assert(usable(seq![model]) =~= if supports_responses(model) {
        seq![model]
    } else {
        seq![]
    });
    if let Some(apis) = model.support_apis {
        if apis.contains("/v1/responses"@) {
            let i = choose|i: int| 0 <= i < apis.len() && apis[i] == "/v1/responses"@;
            assert(apis[i] == "/v1/responses"@);
        }
    }
}

/// A model that is offered has the id of its catalog entry, its own name or else its id, its own
/// description or else none, and its own context window; all that is offered agrees in the rest.
pub proof fn offered_model_is_that_of_the_catalog(
    info: ModelInfo,
    model: ModelView,
    defaults: ModelDefaults,
)
    requires
        offers(info, model, defaults),
    ensures
        info.slug@ == model.id,
        model.name.len() > 0 ==> info.display_name@ == model.name,
        model.name.len() == 0 ==> info.display_name@ == model.id,
        model.description.len() > 0 ==> (info.description matches Some(text) && text@
            == model.description),
        model.description.len() == 0 ==> info.description is None,
        info.context_window == model.context_window,
        info.max_context_window == model.context_window,
        info.priority == 100,
        info.visibility == ModelVisibility::List,
        info.supported_in_api,
        info.model_messages matches Some(messages) && messages.instructions_template matches Some(
            template,
        ) && template@ == defaults.base_instructions@ && messages.persistent_instructions is None
            && messages.tools is None && messages.confirmation_policies is None
            && messages.instructions_variables is None && messages.approvals is None
            && messages.collaboration_modes is None && messages.auto_review is None
            && messages.permissions is None && messages.multi_agent is None
            && messages.token_budget is None && messages.guardian_v2 is None,
        info.input_modalities@.len() == defaults.input_modalities@.len(),
        forall|i: int|
            0 <= i < info.input_modalities@.len() ==> (#[trigger] info.input_modalities@[i])@
                == defaults.input_modalities@[i]@,
        info.shell_type == ConfigShellToolType::UnifiedExec,
        info.truncation_policy.mode == TruncationMode::Bytes,
        info.truncation_policy.limit == 10_000,
        info.effective_context_window_percent == 95,
        info.web_search_tool_type == WebSearchToolType::Text,
        info.default_reasoning_summary == ReasoningSummary::Auto,
        info.supports_reasoning_summary_parameter,
        info.guardian is None,
        info.default_reasoning_level is None,
        info.supported_reasoning_levels@.len() == 0,
        info.additional_speed_tiers@.len() == 0,
        info.service_tiers@.len() == 0,
        info.default_service_tier is None,
        info.availability_nux is None,
        info.upgrade is None,
        !info.include_skills_usage_instructions,
        !info.include_plugin_usage_instructions,
        !info.include_apps_usage_instructions,
        !info.support_verbosity,
        info.default_verbosity is None,
        info.apply_patch_tool_type is None,
        !info.supports_image_detail_original,
        info.auto_compact_token_limit is None,
        info.comp_hash is None,
        info.experimental_supported_tools@.len() == 0,
        !info.used_fallback_model_metadata,
        !info.supports_search_tool,
        !info.supports_experimental_context,
        !info.use_responses_lite,
        !info.node_repl_auto_review_required,
        !info.node_repl_disabled,
        info.auto_review_model_override is None,
        info.model_specialty is None,
        info.tool_mode is None,
        info.multi_agent_version is None,
        info.multi_agent_reasoning_effort is None,
{
    let given = text_views(defaults.input_modalities@);
    let shown = text_views(info.input_modalities@);
    assert(shown.len() == given.len());
    assert forall|i: int| 0 <= i < info.input_modalities@.len() implies (
    #[trigger] info.input_modalities@[i])@ == defaults.input_modalities@[i]@ by {
        assert(shown[i] == given[i]);
    }
}

/// Models are offered in the order of the catalog: what is offered of two parts of a catalog, one
/// after the other, is what is offered of the whole.
pub proof fn offers_follow_the_order_of_the_catalog(first: Seq<ModelView>, second: Seq<ModelView>)
    ensures
        usable(first + second) == usable(first) + usable(second),
{
    Seq::filter_distributes_over_add(first, second, |m: ModelView| supports_responses(m));
}

/// Every model that is offered can be picked and called, and stands behind all models of the
/// bundled catalog. No two differ in their priority.
pub proof fn offered_models_are_listed_behind_the_bundled_ones(
    infos: Seq<ModelInfo>,
    models: Seq<ModelView>,
    defaults: ModelDefaults,
)
    requires
        offers_all(infos, usable(models), defaults),
    ensures
        forall|i: int|
            0 <= i < infos.len() ==> (#[trigger] infos[i]).visibility == ModelVisibility::List
                && infos[i].supported_in_api && infos[i].priority > LAST_BUNDLED_PRIORITY,
        LAST_BUNDLED_PRIORITY == 43,
        forall|i: int, j: int|
            0 <= i < infos.len() && 0 <= j < infos.len() ==> (#[trigger] infos[i]).priority == (
            #[trigger] infos[j]).priority,
{
    assert forall|i: int| 0 <= i < infos.len() implies (#[trigger] infos[i]).visibility
        == ModelVisibility::List && infos[i].supported_in_api && infos[i].priority
        == SHENGSUANYUN_FALLBACK_PRIORITY by {
        assert(offers(infos[i], usable(models)[i], defaults));
    }
}

} // verus!
