use shengsuanyun::models::{
    format_description, supports_responses_api, CodexErr, ConfigShellToolType, ModelDefaults,
    ModelInfo, ModelVisibility, Pricing, ReasoningSummary, RefreshOutcome, ShengSuanYunModel,
    ShengSuanYunModelsEndpoint, TruncationMode, WebSearchToolType,
};

const BASE_INSTRUCTIONS: &str = "You are a coding agent.";

fn defaults() -> ModelDefaults {
    ModelDefaults {
        base_instructions: BASE_INSTRUCTIONS.to_string(),
        input_modalities: vec!["text".to_string(), "image".to_string()],
    }
}

fn model(id: &str, name: &str, apis: Option<Vec<&str>>) -> ShengSuanYunModel {
    ShengSuanYunModel {
        id: id.to_string(),
        name: name.to_string(),
        description: String::new(),
        context_window: None,
        pricing: None,
        support_apis: apis.map(|list| list.into_iter().map(str::to_string).collect()),
    }
}

fn sample_model() -> ShengSuanYunModel {
    ShengSuanYunModel {
        description: "A great model".to_string(),
        context_window: Some(1_000_000),
        pricing: Some(Pricing {
            input_price: Some(4.5f32.to_string()),
            output_price: Some(13.5f32.to_string()),
            currency: "CNY".to_string(),
        }),
        ..model(
            "deepseek/deepseek-v4-pro",
            "DeepSeek-V4-Pro-0813",
            Some(vec![
                "/v1/chat/completions",
                "/v1/messages",
                "/v1/responses",
                "/v1beta/models/*",
                "/v1/models/*",
            ]),
        )
    }
}

fn endpoint() -> ShengSuanYunModelsEndpoint<&'static str, ()> {
    ShengSuanYunModelsEndpoint::new("openai", /* auth_manager */ None)
}

fn list(models: Vec<ShengSuanYunModel>) -> Vec<ModelInfo> {
    let outcome: RefreshOutcome<u8> = RefreshOutcome::Listed(models);
    let (infos, etag) = endpoint()
        .list_models(outcome, &defaults())
        .expect("models request should succeed");
    assert_eq!(etag, None);
    infos
}

#[test]
fn list_models_filters_to_responses_api_and_maps_fields() {
    let models = list(vec![sample_model()]);

    assert_eq!(models.len(), 1);
    let model = &models[0];
    assert_eq!(model.slug, "deepseek/deepseek-v4-pro");
    assert_eq!(model.display_name, "DeepSeek-V4-Pro-0813");
    assert_eq!(model.context_window, Some(1_000_000));
    assert_eq!(model.max_context_window, Some(1_000_000));
    assert_eq!(model.visibility, ModelVisibility::List);
    assert!(model.supported_in_api);
    assert_eq!(
        model
            .model_messages
            .as_ref()
            .and_then(|messages| messages.instructions_template.as_deref()),
        Some(BASE_INSTRUCTIONS)
    );
}

#[test]
fn uses_codex_backend_is_always_true() {
    assert!(
        endpoint().uses_codex_backend(),
        "shengsuanyun endpoint must always force a refresh"
    );
}

#[test]
fn remaining_fields_have_their_defaults() {
    let models = list(vec![sample_model()]);
    let model = &models[0];
    assert_eq!(model.priority, 100);
    assert_eq!(model.shell_type, ConfigShellToolType::UnifiedExec);
    assert_eq!(model.default_reasoning_summary, ReasoningSummary::Auto);
    assert_eq!(model.web_search_tool_type, WebSearchToolType::Text);
    assert_eq!(model.truncation_policy.mode, TruncationMode::Bytes);
    assert_eq!(model.truncation_policy.limit, 10_000);
    assert_eq!(model.effective_context_window_percent, 95);
    assert_eq!(model.input_modalities, vec!["text", "image"]);
    assert!(model.supports_reasoning_summary_parameter);
    assert!(!model.support_verbosity);
    assert!(!model.used_fallback_model_metadata);
    assert!(model.supported_reasoning_levels.is_empty());
    assert!(model.upgrade.is_none());
}

#[test]
fn models_without_the_responses_api_are_left_out() {
    let infos = list(vec![
        model("a", "", Some(vec!["/v1/responses"])),
        model("b", "B", Some(vec!["/v1/messages"])),
        model("c", "C", None),
        model("d", "D", Some(vec![])),
        model("e", "E", Some(vec!["/v1/responses/", "/v1/Responses"])),
        model("f", "F", Some(vec!["x", "/v1/responses"])),
    ]);
    let slugs: Vec<&str> = infos.iter().map(|info| info.slug.as_str()).collect();
    assert_eq!(slugs, vec!["a", "f"]);
    let names: Vec<&str> = infos.iter().map(|info| info.display_name.as_str()).collect();
    assert_eq!(names, vec!["a", "F"]);
    assert!(supports_responses_api(&sample_model()));
    assert!(!supports_responses_api(&model("c", "C", None)));
    assert!(list(vec![]).is_empty());
}

#[test]
fn models_are_described_as_in_the_catalog() {
    let infos = list(vec![sample_model(), model("a", "A", Some(vec!["/v1/responses"]))]);
    assert_eq!(infos[0].description, Some("A great model".to_string()));
    assert_eq!(infos[1].description, None);
}

#[test]
fn descriptions_show_window_and_prices() {
    assert_eq!(
        format_description(&sample_model()),
        "上下文： 1000 K  输入价格：  4.5 CNY/M 输出价格： 13.5 CNY/M"
    );
    assert_eq!(
        format_description(&model("a", "", None)),
        "上下文：      K  输入价格：      /M 输出价格：      /M"
    );
    let partial = ShengSuanYunModel {
        context_window: Some(-1_999),
        pricing: Some(Pricing {
            input_price: None,
            output_price: Some("1234.567".to_string()),
            currency: String::new(),
        }),
        ..model("a", "", None)
    };
    assert_eq!(
        format_description(&partial),
        "上下文：   -1 K  输入价格：      /M 输出价格：1234.567 /M"
    );
    let wide = ShengSuanYunModel { context_window: Some(i64::MIN), ..model("a", "", None) };
    assert!(format_description(&wide).starts_with("上下文：-9223372036854775 K"));
    let small = ShengSuanYunModel { context_window: Some(-500), ..model("a", "", None) };
    assert!(format_description(&small).starts_with("上下文：    0 K"));
}

fn failure(outcome: RefreshOutcome<u8>) -> CodexErr<u8> {
    match endpoint().list_models(outcome, &defaults()) {
        Err(error) => error,
        Ok(_) => panic!("no list"),
    }
}

#[test]
fn failures_of_a_refresh() {
    assert!(matches!(failure(RefreshOutcome::ProviderFailed(4)), CodexErr::Provider(4)));
    assert!(matches!(failure(RefreshOutcome::TimedOut), CodexErr::Timeout));
    assert!(matches!(
        failure(RefreshOutcome::RequestFailed("sign".to_string())),
        CodexErr::Stream(text) if text == "sign"
    ));
    assert!(matches!(
        failure(RefreshOutcome::TransportFailed("down".to_string())),
        CodexErr::Stream(text) if text == "down"
    ));
    assert!(matches!(
        failure(RefreshOutcome::Undecodable {
            error: "bad".to_string(),
            body: b"{\xff}".to_vec(),
        }),
        CodexErr::Stream(text)
            if text == "failed to decode shengsuanyun models response: bad; body: {\u{fffd}}"
    ));
}
