use eventmap::config::{get_gpt_api_key, get_provider_b_api_key, init_config, GPT_ENDPOINT};

#[test]
fn test_get_api_key() {
    let gpt_api_key = get_gpt_api_key();
    let provider_b_api_key = get_provider_b_api_key();

    assert_eq!(gpt_api_key, "[REDACTED_API_KEY]");
    assert_eq!(provider_b_api_key, "[REDACTED_API_KEY]");
}

#[test]
fn init_config_holds_both_keys() {
    let c = init_config();
    assert_eq!(c.gpt_api_key, get_gpt_api_key());
    assert_eq!(c.provider_b_api_key, get_provider_b_api_key());
    assert_eq!(GPT_ENDPOINT, "https://redacted.invalid/v1/redacted");
}
