use vstd::prelude::*;

verus! {

/// The key sent with requests to the geocoding model service.
pub const GPT_API_KEY: &'static str = "[REDACTED_API_KEY]";

/// The key that provider B expects in its query string.
pub const PROVIDER_B_API_KEY: &'static str = "[REDACTED_API_KEY]";

/// Where geocoding requests are posted.
pub const GPT_ENDPOINT: &'static str = "https://redacted.invalid/v1/redacted";

/// Returns the geocoding service key.
pub fn get_gpt_api_key() -> (key: &'static str)
    ensures
        key@ == GPT_API_KEY@,
{
    GPT_API_KEY
}

/// Returns the provider B key.
pub fn get_provider_b_api_key() -> (key: &'static str)
    ensures
        key@ == PROVIDER_B_API_KEY@,
{
    PROVIDER_B_API_KEY
}


/// The collector's credentials. The HTTP client that the program shares
/// beside them is built where requests are sent.
#[derive(Debug, PartialEq)]
pub struct Config {
    pub gpt_api_key: String,
    pub provider_b_api_key: String,
}

/// The collector's credentials as configured.
pub fn init_config() -> (c: Config)
    ensures
        c.gpt_api_key@ == GPT_API_KEY@,
        c.provider_b_api_key@ == PROVIDER_B_API_KEY@,
{
    Config { gpt_api_key: GPT_API_KEY.to_string(), provider_b_api_key: PROVIDER_B_API_KEY.to_string() }
}

} // verus!
