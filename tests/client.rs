use payjp::client::{
    ClientOptions, Method, PayjpClient, DEFAULT_BASE_URL, DEFAULT_RETRY_INITIAL_DELAY_MS,
    DEFAULT_RETRY_MAX_DELAY_MS, USER_AGENT, VERSION,
};
use payjp::token::{CardDetails, CreateTokenParams};

#[test]
fn test_client_creation() {
    let client = PayjpClient::new("sk_test_xxxxx");
    assert_eq!(client.base_url(), DEFAULT_BASE_URL);
}

#[test]
fn test_client_with_options() {
    let options = ClientOptions::new()
        .base_url("https://custom.api.pay.jp/v1")
        .max_retry(5);

    let client = PayjpClient::with_options("sk_test_xxxxx", options);
    assert_eq!(client.base_url(), "https://custom.api.pay.jp/v1");
    assert_eq!(client.max_retry(), 5);
}

#[test]
fn test_retry_delay_calculation() {
    let client = PayjpClient::new("sk_test_xxxxx");

    for retry_count in 0..5 {
        let delay = client.calculate_retry_delay(retry_count);
        let expected_base =
            DEFAULT_RETRY_INITIAL_DELAY_MS.saturating_mul(2u64.saturating_pow(retry_count));
        let expected_max = expected_base.min(DEFAULT_RETRY_MAX_DELAY_MS);

        assert!(delay >= expected_max / 2);
        assert!(delay <= expected_max);
    }
}

#[test]
fn test_retry_delay_overflow_safety() {
    let client = PayjpClient::new("sk_test_xxxxx");

    for retry_count in [63, 64, 100, u32::MAX] {
        let delay = client.calculate_retry_delay(retry_count);
        let max = DEFAULT_RETRY_MAX_DELAY_MS;

        assert!(delay <= max);
        assert!(delay >= max / 2);
    }

    let options = ClientOptions::new()
        .retry_initial_delay(1_000)
        .retry_max_delay(30_000);

    let client = PayjpClient::with_options("sk_test_xxxxx", options);

    let delay = client.calculate_retry_delay(100);
    assert!(delay <= 30_000);
}

#[test]
fn test_user_agent_format() {
    assert!(USER_AGENT.starts_with("payjp-rust/"));
    assert_eq!(USER_AGENT, format!("payjp-rust/{}", VERSION));

    let version = VERSION;
    assert_eq!(USER_AGENT, format!("payjp-rust/{}", version));
}

#[test]
fn test_api_key_whitespace_trimming() {
    let client = PayjpClient::new("sk_test_xxxxx\n");
    assert_eq!(client.api_key(), "sk_test_xxxxx");

    let client2 = PayjpClient::new(" sk_test_yyyyy ");
    assert_eq!(client2.api_key(), "sk_test_yyyyy");

    let client3 = PayjpClient::new("\tsk_test_zzzzz\t");
    assert_eq!(client3.api_key(), "sk_test_zzzzz");

    let client4 = PayjpClient::new(" \n\tsk_test_mixed\t\n ");
    assert_eq!(client4.api_key(), "sk_test_mixed");

    let client5 = PayjpClient::new("sk_test_windows\r\n");
    assert_eq!(client5.api_key(), "sk_test_windows");
}

#[test]
fn test_api_key_whitespace_with_options() {
    let options = ClientOptions::new();
    let client = PayjpClient::with_options("sk_test_options\n", options);
    assert_eq!(client.api_key(), "sk_test_options");
}

fn post_body(params: &CreateTokenParams) -> String {
    let client = PayjpClient::new("sk_test_xxxxx");
    let pairs = params.form_pairs();
    let request = client
        .prepare_request(Method::Post, "/tokens", Some(&pairs))
        .expect("Failed to encode");
    request.body.expect("Failed to encode")
}

#[test]
fn test_form_encoding_with_nested_structures() {
    let card1 = CardDetails::new("4242424242424242", 12, 2030, "123");
    let params1 = CreateTokenParams::from_card(card1);
    let encoded1 = post_body(&params1);

    assert!(encoded1.contains("card%5Bnumber%5D=4242424242424242"));
    assert!(encoded1.contains("card%5Bexp_month%5D=12"));
    assert!(encoded1.contains("card%5Bexp_year%5D=2030"));
    assert!(encoded1.contains("card%5Bcvc%5D=123"));

    let card2 = CardDetails::new("4242424242424242", 12, 2030, "123")
        .name("Test User")
        .email("test@example.com");
    let params2 = CreateTokenParams::from_card(card2);
    let encoded2 = post_body(&params2);

    assert!(encoded2.contains("card%5Bname%5D=Test+User"));
    assert!(encoded2.contains("card%5Bemail%5D=test%40example.com"));
}
