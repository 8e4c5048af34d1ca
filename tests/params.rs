use payjp::charge::{CreateChargeParams, ListChargeParams};
use payjp::params::ListParams;
use payjp::plan::{CreatePlanParams, PlanInterval};
use payjp::tenant::{BankAccount, CreateTenantParams};
use payjp::token::{CardDetails, CreateTokenParams};
use payjp::card::UpdateCardParams;
use payjp::list::ListResponse;
use payjp::client::{ClientOptions, DEFAULT_BASE_URL};

fn pairs(v: &[(&str, &str)]) -> Vec<(String, String)> {
    v.iter().map(|(k, x)| (k.to_string(), x.to_string())).collect()
}

#[test]
fn charge_params_pairs_in_field_order() {
    let p = CreateChargeParams::new(1000, "jpy")
        .card("tok_1")
        .capture(false)
        .metadata("a", "1")
        .metadata("a", "2")
        .platform_fee(-3);
    assert_eq!(
        p.form_pairs(),
        pairs(&[
            ("amount", "1000"),
            ("currency", "jpy"),
            ("card", "tok_1"),
            ("capture", "false"),
            ("metadata[a]", "2"),
            ("platform_fee", "-3"),
        ])
    );
}

#[test]
fn card_details_pairs_use_card_brackets() {
    let p = CreateTokenParams::from_card(CardDetails::new("4242", 1, 2030, "123").name("N"));
    assert_eq!(
        p.form_pairs(),
        pairs(&[
            ("card[number]", "4242"),
            ("card[exp_month]", "1"),
            ("card[exp_year]", "2030"),
            ("card[cvc]", "123"),
            ("card[name]", "N"),
        ])
    );
}

#[test]
fn plan_interval_and_tenant_bank_account() {
    let p = CreatePlanParams::new(500, "jpy", PlanInterval::Year).billing_day(31);
    assert_eq!(
        p.form_pairs(),
        pairs(&[("amount", "500"), ("currency", "jpy"), ("interval", "year"), ("billing_day", "31")])
    );
    let acct = BankAccount {
        bank_code: "0001".to_string(),
        branch_code: "001".to_string(),
        account_type: "普通".to_string(),
        account_number: "1234567".to_string(),
        account_holder_name: "ペイ".to_string(),
    };
    let t = CreateTenantParams::new().name("t").bank_account(acct);
    let got = t.form_pairs();
    assert_eq!(got[0], ("name".to_string(), "t".to_string()));
    assert_eq!(got[1], ("bank_account[bank_code]".to_string(), "0001".to_string()));
    assert_eq!(got[5], ("bank_account[account_holder_name]".to_string(), "ペイ".to_string()));
}

#[test]
fn update_card_expiration_sets_both() {
    let p = UpdateCardParams::new().expiration(12, 2031);
    assert_eq!(p.exp_month, Some(12));
    assert_eq!(p.exp_year, Some(2031));
    assert_eq!(p.form_pairs(), pairs(&[("exp_month", "12"), ("exp_year", "2031")]));
}

#[test]
fn list_charge_params_from_list_params() {
    let l = ListParams::new().limit(3).until(9);
    let c: ListChargeParams = ListChargeParams::from(l).customer("cus_1");
    assert_eq!(c.limit, Some(3));
    assert_eq!(c.until, Some(9));
    assert_eq!(c.offset, None);
    assert_eq!(c.customer.as_deref(), Some("cus_1"));
}

#[test]
fn list_response_default_is_empty_list() {
    let l: ListResponse<u8> = ListResponse::default();
    assert_eq!(l.object, "list");
    assert!(l.data.is_empty());
    assert!(!l.has_more);
    assert_eq!(l.url, "");
    assert_eq!(l.count, 0);
}

#[test]
fn options_defaults() {
    let o = ClientOptions::default();
    assert_eq!(o.base_url, DEFAULT_BASE_URL);
    assert_eq!(o.max_retry, 3);
    assert_eq!(o.retry_initial_delay_ms, 500);
    assert_eq!(o.retry_max_delay_ms, 10_000);
    assert_eq!(o.timeout_ms, 30_000);
    let o2 = ClientOptions::new().timeout(60_000);
    assert_eq!(o2.timeout_ms, 60_000);
}
