use copilot_usage::api::{calculate_stats, calculate_stats_at, quantities_within_limits, try_calculate_stats};
use copilot_usage::models::{Date, TimePeriod, UsageData, UsageItem};

fn item(model: &str, gross: u64, net: u64) -> UsageItem {
    UsageItem { model: model.to_string(), gross_quantity: gross, net_quantity: net }
}

fn data(items: Vec<UsageItem>) -> UsageData {
    UsageData {
        time_period: TimePeriod { year: 2026, month: Some(2), day: None },
        user: "testuser".to_string(),
        usage_items: items,
    }
}

#[test]
fn test_calculate_stats_empty() {
    let d = data(vec![]);
    let stats = calculate_stats(&d);

    assert_eq!(stats.total_used, 0);
    assert_eq!(stats.total_limit, 300);
    assert_eq!(stats.percentage, 0);
    assert_eq!(stats.models.len(), 0);
    assert_eq!(stats.estimated_cost, 0);
    assert_eq!(stats.username, "testuser");
}

#[test]
fn test_calculate_stats_single_model() {
    let d = data(vec![item("gpt-4", 100, 0)]);
    let stats = calculate_stats(&d);

    assert_eq!(stats.total_used, 100);
    assert!((stats.percentage as f64 / 100.0 - 33.333).abs() < 0.01);
    assert_eq!(stats.models.len(), 1);
    assert_eq!(stats.models[0].name, "gpt-4");
    assert_eq!(stats.models[0].used, 100);
}

#[test]
fn test_calculate_stats_multiple_models() {
    let d = data(vec![
        item("gpt-4", 100, 0),
        item("o3-mini", 50, 0),
        item("gpt-4", 25, 0), // Same model, should aggregate
    ]);
    let stats = calculate_stats(&d);

    assert_eq!(stats.total_used, 175);
    assert_eq!(stats.models.len(), 2);
    // Models should be sorted by usage descending
    assert_eq!(stats.models[0].name, "gpt-4");
    assert_eq!(stats.models[0].used, 125); // 100 + 25
    assert_eq!(stats.models[1].name, "o3-mini");
    assert_eq!(stats.models[1].used, 50);
}

#[test]
fn test_calculate_stats_with_billing() {
    let d = data(vec![
        item("gpt-4", 350, 50), // 50 billed
    ]);
    let stats = calculate_stats(&d);

    assert_eq!(stats.total_used, 350);
    assert!((stats.percentage as f64 / 100.0 - 116.67).abs() < 0.01); // Over 100%
    assert!((stats.estimated_cost as f64 / 100.0 - 2.0).abs() < 0.01); // 50 * 0.04 = 2.0
}

#[test]
fn exact_percentage_rounds_half_up() {
    let d = data(vec![item("gpt-4", 350, 0)]);
    let stats = calculate_stats(&d);
    // 350 / 300 = 116.666..%, in hundredths rounded half up: 11667.
    assert_eq!(stats.percentage, 11667);

    let d = data(vec![item("gpt-4", 150, 0)]);
    assert_eq!(calculate_stats(&d).percentage, 5000);
}

#[test]
fn cost_is_cents_of_billed_quantity() {
    let d = data(vec![item("a", 10, 3), item("b", 20, 7)]);
    let stats = calculate_stats(&d);
    assert_eq!(stats.estimated_cost, 40); // (3 + 7) * 4 cents

    // Zero billed quantity costs nothing, whatever the gross usage.
    let d = data(vec![item("a", 500, 0)]);
    assert_eq!(calculate_stats(&d).estimated_cost, 0);
}

#[test]
fn ties_keep_first_seen_order() {
    let d = data(vec![item("later", 50, 0), item("earlier", 50, 0), item("big", 60, 0)]);
    let stats = calculate_stats(&d);
    assert_eq!(stats.models.len(), 3);
    assert_eq!(stats.models[0].name, "big");
    assert_eq!(stats.models[1].name, "later");
    assert_eq!(stats.models[2].name, "earlier");
}

#[test]
fn reset_date_is_first_of_next_month() {
    let d = data(vec![]);
    let stats = calculate_stats_at(&d, Date { year: 2026, month: 2, day: 14 });
    assert_eq!(stats.reset_date, Date { year: 2026, month: 3, day: 1 });

    let stats = calculate_stats_at(&d, Date { year: 2025, month: 12, day: 31 });
    assert_eq!(stats.reset_date, Date { year: 2026, month: 1, day: 1 });
}

#[test]
fn per_model_percentage_uses_fixed_limit() {
    let d = data(vec![item("gpt-4", 150, 0), item("o3-mini", 30, 0)]);
    let stats = calculate_stats(&d);
    assert_eq!(stats.models[0].limit, 300);
    assert_eq!(stats.models[0].percentage, 5000); // 150 of 300
    assert_eq!(stats.models[1].percentage, 1000); // 30 of 300
}

#[test]
fn oversized_quantities_are_refused() {
    let d = data(vec![item("a", u64::MAX / 2, 0), item("b", u64::MAX / 2, 0)]);
    assert!(!quantities_within_limits(&d));
    assert!(try_calculate_stats(&d).is_none());

    let ok = data(vec![item("a", 100, 5)]);
    assert!(quantities_within_limits(&ok));
    let stats = try_calculate_stats(&ok).unwrap();
    assert_eq!(stats.total_used, 100);
    assert_eq!(stats.estimated_cost, 20);
}
