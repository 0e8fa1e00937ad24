use aws_publisher::billing::{
    cost_query, current_cost_query, unblended_amount, CostAndUsage, Granularity, MetricValue,
    ReportError, ResultByTime, Totals,
};

fn metric(amount: &str) -> MetricValue {
    MetricValue { amount: Some(amount.to_string()) }
}

fn report_with(name: &str, value: MetricValue) -> CostAndUsage {
    let mut total = Totals::new();
    total.insert(name.to_string(), value);
    CostAndUsage { results_by_time: Some(vec![ResultByTime { total: Some(total) }]) }
}

#[test]
fn the_amount_of_the_first_bucket_is_read() {
    let report = report_with("UnblendedCost", metric("57.30"));
    let amount = unblended_amount(&report);
    assert_eq!(amount, Ok("57.30"));
    assert_eq!(amount.unwrap().parse::<f32>().unwrap(), 57.30f32);
}

#[test]
fn the_amount_is_handed_on_as_it_was_written() {
    let report = report_with("UnblendedCost", metric("1234.5678901234"));
    assert_eq!(unblended_amount(&report), Ok("1234.5678901234"));
    let report = report_with("UnblendedCost", metric("not a number"));
    assert_eq!(unblended_amount(&report), Ok("not a number"));
    let report = report_with("UnblendedCost", metric(""));
    assert_eq!(unblended_amount(&report), Ok(""));
}

#[test]
fn only_the_first_bucket_counts() {
    let mut first = Totals::new();
    first.insert("UnblendedCost".to_string(), metric("1.00"));
    let mut second = Totals::new();
    second.insert("UnblendedCost".to_string(), metric("2.00"));
    let report = CostAndUsage {
        results_by_time: Some(vec![
            ResultByTime { total: Some(first) },
            ResultByTime { total: Some(second) },
        ]),
    };
    assert_eq!(unblended_amount(&report), Ok("1.00"));

    let mut later = Totals::new();
    later.insert("UnblendedCost".to_string(), metric("2.00"));
    let report = CostAndUsage {
        results_by_time: Some(vec![
            ResultByTime { total: None },
            ResultByTime { total: Some(later) },
        ]),
    };
    assert_eq!(unblended_amount(&report), Err(ReportError::MissingTotal));
}

#[test]
fn other_metrics_are_passed_over() {
    let mut total = Totals::new();
    total.insert("BlendedCost".to_string(), metric("1.00"));
    total.insert("UnblendedCost".to_string(), metric("2.00"));
    total.insert("UsageQuantity".to_string(), metric("3.00"));
    let report = CostAndUsage { results_by_time: Some(vec![ResultByTime { total: Some(total) }]) };
    assert_eq!(unblended_amount(&report), Ok("2.00"));
}

#[test]
fn a_later_value_of_a_metric_replaces_an_earlier_one() {
    let mut total = Totals::new();
    total.insert("UnblendedCost".to_string(), metric("1.00"));
    total.insert("UnblendedCost".to_string(), metric("2.00"));
    assert_eq!(total.get("UnblendedCost").unwrap().amount, Some("2.00".to_string()));
    assert!(total.get("BlendedCost").is_none());
    assert!(Totals::new().get("UnblendedCost").is_none());
}

#[test]
fn a_report_without_buckets_has_no_amount() {
    let report = CostAndUsage { results_by_time: None };
    assert_eq!(unblended_amount(&report), Err(ReportError::MissingResults));
}

#[test]
fn a_report_with_an_empty_list_of_buckets_has_no_amount() {
    let report = CostAndUsage { results_by_time: Some(vec![]) };
    assert_eq!(unblended_amount(&report), Err(ReportError::NoTimeBucket));
}

#[test]
fn a_bucket_without_totals_has_no_amount() {
    let report = CostAndUsage { results_by_time: Some(vec![ResultByTime { total: None }]) };
    assert_eq!(unblended_amount(&report), Err(ReportError::MissingTotal));
}

#[test]
fn totals_without_the_metric_have_no_amount() {
    let report = report_with("BlendedCost", metric("57.30"));
    assert_eq!(unblended_amount(&report), Err(ReportError::MissingMetric));
    let report = report_with("unblendedcost", metric("57.30"));
    assert_eq!(unblended_amount(&report), Err(ReportError::MissingMetric));
    let report =
        CostAndUsage { results_by_time: Some(vec![ResultByTime { total: Some(Totals::new()) }]) };
    assert_eq!(unblended_amount(&report), Err(ReportError::MissingMetric));
}

#[test]
fn a_metric_without_an_amount_has_no_amount() {
    let report = report_with("UnblendedCost", MetricValue { amount: None });
    assert_eq!(unblended_amount(&report), Err(ReportError::MissingAmount));
}

#[test]
fn the_query_asks_for_the_monthly_unblended_cost() {
    let query = cost_query("2022-11-01".to_string(), "2022-11-18".to_string());
    assert_eq!(query.start, "2022-11-01");
    assert_eq!(query.end, "2022-11-18");
    assert_eq!(query.granularity, Granularity::Monthly);
    assert_eq!(query.metric, "UnblendedCost");
}

#[test]
fn the_current_query_covers_the_current_period() {
    let query = current_cost_query().unwrap();
    assert_eq!(query.granularity, Granularity::Monthly);
    assert_eq!(query.metric, "UnblendedCost");
    assert!(query.start.ends_with("-01"));
    assert_eq!(query.start.len(), query.end.len());
    assert!(query.start.as_str() < query.end.as_str());
}
