//! The question put to the billing service, and the one amount that is read
//! out of its answer.

use crate::calendar::{is_calendar_date, is_last_date, Ymd};
use crate::period::{end_date_text, get_end_date, get_start_date, start_date_text};
use vstd::hash_map::StringHashMap;
use vstd::prelude::*;
use vstd::string::StringExecFns;

verus! {

/// The name of the metric that is asked for and read.
pub open spec fn metric_name() -> Seq<char> {
    "UnblendedCost"@
}

/// The span of time over which the service adds up costs.
#[derive(Clone, Copy, Debug, PartialEq, Eq)]
pub enum Granularity {
    Daily,
    Hourly,
    Monthly,
}

/// A request for the cost of a period.
pub struct CostQuery {
    /// The first day of the period, as `YYYY-MM-DD`.
    pub start: String,
    /// The day after the last day of the period, as `YYYY-MM-DD`.
    pub end: String,
    pub granularity: Granularity,
    /// The one metric that is asked for.
    pub metric: String,
}

/// The request for the unblended cost, month by month, from `start` up to,
/// but not including, `end`.
pub fn cost_query(start: String, end: String) -> (query: CostQuery)
    ensures
        query.start == start,
        query.end == end,
        query.granularity == Granularity::Monthly,
        query.metric@ == metric_name(),
{
    CostQuery { start, end, granularity: Granularity::Monthly, metric: String::from_str("UnblendedCost") }
}

/// The request for the current billing period, by the local clock, which is
/// read once for the start and once for the end. `None` where the clock shows
/// the last day that can be represented.
pub fn current_cost_query() -> (query: Option<CostQuery>)
    ensures
        query matches Some(q) ==> {
            &&& exists|day: Ymd| is_calendar_date(day) && q.start@ == #[trigger] start_date_text(day)
            &&& exists|day: Ymd|
                is_calendar_date(day) && !is_last_date(day) && q.end@ == #[trigger] end_date_text(
                    day,
                )
            &&& q.granularity == Granularity::Monthly
            &&& q.metric@ == metric_name()
        },
{
    let start = get_start_date();
    match get_end_date() {
        Some(end) => Some(cost_query(start, end)),
        None => None,
    }
}

/// One metric of a time bucket.
pub struct MetricValue {
    /// The number, as the service wrote it.
    pub amount: Option<String>,
}

/// The metrics of a time bucket, by name.
pub struct Totals {
    metrics: StringHashMap<MetricValue>,
}

impl View for Totals {
    type V = Map<Seq<char>, MetricValue>;

    closed spec fn view(&self) -> Map<Seq<char>, MetricValue> {
        self.metrics@
    }
}

impl Totals {
    /// No metrics.
    pub fn new() -> (totals: Totals)
        ensures
            totals@ == Map::<Seq<char>, MetricValue>::empty(),
    {
        Totals { metrics: StringHashMap::new() }
    }

    /// Sets the metric `name` to `value`, in place of an earlier value of it.
    pub fn insert(&mut self, name: String, value: MetricValue)
        ensures
            final(self)@ == old(self)@.insert(name@, value),
    {
        self.metrics.insert(name, value);
    }

    /// The metric `name`, if there is one.
    pub fn get(&self, name: &str) -> (found: Option<&MetricValue>)
        ensures
            found is Some <==> self@.contains_key(name@),
            found matches Some(value) ==> *value == self@[name@],
    {
        self.metrics.get(name)
    }
}

/// The costs of one span of time.
pub struct ResultByTime {
    pub total: Option<Totals>,
}

/// The answer of the billing service.
pub struct CostAndUsage {
    pub results_by_time: Option<Vec<ResultByTime>>,
}

/// Why an answer holds no amount.
#[derive(Clone, Copy, Debug, PartialEq, Eq)]
pub enum ReportError {
    /// The answer has no list of time buckets.
    MissingResults,
    /// The list of time buckets is empty.
    NoTimeBucket,
    /// The first time bucket has no totals.
    MissingTotal,
    /// The totals do not hold the metric that was asked for.
    MissingMetric,
    /// The metric has no amount.
    MissingAmount,
}

/// The amount of the unblended cost in the first time bucket of `report`, or
/// the first thing that is missing on the way to it.
pub open spec fn reported_amount(report: &CostAndUsage) -> Result<Seq<char>, ReportError> {
    match report.results_by_time {
        None => Err(ReportError::MissingResults),
        Some(buckets) => if buckets@.len() == 0 {
            Err(ReportError::NoTimeBucket)
        } else {
            match buckets@[0].total {
                None => Err(ReportError::MissingTotal),
                Some(total) => if !total@.contains_key(metric_name()) {
                    Err(ReportError::MissingMetric)
                } else {
                    match total@[metric_name()].amount {
                        None => Err(ReportError::MissingAmount),
                        Some(amount) => Ok(amount@),
                    }
                },
            }
        },
    }
}

/// Reads the amount of the unblended cost out of the first time bucket.
pub fn unblended_amount(report: &CostAndUsage) -> (found: Result<&str, ReportError>)
    ensures
        match found {
            Ok(amount) => reported_amount(report) == Ok::<Seq<char>, ReportError>(amount@),
            Err(error) => reported_amount(report) == Err::<Seq<char>, ReportError>(error),
        },
{
    let buckets = match &report.results_by_time {
        Some(buckets) => buckets,
        None => {
            return Err(ReportError::MissingResults);
        },
    };
    if buckets.len() == 0 {
        return Err(ReportError::NoTimeBucket);
    }
    let total = match &buckets[0].total {
        Some(total) => total,
        None => {
            return Err(ReportError::MissingTotal);
        },
    };
    let metric = match total.get("UnblendedCost") {
        Some(metric) => metric,
        None => {
            return Err(ReportError::MissingMetric);
        },
    };
    match &metric.amount {
        Some(amount) => Ok(amount.as_str()),
        None => Err(ReportError::MissingAmount),
    }
}

} // verus!
