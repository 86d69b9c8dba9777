//! Reports built from stored usage: revenue charts, monthly revenue pages,
//! week-over-week trends and live quota status.
use vstd::prelude::*;

verus! {

// =============================================================================
// Monthly revenue chart
// =============================================================================

/// Revenue and traffic of one month, as the store reports it.  The revenue
/// in dollars is kept as the decimal text the store gives.
#[derive(Clone, Debug)]
pub struct MonthlyRevenueData {
    pub month_label: String,
    pub revenue_cents: i64,
    pub revenue_usd: String,
    pub messages: i64,
    pub bytes_transferred: i64,
}

/// One month of revenue as published to clients.
#[derive(Clone, Debug)]
pub struct MonthlyRevenueDataSchema {
    pub month_label: String,
    pub revenue_cents: i64,
    pub revenue_usd: String,
    pub messages: i64,
    pub bytes_transferred: i64,
}

/// Chart series: one entry per month, in the order the months came.
#[derive(Clone, Debug)]
pub struct RevenueChartData {
    pub labels: Vec<String>,
    pub revenue_cents: Vec<i64>,
    pub messages: Vec<i64>,
    pub bytes_transferred: Vec<i64>,
}

/// The chart of a list of months: each series holds the months' values in
/// order.
pub fn chart_data(rows: &Vec<MonthlyRevenueData>) -> (c: RevenueChartData)
    ensures
        c.labels@.len() == rows@.len(),
        c.revenue_cents@.len() == rows@.len(),
        c.messages@.len() == rows@.len(),
        c.bytes_transferred@.len() == rows@.len(),
        forall|i: int|
            0 <= i < rows@.len() ==> {
                &&& #[trigger] c.labels@[i]@ == rows@[i].month_label@
                &&& c.revenue_cents@[i] == rows@[i].revenue_cents
                &&& c.messages@[i] == rows@[i].messages
                &&& c.bytes_transferred@[i] == rows@[i].bytes_transferred
            },
{
    let mut labels: Vec<String> = Vec::new();
    let mut revenue_cents: Vec<i64> = Vec::new();
    let mut messages: Vec<i64> = Vec::new();
    let mut bytes_transferred: Vec<i64> = Vec::new();
    let mut i: usize = 0;
    while i < rows.len()
        invariant
            i <= rows@.len(),
            labels@.len() == i,
            revenue_cents@.len() == i,
            messages@.len() == i,
            bytes_transferred@.len() == i,
            forall|j: int|
                0 <= j < i ==> {
                    &&& #[trigger] labels@[j]@ == rows@[j].month_label@
                    &&& revenue_cents@[j] == rows@[j].revenue_cents
                    &&& messages@[j] == rows@[j].messages
                    &&& bytes_transferred@[j] == rows@[j].bytes_transferred
                },
        decreases rows@.len() - i,
    {
        let row = &rows[i];
        let ghost before = labels@;
        labels.push(row.month_label.clone());
        revenue_cents.push(row.revenue_cents);
        messages.push(row.messages);
        bytes_transferred.push(row.bytes_transferred);
        proof {
            assert forall|j: int| 0 <= j < i + 1 implies #[trigger] labels@[j]@ == rows@[j].month_label@ by {
                if j < i {
                    assert(labels@[j] == before[j]);
                }
            }
        }
        i = i + 1;
    }
    RevenueChartData { labels, revenue_cents, messages, bytes_transferred }
}

// =============================================================================
// Monthly revenue by application
// =============================================================================

/// Revenue of one application in a month, with the number of applications
/// in the whole answer (the same on every row).
#[derive(Clone, Debug)]
pub struct MonthlyApplicationRevenueRow {
    pub application_id: u128,
    pub application_name: String,
    pub revenue_cents: i64,
    pub total_count: i64,
}

/// Revenue of one application in a month.
#[derive(Clone, Debug)]
pub struct MonthlyApplicationRevenue {
    pub application_id: u128,
    pub application_name: String,
    pub revenue_cents: i64,
}

/// One page of monthly revenue by application.
#[derive(Clone, Debug)]
pub struct PaginatedMonthlyApplicationRevenue {
    pub data: Vec<MonthlyApplicationRevenue>,
    pub total_count: i64,
    pub page: i64,
    pub page_size: i64,
    pub total_pages: i64,
}

/// `r` is the application, name and revenue of `row`.
pub open spec fn revenue_from_row(r: MonthlyApplicationRevenue, row: MonthlyApplicationRevenueRow) -> bool {
    &&& r.application_id == row.application_id
    &&& r.application_name@ == row.application_name@
    &&& r.revenue_cents == row.revenue_cents
}

/// Rows skipped before a page: pages before the first count as the first.
pub open spec fn monthly_offset_value(page: i64, page_size: i64) -> int {
    (if page - 1 > 0 { page - 1 } else { 0 }) * page_size
}

/// Rows skipped before page `page` of `page_size` rows.
pub fn monthly_offset(page: i64, page_size: i64) -> (o: i64)
    requires
        i64::MIN <= monthly_offset_value(page, page_size) <= i64::MAX,
    ensures
        o == monthly_offset_value(page, page_size),
{
    let before: i64 = if page > 1 { page - 1 } else { 0 };
    before * page_size
}

/// Pages needed for `total_count` rows of `page_size`: the quotient rounded
/// up, and no page when there is no row or no room on a page.
pub open spec fn pages_for(total_count: i64, page_size: i64) -> int {
    if total_count > 0 && page_size > 0 {
        (total_count + page_size - 1) / (page_size as int)
    } else {
        0
    }
}

/// A page of monthly revenue from the rows the store answered: the total is
/// the count carried by the first row (no row, no application), and each
/// row gives its application, name and revenue in order.
pub fn monthly_revenue_page(rows: Vec<MonthlyApplicationRevenueRow>, page: i64, page_size: i64) -> (p:
    PaginatedMonthlyApplicationRevenue)
    ensures
        p.total_count == (if rows@.len() > 0 { rows@[0].total_count } else { 0 }),
        p.page == page,
        p.page_size == page_size,
        p.total_pages == pages_for(p.total_count, page_size),
        p.data@.len() == rows@.len(),
        forall|i: int| 0 <= i < rows@.len() ==> #[trigger] revenue_from_row(p.data@[i], rows@[i]),
{
    let total_count: i64 = if rows.len() > 0 { rows[0].total_count } else { 0 };
    let total_pages: i64 = if total_count > 0 && page_size > 0 {
        let q = total_count / page_size;
        if total_count % page_size == 0 {
            q
        } else {
            assert(page_size != 1);
            assert(q < total_count) by (nonlinear_arith)
                requires
                    total_count > 0,
                    page_size > 1,
                    q == total_count / page_size,
            {
            }
            q + 1
        }
    } else {
        0
    };
    proof {
        if total_count > 0 && page_size > 0 {
            let t = total_count as int;
            let s = page_size as int;
            assert((t + s - 1) / s == (if t % s == 0 { t / s } else { t / s + 1 })) by (nonlinear_arith)
                requires
                    t > 0,
                    s > 0,
            {
                let q = t / s;
                let r = t % s;
                assert(t == q * s + r);
                assert(0 <= r < s);
                if r == 0 {
                    assert(t + s - 1 == q * s + (s - 1));
                } else {
                    assert(t + s - 1 == (q + 1) * s + (r - 1));
                }
            }
        }
    }
    let mut data: Vec<MonthlyApplicationRevenue> = Vec::new();
    let mut i: usize = 0;
    while i < rows.len()
        invariant
            i <= rows@.len(),
            data@.len() == i,
            forall|j: int| 0 <= j < i ==> #[trigger] revenue_from_row(data@[j], rows@[j]),
        decreases rows@.len() - i,
    {
        let row = &rows[i];
        let ghost before = data@;
        data.push(
            MonthlyApplicationRevenue {
                application_id: row.application_id,
                application_name: row.application_name.clone(),
                revenue_cents: row.revenue_cents,
            },
        );
        proof {
            assert forall|j: int| 0 <= j < i + 1 implies #[trigger] revenue_from_row(data@[j], rows@[j]) by {
                if j < i {
                    assert(data@[j] == before[j]);
                }
            }
        }
        i = i + 1;
    }
    PaginatedMonthlyApplicationRevenue { data, total_count, page, page_size, total_pages }
}

// =============================================================================
// Week-over-week trend
// =============================================================================

/// Direction of usage from one week to the next.
#[derive(Clone, Copy, Debug, PartialEq, Eq, Structural)]
pub enum UsageTrend {
    Up,
    Down,
    Stable,
}

impl UsageTrend {
    /// The trend's name: `up`, `down` or `stable`.
    pub fn as_text(&self) -> (s: String)
        ensures
            s@ == (match *self {
                UsageTrend::Up => "up"@,
                UsageTrend::Down => "down"@,
                UsageTrend::Stable => "stable"@,
            }),
    {
        match self {
            UsageTrend::Up => String::from_str("up"),
            UsageTrend::Down => String::from_str("down"),
            UsageTrend::Stable => String::from_str("stable"),
        }
    }
}

/// The trend from `previous` to `current`: up when the change is more than
/// five percent of the previous week, down when it is less than minus five
/// percent, stable otherwise; without a previous week any use counts as a
/// rise of a hundred percent.
pub open spec fn trend_of(current: int, previous: int) -> UsageTrend {
    if previous > 0 {
        if (current - previous) * 100 > 5 * previous {
            UsageTrend::Up
        } else if (current - previous) * 100 < -5 * previous {
            UsageTrend::Down
        } else {
            UsageTrend::Stable
        }
    } else if current > 0 {
        UsageTrend::Up
    } else {
        UsageTrend::Stable
    }
}

/// Usage of this week and the last, and their trend.
#[derive(Clone, Copy, Debug, PartialEq, Eq, Structural)]
pub struct WeeklyTrend {
    pub current_week: i64,
    pub previous_week: i64,
    pub trend: UsageTrend,
}

/// The trend between two weekly totals; a missing total counts as zero.
pub fn weekly_trend(current: Option<i64>, previous: Option<i64>) -> (w: WeeklyTrend)
    ensures
        w.current_week == (match current {
            Some(c) => c,
            None => 0,
        }),
        w.previous_week == (match previous {
            Some(p) => p,
            None => 0,
        }),
        w.trend == trend_of(w.current_week as int, w.previous_week as int),
{
    let c: i64 = match current {
        Some(c) => c,
        None => 0,
    };
    let p: i64 = match previous {
        Some(p) => p,
        None => 0,
    };
    let trend = if p > 0 {
        let change: i128 = (c as i128 - p as i128) * 100;
        let bound: i128 = 5 * (p as i128);
        if change > bound {
            UsageTrend::Up
        } else if change < -bound {
            UsageTrend::Down
        } else {
            UsageTrend::Stable
        }
    } else if c > 0 {
        UsageTrend::Up
    } else {
        UsageTrend::Stable
    };
    WeeklyTrend { current_week: c, previous_week: p, trend }
}

// =============================================================================
// Live quota
// =============================================================================

/// How much of a monthly quota is used, in whole messages.
#[derive(Clone, Copy, Debug, PartialEq, Eq, Structural)]
pub struct QuotaCounts {
    pub limit: i64,
    pub used: i64,
    pub remaining: i64,
    pub is_exceeded: bool,
}

/// The quota status for a limit and the month's count (none counts as
/// zero): what remains is the limit less the use, held within `i64`, and
/// the quota is exceeded once the use reaches the limit.
pub fn quota_counts(quota_limit: i64, monthly_count: Option<i64>) -> (q: QuotaCounts)
    ensures
        q.limit == quota_limit,
        q.used == (match monthly_count {
            Some(n) => n,
            None => 0,
        }),
        q.remaining as int == (if quota_limit - q.used < i64::MIN {
            i64::MIN as int
        } else if quota_limit - q.used > i64::MAX {
            i64::MAX as int
        } else {
            quota_limit - q.used
        }),
        q.is_exceeded == (q.used >= quota_limit),
{
    let used: i64 = match monthly_count {
        Some(n) => n,
        None => 0,
    };
    let remaining: i64 = if used >= 0 {
        if quota_limit < i64::MIN + used {
            i64::MIN
        } else {
            quota_limit - used
        }
    } else if quota_limit > i64::MAX + used {
        i64::MAX
    } else {
        quota_limit - used
    };
    QuotaCounts { limit: quota_limit, used, remaining, is_exceeded: used >= quota_limit }
}

} // verus!
