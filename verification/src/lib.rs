//! Monthly cloud-cost reporting: the billing period to ask for, the amount to
//! read out of the answer, the document to publish, and the schedule that
//! decides between fetching anew and publishing the cached cost again.

pub mod billing;
pub mod calendar;
pub mod clock;
pub mod decimal;
pub mod period;
pub mod poll;
pub mod publish;
