use vstd::prelude::*;

verus! {

/// Where an instant falls relative to the sale window.
#[derive(PartialEq, Eq, Structural, Clone, Copy, Debug)]
pub enum SaleWindow {
    NotStarted,
    Open,
    Ended,
}

/// The window is closed on both ends: it opens at `start_time` and is still
/// open at `end_time`.
pub open spec fn window_of(now: u64, start_time: u64, end_time: u64) -> SaleWindow {
    if now < start_time {
        SaleWindow::NotStarted
    } else if now > end_time {
        SaleWindow::Ended
    } else {
        SaleWindow::Open
    }
}

/// Places `now` relative to the window `[start_time, end_time]`; all three
/// values are in the same unit.
pub fn is_open(now: u64, start_time: u64, end_time: u64) -> (r: SaleWindow)
    ensures
        r == window_of(now, start_time, end_time),
{
    if start_time > now {
        SaleWindow::NotStarted
    } else if end_time < now {
        SaleWindow::Ended
    } else {
        SaleWindow::Open
    }
}

} // verus!
