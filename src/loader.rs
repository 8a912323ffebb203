//! A progress display for a grid of work items, one cell per item.
//!
//! Each update yields a frame: the marks to draw, cell by cell and row by
//! row, with a status entry (percentage and last frame time) after the row that
//! ends at the middle cell of the grid.
use std::time::{Duration, Instant};
use vstd::prelude::*;

verus! {

#[verifier::external_type_specification]
#[verifier::external_body]
pub struct ExInstant(Instant);

/// Relies on `std::time::Instant::now`: a reading of the monotonic clock.
#[verifier::external_body]
fn instant_now() -> Instant {
    Instant::now()
}

/// Relies on `std::time::Instant::elapsed`: the time passed since `t`.
#[verifier::external_body]
fn elapsed_since(t: &Instant) -> Duration {
    t.elapsed()
}

/// One mark of a progress frame.
#[derive(Clone, Copy, Debug, PartialEq, Eq, Structural)]
pub enum FrameMark {
    /// A finished item.
    Done,
    /// The item being worked on.
    Working,
    /// An item not started.
    Pending,
    /// The percentage done and the last frame time.
    Status,
    /// The end of a line.
    LineEnd,
}

/// The mark of cell `i`, for `progress` finished items: the first cell that is
/// not finished shows as in progress when `working` holds.
pub open spec fn cell_mark(i: int, progress: int, working: bool) -> FrameMark {
    if i < progress {
        FrameMark::Done
    } else if i == progress && working {
        FrameMark::Working
    } else {
        FrameMark::Pending
    }
}

/// The marks for cell `i` of a grid `h` cells wide and `total` cells in all:
/// the cell, and at the end of a row the status (on the row that ends at the
/// middle cell) and a line end.
pub open spec fn cell_marks(i: int, h: int, total: int, progress: int, working: bool) -> Seq<FrameMark> {
    let cell = seq![cell_mark(i, progress, working)];
    if (i + 1) % h == 0 {
        if i + 1 == total / 2 {
            cell + seq![FrameMark::Status, FrameMark::LineEnd]
        } else {
            cell + seq![FrameMark::LineEnd]
        }
    } else {
        cell
    }
}

/// The marks for the first `n` cells.
pub open spec fn frame_prefix(n: nat, h: int, total: int, progress: int, working: bool) -> Seq<FrameMark>
    decreases n,
{
    if n == 0 {
        seq![]
    } else {
        frame_prefix((n - 1) as nat, h, total, progress, working) + cell_marks(n - 1, h, total, progress, working)
    }
}

/// The whole frame for a grid of `h` by `v` cells: every cell, then a line end.
pub open spec fn frame(h: int, v: int, progress: int, working: bool) -> Seq<FrameMark> {
    frame_prefix((h * v) as nat, h, h * v, progress, working) + seq![FrameMark::LineEnd]
}

/// Whether a frame of a grid `h` cells wide and `total` cells in all has a status entry.
pub open spec fn has_status_row(h: int, total: int) -> bool {
    &&& h > 0
    &&& total / 2 >= 1
    &&& (total / 2) % h == 0
}

/// The state of a progress display over `horizontal_elements * vertical_elements` items.
pub struct ProgressLoader {
    horizontal_elements: usize,
    vertical_elements: usize,
    progress: usize,
    working: bool,
    last_frame_time: Option<Duration>,
    start_time: Option<Instant>,
}

impl ProgressLoader {
    pub closed spec fn horizontal(self) -> int {
        self.horizontal_elements as int
    }

    pub closed spec fn vertical(self) -> int {
        self.vertical_elements as int
    }

    /// The number of finished items.
    pub closed spec fn done(self) -> int {
        self.progress as int
    }

    /// Whether an item has been started and not yet shown as in progress.
    pub closed spec fn is_working(self) -> bool {
        self.working
    }

    pub closed spec fn started(self) -> bool {
        self.start_time is Some
    }

    pub closed spec fn frame_time(self) -> Option<Duration> {
        self.last_frame_time
    }

    /// The number of cells fits in a `usize`.
    pub closed spec fn wf(self) -> bool {
        self.horizontal_elements * self.vertical_elements <= usize::MAX
    }

    /// A display for a grid of `horizontal_elements` by `vertical_elements` items,
    /// none finished.
    pub fn new(horizontal_elements: usize, vertical_elements: usize) -> (p: ProgressLoader)
        requires
            horizontal_elements * vertical_elements <= usize::MAX,
        ensures
            p.wf(),
            p.horizontal() == horizontal_elements,
            p.vertical() == vertical_elements,
            p.done() == 0,
            !p.is_working(),
            !p.started(),
            p.frame_time() is None,
    {
        ProgressLoader {
            horizontal_elements,
            vertical_elements,
            progress: 0,
            working: false,
            last_frame_time: None,
            start_time: None,
        }
    }

    /// The number of finished items.
    pub fn progress(&self) -> (r: usize)
        ensures
            r == self.done(),
    {
        self.progress
    }

    /// The number of cells in the grid.
    pub fn elements(&self) -> (r: usize)
        requires
            self.wf(),
        ensures
            r == self.horizontal() * self.vertical(),
    {
        self.horizontal_elements * self.vertical_elements
    }

    /// The time from the last start to the last status entry, once one was shown.
    pub fn last_frame_time(&self) -> (r: Option<Duration>)
        ensures
            r == self.frame_time(),
    {
        self.last_frame_time
    }

    /// Marks the next item as started, records the start time, and returns
    /// the frame to draw.
    pub fn semi_increment(&mut self) -> (marks: Vec<FrameMark>)
        requires
            old(self).wf(),
        ensures
            final(self).wf(),
            final(self).horizontal() == old(self).horizontal(),
            final(self).vertical() == old(self).vertical(),
            final(self).done() == old(self).done(),
            final(self).started(),
            final(self).is_working() == (old(self).done() >= old(self).horizontal() * old(self).vertical()),
            marks@ == frame(old(self).horizontal(), old(self).vertical(), old(self).done(), true),
            has_status_row(old(self).horizontal(), old(self).horizontal() * old(self).vertical())
                ==> final(self).frame_time() is Some,
            !has_status_row(old(self).horizontal(), old(self).horizontal() * old(self).vertical())
                ==> final(self).frame_time() == old(self).frame_time(),
    {
        self.working = true;
        self.start_time = Some(instant_now());
        self.update_progress()
    }

    /// Marks the current item as finished and returns the frame to draw.
    pub fn increment(&mut self) -> (marks: Vec<FrameMark>)
        requires
            old(self).wf(),
            old(self).done() < usize::MAX,
        ensures
            final(self).wf(),
            final(self).horizontal() == old(self).horizontal(),
            final(self).vertical() == old(self).vertical(),
            final(self).done() == old(self).done() + 1,
            !final(self).is_working(),
            final(self).started() == old(self).started(),
            marks@ == frame(old(self).horizontal(), old(self).vertical(), old(self).done() + 1, false),
            (has_status_row(old(self).horizontal(), old(self).horizontal() * old(self).vertical()) && old(self).started())
                ==> final(self).frame_time() is Some,
            !(has_status_row(old(self).horizontal(), old(self).horizontal() * old(self).vertical()) && old(self).started())
                ==> final(self).frame_time() == old(self).frame_time(),
    {
        self.working = false;
        self.progress = self.progress + 1;
        self.update_progress()
    }

    /// Builds the frame for the current state. The in-progress mark is shown
    /// once, and the time since the start is recorded when the status entry
    /// is reached (where no start time was recorded, the last one stays).
    fn update_progress(&mut self) -> (marks: Vec<FrameMark>)
        requires
            old(self).wf(),
        ensures
            final(self).wf(),
            final(self).horizontal() == old(self).horizontal(),
            final(self).vertical() == old(self).vertical(),
            final(self).done() == old(self).done(),
            final(self).started() == old(self).started(),
            final(self).is_working() == (old(self).is_working()
                && old(self).done() >= old(self).horizontal() * old(self).vertical()),
            marks@ == frame(old(self).horizontal(), old(self).vertical(), old(self).done(), old(self).is_working()),
            (has_status_row(old(self).horizontal(), old(self).horizontal() * old(self).vertical()) && old(self).started())
                ==> final(self).frame_time() is Some,
            !(has_status_row(old(self).horizontal(), old(self).horizontal() * old(self).vertical()) && old(self).started())
                ==> final(self).frame_time() == old(self).frame_time(),
    {
        let h = self.horizontal_elements;
        let total = self.horizontal_elements * self.vertical_elements;
        let ghost progress = self.progress as int;
        let ghost working0 = self.working;
        let ghost lft0 = self.last_frame_time;
        let ghost start0 = self.start_time;
        let ghost v0 = self.vertical_elements;
        proof {
            assert(h == 0 ==> h * self.vertical_elements == 0) by (nonlinear_arith);
        }
        let mut marks: Vec<FrameMark> = Vec::new();
        let mut i: usize = 0;
        while i < total
            invariant
                i <= total,
                total == h * self.vertical_elements,
                h == self.horizontal_elements,
                v0 == self.vertical_elements,
                start0 == self.start_time,
                h == 0 ==> total == 0,
                self.wf(),
                self.progress == progress,
                self.working == (working0 && i <= progress),
                marks@ == frame_prefix(i as nat, h as int, total as int, progress, working0),
                (1 <= (total as int) / 2 <= i && ((total as int) / 2) % (h as int) == 0 && self.start_time is Some)
                    ==> self.last_frame_time is Some,
                !(1 <= (total as int) / 2 <= i && ((total as int) / 2) % (h as int) == 0 && self.start_time is Some)
                    ==> self.last_frame_time == lft0,
            decreases total - i,
        {
            let ghost before = marks@;
            if i < self.progress {
                marks.push(FrameMark::Done);
            } else if self.working {
                marks.push(FrameMark::Working);
                self.working = false;
            } else {
                marks.push(FrameMark::Pending);
            }
            if (i + 1) % h == 0 {
                if i + 1 == total / 2 {
                    marks.push(FrameMark::Status);
                    match &self.start_time {
                        Some(t) => {
                            self.last_frame_time = Some(elapsed_since(t));
                        },
                        None => {},
                    }
                }
                marks.push(FrameMark::LineEnd);
            }
            proof {
                assert(marks@ =~= before + cell_marks(i as int, h as int, total as int, progress, working0));
            }
            i = i + 1;
        }
        marks.push(FrameMark::LineEnd);
        marks
    }
}

} // verus!
