//! A big terminal clock whose optional time bar tracks progress through a
//! minute, an hour, a day, a custom window, a one-shot countdown or a timer.
//!
//! The library holds the logic of the clock: where the window of the time
//! bar starts and when it starts over, how full the bar is, when the end of a
//! countdown is announced, which snapshots of the screen differ, and the text
//! of the label. Reading the wall clock and drawing are left to the caller.

pub mod clock;
pub mod frame;
pub mod moment;
pub mod text;
pub mod timebar;
pub mod ui;

pub use clock::{is_quit_key, Clock, ClockError, Key};
pub use frame::{Data, UiData};
pub use moment::Moment;
pub use timebar::{Ratio, TimeBarLength};
pub use ui::{timebarw, timebarw_label, Label, TimeBar};
