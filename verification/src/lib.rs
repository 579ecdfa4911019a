//! A work/break interval timer: a three-phase state machine (Working,
//! ShortBreak, LongBreak) driven by discrete clock ticks, with per-phase
//! completion counts, a configurable long-break interval, an optional cap on
//! completed working cycles, and a pause flag through which an external
//! controller stops and restarts forward progress.

pub mod clock;
pub mod counter;
pub mod pomodoro;

pub use clock::Clock;
pub use counter::Counter;
pub use pomodoro::Phase;
pub use pomodoro::Pomodoro;
pub use pomodoro::Shared;
pub use pomodoro::Signal;
pub use pomodoro::StepAction;
