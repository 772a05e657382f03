//! Decision logic of the SimNation desktop companions (desktop shell, radio
//! overlay and telemetry hub): window plans, hotkey plans, game detection,
//! the telemetry listener state machine, frame decoding and log text.

pub mod flavor;
pub mod frame;
pub mod games;
pub mod hotkeys;
pub mod journal;
pub mod listener;
pub mod overlay;
pub mod shell;
pub mod text;

