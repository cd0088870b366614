//! A retained-mode GUI framework over a modelled windowing host: handles,
//! scoped releasers, a typed message codec, event tables, native controls
//! with subclass dispatch, and modal dialogs.
use vstd::prelude::*;

pub mod com;
pub mod control;
pub mod dialog_modal;
pub mod edit;
pub mod events;
pub mod guard;
pub mod handle;
pub mod msg;
pub mod os;
pub mod status_bar_events;

verus! {

} // verus!
