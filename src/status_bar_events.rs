use vstd::prelude::*;

use crate::events::{EventError, EventKey, Events, Reply};

verus! {

pub const NM_CLICK: i32 = -2;
pub const NM_DBLCLK: i32 = -3;
pub const NM_RCLICK: i32 = -5;
pub const NM_RDBLCLK: i32 = -6;
pub const SBN_SIMPLEMODECHANGE: i32 = -880;

/// Registers, on the parent's table, the notifications that a status bar
/// sends its parent. The parent is the one that handles them.
#[derive(Clone, Copy, Debug, PartialEq, Eq, Structural)]
pub struct StatusBarEvents {
    pub ctrl_id: u16,
}

impl StatusBarEvents {
    pub fn new(ctrl_id: u16) -> (r: StatusBarEvents)
        ensures
            r.ctrl_id == ctrl_id,
    {
        StatusBarEvents { ctrl_id }
    }

    /// `NM_CLICK`; the handler's flag is the reply.
    pub fn nm_click<H>(&self, parent_events: &mut Events<H>, handler: H) -> (r: Result<(), EventError>)
        requires
            old(parent_events).wf(),
        ensures
            old(parent_events).registered(final(parent_events), r,
                EventKey::Notify { ctrl_id: self.ctrl_id, code: NM_CLICK }, Reply::FromBool, handler),
    {
        parent_events.insert(EventKey::Notify { ctrl_id: self.ctrl_id, code: NM_CLICK }, Reply::FromBool, handler)
    }

    /// `NM_DBLCLK`; the handler's flag is the reply.
    pub fn nm_dbl_clk<H>(&self, parent_events: &mut Events<H>, handler: H) -> (r: Result<(), EventError>)
        requires
            old(parent_events).wf(),
        ensures
            old(parent_events).registered(final(parent_events), r,
                EventKey::Notify { ctrl_id: self.ctrl_id, code: NM_DBLCLK }, Reply::FromBool, handler),
    {
        parent_events.insert(EventKey::Notify { ctrl_id: self.ctrl_id, code: NM_DBLCLK }, Reply::FromBool, handler)
    }

    /// `NM_RCLICK`; the handler's flag is the reply.
    pub fn nm_rclick<H>(&self, parent_events: &mut Events<H>, handler: H) -> (r: Result<(), EventError>)
        requires
            old(parent_events).wf(),
        ensures
            old(parent_events).registered(final(parent_events), r,
                EventKey::Notify { ctrl_id: self.ctrl_id, code: NM_RCLICK }, Reply::FromBool, handler),
    {
        parent_events.insert(EventKey::Notify { ctrl_id: self.ctrl_id, code: NM_RCLICK }, Reply::FromBool, handler)
    }

    /// `NM_RDBLCLK`; the handler's flag is the reply.
    pub fn nm_r_dbl_clk<H>(&self, parent_events: &mut Events<H>, handler: H) -> (r: Result<(), EventError>)
        requires
            old(parent_events).wf(),
        ensures
            old(parent_events).registered(final(parent_events), r,
                EventKey::Notify { ctrl_id: self.ctrl_id, code: NM_RDBLCLK }, Reply::FromBool, handler),
    {
        parent_events.insert(EventKey::Notify { ctrl_id: self.ctrl_id, code: NM_RDBLCLK }, Reply::FromBool, handler)
    }

    /// `SBN_SIMPLEMODECHANGE`; the reply is 0.
    pub fn sbn_simple_mode_change<H>(&self, parent_events: &mut Events<H>, handler: H) -> (r: Result<(), EventError>)
        requires
            old(parent_events).wf(),
        ensures
            old(parent_events).registered(final(parent_events), r,
                EventKey::Notify { ctrl_id: self.ctrl_id, code: SBN_SIMPLEMODECHANGE }, Reply::Fixed(0), handler),
    {
        parent_events.insert(
            EventKey::Notify { ctrl_id: self.ctrl_id, code: SBN_SIMPLEMODECHANGE },
            Reply::Fixed(0),
            handler,
        )
    }
}

} // verus!
