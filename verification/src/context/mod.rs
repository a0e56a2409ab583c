//! Contexts: their rules, their kinds, and the slot of the current context.
use vstd::prelude::*;

pub mod attrib;

use crate::config::GlConfig;
use crate::context::attrib::{GlContextRule, Profile};
use crate::dri::rules::{convert_dri_rules, dri3_attribs, dri_rules_of, DriRulesError};
use crate::tiny::{array_items, array_to_vec};

verus! {

/// What an indirect context keeps.
#[derive(Debug, Clone)]
pub struct IndirectContext {
    pub glx_buffer: Vec<u8>,
    pub render_type: u32,
    pub major_version: u32,
    pub minor_version: u32,
    pub profile: Profile,
}

/// A context rendered through DRI2.
#[derive(Debug, Copy, Clone, PartialEq, Eq, Structural)]
pub struct Dri2Context {}

/// A context rendered through DRI3, with the framebuffer configuration it was made for.
#[derive(Debug, Copy, Clone)]
pub struct Dri3Context {
    pub fbconfig: GlConfig,
}

impl Dri3Context {
    pub fn fbconfig(&self) -> (r: Option<&GlConfig>)
        ensures
            r == Some(&self.fbconfig),
    {
        Some(&self.fbconfig)
    }
}

/// The kind of a context; a placeholder stands for one that is still being made.
#[derive(Debug, Clone)]
pub enum ContextDispatch {
    Indirect(IndirectContext),
    Placeholder,
    Dri2(Dri2Context),
    Dri3(Dri3Context),
}

impl ContextDispatch {
    /// Whether the context renders directly: DRI2 and DRI3 contexts do, indirect ones do
    /// not. A placeholder has no answer.
    pub fn is_direct(&self) -> (r: bool)
        requires
            !(self is Placeholder),
        ensures
            r == (self is Dri2 || self is Dri3),
    {
        match self {
            ContextDispatch::Placeholder => false,
            ContextDispatch::Indirect(_) => false,
            ContextDispatch::Dri2(_) => true,
            ContextDispatch::Dri3(_) => true,
        }
    }
}

/// What a DRI3 context is created with: the client API and the attribute list the rules
/// make.
pub fn dri3_context_request(rules: &[GlContextRule]) -> (r: Result<(u32, Vec<u32>), DriRulesError>)
    ensures
        match dri_rules_of(rules@) {
            Ok(dr) => r is Ok && r->Ok_0.0 == dr.api && r->Ok_0.1@ == dri3_attribs(dr),
            Err(e) => r == Err::<(u32, Vec<u32>), DriRulesError>(e),
        },
{
    match convert_dri_rules(rules) {
        Ok(dr) => {
            let api = dr.api;
            let attribs = dr.as_dri3_attribs();
            Ok((api, array_to_vec(&attribs)))
        },
        Err(e) => Err(e),
    }
}

/// The drawables a bound DRI3 context invalidates, in order: the draw drawable, and the read
/// drawable when there is no draw drawable or it is the draw drawable itself.
pub open spec fn invalidated(read: Option<u32>, draw: Option<u32>) -> Seq<u32> {
    let first = match draw {
        Some(d) => seq![d],
        None => Seq::empty(),
    };
    match read {
        Some(r) => if draw is None || draw == Some(r) {
            first.push(r)
        } else {
            first
        },
        None => first,
    }
}

pub fn drawables_to_invalidate(read: Option<u32>, draw: Option<u32>) -> (r: Vec<u32>)
    ensures
        r@ == invalidated(read, draw),
{
    let mut out: Vec<u32> = Vec::new();
    match draw {
        Some(d) => out.push(d),
        None => {},
    }
    match read {
        Some(rd) => {
            let same = match draw {
                Some(d) => d == rd,
                None => true,
            };
            if same {
                out.push(rd);
            }
        },
        None => {},
    }
    proof {
        assert(out@ =~= invalidated(read, draw));
    }
    out
}

/// What binding a context asks for.
#[derive(Debug, Copy, Clone, PartialEq, Eq, Structural)]
pub enum BindPlan {
    /// The context is already current: nothing happens.
    AlreadyCurrent,
    /// Bind the context, then unbind the one that was current, if any.
    Bind { unbind: Option<u64> },
}

/// The slot that holds the current context, by its id.
#[derive(Debug, Copy, Clone, PartialEq, Eq, Structural)]
pub struct ContextSlot {
    current: Option<u64>,
}

impl View for ContextSlot {
    type V = Option<u64>;

    closed spec fn view(&self) -> Option<u64> {
        self.current
    }
}

impl ContextSlot {
    /// An empty slot: no context is current.
    pub fn new() -> (r: ContextSlot)
        ensures
            r@ == None::<u64>,
    {
        ContextSlot { current: None }
    }

    /// The current context.
    pub fn current_context(&self) -> (r: Option<u64>)
        ensures
            r == self@,
    {
        self.current
    }

    /// Make a context current, handing back the one that was.
    pub fn set_current_context(&mut self, id: u64) -> (r: Option<u64>)
        ensures
            final(self)@ == Some(id),
            r == old(self)@,
    {
        let prev = self.current;
        self.current = Some(id);
        prev
    }

    /// Empty the slot, handing back the context that was current.
    pub fn take_current_context(&mut self) -> (r: Option<u64>)
        ensures
            final(self)@ == None::<u64>,
            r == old(self)@,
    {
        let prev = self.current;
        self.current = None;
        prev
    }

    /// What binding the context `id` asks for.
    pub fn bind_plan(&self, id: u64) -> (r: BindPlan)
        ensures
            r == if self@ == Some(id) {
                BindPlan::AlreadyCurrent
            } else {
                BindPlan::Bind { unbind: self@ }
            },
    {
        match self.current {
            Some(c) => {
                if c == id {
                    BindPlan::AlreadyCurrent
                } else {
                    BindPlan::Bind { unbind: Some(c) }
                }
            },
            None => BindPlan::Bind { unbind: None },
        }
    }
}

/// Where binding a context stands.
#[derive(Debug, Copy, Clone, PartialEq, Eq, Structural)]
pub enum BindStage {
    /// Not begun.
    Idle,
    /// The context's way of rendering is being bound; afterwards the context given, if any,
    /// is unbound.
    Binding { unbind: Option<u64> },
    /// The context that was current is being unbound.
    Unbinding(u64),
    /// The context is current.
    Done,
    /// Binding failed; the context that was current stays current.
    Failed,
}

/// What the caller reports back while binding a context.
#[derive(Debug, Copy, Clone, PartialEq, Eq, Structural)]
pub enum BindEvent {
    /// Bind the context to the drawable `draw`, which it both reads and draws.
    Begin { draw: u32 },
    /// The context's way of rendering is bound.
    Bound,
    /// The context that was current is unbound.
    Unbound,
    /// The last request failed.
    Failed,
}

/// What binding asks the caller to do next.
#[derive(Debug, Copy, Clone, PartialEq, Eq, Structural)]
pub enum BindAction {
    /// The context is current already: nothing is done.
    AlreadyCurrent,
    /// Bind the context's way of rendering to the read and draw drawables.
    BindDispatch { read: Option<u32>, draw: Option<u32> },
    /// Unbind the context with this id.
    Unbind(u64),
    /// The context is current; the one that was current before is given back.
    Finish { previous: Option<u64> },
    /// Binding failed and nothing more is done.
    Abort,
}

/// Whether an event is one that binding at this stage waits for.
pub open spec fn bind_event_fits(stage: BindStage, e: BindEvent) -> bool {
    match (stage, e) {
        (BindStage::Idle, BindEvent::Begin { .. }) => true,
        (BindStage::Binding { .. }, BindEvent::Bound) => true,
        (BindStage::Unbinding(_), BindEvent::Unbound) => true,
        (BindStage::Binding { .. }, BindEvent::Failed) => true,
        (BindStage::Unbinding(_), BindEvent::Failed) => true,
        _ => false,
    }
}

impl ContextSlot {
    /// Move the binding of context `id` on by the event the caller reports: a context that is
    /// current already is left alone; otherwise its way of rendering is bound with the same
    /// drawable read and drawn, the context that was current is unbound, and only then does
    /// this one become current, the previous one being given back. A failure leaves the
    /// previous context current.
    pub fn bind_step(&mut self, id: u64, stage: BindStage, e: BindEvent) -> (r: (BindStage, BindAction))
        requires
            bind_event_fits(stage, e),
        ensures
            match (stage, e) {
                (BindStage::Idle, BindEvent::Begin { draw }) => {
                    &&& final(self)@ == old(self)@
                    &&& r == if old(self)@ == Some(id) {
                        (BindStage::Done, BindAction::AlreadyCurrent)
                    } else {
                        (
                            BindStage::Binding { unbind: old(self)@ },
                            BindAction::BindDispatch { read: Some(draw), draw: Some(draw) },
                        )
                    }
                },
                (BindStage::Binding { unbind }, BindEvent::Bound) => match unbind {
                    Some(c) => final(self)@ == old(self)@ && r == (BindStage::Unbinding(c), BindAction::Unbind(c)),
                    None => final(self)@ == Some(id) && r == (
                        BindStage::Done,
                        BindAction::Finish { previous: old(self)@ },
                    ),
                },
                (BindStage::Unbinding(_), BindEvent::Unbound) => final(self)@ == Some(id) && r == (
                    BindStage::Done,
                    BindAction::Finish { previous: old(self)@ },
                ),
                (_, BindEvent::Failed) => final(self)@ == old(self)@ && r == (BindStage::Failed, BindAction::Abort),
                _ => false,
            },
    {
        match (stage, e) {
            (BindStage::Idle, BindEvent::Begin { draw }) => match self.bind_plan(id) {
                BindPlan::AlreadyCurrent => (BindStage::Done, BindAction::AlreadyCurrent),
                BindPlan::Bind { unbind } => (
                    BindStage::Binding { unbind },
                    BindAction::BindDispatch { read: Some(draw), draw: Some(draw) },
                ),
            },
            (BindStage::Binding { unbind }, BindEvent::Bound) => match unbind {
                Some(c) => (BindStage::Unbinding(c), BindAction::Unbind(c)),
                None => {
                    let previous = self.set_current_context(id);
                    (BindStage::Done, BindAction::Finish { previous })
                },
            },
            (BindStage::Unbinding(_), BindEvent::Unbound) => {
                let previous = self.set_current_context(id);
                (BindStage::Done, BindAction::Finish { previous })
            },
            (_, BindEvent::Failed) => (BindStage::Failed, BindAction::Abort),
            _ => {
                proof {
                    assert(false);
                }
                (stage, BindAction::Abort)
            },
        }
    }
}

/// A GLX context: its id on the server, its screen, the framebuffer configuration it was
/// made for, and how it renders.
#[derive(Debug, Clone)]
pub struct GlContext {
    xid: u32,
    screen: usize,
    fbconfig: GlConfig,
    inner: ContextDispatch,
}

impl GlContext {
    /// A context still being made: its way of rendering is a placeholder.
    pub fn new(xid: u32, screen: usize, fbconfig: GlConfig) -> (r: GlContext)
        ensures
            r.xid_spec() == xid,
            r.screen_spec() == screen,
            r.fbconfig_spec() == fbconfig,
            r.dispatch_spec() is Placeholder,
    {
        GlContext { xid, screen, fbconfig, inner: ContextDispatch::Placeholder }
    }

    pub closed spec fn xid_spec(&self) -> u32 {
        self.xid
    }

    pub closed spec fn screen_spec(&self) -> usize {
        self.screen
    }

    pub closed spec fn fbconfig_spec(&self) -> GlConfig {
        self.fbconfig
    }

    pub closed spec fn dispatch_spec(&self) -> ContextDispatch {
        self.inner
    }

    pub fn xid(&self) -> (r: u32)
        ensures
            r == self.xid_spec(),
    {
        self.xid
    }

    pub fn screen(&self) -> (r: usize)
        ensures
            r == self.screen_spec(),
    {
        self.screen
    }

    pub fn fbconfig(&self) -> (r: &GlConfig)
        ensures
            *r == self.fbconfig_spec(),
    {
        &self.fbconfig
    }

    pub fn dispatch(&self) -> (r: &ContextDispatch)
        ensures
            *r == self.dispatch_spec(),
    {
        &self.inner
    }

    /// Give the context its way of rendering, once it is made.
    pub fn set_dispatch(&mut self, disp: ContextDispatch)
        ensures
            final(self).dispatch_spec() == disp,
            final(self).xid_spec() == old(self).xid_spec(),
            final(self).screen_spec() == old(self).screen_spec(),
            final(self).fbconfig_spec() == old(self).fbconfig_spec(),
    {
        self.inner = disp;
    }

    /// Give the context the id the server made it under.
    pub fn set_xid(&mut self, xid: u32)
        ensures
            final(self).xid_spec() == xid,
            final(self).dispatch_spec() == old(self).dispatch_spec(),
            final(self).screen_spec() == old(self).screen_spec(),
            final(self).fbconfig_spec() == old(self).fbconfig_spec(),
    {
        self.xid = xid;
    }
}

} // verus!
