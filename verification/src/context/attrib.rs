//! Rules for creating a context, and their classic GLX attribute form.
use vstd::prelude::*;

use crate::config::values::{
    COMPAT_PROFILE_BIT_ARB, CORE_PROFILE_BIT_ARB, ES_PROFILE_BIT_ARB, FLAGS_ARB,
    FLUSH_RELEASE_BEHAVIOR_ARB, LOSE_CONTEXT_RESET_NOTIFICATION, MAJOR_VERSION_ARB,
    MINOR_VERSION_ARB, NONE_RELEASE_BEHAVIOR_ARB, NO_ERROR_ARB, NO_RESET_NOTIFICATION,
    PROFILE_MASK_ARB, RELEASE_BEHAVIOR_ARB, RENDER_TYPE_ARB, RESET_NOTIFICATION_STRATEGY,
};
use crate::tiny::{tiny_items, tiny_new, tiny_push, ClassicAttribs};

verus! {

/// Rules for the context.
#[derive(Debug, Copy, Clone, PartialEq, Eq, Structural, Hash)]
pub enum GlContextRule {
    MajorVersion(i32),
    MinorVersion(i32),
    Flags(u32),
    NoError(bool),
    Profile(Profile),
    RenderType(u32),
    ResetNotificationStrategy(ResetNotificationStrategy),
    ReleaseBehavior(ReleaseBehavior),
}

/// Profile for the context.
#[derive(Debug, Copy, Clone, PartialEq, Eq, Structural, Hash)]
pub enum Profile {
    Core,
    Compatibility,
    Es,
}

/// Reset notification strategy for the context.
#[derive(Debug, Copy, Clone, PartialEq, Eq, Structural, Hash)]
pub enum ResetNotificationStrategy {
    NoNotification,
    LoseContext,
}

/// Release behavior for the context.
#[derive(Debug, Copy, Clone, PartialEq, Eq, Structural, Hash)]
pub enum ReleaseBehavior {
    /// Release without flushing (`GLX_CONTEXT_RELEASE_BEHAVIOR_NONE_ARB`).
    NoFlush,
    Flush,
}

/// Whether a rule's value fits the signed attribute list.
pub open spec fn rule_fits(rule: GlContextRule) -> bool {
    match rule {
        GlContextRule::Flags(f) => f <= i32::MAX,
        GlContextRule::RenderType(rt) => rt <= i32::MAX,
        _ => true,
    }
}

/// The attribute name and value that a rule becomes.
pub open spec fn classic_pair(rule: GlContextRule) -> (i32, i32) {
    match rule {
        GlContextRule::MajorVersion(v) => (MAJOR_VERSION_ARB, v),
        GlContextRule::MinorVersion(v) => (MINOR_VERSION_ARB, v),
        GlContextRule::Flags(f) => (FLAGS_ARB, f as i32),
        GlContextRule::NoError(b) => (NO_ERROR_ARB, if b { 1i32 } else { 0i32 }),
        GlContextRule::Profile(p) => (
            PROFILE_MASK_ARB,
            match p {
                Profile::Core => CORE_PROFILE_BIT_ARB,
                Profile::Compatibility => COMPAT_PROFILE_BIT_ARB,
                Profile::Es => ES_PROFILE_BIT_ARB,
            },
        ),
        GlContextRule::RenderType(rt) => (RENDER_TYPE_ARB, rt as i32),
        GlContextRule::ResetNotificationStrategy(r) => (
            RESET_NOTIFICATION_STRATEGY,
            match r {
                ResetNotificationStrategy::NoNotification => NO_RESET_NOTIFICATION,
                ResetNotificationStrategy::LoseContext => LOSE_CONTEXT_RESET_NOTIFICATION,
            },
        ),
        GlContextRule::ReleaseBehavior(b) => (
            RELEASE_BEHAVIOR_ARB,
            match b {
                ReleaseBehavior::NoFlush => NONE_RELEASE_BEHAVIOR_ARB,
                ReleaseBehavior::Flush => FLUSH_RELEASE_BEHAVIOR_ARB,
            },
        ),
    }
}

/// The flat attribute list of a list of rules: name, value, name, value, ...
pub open spec fn classic_attribs(rules: Seq<GlContextRule>) -> Seq<i32>
    decreases rules.len(),
{
    if rules.len() == 0 {
        Seq::empty()
    } else {
        let (n, v) = classic_pair(rules.last());
        classic_attribs(rules.drop_last()).push(n).push(v)
    }
}

impl GlContextRule {
    /// The attribute name and value of one rule.
    pub fn classic_pair(self) -> (r: (i32, i32))
        requires
            rule_fits(self),
        ensures
            r == classic_pair(self),
    {
        match self {
            GlContextRule::MajorVersion(v) => (MAJOR_VERSION_ARB, v),
            GlContextRule::MinorVersion(v) => (MINOR_VERSION_ARB, v),
            GlContextRule::Flags(f) => (FLAGS_ARB, f as i32),
            GlContextRule::NoError(b) => (NO_ERROR_ARB, if b { 1 } else { 0 }),
            GlContextRule::Profile(p) => (
                PROFILE_MASK_ARB,
                match p {
                    Profile::Core => CORE_PROFILE_BIT_ARB,
                    Profile::Compatibility => COMPAT_PROFILE_BIT_ARB,
                    Profile::Es => ES_PROFILE_BIT_ARB,
                },
            ),
            GlContextRule::RenderType(rt) => (RENDER_TYPE_ARB, rt as i32),
            GlContextRule::ResetNotificationStrategy(r) => (
                RESET_NOTIFICATION_STRATEGY,
                match r {
                    ResetNotificationStrategy::NoNotification => NO_RESET_NOTIFICATION,
                    ResetNotificationStrategy::LoseContext => LOSE_CONTEXT_RESET_NOTIFICATION,
                },
            ),
            GlContextRule::ReleaseBehavior(b) => (
                RELEASE_BEHAVIOR_ARB,
                match b {
                    ReleaseBehavior::NoFlush => NONE_RELEASE_BEHAVIOR_ARB,
                    ReleaseBehavior::Flush => FLUSH_RELEASE_BEHAVIOR_ARB,
                },
            ),
        }
    }

    /// Convert a set of context rules into classical OpenGL attributes, two per rule.
    /// Every flags and render type value must fit a C int.
    pub fn convert_ctx_attrib_to_classic(rules: &[GlContextRule]) -> (r: ClassicAttribs)
        requires
            forall|i: int| 0 <= i < rules@.len() ==> rule_fits(#[trigger] rules@[i]),
        ensures
            tiny_items(r) == classic_attribs(rules@),
    {
        let mut out = tiny_new();
        let mut i: usize = 0;
        while i < rules.len()
            invariant
                i <= rules.len(),
                forall|j: int| 0 <= j < rules@.len() ==> rule_fits(#[trigger] rules@[j]),
                tiny_items(out) == classic_attribs(rules@.subrange(0, i as int)),
            decreases rules.len() - i,
        {
            let (name, value) = rules[i].classic_pair();
            tiny_push(&mut out, name);
            tiny_push(&mut out, value);
            proof {
                assert(rules@.subrange(0, i + 1).drop_last() =~= rules@.subrange(0, i as int));
            }
            i = i + 1;
        }
        proof {
            assert(rules@.subrange(0, rules.len() as int) =~= rules@);
        }
        out
    }
}

/// Every rule gives exactly one name and one value.
pub proof fn lemma_classic_attribs_len(rules: Seq<GlContextRule>)
    ensures
        classic_attribs(rules).len() == 2 * rules.len(),
    decreases rules.len(),
{
    if rules.len() > 0 {
        lemma_classic_attribs_len(rules.drop_last());
    }
}


/// What each rule becomes, by the numbers of GLX_ARB_create_context and its companions: a
/// major version (0x2091) or minor version (0x2092) with its number, flags (0x2094) with their
/// bits, no-error (0x31B3) with 1 or 0, the profile mask (0x9126) with the core (1),
/// compatibility (2) or ES (4) bit, the render type (0x8011) with its value, the reset
/// notification strategy (0x8256) with "no notification" (0x8261) or "lose context"
/// (0x8252), and the release behavior (0x2097) with "none" (0) or "flush" (0x2098).
pub proof fn lemma_classic_pair_values(v: i32, f: u32, b: bool)
    requires
        f <= i32::MAX,
    ensures
        classic_pair(GlContextRule::MajorVersion(v)) == (0x2091i32, v),
        classic_pair(GlContextRule::MinorVersion(v)) == (0x2092i32, v),
        classic_pair(GlContextRule::Flags(f)) == (0x2094i32, f as i32) && f as i32 == f,
        classic_pair(GlContextRule::NoError(b)) == (0x31B3i32, if b { 1i32 } else { 0i32 }),
        classic_pair(GlContextRule::Profile(Profile::Core)) == (0x9126i32, 1i32),
        classic_pair(GlContextRule::Profile(Profile::Compatibility)) == (0x9126i32, 2i32),
        classic_pair(GlContextRule::Profile(Profile::Es)) == (0x9126i32, 4i32),
        classic_pair(GlContextRule::RenderType(f)) == (0x8011i32, f as i32),
        classic_pair(GlContextRule::ResetNotificationStrategy(ResetNotificationStrategy::NoNotification))
            == (0x8256i32, 0x8261i32),
        classic_pair(GlContextRule::ResetNotificationStrategy(ResetNotificationStrategy::LoseContext))
            == (0x8256i32, 0x8252i32),
        classic_pair(GlContextRule::ReleaseBehavior(ReleaseBehavior::NoFlush)) == (0x2097i32, 0i32),
        classic_pair(GlContextRule::ReleaseBehavior(ReleaseBehavior::Flush)) == (0x2097i32, 0x2098i32),
{
}

/// Nothing is lost in the classic form: two rules that fit give the same name and value
/// only when they are the same rule.
pub proof fn lemma_classic_pair_injective(a: GlContextRule, b: GlContextRule)
    requires
        rule_fits(a),
        rule_fits(b),
        classic_pair(a) == classic_pair(b),
    ensures
        a == b,
{
}

/// The classic list holds the rules in order: entry `2k` is the name and entry `2k + 1` the
/// value of rule `k`.
pub proof fn lemma_classic_attribs_entries(rules: Seq<GlContextRule>, k: int)
    requires
        0 <= k < rules.len(),
    ensures
        classic_attribs(rules).len() == 2 * rules.len(),
        classic_attribs(rules)[2 * k] == classic_pair(rules[k]).0,
        classic_attribs(rules)[2 * k + 1] == classic_pair(rules[k]).1,
    decreases rules.len(),
{
    lemma_classic_attribs_len(rules);
    lemma_classic_attribs_len(rules.drop_last());
    if k < rules.len() - 1 {
        lemma_classic_attribs_entries(rules.drop_last(), k);
    }
}

} // verus!
