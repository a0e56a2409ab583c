//! Rules for creating a DRI context.
use vstd::prelude::*;

use tinyvec::ArrayVec;

use super::tokens::{
    DRI_API_GLES, DRI_API_GLES2, DRI_API_GLES3, DRI_API_OPENGL, DRI_API_OPENGL_CORE,
    DRI_CTX_ATTRIB_FLAGS, DRI_CTX_ATTRIB_MAJOR_VERSION, DRI_CTX_ATTRIB_MINOR_VERSION,
    DRI_CTX_ATTRIB_RELEASE_BEHAVIOR, DRI_CTX_ATTRIB_RESET_STRATEGY, DRI_CTX_FLAG_NO_ERROR,
    DRI_CTX_RELEASE_BEHAVIOR_NONE, DRI_CTX_RESET_LOSE_CONTEXT,
};
use crate::config::values::RGBA_TYPE;
use crate::context::attrib::{GlContextRule, Profile, ReleaseBehavior, ResetNotificationStrategy};
use crate::tiny::{array_items, array_new, array_push};

verus! {

/// Rules for DRI.
#[derive(Debug, Copy, Clone, PartialEq, Eq, Structural)]
pub struct DriRules {
    pub major: u32,
    pub minor: u32,
    pub render_type: u32,
    pub reset: ResetNotificationStrategy,
    pub release: ReleaseBehavior,
    pub flags: u32,
    pub api: u32,
}

/// Why a list of context rules has no DRI form.
#[derive(Debug, Copy, Clone, PartialEq, Eq, Structural)]
pub enum DriRulesError {
    /// "Rules list was empty"
    EmptyRules,
    /// "Failed to determine API version"
    UnknownApi,
}

/// The rules that DRI starts from: OpenGL 1.0, RGBA rendering, flushing on release.
pub open spec fn default_dri_rules() -> DriRules {
    DriRules {
        major: 1,
        minor: 0,
        render_type: RGBA_TYPE as u32,
        reset: ResetNotificationStrategy::NoNotification,
        release: ReleaseBehavior::Flush,
        flags: 0,
        api: DRI_API_OPENGL,
    }
}

impl Default for DriRules {
    fn default() -> (r: DriRules)
        ensures
            r == default_dri_rules(),
    {
        DriRules {
            major: 1,
            minor: 0,
            render_type: RGBA_TYPE as u32,
            reset: ResetNotificationStrategy::NoNotification,
            release: ReleaseBehavior::Flush,
            flags: 0,
            api: DRI_API_OPENGL,
        }
    }
}

/// The DRI rules and the profile after one more context rule. Versions are taken as
/// unsigned numbers, bit for bit.
pub open spec fn rule_applied(r: DriRules, profile: Profile, rule: GlContextRule) -> (
    DriRules,
    Profile,
) {
    match rule {
        GlContextRule::MajorVersion(v) => (DriRules { major: v as u32, ..r }, profile),
        GlContextRule::MinorVersion(v) => (DriRules { minor: v as u32, ..r }, profile),
        GlContextRule::Flags(f) => (DriRules { flags: f, ..r }, profile),
        GlContextRule::NoError(ne) => if ne {
            (DriRules { flags: r.flags | DRI_CTX_FLAG_NO_ERROR, ..r }, profile)
        } else {
            (r, profile)
        },
        GlContextRule::Profile(p) => (r, p),
        GlContextRule::RenderType(rt) => (DriRules { render_type: rt, ..r }, profile),
        GlContextRule::ResetNotificationStrategy(s) => (DriRules { reset: s, ..r }, profile),
        GlContextRule::ReleaseBehavior(b) => (DriRules { release: b, ..r }, profile),
    }
}

/// The DRI rules and the profile after a list of context rules, from the defaults and
/// the core profile.
pub open spec fn rules_applied(rules: Seq<GlContextRule>) -> (DriRules, Profile)
    decreases rules.len(),
{
    if rules.len() == 0 {
        (default_dri_rules(), Profile::Core)
    } else {
        let (r, p) = rules_applied(rules.drop_last());
        rule_applied(r, p, rules.last())
    }
}

/// The client API that a profile and version select, if any.
pub open spec fn api_for(profile: Profile, major: u32, minor: u32) -> Option<u32> {
    match profile {
        Profile::Core => if major > 3 || (major == 3 && minor >= 2) {
            Some(DRI_API_OPENGL_CORE)
        } else {
            Some(DRI_API_OPENGL)
        },
        Profile::Compatibility => Some(DRI_API_OPENGL),
        Profile::Es => if major >= 3 {
            Some(DRI_API_GLES3)
        } else if major == 2 && minor == 0 {
            Some(DRI_API_GLES2)
        } else if major == 1 && minor < 2 {
            Some(DRI_API_GLES)
        } else {
            None
        },
    }
}

/// What converting a list of context rules gives.
pub open spec fn dri_rules_of(rules: Seq<GlContextRule>) -> Result<DriRules, DriRulesError> {
    if rules.len() == 0 {
        Err(DriRulesError::EmptyRules)
    } else {
        let (r, p) = rules_applied(rules);
        match api_for(p, r.major, r.minor) {
            Some(api) => Ok(DriRules { api, ..r }),
            None => Err(DriRulesError::UnknownApi),
        }
    }
}

/// The attribute list that DRI3 context creation receives for a set of rules.
pub open spec fn dri3_attribs(r: DriRules) -> Seq<u32> {
    let base = seq![
        DRI_CTX_ATTRIB_MAJOR_VERSION,
        r.major,
        DRI_CTX_ATTRIB_MINOR_VERSION,
        r.minor,
    ];
    let with_reset = if r.reset == ResetNotificationStrategy::LoseContext {
        base + seq![DRI_CTX_ATTRIB_RESET_STRATEGY, DRI_CTX_RESET_LOSE_CONTEXT]
    } else {
        base
    };
    let with_release = if r.release == ReleaseBehavior::NoFlush {
        with_reset + seq![DRI_CTX_ATTRIB_RELEASE_BEHAVIOR, DRI_CTX_RELEASE_BEHAVIOR_NONE]
    } else {
        with_reset
    };
    if r.flags == 0 {
        with_release + seq![DRI_CTX_ATTRIB_FLAGS, r.flags]
    } else {
        with_release
    }
}

impl DriRules {
    /// The attribute list for DRI3 context creation: the version always, the reset
    /// strategy when it loses the context, the release behavior when it does not flush,
    /// and the flags entry when no flag is set.
    pub fn as_dri3_attribs(self) -> (r: ArrayVec<[u32; 12]>)
        ensures
            array_items(r) == dri3_attribs(self),
    {
        let mut out = array_new();
        array_push(&mut out, DRI_CTX_ATTRIB_MAJOR_VERSION);
        array_push(&mut out, self.major);
        array_push(&mut out, DRI_CTX_ATTRIB_MINOR_VERSION);
        array_push(&mut out, self.minor);
        if let ResetNotificationStrategy::LoseContext = self.reset {
            array_push(&mut out, DRI_CTX_ATTRIB_RESET_STRATEGY);
            array_push(&mut out, DRI_CTX_RESET_LOSE_CONTEXT);
        }
        if let ReleaseBehavior::NoFlush = self.release {
            array_push(&mut out, DRI_CTX_ATTRIB_RELEASE_BEHAVIOR);
            array_push(&mut out, DRI_CTX_RELEASE_BEHAVIOR_NONE);
        }
        if self.flags == 0 {
            array_push(&mut out, DRI_CTX_ATTRIB_FLAGS);
            array_push(&mut out, self.flags);
        }
        proof {
            assert(array_items(out) =~= dri3_attribs(self));
        }
        out
    }
}

/// Get the important rules from the set of GlContext rules.
pub fn convert_dri_rules(glrules: &[GlContextRule]) -> (r: Result<DriRules, DriRulesError>)
    ensures
        r == dri_rules_of(glrules@),
{
    if glrules.len() == 0 {
        return Err(DriRulesError::EmptyRules);
    }
    let mut rules = DriRules::default();
    let mut profile = Profile::Core;
    let mut i: usize = 0;
    while i < glrules.len()
        invariant
            i <= glrules.len(),
            (rules, profile) == rules_applied(glrules@.subrange(0, i as int)),
        decreases glrules.len() - i,
    {
        match glrules[i] {
            GlContextRule::MajorVersion(mv) => {
                rules.major = mv as u32;
            },
            GlContextRule::MinorVersion(mv) => {
                rules.minor = mv as u32;
            },
            GlContextRule::Flags(f) => {
                rules.flags = f;
            },
            GlContextRule::NoError(ne) => {
                if ne {
                    rules.flags = rules.flags | DRI_CTX_FLAG_NO_ERROR;
                }
            },
            GlContextRule::Profile(p) => {
                profile = p;
            },
            GlContextRule::RenderType(rt) => {
                rules.render_type = rt;
            },
            GlContextRule::ResetNotificationStrategy(rns) => {
                rules.reset = rns;
            },
            GlContextRule::ReleaseBehavior(rb) => {
                rules.release = rb;
            },
        }
        proof {
            assert(glrules@.subrange(0, i + 1).drop_last() =~= glrules@.subrange(0, i as int));
        }
        i = i + 1;
    }
    proof {
        assert(glrules@.subrange(0, glrules.len() as int) =~= glrules@);
    }
    let major = rules.major;
    let minor = rules.minor;
    let api = match profile {
        Profile::Core => {
            if major > 3 || (major == 3 && minor >= 2) {
                DRI_API_OPENGL_CORE
            } else {
                DRI_API_OPENGL
            }
        },
        Profile::Compatibility => DRI_API_OPENGL,
        Profile::Es => {
            if major >= 3 {
                DRI_API_GLES3
            } else if major == 2 && minor == 0 {
                DRI_API_GLES2
            } else if major == 1 && minor < 2 {
                DRI_API_GLES
            } else {
                return Err(DriRulesError::UnknownApi);
            }
        },
    };
    rules.api = api;
    Ok(rules)
}

/// The DRI3 attribute list comes in (name, value) pairs, starts with the version, and never
/// holds more than five pairs.
pub proof fn lemma_dri3_attribs_shape(r: DriRules)
    ensures
        dri3_attribs(r).len() % 2 == 0,
        4 <= dri3_attribs(r).len() <= 10,
        dri3_attribs(r)[0] == DRI_CTX_ATTRIB_MAJOR_VERSION && dri3_attribs(r)[1] == r.major,
        dri3_attribs(r)[2] == DRI_CTX_ATTRIB_MINOR_VERSION && dri3_attribs(r)[3] == r.minor,
{
}


/// The client API a context gets, by the DRI numbers (OpenGL 0, ES 1 1, ES 2 2, core 3,
/// ES 3 4): a core profile of version 3.2 or later is a core context and an earlier one a
/// plain OpenGL one; a compatibility profile is always plain OpenGL; an ES profile is ES 3
/// from major version 3 on, ES 2 for version 2.0, ES 1 for versions 1.0 and 1.1, and has no
/// API otherwise.
pub proof fn lemma_api_choice(major: u32, minor: u32)
    ensures
        api_for(Profile::Core, major, minor) == Some(if major > 3 || (major == 3 && minor >= 2) { 3u32 } else { 0u32 }),
        api_for(Profile::Compatibility, major, minor) == Some(0u32),
        major >= 3 ==> api_for(Profile::Es, major, minor) == Some(4u32),
        api_for(Profile::Es, 2, 0) == Some(2u32),
        minor < 2 ==> api_for(Profile::Es, 1, minor) == Some(1u32),
        (major == 0 || (major == 1 && minor >= 2) || (major == 2 && minor != 0)) ==> api_for(Profile::Es, major, minor) is None,
{
}

/// Each context rule sets its own part of the DRI rules and leaves the rest: the later of
/// two rules of a kind wins; a no-error rule adds the no-error flag (8) to the flags set so
/// far; a profile rule sets only the profile.
pub proof fn lemma_dri_rule_effect(rules: Seq<GlContextRule>, rule: GlContextRule)
    ensures
        ({
            let (before, p0) = rules_applied(rules);
            let (after, p1) = rules_applied(rules.push(rule));
            &&& p1 == (if let GlContextRule::Profile(p) = rule { p } else { p0 })
            &&& after.major == (if let GlContextRule::MajorVersion(v) = rule { v as u32 } else { before.major })
            &&& after.minor == (if let GlContextRule::MinorVersion(v) = rule { v as u32 } else { before.minor })
            &&& after.flags == (match rule {
                GlContextRule::Flags(f) => f,
                GlContextRule::NoError(true) => before.flags | 8u32,
                _ => before.flags,
            })
            &&& after.render_type == (if let GlContextRule::RenderType(t) = rule { t } else { before.render_type })
            &&& after.reset == (if let GlContextRule::ResetNotificationStrategy(t) = rule { t } else { before.reset })
            &&& after.release == (if let GlContextRule::ReleaseBehavior(t) = rule { t } else { before.release })
            &&& after.api == before.api
        }),
{
    assert(rules.push(rule).drop_last() =~= rules);
}

/// Before any rule, DRI rules are for OpenGL 1.0 with RGBA rendering (0x8014), no flags, no
/// reset notification and flushing on release, in the core profile.
pub proof fn lemma_dri_rules_start()
    ensures
        rules_applied(Seq::empty()) == (DriRules {
            major: 1,
            minor: 0,
            render_type: 0x8014,
            reset: ResetNotificationStrategy::NoNotification,
            release: ReleaseBehavior::Flush,
            flags: 0,
            api: 0,
        }, Profile::Core),
{
}

/// The DRI3 attribute list, by the DRI numbers: major (0) and minor (1) version first, then
/// the reset strategy (3) "lose context" (1) exactly when the context is lost on reset, then
/// the release behavior (5) "none" (0) exactly when it does not flush, and the flags entry
/// (2) with 0 exactly when no flag is set.
pub proof fn lemma_dri3_attribs_entries(r: DriRules)
    ensures
        ({
            let a = dri3_attribs(r);
            let lose = r.reset == ResetNotificationStrategy::LoseContext;
            let no_flush = r.release == ReleaseBehavior::NoFlush;
            let k: int = 4 + (if lose { 2int } else { 0 }) + (if no_flush { 2int } else { 0 });
            &&& a.subrange(0, 4) == seq![0u32, r.major, 1u32, r.minor]
            &&& lose ==> a[4] == 3 && a[5] == 1
            &&& no_flush ==> a[k - 2] == 5 && a[k - 1] == 0
            &&& a.len() == k + (if r.flags == 0 { 2int } else { 0 })
            &&& r.flags == 0 ==> a[k] == 2 && a[k + 1] == 0
        }),
{
    assert(dri3_attribs(r).subrange(0, 4) =~= seq![0u32, r.major, 1u32, r.minor]);
}

} // verus!
