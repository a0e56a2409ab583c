use breadglx::config::values::{
    CORE_PROFILE_BIT_ARB, ES_PROFILE_BIT_ARB, FLAGS_ARB, MAJOR_VERSION_ARB, MINOR_VERSION_ARB,
    NONE_RELEASE_BEHAVIOR_ARB, NO_ERROR_ARB, PROFILE_MASK_ARB, RELEASE_BEHAVIOR_ARB,
};
use breadglx::config::GlConfig;
use breadglx::context::attrib::{GlContextRule, Profile, ReleaseBehavior, ResetNotificationStrategy};
use breadglx::context::{
    dri3_context_request, drawables_to_invalidate, BindAction, BindEvent, BindPlan, BindStage, ContextDispatch, ContextSlot,
    Dri2Context, Dri3Context, GlContext, IndirectContext,
};
use breadglx::dri::rules::{convert_dri_rules, DriRules, DriRulesError};
use breadglx::dri::tokens::{
    DRI_API_GLES, DRI_API_GLES2, DRI_API_GLES3, DRI_API_OPENGL, DRI_API_OPENGL_CORE,
    DRI_CTX_ATTRIB_FLAGS, DRI_CTX_ATTRIB_MAJOR_VERSION, DRI_CTX_ATTRIB_MINOR_VERSION,
    DRI_CTX_ATTRIB_RELEASE_BEHAVIOR, DRI_CTX_ATTRIB_RESET_STRATEGY, DRI_CTX_FLAG_NO_ERROR,
    DRI_CTX_RELEASE_BEHAVIOR_NONE, DRI_CTX_RESET_LOSE_CONTEXT,
};

#[test]
fn classic_attributes_two_per_rule() {
    let rules = [
        GlContextRule::MajorVersion(3),
        GlContextRule::MinorVersion(3),
        GlContextRule::Profile(Profile::Core),
        GlContextRule::NoError(true),
        GlContextRule::Flags(5),
        GlContextRule::ReleaseBehavior(ReleaseBehavior::NoFlush),
    ];
    let list = GlContextRule::convert_ctx_attrib_to_classic(&rules).to_vec();
    assert_eq!(
        list,
        vec![
            MAJOR_VERSION_ARB,
            3,
            MINOR_VERSION_ARB,
            3,
            PROFILE_MASK_ARB,
            CORE_PROFILE_BIT_ARB,
            NO_ERROR_ARB,
            1,
            FLAGS_ARB,
            5,
            RELEASE_BEHAVIOR_ARB,
            NONE_RELEASE_BEHAVIOR_ARB,
        ]
    );
}

#[test]
fn classic_attributes_of_no_rules() {
    let list = GlContextRule::convert_ctx_attrib_to_classic(&[]).to_vec();
    assert!(list.is_empty());
}

#[test]
fn classic_pair_of_es_profile() {
    assert_eq!(
        GlContextRule::Profile(Profile::Es).classic_pair(),
        (PROFILE_MASK_ARB, ES_PROFILE_BIT_ARB)
    );
}

#[test]
fn dri_rules_empty_list_is_refused() {
    assert_eq!(convert_dri_rules(&[]), Err(DriRulesError::EmptyRules));
}

#[test]
fn dri_rules_select_api() {
    let core32 = convert_dri_rules(&[GlContextRule::MajorVersion(3), GlContextRule::MinorVersion(2)]);
    assert_eq!(core32.unwrap().api, DRI_API_OPENGL_CORE);
    let core21 = convert_dri_rules(&[GlContextRule::MajorVersion(2), GlContextRule::MinorVersion(1)]);
    assert_eq!(core21.unwrap().api, DRI_API_OPENGL);
    let compat = convert_dri_rules(&[
        GlContextRule::MajorVersion(4),
        GlContextRule::Profile(Profile::Compatibility),
    ]);
    assert_eq!(compat.unwrap().api, DRI_API_OPENGL);
    let es3 = convert_dri_rules(&[GlContextRule::Profile(Profile::Es), GlContextRule::MajorVersion(3)]);
    assert_eq!(es3.unwrap().api, DRI_API_GLES3);
    let es2 = convert_dri_rules(&[GlContextRule::Profile(Profile::Es), GlContextRule::MajorVersion(2)]);
    assert_eq!(es2.unwrap().api, DRI_API_GLES2);
    let es1 = convert_dri_rules(&[GlContextRule::Profile(Profile::Es), GlContextRule::MinorVersion(1)]);
    assert_eq!(es1.unwrap().api, DRI_API_GLES);
}

#[test]
fn dri_rules_unknown_es_version_is_refused() {
    let r = convert_dri_rules(&[
        GlContextRule::Profile(Profile::Es),
        GlContextRule::MajorVersion(2),
        GlContextRule::MinorVersion(1),
    ]);
    assert_eq!(r, Err(DriRulesError::UnknownApi));
}

#[test]
fn dri_rules_no_error_sets_flag() {
    let r = convert_dri_rules(&[GlContextRule::Flags(1), GlContextRule::NoError(true)]).unwrap();
    assert_eq!(r.flags, 1 | DRI_CTX_FLAG_NO_ERROR);
}

#[test]
fn dri3_attribs_of_default_rules() {
    let attribs = DriRules::default().as_dri3_attribs().as_slice().to_vec();
    assert_eq!(
        attribs,
        vec![
            DRI_CTX_ATTRIB_MAJOR_VERSION,
            1,
            DRI_CTX_ATTRIB_MINOR_VERSION,
            0,
            DRI_CTX_ATTRIB_FLAGS,
            0,
        ]
    );
}

#[test]
fn dri3_attribs_with_reset_and_release() {
    let rules = DriRules {
        reset: ResetNotificationStrategy::LoseContext,
        release: ReleaseBehavior::NoFlush,
        flags: 2,
        ..DriRules::default()
    };
    let attribs = rules.as_dri3_attribs().as_slice().to_vec();
    assert_eq!(
        attribs,
        vec![
            DRI_CTX_ATTRIB_MAJOR_VERSION,
            1,
            DRI_CTX_ATTRIB_MINOR_VERSION,
            0,
            DRI_CTX_ATTRIB_RESET_STRATEGY,
            DRI_CTX_RESET_LOSE_CONTEXT,
            DRI_CTX_ATTRIB_RELEASE_BEHAVIOR,
            DRI_CTX_RELEASE_BEHAVIOR_NONE,
        ]
    );
}

#[test]
fn dri3_context_request_combines_rules() {
    let (api, attribs) =
        dri3_context_request(&[GlContextRule::MajorVersion(4), GlContextRule::MinorVersion(5)]).unwrap();
    assert_eq!(api, DRI_API_OPENGL_CORE);
    assert_eq!(attribs[..4].to_vec(), vec![DRI_CTX_ATTRIB_MAJOR_VERSION, 4, DRI_CTX_ATTRIB_MINOR_VERSION, 5]);
    assert_eq!(dri3_context_request(&[]).unwrap_err(), DriRulesError::EmptyRules);
}

#[test]
fn dispatch_directness() {
    let indirect = ContextDispatch::Indirect(IndirectContext {
        glx_buffer: vec![],
        render_type: 0,
        major_version: 1,
        minor_version: 0,
        profile: Profile::Core,
    });
    assert!(!indirect.is_direct());
    assert!(ContextDispatch::Dri2(Dri2Context {}).is_direct());
    let d3 = Dri3Context { fbconfig: GlConfig::default() };
    assert_eq!(d3.fbconfig(), Some(&GlConfig::default()));
    assert!(ContextDispatch::Dri3(d3).is_direct());
}

#[test]
fn context_slot_set_take() {
    let mut slot = ContextSlot::new();
    assert_eq!(slot.current_context(), None);
    assert_eq!(slot.set_current_context(7), None);
    assert_eq!(slot.current_context(), Some(7));
    assert_eq!(slot.set_current_context(9), Some(7));
    assert_eq!(slot.take_current_context(), Some(9));
    assert_eq!(slot.current_context(), None);
}

#[test]
fn binding_current_context_does_nothing() {
    let mut slot = ContextSlot::new();
    assert_eq!(slot.bind_plan(3), BindPlan::Bind { unbind: None });
    slot.set_current_context(3);
    assert_eq!(slot.bind_plan(3), BindPlan::AlreadyCurrent);
    assert_eq!(slot.bind_plan(4), BindPlan::Bind { unbind: Some(3) });
}

#[test]
fn bound_drawables_to_invalidate() {
    assert_eq!(drawables_to_invalidate(Some(5), Some(5)), vec![5, 5]);
    assert_eq!(drawables_to_invalidate(Some(6), Some(5)), vec![5]);
    assert_eq!(drawables_to_invalidate(Some(6), None), vec![6]);
    assert_eq!(drawables_to_invalidate(None, Some(5)), vec![5]);
    assert_eq!(drawables_to_invalidate(None, None), Vec::<u32>::new());
}

#[test]
fn context_records() {
    let mut ctx = GlContext::new(0, 1, GlConfig::default());
    assert!(matches!(ctx.dispatch(), ContextDispatch::Placeholder));
    assert_eq!(ctx.screen(), 1);
    ctx.set_dispatch(ContextDispatch::Dri2(Dri2Context {}));
    assert!(ctx.dispatch().is_direct());
    ctx.set_xid(0x400001);
    assert_eq!(ctx.xid(), 0x400001);
    assert_eq!(ctx.fbconfig(), &GlConfig::default());
}

#[test]
fn classic_attributes_count_two_per_rule() {
    let rules = [GlContextRule::MajorVersion(2), GlContextRule::RenderType(0x8014)];
    assert_eq!(GlContextRule::convert_ctx_attrib_to_classic(&rules).to_vec().len(), 4);
}

#[test]
fn bind_steps_unbind_previous_then_make_current() {
    let mut slot = ContextSlot::new();
    slot.set_current_context(3);
    let (st, a) = slot.bind_step(9, BindStage::Idle, BindEvent::Begin { draw: 0x200 });
    assert_eq!(a, BindAction::BindDispatch { read: Some(0x200), draw: Some(0x200) });
    assert_eq!(slot.current_context(), Some(3));
    let (st, a) = slot.bind_step(9, st, BindEvent::Bound);
    assert_eq!(a, BindAction::Unbind(3));
    assert_eq!(slot.current_context(), Some(3));
    let (st, a) = slot.bind_step(9, st, BindEvent::Unbound);
    assert_eq!((st, a), (BindStage::Done, BindAction::Finish { previous: Some(3) }));
    assert_eq!(slot.current_context(), Some(9));
    let (st, a) = slot.bind_step(9, BindStage::Idle, BindEvent::Begin { draw: 0x200 });
    assert_eq!((st, a), (BindStage::Done, BindAction::AlreadyCurrent));
}

#[test]
fn bind_with_nothing_current_and_failure_keeps_previous() {
    let mut slot = ContextSlot::new();
    let (st, _) = slot.bind_step(4, BindStage::Idle, BindEvent::Begin { draw: 1 });
    let (st, a) = slot.bind_step(4, st, BindEvent::Bound);
    assert_eq!((st, a), (BindStage::Done, BindAction::Finish { previous: None }));
    assert_eq!(slot.current_context(), Some(4));
    let (st, _) = slot.bind_step(5, BindStage::Idle, BindEvent::Begin { draw: 1 });
    let (st, a) = slot.bind_step(5, st, BindEvent::Failed);
    assert_eq!((st, a), (BindStage::Failed, BindAction::Abort));
    assert_eq!(slot.current_context(), Some(4));
}
