//! A GLX screen: its index, its framebuffer configurations and visuals, the configurations
//! that fulfill a list of rules, and what a context for it is created with.
use vstd::prelude::*;

use crate::config::compatible::fulfills;
use crate::config::{GlConfig, GlConfigRule};
use crate::context::attrib::{classic_attribs, rule_fits, GlContextRule};
use crate::context::ContextDispatch;
use crate::tiny::tiny_to_vec;

verus! {

/// The configurations of `configs` that fulfill the rules, in order.
pub open spec fn chosen(configs: Seq<GlConfig>, rules: Seq<GlConfigRule>) -> Seq<GlConfig>
    decreases configs.len(),
{
    if configs.len() == 0 {
        Seq::empty()
    } else {
        let prev = chosen(configs.drop_last(), rules);
        if fulfills(configs.last(), rules) {
            prev.push(configs.last())
        } else {
            prev
        }
    }
}

/// A screen of a GLX display.
#[derive(Debug, Clone)]
pub struct GlScreen {
    screen: usize,
    fbconfigs: Vec<GlConfig>,
    visuals: Vec<GlConfig>,
}

/// What creating a context asks of the server.
#[derive(Debug, Clone)]
pub struct ContextRequest {
    /// The framebuffer configuration, by its id.
    pub fbconfig: u32,
    pub screen: usize,
    /// The context to share with, 0 for none.
    pub share: u32,
    pub is_direct: bool,
    /// The classic attribute list, each as the server reads it.
    pub attribs: Vec<u32>,
}

impl GlScreen {
    pub fn new(screen: usize, fbconfigs: Vec<GlConfig>, visuals: Vec<GlConfig>) -> (r: GlScreen)
        ensures
            r.screen_index_spec() == screen,
            r.fbconfigs_spec() == fbconfigs@,
            r.visuals_spec() == visuals@,
    {
        GlScreen { screen, fbconfigs, visuals }
    }

    pub closed spec fn screen_index_spec(&self) -> usize {
        self.screen
    }

    pub closed spec fn fbconfigs_spec(&self) -> Seq<GlConfig> {
        self.fbconfigs@
    }

    pub closed spec fn visuals_spec(&self) -> Seq<GlConfig> {
        self.visuals@
    }

    pub fn screen_index(&self) -> (r: usize)
        ensures
            r == self.screen_index_spec(),
    {
        self.screen
    }

    pub fn fbconfigs(&self) -> (r: &[GlConfig])
        ensures
            r@ == self.fbconfigs_spec(),
    {
        self.fbconfigs.as_slice()
    }

    pub fn visuals(&self) -> (r: &[GlConfig])
        ensures
            r@ == self.visuals_spec(),
    {
        self.visuals.as_slice()
    }

    /// The framebuffer configurations that fulfill the rules, in the screen's order.
    pub fn choose_fbconfigs(&self, rules: &[GlConfigRule]) -> (r: Vec<GlConfig>)
        ensures
            r@ == chosen(self.fbconfigs_spec(), rules@),
    {
        let mut out: Vec<GlConfig> = Vec::new();
        let mut i: usize = 0;
        while i < self.fbconfigs.len()
            invariant
                i <= self.fbconfigs@.len(),
                out@ == chosen(self.fbconfigs@.subrange(0, i as int), rules@),
            decreases self.fbconfigs@.len() - i,
        {
            proof {
                assert(self.fbconfigs@.subrange(0, i + 1).drop_last() =~= self.fbconfigs@.subrange(
                    0,
                    i as int,
                ));
            }
            let c = self.fbconfigs[i];
            if c.fulfills_rules(rules) {
                out.push(c);
            }
            i = i + 1;
        }
        proof {
            assert(self.fbconfigs@.subrange(0, self.fbconfigs@.len() as int) =~= self.fbconfigs@);
        }
        out
    }

    /// What creating a context of this screen for `fbconfig` asks of the server: the
    /// configuration's id, the screen, the context to share with, whether the new context
    /// renders directly, and the rules as classic attributes.
    pub fn context_request(
        &self,
        fbconfig: &GlConfig,
        rules: &[GlContextRule],
        share: Option<u32>,
        dispatch: &ContextDispatch,
    ) -> (r: ContextRequest)
        requires
            forall|i: int| 0 <= i < rules@.len() ==> rule_fits(#[trigger] rules@[i]),
            !(dispatch is Placeholder),
        ensures
            r.fbconfig == fbconfig.fbconfig_id as u32,
            r.screen == self.screen_index_spec(),
            r.share == match share {
                Some(s) => s,
                None => 0u32,
            },
            r.is_direct == (dispatch is Dri2 || dispatch is Dri3),
            r.attribs@ == classic_attribs(rules@).map_values(|a: i32| a as u32),
    {
        let classic = GlContextRule::convert_ctx_attrib_to_classic(rules);
        let items = tiny_to_vec(&classic);
        let mut attribs: Vec<u32> = Vec::new();
        let mut i: usize = 0;
        while i < items.len()
            invariant
                i <= items@.len(),
                items@ == classic_attribs(rules@),
                attribs@ == items@.subrange(0, i as int).map_values(|a: i32| a as u32),
            decreases items@.len() - i,
        {
            attribs.push(items[i] as u32);
            i = i + 1;
            assert(attribs@ =~= items@.subrange(0, i as int).map_values(|a: i32| a as u32));
        }
        assert(items@.subrange(0, items@.len() as int) =~= items@);
        ContextRequest {
            fbconfig: fbconfig.fbconfig_id as u32,
            screen: self.screen,
            share: match share {
                Some(s) => s,
                None => 0,
            },
            is_direct: dispatch.is_direct(),
            attribs,
        }
    }
}

/// Every configuration chosen fulfills the rules, and every configuration that fulfills them
/// is chosen; none is added.
pub proof fn lemma_chosen_is_filter(configs: Seq<GlConfig>, rules: Seq<GlConfigRule>)
    ensures
        forall|i: int| 0 <= i < chosen(configs, rules).len() ==> fulfills(#[trigger] chosen(configs, rules)[i], rules),
        forall|i: int| 0 <= i < chosen(configs, rules).len() ==> configs.contains(#[trigger] chosen(configs, rules)[i]),
        forall|j: int| 0 <= j < configs.len() && fulfills(configs[j], rules) ==> chosen(configs, rules).contains(#[trigger] configs[j]),
        chosen(configs, rules).len() <= configs.len(),
    decreases configs.len(),
{
    if configs.len() > 0 {
        let prev = configs.drop_last();
        lemma_chosen_is_filter(prev, rules);
        let c = chosen(configs, rules);
        let p = chosen(prev, rules);
        assert forall|i: int| 0 <= i < c.len() implies configs.contains(#[trigger] c[i]) by {
            if i < p.len() {
                assert(prev.contains(p[i]));
                let k = choose|k: int| 0 <= k < prev.len() && prev[k] == p[i];
                assert(configs[k] == p[i]);
            } else {
                assert(configs[configs.len() - 1] == c[i]);
            }
        }
        assert forall|j: int| 0 <= j < configs.len() && fulfills(configs[j], rules) implies c.contains(
            #[trigger] configs[j],
        ) by {
            if j < configs.len() - 1 {
                assert(prev[j] == configs[j]);
                assert(p.contains(prev[j]));
                let k = choose|k: int| 0 <= k < p.len() && p[k] == prev[j];
                assert(c[k] == p[k]);
            } else {
                assert(c[c.len() - 1] == configs[j]);
            }
        }
    }
}

} // verus!
