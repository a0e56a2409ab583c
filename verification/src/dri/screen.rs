//! The decisions of a DRI3 screen: which driver extensions it takes, whether the driver made
//! a screen, which drawables may use several planes, and which driver configuration serves a
//! framebuffer configuration.
use vstd::prelude::*;

use std::collections::HashMap;

use crate::config::GlConfig;
use crate::context::ContextDispatch;
use crate::text::bytes_equal;

use super::config::config_hash;

verus! {

/// Why a screen could not be set up or used.
#[derive(Debug, Copy, Clone, PartialEq, Eq, Structural)]
pub enum ScreenError {
    /// "Unable to load core driver for DRI3"
    NoCoreExtension,
    /// "Unable to load image driver for DRI3"
    NoImageDriverExtension,
    /// "Failed to create DRI screen"
    ScreenNotCreated,
    /// "createNewScreen2 did not return driver configurations"
    NoDriverConfigs,
    /// "createNewScreen2 returned 0 driver configurations"
    ZeroDriverConfigs,
    /// "Failed to find FbConfig ID"
    NoFbConfig,
    /// "Unable to get context for swapping buffer"
    NoContextForSwap,
}

pub open spec fn core_name() -> Seq<u8> {
    // "DRI_Core"
    seq![68u8, 82, 73, 95, 67, 111, 114, 101]
}

pub open spec fn image_driver_name() -> Seq<u8> {
    // "DRI_IMAGE_DRIVER"
    seq![68u8, 82, 73, 95, 73, 77, 65, 71, 69, 95, 68, 82, 73, 86, 69, 82]
}

pub open spec fn tex_buffer_name() -> Seq<u8> {
    // "DRI_TexBuffer"
    seq![68u8, 82, 73, 95, 84, 101, 120, 66, 117, 102, 102, 101, 114]
}

pub open spec fn flush_name() -> Seq<u8> {
    // "DRI2_Flush"
    seq![68u8, 82, 73, 50, 95, 70, 108, 117, 115, 104]
}

pub open spec fn image_name() -> Seq<u8> {
    // "DRI_IMAGE"
    seq![68u8, 82, 73, 95, 73, 77, 65, 71, 69]
}

pub open spec fn config_query_name() -> Seq<u8> {
    // "DRI_CONFIG_QUERY"
    seq![68u8, 82, 73, 95, 67, 79, 78, 70, 73, 71, 95, 81, 85, 69, 82, 89]
}

/// The last of the first `n` extensions that has the given name (an extension without a
/// name is a null entry and has none).
pub open spec fn last_named(names: Seq<Option<Seq<u8>>>, n: int, name: Seq<u8>) -> Option<int>
    decreases n,
{
    if n <= 0 {
        None
    } else if names[n - 1] == Some(name) {
        Some(n - 1)
    } else {
        last_named(names, n - 1, name)
    }
}

pub open spec fn views(names: Seq<Option<Vec<u8>>>) -> Seq<Option<Seq<u8>>> {
    names.map_values(
        |o: Option<Vec<u8>>|
            match o {
                Some(v) => Some(v@),
                None => None,
            },
    )
}

/// The extensions that make a DRI3 screen, as (core, image driver): the last of each in the
/// driver's list; the core one is looked for first.
pub open spec fn bootstrap_of(names: Seq<Option<Seq<u8>>>) -> Result<(usize, usize), ScreenError> {
    match last_named(names, names.len() as int, core_name()) {
        None => Err(ScreenError::NoCoreExtension),
        Some(c) => match last_named(names, names.len() as int, image_driver_name()) {
            None => Err(ScreenError::NoImageDriverExtension),
            Some(i) => Ok((c as usize, i as usize)),
        },
    }
}

fn name_is(name: &Option<Vec<u8>>, expected: &Vec<u8>) -> (r: bool)
    ensures
        r == (match name {
            Some(v) => v@ == expected@,
            None => false,
        }),
{
    match name {
        Some(v) => bytes_equal(v.as_slice(), expected.as_slice()),
        None => false,
    }
}

pub fn get_bootstrap_extensions(names: &[Option<Vec<u8>>]) -> (r: Result<(usize, usize), ScreenError>)
    ensures
        r == bootstrap_of(views(names@)),
{
    let ghost ns = views(names@);
    let core: Vec<u8> = vec![68u8, 82, 73, 95, 67, 111, 114, 101];
    let image_driver: Vec<u8> = vec![68u8, 82, 73, 95, 73, 77, 65, 71, 69, 95, 68, 82, 73, 86, 69, 82];
    assert(core@ =~= core_name());
    assert(image_driver@ =~= image_driver_name());
    let mut c: Option<usize> = None;
    let mut d: Option<usize> = None;
    let mut i: usize = 0;
    while i < names.len()
        invariant
            i <= names@.len(),
            ns == views(names@),
            core@ == core_name(),
            image_driver@ == image_driver_name(),
            c == (match last_named(ns, i as int, core_name()) {
                Some(k) => Some(k as usize),
                None => None::<usize>,
            }),
            d == (match last_named(ns, i as int, image_driver_name()) {
                Some(k) => Some(k as usize),
                None => None::<usize>,
            }),
        decreases names@.len() - i,
    {
        if name_is(&names[i], &core) {
            c = Some(i);
        } else if name_is(&names[i], &image_driver) {
            d = Some(i);
        }
        proof {
            assert(core_name() != image_driver_name()) by {
                assert(core_name().len() != image_driver_name().len());
            }
        }
        i = i + 1;
    }
    match c {
        None => Err(ScreenError::NoCoreExtension),
        Some(ci) => match d {
            None => Err(ScreenError::NoImageDriverExtension),
            Some(di) => Ok((ci, di)),
        },
    }
}

/// The extensions a screen takes from the driver's list, each the last of its name.
#[derive(Debug, Copy, Clone, PartialEq, Eq, Structural)]
pub struct CoreExtensions {
    pub tex_buffer: Option<usize>,
    pub flush: Option<usize>,
    pub image: Option<usize>,
    pub config: Option<usize>,
}

pub open spec fn index_of(o: Option<int>) -> Option<usize> {
    match o {
        Some(k) => Some(k as usize),
        None => None,
    }
}

pub open spec fn core_extensions_of(names: Seq<Option<Seq<u8>>>) -> CoreExtensions {
    let n = names.len() as int;
    CoreExtensions {
        tex_buffer: index_of(last_named(names, n, tex_buffer_name())),
        flush: index_of(last_named(names, n, flush_name())),
        image: index_of(last_named(names, n, image_name())),
        config: index_of(last_named(names, n, config_query_name())),
    }
}

/// The names are pairwise different, so an extension takes at most one role.
proof fn names_differ()
    ensures
        tex_buffer_name() != flush_name(),
        tex_buffer_name() != image_name(),
        tex_buffer_name() != config_query_name(),
        flush_name() != image_name(),
        flush_name() != config_query_name(),
        image_name() != config_query_name(),
{
    assert(tex_buffer_name().len() != flush_name().len());
    assert(tex_buffer_name().len() != image_name().len());
    assert(tex_buffer_name().len() != config_query_name().len());
    assert(flush_name().len() != image_name().len());
    assert(flush_name().len() != config_query_name().len());
    assert(image_name().len() != config_query_name().len());
}

/// Sort the extensions the driver lists for a screen (its list ends at the first null entry,
/// which the caller leaves out).
pub fn get_extensions_core(names: &[Vec<u8>]) -> (r: CoreExtensions)
    ensures
        r == core_extensions_of(names@.map_values(|v: Vec<u8>| Some(v@))),
{
    let ghost ns = names@.map_values(|v: Vec<u8>| Some(v@));
    let tex: Vec<u8> = vec![68u8, 82, 73, 95, 84, 101, 120, 66, 117, 102, 102, 101, 114];
    let flush: Vec<u8> = vec![68u8, 82, 73, 50, 95, 70, 108, 117, 115, 104];
    let image: Vec<u8> = vec![68u8, 82, 73, 95, 73, 77, 65, 71, 69];
    let config: Vec<u8> = vec![68u8, 82, 73, 95, 67, 79, 78, 70, 73, 71, 95, 81, 85, 69, 82, 89];
    assert(tex@ =~= tex_buffer_name());
    assert(flush@ =~= flush_name());
    assert(image@ =~= image_name());
    assert(config@ =~= config_query_name());
    proof {
        names_differ();
    }
    let mut r = CoreExtensions { tex_buffer: None, flush: None, image: None, config: None };
    let mut i: usize = 0;
    while i < names.len()
        invariant
            i <= names@.len(),
            ns == names@.map_values(|v: Vec<u8>| Some(v@)),
            tex@ == tex_buffer_name(),
            flush@ == flush_name(),
            image@ == image_name(),
            config@ == config_query_name(),
            tex_buffer_name() != flush_name(),
            tex_buffer_name() != image_name(),
            tex_buffer_name() != config_query_name(),
            flush_name() != image_name(),
            flush_name() != config_query_name(),
            image_name() != config_query_name(),
            r == (CoreExtensions {
                tex_buffer: index_of(last_named(ns, i as int, tex_buffer_name())),
                flush: index_of(last_named(ns, i as int, flush_name())),
                image: index_of(last_named(ns, i as int, image_name())),
                config: index_of(last_named(ns, i as int, config_query_name())),
            }),
        decreases names@.len() - i,
    {
        let name = names[i].as_slice();
        if bytes_equal(name, tex.as_slice()) {
            r.tex_buffer = Some(i);
        } else if bytes_equal(name, flush.as_slice()) {
            r.flush = Some(i);
        } else if bytes_equal(name, image.as_slice()) {
            r.image = Some(i);
        } else if bytes_equal(name, config.as_slice()) {
            r.config = Some(i);
        }
        i = i + 1;
    }
    r
}

/// What became of the driver's screen creation: it made a screen, gave a list of
/// configurations, and the list is not empty.
pub fn check_new_screen(screen_created: bool, configs_returned: bool, first_config_present: bool) -> (r: Result<(), ScreenError>)
    ensures
        r == if !screen_created {
            Err::<(), ScreenError>(ScreenError::ScreenNotCreated)
        } else if !configs_returned {
            Err(ScreenError::NoDriverConfigs)
        } else if !first_config_present {
            Err(ScreenError::ZeroDriverConfigs)
        } else {
            Ok(())
        },
{
    if !screen_created {
        Err(ScreenError::ScreenNotCreated)
    } else if !configs_returned {
        Err(ScreenError::NoDriverConfigs)
    } else if !first_config_present {
        Err(ScreenError::ZeroDriverConfigs)
    } else {
        Ok(())
    }
}

/// The protocol versions a DRI3 display negotiated.
#[derive(Debug, Copy, Clone, PartialEq, Eq, Structural)]
pub struct Dri3Versions {
    pub dri3_major: u32,
    pub dri3_minor: u32,
    pub present_major: u32,
    pub present_minor: u32,
}

/// At least version `major.minor`.
pub open spec fn at_least(maj: u32, min: u32, major: u32, minor: u32) -> bool {
    maj > major || (maj == major && min >= minor)
}

/// Whether drawables of a screen may use several planes: the screen's image extension is of
/// version 15 or later, and the display speaks DRI3 and Present 1.2 or later.
pub fn has_multiplane(image_version: Option<i32>, versions: Option<Dri3Versions>) -> (r: bool)
    ensures
        r == match (image_version, versions) {
            (Some(v), Some(vs)) => v >= 15 && at_least(vs.dri3_major, vs.dri3_minor, 1, 2) && at_least(
                vs.present_major,
                vs.present_minor,
                1,
                2,
            ),
            _ => false,
        },
{
    match (image_version, versions) {
        (Some(v), Some(vs)) => v >= 15 && (vs.dri3_major > 1 || (vs.dri3_major == 1 && vs.dri3_minor
            >= 2)) && (vs.present_major > 1 || (vs.present_major == 1 && vs.present_minor >= 2)),
        _ => false,
    }
}

/// The first configuration from `i` on with the given id.
pub open spec fn first_with_id(configs: Seq<GlConfig>, i: int, id: i32) -> Option<int>
    decreases configs.len() - i,
{
    if i < 0 || i >= configs.len() {
        None
    } else if configs[i].fbconfig_id == id {
        Some(i)
    } else {
        first_with_id(configs, i + 1, id)
    }
}

/// The framebuffer configuration a drawable was made with, from its `GLX_FBCONFIG_ID`
/// property (the value read as a C int): the first of the screen's with that id.
pub fn find_fbconfig(fbconfigs: &[GlConfig], property: Option<u32>) -> (r: Result<usize, ScreenError>)
    ensures
        r == match property {
            None => Err::<usize, ScreenError>(ScreenError::NoFbConfig),
            Some(p) => match first_with_id(fbconfigs@, 0, p as i32) {
                Some(i) => Ok(i as usize),
                None => Err(ScreenError::NoFbConfig),
            },
        },
{
    let id: i32 = match property {
        None => {
            return Err(ScreenError::NoFbConfig);
        },
        Some(p) => p as i32,
    };
    let mut i: usize = 0;
    while i < fbconfigs.len()
        invariant
            i <= fbconfigs@.len(),
            property is Some && id == property->Some_0 as i32,
            first_with_id(fbconfigs@, 0, id) == first_with_id(fbconfigs@, i as int, id),
        decreases fbconfigs@.len() - i,
    {
        if fbconfigs[i].fbconfig_id == id {
            return Ok(i);
        }
        i = i + 1;
    }
    Err(ScreenError::NoFbConfig)
}

pub const DRI2_FLUSH_DRAWABLE: u32 = 1;
pub const DRI2_FLUSH_CONTEXT: u32 = 2;

/// The flush flags of a swap: the drawable, and the context too when asked to flush.
pub fn swap_flush_flags(flush: bool) -> (r: u32)
    ensures
        r == if flush { DRI2_FLUSH_DRAWABLE | DRI2_FLUSH_CONTEXT } else { DRI2_FLUSH_DRAWABLE },
{
    let mut flags = DRI2_FLUSH_DRAWABLE;
    if flush {
        flags = flags | DRI2_FLUSH_CONTEXT;
    }
    flags
}

/// A DRI3 screen swaps the buffers of a drawable through the current context, which must be
/// a DRI3 one; gives the flush flags of the swap.
pub fn swap_buffers_flags(current: Option<&ContextDispatch>, flush: bool) -> (r: Result<u32, ScreenError>)
    ensures
        match current {
            Some(ContextDispatch::Dri3(_)) => r == Ok::<u32, ScreenError>(
                if flush { DRI2_FLUSH_DRAWABLE | DRI2_FLUSH_CONTEXT } else { DRI2_FLUSH_DRAWABLE },
            ),
            _ => r == Err::<u32, ScreenError>(ScreenError::NoContextForSwap),
        },
{
    match current {
        Some(ContextDispatch::Dri3(_)) => Ok(swap_flush_flags(flush)),
        _ => Err(ScreenError::NoContextForSwap),
    }
}

/// The driver configurations of a screen, by the hash of the configuration they serve.
pub struct DriConfigMap {
    pub map: HashMap<u64, usize>,
}

/// The map that entries make when inserted in order: a later entry wins.
pub open spec fn entries_map(entries: Seq<(u64, usize)>) -> Map<u64, usize>
    decreases entries.len(),
{
    if entries.len() == 0 {
        Map::empty()
    } else {
        entries_map(entries.drop_last()).insert(entries.last().0, entries.last().1)
    }
}

impl DriConfigMap {
    /// The map of the visuals' entries and then the framebuffer configurations' entries.
    pub fn new(visual_entries: &[(u64, usize)], fbconfig_entries: &[(u64, usize)]) -> (r: DriConfigMap)
        ensures
            r.map@ == entries_map(visual_entries@ + fbconfig_entries@),
    {
        broadcast use vstd::std_specs::hash::group_hash_axioms;
        let mut map: HashMap<u64, usize> = HashMap::new();
        let ghost all = visual_entries@ + fbconfig_entries@;
        let mut i: usize = 0;
        while i < visual_entries.len()
            invariant
                i <= visual_entries@.len(),
                all == visual_entries@ + fbconfig_entries@,
                map@ == entries_map(all.subrange(0, i as int)),
            decreases visual_entries@.len() - i,
        {
            let (h, k) = visual_entries[i];
            map.insert(h, k);
            proof {
                assert(all.subrange(0, i + 1).drop_last() =~= all.subrange(0, i as int));
            }
            i = i + 1;
        }
        let n = visual_entries.len();
        let mut j: usize = 0;
        while j < fbconfig_entries.len()
            invariant
                j <= fbconfig_entries@.len(),
                n == visual_entries@.len(),
                all == visual_entries@ + fbconfig_entries@,
                map@ == entries_map(all.subrange(0, n + j)),
            decreases fbconfig_entries@.len() - j,
        {
            let (h, k) = fbconfig_entries[j];
            map.insert(h, k);
            proof {
                assert(all.subrange(0, n + j + 1).drop_last() =~= all.subrange(0, n + j));
                assert(all[n + j] == fbconfig_entries@[j as int]);
            }
            j = j + 1;
        }
        proof {
            assert(all.subrange(0, all.len() as int) =~= all);
        }
        DriConfigMap { map }
    }

    /// The driver configuration kept under a hash.
    pub fn lookup(&self, hash: u64) -> (r: Option<usize>)
        ensures
            r == if self.map@.contains_key(hash) {
                Some(self.map@[hash])
            } else {
                None::<usize>
            },
    {
        broadcast use vstd::std_specs::hash::group_hash_axioms;
        match self.map.get(&hash) {
            Some(k) => Some(*k),
            None => None,
        }
    }

    /// The driver configuration that serves a framebuffer configuration: the one kept under
    /// the configuration's hash, if any.
    pub fn driconfig_from_fbconfig(&self, cfg: &GlConfig) -> (r: Option<usize>)
        ensures
            r is Some ==> exists|h: u64| self.map@.contains_key(h) && r == Some(self.map@[h]),
    {
        let h = config_hash(cfg);
        self.lookup(h)
    }
}


/// The extension found for a name is the last of the first `n` with that name: it has the
/// name, and none after it (before `n`) has; none is found when none has the name.
pub proof fn lemma_last_named_is_last(names: Seq<Option<Seq<u8>>>, n: int, name: Seq<u8>)
    requires
        0 <= n <= names.len(),
    ensures
        match last_named(names, n, name) {
            Some(k) => 0 <= k < n && names[k] == Some(name) && forall|j: int| k < j < n ==> #[trigger] names[j] != Some(name),
            None => forall|j: int| 0 <= j < n ==> #[trigger] names[j] != Some(name),
        },
    decreases n,
{
    if n > 0 {
        lemma_last_named_is_last(names, n - 1, name);
    }
}

/// The configuration found for an id is the first from `i` on with that id: it has the id,
/// and none before it (from `i`) has; none is found when none has the id.
pub proof fn lemma_first_with_id_is_first(configs: Seq<GlConfig>, i: int, id: i32)
    requires
        0 <= i,
    ensures
        match first_with_id(configs, i, id) {
            Some(k) => i <= k < configs.len() && configs[k].fbconfig_id == id && forall|j: int| i <= j < k ==> #[trigger] configs[j].fbconfig_id != id,
            None => forall|j: int| i <= j < configs.len() ==> #[trigger] configs[j].fbconfig_id != id,
        },
    decreases configs.len() - i,
{
    if i < configs.len() {
        lemma_first_with_id_is_first(configs, i + 1, id);
    }
}

} // verus!
