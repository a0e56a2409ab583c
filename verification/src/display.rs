//! The decisions of a GLX display: the settings read from the environment, the GLX version
//! it accepts, the backend it tries next, the names it looks functions up by, and its cache
//! of drawable properties.
use vstd::prelude::*;

use dashmap::DashMap;
use std::collections::HashMap;

use vstd::string::StringSliceAdditionalSpecFns;

use crate::text::{lowercased, str_equals, to_lowercase};

verus! {

/// Why a display could not be made or used.
#[derive(Debug, Copy, Clone, PartialEq, Eq, Structural)]
pub enum DisplayError {
    /// "breadglx is not compatible with GLX v1.0"
    IncompatibleVersion,
    /// "string has a zero?"
    NameHasNul,
    /// "Invalid GL function name"
    InvalidFunctionName,
    /// "Unable to find OpenGL function"
    FunctionNotFound,
}

/// What a word of an environment variable means as a boolean, once lower-cased: "1",
/// "true", "y" and "yes" are true, "0", "false", "n" and "no" are false, and anything else
/// leaves the default.
pub open spec fn boolean_word(word: Seq<char>, default_val: bool) -> bool {
    if word == "1"@ || word == "true"@ || word == "y"@ || word == "yes"@ {
        true
    } else if word == "0"@ || word == "false"@ || word == "n"@ || word == "no"@ {
        false
    } else {
        default_val
    }
}

pub fn boolean_from_word(lowered: &str, default_val: bool) -> (r: bool)
    ensures
        r == boolean_word(lowered@, default_val),
{
    if str_equals(lowered, "1") || str_equals(lowered, "true") || str_equals(lowered, "y")
        || str_equals(lowered, "yes") {
        true
    } else if str_equals(lowered, "0") || str_equals(lowered, "false") || str_equals(lowered, "n")
        || str_equals(lowered, "no") {
        false
    } else {
        default_val
    }
}

/// The boolean an environment variable gives: the default when it is not set (or not
/// Unicode), else the meaning of its lower-cased value.
pub fn env_to_boolean(value: Option<&str>, default_val: bool) -> (r: bool)
    ensures
        r == match value {
            None => default_val,
            Some(s) => boolean_word(lowercased(s@), default_val),
        },
{
    match value {
        None => default_val,
        Some(s) => {
            let lowered = to_lowercase(s);
            boolean_from_word(lowered.as_str(), default_val)
        },
    }
}

/// How the display may render, from the environment.
#[derive(Debug, Copy, Clone, PartialEq, Eq, Structural)]
pub struct GlStats {
    pub direct: bool,
    pub accel: bool,
    pub no_dri3: bool,
    pub no_dri2: bool,
}

impl GlStats {
    /// The settings from the values of `LIBGL_ALWAYS_INDIRECT`, `LIBGL_ALWAYS_SOFTWARE`,
    /// `LIBGL_DRI3_DISABLE` and `LIBGL_DRI2_DISABLE` (each false when unset).
    pub fn get(
        always_indirect: Option<&str>,
        always_software: Option<&str>,
        dri3_disable: Option<&str>,
        dri2_disable: Option<&str>,
    ) -> (r: GlStats)
        ensures
            r.direct == !env_to_boolean_spec(always_indirect, false),
            r.accel == !env_to_boolean_spec(always_software, false),
            r.no_dri3 == env_to_boolean_spec(dri3_disable, false),
            r.no_dri2 == env_to_boolean_spec(dri2_disable, false),
    {
        GlStats {
            direct: !env_to_boolean(always_indirect, false),
            accel: !env_to_boolean(always_software, false),
            no_dri3: env_to_boolean(dri3_disable, false),
            no_dri2: env_to_boolean(dri2_disable, false),
        }
    }
}

/// What `env_to_boolean` gives.
pub open spec fn env_to_boolean_spec(value: Option<&str>, default_val: bool) -> bool {
    match value {
        None => default_val,
        Some(s) => boolean_word(lowercased(s@), default_val),
    }
}

/// The server's GLX version must be 1.1 or a later 1.x.
pub fn check_glx_version(major: u32, minor: u32) -> (r: Result<(), DisplayError>)
    ensures
        r == if major != 1 || minor < 1 {
            Err::<(), DisplayError>(DisplayError::IncompatibleVersion)
        } else {
            Ok(())
        },
{
    if major != 1 || minor < 1 {
        Err(DisplayError::IncompatibleVersion)
    } else {
        Ok(())
    }
}

/// A way of rendering that a display can be set up with.
#[derive(Debug, Copy, Clone, PartialEq, Eq, Structural)]
pub enum Backend {
    Dri3,
    Dri2,
    Indirect,
}

/// The backend tried after `failed` (or first, for none): direct accelerated rendering tries
/// DRI3 unless disabled, then DRI2 unless disabled, then indirect rendering; indirect
/// rendering is the last, and its failure is the display's.
pub open spec fn next_backend(stats: GlStats, failed: Option<Backend>) -> Option<Backend> {
    match failed {
        None => if stats.direct && stats.accel {
            if !stats.no_dri3 {
                Some(Backend::Dri3)
            } else if !stats.no_dri2 {
                Some(Backend::Dri2)
            } else {
                Some(Backend::Indirect)
            }
        } else {
            Some(Backend::Indirect)
        },
        Some(Backend::Dri3) => if !stats.no_dri2 {
            Some(Backend::Dri2)
        } else {
            Some(Backend::Indirect)
        },
        Some(Backend::Dri2) => Some(Backend::Indirect),
        Some(Backend::Indirect) => None,
    }
}

pub fn backend_after(stats: GlStats, failed: Option<Backend>) -> (r: Option<Backend>)
    ensures
        r == next_backend(stats, failed),
{
    match failed {
        None => {
            if stats.direct && stats.accel {
                if !stats.no_dri3 {
                    Some(Backend::Dri3)
                } else if !stats.no_dri2 {
                    Some(Backend::Dri2)
                } else {
                    Some(Backend::Indirect)
                }
            } else {
                Some(Backend::Indirect)
            }
        },
        Some(Backend::Dri3) => {
            if !stats.no_dri2 {
                Some(Backend::Dri2)
            } else {
                Some(Backend::Indirect)
            }
        },
        Some(Backend::Dri2) => Some(Backend::Indirect),
        Some(Backend::Indirect) => None,
    }
}

/// The bytes of a function name, for a C string: refused when one of them is a nul.
pub fn proc_name_bytes(name: &str) -> (r: Result<Vec<u8>, DisplayError>)
    ensures
        match r {
            Ok(v) => v@ == name.spec_bytes() && !name.spec_bytes().contains(0u8),
            Err(e) => e == DisplayError::NameHasNul && name.spec_bytes().contains(0u8),
        },
{
    let bytes = name.as_bytes();
    let mut out: Vec<u8> = Vec::new();
    let mut i: usize = 0;
    while i < bytes.len()
        invariant
            i <= bytes@.len(),
            bytes@ == name.spec_bytes(),
            out@ == bytes@.subrange(0, i as int),
            forall|j: int| 0 <= j < i ==> bytes@[j] != 0,
        decreases bytes@.len() - i,
    {
        if bytes[i] == 0 {
            assert(bytes@[i as int] == 0u8);
            return Err(DisplayError::NameHasNul);
        }
        out.push(bytes[i]);
        i = i + 1;
        assert(out@ =~= bytes@.subrange(0, i as int));
    }
    assert(out@ =~= bytes@);
    Ok(out)
}

/// Whether a function name (its bytes, without the nul) is looked up as a GL function: it
/// starts with "gl" and the third byte is not 'X'.
pub open spec fn gl_function_name(name: Seq<u8>) -> bool {
    name[0] == 103 && name[1] == 108 && name[2] != 88
}

/// The names whose test reads past their end: the empty one, "g" and "gl".
pub open spec fn name_long_enough(name: Seq<u8>) -> bool {
    &&& name.len() >= 1
    &&& name[0] == 103 ==> name.len() >= 2
    &&& name[0] == 103 && name[1] == 108 ==> name.len() >= 3
}

pub fn is_gl_function_name(name: &[u8]) -> (r: bool)
    requires
        name_long_enough(name@),
    ensures
        r == gl_function_name(name@),
{
    name[0] == 103 && name[1] == 108 && name[2] != 88
}

/// The address a lookup gives: what the GL API table gave, or else what the current context
/// gave; a name that is not a GL function's is refused, and one that nothing knows is not
/// found. Addresses are given as numbers, 0 standing for none.
pub fn resolve_proc_address(name: &[u8], from_glapi: u64, from_context: u64) -> (r: Result<u64, DisplayError>)
    requires
        name_long_enough(name@),
    ensures
        r == if !gl_function_name(name@) {
            Err::<u64, DisplayError>(DisplayError::InvalidFunctionName)
        } else if from_glapi != 0 {
            Ok(from_glapi)
        } else if from_context != 0 {
            Ok(from_context)
        } else {
            Err(DisplayError::FunctionNotFound)
        },
{
    if !is_gl_function_name(name) {
        Err(DisplayError::InvalidFunctionName)
    } else if from_glapi != 0 {
        Ok(from_glapi)
    } else if from_context != 0 {
        Ok(from_context)
    } else {
        Err(DisplayError::FunctionNotFound)
    }
}

/// The map that a reply of property pairs `(name, value)` makes, the first `n` pairs taken
/// in order (a later pair wins).
pub open spec fn pairs_map(reply: Seq<u32>, n: int) -> Map<u32, u32>
    decreases n,
{
    if n <= 0 {
        Map::empty()
    } else {
        pairs_map(reply, n - 1).insert(reply[2 * (n - 1)], reply[2 * (n - 1) + 1])
    }
}

/// The properties of a drawable from the server's reply of pairs.
pub open spec fn reply_map(reply: Seq<u32>) -> Map<u32, u32> {
    pairs_map(reply, (reply.len() / 2) as int)
}

pub fn properties_from_reply(reply: &[u32]) -> (r: HashMap<u32, u32>)
    requires
        reply@.len() % 2 == 0,
    ensures
        r@ == reply_map(reply@),
{
    broadcast use vstd::std_specs::hash::group_hash_axioms;
    let mut map: HashMap<u32, u32> = HashMap::new();
    let len: usize = reply.len();
    let n = len / 2;
    let mut k: usize = 0;
    while k < n
        invariant
            len == reply@.len(),
            n == len / 2,
            k <= n,
            map@ == pairs_map(reply@, k as int),
        decreases n - k,
    {
        assert(2 * k + 1 < len) by (nonlinear_arith)
            requires
                k < n,
                n == len / 2,
        ;
        let base: usize = 2 * k;
        map.insert(reply[base], reply[base + 1]);
        k = k + 1;
    }
    map
}

#[verifier::external_type_specification]
#[verifier::external_body]
#[verifier::reject_recursive_types(K)]
#[verifier::reject_recursive_types(V)]
#[verifier::reject_recursive_types(S)]
pub struct ExDashMap<K, V, S>(DashMap<K, V, S>);

/// What a cache of drawable properties holds: for each drawable, its properties.
pub uninterp spec fn cache_contents(m: DashMap<u32, HashMap<u32, u32>>) -> Map<u32, Map<u32, u32>>;

/// `DashMap::new` of dashmap: an empty map.
#[verifier::external_body]
fn cache_new() -> (r: DashMap<u32, HashMap<u32, u32>>)
    ensures
        cache_contents(r) =~= Map::empty(),
{
    DashMap::new()
}

/// `DashMap::get` of dashmap, the entry's value cloned out of the guard it hands back: the
/// value kept under the key, if any.
#[verifier::external_body]
fn cache_get(m: &DashMap<u32, HashMap<u32, u32>>, key: u32) -> (r: Option<HashMap<u32, u32>>)
    ensures
        r is Some <==> cache_contents(*m).contains_key(key),
        r is Some ==> r->Some_0@ == cache_contents(*m)[key],
{
    match m.get(&key) {
        Some(entry) => Some(entry.value().clone()),
        None => None,
    }
}

/// `DashMap::insert` of dashmap: the key now maps to the value, whatever it mapped to.
#[verifier::external_body]
fn cache_insert(m: &mut DashMap<u32, HashMap<u32, u32>>, key: u32, value: HashMap<u32, u32>)
    ensures
        cache_contents(*final(m)) == cache_contents(*old(m)).insert(key, value@),
{
    m.insert(key, value);
}

/// The properties of the drawables a display has asked the server about.
pub struct PropertyCache {
    map: DashMap<u32, HashMap<u32, u32>>,
}

impl View for PropertyCache {
    type V = Map<u32, Map<u32, u32>>;

    closed spec fn view(&self) -> Map<u32, Map<u32, u32>> {
        cache_contents(self.map)
    }
}

/// A property as the cache answers it: `None` when the drawable was never loaded, else the
/// property's value if the drawable has it.
pub open spec fn cached(cache: Map<u32, Map<u32, u32>>, drawable: u32, property: u32) -> Option<Option<u32>> {
    if cache.contains_key(drawable) {
        Some(
            if cache[drawable].contains_key(property) {
                Some(cache[drawable][property])
            } else {
                None
            },
        )
    } else {
        None
    }
}

impl PropertyCache {
    pub fn new() -> (r: PropertyCache)
        ensures
            r@ == Map::<u32, Map<u32, u32>>::empty(),
    {
        PropertyCache { map: cache_new() }
    }

    /// A property of a drawable, as far as the cache knows it.
    pub fn cached_property(&self, drawable: u32, property: u32) -> (r: Option<Option<u32>>)
        ensures
            r == cached(self@, drawable, property),
    {
        broadcast use vstd::std_specs::hash::group_hash_axioms;
        match cache_get(&self.map, drawable) {
            None => None,
            Some(props) => match props.get(&property) {
                Some(v) => Some(Some(*v)),
                None => Some(None),
            },
        }
    }

    /// Keep the server's reply about a drawable's properties, and answer a property from it.
    pub fn load_reply(&mut self, drawable: u32, reply: &[u32], property: u32) -> (r: Option<u32>)
        requires
            reply@.len() % 2 == 0,
        ensures
            final(self)@ == old(self)@.insert(drawable, reply_map(reply@)),
            r == (if reply_map(reply@).contains_key(property) {
                Some(reply_map(reply@)[property])
            } else {
                None::<u32>
            }),
    {
        let props = properties_from_reply(reply);
        cache_insert(&mut self.map, drawable, props);
        match self.cached_property(drawable, property) {
            Some(v) => v,
            None => {
                proof {
                    assert(false);
                }
                None
            },
        }
    }
}

/// A property that was loaded reads back as the reply gave it, until the drawable is loaded
/// again; the other drawables read as before.
pub proof fn lemma_cache_read_after_load(
    before: Map<u32, Map<u32, u32>>,
    drawable: u32,
    reply: Seq<u32>,
    other: u32,
    property: u32,
)
    ensures
        cached(before.insert(drawable, reply_map(reply)), drawable, property) == Some(
            if reply_map(reply).contains_key(property) {
                Some(reply_map(reply)[property])
            } else {
                None::<u32>
            },
        ),
        other != drawable ==> cached(before.insert(drawable, reply_map(reply)), other, property)
            == cached(before, other, property),
{
}

/// The place of a backend in the order they are tried: DRI3, DRI2, indirect.
pub open spec fn backend_rank(b: Backend) -> int {
    match b {
        Backend::Dri3 => 2,
        Backend::Dri2 => 1,
        Backend::Indirect => 0,
    }
}

/// The backends are tried in a fixed order that ends: a first one is always tried, each
/// next one comes later in the order DRI3, DRI2, indirect, indirect rendering is the only
/// one with nothing after it, and DRI3 is tried only for direct accelerated rendering that
/// does not disable it.
pub proof fn lemma_backends_end(stats: GlStats, failed: Backend)
    ensures
        next_backend(stats, None) is Some,
        next_backend(stats, Some(failed)) is Some ==> backend_rank(
            next_backend(stats, Some(failed))->Some_0,
        ) < backend_rank(failed),
        next_backend(stats, Some(failed)) is None <==> failed == Backend::Indirect,
        next_backend(stats, None) == Some(Backend::Dri3) <==> (stats.direct && stats.accel
            && !stats.no_dri3),
{
}


/// The words an environment variable is read by: "1", "true", "y" and "yes" switch a setting
/// on and "0", "false", "n" and "no" switch it off, whatever the default; any other word
/// leaves the default.
pub proof fn lemma_boolean_words(word: Seq<char>, default_val: bool)
    ensures
        boolean_word("1"@, default_val) && boolean_word("true"@, default_val),
        boolean_word("y"@, default_val) && boolean_word("yes"@, default_val),
        !boolean_word("0"@, default_val) && !boolean_word("false"@, default_val),
        !boolean_word("n"@, default_val) && !boolean_word("no"@, default_val),
        !(word == "1"@ || word == "true"@ || word == "y"@ || word == "yes"@ || word == "0"@ || word
            == "false"@ || word == "n"@ || word == "no"@) ==> boolean_word(word, default_val)
            == default_val,
{
    reveal_strlit("1");
    reveal_strlit("true");
    reveal_strlit("y");
    reveal_strlit("yes");
    reveal_strlit("0");
    reveal_strlit("false");
    reveal_strlit("n");
    reveal_strlit("no");
    assert("0"@[0] != "1"@[0] && "0"@[0] != "y"@[0]);
    assert("n"@[0] != "1"@[0] && "n"@[0] != "y"@[0]);
    assert("0"@.len() != "true"@.len() && "0"@.len() != "yes"@.len());
    assert("n"@.len() != "true"@.len() && "n"@.len() != "yes"@.len());
    assert("no"@.len() != "1"@.len() && "no"@.len() != "true"@.len() && "no"@.len() != "yes"@.len());
    assert("false"@.len() != "1"@.len() && "false"@.len() != "true"@.len() && "false"@.len() != "yes"@.len());
}

/// The properties a reply of pairs gives: a property is there exactly when some pair names
/// it, and its value is that of the last pair naming it.
pub proof fn lemma_reply_pairs(reply: Seq<u32>, n: int, property: u32)
    requires
        0 <= n,
        2 * n <= reply.len(),
    ensures
        pairs_map(reply, n).contains_key(property) <==> exists|k: int| 0 <= k < n && #[trigger] reply[2 * k] == property,
        forall|k: int|
            0 <= k < n && #[trigger] reply[2 * k] == property && (forall|l: int| k < l < n ==> #[trigger] reply[2 * l] != property)
                ==> pairs_map(reply, n)[property] == reply[2 * k + 1],
    decreases n,
{
    if n > 0 {
        lemma_reply_pairs(reply, n - 1, property);
        if reply[2 * (n - 1)] != property {
            assert forall|k: int|
                0 <= k < n && #[trigger] reply[2 * k] == property && (forall|l: int| k < l < n ==> #[trigger] reply[2 * l] != property)
                    implies pairs_map(reply, n)[property] == reply[2 * k + 1] by {
                assert(k != n - 1);
                assert forall|l: int| k < l < n - 1 implies #[trigger] reply[2 * l] != property by {
                    assert(reply[2 * l] != property);
                }
            }
        } else {
            assert forall|k: int|
                0 <= k < n && #[trigger] reply[2 * k] == property && (forall|l: int| k < l < n ==> #[trigger] reply[2 * l] != property)
                    implies pairs_map(reply, n)[property] == reply[2 * k + 1] by {
                if k < n - 1 {
                    assert(reply[2 * (n - 1)] != property);
                }
            }
        }
    }
}

} // verus!
