//! Interception of module loading.
//!
//! Loading a graphics runtime is the shim's cue to install its
//! API-level hooks.  Each loaded module is patched at most once — a
//! concurrent set of already-patched module handles guards idempotence
//! — and a module the shim has patched is never really freed, so the
//! host cannot unload the hooks out from under it.

use vstd::prelude::*;

verus! {

/// Declares the concurrent set that guards against patching one module
/// twice.
#[verifier::external_type_specification]
#[verifier::external_body]
#[verifier::reject_recursive_types(K)]
#[verifier::reject_recursive_types(S)]
pub struct ExDashSet<K, S>(dashmap::DashSet<K, S>);

/// The module handles the set holds.
pub uninterp spec fn handle_set(s: dashmap::DashSet<u64>) -> Set<u64>;

/// Relies on dashmap::DashSet::new: an empty set.
#[verifier::external_body]
fn handle_set_new() -> (r: dashmap::DashSet<u64>)
    ensures
        handle_set(r) == Set::<u64>::empty(),
{
    dashmap::DashSet::new()
}

/// Relies on dashmap::DashSet::insert: adds the handle; reports whether
/// it was new.
#[verifier::external_body]
fn handle_set_insert(s: &mut dashmap::DashSet<u64>, v: u64) -> (fresh: bool)
    ensures
        handle_set(*final(s)) == handle_set(*old(s)).insert(v),
        fresh == !handle_set(*old(s)).contains(v),
{
    s.insert(v)
}

/// Relies on dashmap::DashSet::contains: membership.
#[verifier::external_body]
fn handle_set_contains(s: &dashmap::DashSet<u64>, v: u64) -> (r: bool)
    ensures
        r == handle_set(*s).contains(v),
{
    s.contains(&v)
}

/// The handles of modules whose exports have already been patched.
pub struct ModuleRegistry {
    set: dashmap::DashSet<u64>,
}

impl ModuleRegistry {
    /// The patched handles.
    pub closed spec fn view_spec(self) -> Set<u64> {
        handle_set(self.set)
    }

    /// A registry with nothing patched.
    pub fn new() -> (r: Self)
        ensures
            r.view_spec() == Set::<u64>::empty(),
    {
        ModuleRegistry { set: handle_set_new() }
    }

    /// Whether a freshly loaded module should be examined at all: a
    /// load that failed has no module, and one already patched must
    /// not be patched again.
    pub fn should_process(&self, module: u64) -> (r: bool)
        ensures
            r == (module != 0 && !self.view_spec().contains(module)),
    {
        module != 0 && !handle_set_contains(&self.set, module)
    }

    /// Record that a module's exports have been patched.
    pub fn record_patched(&mut self, module: u64)
        ensures
            final(self).view_spec() == old(self).view_spec().insert(module),
    {
        handle_set_insert(&mut self.set, module);
    }

    /// Whether an intercepted module-free call must be swallowed: a
    /// patched module is reported freed but kept loaded, any other
    /// module is freed for real.
    pub fn swallow_free(&self, module: u64) -> (r: bool)
        ensures
            r == self.view_spec().contains(module),
    {
        handle_set_contains(&self.set, module)
    }
}

/// Index of the last dot of a file name, or a negative value when it
/// has none.
pub open spec fn last_dot(s: Seq<u8>) -> int
    decreases s.len(),
{
    if s.len() == 0 {
        -1
    } else if s[s.len() - 1] == 0x2Eu8 {
        s.len() - 1
    } else {
        last_dot(s.take(s.len() - 1))
    }
}

/// The stem of a file name: the name up to its final dot, except that
/// a name whose only dot leads it (a dotfile) keeps the dot.
pub open spec fn stem_spec(name: Seq<u8>) -> Seq<u8> {
    if last_dot(name) > 0 {
        name.take(last_dot(name))
    } else {
        name
    }
}

proof fn lemma_last_dot_at(s: Seq<u8>, i: int)
    requires
        -1 <= i < s.len(),
        forall|j: int| i < j < s.len() ==> s[j] != 0x2Eu8,
        i >= 0 ==> s[i] == 0x2Eu8,
    ensures
        last_dot(s) == i,
    decreases s.len(),
{
    if s.len() == 0 {
    } else if s[s.len() - 1] == 0x2Eu8 {
        assert(i == s.len() - 1);
    } else {
        assert(i < s.len() - 1);
        lemma_last_dot_at(s.take(s.len() - 1), i);
    }
}

/// The stem of a file name given as bytes.
pub fn file_stem(name: &Vec<u8>) -> (r: Vec<u8>)
    ensures
        r@ == stem_spec(name@),
{
    let n = name.len();
    let mut i: usize = n;
    let mut found = false;
    while !found && i > 0
        invariant
            i <= n,
            n == name@.len(),
            forall|j: int| i <= j < n ==> name@[j] != 0x2Eu8,
            found ==> i > 0 && name@[i - 1] == 0x2Eu8,
        decreases i + (if found { 0int } else { 1int }),
    {
        let b = name[i - 1];
        if b == 0x2E {
            found = true;
        } else {
            i = i - 1;
        }
    }
    let end: usize = if found && i > 1 {
        proof {
            lemma_last_dot_at(name@, i - 1);
        }
        i - 1
    } else {
        proof {
            if found {
                lemma_last_dot_at(name@, i - 1);
            } else {
                lemma_last_dot_at(name@, -1);
            }
        }
        n
    };
    let mut r: Vec<u8> = Vec::new();
    let mut k: usize = 0;
    while k < end
        invariant
            k <= end <= n,
            n == name@.len(),
            r@ == name@.take(k as int),
        decreases end - k,
    {
        let b = name[k];
        r.push(b);
        proof {
            assert(r@ =~= name@.take(k + 1));
        }
        k = k + 1;
    }
    proof {
        if !(last_dot(name@) > 0) {
            assert(name@.take(n as int) =~= name@);
        }
    }
    r
}

/// The graphics runtimes whose loading the shim reacts to.
#[derive(Clone, Copy, PartialEq, Eq, Structural)]
pub enum GraphicsApi {
    Dxgi,
    Vulkan,
}

/// The module stem of the first graphics runtime.
pub open spec fn dxgi_stem() -> Seq<u8> {
    seq![0x64u8, 0x78u8, 0x67u8, 0x69u8]
}

/// The module stem of the second graphics runtime.
pub open spec fn vulkan_stem() -> Seq<u8> {
    seq![0x76u8, 0x75u8, 0x6Cu8, 0x6Bu8, 0x61u8, 0x6Eu8, 0x2Du8, 0x31u8]
}

fn bytes_eq_arr<const N: usize>(v: &Vec<u8>, a: &[u8; N]) -> (r: bool)
    ensures
        r == (v@ == a@),
{
    if v.len() != N {
        proof {
            assert(v@.len() != a@.len());
        }
        return false;
    }
    let mut i: usize = 0;
    while i < N
        invariant
            i <= N,
            v@.len() == N == a@.len(),
            forall|j: int| 0 <= j < i ==> v@[j] == a@[j],
        decreases N - i,
    {
        if v[i] != a[i] {
            return false;
        }
        i = i + 1;
    }
    proof {
        assert(v@ =~= a@);
    }
    true
}

/// Which graphics runtime a freshly loaded module is, judged by the
/// stem of its file name: the hooks for that runtime are then
/// installed on it.
pub fn library_backend(filename: &Vec<u8>) -> (r: Option<GraphicsApi>)
    ensures
        stem_spec(basename_of(filename@)) == dxgi_stem() ==> r == Some(GraphicsApi::Dxgi),
        stem_spec(basename_of(filename@)) == vulkan_stem() ==> r == Some(GraphicsApi::Vulkan),
        stem_spec(basename_of(filename@)) != dxgi_stem() && stem_spec(basename_of(filename@))
            != vulkan_stem() ==> r is None,
{
    let name = crate::propagate::basename(filename);
    let stem = file_stem(&name);
    let dxgi: [u8; 4] = [0x64, 0x78, 0x67, 0x69];
    let vulkan: [u8; 8] = [0x76, 0x75, 0x6C, 0x6B, 0x61, 0x6E, 0x2D, 0x31];
    if bytes_eq_arr(&stem, &dxgi) {
        proof {
            assert(dxgi@ =~= dxgi_stem());
        }
        Some(GraphicsApi::Dxgi)
    } else if bytes_eq_arr(&stem, &vulkan) {
        proof {
            assert(vulkan@ =~= vulkan_stem());
        }
        Some(GraphicsApi::Vulkan)
    } else {
        proof {
            assert(dxgi@ =~= dxgi_stem());
            assert(vulkan@ =~= vulkan_stem());
        }
        None
    }
}

/// The file-name part of a path, as [`crate::propagate::basename`]
/// computes it.
pub open spec fn basename_of(s: Seq<u8>) -> Seq<u8> {
    crate::propagate::basename_spec(s)
}

} // verus!
