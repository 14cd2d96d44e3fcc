//! The engine adapter: the contract the host calls.
//!
//! `WamrEngine` owns the tuning configuration selected at construction
//! time and the compatibility fingerprint derived from it. The adapter's
//! surface is `name`, the `run_wasi` prologue (`begin_run_wasi`, whose
//! runtime stages continue through the invocation state machine),
//! `precompile` and `can_precompile`.

use core::marker::PhantomData;
use std::collections::hash_map::DefaultHasher;
use std::hash::Hasher;

use vstd::prelude::*;
use vstd::std_specs::hash::DefaultHasherAdditionalSpecFns;

use crate::error::EngineError;
use crate::invocation::InvocationState;
use crate::invocation::start_invocation;
use crate::module::is_wasm_header;
use crate::token::spec_decimal;
use crate::token::decimal_string;
use crate::wasi::Entrypoint;
use crate::wasi::RuntimeContext;
use crate::wasi::WasiContext;
use crate::wasi::context_wf;
use crate::wasi::prepare_wasi_ctx;

verus! {

/// The runtime tuning parameters fixed at engine construction: the
/// guest's default execution stack and host-managed heap, in bytes.
/// Immutable after construction.
#[derive(Debug, Clone, Copy, PartialEq, Eq, Structural)]
pub struct RuntimeConfig {
    pub stack_size: u32,
    pub heap_size: u32,
}

/// A configuration policy: the tuning parameters an engine is built
/// with, chosen once per process.
pub trait WamrConfig: Sized {
    /// The configuration this policy selects.
    spec fn spec_config() -> RuntimeConfig;

    /// Produces the selected configuration.
    fn new_config() -> (c: RuntimeConfig)
        ensures
            c == Self::spec_config(),
    ;
}

/// The default tuning: 64 KiB of execution stack and 64 KiB of heap.
#[derive(Clone)]
pub struct DefaultConfig {}

impl WamrConfig for DefaultConfig {
    open spec fn spec_config() -> RuntimeConfig {
        RuntimeConfig { stack_size: 65536, heap_size: 65536 }
    }

    fn new_config() -> (c: RuntimeConfig) {
        RuntimeConfig { stack_size: 65536, heap_size: 65536 }
    }
}

/// One content-addressed module layer handed to `precompile` by the
/// caching layer above the engine.
pub struct WasmLayer {
    pub bytes: Vec<u8>,
}

/// The four little-endian bytes of `x`.
pub open spec fn le_bytes(x: u32) -> Seq<u8> {
    seq![
        (x % 256) as u8,
        ((x / 256) % 256) as u8,
        ((x / 65536) % 256) as u8,
        ((x / 16777216) % 256) as u8,
    ]
}

/// The ASCII bytes of the engine-and-release tag `wamr-2.2.0`.
pub open spec fn engine_tag() -> Seq<u8> {
    seq![0x77u8, 0x61u8, 0x6du8, 0x72u8, 0x2du8, 0x32u8, 0x2eu8, 0x32u8, 0x2eu8, 0x30u8]
}

/// The compatibility fingerprint of an engine built with configuration
/// `c`: the engine-and-release tag followed by the tuning parameters.
/// Any release or tuning change changes the fingerprint.
pub open spec fn spec_fingerprint(c: RuntimeConfig) -> Seq<u8> {
    engine_tag() + le_bytes(c.stack_size) + le_bytes(c.heap_size)
}

/// The compatibility token derived from a fingerprint: the decimal
/// rendering of the fingerprint's digest. A function of the fingerprint
/// bytes alone, so it is stable across process restarts.
pub open spec fn token_chars(fp: Seq<u8>) -> Seq<char> {
    spec_decimal(DefaultHasher::spec_finish(seq![fp]) as nat)
}

/// Appends the four little-endian bytes of `x`.
fn push_u32_le(v: &mut Vec<u8>, x: u32)
    ensures
        final(v)@ == old(v)@ + le_bytes(x),
{
    v.push((x % 256) as u8);
    v.push(((x / 256) % 256) as u8);
    v.push(((x / 65536) % 256) as u8);
    v.push(((x / 16777216) % 256) as u8);
    proof {
        assert(v@ =~= old(v)@ + le_bytes(x));
    }
}

/// Builds the compatibility fingerprint of configuration `c`.
fn compute_fingerprint(c: &RuntimeConfig) -> (r: Vec<u8>)
    ensures
        r@ == spec_fingerprint(*c),
{
    let mut v: Vec<u8> = Vec::new();
    v.push(0x77u8);
    v.push(0x61u8);
    v.push(0x6du8);
    v.push(0x72u8);
    v.push(0x2du8);
    v.push(0x32u8);
    v.push(0x2eu8);
    v.push(0x32u8);
    v.push(0x2eu8);
    v.push(0x30u8);
    push_u32_le(&mut v, c.stack_size);
    push_u32_le(&mut v, c.heap_size);
    proof {
        assert(v@ =~= spec_fingerprint(*c));
    }
    v
}

/// Digests a fingerprint with the standard library's default hasher,
/// whose result is a function of the written bytes alone.
fn hash_fingerprint(fp: &Vec<u8>) -> (r: u64)
    ensures
        r == DefaultHasher::spec_finish(seq![fp@]),
{
    let mut h = DefaultHasher::new();
    h.write(fp.as_slice());
    proof {
        assert(h@ =~= seq![fp@]);
    }
    h.finish()
}

/// The engine adapter: the runtime tuning fixed at construction and the
/// compatibility fingerprint derived from it. Cheap to duplicate; one
/// value may serve concurrent invocations, each of which owns all of its
/// per-invocation state.
pub struct WamrEngine<T: WamrConfig> {
    pub config: RuntimeConfig,
    pub fingerprint: Vec<u8>,
    pub config_type: PhantomData<T>,
}

impl<T: WamrConfig> Clone for WamrEngine<T> {
    /// Duplicates the engine: the copy carries the same configuration
    /// and fingerprint, so it answers every call as the original does.
    fn clone(&self) -> (r: Self)
        ensures
            r.config == self.config,
            r.fingerprint@ == self.fingerprint@,
    {
        let mut fingerprint: Vec<u8> = Vec::new();
        let mut i: usize = 0;
        while i < self.fingerprint.len()
            invariant
                i <= self.fingerprint@.len(),
                fingerprint@ == self.fingerprint@.take(i as int),
            decreases self.fingerprint@.len() - i,
        {
            fingerprint.push(self.fingerprint[i]);
            proof {
                assert(fingerprint@ =~= self.fingerprint@.take(i + 1int));
            }
            i += 1;
        }
        proof {
            assert(fingerprint@ =~= self.fingerprint@);
        }
        WamrEngine { config: self.config, fingerprint, config_type: PhantomData }
    }
}

impl<T: WamrConfig> WamrEngine<T> {
    /// A well-formed engine carries the fingerprint of its own
    /// configuration.
    pub open spec fn wf(self) -> bool {
        self.fingerprint@ == spec_fingerprint(self.config)
    }

    /// The stable identifier of the embedded runtime, used by the host
    /// for plugin selection and logging.
    pub fn name() -> (r: &'static str)
        ensures
            r@ == "wamr"@,
    {
        "wamr"
    }

    /// The verified prologue of `run_wasi`: builds the WASI context from
    /// the host context and the ambient environment pairs, then begins
    /// the invocation with the module-preamble check. A malformed host
    /// context is the only error here; malformed source bytes begin the
    /// machine in its failed state, before any runtime stage runs.
    pub fn begin_run_wasi(&self, ctx: RuntimeContext, envs: Vec<(String, String)>) -> (r: Result<
        (Entrypoint, WasiContext, InvocationState),
        EngineError,
    >)
        ensures
            r is Ok <==> context_wf(ctx),
            r matches Err(e) ==> e matches EngineError::ConfigError(_),
            r matches Ok(t) ==> t.0 == ctx.entrypoint && t.1.envs@ == envs@ && t.1.rlimits@
                == ctx.rlimits@,
            r matches Ok(t) ==> (is_wasm_header(ctx.entrypoint.source@) ==> t.2
                == InvocationState::Created),
            r matches Ok(t) ==> (!is_wasm_header(ctx.entrypoint.source@) ==> (t.2 matches
                InvocationState::Failed(e) && e matches EngineError::LoadError(_))),
    {
        let (entrypoint, wasi_ctx) = match prepare_wasi_ctx(ctx, envs) {
            Ok(p) => p,
            Err(e) => {
                return Err(e);
            },
        };
        let state = start_invocation(entrypoint.source.as_slice());
        Ok((entrypoint, wasi_ctx, state))
    }

    /// Reports the engine-specific precompiled artifact of each layer.
    /// This engine has no ahead-of-time backend, so the answer is one
    /// empty entry per layer, in the input's order, never a failure.
    pub fn precompile(&self, layers: &[WasmLayer]) -> (r: Result<
        Vec<Option<Vec<u8>>>,
        EngineError,
    >)
        ensures
            r matches Ok(v) && v@.len() == layers@.len() && (forall|i: int|
                0 <= i < v@.len() ==> v@[i] is None),
    {
        let mut out: Vec<Option<Vec<u8>>> = Vec::new();
        let mut i: usize = 0;
        while i < layers.len()
            invariant
                i <= layers@.len(),
                out@.len() == i,
                forall|j: int| 0 <= j < out@.len() ==> out@[j] is None,
            decreases layers@.len() - i,
        {
            out.push(None);
            i += 1;
        }
        Ok(out)
    }

    /// The compatibility token under which cached precompiled artifacts
    /// may be reused: the digest of the engine's fingerprint, rendered
    /// in decimal. A function of the fingerprint alone, so the token is
    /// identical across processes of an unchanged engine and changes
    /// with the fingerprint's release tag or tuning parameters.
    pub fn can_precompile(&self) -> (r: Option<String>)
        ensures
            r matches Some(s) && s@ == token_chars(self.fingerprint@),
    {
        let digest = hash_fingerprint(&self.fingerprint);
        Some(decimal_string(digest))
    }
}

impl<T: WamrConfig> Default for WamrEngine<T> {
    /// Builds the engine from the configuration its policy selects, with
    /// the matching fingerprint.
    fn default() -> (r: Self)
        ensures
            r.config == T::spec_config(),
            r.wf(),
    {
        let config = T::new_config();
        let fingerprint = compute_fingerprint(&config);
        WamrEngine { config, fingerprint, config_type: PhantomData }
    }
}

/// The sandbox-filter capability handed to the host. No seccomp filter
/// is wired into this engine, so the notification descriptor is always
/// reported unavailable.
pub struct ScmpFilterContext;

impl ScmpFilterContext {
    /// The seccomp notification file descriptor, `-1` while the
    /// capability is unavailable.
    pub fn get_notify_fd(&self) -> (r: i32)
        ensures
            r == -1,
    {
        -1
    }
}

/// Two calls of `can_precompile` on engines that carry the same
/// fingerprint yield the same token — in particular two calls on one
/// engine value, or on clones of it.
pub proof fn lemma_token_deterministic<T: WamrConfig, U: WamrConfig>(
    a: WamrEngine<T>,
    b: WamrEngine<U>,
)
    requires
        a.fingerprint@ == b.fingerprint@,
    ensures
        token_chars(a.fingerprint@) == token_chars(b.fingerprint@),
{
}

/// Well-formed engines built with the same configuration yield the same
/// token, whatever process they live in: the token depends on the
/// configuration alone.
pub proof fn lemma_token_fixed_by_config<T: WamrConfig, U: WamrConfig>(
    a: WamrEngine<T>,
    b: WamrEngine<U>,
)
    requires
        a.wf(),
        b.wf(),
        a.config == b.config,
    ensures
        token_chars(a.fingerprint@) == token_chars(b.fingerprint@),
{
}

/// The four little-endian bytes of a value determine it.
proof fn lemma_le_bytes_decode(x: u32, y: u32)
    requires
        le_bytes(x) == le_bytes(y),
    ensures
        x == y,
{
    assert(le_bytes(x)[0] == le_bytes(y)[0]);
    assert(le_bytes(x)[1] == le_bytes(y)[1]);
    assert(le_bytes(x)[2] == le_bytes(y)[2]);
    assert(le_bytes(x)[3] == le_bytes(y)[3]);
    assert(x % 256 == y % 256);
    assert((x / 256) % 256 == (y / 256) % 256);
    assert((x / 65536) % 256 == (y / 65536) % 256);
    assert((x / 16777216) % 256 == (y / 16777216) % 256);
    assert(x == y) by (bit_vector)
        requires
            x % 256 == y % 256,
            (x / 256) % 256 == (y / 256) % 256,
            (x / 65536) % 256 == (y / 65536) % 256,
            (x / 16777216) % 256 == (y / 16777216) % 256,
    ;
}

/// The fingerprint pins the configuration: well-formed engines whose
/// fingerprints agree were built with the same tuning. In the
/// contrapositive, changing the configuration changes the fingerprint;
/// the token then changes too unless the digests of the two
/// fingerprints collide, which the hash leaves as a best-effort
/// property.
pub proof fn lemma_fingerprint_determines_config<T: WamrConfig, U: WamrConfig>(
    a: WamrEngine<T>,
    b: WamrEngine<U>,
)
    requires
        a.wf(),
        b.wf(),
        a.fingerprint@ == b.fingerprint@,
    ensures
        a.config == b.config,
{
    assert(le_bytes(a.config.stack_size) =~= spec_fingerprint(a.config).subrange(10, 14));
    assert(le_bytes(b.config.stack_size) =~= spec_fingerprint(b.config).subrange(10, 14));
    assert(le_bytes(a.config.heap_size) =~= spec_fingerprint(a.config).subrange(14, 18));
    assert(le_bytes(b.config.heap_size) =~= spec_fingerprint(b.config).subrange(14, 18));
    lemma_le_bytes_decode(a.config.stack_size, b.config.stack_size);
    lemma_le_bytes_decode(a.config.heap_size, b.config.heap_size);
}

} // verus!
