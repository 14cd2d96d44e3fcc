//! The guest-visible environment: the runtime context handed in by the
//! host, and the WASI context built from it per invocation.

use vstd::prelude::*;

use crate::error::EngineError;
use crate::rlimit::LinuxRlimit;

verus! {

/// What the host supplies per invocation: the module bytes, the name of
/// the export to invoke, and the optional process identity fields.
#[derive(Debug)]
pub struct Entrypoint {
    pub source: Vec<u8>,
    pub func: String,
    pub arg0: Option<String>,
    pub name: Option<String>,
}

/// The host-supplied runtime context of one invocation: its entrypoint
/// and the resource limits from the container's resource spec.
#[derive(Debug)]
pub struct RuntimeContext {
    pub entrypoint: Entrypoint,
    pub rlimits: Vec<LinuxRlimit>,
}

/// The environment the runtime exposes to the guest: the environment
/// variables and the resource-limit set. Immutable once built.
#[derive(Debug)]
pub struct WasiContext {
    pub envs: Vec<(String, String)>,
    pub rlimits: Vec<LinuxRlimit>,
}

/// Whether every descriptor of the set is well formed.
pub open spec fn rlimits_wf(rs: Seq<LinuxRlimit>) -> bool {
    forall|i: int| 0 <= i < rs.len() ==> (#[trigger] rs[i]).wf()
}

/// Whether the host context carries everything an invocation needs: a
/// non-empty export name and well-formed resource limits.
pub open spec fn context_wf(ctx: RuntimeContext) -> bool {
    &&& ctx.entrypoint.func@.len() > 0
    &&& rlimits_wf(ctx.rlimits@)
}

/// Builds the WASI context of one invocation from the host context and
/// the ambient environment variables, handing the entrypoint back out
/// unchanged for the stages that follow. Succeeds exactly when the
/// context is well formed; an empty export name or a descriptor with its
/// soft value above its hard value is a `ConfigError`. The built context
/// carries the environment pairs and the resource limits unchanged.
pub fn prepare_wasi_ctx(ctx: RuntimeContext, envs: Vec<(String, String)>) -> (r: Result<
    (Entrypoint, WasiContext),
    EngineError,
>)
    ensures
        r is Ok <==> context_wf(ctx),
        r matches Ok(p) ==> p.0 == ctx.entrypoint && p.1.envs@ == envs@ && p.1.rlimits@
            == ctx.rlimits@,
        r matches Err(e) ==> e matches EngineError::ConfigError(_),
{
    if ctx.entrypoint.func.as_str().unicode_len() == 0 {
        return Err(
            EngineError::ConfigError(String::from_str("entrypoint carries no function name")),
        );
    }
    let mut i: usize = 0;
    while i < ctx.rlimits.len()
        invariant
            i <= ctx.rlimits.len(),
            forall|j: int| 0 <= j < i ==> (#[trigger] ctx.rlimits@[j]).wf(),
        decreases ctx.rlimits.len() - i,
    {
        if ctx.rlimits[i].soft > ctx.rlimits[i].hard {
            proof {
                assert(!(ctx.rlimits@[i as int]).wf());
                assert(!rlimits_wf(ctx.rlimits@));
            }
            return Err(
                EngineError::ConfigError(
                    String::from_str("resource limit has soft value above hard value"),
                ),
            );
        }
        i += 1;
    }
    Ok((ctx.entrypoint, WasiContext { envs, rlimits: ctx.rlimits }))
}

} // verus!
