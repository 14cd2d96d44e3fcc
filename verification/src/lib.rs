//! An adapter that lets a container-shim host execute WebAssembly
//! modules through an embedded WAMR runtime.
//!
//! The adapter's contract is the `WamrEngine` in [`instance`]: `name`,
//! the `run_wasi` prologue, `precompile` and `can_precompile`. One
//! invocation then walks the state machine of [`invocation`], which
//! decides, for every outcome the embedding program reports back from
//! the runtime's load, environment, resolution, stdio and invoke
//! stages, the next state and the exit status or error the host
//! receives. [`wasi`] builds the guest-visible environment, [`module`]
//! holds the module loader's local validation, [`rlimit`] the
//! resource-limit descriptors, [`error`] the error taxonomy and
//! [`token`] the decimal rendering behind the compatibility token.

pub mod error;
pub mod instance;
pub mod invocation;
pub mod module;
pub mod rlimit;
pub mod token;
pub mod wasi;
