//! The bridge to the host runtime's pluggable digest framework.
//!
//! The host drives a hash algorithm it has no compile-time knowledge of
//! through a fixed descriptor — algorithm metadata plus three callbacks — and
//! owns the context memory itself. The host-facing layer keeps only the raw
//! pointer handling: the context it initializes in place is a [`Blake3`]
//! value, and the descriptor it registers carries the metadata built here.
//! Which way a descriptor is wrapped into a host-native object depends on the
//! host's release; the strategy choice and the resolve-once caching of the
//! wrap symbol are decided here, while the lookup itself stays with the host.

use vstd::prelude::*;

use crate::digest::{digest_spec, fresh_state};
use crate::primitive::{
    absorbed, hasher_finalize_into, hasher_update, standard_mode,
};

verus! {

/// The framework generation this adapter speaks.
pub const RUBY_DIGEST_API_VERSION: i32 = 3;

/// Digest length of the algorithm, in bytes.
pub const DIGEST_LEN: usize = 32;

/// Block length of the algorithm, in bytes.
pub const BLOCK_LEN: usize = 64;

/// The algorithm metadata of the descriptor the host framework reads. The
/// three callbacks stand beside these fields at the host boundary.
pub struct Descriptor {
    pub api_version: i32,
    pub digest_len: usize,
    pub block_len: usize,
    pub ctx_size: usize,
}

/// The hash context embedded in host-allocated memory: one incremental
/// BLAKE3 state. The host hands the callbacks a pointer to it; the callbacks
/// hand the value here.
pub struct Blake3 {
    hasher: blake3::Hasher,
}

impl View for Blake3 {
    type V = Seq<u8>;

    closed spec fn view(&self) -> Seq<u8> {
        absorbed(self.hasher)
    }
}

impl Blake3 {
    /// The context is backed by a hasher of the plain BLAKE3 mode.
    pub closed spec fn wf(&self) -> bool {
        standard_mode(self.hasher)
    }

    /// The descriptor for this algorithm. `ctx_size` must be the exact size
    /// the host allocates for the context, computed from the real layout by
    /// the host-facing layer, never hard-coded apart from it.
    pub fn digest_metadata(ctx_size: usize) -> (d: Descriptor)
        ensures
            d.api_version == RUBY_DIGEST_API_VERSION,
            d.digest_len == DIGEST_LEN,
            d.block_len == BLOCK_LEN,
            d.ctx_size == ctx_size,
    {
        Descriptor {
            api_version: RUBY_DIGEST_API_VERSION,
            digest_len: DIGEST_LEN,
            block_len: BLOCK_LEN,
            ctx_size,
        }
    }

    /// The fresh context the init callback writes into the host's
    /// uninitialized memory: nothing absorbed yet.
    pub fn init() -> (c: Blake3)
        ensures
            c.wf(),
            c@ == fresh_state(),
    {
        Blake3 { hasher: blake3::Hasher::new() }
    }

    /// The update callback's work on an initialized context: absorbs exactly
    /// the given bytes, in order.
    pub fn update(&mut self, data: &[u8])
        requires
            old(self).wf(),
        ensures
            final(self).wf(),
            final(self)@ == old(self)@ + data@,
    {
        hasher_update(&mut self.hasher, data);
    }

    /// The finish callback's work: fills the host-owned 32-byte output buffer
    /// in place with the digest of everything absorbed, mutating nothing, and
    /// reports success. `finish` carries no transition: the context stays
    /// ready, and repeated calls between updates write the same bytes.
    pub fn finish(&self, out: &mut Vec<u8>) -> (ok: bool)
        requires
            self.wf(),
            old(out)@.len() == DIGEST_LEN,
        ensures
            ok,
            final(out)@ == digest_spec(self@),
            final(out)@.len() == DIGEST_LEN,
    {
        hasher_finalize_into(&self.hasher, out);
        true
    }
}

/// How a descriptor is wrapped into a host-native object.
#[derive(Clone, Copy, Debug, PartialEq, Eq)]
pub enum WrapStrategy {
    /// Older hosts: construct an opaque data object directly and freeze it.
    Direct,
    /// Newer hosts: resolve the host's wrap function by name, once, and call
    /// it.
    DynamicSymbol,
}

/// The cached outcome of looking up the host's wrap function. `Resolved`
/// carries the host function's address, as the host-facing layer reported it.
#[derive(Clone, Copy, Debug, PartialEq, Eq)]
pub enum SymbolBinding {
    Unresolved,
    Resolved(usize),
}

/// Failed registration: the host's wrap symbol could not be resolved. Fatal
/// to registering the algorithm; there is no fallback.
#[derive(Clone, Copy, Debug, PartialEq, Eq)]
pub struct RegistrationError;

impl RegistrationError {
    /// The message reported when registration fails.
    pub fn message(&self) -> (r: String)
        ensures
            r@ == "Failed to resolve rb_digest_wrap_metadata"@,
    {
        String::from_str("Failed to resolve rb_digest_wrap_metadata")
    }
}

/// Picks the wrap strategy for a host release: the dynamic symbol exists from
/// release 3.4 on, older hosts take the direct construction.
pub fn select_wrap_strategy(host_major: u64, host_minor: u64) -> (s: WrapStrategy)
    ensures
        s is DynamicSymbol <==> (host_major > 3 || (host_major == 3 && host_minor > 3)),
{
    if host_major > 3 || (host_major == 3 && host_minor > 3) {
        WrapStrategy::DynamicSymbol
    } else {
        WrapStrategy::Direct
    }
}

/// One step of resolve-once caching for the wrap symbol. The host-facing
/// layer passes the address its lookup returned, `None` for a null result; a
/// binding already resolved keeps and returns its cached address, ignoring
/// the new lookup, so every caller observes the same function. A failed first
/// lookup resolves nothing and is fatal.
pub fn resolve_step(binding: &mut SymbolBinding, looked_up: Option<usize>) -> (r: Result<
    usize,
    RegistrationError,
>)
    ensures
        *old(binding) matches SymbolBinding::Resolved(p) ==> r == Ok::<usize, RegistrationError>(p)
            && *final(binding) == *old(binding),
        *old(binding) is Unresolved && looked_up is Some ==> r == Ok::<usize, RegistrationError>(
            looked_up->0,
        ) && *final(binding) == SymbolBinding::Resolved(looked_up->0),
        *old(binding) is Unresolved && looked_up is None ==> r is Err && *final(binding)
            == *old(binding),
{
    match *binding {
        SymbolBinding::Resolved(p) => Ok(p),
        SymbolBinding::Unresolved => {
            match looked_up {
                Some(p) => {
                    *binding = SymbolBinding::Resolved(p);
                    Ok(p)
                },
                None => Err(RegistrationError),
            }
        },
    }
}

} // verus!
