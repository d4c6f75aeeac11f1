//! Which back-end warnings the front end shows to the user.

use vstd::prelude::*;
use crate::text::starts_with;

verus! {

/// Beginning of the diagnostic about falling back to another transport.
pub const TRANSPORT_FALLBACK_PREFIX: &'static str = "Falling back from WebSockets to HTTPS transport.";

/// Beginning of the diagnostic about missing model metadata.
pub const MODEL_METADATA_PREFIX: &'static str = "Model metadata for `";

/// Whether a warning is an internal diagnostic: it begins with one of the
/// hidden prefixes.
pub open spec fn is_internal_diagnostic(message: Seq<char>) -> bool {
    TRANSPORT_FALLBACK_PREFIX@.is_prefix_of(message) || MODEL_METADATA_PREFIX@.is_prefix_of(message)
}

/// A warning is hidden exactly when it begins with the transport fallback
/// notice ("Falling back from WebSockets to HTTPS transport.") or with the
/// missing model metadata notice ("Model metadata for `"); every other
/// warning, the empty one included, reaches the user.
pub proof fn lemma_hidden_exactly(message: Seq<char>)
    ensures
        is_internal_diagnostic(message) <==> ("Falling back from WebSockets to HTTPS transport."@.is_prefix_of(
            message,
        ) || "Model metadata for `"@.is_prefix_of(message)),
        !is_internal_diagnostic(Seq::<char>::empty()),
{
    reveal_strlit("Falling back from WebSockets to HTTPS transport.");
    reveal_strlit("Model metadata for `");
}

/// Whether a warning is shown to the user: every warning but the internal
/// diagnostics.
pub fn user_visible(message: &str) -> (r: bool)
    ensures
        r == !is_internal_diagnostic(message@),
{
    !(starts_with(message, TRANSPORT_FALLBACK_PREFIX) || starts_with(message, MODEL_METADATA_PREFIX))
}

} // verus!
