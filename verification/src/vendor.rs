//! The vendor-defect heuristic for legacy contexts: decides, from the
//! browser's user-agent string and the unmasked renderer name, whether the
//! brightening workaround must be compiled into the shaders, and yields the
//! shader prefix for each API version.
//!
//! The heuristic is a pure function of plain values; the shell around this
//! crate reads the user-agent string and the debug-renderer extension from
//! the host and passes them in.

use vstd::prelude::*;

use crate::negotiate::ApiVersion;
use crate::text::contains_seq;
use crate::text::str_contains;

verus! {

/// The user-agent token of the desktop platform on which the workaround is
/// never applied.
pub open spec fn platform_token() -> Seq<char> {
    "Mac OS X"@
}

/// The GPU-vendor token that marks the problematic rendering engine.
pub open spec fn vendor_token() -> Seq<char> {
    "Apple"@
}

/// The preprocessor directive that enables the brightening code path in the
/// shaders.
pub open spec fn brightening_directive() -> Seq<char> {
    "#define APPLY_BRIGHTENING_GAMMA"@
}

/// The view of an optional renderer name.
pub open spec fn renderer_view(renderer: Option<&str>) -> Option<Seq<char>> {
    match renderer {
        Some(r) => Some(r@),
        None => None,
    }
}

/// The host reports the problematic rendering engine: the debug-renderer
/// extension is present and the unmasked renderer name mentions the vendor
/// token. A missing extension or an unreadable renderer name means no.
pub open spec fn renderer_is_vendor_defect(
    debug_ext_present: bool,
    renderer: Option<Seq<char>>,
) -> bool {
    debug_ext_present && match renderer {
        Some(r) => contains_seq(r, vendor_token()),
        None => false,
    }
}

/// Decide from the debug-renderer extension and the unmasked renderer name
/// whether the host runs the problematic rendering engine.
///
/// `renderer` is the unmasked renderer name, or `None` when the extension is
/// absent or the name could not be read as a string.
pub fn is_safari_and_webkit_gtk(debug_ext_present: bool, renderer: Option<&str>) -> (r: bool)
    ensures
        r == renderer_is_vendor_defect(debug_ext_present, renderer_view(renderer)),
{
    if !debug_ext_present {
        return false;
    }
    match renderer {
        Some(name) => str_contains(name, "Apple"),
        None => false,
    }
}

/// The brightening workaround is required: the user-agent does not mention
/// the excluded desktop platform, and the renderer marks the problematic
/// engine.
pub open spec fn brightening_required(
    user_agent: Seq<char>,
    debug_ext_present: bool,
    renderer: Option<Seq<char>>,
) -> bool {
    !contains_seq(user_agent, platform_token()) && renderer_is_vendor_defect(
        debug_ext_present,
        renderer,
    )
}

/// Decide from the user-agent string, the debug-renderer extension and the
/// unmasked renderer name whether a legacy context needs the brightening
/// workaround.
pub fn webgl1_requires_brightening(
    user_agent: &str,
    debug_ext_present: bool,
    renderer: Option<&str>,
) -> (r: bool)
    ensures
        r == brightening_required(user_agent@, debug_ext_present, renderer_view(renderer)),
{
    !str_contains(user_agent, "Mac OS X") && is_safari_and_webkit_gtk(debug_ext_present, renderer)
}

/// The shader prefix of a legacy context: the brightening directive when the
/// workaround is required, otherwise empty.
pub open spec fn legacy_prefix(
    user_agent: Seq<char>,
    debug_ext_present: bool,
    renderer: Option<Seq<char>>,
) -> Seq<char> {
    if brightening_required(user_agent, debug_ext_present, renderer) {
        brightening_directive()
    } else {
        ""@
    }
}

/// The shader prefix of a context of the given version: always empty for a
/// modern context, the legacy rule otherwise.
pub open spec fn prefix_for(
    version: ApiVersion,
    user_agent: Seq<char>,
    debug_ext_present: bool,
    renderer: Option<Seq<char>>,
) -> Seq<char> {
    match version {
        ApiVersion::Modern => ""@,
        ApiVersion::Legacy => legacy_prefix(user_agent, debug_ext_present, renderer),
    }
}

/// The shader prefix to prepend to every shader compiled for a context of
/// the given version.
pub fn shader_prefix(
    version: ApiVersion,
    user_agent: &str,
    debug_ext_present: bool,
    renderer: Option<&str>,
) -> (r: &'static str)
    ensures
        r@ == prefix_for(version, user_agent@, debug_ext_present, renderer_view(renderer)),
{
    match version {
        ApiVersion::Modern => "",
        ApiVersion::Legacy => {
            if webgl1_requires_brightening(user_agent, debug_ext_present, renderer) {
                "#define APPLY_BRIGHTENING_GAMMA"
            } else {
                ""
            }
        },
    }
}

/// Law: without the debug-renderer extension the legacy branch always yields
/// the empty prefix, whatever the user-agent and renderer name say.
pub proof fn lemma_no_debug_ext_no_brightening(user_agent: Seq<char>, renderer: Option<Seq<char>>)
    ensures
        legacy_prefix(user_agent, false, renderer) == ""@,
{
}

/// Law: when the user-agent mentions the excluded desktop platform, the
/// brightening workaround is never applied, even for a vendor-marked
/// renderer.
pub proof fn lemma_platform_excluded(
    user_agent: Seq<char>,
    debug_ext_present: bool,
    renderer: Option<Seq<char>>,
)
    requires
        contains_seq(user_agent, platform_token()),
    ensures
        legacy_prefix(user_agent, debug_ext_present, renderer) == ""@,
{
}

/// Law: when the user-agent does not mention the excluded platform and the
/// unmasked renderer name mentions the vendor token, the legacy prefix is
/// the brightening directive.
pub proof fn lemma_vendor_defect_brightened(
    user_agent: Seq<char>,
    renderer_name: Seq<char>,
)
    requires
        !contains_seq(user_agent, platform_token()),
        contains_seq(renderer_name, vendor_token()),
    ensures
        legacy_prefix(user_agent, true, Some(renderer_name)) == brightening_directive(),
{
}

/// Law: a modern context never carries a shader prefix.
pub proof fn lemma_modern_prefix_empty(
    user_agent: Seq<char>,
    debug_ext_present: bool,
    renderer: Option<Seq<char>>,
)
    ensures
        prefix_for(ApiVersion::Modern, user_agent, debug_ext_present, renderer) == ""@,
{
}

} // verus!
