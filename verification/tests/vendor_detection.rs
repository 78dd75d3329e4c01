use web_painter::negotiate::ApiVersion;
use web_painter::str_contains;
use web_painter::vendor::is_safari_and_webkit_gtk;
use web_painter::vendor::shader_prefix;
use web_painter::vendor::webgl1_requires_brightening;

const GTK_UA: &str = "Mozilla/5.0 (X11; Linux x86_64) AppleWebKit/605.1.15 (KHTML, like Gecko)";
const MAC_UA: &str =
    "Mozilla/5.0 (Macintosh; Intel Mac OS X 10_15_7) AppleWebKit/605.1.15 (KHTML, like Gecko)";

#[test]
fn substring_search_basics() {
    assert!(str_contains("hello world", "o wor"));
    assert!(str_contains("hello", ""));
    assert!(str_contains("", ""));
    assert!(!str_contains("", "a"));
    assert!(!str_contains("abc", "abcd"));
    assert!(str_contains("abcd", "abcd"));
    assert!(str_contains("ababc", "abc"));
    assert!(!str_contains("Apple GPU", "apple"));
}

#[test]
fn no_debug_extension_means_no_workaround() {
    // Whatever the user-agent and renderer say, a host without the
    // debug-renderer extension never gets the workaround.
    assert!(!is_safari_and_webkit_gtk(false, Some("Apple GPU")));
    assert!(!webgl1_requires_brightening(GTK_UA, false, Some("Apple GPU")));
    assert_eq!(shader_prefix(ApiVersion::Legacy, GTK_UA, false, Some("Apple GPU")), "");
}

#[test]
fn mac_user_agent_is_never_brightened() {
    assert!(!webgl1_requires_brightening(MAC_UA, true, Some("Apple GPU")));
    assert_eq!(shader_prefix(ApiVersion::Legacy, MAC_UA, true, Some("Apple GPU")), "");
}

#[test]
fn vendor_renderer_off_mac_is_brightened() {
    assert!(is_safari_and_webkit_gtk(true, Some("Apple GPU")));
    assert!(webgl1_requires_brightening(GTK_UA, true, Some("Apple GPU")));
    assert_eq!(
        shader_prefix(ApiVersion::Legacy, GTK_UA, true, Some("Apple GPU")),
        "#define APPLY_BRIGHTENING_GAMMA"
    );
}

#[test]
fn other_renderer_is_not_brightened() {
    assert!(!is_safari_and_webkit_gtk(true, Some("NVIDIA GeForce RTX 3060")));
    assert_eq!(shader_prefix(ApiVersion::Legacy, GTK_UA, true, Some("NVIDIA GeForce RTX 3060")), "");
}

#[test]
fn unreadable_renderer_is_not_brightened() {
    assert!(!is_safari_and_webkit_gtk(true, None));
    assert_eq!(shader_prefix(ApiVersion::Legacy, GTK_UA, true, None), "");
}

#[test]
fn modern_context_has_empty_prefix() {
    // Even on a host that would trigger the legacy workaround.
    assert_eq!(shader_prefix(ApiVersion::Modern, GTK_UA, true, Some("Apple GPU")), "");
}
