//! Reading desktop identification (e.g. `XDG_CURRENT_DESKTOP`) and launcher tokens.
use vstd::prelude::*;
use crate::text::{chars_of, eq_ignore_ascii_case, range_eq_ignore_ascii_case, string_of, trim, trim_range};

verus! {

/// `s[lo..hi]` is one of the `:`-separated fields of `s`.
pub open spec fn is_field(s: Seq<char>, lo: int, hi: int) -> bool {
    &&& 0 <= lo <= hi <= s.len()
    &&& (lo == 0 || s[lo - 1] == ':')
    &&& (hi == s.len() || s[hi] == ':')
    &&& forall|k: int| lo <= k < hi ==> s[k] != ':'
}

/// Some `:`-separated field of `value`, trimmed, equals `target` up to ASCII case.
pub open spec fn spec_desktop_matches(value: Seq<char>, target: Seq<char>) -> bool {
    exists|lo: int, hi: int| is_field(value, lo, hi) && eq_ignore_ascii_case(
        #[trigger] trim(value.subrange(lo, hi)),
        target,
    )
}

fn field_matches(v: &Vec<char>, lo: usize, hi: usize, t: &Vec<char>) -> (b: bool)
    requires
        lo <= hi <= v.len(),
    ensures
        b == eq_ignore_ascii_case(trim(v@.subrange(lo as int, hi as int)), t@),
{
    let (a, z) = trim_range(v, lo, hi);
    range_eq_ignore_ascii_case(v, a, z, t)
}

/// Whether a desktop identification list (`A:B:C`) names `target`, ignoring ASCII case
/// and whitespace around each entry.
pub fn desktop_matches(value: &str, target: &str) -> (b: bool)
    ensures
        b == spec_desktop_matches(value@, target@),
{
    let v = chars_of(value);
    let t = chars_of(target);
    let n = v.len();
    let mut lo: usize = 0;
    let mut i: usize = 0;
    while i < n
        invariant
            lo <= i <= n == v.len(),
            v@ == value@,
            t@ == target@,
            lo == 0 || v@[lo - 1] == ':',
            forall|k: int| lo <= k < i ==> v@[k] != ':',
            forall|l: int, h: int| is_field(v@, l, h) && h < lo ==> !eq_ignore_ascii_case(
                #[trigger] trim(v@.subrange(l, h)),
                t@,
            ),
        decreases n - i,
    {
        if v[i] == ':' {
            if field_matches(&v, lo, i, &t) {
                assert(is_field(v@, lo as int, i as int));
                return true;
            }
            assert forall|l: int, h: int| is_field(v@, l, h) && h < i + 1 implies !eq_ignore_ascii_case(
                #[trigger] trim(v@.subrange(l, h)),
                t@,
            ) by {
                if h >= lo {
                    if h < i {
                        assert(v@[h] == ':');
                    } else {
                        if l < lo {
                            assert(v@[lo - 1] == ':');
                        } else if l > lo {
                            assert(v@[l - 1] == ':');
                        }
                    }
                }
            }
            lo = i + 1;
        }
        i = i + 1;
    }
    let found = field_matches(&v, lo, n, &t);
    if found {
        assert(is_field(v@, lo as int, n as int));
    } else {
        assert forall|l: int, h: int| is_field(v@, l, h) implies !eq_ignore_ascii_case(
            #[trigger] trim(v@.subrange(l, h)),
            t@,
        ) by {
            if h >= lo {
                if h < n {
                    assert(v@[h] == ':');
                } else {
                    if l < lo {
                        assert(v@[lo - 1] == ':');
                    } else if l > lo {
                        assert(v@[l - 1] == ':');
                    }
                }
            }
        }
    }
    found
}

/// The main overlay surface goes to the overlay layer on Niri (so fullscreen windows
/// cannot cover it), as named by any of the three desktop variables.
pub fn main_surface_uses_overlay_layer_with_env(
    desktop_env: &str,
    session_env: &str,
    desktop_session: &str,
) -> (b: bool)
    ensures
        b == (spec_desktop_matches(desktop_env@, "niri"@) || spec_desktop_matches(session_env@, "niri"@)
            || spec_desktop_matches(desktop_session@, "niri"@)),
{
    desktop_matches(desktop_env, "niri") || desktop_matches(session_env, "niri") || desktop_matches(
        desktop_session,
        "niri",
    )
}

/// A launcher activation token from the environment: trimmed, and absent when empty.
pub fn startup_activation_token_from_env(value: Option<&str>) -> (token: Option<String>)
    ensures
        match value {
            None => token is None,
            Some(v) => if trim(v@).len() == 0 {
                token is None
            } else {
                token matches Some(t) && t@ == trim(v@)
            },
        },
{
    match value {
        None => None,
        Some(v) => {
            let chars = chars_of(v);
            let (a, z) = trim_range(&chars, 0, chars.len());
            assert(chars@.subrange(0, chars@.len() as int) =~= chars@);
            if a == z {
                None
            } else {
                let mut out: Vec<char> = Vec::new();
                let mut k: usize = a;
                while k < z
                    invariant
                        a <= k <= z <= chars.len(),
                        out@ == chars@.subrange(a as int, k as int),
                    decreases z - k,
                {
                    out.push(chars[k]);
                    assert(chars@.subrange(a as int, k as int).push(chars@[k as int]) =~= chars@.subrange(a as int, k + 1));
                    k = k + 1;
                }
                Some(string_of(&out))
            }
        },
    }
}


/// Where the overlay is placed, as resolved at startup.
#[derive(Debug, Clone, PartialEq, Eq)]
pub struct OutputPreferences {
    /// The output to prefer, if one is named.
    pub preferred_output_identity: Option<String>,
    /// Whether the main surface sits in the overlay layer (on niri, so fullscreen windows
    /// cannot cover it).
    pub main_surface_uses_overlay_layer: bool,
}

/// Resolves the output preferences from the environment's output override (which wins
/// over the configured one) and the desktop names in the environment.
pub fn resolve_output_preferences(
    env_output: Option<String>,
    config_output: Option<String>,
    desktop_env: &str,
    session_env: &str,
    desktop_session: &str,
) -> (p: OutputPreferences)
    ensures
        p.preferred_output_identity == if env_output is Some { env_output } else { config_output },
        p.main_surface_uses_overlay_layer == (spec_desktop_matches(desktop_env@, "niri"@)
            || spec_desktop_matches(session_env@, "niri"@) || spec_desktop_matches(desktop_session@, "niri"@)),
{
    let preferred_output_identity = match env_output {
        Some(o) => Some(o),
        None => config_output,
    };
    OutputPreferences {
        preferred_output_identity,
        main_surface_uses_overlay_layer: main_surface_uses_overlay_layer_with_env(
            desktop_env,
            session_env,
            desktop_session,
        ),
    }
}

} // verus!
