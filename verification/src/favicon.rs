//! Favicon planning: each theme owes a 16x16 solid-color icon at a path
//! deterministic in the theme id. The plan lists exactly the icons whose
//! file does not exist yet; writing them is the caller's I/O step.

use vstd::prelude::*;
use vstd::string::StringSliceAdditionalSpecFns;
use crate::kvmap::KvMap;
use crate::page::Theme;
use crate::errors::SiteError;

verus! {

/// One hex digit as a byte of ASCII.
pub open spec fn is_hex_digit(b: u8) -> bool {
    (48 <= b <= 57) || (97 <= b <= 102) || (65 <= b <= 70)
}

/// Value of one hex digit.
pub open spec fn hex_val(b: u8) -> u8 {
    if 48 <= b <= 57 {
        (b - 48) as u8
    } else if 97 <= b <= 102 {
        (b - 87) as u8
    } else {
        (b - 55) as u8
    }
}

/// A byte string that hex-decodes cleanly: even length, digits only.
pub open spec fn valid_hex(s: Seq<u8>) -> bool {
    &&& s.len() % 2 == 0
    &&& forall|i: int| 0 <= i < s.len() ==> is_hex_digit(s[i])
}

/// The bytes a hex string decodes to, high digit first.
pub open spec fn hex_bytes(s: Seq<u8>) -> Seq<u8> {
    Seq::new(s.len() / 2, |i: int| (hex_val(s[2 * i]) * 16 + hex_val(s[2 * i + 1])) as u8)
}

/// Relies on hex::decode: succeeds exactly on even-length all-hex-digit
/// input, and then byte `i` of the result is the value of digits `2i` and
/// `2i+1`, high first; upper and lower case are both accepted.
#[verifier::external_body]
fn hex_decode(data: &[u8]) -> (r: Option<Vec<u8>>)
    ensures
        r matches Some(b) ==> valid_hex(data@) && b@ == hex_bytes(data@),
        r is None ==> !valid_hex(data@),
{
    match hex::decode(data) {
        Ok(v) => Some(v),
        Err(_) => None,
    }
}

/// The color string with every `#` removed, over its bytes.
pub open spec fn strip_hash(s: Seq<u8>) -> Seq<u8>
    decreases s.len(),
{
    if s.len() == 0 {
        Seq::empty()
    } else if s.last() == 35 {
        strip_hash(s.drop_last())
    } else {
        strip_hash(s.drop_last()).push(s.last())
    }
}

/// A well-formed color: after removing `#`, six hex digits.
pub open spec fn color_ok(color: Seq<u8>) -> bool {
    valid_hex(strip_hash(color)) && strip_hash(color).len() == 6
}

/// The three RGB bytes a well-formed color decodes to.
pub open spec fn rgb_of(color: Seq<u8>) -> Seq<u8> {
    hex_bytes(strip_hash(color))
}

/// Decode a theme's hex color string into its three RGB bytes. A color is
/// accepted exactly when, `#` signs removed, it is six hex digits.
pub fn parse_color(color: &str) -> (r: Result<[u8; 3], SiteError>)
    ensures
        r matches Ok(rgb) ==> color_ok(color.spec_bytes()) && rgb@ == rgb_of(
            color.spec_bytes(),
        ),
        r matches Err(e) ==> !color_ok(color.spec_bytes()) && e is ConfigInvalid,
{
    let bytes: &[u8] = color.as_bytes();
    let n = bytes.len();
    let mut filtered: Vec<u8> = Vec::new();
    let mut i: usize = 0;
    while i < n
        invariant
            n == bytes@.len(),
            i <= n,
            filtered@ == strip_hash(bytes@.take(i as int)),
        decreases n - i,
    {
        proof {
            assert(bytes@.take(i + 1).drop_last() == bytes@.take(i as int));
            assert(bytes@.take(i + 1).last() == bytes@[i as int]);
        }
        if bytes[i] != 35 {
            filtered.push(bytes[i]);
        }
        i += 1;
    }
    proof {
        assert(bytes@.take(n as int) == bytes@);
    }
    match hex_decode(filtered.as_slice()) {
        Some(decoded) => {
            if decoded.len() == 3 {
                Ok([decoded[0], decoded[1], decoded[2]])
            } else {
                Err(SiteError::ConfigInvalid("color is not three bytes of hex".to_owned()))
            }
        },
        None => Err(SiteError::ConfigInvalid("color is not valid hex".to_owned())),
    }
}

/// The deterministic favicon path of a theme id.
pub open spec fn favicon_path_of(id: Seq<char>) -> Seq<char> {
    "static/favicons/default_"@ + id + ".ico"@
}

/// Build the deterministic favicon path of a theme id.
pub fn favicon_path(id: &str) -> (r: String)
    ensures
        r@ == favicon_path_of(id@),
{
    let mut s: String = "static/favicons/default_".to_owned();
    s.append(id);
    s.append(".ico");
    s
}

/// The 16x16 canvas as raw bytes: 256 pixels of the three RGB bytes.
pub open spec fn pixels_ok(pixels: Seq<u8>, rgb: Seq<u8>) -> bool {
    &&& pixels.len() == 768
    &&& rgb.len() == 3
    &&& forall|i: int| 0 <= i < 768 ==> pixels[i] == rgb[i % 3]
}

/// Fill every pixel of a 16x16 canvas with one RGB color.
pub fn favicon_pixels(rgb: &[u8; 3]) -> (r: Vec<u8>)
    ensures
        pixels_ok(r@, rgb@),
{
    let mut out: Vec<u8> = Vec::new();
    let mut p: usize = 0;
    while p < 256
        invariant
            p <= 256,
            out@.len() == 3 * p,
            forall|i: int| 0 <= i < out@.len() ==> out@[i] == rgb@[i % 3],
        decreases 256 - p,
    {
        out.push(rgb[0]);
        out.push(rgb[1]);
        out.push(rgb[2]);
        p += 1;
    }
    out
}

/// One icon that still has to be written: its target path, its color and
/// its raw 16x16 pixel buffer.
pub struct FaviconJob {
    pub path: String,
    pub rgb: [u8; 3],
    pub pixels: Vec<u8>,
}

/// Whether some string in `ex` reads `p`.
pub open spec fn path_present(ex: Seq<String>, p: Seq<char>) -> bool {
    exists|i: int| 0 <= i < ex.len() && ex[i]@ == p
}

/// `job` is the icon owed to the theme `(id, t)`.
pub open spec fn job_for(job: FaviconJob, id: Seq<char>, t: Theme) -> bool {
    &&& job.path@ == favicon_path_of(id)
    &&& color_ok(theme_color_bytes(t)) ==> job.rgb@ == rgb_of(theme_color_bytes(t))
    &&& pixels_ok(job.pixels@, job.rgb@)
}

/// Does a path occur in the list of already-existing files?
fn contains_path(ex: &Vec<String>, p: &str) -> (r: bool)
    ensures
        r == path_present(ex@, p@),
{
    let n = ex.len();
    let mut i: usize = 0;
    while i < n
        invariant
            n == ex@.len(),
            i <= n,
            forall|j: int| 0 <= j < i ==> ex@[j]@ != p@,
        decreases n - i,
    {
        if crate::kvmap::str_eq(ex[i].as_str(), p) {
            return true;
        }
        i += 1;
    }
    false
}

/// The UTF-8 bytes of a theme's color string.
pub open spec fn theme_color_bytes(t: Theme) -> Seq<u8> {
    vstd::utf8::encode_utf8(t.color@)
}

/// The themes whose icon is missing, as (id, theme) pairs in registry
/// order: the plan a favicon pass must execute.
pub open spec fn spec_plan(themes: KvMap<Theme>, ex: Seq<String>, n: int) -> Seq<(Seq<char>, Theme)>
    decreases n,
{
    if n <= 0 {
        Seq::empty()
    } else {
        let rest = spec_plan(themes, ex, n - 1);
        if !path_present(ex, favicon_path_of(themes.key_at(n - 1))) {
            rest.push((themes.key_at(n - 1), themes.val_at(n - 1)))
        } else {
            rest
        }
    }
}

/// Plan the favicon generation pass: succeed exactly when every theme's
/// color is well formed, with one job per theme whose icon does not exist
/// yet, in registry order; a theme whose icon already exists is skipped.
pub fn mkfavicons_plan(themes: &KvMap<Theme>, existing: &Vec<String>) -> (r: Result<
    Vec<FaviconJob>,
    SiteError,
>)
    requires
        themes.wf(),
    ensures
        r matches Ok(jobs) ==> {
            let plan = spec_plan(*themes, existing@, themes.spec_len() as int);
            &&& jobs@.len() == plan.len()
            &&& forall|j: int|
                0 <= j < plan.len() ==> job_for(#[trigger] jobs@[j], plan[j].0, plan[j].1)
            &&& forall|i: int|
                0 <= i < themes.spec_len() ==> #[trigger] color_ok(
                    theme_color_bytes(themes.val_at(i)),
                )
        },
        r matches Err(e) ==> e is ConfigInvalid && exists|i: int|
            0 <= i < themes.spec_len() && !color_ok(#[trigger] theme_color_bytes(themes.val_at(i))),
{
    let n = themes.len();
    let mut jobs: Vec<FaviconJob> = Vec::new();
    let mut i: usize = 0;
    while i < n
        invariant
            themes.wf(),
            n == themes.spec_len(),
            i <= n,
            forall|k: int|
                0 <= k < i ==> #[trigger] color_ok(theme_color_bytes(themes.val_at(k))),
            jobs@.len() == spec_plan(*themes, existing@, i as int).len(),
            forall|j: int|
                0 <= j < jobs@.len() ==> job_for(
                    #[trigger] jobs@[j],
                    spec_plan(*themes, existing@, i as int)[j].0,
                    spec_plan(*themes, existing@, i as int)[j].1,
                ),
        decreases n - i,
    {
        let id = themes.key_idx(i);
        let theme = themes.val_idx(i);
        let rgb = match parse_color(theme.color.as_str()) {
            Ok(rgb) => rgb,
            Err(e) => {
                proof {
                    assert(!color_ok(theme_color_bytes(themes.val_at(i as int))));
                }
                return Err(e);
            },
        };
        let path = favicon_path(id.as_str());
        let ghost ii = i as int;
        if !contains_path(existing, path.as_str()) {
            let pixels = favicon_pixels(&rgb);
            let job = FaviconJob { path, rgb, pixels };
            proof {
                assert(job_for(job, themes.key_at(ii), themes.val_at(ii)));
                assert(spec_plan(*themes, existing@, ii + 1) == spec_plan(
                    *themes,
                    existing@,
                    ii,
                ).push((themes.key_at(ii), themes.val_at(ii))));
            }
            jobs.push(job);
        } else {
            proof {
                assert(spec_plan(*themes, existing@, ii + 1) == spec_plan(*themes, existing@, ii));
            }
        }
        i += 1;
    }
    Ok(jobs)
}

/// Favicon generation is idempotent: when every theme's icon already
/// exists, the plan writes nothing.
pub proof fn lemma_favicon_idempotent(themes: KvMap<Theme>, ex: Seq<String>, n: int)
    requires
        0 <= n <= themes.spec_len(),
        forall|i: int|
            0 <= i < themes.spec_len() ==> path_present(
                ex,
                favicon_path_of(#[trigger] themes.key_at(i)),
            ),
    ensures
        spec_plan(themes, ex, n).len() == 0,
    decreases n,
{
    if n > 0 {
        lemma_favicon_idempotent(themes, ex, n - 1);
    }
}

/// Every theme whose icon is missing gets a job: the deterministic path,
/// the theme's decoded accent color, and a canvas of that color.
pub proof fn lemma_favicon_covers(themes: KvMap<Theme>, ex: Seq<String>, n: int, i: int)
    requires
        0 <= i < n <= themes.spec_len(),
        !path_present(ex, favicon_path_of(themes.key_at(i))),
    ensures
        exists|j: int|
            0 <= j < spec_plan(themes, ex, n).len() && #[trigger] spec_plan(themes, ex, n)[j] == (
                themes.key_at(i),
                themes.val_at(i),
            ),
    decreases n,
{
    if i == n - 1 {
        let plan = spec_plan(themes, ex, n);
        assert(plan[plan.len() - 1] == (themes.key_at(i), themes.val_at(i)));
    } else {
        lemma_favicon_covers(themes, ex, n - 1, i);
        let j0 = choose|j: int|
            0 <= j < spec_plan(themes, ex, n - 1).len() && #[trigger] spec_plan(themes, ex, n - 1)[j]
                == (themes.key_at(i), themes.val_at(i));
        assert(spec_plan(themes, ex, n)[j0] == (themes.key_at(i), themes.val_at(i)));
    }
}

} // verus!
