//! The artwork gateway's decisions: reference validation, the allowed-root
//! policy, and content sniffing. The reference is untrusted input from an
//! external process, so the served content type comes from the bytes alone,
//! never from an extension or a claimed type.

use vstd::prelude::*;

verus! {

use vstd::utf8::{decode_utf8, valid_utf8};
use crate::text::{chars_of, is_space, is_space_char};

/// Why an artwork request was rejected.
#[derive(Clone, Copy, Debug, PartialEq, Eq, Structural)]
pub enum ArtError {
    /// The reference is not shaped as a local-file reference.
    InvalidReference,
    /// The resolved path lies outside the allowed root.
    PathNotAllowed,
    /// The file does not exist or cannot be read.
    NotFound,
    /// The bytes are not of an image family.
    UnsupportedMediaType,
}

/// A reference shaped as a local-file reference: it begins `file://`.
pub open spec fn has_file_scheme(s: Seq<char>) -> bool {
    s.len() >= 7 && s[0] == 'f' && s[1] == 'i' && s[2] == 'l' && s[3] == 'e' && s[4] == ':' && s[5]
        == '/' && s[6] == '/'
}

/// Executable test for `has_file_scheme`.
pub fn is_file_reference(src: &str) -> (r: bool)
    ensures
        r == has_file_scheme(src@),
{
    let cs = chars_of(src);
    if cs.len() < 7 {
        return false;
    }
    cs[0] == 'f' && cs[1] == 'i' && cs[2] == 'l' && cs[3] == 'e' && cs[4] == ':' && cs[5] == '/'
        && cs[6] == '/'
}

/// The local path the URL library decodes from a reference: nothing when
/// the reference does not parse as a URL, names a remote host, or does not
/// decode to text. On one platform it is a function of the reference alone,
/// so it is only named here, not described.
pub uninterp spec fn file_path_of(s: Seq<char>) -> Option<Seq<char>>;

/// Relies on `url::Url::parse` and `url::Url::to_file_path`: the local
/// path a reference denotes, as text.
#[verifier::external_body]
fn decode_file_reference(src: &str) -> (r: Option<String>)
    ensures
        (r is Some) == (file_path_of(src@) is Some),
        r matches Option::Some(p) ==> Option::Some(p@) == file_path_of(src@),
{
    match url::Url::parse(src) {
        Ok(u) => match u.to_file_path() {
            Ok(p) => p.into_os_string().into_string().ok(),
            Err(()) => None,
        },
        Err(_) => None,
    }
}

/// Turns an artwork reference into the local path it denotes, as text.
/// Only a reference shaped `file://…` is considered at all; a shaped one
/// resolves exactly when the URL library decodes a local path from it, and
/// every rejection is `InvalidReference`.
pub fn resolve_reference(src: &str) -> (r: Result<String, ArtError>)
    ensures
        !has_file_scheme(src@) ==> r == Err::<String, _>(ArtError::InvalidReference),
        has_file_scheme(src@) ==> match file_path_of(src@) {
            Option::Some(p) => r matches Ok(q) && q@ == p,
            Option::None => r == Err::<String, _>(ArtError::InvalidReference),
        },
        r is Err ==> r == Err::<String, _>(ArtError::InvalidReference),
{
    if !is_file_reference(src) {
        return Err(ArtError::InvalidReference);
    }
    match decode_file_reference(src) {
        Option::Some(p) => Ok(p),
        Option::None => Err(ArtError::InvalidReference),
    }
}

/// Whether a canonical path lies under the allowed root: with no root
/// configured everything is allowed; otherwise the path must be the root
/// itself or continue it immediately below a path separator.
pub open spec fn path_allowed_spec(path: Seq<char>, root: Option<Seq<char>>) -> bool {
    match root {
        Option::None => true,
        Option::Some(rt) => path == rt || (rt.is_prefix_of(path) && path.len() > rt.len() && path[
            rt.len() as int
        ] == '/'),
    }
}

fn chars_prefix(path: &Vec<char>, prefix: &Vec<char>) -> (r: bool)
    ensures
        r == prefix@.is_prefix_of(path@),
{
    if prefix.len() > path.len() {
        return false;
    }
    let mut i: usize = 0;
    while i < prefix.len()
        invariant
            0 <= i <= prefix@.len() <= path@.len(),
            forall|j: int| 0 <= j < i ==> path@[j] == prefix@[j],
        decreases prefix@.len() - i,
    {
        if path[i] != prefix[i] {
            proof {
                assert(path@.subrange(0, prefix@.len() as int)[i as int] != prefix@[i as int]);
            }
            return false;
        }
        i = i + 1;
    }
    proof {
        assert(path@.subrange(0, prefix@.len() as int) =~= prefix@);
    }
    true
}

/// The allowed-root policy check on a canonical path.
pub fn path_allowed(path: &str, root: Option<&str>) -> (r: bool)
    ensures
        r == path_allowed_spec(path@, root.deep_view()),
{
    match root {
        Option::None => true,
        Option::Some(rt) => {
            let pc = chars_of(path);
            let rc = chars_of(rt);
            if !chars_prefix(&pc, &rc) {
                proof {
                    assert(path@ != rt@) by {
                        if path@ == rt@ {
                            assert(path@.subrange(0, rt@.len() as int) =~= rt@);
                        }
                    }
                }
                false
            } else if pc.len() == rc.len() {
                proof {
                    assert(path@ =~= rt@);
                }
                true
            } else {
                pc[rc.len()] == '/'
            }
        },
    }
}

/// Leading whitespace of a text, as trimming removes it.
pub open spec fn ws_count(s: Seq<char>) -> int
    decreases s.len(),
{
    if s.len() == 0 {
        0
    } else if is_space_char(s[0]) {
        1 + ws_count(s.drop_first())
    } else {
        0
    }
}

/// The text with its leading whitespace trimmed.
pub open spec fn trimmed_start(s: Seq<char>) -> Seq<char> {
    s.skip(ws_count(s))
}

/// An `<svg` tag opens at position `i`.
pub open spec fn svg_tag_at(s: Seq<char>, i: int) -> bool {
    0 <= i && i + 4 <= s.len() && s[i] == '<' && s[i + 1] == 's' && s[i + 2] == 'v' && s[i + 3]
        == 'g'
}

/// The text opens with an XML declaration.
pub open spec fn xml_prefix(s: Seq<char>) -> bool {
    s.len() >= 5 && s[0] == '<' && s[1] == '?' && s[2] == 'x' && s[3] == 'm' && s[4] == 'l'
}

/// An `<svg` tag opens somewhere in the text.
pub open spec fn contains_svg_tag(s: Seq<char>) -> bool {
    exists|i: int| svg_tag_at(s, i)
}

/// Vector-markup content: after trimming, the text opens with an `<svg`
/// tag, or opens with an XML declaration and carries an `<svg` tag.
pub open spec fn svg_markup_text(s: Seq<char>) -> bool {
    let t = trimmed_start(s);
    svg_tag_at(t, 0) || (xml_prefix(t) && contains_svg_tag(t))
}

/// Vector-markup bytes: well-formed UTF-8 whose text is vector markup.
pub open spec fn svg_markup_bytes(bytes: Seq<u8>) -> bool {
    valid_utf8(bytes) && svg_markup_text(decode_utf8(bytes))
}

proof fn lemma_ws_count_at(s: Seq<char>, i: int)
    requires
        0 <= i <= s.len(),
        forall|j: int| 0 <= j < i ==> is_space_char(s[j]),
        i < s.len() ==> !is_space_char(s[i]),
    ensures
        ws_count(s) == i,
    decreases i,
{
    if i == 0 {
    } else {
        assert(forall|j: int|
            0 <= j < i - 1 ==> is_space_char(s.drop_first()[j]) == is_space_char(s[j + 1]));
        lemma_ws_count_at(s.drop_first(), i - 1);
    }
}

fn svg_tag_at_exec(cs: &Vec<char>, i: usize) -> (r: bool)
    requires
        i <= cs@.len(),
    ensures
        r == svg_tag_at(cs@, i as int),
{
    if cs.len() - i < 4 {
        return false;
    }
    cs[i] == '<' && cs[i + 1] == 's' && cs[i + 2] == 'v' && cs[i + 3] == 'g'
}

/// Executable test for `svg_markup_text`.
pub fn svg_text_check(s: &str) -> (r: bool)
    ensures
        r == svg_markup_text(s@),
{
    let cs = chars_of(s);
    let n = cs.len();
    let mut start: usize = 0;
    while start < n && is_space(cs[start])
        invariant
            0 <= start <= n,
            n == cs@.len(),
            cs@ == s@,
            forall|j: int| 0 <= j < start ==> is_space_char(s@[j]),
        decreases n - start,
    {
        start = start + 1;
    }
    proof {
        lemma_ws_count_at(s@, start as int);
    }
    let ghost t = trimmed_start(s@);
    proof {
        assert(t =~= s@.skip(start as int));
    }
    if svg_tag_at_exec(&cs, start) {
        proof {
            assert(svg_tag_at(t, 0));
        }
        return true;
    }
    proof {
        assert(!svg_tag_at(t, 0));
    }
    let xml_here = n - start >= 5 && cs[start] == '<' && cs[start + 1] == '?' && cs[start + 2]
        == 'x' && cs[start + 3] == 'm' && cs[start + 4] == 'l';
    proof {
        assert(xml_here == xml_prefix(t));
    }
    if !xml_here {
        return false;
    }
    let mut i: usize = start;
    while i < n
        invariant
            start <= i <= n,
            n == cs@.len(),
            cs@ == s@,
            t == trimmed_start(s@),
            t =~= s@.skip(start as int),
            xml_prefix(t),
            forall|k: int| 0 <= k < i - start ==> !svg_tag_at(t, k),
        decreases n - i,
    {
        if svg_tag_at_exec(&cs, i) {
            proof {
                assert(svg_tag_at(t, i - start as int));
            }
            return true;
        }
        proof {
            assert(!svg_tag_at(t, i - start as int));
        }
        i = i + 1;
    }
    proof {
        assert(forall|k: int| !svg_tag_at(t, k) || 0 <= k < n - start);
        assert(!contains_svg_tag(t));
    }
    false
}

/// Relies on `core::str::from_utf8`: succeeds exactly on well-formed UTF-8
/// and yields the characters it encodes.
#[verifier::external_body]
fn utf8_str(bytes: &[u8]) -> (r: Option<&str>)
    ensures
        (r is Some) == valid_utf8(bytes@),
        r matches Option::Some(s) ==> s@ == decode_utf8(bytes@),
{
    core::str::from_utf8(bytes).ok()
}

/// The textual fallback of content sniffing: the vector-markup content
/// type for bytes that are vector markup, nothing otherwise.
pub fn detect_svg_mime(bytes: &[u8]) -> (r: Option<&'static str>)
    ensures
        (r is Some) == svg_markup_bytes(bytes@),
        r matches Option::Some(m) ==> m@ == "image/svg+xml"@,
{
    match utf8_str(bytes) {
        Option::Some(s) => {
            if svg_text_check(s) {
                Option::Some("image/svg+xml")
            } else {
                Option::None
            }
        },
        Option::None => Option::None,
    }
}

/// The media type `infer` sniffs from a byte signature. It is a function of
/// the bytes alone, so it is only named here, not described.
pub uninterp spec fn inferred_mime(bytes: Seq<u8>) -> Option<Seq<char>>;

/// The PNG signature: the eight bytes every PNG stream opens with.
pub open spec fn is_png_signature(b: Seq<u8>) -> bool {
    b.len() >= 8 && b[0] == 0x89 && b[1] == 0x50 && b[2] == 0x4e && b[3] == 0x47 && b[4] == 0x0d
        && b[5] == 0x0a && b[6] == 0x1a && b[7] == 0x0a
}

/// The e-book mark the sniffer tests before any image signature:
/// `BOOKMOBI` at byte 60.
pub open spec fn has_mobi_mark(b: Seq<u8>) -> bool {
    b.len() > 67 && b[60] == 0x42 && b[61] == 0x4f && b[62] == 0x4f && b[63] == 0x4b && b[64]
        == 0x4d && b[65] == 0x4f && b[66] == 0x42 && b[67] == 0x49
}

/// What the signature table promises of PNG-signature bytes: they sniff as
/// `image/png`, unless they also carry the e-book mark, the one matcher
/// tested earlier that such bytes can satisfy.
pub open spec fn png_sniff_fact(bytes: Seq<u8>, r: Option<&'static str>) -> bool {
    is_png_signature(bytes) && !has_mobi_mark(bytes) ==> (r matches Option::Some(m) && m@
        == "image/png"@)
}

/// Relies on `infer::get` and `infer::Type::mime_type`: the media type
/// sniffed from the byte signature alone. Of the fixed matcher table only
/// the one short fact `png_sniff_fact` is stated.
#[verifier::external_body]
fn sniff_mime(bytes: &[u8]) -> (r: Option<&'static str>)
    ensures
        (r is Some) == (inferred_mime(bytes@) is Some),
        r matches Option::Some(m) ==> Option::Some(m@) == inferred_mime(bytes@),
        png_sniff_fact(bytes@, r),
{
    match infer::get(bytes) {
        Some(t) => Some(t.mime_type()),
        None => None,
    }
}

/// A media type of the image family: it begins `image/`.
pub open spec fn is_image_mime(m: Seq<char>) -> bool {
    m.len() >= 6 && m[0] == 'i' && m[1] == 'm' && m[2] == 'a' && m[3] == 'g' && m[4] == 'e' && m[5]
        == '/'
}

/// Executable test for `is_image_mime`.
pub fn image_mime_check(m: &str) -> (r: bool)
    ensures
        r == is_image_mime(m@),
{
    let cs = chars_of(m);
    if cs.len() < 6 {
        return false;
    }
    cs[0] == 'i' && cs[1] == 'm' && cs[2] == 'a' && cs[3] == 'g' && cs[4] == 'e' && cs[5] == '/'
}

/// The vector-markup half of the classification.
pub open spec fn svg_mime_result(bytes: Seq<u8>) -> Option<Seq<char>> {
    if svg_markup_bytes(bytes) {
        Option::Some("image/svg+xml"@)
    } else {
        Option::None
    }
}

/// The verified content type of artwork bytes: the sniffed signature type
/// when it is of the image family; otherwise the vector-markup check
/// decides; anything else is no image.
pub open spec fn image_mime_spec(bytes: Seq<u8>) -> Option<Seq<char>> {
    match inferred_mime(bytes) {
        Option::Some(m) => if is_image_mime(m) {
            Option::Some(m)
        } else {
            svg_mime_result(bytes)
        },
        Option::None => svg_mime_result(bytes),
    }
}

/// Sniffs the content type of artwork bytes from their signature, with the
/// vector-markup fallback for inconclusive signatures. Bytes opening with
/// the PNG signature are PNG, whatever a reference's extension claims —
/// classification never sees a name — except bytes also carrying the
/// e-book mark, which the signature table reports first.
pub fn detect_image_mime(bytes: &[u8]) -> (r: Option<&'static str>)
    ensures
        (r is Some) == (image_mime_spec(bytes@) is Some),
        r matches Option::Some(m) ==> Option::Some(m@) == image_mime_spec(bytes@),
        is_png_signature(bytes@) && !has_mobi_mark(bytes@) ==> (r matches Option::Some(m) && m@
            == "image/png"@),
{
    match sniff_mime(bytes) {
        Option::Some(m) => {
            proof {
                reveal_strlit("image/png");
            }
            if image_mime_check(m) {
                Option::Some(m)
            } else {
                detect_svg_mime(bytes)
            }
        },
        Option::None => detect_svg_mime(bytes),
    }
}

/// Classifies artwork bytes for serving: their true content type, from the
/// byte signature or the vector-markup fallback; bytes of no image family
/// are rejected as unsupported.
pub fn classify_artwork(bytes: &[u8]) -> (r: Result<&'static str, ArtError>)
    ensures
        (r is Ok) == (image_mime_spec(bytes@) is Some),
        r matches Ok(m) ==> Option::Some(m@) == image_mime_spec(bytes@),
        r is Err ==> r == Err::<&'static str, _>(ArtError::UnsupportedMediaType),
        is_png_signature(bytes@) && !has_mobi_mark(bytes@) ==> (r matches Ok(m) && m@
            == "image/png"@),
{
    match detect_image_mime(bytes) {
        Option::Some(m) => Ok(m),
        Option::None => Err(ArtError::UnsupportedMediaType),
    }
}

} // verus!
