//! Checks made on a path before any of its bytes are read.
use vstd::prelude::*;

use crate::error::IoError;

verus! {

/// The extension of the file name at `path`, without its dot, as
/// `std::path::Path::extension` finds it.
pub uninterp spec fn extension_of(path: Seq<char>) -> Option<Seq<char>>;

/// Relies on `std::path::Path::extension` to split the extension off the
/// file name; the text is handed back unchanged.
#[verifier::external_body]
fn path_extension(path: &str) -> (r: Option<String>)
    ensures
        r is Some <==> extension_of(path@) is Some,
        r matches Some(e) ==> extension_of(path@) == Some(e@),
{
    std::path::Path::new(path).extension().map(|e| e.to_string_lossy().into_owned())
}

pub open spec fn is_ascii_upper(c: char) -> bool {
    'A' <= c && c <= 'Z'
}

/// Two characters are equal once ASCII capitals are turned into small letters.
pub open spec fn char_eq_ignore_case(a: char, b: char) -> bool {
    a == b || (is_ascii_upper(a) && b as u32 == a as u32 + 32) || (is_ascii_upper(b) && a
        as u32 == b as u32 + 32)
}

/// Two texts are equal once ASCII capitals are turned into small letters.
pub open spec fn eq_ignore_case(a: Seq<char>, b: Seq<char>) -> bool {
    a.len() == b.len() && forall|i: int| 0 <= i < a.len() ==> char_eq_ignore_case(#[trigger] a[i], b[i])
}

/// The extension of `path` is, ignoring ASCII case, one of `allowed`.
pub open spec fn extension_allowed(path: Seq<char>, allowed: Seq<Seq<char>>) -> bool {
    match extension_of(path) {
        Some(e) => exists|k: int| 0 <= k < allowed.len() && eq_ignore_case(e, #[trigger] allowed[k]),
        None => false,
    }
}

/// The extensions that a JPEG file may carry.
pub open spec fn jpeg_extensions() -> Seq<Seq<char>> {
    seq!["jpg"@, "jpeg"@]
}

/// A file whose extension is `png`, in any case, is never taken for a JPEG
/// file, so a JPEG read of it stops at the extension check.
pub proof fn lemma_png_is_not_jpeg(path: Seq<char>)
    requires
        extension_of(path) matches Some(e) && eq_ignore_case(e, "png"@),
    ensures
        !extension_allowed(path, jpeg_extensions()),
{
    reveal_strlit("png");
    reveal_strlit("jpg");
    reveal_strlit("jpeg");
    let e = extension_of(path)->0;
    let allowed = jpeg_extensions();
    assert forall|k: int| 0 <= k < allowed.len() implies !eq_ignore_case(e, #[trigger] allowed[k]) by {
        if k == 0 {
            assert(char_eq_ignore_case(e[0], 'p'));
            assert(!char_eq_ignore_case(e[0], 'j'));
        }
    }
}

fn char_eq_ignore_ascii_case(a: char, b: char) -> (r: bool)
    ensures
        r == char_eq_ignore_case(a, b),
{
    if a == b {
        true
    } else if 'A' <= a && a <= 'Z' {
        (b as u32) == (a as u32) + 32
    } else if 'A' <= b && b <= 'Z' {
        (a as u32) == (b as u32) + 32
    } else {
        false
    }
}

/// Compares two texts, ignoring ASCII case.
pub fn str_eq_ignore_ascii_case(a: &str, b: &str) -> (r: bool)
    ensures
        r == eq_ignore_case(a@, b@),
{
    let n = a.unicode_len();
    if n != b.unicode_len() {
        return false;
    }
    let mut i: usize = 0;
    while i < n
        invariant
            n == a@.len() == b@.len(),
            i <= n,
            forall|j: int| 0 <= j < i ==> char_eq_ignore_case(#[trigger] a@[j], b@[j]),
        decreases n - i,
    {
        if !char_eq_ignore_ascii_case(a.get_char(i), b.get_char(i)) {
            return false;
        }
        i = i + 1;
    }
    true
}

/// Tells whether the extension of `path` is one of `allowed`, ignoring ASCII
/// case; a path without an extension has none of them.
pub fn has_extension_in(path: &str, allowed: &[&str]) -> (r: bool)
    ensures
        r == extension_allowed(path@, allowed@.map_values(|s: &str| s@)),
{
    let ghost allowed_text = allowed@.map_values(|s: &str| s@);
    let ext = match path_extension(path) {
        Some(e) => e,
        None => return false,
    };
    let mut k: usize = 0;
    while k < allowed.len()
        invariant
            k <= allowed@.len(),
            allowed_text == allowed@.map_values(|s: &str| s@),
            extension_of(path@) == Some(ext@),
            forall|j: int| 0 <= j < k ==> !eq_ignore_case(ext@, #[trigger] allowed_text[j]),
        decreases allowed@.len() - k,
    {
        if str_eq_ignore_ascii_case(ext.as_str(), allowed[k]) {
            assert(eq_ignore_case(ext@, allowed_text[k as int]));
            return true;
        }
        k = k + 1;
    }
    false
}

/// Checks a path before it is read: the file must exist and, where
/// `allowed` is given, carry one of those extensions (ignoring ASCII case).
/// A missing file is reported before a wrong extension.
pub fn validate_path(path: &str, exists: bool, allowed: Option<&[&str]>) -> (r: Result<(), IoError>)
    ensures
        !exists <==> r matches Err(IoError::FileDoesNotExist(p)),
        r matches Err(IoError::FileDoesNotExist(p)) ==> p@ == path@,
        exists ==> (r matches Err(IoError::InvalidFileExtension(p)) <==> (allowed matches Some(a)
            && !extension_allowed(path@, a@.map_values(|s: &str| s@)))),
        r matches Err(IoError::InvalidFileExtension(p)) ==> p@ == path@,
        r is Ok || r matches Err(IoError::FileDoesNotExist(_)) || r matches Err(
            IoError::InvalidFileExtension(_),
        ),
{
    if !exists {
        return Err(IoError::FileDoesNotExist(path.to_string()));
    }
    match allowed {
        Some(a) => {
            if !has_extension_in(path, a) {
                return Err(IoError::InvalidFileExtension(path.to_string()));
            }
        },
        None => {},
    }
    Ok(())
}

/// Checks a path that a JPEG read is given: it must exist and end in `.jpg`
/// or `.jpeg`, in any ASCII case.
pub fn validate_jpeg_path(path: &str, exists: bool) -> (r: Result<(), IoError>)
    ensures
        !exists <==> r matches Err(IoError::FileDoesNotExist(p)),
        r matches Err(IoError::FileDoesNotExist(p)) ==> p@ == path@,
        exists ==> (r matches Err(IoError::InvalidFileExtension(p)) <==> !extension_allowed(
            path@,
            jpeg_extensions(),
        )),
        r matches Err(IoError::InvalidFileExtension(p)) ==> p@ == path@,
        r is Ok || r matches Err(IoError::FileDoesNotExist(_)) || r matches Err(
            IoError::InvalidFileExtension(_),
        ),
{
    let allowed: [&str; 2] = ["jpg", "jpeg"];
    let r = validate_path(path, exists, Some(allowed.as_slice()));
    proof {
        assert(allowed@.map_values(|s: &str| s@) =~= jpeg_extensions());
    }
    r
}

} // verus!
