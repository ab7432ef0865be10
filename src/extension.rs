use vstd::prelude::*;

use crate::text::same_text;

verus! {

/// What `Path::extension` yields for a path, read as text.
pub uninterp spec fn extension_of(path: Seq<char>) -> Option<Seq<char>>;

/// What `str::to_lowercase` yields for a string.
pub uninterp spec fn lowercase_of(s: Seq<char>) -> Seq<char>;

/// Every character of `s` is ASCII.
pub open spec fn all_ascii(s: Seq<char>) -> bool {
    forall|i: int| 0 <= i < s.len() ==> (s[i] as int) < 128
}

/// The ASCII lowercase of one character, as a code point.
pub open spec fn ascii_lower_code(c: char) -> int {
    if 'A' <= c && c <= 'Z' {
        c as int + 32
    } else {
        c as int
    }
}

/// `lower` is `s` with each ASCII capital letter replaced by its small letter.
pub open spec fn is_ascii_lowering(s: Seq<char>, lower: Seq<char>) -> bool {
    &&& lower.len() == s.len()
    &&& forall|i: int| 0 <= i < s.len() ==> lower[i] as int == ascii_lower_code(s[i])
}

/// The extensions handed to the installer tool, compared exactly as written.
pub open spec fn is_seven_zip_family(ext: Seq<char>) -> bool {
    ||| ext == "gz"@
    ||| ext == "tar"@
    ||| ext == "tgz"@
    ||| ext == "lzma"@
    ||| ext == "bz"@
    ||| ext == "bz2"@
    ||| ext == "7z"@
    ||| ext == "rar"@
    ||| ext == "iso"@
    ||| ext == "xz"@
    ||| ext == "lzh"@
    ||| ext == "nupkg"@
}

/// The format of an archive, as decided from a file extension.
#[derive(Clone, Debug, PartialEq, Eq)]
pub enum Extension {
    Zip,
    Msi,
    SevenZipFamily,
    Unsupported(String),
    Unknown,
}

/// The mathematical value of an [`Extension`].
pub enum ExtensionModel {
    Zip,
    Msi,
    SevenZipFamily,
    Unsupported(Seq<char>),
    Unknown,
}

impl View for Extension {
    type V = ExtensionModel;

    open spec fn view(&self) -> ExtensionModel {
        match self {
            Extension::Zip => ExtensionModel::Zip,
            Extension::Msi => ExtensionModel::Msi,
            Extension::SevenZipFamily => ExtensionModel::SevenZipFamily,
            Extension::Unsupported(s) => ExtensionModel::Unsupported(s@),
            Extension::Unknown => ExtensionModel::Unknown,
        }
    }
}

/// Classification of an extension `ext` whose lowercase form is `lowered`.
/// `zip` and `msi` are matched on the lowercase form; the installer family is
/// matched on the extension as written, so `TAR` is not one of its members.
pub open spec fn classify(ext: Seq<char>, lowered: Seq<char>) -> ExtensionModel {
    if lowered == "zip"@ {
        ExtensionModel::Zip
    } else if lowered == "msi"@ {
        ExtensionModel::Msi
    } else if is_seven_zip_family(ext) {
        ExtensionModel::SevenZipFamily
    } else {
        ExtensionModel::Unsupported(ext)
    }
}

/// Classification of a path: `Unknown` without an extension, else by the extension.
pub open spec fn classify_path(path: Seq<char>) -> ExtensionModel {
    match extension_of(path) {
        None => ExtensionModel::Unknown,
        Some(ext) => classify(ext, lowercase_of(ext)),
    }
}

/// Relies on `std::path::Path::extension`: the text after the final `.` of the
/// file name, `None` where the file name has no such part. The input is text,
/// so the extension converts to text without loss.
#[verifier::external_body]
fn path_extension(path: &str) -> (r: Option<String>)
    ensures
        r.deep_view() == extension_of(path@),
{
    std::path::Path::new(path).extension().map(|e| e.to_string_lossy().into_owned())
}

/// Relies on `str::to_lowercase`: the Unicode lowercase of the characters, a
/// function of them alone. Unicode lowercases `A`..`Z` to `a`..`z` and leaves
/// every other ASCII character as it is, so an ASCII string gets its ASCII
/// lowercase.
#[verifier::external_body]
fn to_lowercase(s: &str) -> (r: String)
    ensures
        r@ == lowercase_of(s@),
        all_ascii(s@) ==> is_ascii_lowering(s@, r@),
{
    s.to_lowercase()
}

/// Tells whether `ext` is, exactly as written, one of the installer family.
fn in_seven_zip_family(ext: &str) -> (r: bool)
    ensures
        r == is_seven_zip_family(ext@),
{
    same_text(ext, "gz")
        || same_text(ext, "tar")
        || same_text(ext, "tgz")
        || same_text(ext, "lzma")
        || same_text(ext, "bz")
        || same_text(ext, "bz2")
        || same_text(ext, "7z")
        || same_text(ext, "rar")
        || same_text(ext, "iso")
        || same_text(ext, "xz")
        || same_text(ext, "lzh")
        || same_text(ext, "nupkg")
}

/// Lowering is a function: one string has one ASCII lowercase form.
proof fn lemma_lowering_unique(s: Seq<char>, a: Seq<char>, b: Seq<char>)
    requires
        is_ascii_lowering(s, a),
        is_ascii_lowering(s, b),
    ensures
        a == b,
{
    assert forall|i: int| 0 <= i < s.len() implies a[i] == b[i] by {
        assert(a[i] as int == ascii_lower_code(s[i]));
        assert(b[i] as int == ascii_lower_code(s[i]));
    }
    assert(a =~= b);
}

/// A string whose ASCII lowering is ASCII is itself ASCII.
proof fn lemma_ascii_source(s: Seq<char>, lower: Seq<char>)
    requires
        is_ascii_lowering(s, lower),
        all_ascii(lower),
    ensures
        all_ascii(s),
{
    assert forall|i: int| 0 <= i < s.len() implies (s[i] as int) < 128 by {
        assert(lower[i] as int == ascii_lower_code(s[i]));
    }
}

/// `zip`, `msi` and the installer family are ASCII words without capital
/// letters, and no two of `zip`, `msi` and a member of the family are equal.
proof fn lemma_family_is_plain_ascii()
    ensures
        all_ascii("zip"@),
        all_ascii("msi"@),
        "zip"@ != "msi"@,
        forall|l: Seq<char>| #[trigger] is_seven_zip_family(l) ==> all_ascii(l),
        forall|l: Seq<char>| #[trigger] is_seven_zip_family(l) ==> is_ascii_lowering(l, l),
        !is_seven_zip_family("zip"@),
        !is_seven_zip_family("msi"@),
{
    reveal_strlit("zip");
    reveal_strlit("msi");
    reveal_strlit("gz");
    reveal_strlit("tar");
    reveal_strlit("tgz");
    reveal_strlit("lzma");
    reveal_strlit("bz");
    reveal_strlit("bz2");
    reveal_strlit("7z");
    reveal_strlit("rar");
    reveal_strlit("iso");
    reveal_strlit("xz");
    reveal_strlit("lzh");
    reveal_strlit("nupkg");
    assert("zip"@[0] != "msi"@[0]);
    assert("zip"@[0] != "tar"@[0] && "msi"@[0] != "tar"@[0]);
    assert("zip"@[0] != "tgz"@[0] && "msi"@[0] != "tgz"@[0]);
    assert("zip"@[0] != "bz2"@[0] && "msi"@[0] != "bz2"@[0]);
    assert("zip"@[0] != "rar"@[0] && "msi"@[0] != "rar"@[0]);
    assert("zip"@[0] != "iso"@[0] && "msi"@[0] != "iso"@[0]);
    assert("zip"@[0] != "lzh"@[0] && "msi"@[0] != "lzh"@[0]);
}

impl Extension {
    /// Classifies `path` by its extension.
    pub fn from_path(path: &str) -> (r: Self)
        ensures
            r@ == classify_path(path@),
            extension_of(path@) is None ==> r is Unknown,
            extension_of(path@) matches Some(e) && is_ascii_lowering(e, "zip"@) ==> r is Zip,
            extension_of(path@) matches Some(e) && is_ascii_lowering(e, "msi"@) ==> r is Msi,
            extension_of(path@) matches Some(e) && is_seven_zip_family(e) ==> r is SevenZipFamily,
            forall|e: Seq<char>, l: Seq<char>|
                extension_of(path@) == Some(e) && #[trigger] is_ascii_lowering(e, l)
                    && is_seven_zip_family(l) && !is_seven_zip_family(e) ==> r@
                    == ExtensionModel::Unsupported(e),
    {
        match path_extension(path) {
            Some(ext) => Self::from_extension(ext.as_str()),
            None => Extension::Unknown,
        }
    }

    /// Classifies an extension, given without its leading dot.
    /// `zip` and `msi` are recognised in any mix of capital and small letters;
    /// the installer family only as written in small letters.
    pub fn from_extension(ext: &str) -> (r: Self)
        ensures
            r@ == classify(ext@, lowercase_of(ext@)),
            is_ascii_lowering(ext@, "zip"@) ==> r is Zip,
            is_ascii_lowering(ext@, "msi"@) ==> r is Msi,
            is_seven_zip_family(ext@) ==> r is SevenZipFamily,
            forall|l: Seq<char>|
                #[trigger] is_ascii_lowering(ext@, l) && is_seven_zip_family(l)
                    && !is_seven_zip_family(ext@) ==> r@ == ExtensionModel::Unsupported(ext@),
    {
        let lowered = to_lowercase(ext);
        proof {
            lemma_family_is_plain_ascii();
            if is_ascii_lowering(ext@, "zip"@) {
                lemma_ascii_source(ext@, "zip"@);
                lemma_lowering_unique(ext@, "zip"@, lowered@);
            }
            if is_ascii_lowering(ext@, "msi"@) {
                lemma_ascii_source(ext@, "msi"@);
                lemma_lowering_unique(ext@, "msi"@, lowered@);
            }
            assert forall|l: Seq<char>|
                #[trigger] is_ascii_lowering(ext@, l) && is_seven_zip_family(l) implies lowered@
                == l by {
                lemma_ascii_source(ext@, l);
                lemma_lowering_unique(ext@, l, lowered@);
            }
        }
        Self::from_lowered(ext, lowered.as_str())
    }

    /// Classifies an extension `ext` whose lowercase form is `lowered`.
    pub fn from_lowered(ext: &str, lowered: &str) -> (r: Self)
        ensures
            r@ == classify(ext@, lowered@),
    {
        if same_text(lowered, "zip") {
            Extension::Zip
        } else if same_text(lowered, "msi") {
            Extension::Msi
        } else if in_seven_zip_family(ext) {
            Extension::SevenZipFamily
        } else {
            Extension::Unsupported(ext.to_owned())
        }
    }
}

} // verus!
