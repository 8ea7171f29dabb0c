//! File classification: from a file name to its extension, and from an
//! extension to the way the file's text is obtained.

use vstd::prelude::*;
use vstd::string::*;
use vstd::std_specs::iter::IteratorSpec;
use crate::text::{lemma_chars_fit_in_bytes, str_eq};

verus! {

/// How the text of a file is obtained.
#[derive(Clone, Copy, Debug, PartialEq, Eq, Structural)]
pub enum FileType {
    /// Read directly as UTF-8.
    Text,
    /// Sent to the remote model as an attached document.
    Pdf,
    /// Sent to the remote model as an inline image.
    Image,
}

/// Extensions of files that are read as plain text.
pub open spec fn is_text_extension(ext: Seq<char>) -> bool {
    ||| ext == "txt"@
    ||| ext == "md"@
    ||| ext == "rs"@
    ||| ext == "toml"@
    ||| ext == "yaml"@
    ||| ext == "yml"@
    ||| ext == "json"@
    ||| ext == "csv"@
    ||| ext == "log"@
    ||| ext == "cfg"@
    ||| ext == "ini"@
    ||| ext == "xml"@
    ||| ext == "html"@
    ||| ext == "css"@
    ||| ext == "js"@
    ||| ext == "ts"@
    ||| ext == "py"@
    ||| ext == "sh"@
    ||| ext == "bat"@
    ||| ext == "c"@
    ||| ext == "cpp"@
    ||| ext == "h"@
    ||| ext == "hpp"@
    ||| ext == "java"@
    ||| ext == "go"@
    ||| ext == "rb"@
    ||| ext == "php"@
    ||| ext == "sql"@
    ||| ext == "r"@
    ||| ext == "swift"@
    ||| ext == "kt"@
    ||| ext == "scala"@
    ||| ext == "tex"@
    ||| ext == "rtf"@
}

/// Extensions of files that are handed to the remote model as images.
pub open spec fn is_image_extension(ext: Seq<char>) -> bool {
    ||| ext == "jpg"@
    ||| ext == "jpeg"@
    ||| ext == "png"@
    ||| ext == "webp"@
    ||| ext == "gif"@
    ||| ext == "bmp"@
    ||| ext == "tiff"@
    ||| ext == "tif"@
}

/// Extensions for which some extraction strategy exists.
pub open spec fn is_supported_extension(ext: Seq<char>) -> bool {
    ext == "pdf"@ || is_image_extension(ext) || is_text_extension(ext)
}

/// The strategy for an extension that is already in lower case.
pub open spec fn strategy_for(ext: Seq<char>) -> Option<FileType> {
    if ext == "pdf"@ {
        Some(FileType::Pdf)
    } else if is_image_extension(ext) {
        Some(FileType::Image)
    } else if is_text_extension(ext) {
        Some(FileType::Text)
    } else {
        None
    }
}

/// The lower-case equivalent of a string, as `str::to_lowercase` gives it.
pub uninterp spec fn lowercase(s: Seq<char>) -> Seq<char>;

/// Calls `str::to_lowercase`. The contract gives the result the name
/// [`lowercase`] and claims nothing else of it: the conversion follows the
/// Unicode tables and depends on the input alone.
#[verifier::external_body]
pub(crate) fn to_lowercase(s: &str) -> (lower: String)
    ensures
        lower@ == lowercase(s@),
{
    s.to_lowercase()
}

fn text_extension(ext: &str) -> (found: bool)
    ensures
        found == is_text_extension(ext@),
{
    str_eq(ext, "txt")
        || str_eq(ext, "md")
        || str_eq(ext, "rs")
        || str_eq(ext, "toml")
        || str_eq(ext, "yaml")
        || str_eq(ext, "yml")
        || str_eq(ext, "json")
        || str_eq(ext, "csv")
        || str_eq(ext, "log")
        || str_eq(ext, "cfg")
        || str_eq(ext, "ini")
        || str_eq(ext, "xml")
        || str_eq(ext, "html")
        || str_eq(ext, "css")
        || str_eq(ext, "js")
        || str_eq(ext, "ts")
        || str_eq(ext, "py")
        || str_eq(ext, "sh")
        || str_eq(ext, "bat")
        || str_eq(ext, "c")
        || str_eq(ext, "cpp")
        || str_eq(ext, "h")
        || str_eq(ext, "hpp")
        || str_eq(ext, "java")
        || str_eq(ext, "go")
        || str_eq(ext, "rb")
        || str_eq(ext, "php")
        || str_eq(ext, "sql")
        || str_eq(ext, "r")
        || str_eq(ext, "swift")
        || str_eq(ext, "kt")
        || str_eq(ext, "scala")
        || str_eq(ext, "tex")
        || str_eq(ext, "rtf")
}

fn image_extension(ext: &str) -> (found: bool)
    ensures
        found == is_image_extension(ext@),
{
    str_eq(ext, "jpg")
        || str_eq(ext, "jpeg")
        || str_eq(ext, "png")
        || str_eq(ext, "webp")
        || str_eq(ext, "gif")
        || str_eq(ext, "bmp")
        || str_eq(ext, "tiff")
        || str_eq(ext, "tif")
}

/// Classifies an extension that is already in lower case.
pub fn classify_normalized(ext: &str) -> (kind: Option<FileType>)
    ensures
        kind == strategy_for(ext@),
{
    if str_eq(ext, "pdf") {
        Some(FileType::Pdf)
    } else if image_extension(ext) {
        Some(FileType::Image)
    } else if text_extension(ext) {
        Some(FileType::Text)
    } else {
        None
    }
}

/// Classifies a file by its extension, whatever its case.
pub fn classify_file(ext: &str) -> (kind: Option<FileType>)
    ensures
        kind == strategy_for(lowercase(ext@)),
{
    let lower = to_lowercase(ext);
    classify_normalized(lower.as_str())
}

/// Every supported extension has exactly one strategy, and no other
/// extension has any: the three families of extensions do not overlap.
pub proof fn lemma_classification_partitions(ext: Seq<char>)
    ensures
        strategy_for(ext) is Some <==> is_supported_extension(ext),
        strategy_for(ext) == Some(FileType::Pdf) <==> ext == "pdf"@,
        strategy_for(ext) == Some(FileType::Image) <==> is_image_extension(ext),
        strategy_for(ext) == Some(FileType::Text) <==> is_text_extension(ext),
{
    broadcast use vstd::string::group_string_axioms;

    reveal_strlit("pdf");
    reveal_strlit("jpg");
    reveal_strlit("jpeg");
    reveal_strlit("png");
    reveal_strlit("webp");
    reveal_strlit("gif");
    reveal_strlit("bmp");
    reveal_strlit("tiff");
    reveal_strlit("tif");
    assert(is_image_extension(ext) ==> spelling(ext) != spelling("pdf"@));
    if is_text_extension(ext) {
        lemma_text_extension_is_no_other(ext);
    }
}

/// The length and the first three characters of an extension, which tell
/// any two of the known extensions apart.
pub open spec fn spelling(ext: Seq<char>) -> (nat, char, char, char) {
    (ext.len(), ext[0], ext[1], ext[2])
}

proof fn lemma_text_extension_is_no_other(ext: Seq<char>)
    requires
        is_text_extension(ext),
    ensures
        ext != "pdf"@,
        !is_image_extension(ext),
{
    broadcast use vstd::string::group_string_axioms;

    reveal_strlit("pdf");
    reveal_strlit("jpg");
    reveal_strlit("jpeg");
    reveal_strlit("png");
    reveal_strlit("webp");
    reveal_strlit("gif");
    reveal_strlit("bmp");
    reveal_strlit("tiff");
    reveal_strlit("tif");
    reveal_strlit("txt");
    reveal_strlit("md");
    reveal_strlit("rs");
    reveal_strlit("toml");
    reveal_strlit("yaml");
    reveal_strlit("yml");
    reveal_strlit("json");
    reveal_strlit("csv");
    reveal_strlit("log");
    reveal_strlit("cfg");
    reveal_strlit("ini");
    reveal_strlit("xml");
    reveal_strlit("html");
    reveal_strlit("css");
    reveal_strlit("js");
    reveal_strlit("ts");
    reveal_strlit("py");
    reveal_strlit("sh");
    reveal_strlit("bat");
    reveal_strlit("c");
    reveal_strlit("cpp");
    reveal_strlit("h");
    reveal_strlit("hpp");
    reveal_strlit("java");
    reveal_strlit("go");
    reveal_strlit("rb");
    reveal_strlit("php");
    reveal_strlit("sql");
    reveal_strlit("r");
    reveal_strlit("swift");
    reveal_strlit("kt");
    reveal_strlit("scala");
    reveal_strlit("tex");
    reveal_strlit("rtf");
    assert(spelling(ext) != spelling("pdf"@));
}

/// Two spellings of an extension that agree once case is removed have the
/// same strategy.
pub proof fn lemma_classification_ignores_case(a: Seq<char>, b: Seq<char>)
    requires
        lowercase(a) == lowercase(b),
    ensures
        strategy_for(lowercase(a)) == strategy_for(lowercase(b)),
{
}

/// The MIME type announced for an image with the given lower-case
/// extension; an extension outside the table is announced as JPEG.
pub open spec fn image_mime(ext: Seq<char>) -> Seq<char> {
    if ext == "jpg"@ || ext == "jpeg"@ {
        "image/jpeg"@
    } else if ext == "png"@ {
        "image/png"@
    } else if ext == "webp"@ {
        "image/webp"@
    } else if ext == "gif"@ {
        "image/gif"@
    } else if ext == "bmp"@ {
        "image/bmp"@
    } else if ext == "tiff"@ || ext == "tif"@ {
        "image/tiff"@
    } else {
        "image/jpeg"@
    }
}

/// Returns the MIME type for a given image file extension.
pub fn mime_type_for_image(ext: &str) -> (mime: &'static str)
    ensures
        mime@ == image_mime(ext@),
{
    if str_eq(ext, "jpg") || str_eq(ext, "jpeg") {
        "image/jpeg"
    } else if str_eq(ext, "png") {
        "image/png"
    } else if str_eq(ext, "webp") {
        "image/webp"
    } else if str_eq(ext, "gif") {
        "image/gif"
    } else if str_eq(ext, "bmp") {
        "image/bmp"
    } else if str_eq(ext, "tiff") || str_eq(ext, "tif") {
        "image/tiff"
    } else {
        "image/jpeg"
    }
}

/// The position of the last `.` in `s`, or `-1` where it holds none.
pub open spec fn last_dot(s: Seq<char>) -> int
    decreases s.len(),
{
    if s.len() == 0 {
        -1
    } else if s.last() == '.' {
        s.len() - 1
    } else {
        last_dot(s.drop_last())
    }
}

/// The extension of a file name: what follows its last `.`, unless the
/// name has no `.`, has its only `.` in front, or is the parent entry `..`.
pub open spec fn extension(name: Seq<char>) -> Option<Seq<char>> {
    let dot = last_dot(name);
    if dot <= 0 || name == seq!['.', '.'] {
        None
    } else {
        Some(name.skip(dot + 1))
    }
}

/// Returns the extension of a file name, in the case it was written in.
pub fn extension_of(name: &str) -> (ext: Option<&str>)
    ensures
        ext is Some <==> extension(name@) is Some,
        ext is Some ==> ext.unwrap()@ == extension(name@).unwrap(),
{
    broadcast use vstd::string::group_string_axioms;

    // The byte length, a machine word, bounds the number of characters.
    let byte_len = name.as_bytes().len();
    let ghost total = name@.len();
    proof {
        lemma_chars_fit_in_bytes(name@);
        assert(total <= byte_len);
    }
    let mut it = name.chars();
    let mut seen: usize = 0;
    let mut dot: Option<usize> = None;
    let mut only_dots = true;
    loop
        invariant
            total == name@.len(),
            total <= usize::MAX,
            seen <= total,
            it.obeys_prophetic_iter_laws(),
            it.decrease() is Some,
            it.remaining() == name@.skip(seen as int),
            dot is None <==> last_dot(name@.take(seen as int)) == -1,
            dot is Some ==> dot.unwrap() == last_dot(name@.take(seen as int)),
            only_dots <==> (forall|j: int| 0 <= j < seen ==> name@[j] == '.'),
        ensures
            seen == total,
            dot is None <==> last_dot(name@) == -1,
            dot is Some ==> dot.unwrap() == last_dot(name@),
            dot is Some ==> dot.unwrap() < total,
            only_dots <==> (forall|j: int| 0 <= j < total ==> name@[j] == '.'),
        decreases total - seen,
    {
        match it.next() {
            Some(c) => {
                assert(c == name@[seen as int]);
                assert(it.remaining() =~= name@.skip(seen as int + 1));
                proof {
                    let grown = name@.take(seen as int + 1);
                    assert(grown.last() == c);
                    assert(grown.drop_last() =~= name@.take(seen as int));
                }
                if c == '.' {
                    dot = Some(seen);
                } else {
                    only_dots = false;
                }
                seen += 1;
            },
            None => {
                assert(seen == total);
                assert(name@.take(seen as int) =~= name@);
                proof {
                    lemma_last_dot_in_range(name@);
                }
                break ;
            },
        }
    }
    let parent_entry = only_dots && seen == 2;
    proof {
        if parent_entry {
            assert(name@ =~= seq!['.', '.']);
        }
        if name@ == seq!['.', '.'] {
            assert(name@.len() == 2);
            assert(name@[0] == '.' && name@[1] == '.');
        }
    }
    match dot {
        Some(at) => {
            if at == 0 || parent_entry {
                None
            } else {
                Some(name.substring_char(at + 1, seen))
            }
        },
        None => None,
    }
}

/// The last `.` lies inside the string.
pub proof fn lemma_last_dot_in_range(s: Seq<char>)
    ensures
        -1 <= last_dot(s) < s.len(),
        last_dot(s) >= 0 ==> s[last_dot(s)] == '.',
        forall|j: int| last_dot(s) < j < s.len() ==> s[j] != '.',
    decreases s.len(),
{
    if s.len() > 0 && s.last() != '.' {
        let front = s.drop_last();
        lemma_last_dot_in_range(front);
        assert forall|j: int| last_dot(s) < j < s.len() implies s[j] != '.' by {
            if j < front.len() {
                assert(front[j] == s[j]);
            }
        }
    }
}

} // verus!
