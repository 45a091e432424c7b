//! What is known about a picture: title, artist and year, taken from a
//! descriptor that sits beside the image file or, failing that, from the
//! file's own name.

use vstd::prelude::*;
use vstd::string::*;

verus! {

/// Title, artist and year of one picture.
pub struct ArtworkMetadata {
    pub title: String,
    pub artist: String,
    pub year: String,
}

/// The three fields of an [`ArtworkMetadata`] as character sequences.
#[verifier::ext_equal]
pub struct MetadataView {
    pub title: Seq<char>,
    pub artist: Seq<char>,
    pub year: Seq<char>,
}

impl View for ArtworkMetadata {
    type V = MetadataView;

    open spec fn view(&self) -> MetadataView {
        MetadataView { title: self.title@, artist: self.artist@, year: self.year@ }
    }
}

impl Clone for ArtworkMetadata {
    fn clone(&self) -> (out: Self)
        ensures
            out@ == self@,
    {
        ArtworkMetadata {
            title: self.title.clone(),
            artist: self.artist.clone(),
            year: self.year.clone(),
        }
    }
}

/// One picture found on disk: where it lies and what is known about it.
pub struct ArtworkInfo {
    pub path: String,
    pub metadata: ArtworkMetadata,
}

impl Clone for ArtworkInfo {
    fn clone(&self) -> (out: Self)
        ensures
            out.path@ == self.path@,
            out.metadata@ == self.metadata@,
    {
        ArtworkInfo { path: self.path.clone(), metadata: self.metadata.clone() }
    }
}

/// Index of the last `.` in `name`, or -1 where it has none.
pub open spec fn last_dot(name: Seq<char>) -> int
    decreases name.len(),
{
    if name.len() == 0 {
        -1
    } else if name.last() == '.' {
        name.len() - 1
    } else {
        last_dot(name.drop_last())
    }
}

/// Whether a file name splits into a stem and an extension: it has a `.`
/// that is not its first character, and it is not the parent entry `..`.
pub open spec fn has_extension(name: Seq<char>) -> bool {
    last_dot(name) > 0 && name != seq!['.', '.']
}

/// The file name without its extension.
pub open spec fn file_stem_of(name: Seq<char>) -> Seq<char> {
    if has_extension(name) {
        name.subrange(0, last_dot(name))
    } else {
        name
    }
}

/// What follows the last `.` of a file name that has an extension.
pub open spec fn extension_of(name: Seq<char>) -> Option<Seq<char>> {
    if has_extension(name) {
        Some(name.subrange(last_dot(name) + 1, name.len() as int))
    } else {
        None
    }
}

/// `c` is the lower-case letter `lower` or its upper-case form.
pub open spec fn folds_to(c: char, lower: char) -> bool {
    c == lower || ('a' <= lower <= 'z' && c as int + 32 == lower as int)
}

/// `text` spells `word`, letter case aside.
pub open spec fn spells(text: Seq<char>, word: Seq<char>) -> bool {
    text.len() == word.len() && forall|i: int|
        0 <= i < text.len() ==> folds_to(#[trigger] text[i], word[i])
}

/// The extensions of the image formats that are shown.
pub open spec fn is_image_extension(extension: Seq<char>) -> bool {
    spells(extension, "jpg"@) || spells(extension, "jpeg"@) || spells(extension, "png"@) || spells(
        extension,
        "bmp"@,
    ) || spells(extension, "gif"@)
}

/// Whether a file of this name is taken into the slideshow.
pub open spec fn is_supported_name(name: Seq<char>) -> bool {
    extension_of(name) matches Some(extension) && is_image_extension(extension)
}

/// The record that stands in where a picture has no usable descriptor.
pub open spec fn fallback_metadata(name: Seq<char>) -> MetadataView {
    MetadataView { title: file_stem_of(name), artist: "Unknown"@, year: "Unknown"@ }
}

/// The record of a picture: the descriptor's where there is one, the
/// fallback otherwise.
pub open spec fn resolved_metadata(name: Seq<char>, sidecar: Option<MetadataView>) -> MetadataView {
    match sidecar {
        Some(record) => record,
        None => fallback_metadata(name),
    }
}

/// The last dot of a name is the last dot of any prefix that holds all its dots.
proof fn lemma_last_dot_prefix(name: Seq<char>, end: int)
    requires
        0 <= end <= name.len(),
        forall|j: int| end <= j < name.len() ==> name[j] != '.',
    ensures
        last_dot(name) == last_dot(name.take(end)),
    decreases name.len() - end,
{
    if end < name.len() {
        lemma_last_dot_prefix(name.drop_last(), end);
        assert(name.drop_last().take(end) =~= name.take(end));
    } else {
        assert(name.take(end) =~= name);
    }
}

/// Finds the last `.` of a name.
fn find_last_dot(name: &str) -> (out: Option<usize>)
    ensures
        match out {
            Some(at) => at == last_dot(name@),
            None => last_dot(name@) == -1,
        },
{
    let len: usize = name.unicode_len();
    let mut end: usize = len;
    while end > 0
        invariant
            len == name@.len(),
            end <= len,
            forall|j: int| end <= j < name@.len() ==> name@[j] != '.',
        decreases end,
    {
        if name.get_char(end - 1) == '.' {
            proof {
                lemma_last_dot_prefix(name@, end as int);
            }
            return Some(end - 1);
        }
        end = end - 1;
    }
    proof {
        lemma_last_dot_prefix(name@, 0);
    }
    None
}

/// Where the extension of a name begins, if it has one: the index of the dot
/// that ends the stem.
fn split_point(name: &str) -> (out: Option<usize>)
    ensures
        out.is_some() <==> has_extension(name@),
        out matches Some(at) ==> at == last_dot(name@) && at < name@.len(),
{
    match find_last_dot(name) {
        Some(at) => {
            let parent: bool = name.unicode_len() == 2 && name.get_char(0) == '.' && name.get_char(
                1,
            ) == '.';
            assert(parent <==> name@ =~= seq!['.', '.']);
            if at > 0 && !parent {
                proof {
                    lemma_last_dot_in_range(name@);
                }
                Some(at)
            } else {
                None
            }
        },
        None => None,
    }
}

/// The last dot, where there is one, lies inside the name.
proof fn lemma_last_dot_in_range(name: Seq<char>)
    ensures
        -1 <= last_dot(name) < name.len(),
        last_dot(name) >= 0 ==> name[last_dot(name)] == '.',
    decreases name.len(),
{
    if name.len() > 0 && name.last() != '.' {
        lemma_last_dot_in_range(name.drop_last());
    }
}

/// The file name without its extension: what precedes the last `.`, or the
/// whole name where no `.` follows its first character.
pub fn file_stem(name: &str) -> (stem: String)
    ensures
        stem@ == file_stem_of(name@),
{
    match split_point(name) {
        Some(at) => String::from_str(name.substring_char(0, at)),
        None => String::from_str(name),
    }
}

/// The extension of a file name: what follows the last `.`, if the name has
/// a `.` after its first character.
pub fn extension(name: &str) -> (out: Option<String>)
    ensures
        out.is_some() <==> extension_of(name@).is_some(),
        out matches Some(text) ==> Some(text@) == extension_of(name@),
{
    match split_point(name) {
        Some(at) => {
            let len: usize = name.unicode_len();
            Some(String::from_str(name.substring_char(at + 1, len)))
        },
        None => None,
    }
}

/// Compares one character with a lower-case letter, case aside.
fn folds(c: char, lower: char) -> (out: bool)
    ensures
        out == folds_to(c, lower),
{
    c == lower || (lower >= 'a' && lower <= 'z' && c as u32 + 32 == lower as u32)
}

/// Compares a text with a lower-case word, case aside.
fn spells_word(text: &str, word: &str) -> (out: bool)
    ensures
        out == spells(text@, word@),
{
    let len: usize = text.unicode_len();
    if len != word.unicode_len() {
        return false;
    }
    let mut at: usize = 0;
    while at < len
        invariant
            len == text@.len(),
            len == word@.len(),
            at <= len,
            forall|i: int| 0 <= i < at ==> folds_to(#[trigger] text@[i], word@[i]),
        decreases len - at,
    {
        if !folds(text.get_char(at), word.get_char(at)) {
            return false;
        }
        at = at + 1;
    }
    true
}

/// Whether a file of this name is taken into the slideshow: its extension,
/// letter case aside, is one of `jpg`, `jpeg`, `png`, `bmp`, `gif`.
pub fn is_supported_image(name: &str) -> (out: bool)
    ensures
        out == is_supported_name(name@),
{
    match extension(name) {
        Some(text) => {
            let ext: &str = text.as_str();
            spells_word(ext, "jpg") || spells_word(ext, "jpeg") || spells_word(ext, "png")
                || spells_word(ext, "bmp") || spells_word(ext, "gif")
        },
        None => false,
    }
}

/// Name of the descriptor that belongs to an image file: the image's stem
/// with the extension `json`.
pub fn sidecar_name(name: &str) -> (out: String)
    ensures
        out@ == file_stem_of(name@) + ".json"@,
{
    let mut out: String = file_stem(name);
    out.append(".json");
    out
}

/// The record of a picture. A descriptor that was found and read is returned
/// as it is; without one the title is the file's stem and artist and year are
/// unknown. There is no input on which this fails.
pub fn load_metadata(name: &str, sidecar: Option<ArtworkMetadata>) -> (out: ArtworkMetadata)
    ensures
        out@ == resolved_metadata(
            name@,
            match sidecar {
                Some(record) => Some(record@),
                None => None,
            },
        ),
{
    match sidecar {
        Some(record) => record,
        None => ArtworkMetadata {
            title: file_stem(name),
            artist: String::from_str("Unknown"),
            year: String::from_str("Unknown"),
        },
    }
}

/// The two lines of the caption: title and artist joined by a dash, and the
/// year.
pub fn caption(metadata: &ArtworkMetadata) -> (lines: (String, String))
    ensures
        lines.0@ == metadata.title@ + " - "@ + metadata.artist@,
        lines.1@ == metadata.year@,
{
    let mut heading: String = metadata.title.clone();
    heading.append(" - ");
    heading.append(metadata.artist.as_str());
    (heading, metadata.year.clone())
}

} // verus!
