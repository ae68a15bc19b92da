//! What `std::path` makes of a path given as text: its components, its
//! parent, its final name.

use std::path::{Component, Path, PathBuf};
use vstd::prelude::*;

verus! {

/// A component of a path, as text.
#[derive(Clone, Debug)]
pub enum PathPart {
    /// A Windows prefix such as `C:`.
    Prefix(String),
    /// The root separator.
    RootDir,
    /// `.`
    CurDir,
    /// `..`
    ParentDir,
    /// A name.
    Normal(String),
}

/// The characters of a path component.
pub enum PartText {
    Prefix(Seq<char>),
    RootDir,
    CurDir,
    ParentDir,
    Normal(Seq<char>),
}

/// The text of a component.
pub open spec fn part_text(p: PathPart) -> PartText {
    match p {
        PathPart::Prefix(s) => PartText::Prefix(s@),
        PathPart::RootDir => PartText::RootDir,
        PathPart::CurDir => PartText::CurDir,
        PathPart::ParentDir => PartText::ParentDir,
        PathPart::Normal(s) => PartText::Normal(s@),
    }
}

/// The text of each component.
pub open spec fn parts_text(ps: Seq<PathPart>) -> Seq<PartText> {
    ps.map_values(|p: PathPart| part_text(p))
}

/// The components `Path::components` yields for a path.
pub uninterp spec fn path_parts(s: Seq<char>) -> Seq<PartText>;

/// The path `PathBuf::push` makes of a path and one more component.
pub uninterp spec fn path_pushed(base: Seq<char>, part: PartText) -> Seq<char>;

/// The parent `Path::parent` gives for a path.
pub uninterp spec fn path_parent(s: Seq<char>) -> Option<Seq<char>>;

/// The final name `Path::file_name` gives for a path.
pub uninterp spec fn path_file_name(s: Seq<char>) -> Option<Seq<char>>;

/// Splits a path into its components (`Path::components`), each converted
/// to text. Trusted: they depend on the text alone.
#[verifier::external_body]
pub(crate) fn components_of(s: &str) -> (r: Vec<PathPart>)
    ensures
        parts_text(r@) == path_parts(s@),
{
    Path::new(s).components().map(|c| match c {
        Component::Prefix(p) => PathPart::Prefix(p.as_os_str().to_string_lossy().to_string()),
        Component::RootDir => PathPart::RootDir,
        Component::CurDir => PathPart::CurDir,
        Component::ParentDir => PathPart::ParentDir,
        Component::Normal(n) => PathPart::Normal(n.to_string_lossy().to_string()),
    }).collect()
}

/// Appends a component to a path (`PathBuf::push`), as text. Trusted: the
/// result depends on the two texts alone.
#[verifier::external_body]
pub(crate) fn push_part(base: &str, part: &PathPart) -> (r: String)
    ensures
        r@ == path_pushed(base@, part_text(*part)),
{
    let mut b = PathBuf::from(base);
    match part {
        PathPart::Prefix(p) => b.push(p),
        PathPart::RootDir => b.push(std::path::MAIN_SEPARATOR_STR),
        PathPart::CurDir => b.push("."),
        PathPart::ParentDir => b.push(".."),
        PathPart::Normal(n) => b.push(n),
    }
    b.to_string_lossy().to_string()
}

/// Counts the components of a path (`Path::components`).
pub(crate) fn component_count(s: &str) -> (r: usize)
    ensures
        r as nat == path_parts(s@).len(),
{
    let parts = components_of(s);
    parts.len()
}

/// The parent of a path (`Path::parent`), as text. Trusted: it depends on
/// the text alone.
#[verifier::external_body]
pub(crate) fn parent_of(s: &str) -> (r: Option<String>)
    ensures
        match r {
            Some(p) => path_parent(s@) == Some(p@),
            None => path_parent(s@) is None,
        },
{
    Path::new(s).parent().map(|p| p.to_string_lossy().to_string())
}

/// The final name of a path (`Path::file_name`), as text. Trusted: it
/// depends on the text alone.
#[verifier::external_body]
pub(crate) fn file_name_of(s: &str) -> (r: Option<String>)
    ensures
        match r {
            Some(n) => path_file_name(s@) == Some(n@),
            None => path_file_name(s@) is None,
        },
{
    Path::new(s).file_name().map(|n| n.to_string_lossy().to_string())
}

/// The name shown for an entry: the path's final name, or the whole path
/// when it has none.
pub open spec fn display_name(path: Seq<char>) -> Seq<char> {
    match path_file_name(path) {
        Some(n) => n,
        None => path,
    }
}

/// The name shown for an entry.
pub fn entry_name(path: &str) -> (r: String)
    ensures
        r@ == display_name(path@),
{
    match file_name_of(path) {
        Some(n) => n,
        None => String::from_str(path),
    }
}

} // verus!
