//! The rules of moving and copying paths: which requests are accepted, when
//! a destination is refused or replaced, and the space a copy needs.

use vstd::prelude::*;
use crate::error::AppError;
use crate::middleware::validation::{
    host_path_check, path_rejection_code, path_rejection_has_status, path_rejection_message,
    validate_file_path_on, Rejection,
};
use crate::paths::{components_of, part_text, parts_text, path_parts, PartText, PathPart};
use crate::text::{chars_of, concat, concat3, dec, string_of, trim, trimmed, u64_string};
use crate::types::MovePathRequest;

verus! {

/// Why a move request was refused: an application error, or a path the
/// path validation rejected (answered with its own response).
#[derive(Clone, Debug)]
pub enum MoveRefusal {
    Error(AppError),
    Rejected(Rejection),
}

/// The code of a character with ASCII capitals taken as lowercase.
pub open spec fn lower_code(c: char) -> u32 {
    if 'A' <= c && c <= 'Z' {
        ((c as u32) + 32) as u32
    } else {
        c as u32
    }
}

/// Whether two texts are equal when ASCII letters are compared without case.
pub open spec fn eq_ignore_ascii_case(a: Seq<char>, b: Seq<char>) -> bool {
    a.len() == b.len() && forall|i: int| 0 <= i < a.len() ==> lower_code(#[trigger] a[i])
        == lower_code(b[i])
}

fn lower(c: char) -> (r: u32)
    ensures
        r == lower_code(c),
{
    if 'A' <= c && c <= 'Z' {
        (c as u32) + 32
    } else {
        c as u32
    }
}

fn eq_ignore_case_exec(a: &Vec<char>, b: &Vec<char>) -> (r: bool)
    ensures
        r == eq_ignore_ascii_case(a@, b@),
{
    if a.len() != b.len() {
        return false;
    }
    let mut i: usize = 0;
    while i < a.len()
        invariant
            a.len() == b.len(),
            i <= a.len(),
            forall|k: int| 0 <= k < i ==> lower_code(#[trigger] a@[k]) == lower_code(b@[k]),
        decreases a.len() - i,
    {
        if lower(a[i]) != lower(b[i]) {
            return false;
        }
        i += 1;
    }
    true
}

/// Checks a move request: both paths, trimmed, must be non-empty and pass
/// the host's path validation (`windows` saying whether it runs Windows), and they must differ beyond ASCII case. The accepted
/// trimmed paths are returned.
pub fn check_move_request(req: &MovePathRequest, windows: bool) -> (r: Result<(String, String), MoveRefusal>)
    ensures
        ({
            let s = trimmed(req.source@);
            let d = trimmed(req.destination@);
            if s.len() == 0 {
                r matches Err(MoveRefusal::Error(AppError::BadRequest(m))) && m@
                    == "source path must not be empty"@
            } else if d.len() == 0 {
                r matches Err(MoveRefusal::Error(AppError::BadRequest(m))) && m@
                    == "destination path must not be empty"@
            } else if !(host_path_check(s, windows) is Valid) {
                r matches Err(MoveRefusal::Rejected(e)) && e.status == 400 && e.code@
                    == path_rejection_code(host_path_check(s, windows)) && e.message@ == path_rejection_message(
                    host_path_check(s, windows),
                ) && e.body_has_status == path_rejection_has_status(host_path_check(s, windows))
            } else if !(host_path_check(d, windows) is Valid) {
                r matches Err(MoveRefusal::Rejected(e)) && e.status == 400 && e.code@
                    == path_rejection_code(host_path_check(d, windows)) && e.message@ == path_rejection_message(
                    host_path_check(d, windows),
                ) && e.body_has_status == path_rejection_has_status(host_path_check(d, windows))
            } else if eq_ignore_ascii_case(s, d) {
                r matches Err(MoveRefusal::Error(AppError::BadRequest(m))) && m@
                    == "source and destination must be different"@
            } else {
                r matches Ok((a, b)) && a@ == s && b@ == d
            }
        }),
{
    let sv = chars_of(req.source.as_str());
    let st = trim(&sv);
    if st.len() == 0 {
        return Err(MoveRefusal::Error(AppError::BadRequest(String::from_str("source path must not be empty"))));
    }
    let dv = chars_of(req.destination.as_str());
    let dt = trim(&dv);
    if dt.len() == 0 {
        return Err(
            MoveRefusal::Error(AppError::BadRequest(String::from_str("destination path must not be empty"))),
        );
    }
    let ss = string_of(&st);
    let ds = string_of(&dt);
    let source_valid = match validate_file_path_on(ss.as_str(), windows) {
        Ok(p) => p,
        Err(e) => return Err(MoveRefusal::Rejected(e)),
    };
    let dest_valid = match validate_file_path_on(ds.as_str(), windows) {
        Ok(p) => p,
        Err(e) => return Err(MoveRefusal::Rejected(e)),
    };
    if eq_ignore_case_exec(&st, &dt) {
        return Err(
            MoveRefusal::Error(AppError::BadRequest(String::from_str("source and destination must be different"))),
        );
    }
    Ok((source_valid, dest_valid))
}

/// Whether the components of `prefix` begin the components of `path`.
pub open spec fn parts_start_with(path: Seq<PartText>, prefix: Seq<PartText>) -> bool {
    prefix.len() <= path.len() && forall|i: int| 0 <= i < prefix.len() ==> #[trigger] path[i] == prefix[i]
}

fn same_part(a: &PathPart, b: &PathPart) -> (r: bool)
    ensures
        r == (part_text(*a) == part_text(*b)),
{
    match (a, b) {
        (PathPart::Prefix(x), PathPart::Prefix(y)) => crate::text::str_eq(x.as_str(), y.as_str()),
        (PathPart::RootDir, PathPart::RootDir) => true,
        (PathPart::CurDir, PathPart::CurDir) => true,
        (PathPart::ParentDir, PathPart::ParentDir) => true,
        (PathPart::Normal(x), PathPart::Normal(y)) => crate::text::str_eq(x.as_str(), y.as_str()),
        _ => false,
    }
}

/// Whether `path` lies inside (or is) `base`, comparing whole components
/// (as `Path::starts_with` does).
pub fn path_within(path: &str, base: &str) -> (r: bool)
    ensures
        r == parts_start_with(path_parts(path@), path_parts(base@)),
{
    let p = components_of(path);
    let b = components_of(base);
    if b.len() > p.len() {
        return false;
    }
    let mut i: usize = 0;
    while i < b.len()
        invariant
            i <= b.len(),
            b.len() <= p.len(),
            parts_text(p@) == path_parts(path@),
            parts_text(b@) == path_parts(base@),
            forall|k: int| 0 <= k < i ==> #[trigger] path_parts(path@)[k] == path_parts(base@)[k],
        decreases b.len() - i,
    {
        assert(parts_text(p@)[i as int] == part_text(p@[i as int]));
        assert(parts_text(b@)[i as int] == part_text(b@[i as int]));
        if !same_part(&p[i], &b[i]) {
            return false;
        }
        i += 1;
    }
    true
}

/// Refuses a destination inside the source.
pub fn check_not_inside(destination: &str, source: &str) -> (r: Result<(), AppError>)
    ensures
        parts_start_with(path_parts(destination@), path_parts(source@)) ==> (r matches Err(
            AppError::BadRequest(m),
        ) && m@ == "destination cannot be inside the source path"@),
        !parts_start_with(path_parts(destination@), path_parts(source@)) ==> r is Ok,
{
    if path_within(destination, source) {
        Err(AppError::BadRequest(String::from_str("destination cannot be inside the source path")))
    } else {
        Ok(())
    }
}

/// The space a copy needs: the bytes to copy plus a tenth of them.
pub open spec fn required_space(bytes: u64) -> int {
    bytes + bytes / 10
}

/// Checks the free space at the destination before a copy: it must be at
/// least the bytes to copy plus ten percent.
pub fn check_free_space(free: u64, bytes: u64) -> (r: Result<(), AppError>)
    requires
        required_space(bytes) <= u64::MAX,
    ensures
        free >= required_space(bytes) ==> r is Ok,
        free < required_space(bytes) ==> (r matches Err(AppError::BadRequest(m)) && m@
            == "Insufficient disk space: "@ + dec(free as nat) + " available, "@ + dec(
            required_space(bytes) as nat,
        ) + " required"@),
{
    let required = bytes + bytes / 10;
    if free < required {
        let f = u64_string(free);
        let q = u64_string(required);
        let head = concat3("Insufficient disk space: ", f.as_str(), " available, ");
        let tail = concat(q.as_str(), " required");
        return Err(AppError::BadRequest(concat(head.as_str(), tail.as_str())));
    }
    Ok(())
}

/// The bytes a move frees at the source: all it transferred when the
/// source is removed, none for a copy.
pub fn freed_bytes(remove_source: bool, bytes_to_transfer: u64) -> (r: u64)
    ensures
        r == if remove_source { bytes_to_transfer } else { 0 },
{
    if remove_source { bytes_to_transfer } else { 0 }
}

/// What to do about an existing destination before moving or copying.
#[derive(Clone, Debug)]
pub enum DestinationAction {
    /// Nothing is in the way.
    Proceed,
    /// Remove what is there first.
    Replace,
    /// Refuse the operation.
    Refuse(AppError),
}

/// The decision for a file's destination: free is fine; a directory there
/// is a conflict; a file there is replaced when overwriting is allowed and a
/// conflict otherwise.
pub fn file_destination(exists: bool, is_dir: bool, overwrite: bool, shown: &str) -> (r: DestinationAction)
    ensures
        !exists ==> r is Proceed,
        exists && is_dir ==> (r matches DestinationAction::Refuse(AppError::Conflict(m)) && m@
            == "destination refers to a directory: "@ + shown@),
        exists && !is_dir && overwrite ==> r is Replace,
        exists && !is_dir && !overwrite ==> (r matches DestinationAction::Refuse(AppError::Conflict(m))
            && m@ == "destination file already exists: "@ + shown@),
{
    if !exists {
        DestinationAction::Proceed
    } else if is_dir {
        DestinationAction::Refuse(AppError::Conflict(concat("destination refers to a directory: ", shown)))
    } else if overwrite {
        DestinationAction::Replace
    } else {
        DestinationAction::Refuse(AppError::Conflict(concat("destination file already exists: ", shown)))
    }
}

/// The decision for a directory's destination: free is fine; a file there
/// is a conflict; a directory there is replaced when overwriting is allowed
/// and a conflict otherwise.
pub fn directory_destination(exists: bool, is_dir: bool, overwrite: bool, shown: &str) -> (r: DestinationAction)
    ensures
        !exists ==> r is Proceed,
        exists && !is_dir ==> (r matches DestinationAction::Refuse(AppError::Conflict(m)) && m@
            == "destination refers to a file: "@ + shown@),
        exists && is_dir && overwrite ==> r is Replace,
        exists && is_dir && !overwrite ==> (r matches DestinationAction::Refuse(AppError::Conflict(m))
            && m@ == "destination directory already exists: "@ + shown@),
{
    if !exists {
        DestinationAction::Proceed
    } else if !is_dir {
        DestinationAction::Refuse(AppError::Conflict(concat("destination refers to a file: ", shown)))
    } else if overwrite {
        DestinationAction::Replace
    } else {
        DestinationAction::Refuse(
            AppError::Conflict(concat("destination directory already exists: ", shown)),
        )
    }
}

/// What to do when a copied entry's target already exists.
#[derive(Clone, Debug)]
pub enum TargetConflict {
    /// Remove the directory that is there, then copy.
    RemoveDir,
    /// Remove the file that is there, then copy.
    RemoveFile,
    /// Stop the whole operation.
    Fail(AppError),
    /// Leave the entry out, with this warning.
    Skip(String),
}

/// The decision for an existing copy target: with overwriting it is
/// removed; otherwise a move stops with a conflict and a copy skips the
/// entry with a warning.
pub fn target_conflict(target_is_dir: bool, overwrite: bool, remove_source: bool, shown: &str) -> (r:
    TargetConflict)
    ensures
        overwrite && target_is_dir ==> r is RemoveDir,
        overwrite && !target_is_dir ==> r is RemoveFile,
        !overwrite && remove_source && target_is_dir ==> (r matches TargetConflict::Fail(AppError::Conflict(m)) && m@
            == "Konflikt: Ziel ist bereits ein Ordner und Ueberschreiben ist deaktiviert ("@ + shown@
            + ")"@),
        !overwrite && remove_source && !target_is_dir ==> (r matches TargetConflict::Fail(
            AppError::Conflict(m),
        ) && m@ == "Konflikt: Ziel existiert bereits und Ueberschreiben ist deaktiviert ("@ + shown@
            + ")"@),
        !overwrite && !remove_source && target_is_dir ==> (r matches TargetConflict::Skip(w) && w@
            == "Ordner bereits vorhanden, uebersprungen: "@ + shown@),
        !overwrite && !remove_source && !target_is_dir ==> (r matches TargetConflict::Skip(w) && w@
            == "Datei bereits vorhanden, uebersprungen: "@ + shown@),
{
    if target_is_dir {
        if overwrite {
            TargetConflict::RemoveDir
        } else if remove_source {
            TargetConflict::Fail(
                AppError::Conflict(
                    concat3("Konflikt: Ziel ist bereits ein Ordner und Ueberschreiben ist deaktiviert (", shown, ")"),
                ),
            )
        } else {
            TargetConflict::Skip(concat("Ordner bereits vorhanden, uebersprungen: ", shown))
        }
    } else if overwrite {
        TargetConflict::RemoveFile
    } else if remove_source {
        TargetConflict::Fail(
            AppError::Conflict(
                concat3("Konflikt: Ziel existiert bereits und Ueberschreiben ist deaktiviert (", shown, ")"),
            ),
        )
    } else {
        TargetConflict::Skip(concat("Datei bereits vorhanden, uebersprungen: ", shown))
    }
}

/// What a directory copy finds at an entry of the source tree.
#[derive(Clone, Copy, Debug, PartialEq, Eq)]
pub enum CopyEntryKind {
    /// A directory.
    Dir,
    /// A symbolic link.
    Symlink,
    /// A reparse point or junction.
    ReparsePoint,
    /// A regular file.
    File,
}

/// What a directory copy does with an entry of the source tree.
#[derive(Clone, Debug)]
pub enum CopyEntryAction {
    /// Create the directory at the target.
    CreateDir,
    /// Copy the file to the target.
    CopyFile,
    /// Leave the entry out, with this warning.
    Skip(String),
}

/// The decision for an entry of a copied directory tree: directories are
/// created, files copied, and links and reparse points left out with a
/// warning naming them.
pub fn copy_entry_action(kind: CopyEntryKind, shown: &str) -> (r: CopyEntryAction)
    ensures
        kind is Dir ==> r is CreateDir,
        kind is File ==> r is CopyFile,
        kind is Symlink ==> (r matches CopyEntryAction::Skip(w) && w@
            == "Symlink uebersprungen (manuell pruefen): "@ + shown@),
        kind is ReparsePoint ==> (r matches CopyEntryAction::Skip(w) && w@
            == "Reparse point/junction uebersprungen: "@ + shown@),
{
    match kind {
        CopyEntryKind::Dir => CopyEntryAction::CreateDir,
        CopyEntryKind::File => CopyEntryAction::CopyFile,
        CopyEntryKind::Symlink => CopyEntryAction::Skip(concat("Symlink uebersprungen (manuell pruefen): ", shown)),
        CopyEntryKind::ReparsePoint => CopyEntryAction::Skip(concat("Reparse point/junction uebersprungen: ", shown)),
    }
}

/// What a directory copy does when copying a file failed.
#[derive(Clone, Debug)]
pub enum CopyFailure {
    /// Undo what was created and stop with this error.
    RollBack(AppError),
    /// Go on, with this warning.
    Warn(String),
}

/// The decision when a file of a copied tree could not be copied (`kind`
/// names the I/O failure): a move undoes what it created and stops with an
/// I/O error; a copy goes on with the same text as a warning.
pub fn copy_failure(remove_source: bool, kind: &str, shown: &str) -> (r: CopyFailure)
    ensures
        ({
            let m = "Datei konnte nicht kopiert werden ("@ + kind@ + "): "@ + shown@;
            if remove_source {
                r matches CopyFailure::RollBack(AppError::IoError(x)) && x@ == m
            } else {
                r matches CopyFailure::Warn(x) && x@ == m
            }
        }),
{
    let head = concat3("Datei konnte nicht kopiert werden (", kind, "): ");
    let m = concat(head.as_str(), shown);
    if remove_source {
        CopyFailure::RollBack(AppError::IoError(m))
    } else {
        CopyFailure::Warn(m)
    }
}

/// Whether a directory copy removes the destination it created: only when
/// it did not exist before, nothing was copied and it is still empty.
pub fn remove_unused_destination(bytes_copied: u64, dest_existed: bool, dest_empty: bool) -> (r: bool)
    ensures
        r == (bytes_copied == 0 && !dest_existed && dest_empty),
{
    bytes_copied == 0 && !dest_existed && dest_empty
}

} // verus!
