use vstd::prelude::*;
use crate::gate::{is_allowed_under, GateVerdict};
use crate::roots::KnownDirs;

verus! {

/// The two gated operations.
#[derive(Clone, Copy, PartialEq, Eq, Structural, Debug)]
pub enum Operation {
    Save,
    Read,
}

/// The message for a refused request. It names the permitted folders and
/// nothing of the candidate or of the filesystem.
pub open spec fn denial_text(op: Operation) -> Seq<char> {
    match op {
        Operation::Save => "Сохранение разрешено только в папки: Загрузки, Документы или Рабочий стол"@,
        Operation::Read => "Чтение разрешено только из папок: Загрузки, Документы или Рабочий стол"@,
    }
}

pub open spec fn failure_prefix(op: Operation) -> Seq<char> {
    match op {
        Operation::Save => "Ошибка записи: "@,
        Operation::Read => "Ошибка чтения: "@,
    }
}

/// The message for an approved request whose I/O failed: a fixed prefix
/// followed by the system's own message.
pub open spec fn failure_text(op: Operation, error: Seq<char>) -> Seq<char> {
    failure_prefix(op) + error
}

pub open spec fn contains(text: Seq<char>, part: Seq<char>) -> bool {
    exists|i: int| 0 <= i && i + part.len() <= text.len() && #[trigger] text.subrange(i, i + part.len()) == part
}

pub fn denial_message(op: Operation) -> (r: String)
    ensures
        r@ == denial_text(op),
{
    match op {
        Operation::Save => String::from_str("Сохранение разрешено только в папки: Загрузки, Документы или Рабочий стол"),
        Operation::Read => String::from_str("Чтение разрешено только из папок: Загрузки, Документы или Рабочий стол"),
    }
}

/// The system message of a failed I/O call, after the operation's prefix.
pub fn failure_message(op: Operation, error: &str) -> (r: String)
    ensures
        r@ == failure_text(op, error@),
{
    let prefix = match op {
        Operation::Save => String::from_str("Ошибка записи: "),
        Operation::Read => String::from_str("Ошибка чтения: "),
    };
    prefix.concat(error)
}

/// Checks whether `path` may be read or written: it is canonicalized (or,
/// when it does not exist yet, its parent directory is) and must lie inside
/// one of the download, document and desktop directories in `known`, listed
/// by `KnownDirs::allowed_roots`. The roots are canonicalized afresh on every
/// call.
pub fn is_path_allowed(path: &str, known: &KnownDirs) -> (r: GateVerdict)
    ensures
        r.follows_rule(path@, known.listing_spec()),
{
    let roots = known.allowed_roots();
    is_allowed_under(path, &roots)
}

/// Turns the containment verdict into the request's first step: go on, or the
/// denial message of the operation.
pub fn check_access(op: Operation, allowed: bool) -> (r: Result<(), String>)
    ensures
        r is Ok <==> allowed,
        r matches Err(e) ==> e@ == denial_text(op),
{
    if allowed {
        Ok(())
    } else {
        Err(denial_message(op))
    }
}

/// Runs the containment check on `path` for `op`, next to the verdict it
/// rested on. The request may go on exactly when the verdict allows it; on
/// refusal the message is the operation's fixed denial text, whatever the
/// path and whatever the filesystem said while resolving it.
pub fn authorize(op: Operation, path: &str, known: &KnownDirs) -> (r: (Result<(), String>, GateVerdict))
    ensures
        r.1.follows_rule(path@, known.listing_spec()),
        r.0 is Ok <==> r.1.allowed,
        r.0 matches Err(e) ==> e@ == denial_text(op),
{
    let verdict = is_path_allowed(path, known);
    let access = check_access(op, verdict.allowed);
    (access, verdict)
}

/// The answer to an approved write: the original path string when the write
/// succeeded, else the write failure message carrying the system's message.
pub fn save_outcome(path: String, written: Result<(), String>) -> (r: Result<String, String>)
    ensures
        written is Ok ==> r == Ok::<String, String>(path),
        written matches Err(e) ==> r matches Err(m) && m@ == failure_text(Operation::Save, e@),
{
    match written {
        Ok(()) => Ok(path),
        Err(e) => Err(failure_message(Operation::Save, e.as_str())),
    }
}

/// The answer to an approved read: the file's text, or the read failure
/// message carrying the system's message (also for content that is not
/// valid text).
pub fn read_outcome(read: Result<String, String>) -> (r: Result<String, String>)
    ensures
        read matches Ok(c) ==> r == Ok::<String, String>(c),
        read matches Err(e) ==> r matches Err(m) && m@ == failure_text(Operation::Read, e@),
{
    match read {
        Ok(c) => Ok(c),
        Err(e) => Err(failure_message(Operation::Read, e.as_str())),
    }
}

/// A denial message holds no path separator, so no path with a directory
/// part appears in it, and it is the same for every candidate; the message
/// of a failed I/O call after approval holds the system's message whole.
pub proof fn messages_disclose_only_io_errors(op: Operation, error: Seq<char>)
    ensures
        forall|i: int| 0 <= i < denial_text(op).len() ==> denial_text(op)[i] != '/' && denial_text(op)[i] != '\\',
        contains(failure_text(op, error), error),
{
    reveal_strlit("Сохранение разрешено только в папки: Загрузки, Документы или Рабочий стол");
    reveal_strlit("Чтение разрешено только из папок: Загрузки, Документы или Рабочий стол");
    reveal_strlit("Ошибка записи: ");
    reveal_strlit("Ошибка чтения: ");
    let t = failure_text(op, error);
    let k = failure_prefix(op).len() as int;
    assert(t.subrange(k, k + error.len()) =~= error);
}

} // verus!
