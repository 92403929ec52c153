//! Watching a directory: what is logged of each change, and stopping the
//! watch.

use std::sync::mpsc::Sender;
use std::sync::MutexGuard;
use vstd::prelude::*;

verus! {

#[verifier::external_type_specification]
#[verifier::external_body]
#[verifier::reject_recursive_types(T)]
pub struct ExSender<T>(Sender<T>);

#[verifier::external_type_specification]
#[verifier::external_body]
#[verifier::reject_recursive_types(T)]
pub struct ExMutexGuard<'a, T: ?Sized + 'a>(MutexGuard<'a, T>);

/// A line of the change log.
pub struct FileChange {
    /// How the change is described.
    pub kind: String,
    /// The path changed, with `/` as the separator.
    pub path: String,
}

/// The kinds of change a watch reports.
#[derive(Clone, Copy, Debug, PartialEq, Eq, Structural)]
pub enum ChangeKind {
    Any,
    Access,
    Create,
    Modify,
    Remove,
    Other,
}

impl ChangeKind {
    /// Whether changes of this kind are logged: only creations are.
    pub fn is_logged(self) -> (r: bool)
        ensures
            r == (self == ChangeKind::Create),
    {
        match self {
            ChangeKind::Create => true,
            _ => false,
        }
    }
}

/// `path` with every `\` turned into `/`.
pub open spec fn normalized_separators(path: Seq<char>) -> Seq<char> {
    path.map_values(|c: char| if c == '\\' { '/' } else { c })
}

/// `path` with every `\` turned into `/`.
pub fn normalize_separators(path: &str) -> (r: String)
    ensures
        r@ == normalized_separators(path@),
        r@.len() == path@.len(),
        forall|i: int|
            0 <= i < path@.len() ==> #[trigger] r@[i] == if path@[i] == '\\' {
                '/'
            } else {
                path@[i]
            },
{
    proof {
        lemma_normalizing_turns_only_backslashes(path@);
    }
    let n = path.unicode_len();
    let mut out = String::new();
    let mut i: usize = 0;
    proof {
        reveal_strlit("/");
    }
    while i < n
        invariant
            n == path@.len(),
            0 <= i <= n,
            "/"@ == seq!['/'],
            out@ =~= normalized_separators(path@.subrange(0, i as int)),
        decreases n - i,
    {
        let c = path.get_char(i);
        if c == '\\' {
            out.append("/");
        } else {
            out.append(path.substring_char(i, i + 1));
        }
        assert(path@.subrange(0, i + 1) =~= path@.subrange(0, i as int).push(c));
        i = i + 1;
    }
    assert(path@.subrange(0, n as int) =~= path@);
    out
}

/// Normalizing a path keeps its length and every character but `\`, and
/// turns each `\` into `/`.
pub proof fn lemma_normalizing_turns_only_backslashes(path: Seq<char>)
    ensures
        normalized_separators(path).len() == path.len(),
        forall|i: int|
            0 <= i < path.len() ==> #[trigger] normalized_separators(path)[i] == if path[i] == '\\' {
                '/'
            } else {
                path[i]
            },
{
}

/// A path normalized once holds no `\`, and normalizing it again changes
/// nothing.
pub proof fn lemma_normalized_separators_idempotent(path: Seq<char>)
    ensures
        forall|i: int|
            0 <= i < normalized_separators(path).len() ==> #[trigger] normalized_separators(
                path,
            )[i] != '\\',
        normalized_separators(normalized_separators(path)) == normalized_separators(path),
{
    assert(normalized_separators(normalized_separators(path)) =~= normalized_separators(path));
}

/// The log line for a change of kind `kind`, described as `kind_debug`, to
/// the paths `paths`: the description and the first path, normalized.  Only
/// creations are logged.
pub fn record_change(kind: ChangeKind, kind_debug: String, paths: &Vec<String>) -> (r: FileChange)
    requires
        kind == ChangeKind::Create,
        paths@.len() > 0,
    ensures
        r.kind == kind_debug,
        r.path@ == normalized_separators(paths@[0]@),
        r.path@.len() == paths@[0]@.len(),
        forall|i: int|
            0 <= i < paths@[0]@.len() ==> #[trigger] r.path@[i] == if paths@[0]@[i] == '\\' {
                '/'
            } else {
                paths@[0]@[i]
            },
{
    FileChange { kind: kind_debug, path: normalize_separators(paths[0].as_str()) }
}

/// Sends `()` with `Sender::send` on the sender that `stop_tx` guards, and
/// tells whether it went through.  Whether the receiving side still exists is
/// not seen here, so nothing is claimed of the result.
#[verifier::external_body]
fn send_stop_signal(stop_tx: &MutexGuard<'_, Sender<()>>) -> (sent: bool) {
    stop_tx.send(()).is_ok()
}

/// Tells the watch to stop; `false` when the watch has already gone.
pub fn stop_watcher(stop_tx: MutexGuard<'_, Sender<()>>) -> (sent: bool) {
    send_stop_signal(&stop_tx)
}

} // verus!
