//! Commands issued to the remote collaborator and the bookkeeping of the
//! ones still in flight. The owner performs each queued command outside
//! of this core and reports its completion back.

use vstd::prelude::*;

use crate::table::EntityStatus;

verus! {

/// A command for the remote collaborator, with its target identifiers.
#[derive(Clone, Debug)]
pub enum TorrentAction {
    Add(String),
    Stop(Vec<i64>),
    Start(Vec<i64>),
    DeleteWithoutFiles(Vec<i64>),
    DeleteWithFiles(Vec<i64>),
    GetTorrentInfo(i64),
}

/// The kind tag of an in-flight command.
#[derive(Clone, Copy, Debug, PartialEq, Eq, Structural)]
pub enum CommandKind {
    Add,
    Stop,
    Start,
    DeleteWithoutFiles,
    DeleteWithFiles,
    GetTorrentInfo,
}

/// One user-issued command awaiting its result, keyed by its target.
#[derive(Clone, Copy, Debug, PartialEq, Eq, Structural)]
pub struct PendingCommand {
    pub key: i64,
    pub kind: CommandKind,
}

/// What finishing a command asks of the owning view.
#[derive(Clone, Copy, Debug, PartialEq, Eq, Structural)]
pub enum CompletionEffect {
    /// The result is in; the next poll will show it.
    Done,
    /// The collaborator rejected the command: surface an error popup.
    ShowErrorPopup,
}

pub open spec fn kind_of(cmd: TorrentAction) -> CommandKind {
    match cmd {
        TorrentAction::Add(_) => CommandKind::Add,
        TorrentAction::Stop(_) => CommandKind::Stop,
        TorrentAction::Start(_) => CommandKind::Start,
        TorrentAction::DeleteWithoutFiles(_) => CommandKind::DeleteWithoutFiles,
        TorrentAction::DeleteWithFiles(_) => CommandKind::DeleteWithFiles,
        TorrentAction::GetTorrentInfo(_) => CommandKind::GetTorrentInfo,
    }
}

/// The identifier an in-flight command is tracked under: its first
/// target. Adding by link has no identifier until the remote side
/// assigns one, so it is not tracked.
pub open spec fn key_of(cmd: TorrentAction) -> Option<i64> {
    match cmd {
        TorrentAction::Add(_) => None,
        TorrentAction::Stop(ids) => if ids@.len() > 0 {
            Some(ids@[0])
        } else {
            None
        },
        TorrentAction::Start(ids) => if ids@.len() > 0 {
            Some(ids@[0])
        } else {
            None
        },
        TorrentAction::DeleteWithoutFiles(ids) => if ids@.len() > 0 {
            Some(ids@[0])
        } else {
            None
        },
        TorrentAction::DeleteWithFiles(ids) => if ids@.len() > 0 {
            Some(ids@[0])
        } else {
            None
        },
        TorrentAction::GetTorrentInfo(id) => Some(id),
    }
}

/// Whether a command is of the given kind and aims at exactly the one
/// given target.
pub open spec fn single_target(cmd: TorrentAction, kind: CommandKind, id: i64) -> bool {
    kind_of(cmd) == kind && (match cmd {
        TorrentAction::Add(_) => false,
        TorrentAction::Stop(ids) => ids@ == seq![id],
        TorrentAction::Start(ids) => ids@ == seq![id],
        TorrentAction::DeleteWithoutFiles(ids) => ids@ == seq![id],
        TorrentAction::DeleteWithFiles(ids) => ids@ == seq![id],
        TorrentAction::GetTorrentInfo(i) => i == id,
    })
}

/// How a task manager changes when one single-target command of the
/// given kind is issued: queued once, tracked once under its target.
pub open spec fn issued_single(
    before: TaskManager,
    after: TaskManager,
    kind: CommandKind,
    id: i64,
) -> bool {
    &&& after.pending@ == before.pending@.push((PendingCommand { key: id, kind: kind }))
    &&& after.outbox@.len() == before.outbox@.len() + 1
    &&& after.outbox@.drop_last() == before.outbox@
    &&& single_target(after.outbox@.last(), kind, id)
}

/// The command kind a pause keypress decides on, from the status read
/// at that moment: start a stopped entity, stop a running one.
pub open spec fn pause_kind(status: EntityStatus) -> CommandKind {
    if status == EntityStatus::Stopped {
        CommandKind::Start
    } else {
        CommandKind::Stop
    }
}

/// The pending list after dropping the first command keyed `key`.
pub open spec fn remove_first_spec(s: Seq<PendingCommand>, key: i64) -> Seq<PendingCommand>
    decreases s.len(),
{
    if s.len() == 0 {
        s
    } else if s.first().key == key {
        s.drop_first()
    } else {
        seq![s.first()] + remove_first_spec(s.drop_first(), key)
    }
}

/// Tracks user-issued commands: what is queued for the collaborator and
/// what is still awaiting a result.
pub struct TaskManager {
    pub pending: Vec<PendingCommand>,
    pub outbox: Vec<TorrentAction>,
}

impl TaskManager {
    pub fn new() -> (r: Self)
        ensures
            r.pending@ == Seq::<PendingCommand>::empty(),
            r.outbox@ == Seq::<TorrentAction>::empty(),
    {
        TaskManager { pending: Vec::new(), outbox: Vec::new() }
    }

    /// Queues one command for the collaborator and, when it has a target
    /// identifier, tracks it as pending under that key.
    pub fn issue(&mut self, cmd: TorrentAction)
        ensures
            final(self).outbox@ == old(self).outbox@.push(cmd),
            final(self).pending@ == (match key_of(cmd) {
                Some(k) => old(self).pending@.push(
                    PendingCommand { key: k, kind: kind_of(cmd) },
                ),
                None => old(self).pending@,
            }),
    {
        let tracked_key: Option<i64> = match &cmd {
            TorrentAction::Add(_) => None,
            TorrentAction::Stop(ids) => if ids.len() > 0 {
                Some(ids[0])
            } else {
                None
            },
            TorrentAction::Start(ids) => if ids.len() > 0 {
                Some(ids[0])
            } else {
                None
            },
            TorrentAction::DeleteWithoutFiles(ids) => if ids.len() > 0 {
                Some(ids[0])
            } else {
                None
            },
            TorrentAction::DeleteWithFiles(ids) => if ids.len() > 0 {
                Some(ids[0])
            } else {
                None
            },
            TorrentAction::GetTorrentInfo(id) => Some(*id),
        };
        let kind: CommandKind = match &cmd {
            TorrentAction::Add(_) => CommandKind::Add,
            TorrentAction::Stop(_) => CommandKind::Stop,
            TorrentAction::Start(_) => CommandKind::Start,
            TorrentAction::DeleteWithoutFiles(_) => CommandKind::DeleteWithoutFiles,
            TorrentAction::DeleteWithFiles(_) => CommandKind::DeleteWithFiles,
            TorrentAction::GetTorrentInfo(_) => CommandKind::GetTorrentInfo,
        };
        match tracked_key {
            Some(k) => {
                self.pending.push(PendingCommand { key: k, kind });
            },
            None => {},
        }
        self.outbox.push(cmd);
    }

    /// Hands the queued commands over to the owner for sending; the
    /// queue is left empty.
    pub fn drain_outbox(&mut self) -> (r: Vec<TorrentAction>)
        ensures
            r@ == old(self).outbox@,
            final(self).outbox@ == Seq::<TorrentAction>::empty(),
            final(self).pending == old(self).pending,
    {
        let mut out: Vec<TorrentAction> = Vec::new();
        core::mem::swap(&mut out, &mut self.outbox);
        out
    }

    /// Records a command's completion: the first pending command under
    /// that key is dropped; a rejected command asks for an error popup,
    /// and no retry is ever queued.
    pub fn complete(&mut self, key: i64, success: bool) -> (r: CompletionEffect)
        ensures
            final(self).pending@ == remove_first_spec(old(self).pending@, key),
            final(self).outbox == old(self).outbox,
            r == (if success {
                CompletionEffect::Done
            } else {
                CompletionEffect::ShowErrorPopup
            }),
    {
        let ghost s = self.pending@;
        let n = self.pending.len();
        let mut i: usize = 0;
        let mut found: Option<usize> = None;
        while i < n
            invariant
                i <= n,
                n == s.len(),
                s == self.pending@,
                found is None ==> forall|j: int| 0 <= j < i ==> s[j].key != key,
                found is Some ==> found->0 < i && s[found->0 as int].key == key && (forall|
                    j: int,
                |
                    0 <= j < found->0 ==> s[j].key != key),
            decreases n - i,
        {
            if found.is_none() && self.pending[i].key == key {
                found = Some(i);
            }
            i += 1;
        }
        match found {
            Some(idx) => {
                self.pending.remove(idx);
                proof {
                    lemma_remove_first(s, key, idx as int);
                }
            },
            None => {
                proof {
                    lemma_remove_first_absent(s, key);
                }
            },
        }
        if success {
            CompletionEffect::Done
        } else {
            CompletionEffect::ShowErrorPopup
        }
    }

    /// The command that toggles an entity between stopped and running,
    /// decided from the status read at the moment of the key press.
    pub fn pause_or_resume(id: i64, status: EntityStatus) -> (r: TorrentAction)
        ensures
            single_target(r, pause_kind(status), id),
    {
        let mut ids: Vec<i64> = Vec::new();
        ids.push(id);
        match status {
            EntityStatus::Stopped => TorrentAction::Start(ids),
            _ => TorrentAction::Stop(ids),
        }
    }
}

proof fn lemma_remove_first(s: Seq<PendingCommand>, key: i64, idx: int)
    requires
        0 <= idx < s.len(),
        s[idx].key == key,
        forall|j: int| 0 <= j < idx ==> s[j].key != key,
    ensures
        remove_first_spec(s, key) == s.subrange(0, idx) + s.subrange(idx + 1, s.len() as int),
    decreases idx,
{
    if idx == 0 {
        assert(s.first().key == key);
        assert(remove_first_spec(s, key) == s.drop_first());
        assert(s.drop_first() =~= s.subrange(0, 0) + s.subrange(1, s.len() as int));
    } else {
        let rest = s.drop_first();
        assert(forall|j: int| 0 <= j < idx - 1 ==> rest[j].key != key);
        lemma_remove_first(rest, key, idx - 1);
        assert(seq![s.first()] + (rest.subrange(0, idx - 1) + rest.subrange(
            idx,
            rest.len() as int,
        )) =~= s.subrange(0, idx) + s.subrange(idx + 1, s.len() as int));
    }
}

proof fn lemma_remove_first_absent(s: Seq<PendingCommand>, key: i64)
    requires
        forall|j: int| 0 <= j < s.len() ==> s[j].key != key,
    ensures
        remove_first_spec(s, key) == s,
    decreases s.len(),
{
    if s.len() > 0 {
        let rest = s.drop_first();
        assert(forall|j: int| 0 <= j < rest.len() ==> rest[j].key != key);
        lemma_remove_first_absent(rest, key);
        assert(seq![s.first()] + rest =~= s);
    }
}

} // verus!
