//! Hook installation as a transaction.
//!
//! The hooks of a process are attached together or not at all. The caller
//! does what `HookTable::step` names (begin, attach one symbol, commit,
//! abort) and reports what came of it to `HookTable::advance`. The first
//! attach that fails ends the attaching: the transaction is aborted, the
//! failure is reported, and no hook is active. Running the target with a
//! part of its hooks would let it read the wrong archive without a word.

use crate::launcher::Injection;
use vstd::prelude::*;

verus! {

/// An entry point that is intercepted.
#[derive(Clone, Copy, Debug, PartialEq, Eq, Structural)]
pub enum Symbol {
    /// `GetFileAttributesW`.
    GetFileAttributesW,
    /// `CreateFileW`.
    CreateFileW,
    /// `MoveFileExW`.
    MoveFileExW,
    /// `CreateProcessW`.
    CreateProcessW,
    /// `SetCurrentProcessExplicitAppUserModelID`.
    SetAppUserModelId,
    /// `uv_fs_lstat`, which the host's executable may or may not export.
    UvFsLstat,
}

impl Symbol {
    /// The name under which failures of this hook are reported.
    pub open spec fn name_spec(self) -> Seq<char> {
        match self {
            Symbol::GetFileAttributesW => "GetFileAttributesW"@,
            Symbol::CreateFileW => "CreateFileW"@,
            Symbol::MoveFileExW => "MoveFileExW"@,
            Symbol::CreateProcessW => "CreateProcessW"@,
            Symbol::SetAppUserModelId => "SetAUMID"@,
            Symbol::UvFsLstat => "uv_fs_lstat"@,
        }
    }

    /// The name under which failures of this hook are reported.
    pub fn name(self) -> (r: &'static str)
        ensures
            r@ == self.name_spec(),
    {
        match self {
            Symbol::GetFileAttributesW => "GetFileAttributesW",
            Symbol::CreateFileW => "CreateFileW",
            Symbol::MoveFileExW => "MoveFileExW",
            Symbol::CreateProcessW => "CreateProcessW",
            Symbol::SetAppUserModelId => "SetAUMID",
            Symbol::UvFsLstat => "uv_fs_lstat",
        }
    }
}

/// The reason code with which the system tells a library that it was
/// loaded into a process.
pub const PROCESS_ATTACH: u32 = 1;

/// Whether the library's entry point installs the hooks: only when it is
/// told that it was loaded into a process, and never in a helper process of
/// the injection machinery, which has nothing to intercept.
pub open spec fn installs(reason: u32, helper_process: bool) -> bool {
    !helper_process && reason == PROCESS_ATTACH
}

/// Whether the library's entry point installs the hooks.
pub fn entry_installs(reason: u32, helper_process: bool) -> (r: bool)
    ensures
        r == installs(reason, helper_process),
{
    !helper_process && reason == PROCESS_ATTACH
}

/// The symbols to attach, in order. Where the library is loaded by the
/// dynamic loader, the file calls are replaced by the loader itself and
/// `uv_fs_lstat` alone is attached; where symbols are interposed, nothing
/// is. `uv_fs_lstat_found` says whether the host's executable exports
/// `uv_fs_lstat`; only a library that was injected into a suspended process
/// has to ask.
pub open spec fn planned_symbols(injection: Injection, uv_fs_lstat_found: bool) -> Seq<Symbol> {
    match injection {
        Injection::Preload => seq![Symbol::UvFsLstat],
        Injection::Interpose => Seq::empty(),
        Injection::RemoteLibrary => {
            let always = seq![
                Symbol::GetFileAttributesW,
                Symbol::CreateFileW,
                Symbol::MoveFileExW,
                Symbol::CreateProcessW,
                Symbol::SetAppUserModelId,
            ];
            if uv_fs_lstat_found {
                always.push(Symbol::UvFsLstat)
            } else {
                always
            }
        },
    }
}

/// Why an installation failed.
#[derive(Clone, Copy, Debug, PartialEq, Eq, Structural)]
pub enum InstallError {
    /// This symbol could not be attached.
    AttachFailed(Symbol),
}

impl InstallError {
    /// The error in words.
    pub fn message(&self) -> (r: String)
        ensures
            r@ == (match *self {
                InstallError::AttachFailed(s) => "Failed to hook "@ + s.name_spec()
                    + ". Please report this issue."@,
            }),
    {
        match self {
            InstallError::AttachFailed(s) => String::from_str("Failed to hook ").concat(
                s.name(),
            ).concat(". Please report this issue."),
        }
    }
}

/// One hook: the symbol and the address of the function that stood behind
/// it when the hook was attached.
#[derive(Clone, Copy, Debug, PartialEq, Eq, Structural)]
pub struct HookEntry {
    /// The intercepted symbol.
    pub symbol: Symbol,
    /// The captured address of the original function.
    pub original: usize,
}

/// What the caller reports.
#[derive(Clone, Copy, Debug, PartialEq, Eq, Structural)]
pub enum InstallEvent {
    /// The transaction was begun.
    Begun,
    /// The symbol was attached; `original` is the address captured for it.
    Attached { original: usize },
    /// The symbol could not be attached.
    AttachFailed,
    /// The transaction was committed: the hooks are enabled.
    Committed,
    /// The transaction was aborted: nothing is enabled.
    Aborted,
}

/// What the caller has to do next.
#[derive(Clone, Copy, Debug, PartialEq, Eq)]
pub enum InstallStep {
    /// Begin the transaction.
    Begin,
    /// Attach the hook of this symbol.
    Attach(Symbol),
    /// Commit the transaction.
    Commit,
    /// Abort the transaction.
    Abort,
    /// Nothing is left to do: this is how the installation ended.
    Finish(Result<(), InstallError>),
}

/// Where an installation stands.
#[derive(Clone, Copy, Debug, PartialEq, Eq, Structural)]
pub enum Stage {
    /// Nothing was begun.
    Idle,
    /// The transaction is open.
    Open,
    /// An attach failed and the transaction has to be aborted.
    Aborting,
    /// The transaction was aborted.
    Failed,
    /// The transaction was committed.
    Active,
}

/// A hook table as a value.
pub struct Table {
    /// The symbols to attach, in order.
    pub planned: Seq<Symbol>,
    /// The hooks attached so far.
    pub attached: Seq<HookEntry>,
    /// Where the installation stands.
    pub stage: Stage,
    /// The symbol whose attach failed, if one did.
    pub failure: Option<Symbol>,
}

impl Table {
    /// The table before anything was begun.
    pub open spec fn initial(planned: Seq<Symbol>) -> Table {
        Table { planned, attached: Seq::empty(), stage: Stage::Idle, failure: None }
    }

    /// The hooks that intercept calls: all that were planned once the
    /// transaction is committed, none before and none after a failure.
    pub open spec fn active(self) -> Seq<HookEntry> {
        if self.stage == Stage::Active {
            self.attached
        } else {
            Seq::empty()
        }
    }

    /// What holds of every table that an installation can reach. The hooks
    /// attached so far are the first of the planned ones, in order; a
    /// committed table holds all of them; a failure is on record exactly
    /// where the transaction is being aborted or was aborted, and it names
    /// the first planned symbol that has no hook.
    pub open spec fn wf(self) -> bool {
        &&& self.attached.len() <= self.planned.len()
        &&& forall|i: int|
            0 <= i < self.attached.len() ==> (#[trigger] self.attached[i]).symbol == self.planned[i]
        &&& self.stage == Stage::Idle ==> self.attached.len() == 0
        &&& self.stage == Stage::Active ==> self.attached.len() == self.planned.len()
        &&& (self.stage == Stage::Aborting || self.stage == Stage::Failed) <==> self.failure is Some
        &&& self.failure is Some ==> self.attached.len() < self.planned.len() && self.failure
            == Some(self.planned[self.attached.len() as int])
    }

    /// What the caller has to do with this table.
    pub open spec fn step(self) -> InstallStep {
        match self.stage {
            Stage::Idle => InstallStep::Begin,
            Stage::Open => if self.attached.len() < self.planned.len() {
                InstallStep::Attach(self.planned[self.attached.len() as int])
            } else {
                InstallStep::Commit
            },
            Stage::Aborting => InstallStep::Abort,
            Stage::Failed => InstallStep::Finish(
                Err(
                    InstallError::AttachFailed(
                        match self.failure {
                            Some(s) => s,
                            None => Symbol::UvFsLstat,
                        },
                    ),
                ),
            ),
            Stage::Active => InstallStep::Finish(Ok(())),
        }
    }

    /// The table after `event`. An event that the stage does not expect
    /// changes nothing; neither does any event once the installation has
    /// ended.
    pub open spec fn next(self, event: InstallEvent) -> Table {
        match (self.stage, event) {
            (Stage::Idle, InstallEvent::Begun) => Table { stage: Stage::Open, ..self },
            (Stage::Open, InstallEvent::Attached { original }) => if self.attached.len()
                < self.planned.len() {
                Table {
                    attached: self.attached.push(
                        HookEntry { symbol: self.planned[self.attached.len() as int], original },
                    ),
                    ..self
                }
            } else {
                self
            },
            (Stage::Open, InstallEvent::AttachFailed) => if self.attached.len()
                < self.planned.len() {
                Table {
                    stage: Stage::Aborting,
                    failure: Some(self.planned[self.attached.len() as int]),
                    ..self
                }
            } else {
                self
            },
            (Stage::Open, InstallEvent::Committed) => if self.attached.len()
                == self.planned.len() {
                Table { stage: Stage::Active, ..self }
            } else {
                self
            },
            (Stage::Aborting, InstallEvent::Aborted) => Table { stage: Stage::Failed, ..self },
            _ => self,
        }
    }

    /// The table after all of `events`, in order.
    pub open spec fn run(self, events: Seq<InstallEvent>) -> Table
        decreases events.len(),
    {
        if events.len() == 0 {
            self
        } else {
            self.run(events.drop_last()).next(events.last())
        }
    }
}

/// The hook table of a process.
#[derive(Debug)]
pub struct HookTable {
    planned: Vec<Symbol>,
    attached: Vec<HookEntry>,
    stage: Stage,
    failure: Option<Symbol>,
}

impl View for HookTable {
    type V = Table;

    closed spec fn view(&self) -> Table {
        Table {
            planned: self.planned@,
            attached: self.attached@,
            stage: self.stage,
            failure: self.failure,
        }
    }
}

impl HookTable {
    #[verifier::type_invariant]
    spec fn inv(self) -> bool {
        self@.wf()
    }

    /// The table of a process into which the library came by `injection`,
    /// before anything was begun.
    pub fn new(injection: Injection, uv_fs_lstat_found: bool) -> (r: HookTable)
        ensures
            r@ == Table::initial(planned_symbols(injection, uv_fs_lstat_found)),
            r@.wf(),
    {
        let mut planned: Vec<Symbol> = Vec::new();
        match injection {
            Injection::Preload => {
                planned.push(Symbol::UvFsLstat);
            },
            Injection::Interpose => {},
            Injection::RemoteLibrary => {
                planned.push(Symbol::GetFileAttributesW);
                planned.push(Symbol::CreateFileW);
                planned.push(Symbol::MoveFileExW);
                planned.push(Symbol::CreateProcessW);
                planned.push(Symbol::SetAppUserModelId);
                if uv_fs_lstat_found {
                    planned.push(Symbol::UvFsLstat);
                }
            },
        }
        assert(planned@ =~= planned_symbols(injection, uv_fs_lstat_found));
        HookTable { planned, attached: Vec::new(), stage: Stage::Idle, failure: None }
    }

    /// What the caller has to do now.
    pub fn step(&self) -> (r: InstallStep)
        ensures
            r == self@.step(),
    {
        proof {
            use_type_invariant(self);
        }
        match self.stage {
            Stage::Idle => InstallStep::Begin,
            Stage::Open => if self.attached.len() < self.planned.len() {
                InstallStep::Attach(self.planned[self.attached.len()])
            } else {
                InstallStep::Commit
            },
            Stage::Aborting => InstallStep::Abort,
            Stage::Failed => InstallStep::Finish(
                Err(
                    InstallError::AttachFailed(
                        match self.failure {
                            Some(s) => s,
                            None => Symbol::UvFsLstat,
                        },
                    ),
                ),
            ),
            Stage::Active => InstallStep::Finish(Ok(())),
        }
    }

    /// The table after `event`. An event that the stage does not expect
    /// changes nothing.
    pub fn advance(self, event: InstallEvent) -> (r: HookTable)
        ensures
            r@ == self@.next(event),
            r@.wf(),
    {
        proof {
            use_type_invariant(&self);
            law_next_keeps_wf(self@, event);
        }
        let HookTable { planned, mut attached, mut stage, mut failure } = self;
        match (stage, event) {
            (Stage::Idle, InstallEvent::Begun) => {
                stage = Stage::Open;
            },
            (Stage::Open, InstallEvent::Attached { original }) => {
                if attached.len() < planned.len() {
                    let symbol = planned[attached.len()];
                    attached.push(HookEntry { symbol, original });
                }
            },
            (Stage::Open, InstallEvent::AttachFailed) => {
                if attached.len() < planned.len() {
                    failure = Some(planned[attached.len()]);
                    stage = Stage::Aborting;
                }
            },
            (Stage::Open, InstallEvent::Committed) => {
                if attached.len() == planned.len() {
                    stage = Stage::Active;
                }
            },
            (Stage::Aborting, InstallEvent::Aborted) => {
                stage = Stage::Failed;
            },
            _ => {},
        }
        HookTable { planned, attached, stage, failure }
    }

    /// The number of hooks that intercept calls.
    pub fn active_count(&self) -> (r: usize)
        ensures
            r == self@.active().len(),
    {
        match self.stage {
            Stage::Active => self.attached.len(),
            _ => 0,
        }
    }

    /// The captured address of the original function behind `symbol`, once
    /// its hook intercepts calls.
    pub fn original(&self, symbol: Symbol) -> (r: Option<usize>)
        ensures
            match r {
                Some(a) => exists|i: int|
                    0 <= i < self@.active().len() && #[trigger] self@.active()[i] == (HookEntry {
                        symbol,
                        original: a,
                    }),
                None => forall|i: int|
                    0 <= i < self@.active().len() ==> (#[trigger] self@.active()[i]).symbol
                        != symbol,
            },
    {
        match self.stage {
            Stage::Active => {},
            _ => {
                return None;
            },
        }
        let mut i: usize = 0;
        while i < self.attached.len()
            invariant
                i <= self.attached.len(),
                self.stage == Stage::Active,
                forall|j: int| 0 <= j < i ==> (#[trigger] self.attached@[j]).symbol != symbol,
            decreases self.attached.len() - i,
        {
            if self.attached[i].symbol == symbol {
                assert(self@.active()[i as int] == (HookEntry {
                    symbol,
                    original: self.attached@[i as int].original,
                }));
                return Some(self.attached[i].original);
            }
            i += 1;
        }
        None
    }
}

/// No event leads out of the tables that an installation can reach.
pub proof fn law_next_keeps_wf(t: Table, event: InstallEvent)
    requires
        t.wf(),
    ensures
        t.next(event).wf(),
{
}

/// The plan never changes, and once the installation has ended, well or
/// not, no event changes anything: what was captured at attach time stays
/// as it is.
pub proof fn law_ended_installation_is_final(t: Table, events: Seq<InstallEvent>)
    ensures
        t.run(events).planned == t.planned,
        t.stage == Stage::Active || t.stage == Stage::Failed ==> t.run(events) == t,
    decreases events.len(),
{
    if events.len() > 0 {
        law_ended_installation_is_final(t, events.drop_last());
    }
}

/// No sequence of events leads out of the tables that an installation can
/// reach.
pub proof fn lemma_run_keeps_wf(t: Table, events: Seq<InstallEvent>)
    requires
        t.wf(),
    ensures
        t.run(events).wf(),
    decreases events.len(),
{
    if events.len() > 0 {
        lemma_run_keeps_wf(t, events.drop_last());
        law_next_keeps_wf(t.run(events.drop_last()), events.last());
    }
}

/// A failure stays on record: whatever is reported after an attach has
/// failed, no hook is active, and the installation ends with that failure
/// or is still waiting for the abort.
pub proof fn lemma_failure_stays(t: Table, events: Seq<InstallEvent>)
    requires
        t.wf(),
        t.failure is Some,
    ensures
        t.run(events).failure == t.failure,
        t.run(events).active().len() == 0,
        t.run(events).stage == Stage::Aborting || t.run(events).stage == Stage::Failed,
    decreases events.len(),
{
    if events.len() > 0 {
        lemma_failure_stays(t, events.drop_last());
        lemma_run_keeps_wf(t, events.drop_last());
    }
}

/// Installation is all or nothing. Take any symbols to attach and any
/// sequence of events: if the attach that is asked for at some point of it
/// is reported as failed, then at the end no hook is active, the failure
/// names the symbol that could not be attached, and the step that is asked
/// for is the abort or, after it, the report of that failure: never another
/// attach, never the commit.
pub proof fn law_installation_is_atomic(
    planned: Seq<Symbol>,
    before: Seq<InstallEvent>,
    after: Seq<InstallEvent>,
    symbol: Symbol,
)
    requires
        Table::initial(planned).run(before).step() == InstallStep::Attach(symbol),
    ensures
        Table::initial(planned).run(before + seq![InstallEvent::AttachFailed] + after).active().len()
            == 0,
        Table::initial(planned).run(before + seq![InstallEvent::AttachFailed] + after).failure
            == Some(symbol),
        Table::initial(planned).run(before + seq![InstallEvent::AttachFailed] + after).step()
            == InstallStep::Abort || Table::initial(planned).run(
            before + seq![InstallEvent::AttachFailed] + after,
        ).step() == InstallStep::Finish(Err(InstallError::AttachFailed(symbol))),
{
    let t0 = Table::initial(planned);
    let t1 = t0.run(before);
    lemma_run_keeps_wf(t0, before);
    let t2 = t1.next(InstallEvent::AttachFailed);
    law_next_keeps_wf(t1, InstallEvent::AttachFailed);
    assert(t2.failure == Some(symbol));
    lemma_run_append(t0, before, seq![InstallEvent::AttachFailed]);
    assert(t1.run(seq![InstallEvent::AttachFailed]) == t2) by {
        let one = seq![InstallEvent::AttachFailed];
        assert(one.drop_last() =~= Seq::<InstallEvent>::empty());
        assert(t1.run(one.drop_last()) == t1);
    }
    lemma_run_append(t0, before + seq![InstallEvent::AttachFailed], after);
    lemma_failure_stays(t2, after);
}

/// Running two sequences of events in a row is running their
/// concatenation.
pub proof fn lemma_run_append(t: Table, a: Seq<InstallEvent>, b: Seq<InstallEvent>)
    ensures
        t.run(a + b) == t.run(a).run(b),
    decreases b.len(),
{
    if b.len() == 0 {
        assert(a + b =~= a);
    } else {
        assert((a + b).drop_last() =~= a + b.drop_last());
        assert((a + b).last() == b.last());
        lemma_run_append(t, a, b.drop_last());
    }
}

/// Hooks are active only after a commit, and then all that were planned
/// are, in the planned order: whatever is reported, the active hooks are
/// none or one for each planned symbol.
pub proof fn law_active_hooks_all_or_none(planned: Seq<Symbol>, events: Seq<InstallEvent>)
    ensures
        Table::initial(planned).run(events).active().len() == 0 || (Table::initial(planned).run(
            events,
        ).active().len() == planned.len() && forall|i: int|
            0 <= i < planned.len() ==> (#[trigger] Table::initial(planned).run(
                events,
            ).active()[i]).symbol == planned[i]),
{
    let t0 = Table::initial(planned);
    lemma_run_keeps_wf(t0, events);
    law_ended_installation_is_final(t0, events);
}

} // verus!
