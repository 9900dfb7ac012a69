use electron_hook::install::{
    entry_installs, HookTable, InstallError, InstallEvent, InstallStep, Symbol, PROCESS_ATTACH,
};
use electron_hook::launcher::Injection;

fn run(mut table: HookTable, events: &[InstallEvent]) -> HookTable {
    for e in events {
        table = table.advance(*e);
    }
    table
}

#[test]
fn entry_point_installs_on_process_attach_only() {
    assert_eq!(PROCESS_ATTACH, 1);
    assert!(entry_installs(1, false));
    assert!(!entry_installs(1, true));
    assert!(!entry_installs(0, false));
    assert!(!entry_installs(2, false));
    assert!(!entry_installs(3, true));
}

#[test]
fn windows_installation_attaches_in_order_and_commits() {
    let mut t = HookTable::new(Injection::RemoteLibrary, false);
    assert_eq!(t.step(), InstallStep::Begin);
    t = t.advance(InstallEvent::Begun);
    let order = [
        Symbol::GetFileAttributesW,
        Symbol::CreateFileW,
        Symbol::MoveFileExW,
        Symbol::CreateProcessW,
        Symbol::SetAppUserModelId,
    ];
    for (i, s) in order.iter().enumerate() {
        assert_eq!(t.step(), InstallStep::Attach(*s));
        assert_eq!(t.active_count(), 0);
        t = t.advance(InstallEvent::Attached { original: 0x1000 + i });
    }
    assert_eq!(t.step(), InstallStep::Commit);
    assert_eq!(t.active_count(), 0);
    t = t.advance(InstallEvent::Committed);
    assert_eq!(t.step(), InstallStep::Finish(Ok(())));
    assert_eq!(t.active_count(), 5);
    assert_eq!(t.original(Symbol::CreateFileW), Some(0x1001));
    assert_eq!(t.original(Symbol::SetAppUserModelId), Some(0x1004));
    assert_eq!(t.original(Symbol::UvFsLstat), None);
}

#[test]
fn uv_fs_lstat_is_attached_last_where_it_is_found() {
    let mut t = HookTable::new(Injection::RemoteLibrary, true);
    t = t.advance(InstallEvent::Begun);
    for i in 0..5 {
        t = t.advance(InstallEvent::Attached { original: i });
    }
    assert_eq!(t.step(), InstallStep::Attach(Symbol::UvFsLstat));
    t = t.advance(InstallEvent::Attached { original: 77 });
    t = t.advance(InstallEvent::Committed);
    assert_eq!(t.active_count(), 6);
    assert_eq!(t.original(Symbol::UvFsLstat), Some(77));
}

#[test]
fn failure_on_the_nth_attach_leaves_no_hook_active() {
    for n in 0..5usize {
        let mut t = HookTable::new(Injection::RemoteLibrary, false);
        t = t.advance(InstallEvent::Begun);
        for i in 0..n {
            t = t.advance(InstallEvent::Attached { original: i });
        }
        let failing = match t.step() {
            InstallStep::Attach(s) => s,
            other => panic!("expected an attach, got {other:?}"),
        };
        t = t.advance(InstallEvent::AttachFailed);
        assert_eq!(t.step(), InstallStep::Abort);
        assert_eq!(t.active_count(), 0);
        t = t.advance(InstallEvent::Aborted);
        assert_eq!(t.step(), InstallStep::Finish(Err(InstallError::AttachFailed(failing))));
        assert_eq!(t.active_count(), 0);
        assert_eq!(t.original(Symbol::GetFileAttributesW), None);
    }
}

#[test]
fn nothing_goes_on_after_a_failure() {
    let t = HookTable::new(Injection::RemoteLibrary, true);
    let t = run(
        t,
        &[
            InstallEvent::Begun,
            InstallEvent::Attached { original: 1 },
            InstallEvent::AttachFailed,
            InstallEvent::Attached { original: 2 },
            InstallEvent::Committed,
        ],
    );
    assert_eq!(t.step(), InstallStep::Abort);
    assert_eq!(t.active_count(), 0);
    let t = run(
        t,
        &[InstallEvent::Aborted, InstallEvent::Begun, InstallEvent::Attached { original: 3 }, InstallEvent::Committed],
    );
    assert_eq!(t.step(), InstallStep::Finish(Err(InstallError::AttachFailed(Symbol::CreateFileW))));
    assert_eq!(t.active_count(), 0);
}

#[test]
fn commit_before_every_attach_is_ignored() {
    let t = HookTable::new(Injection::RemoteLibrary, false);
    let t = run(t, &[InstallEvent::Begun, InstallEvent::Attached { original: 1 }, InstallEvent::Committed]);
    assert_eq!(t.step(), InstallStep::Attach(Symbol::CreateFileW));
    assert_eq!(t.active_count(), 0);
}

#[test]
fn events_before_begin_are_ignored() {
    let t = HookTable::new(Injection::RemoteLibrary, false);
    let t = run(t, &[InstallEvent::Attached { original: 1 }, InstallEvent::AttachFailed, InstallEvent::Committed, InstallEvent::Aborted]);
    assert_eq!(t.step(), InstallStep::Begin);
}

#[test]
fn preload_installs_uv_fs_lstat_then_enables() {
    let mut t = HookTable::new(Injection::Preload, false);
    t = t.advance(InstallEvent::Begun);
    assert_eq!(t.step(), InstallStep::Attach(Symbol::UvFsLstat));
    t = t.advance(InstallEvent::Attached { original: 9 });
    assert_eq!(t.step(), InstallStep::Commit);
    assert_eq!(t.active_count(), 0);
    t = t.advance(InstallEvent::Committed);
    assert_eq!(t.active_count(), 1);
    assert_eq!(t.original(Symbol::UvFsLstat), Some(9));
}

#[test]
fn preload_install_failure_enables_nothing() {
    let t = HookTable::new(Injection::Preload, true);
    let t = run(t, &[InstallEvent::Begun, InstallEvent::AttachFailed, InstallEvent::Committed, InstallEvent::Aborted]);
    assert_eq!(t.step(), InstallStep::Finish(Err(InstallError::AttachFailed(Symbol::UvFsLstat))));
    assert_eq!(t.active_count(), 0);
}

#[test]
fn interposing_attaches_nothing() {
    let mut t = HookTable::new(Injection::Interpose, true);
    t = t.advance(InstallEvent::Begun);
    assert_eq!(t.step(), InstallStep::Commit);
    t = t.advance(InstallEvent::AttachFailed);
    assert_eq!(t.step(), InstallStep::Commit);
    t = t.advance(InstallEvent::Committed);
    assert_eq!(t.step(), InstallStep::Finish(Ok(())));
    assert_eq!(t.active_count(), 0);
}

#[test]
fn committed_table_is_final() {
    let t = HookTable::new(Injection::Preload, false);
    let t = run(t, &[InstallEvent::Begun, InstallEvent::Attached { original: 9 }, InstallEvent::Committed]);
    let t = run(t, &[InstallEvent::AttachFailed, InstallEvent::Aborted, InstallEvent::Attached { original: 10 }, InstallEvent::Begun]);
    assert_eq!(t.step(), InstallStep::Finish(Ok(())));
    assert_eq!(t.original(Symbol::UvFsLstat), Some(9));
}

#[test]
fn install_error_message_names_the_symbol() {
    assert_eq!(
        InstallError::AttachFailed(Symbol::CreateFileW).message(),
        "Failed to hook CreateFileW. Please report this issue."
    );
    assert_eq!(
        InstallError::AttachFailed(Symbol::SetAppUserModelId).message(),
        "Failed to hook SetAUMID. Please report this issue."
    );
    assert_eq!(Symbol::UvFsLstat.name(), "uv_fs_lstat");
    assert_eq!(Symbol::GetFileAttributesW.name(), "GetFileAttributesW");
    assert_eq!(Symbol::MoveFileExW.name(), "MoveFileExW");
    assert_eq!(Symbol::CreateProcessW.name(), "CreateProcessW");
}
