use electron_hook::config::{ConfigurationChannel, EnvVar};
use electron_hook::launcher::{
    argv_value, command_line, holds_nul, join_texts, Injection, LaunchError, LaunchPlan, LaunchSpec, LaunchText,
    ProcessLauncher,
};
use electron_hook::pathname::PathStyle;
use electron_hook::redirect::{redirect, Redirect};
use electron_hook::launch;

fn strings(items: &[&str]) -> Vec<String> {
    items.iter().map(|s| s.to_string()).collect()
}

fn launcher(injection: Injection, forwarded: &[&str]) -> ProcessLauncher {
    ProcessLauncher {
        injection,
        current_executable: "/usr/bin/launcher".to_string(),
        forwarded_arguments: strings(forwarded),
    }
}

fn spec(executable: &str, detach: bool) -> LaunchSpec {
    LaunchSpec {
        executable: executable.to_string(),
        library_path: "/usr/lib/libhook.so".to_string(),
        asar_path: "/tmp/x.asar".to_string(),
        arguments: strings(&["--foo", "bar baz"]),
        profile_dir: None,
        detach,
    }
}

#[test]
fn preload_plan_names_everything() {
    let l = launcher(Injection::Preload, &["--mod", "a\"b"]);
    let plan = l.plan(spec("/opt/discord/Discord", true)).unwrap();
    let argv = serde_json::to_string(&strings(&["--mod", "a\"b"])).unwrap();
    assert_eq!(
        plan,
        LaunchPlan {
            program: "/opt/discord/Discord".to_string(),
            arguments: strings(&["--foo", "bar baz"]),
            command_line: None,
            working_dir: Some("/opt/discord".to_string()),
            environment: vec![
                EnvVar::new("LD_PRELOAD", "/usr/lib/libhook.so"),
                EnvVar::new("MODLOADER_ASAR_PATH", "/tmp/x.asar"),
                EnvVar::new("MODLOADER_LIBRARY_PATH", "/usr/lib/libhook.so"),
                EnvVar::new("MODLOADER_EXECUTABLE", "/usr/bin/launcher"),
                EnvVar::new("MODLOADER_ORIGINAL_ASAR_RELATIVE", "../_app.asar"),
                EnvVar::new("MODLOADER_PROCESS_ARGV", &argv),
            ],
            injected_library: None,
            new_session: true,
            null_streams: true,
            wait_for_exit: false,
        }
    );
}

#[test]
fn process_argv_is_the_json_of_the_forwarded_arguments() {
    let l = launcher(Injection::Preload, &["--mod", "vencord"]);
    let plan = l.plan(spec("/opt/discord/Discord", false)).unwrap();
    let c = ConfigurationChannel::from_environment(&plan.environment);
    assert_eq!(c.process_argv, Some("[\"--mod\",\"vencord\"]".to_string()));
    let l = launcher(Injection::Preload, &[]);
    let plan = l.plan(spec("/opt/discord/Discord", false)).unwrap();
    let c = ConfigurationChannel::from_environment(&plan.environment);
    assert_eq!(c.process_argv, Some("[]".to_string()));
}

#[test]
fn process_argv_does_not_depend_on_the_targets_arguments() {
    let l = launcher(Injection::Preload, &["--mod", "vencord"]);
    let mut s = spec("/opt/discord/Discord", false);
    s.arguments = strings(&["--other"]);
    let plan = l.plan(s).unwrap();
    let c = ConfigurationChannel::from_environment(&plan.environment);
    let decoded: Vec<String> = serde_json::from_str(c.process_argv.as_deref().unwrap()).unwrap();
    assert_eq!(decoded, strings(&["--mod", "vencord"]));
}

#[test]
fn argv_value_falls_back_to_the_empty_list() {
    assert_eq!(argv_value::<()>(Ok("[\"a\"]".to_string())), "[\"a\"]");
    assert_eq!(argv_value(Err(())), "[]");
    assert_eq!(argv_value(Err("boom")), "[]");
}

#[test]
fn attached_plan_waits_and_keeps_session_and_streams() {
    let l = launcher(Injection::Preload, &[]);
    let plan = l.plan(spec("/opt/discord/Discord", false)).unwrap();
    assert!(plan.wait_for_exit);
    assert!(!plan.new_session);
    assert!(!plan.null_streams);
}

#[test]
fn interpose_plan_uses_the_macos_variable() {
    let l = launcher(Injection::Interpose, &[]);
    let plan = l.plan(spec("/Applications/Discord.app/Contents/MacOS/Discord", true)).unwrap();
    assert_eq!(plan.environment[0], EnvVar::new("DYLD_INSERT_LIBRARIES", "/usr/lib/libhook.so"));
    assert_eq!(plan.working_dir, Some("/Applications/Discord.app/Contents/MacOS".to_string()));
    assert_eq!(plan.injected_library, None);
    assert_eq!(plan.command_line, None);
}

#[test]
fn windows_plan_injects_into_a_suspended_process() {
    let l = ProcessLauncher {
        injection: Injection::RemoteLibrary,
        current_executable: "C:\\mods\\launcher.exe".to_string(),
        forwarded_arguments: Vec::new(),
    };
    let exe = "C:\\Users\\u\\AppData\\Local\\Discord\\app-1.0.9001\\Discord.exe";
    let s = LaunchSpec {
        executable: exe.to_string(),
        library_path: "C:\\mods\\hook.dll".to_string(),
        asar_path: "C:\\mods\\x.asar".to_string(),
        arguments: strings(&["--a", "b"]),
        profile_dir: None,
        detach: true,
    };
    let plan = l.plan(s).unwrap();
    assert_eq!(plan.program, exe);
    assert_eq!(plan.command_line, Some(format!("\"{exe}\" --a b")));
    assert_eq!(plan.working_dir, Some("C:\\Users\\u\\AppData\\Local\\Discord\\app-1.0.9001".to_string()));
    assert_eq!(plan.injected_library, Some("C:\\mods\\hook.dll".to_string()));
    let c = ConfigurationChannel::from_environment(&plan.environment);
    assert_eq!(c.folder_name, Some("app-1.0.9001".to_string()));
    assert_eq!(c.asar_path, Some("C:\\mods\\x.asar".to_string()));
    assert_eq!(c.library_path, Some("C:\\mods\\hook.dll".to_string()));
    assert_eq!(c.executable, Some("C:\\mods\\launcher.exe".to_string()));
    assert_eq!(c.original_asar_relative, Some("../_app.asar".to_string()));
    assert_eq!(plan.environment[0].name, "MODLOADER_ASAR_PATH");
}

#[test]
fn profile_directory_sets_the_working_directory() {
    let l = launcher(Injection::Preload, &[]);
    let mut s = spec("/opt/discord/Discord", true);
    s.profile_dir = Some("/home/u/.local/share/electron-hook/profiles/moonlight".to_string());
    let plan = l.plan(s).unwrap();
    assert_eq!(plan.working_dir, Some("/home/u/.local/share/electron-hook/profiles".to_string()));
    let c = ConfigurationChannel::from_environment(&plan.environment);
    assert_eq!(c.profile_dir, Some("/home/u/.local/share/electron-hook/profiles/moonlight".to_string()));
}

#[test]
fn plan_errors() {
    let l = launcher(Injection::Preload, &[]);
    assert_eq!(l.plan(spec("/", true)), Err(LaunchError::ExecutableWithoutParent));
    assert_eq!(l.plan(spec("", true)), Err(LaunchError::ExecutableWithoutParent));
    let mut s = spec("/opt/discord/Discord", true);
    s.profile_dir = Some("/".to_string());
    assert_eq!(l.plan(s), Err(LaunchError::ProfileWithoutParent));
}

#[test]
fn windows_plan_errors_in_order() {
    let l = launcher(Injection::RemoteLibrary, &[]);
    let good = "C:\\d\\app-1\\Discord.exe";
    let mk = |exe: &str, lib: &str, args: &[&str], profile: Option<&str>| LaunchSpec {
        executable: exe.to_string(),
        library_path: lib.to_string(),
        asar_path: "x.asar".to_string(),
        arguments: strings(args),
        profile_dir: profile.map(|p| p.to_string()),
        detach: true,
    };
    assert_eq!(l.plan(mk("\\", "h\0.dll", &[], None)), Err(LaunchError::ExecutableWithoutParent));
    assert_eq!(
        l.plan(mk("\\Discord.exe", "h\0.dll", &[], None)),
        Err(LaunchError::InteriorNul(LaunchText::LibraryPath))
    );
    assert_eq!(l.plan(mk("\\Discord.exe", "h.dll", &[], None)), Err(LaunchError::FolderNameUndeterminable));
    assert_eq!(l.plan(mk("..\\Discord.exe", "h.dll", &[], None)), Err(LaunchError::FolderNameUndeterminable));
    assert_eq!(l.plan(mk("C:\\Discord.exe", "h.dll", &[], None)), Err(LaunchError::FolderNameUndeterminable));
    assert_eq!(
        l.plan(mk(good, "h.dll", &[], Some("C:\\p\0\\q"))),
        Err(LaunchError::InteriorNul(LaunchText::WorkingDirectory))
    );
    assert_eq!(
        l.plan(mk("C:\\d\\app-1\\Dis\0cord.exe", "h.dll", &[], Some("C:\\p\\q"))),
        Err(LaunchError::InteriorNul(LaunchText::Executable))
    );
    assert_eq!(
        l.plan(mk(good, "h.dll", &["a\0b"], None)),
        Err(LaunchError::InteriorNul(LaunchText::CommandLine))
    );
    assert!(l.plan(mk(good, "h.dll", &["ab"], None)).is_ok());
}

#[test]
fn launch_builds_the_same_plan_as_the_launcher() {
    let l = launcher(Injection::Preload, &["x"]);
    let plan = launch(
        "/opt/discord/Discord",
        "/usr/lib/libhook.so",
        "/tmp/x.asar",
        strings(&["--foo", "bar baz"]),
        None,
        true,
        &l,
    );
    assert_eq!(plan, l.plan(spec("/opt/discord/Discord", true)));
    let with_profile = launch("/opt/d/D", "h.so", "/tmp/x.asar", Vec::new(), Some("/p/q"), false, &l).unwrap();
    assert_eq!(with_profile.working_dir, Some("/p".to_string()));
    assert!(with_profile.wait_for_exit);
    assert_eq!(
        launch("Discord", "h.so", "/tmp/x.asar", Vec::new(), None, false, &l).unwrap().working_dir,
        Some(String::new())
    );
}

#[test]
fn launched_target_resolves_the_archive_it_was_given() {
    let l = launcher(Injection::Preload, &[]);
    let plan = launch("/opt/discord/Discord", "/usr/lib/libhook.so", "/tmp/x.asar", Vec::new(), None, true, &l)
        .unwrap();
    let channel = ConfigurationChannel::from_environment(&plan.environment);
    assert_eq!(
        redirect(PathStyle::Posix, "/opt/discord/resources/app.asar", &channel),
        Ok(Redirect::RewriteToReplacement("/tmp/x.asar".to_string()))
    );
}

#[test]
fn launched_windows_target_resolves_the_archive_in_its_own_folder() {
    let l = launcher(Injection::RemoteLibrary, &[]);
    let plan = launch(
        "C:\\d\\app-1.0.9001\\Discord.exe",
        "C:\\m\\hook.dll",
        "C:\\m\\x.asar",
        Vec::new(),
        None,
        true,
        &l,
    )
    .unwrap();
    let channel = ConfigurationChannel::from_environment(&plan.environment);
    assert_eq!(
        redirect(PathStyle::Windows, "C:\\d\\app-1.0.9001\\resources\\app.asar", &channel),
        Ok(Redirect::RewriteToReplacement("C:\\m\\x.asar".to_string()))
    );
    assert_eq!(
        redirect(PathStyle::Windows, "C:\\d\\app-1.0.9002\\resources\\app.asar", &channel),
        Ok(Redirect::Unchanged)
    );
}

#[test]
fn command_line_quotes_the_executable() {
    assert_eq!(command_line("C:\\a b\\x.exe", &strings(&["--a", "b c"])), "\"C:\\a b\\x.exe\" --a b c");
    assert_eq!(command_line("x.exe", &Vec::new()), "\"x.exe\" ");
}

#[test]
fn join_texts_agrees_with_std() {
    for items in [vec![], vec!["a"], vec!["a", "b"], vec!["", "", "c"], vec!["x y", "z"]] {
        let v = strings(&items);
        assert_eq!(join_texts(&v, " "), v.join(" "));
        assert_eq!(join_texts(&v, ", "), v.join(", "));
        assert_eq!(join_texts(&v, ""), v.join(""));
    }
}

#[test]
fn nul_detection() {
    assert!(holds_nul("a\0b"));
    assert!(holds_nul("\0"));
    assert!(!holds_nul("ab"));
    assert!(!holds_nul(""));
}

#[test]
fn injection_properties() {
    assert_eq!(Injection::Preload.style(), PathStyle::Posix);
    assert_eq!(Injection::Interpose.style(), PathStyle::Posix);
    assert_eq!(Injection::RemoteLibrary.style(), PathStyle::Windows);
    assert_eq!(Injection::Preload.variable(), Some("LD_PRELOAD"));
    assert_eq!(Injection::Interpose.variable(), Some("DYLD_INSERT_LIBRARIES"));
    assert_eq!(Injection::RemoteLibrary.variable(), None);
}

#[test]
fn launch_error_messages() {
    assert_eq!(LaunchError::ExecutableWithoutParent.message(), "Failed to get parent directory from executable");
    assert_eq!(LaunchError::ProfileWithoutParent.message(), "Failed to get parent directory from profile directory");
    assert_eq!(LaunchError::FolderNameUndeterminable.message(), "Failed to get directory name as string");
    assert_eq!(
        LaunchError::InteriorNul(LaunchText::LibraryPath).message(),
        "Failed to convert shared object path to CString"
    );
    assert_eq!(
        LaunchError::InteriorNul(LaunchText::WorkingDirectory).message(),
        "Failed to convert directory path to CString"
    );
    assert_eq!(
        LaunchError::InteriorNul(LaunchText::Executable).message(),
        "Failed to convert executable path to CString"
    );
    assert_eq!(
        LaunchError::InteriorNul(LaunchText::CommandLine).message(),
        "Failed to convert command line to CString"
    );
    assert_eq!(LaunchError::AsarPathWithoutParent.message(), "Failed to get parent directory from asar path");
    assert_eq!(LaunchError::EntrypointNotSet.message(), "MODLOADER_MOD_ENTRYPOINT not set");
    assert_eq!(
        LaunchError::EntrypointWithoutParent.message(),
        "Failed to get parent directory from mod entrypoint"
    );
    assert_eq!(LaunchError::SpawnFailed.message(), "Failed to launch instance");
    assert_eq!(
        LaunchError::InjectionFailed.message(),
        "Failed to hook CreateProcessW. Please report this issue."
    );
    assert_eq!(LaunchError::WaitFailed.message(), "Process exited unexpectedly");
}
