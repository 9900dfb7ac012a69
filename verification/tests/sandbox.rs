use electron_hook::launcher::{LaunchError, LaunchPlan};
use electron_hook::sandbox::{
    launch_sandboxed, library_candidate, translate_executable, translate_library_path, SandboxHost,
};
use electron_hook::{launch_flatpak, FlatpakID};

fn host(local: bool) -> SandboxHost {
    SandboxHost {
        current_dir: "/work/dir".to_string(),
        library_is_local_file: local,
        mod_entrypoint: Some("/home/u/.cache/electron-hook/mods/vencord/patcher.js".to_string()),
        current_executable: "/usr/bin/launcher".to_string(),
    }
}

#[test]
fn library_outside_home_is_found_under_the_host_mount() {
    assert_eq!(translate_library_path("/usr/lib/foo.so", "/work", false), "/run/host/usr/lib/foo.so");
    assert_eq!(translate_library_path("/usr/lib/foo.so", "/work", true), "/run/host/usr/lib/foo.so");
    assert_eq!(translate_library_path("/opt/x/foo.so", "/work", false), "/run/host/opt/x/foo.so");
}

#[test]
fn library_under_home_is_unchanged() {
    assert_eq!(translate_library_path("/home/u/foo.so", "/work", false), "/home/u/foo.so");
    assert_eq!(translate_library_path("/home/u/foo.so", "/work", true), "/home/u/foo.so");
    assert_eq!(translate_library_path("/home", "/work", false), "/home");
    assert_eq!(translate_library_path("/home/", "/work", false), "/home/");
}

#[test]
fn library_that_only_begins_like_home_is_found_under_the_host_mount() {
    assert_eq!(translate_library_path("/homebrew/lib/foo.so", "/work", false), "/run/host/homebrew/lib/foo.so");
    assert_eq!(translate_library_path("/homebrew/lib/foo.so", "/work", true), "/run/host/homebrew/lib/foo.so");
    assert_eq!(translate_library_path("/home2", "/work", false), "/run/host/home2");
}

#[test]
fn sandboxed_launch_prefixes_a_library_outside_the_home_tree() {
    let id = FlatpakID::User("app.id".to_string());
    let mut h = host(false);
    h.mod_entrypoint = Some("/home/u/mods/m/index.js".to_string());
    let plan = launch_flatpak(&id, "/homebrew/lib/foo.so", "/tmp/x.asar", Vec::new(), true, &h).unwrap();
    assert!(plan.arguments.contains(&"--env=ZYPAK_LD_PRELOAD=/run/host/homebrew/lib/foo.so".to_string()));
    assert!(plan.arguments.contains(&"--env=MODLOADER_LIBRARY_PATH=/run/host/homebrew/lib/foo.so".to_string()));
}

#[test]
fn bare_library_in_the_current_directory_gets_its_absolute_path() {
    assert_eq!(translate_library_path("foo.so", "/work/dir", true), "/work/dir/foo.so");
    assert_eq!(translate_library_path("sub/foo.so", "/work/dir/", true), "/work/dir/sub/foo.so");
}

#[test]
fn bare_library_elsewhere_is_a_system_library() {
    assert_eq!(translate_library_path("foo.so", "/work/dir", false), "/run/host/usr/lib/foo.so");
    assert_eq!(translate_library_path("", "/work/dir", false), "/run/host/usr/lib/");
}

#[test]
fn candidate_is_asked_for_bare_names_only() {
    assert_eq!(library_candidate("foo.so", "/work/dir"), Some("/work/dir/foo.so".to_string()));
    assert_eq!(library_candidate("home/foo.so", "/"), Some("/home/foo.so".to_string()));
    assert_eq!(library_candidate("/usr/lib/foo.so", "/work/dir"), None);
    assert_eq!(library_candidate("/home/u/foo.so", "/work/dir"), None);
}

#[test]
fn executable_under_usr_is_found_under_the_host_mount() {
    assert_eq!(translate_executable("/usr/bin/launcher"), "/run/host/usr/bin/launcher");
    assert_eq!(translate_executable("/home/u/bin/launcher"), "/home/u/bin/launcher");
    assert_eq!(translate_executable("/opt/launcher"), "/opt/launcher");
    assert_eq!(translate_executable("usr/launcher"), "usr/launcher");
}

#[test]
fn flatpak_id_names_the_package_and_its_installation() {
    let user = FlatpakID::User("com.discordapp.Discord".to_string());
    let system = FlatpakID::System("com.discordapp.Discord".to_string());
    assert_eq!(user.to_string(), "com.discordapp.Discord");
    assert_eq!(system.to_string(), "com.discordapp.Discord");
    assert_eq!(user.scope_flag(), "--user");
    assert_eq!(system.scope_flag(), "--system");
}

#[test]
fn sandboxed_plan_names_grants_and_settings() {
    let id = FlatpakID::User("com.discordapp.Discord".to_string());
    let args = vec!["--start-minimized".to_string(), "--filesystem=home".to_string()];
    let plan = launch_flatpak(&id, "/usr/lib/foo.so", "/home/u/.cache/electron-hook/asar/x.asar", args, true, &host(false))
        .unwrap();
    let expected: Vec<String> = [
        "run",
        "--user",
        "--filesystem=/home/u/.cache/electron-hook/asar:ro",
        "--filesystem=/run/host/usr/lib/foo.so:ro",
        "--filesystem=/run/host/usr/bin/launcher:ro",
        "--filesystem=/home/u/.cache/electron-hook/mods/vencord:create",
        "--env=ZYPAK_LD_PRELOAD=/run/host/usr/lib/foo.so",
        "--env=MODLOADER_ASAR_PATH=/home/u/.cache/electron-hook/asar/x.asar",
        "--env=MODLOADER_EXECUTABLE=/run/host/usr/bin/launcher",
        "--env=MODLOADER_LIBRARY_PATH=/run/host/usr/lib/foo.so",
        "--env=MODLOADER_ORIGINAL_ASAR_RELATIVE=../_app.asar",
        "com.discordapp.Discord",
        "--start-minimized",
        "--filesystem=home",
    ]
    .iter()
    .map(|s| s.to_string())
    .collect();
    assert_eq!(
        plan,
        LaunchPlan {
            program: "flatpak".to_string(),
            arguments: expected,
            command_line: None,
            working_dir: None,
            environment: Vec::new(),
            injected_library: None,
            new_session: true,
            null_streams: true,
            wait_for_exit: false,
        }
    );
}

#[test]
fn sandbox_is_granted_the_four_named_places_only() {
    let id = FlatpakID::System("app.id".to_string());
    let plan = launch_flatpak(&id, "foo.so", "/a/x.asar", Vec::new(), false, &host(true)).unwrap();
    let id_at = plan.arguments.iter().position(|a| a == "app.id").unwrap();
    let grants: Vec<&String> =
        plan.arguments[..id_at].iter().filter(|a| a.starts_with("--filesystem=")).collect();
    assert_eq!(
        grants,
        vec![
            "--filesystem=/a:ro",
            "--filesystem=/work/dir/foo.so:ro",
            "--filesystem=/run/host/usr/bin/launcher:ro",
            "--filesystem=/home/u/.cache/electron-hook/mods/vencord:create",
        ]
    );
    assert_eq!(plan.arguments[1], "--system");
    assert!(plan.wait_for_exit);
    assert!(!plan.null_streams);
}

#[test]
fn sandboxed_plan_errors_in_order() {
    let id = FlatpakID::User("app.id".to_string());
    let mut h = host(false);
    h.mod_entrypoint = None;
    assert_eq!(
        launch_sandboxed(&id, "foo.so", "/", &Vec::new(), true, &h),
        Err(LaunchError::AsarPathWithoutParent)
    );
    assert_eq!(
        launch_sandboxed(&id, "foo.so", "/a/x.asar", &Vec::new(), true, &h),
        Err(LaunchError::EntrypointNotSet)
    );
    h.mod_entrypoint = Some("/".to_string());
    assert_eq!(
        launch_sandboxed(&id, "foo.so", "/a/x.asar", &Vec::new(), true, &h),
        Err(LaunchError::EntrypointWithoutParent)
    );
    h.mod_entrypoint = Some("patcher.js".to_string());
    let plan = launch_sandboxed(&id, "foo.so", "x.asar", &Vec::new(), true, &h).unwrap();
    assert_eq!(plan.arguments[2], "--filesystem=:ro");
    assert_eq!(plan.arguments[5], "--filesystem=:create");
}
