use electron_hook::config::{ConfigError, ConfigurationChannel, Key};
use electron_hook::hooks::{after_injection, app_user_model_id, respawn, unsetenv, AfterInjection, Respawn, Unset};

fn with_library() -> ConfigurationChannel {
    let mut c = ConfigurationChannel::empty();
    c.library_path = Some("C:\\mods\\hook.dll".to_string());
    c.executable = Some("C:\\mods\\launcher.exe".to_string());
    c
}

#[test]
fn respawn_without_options_is_hooked_again() {
    let c = with_library();
    let inject = Ok(Respawn::Inject { library: "C:\\mods\\hook.dll".to_string() });
    assert_eq!(respawn("\"C:\\d\\app-1.0.9002\\Discord.exe\"", &c), inject);
    assert_eq!(respawn("", &c), inject);
    assert_eq!(respawn("Discord.exe -x", &c), inject);
}

#[test]
fn renderer_passes_through() {
    let c = with_library();
    assert_eq!(
        respawn("\"C:\\Discord\\app-1.0.9002\\Discord.exe\" --type=renderer --lang=en", &c),
        Ok(Respawn::PassThrough)
    );
    assert_eq!(respawn("Discord.exe --type=renderer", &ConfigurationChannel::empty()), Ok(Respawn::PassThrough));
}

#[test]
fn helpers_with_options_pass_through() {
    let c = with_library();
    assert_eq!(respawn("Discord.exe --type=gpu-process", &c), Ok(Respawn::PassThrough));
    assert_eq!(respawn("Discord.exe --squirrel-firstrun", &c), Ok(Respawn::PassThrough));
    assert_eq!(respawn("Discord.exe --type=utility", &ConfigurationChannel::empty()), Ok(Respawn::PassThrough));
}

#[test]
fn respawn_needs_the_library_path_to_inject() {
    assert_eq!(
        respawn("Discord.exe", &ConfigurationChannel::empty()),
        Err(ConfigError::Missing(Key::LibraryPath))
    );
}

#[test]
fn after_injection_resumes_only_what_exists() {
    assert_eq!(after_injection(true), AfterInjection::ResumeThread);
    assert_eq!(after_injection(false), AfterInjection::ReportFailure);
}

#[test]
fn unsetenv_keeps_the_preload() {
    let c = with_library();
    assert_eq!(unsetenv("LD_PRELOAD", &c), Ok(Unset::KeepPreload { library: "C:\\mods\\hook.dll".to_string() }));
    assert_eq!(unsetenv("LD_PRELOAD_", &c), Ok(Unset::CallOriginal));
    assert_eq!(unsetenv("ld_preload", &c), Ok(Unset::CallOriginal));
    assert_eq!(unsetenv("HOME", &ConfigurationChannel::empty()), Ok(Unset::CallOriginal));
    assert_eq!(unsetenv("", &c), Ok(Unset::CallOriginal));
}

#[test]
fn unsetenv_needs_the_library_path_for_the_preload() {
    assert_eq!(
        unsetenv("LD_PRELOAD", &ConfigurationChannel::empty()),
        Err(ConfigError::Missing(Key::LibraryPath))
    );
}

#[test]
fn taskbar_identity_is_the_launcher() {
    assert_eq!(app_user_model_id(&with_library()), Ok("C:\\mods\\launcher.exe".to_string()));
    assert_eq!(
        app_user_model_id(&ConfigurationChannel::empty()),
        Err(ConfigError::Missing(Key::Executable))
    );
}
