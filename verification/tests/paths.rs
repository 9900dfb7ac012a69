use electron_hook::paths::{
    asar_cache_dir, asar_cache_dir_in, asar_cache_path, asar_cache_path_in, data_profile_dir, data_profile_dir_in,
    data_profiles_dir, data_profiles_dir_in, home_in, mod_artifact_dir, mod_artifact_dir_in, mod_artifacts_dir,
    mod_artifacts_dir_in,
};
use std::path::PathBuf;

fn text(p: Option<PathBuf>) -> Option<String> {
    p.map(|p| p.to_string_lossy().into_owned())
}

#[test]
fn paths_below_a_cache_directory() {
    let root = "/home/CoolPerson/.cache";
    assert_eq!(home_in(root), "/home/CoolPerson/.cache/electron-hook");
    assert_eq!(asar_cache_dir_in(root), "/home/CoolPerson/.cache/electron-hook/asar");
    assert_eq!(
        asar_cache_path_in(root, "vencord-release"),
        "/home/CoolPerson/.cache/electron-hook/asar/vencord-release.asar"
    );
    assert_eq!(mod_artifacts_dir_in(root), "/home/CoolPerson/.cache/electron-hook/mods");
    assert_eq!(mod_artifact_dir_in(root, "vencord"), "/home/CoolPerson/.cache/electron-hook/mods/vencord");
}

#[test]
fn paths_below_a_data_directory() {
    let root = "/home/CoolPerson/.local/share";
    assert_eq!(data_profiles_dir_in(root), "/home/CoolPerson/.local/share/electron-hook/profiles");
    assert_eq!(
        data_profile_dir_in(root, "moonlight"),
        "/home/CoolPerson/.local/share/electron-hook/profiles/moonlight"
    );
}

#[test]
fn paths_agree_with_std_joins() {
    for root in ["/c", "/c/", "", "rel"] {
        for name in ["mod", "a/b", "/abs", ""] {
            let base = PathBuf::from(root).join("electron-hook");
            assert_eq!(
                asar_cache_path_in(root, name),
                base.join("asar").join(format!("{name}.asar")).to_string_lossy(),
                "{root:?} {name:?}"
            );
            assert_eq!(mod_artifact_dir_in(root, name), base.join("mods").join(name).to_string_lossy());
            assert_eq!(data_profile_dir_in(root, name), base.join("profiles").join(name).to_string_lossy());
        }
    }
}

#[test]
fn absolute_name_stands_for_itself() {
    assert_eq!(mod_artifact_dir_in("/c", "/elsewhere/mod"), "/elsewhere/mod");
    assert_eq!(asar_cache_path_in("/c", "/elsewhere/x"), "/elsewhere/x.asar");
}

#[test]
fn cache_paths_follow_the_users_cache_directory() {
    let base = dirs::cache_dir().map(|d| d.join("electron-hook"));
    assert_eq!(asar_cache_dir(), text(base.clone().map(|b| b.join("asar"))));
    assert_eq!(asar_cache_path("x"), text(base.clone().map(|b| b.join("asar").join("x.asar"))));
    assert_eq!(mod_artifacts_dir(), text(base.clone().map(|b| b.join("mods"))));
    assert_eq!(mod_artifact_dir("vencord"), text(base.map(|b| b.join("mods").join("vencord"))));
}

#[test]
fn data_paths_follow_the_users_data_directory() {
    let base = dirs::data_dir().map(|d| d.join("electron-hook"));
    assert_eq!(data_profiles_dir(), text(base.clone().map(|b| b.join("profiles"))));
    assert_eq!(data_profile_dir("moonlight"), text(base.map(|b| b.join("profiles").join("moonlight"))));
}
