use bottle_installer::resolver::cache_dir;
use bottle_installer::resolver::installation_path;
use bottle_installer::resolver::resolve_bottle;
use bottle_installer::resolver::Client;

#[test]
fn name_resolves_under_bottles_directory() {
    let r = resolve_bottle("/Users/u", "MyBottle");
    assert_eq!(
        r.as_deref(),
        Some("/Users/u/Library/Application Support/CrossOver/Bottles/MyBottle")
    );
}

#[test]
fn name_input_is_trimmed_first() {
    let r = resolve_bottle("/Users/u", "  MyBottle \n");
    assert_eq!(
        r.as_deref(),
        Some("/Users/u/Library/Application Support/CrossOver/Bottles/MyBottle")
    );
}

#[test]
fn path_flag_strips_backslashes_and_trims() {
    let r = resolve_bottle("/Users/u", "--path  C:\\some\\escaped path");
    assert_eq!(r.as_deref(), Some("C:someescaped path"));
}

#[test]
fn path_flag_takes_rest_after_first_space() {
    let r = resolve_bottle("/Users/u", "--path /b/My Bottle");
    assert_eq!(r.as_deref(), Some("/b/My Bottle"));
}

#[test]
fn path_flag_without_value_names_no_path() {
    assert_eq!(resolve_bottle("/Users/u", "--path"), None);
    assert_eq!(resolve_bottle("/Users/u", "  --path\n"), None);
}

#[test]
fn installation_layouts_differ_by_client() {
    assert_eq!(
        installation_path("/b", Client::BattleNet),
        "/b/drive_c/Program Files (x86)/Overwatch/_retail_"
    );
    assert_eq!(
        installation_path("/b", Client::Steam),
        "/b/drive_c/Program Files (x86)/Steam/steamapps/common/Overwatch"
    );
}

#[test]
fn cache_directories_differ_by_client() {
    assert_eq!(
        cache_dir("/b", Client::BattleNet),
        "/b/drive_c/Program Files (x86)/Overwatch/_retail_"
    );
    assert_eq!(
        cache_dir("/b", Client::Steam),
        "/b/drive_c/Program Files (x86)/Steam/steamapps/shadercache/2357570/DXVK_state_cache"
    );
}
