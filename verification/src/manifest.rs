//! The fixed dependency manifest: the remote assets the installer
//! fetches, the local names they are saved under, and the names of the
//! files and directories the unpack and placement stages read.

use vstd::prelude::*;

verus! {

/// One remote asset to fetch into the scratch directory.
pub struct DownloadSpec {
    /// Remote URL the asset is fetched from.
    pub url: String,
    /// Local file name the asset is saved under in the scratch directory.
    pub file_name: String,
    /// Whether the download client must be told the file name explicitly:
    /// true for the opaque export links, whose URLs do not end in a
    /// usable name; false where the name is the last URL segment.
    pub explicit_name: bool,
}

/// Local name of the graphics-translation archive (a gzip-compressed tar).
pub open spec fn dxvk_archive_name() -> Seq<char> {
    "dxvk-macOS-async-v1.10.3-20230402-CrossOver.tar.gz"@
}

/// Local name of the platform-abstraction archive (a plain tar).
pub open spec fn moltenvk_archive_name() -> Seq<char> {
    "MoltenVK-macos.tar"@
}

/// Local name of the precompiled shader-cache binary.
pub open spec fn cache_file_name() -> Seq<char> {
    "Overwatch.dxvk-cache"@
}

/// Local name of the settings file.
pub open spec fn settings_file_name() -> Seq<char> {
    "Settings_v0.ini"@
}

/// Name of the directory the graphics-translation archive unpacks to.
pub open spec fn dxvk_unpacked_dir() -> Seq<char> {
    "dxvk-macOS-async-v1.10.3-20230402-CrossOver"@
}

/// `v` is the fixed dependency manifest: the two archives under their
/// URL-derived names, then the shader cache and the settings file under
/// explicit names, since their export-link URLs do not encode a name.
pub open spec fn is_dependency_manifest(v: Seq<DownloadSpec>) -> bool {
    &&& v.len() == 4
    &&& v[0].url@
        == "https://github.com/Gcenx/DXVK-macOS/releases/download/v1.10.3-20230402/dxvk-macOS-async-v1.10.3-20230402-CrossOver.tar.gz"@
    &&& v[0].file_name@ == dxvk_archive_name()
    &&& !v[0].explicit_name
    &&& v[1].url@ == "https://github.com/KhronosGroup/MoltenVK/releases/download/v1.2.4/MoltenVK-macos.tar"@
    &&& v[1].file_name@ == moltenvk_archive_name()
    &&& !v[1].explicit_name
    &&& v[2].url@ == "https://drive.google.com/uc?id=1bEkruqhvQTwjv5V2ZmmQIWsAwhuIAPT_&export=download"@
    &&& v[2].file_name@ == cache_file_name()
    &&& v[2].explicit_name
    &&& v[3].url@ == "https://drive.google.com/uc?id=1xQMN3YFnmIUb5oj15qQdCWetjkM22IyD&export=download"@
    &&& v[3].file_name@ == settings_file_name()
    &&& v[3].explicit_name
}

/// The fixed table of remote assets the fetch stage downloads.
pub fn dependency_manifest() -> (r: Vec<DownloadSpec>)
    ensures
        is_dependency_manifest(r@),
{
    let mut v: Vec<DownloadSpec> = Vec::new();
    v.push(
        DownloadSpec {
            url: "https://github.com/Gcenx/DXVK-macOS/releases/download/v1.10.3-20230402/dxvk-macOS-async-v1.10.3-20230402-CrossOver.tar.gz".to_owned(),
            file_name: "dxvk-macOS-async-v1.10.3-20230402-CrossOver.tar.gz".to_owned(),
            explicit_name: false,
        },
    );
    v.push(
        DownloadSpec {
            url: "https://github.com/KhronosGroup/MoltenVK/releases/download/v1.2.4/MoltenVK-macos.tar".to_owned(),
            file_name: "MoltenVK-macos.tar".to_owned(),
            explicit_name: false,
        },
    );
    v.push(
        DownloadSpec {
            url: "https://drive.google.com/uc?id=1bEkruqhvQTwjv5V2ZmmQIWsAwhuIAPT_&export=download".to_owned(),
            file_name: "Overwatch.dxvk-cache".to_owned(),
            explicit_name: true,
        },
    );
    v.push(
        DownloadSpec {
            url: "https://drive.google.com/uc?id=1xQMN3YFnmIUb5oj15qQdCWetjkM22IyD&export=download".to_owned(),
            file_name: "Settings_v0.ini".to_owned(),
            explicit_name: true,
        },
    );
    v
}

/// The two environment-variable lines the config patcher keeps present
/// in the environment's configuration file.
pub open spec fn is_required_config_lines(v: Seq<Seq<char>>) -> bool {
    &&& v.len() == 2
    &&& v[0] == "\"MVK_ALLOW_METAL_FENCES\" = \"1\""@
    &&& v[1] == "\"WINEESYNC\" = \"1\""@
}

/// The environment-variable lines the config patcher ensures are present.
pub fn required_config_lines() -> (r: Vec<String>)
    ensures
        is_required_config_lines(r.deep_view()),
{
    let mut v: Vec<String> = Vec::new();
    v.push("\"MVK_ALLOW_METAL_FENCES\" = \"1\"".to_owned());
    v.push("\"WINEESYNC\" = \"1\"".to_owned());
    proof {
        assert(v.deep_view()[0] == v@[0]@);
        assert(v.deep_view()[1] == v@[1]@);
    }
    v
}

} // verus!
