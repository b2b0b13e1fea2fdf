use mcapi::hangar::Platform;
use mcapi::{fabric, forge, hangar, mclogs, papermc, purpurmc, quilt, vanilla};

#[test]
fn fabric_addresses() {
    assert_eq!(fabric::supported_versions_url(), "https://meta.fabricmc.net/v2/versions/game");
    assert_eq!(fabric::loaders_url(), "https://meta.fabricmc.net/v2/versions/loader");
    assert_eq!(fabric::installers_url(), "https://meta.fabricmc.net/v2/versions/installer");
    assert_eq!(
        fabric::server_jar_url("1.20.1", "0.14.21", "0.11.2"),
        "https://meta.fabricmc.net/v2/versions/loader/1.20.1/0.14.21/0.11.2/server/jar"
    );
}

#[test]
fn hangar_addresses() {
    assert_eq!(hangar::project_url("Essentials"), "https://hangar.papermc.io/api/v1/projects/Essentials");
    assert_eq!(
        hangar::project_versions_url("Essentials"),
        "https://hangar.papermc.io/api/v1/projects/Essentials/versions"
    );
    assert_eq!(
        hangar::project_version_url("Essentials", "2.20"),
        "https://hangar.papermc.io/api/v1/projects/Essentials/versions/2.20"
    );
    assert_eq!(
        hangar::latest_version_url("Essentials"),
        "https://hangar.papermc.io/api/v1/projects/Essentials/latest"
    );
    assert_eq!(
        hangar::latest_release_url("Essentials"),
        "https://hangar.papermc.io/api/v1/projects/Essentials/latestrelease"
    );
    assert_eq!(
        hangar::download_url("Essentials", "2.20", &Platform::Velocity),
        "https://hangar.papermc.io/api/v1/projects/Essentials/versions/2.20/VELOCITY/download"
    );
}

#[test]
fn mclogs_addresses() {
    assert_eq!(mclogs::upload_url(), "https://api.mclo.gs/1/log");
    assert_eq!(mclogs::raw_log_url("abc"), "https://api.mclo.gs/1/raw/abc");
    assert_eq!(mclogs::insights_url("abc"), "https://api.mclo.gs/1/insights/abc");
}

#[test]
fn papermc_addresses() {
    let base = "https://api.papermc.io/v2";
    assert_eq!(papermc::projects_url(), format!("{base}/projects"));
    assert_eq!(papermc::project_url("paper"), format!("{base}/projects/paper"));
    assert_eq!(papermc::version_url("paper", "1.20"), format!("{base}/projects/paper/versions/1.20"));
    assert_eq!(
        papermc::builds_url("paper", "1.20"),
        format!("{base}/projects/paper/versions/1.20/builds")
    );
    assert_eq!(
        papermc::build_url("paper", "1.20", "17"),
        format!("{base}/projects/paper/versions/1.20/builds/17")
    );
    assert_eq!(
        papermc::download_url("paper", "1.20", "17", "paper-17.jar"),
        format!("{base}/projects/paper/versions/1.20/builds/17/downloads/paper-17.jar")
    );
    assert_eq!(
        papermc::version_group_url("paper", "1.20"),
        format!("{base}/projects/paper/version_group/1.20")
    );
    assert_eq!(
        papermc::version_group_builds_url("paper", "1.20"),
        format!("{base}/projects/paper/version_group/1.20/builds")
    );
}

#[test]
fn purpur_addresses() {
    let base = "https://api.purpurmc.org/v2";
    assert_eq!(purpurmc::PURPURMC_URL, base);
    assert_eq!(purpurmc::versions_url(), format!("{base}/purpur"));
    assert_eq!(purpurmc::version_url("1.20.1"), format!("{base}/purpur/1.20.1?detailed=true"));
    assert_eq!(purpurmc::version_short_url("1.20.1"), format!("{base}/purpur/1.20.1"));
    assert_eq!(purpurmc::build_url("1.20.1", "2000"), format!("{base}/purpur/1.20.1/2000"));
    assert_eq!(
        purpurmc::download_url("1.20.1", "latest"),
        format!("{base}/purpur/1.20.1/latest/download")
    );
}

#[test]
fn quilt_and_other_addresses() {
    assert_eq!(quilt::supported_versions_url(), "https://meta.quiltmc.org/v3/versions/game");
    assert_eq!(quilt::loaders_url(), "https://meta.quiltmc.org/v3/versions/loader");
    assert_eq!(quilt::installers_url(), "https://meta.quiltmc.org/v3/versions/installer");
    assert_eq!(
        forge::FORGE_MANIFEST_URL,
        "https://files.minecraftforge.net/net/minecraftforge/forge/maven-metadata.json"
    );
    assert_eq!(
        vanilla::VERSION_MANIFEST_URL,
        "https://piston-meta.mojang.com/mc/game/version_manifest_v2.json"
    );
}
