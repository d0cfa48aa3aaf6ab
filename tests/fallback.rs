use curseforge_pack_downloader::error::DownloadError;
use curseforge_pack_downloader::fallback_url::{
    cdn_download_url, get_no_api_download_url, modify_id, resolve_download_url,
};

#[test]
fn modify_id_splits_prefix_and_remainder() {
    assert_eq!(modify_id(123456).unwrap(), "1234/56");
}

#[test]
fn modify_id_strips_leading_zeros_of_remainder() {
    assert_eq!(modify_id(100001).unwrap(), "1000/1");
    assert_eq!(modify_id(4567089).unwrap(), "4567/89");
}

#[test]
fn modify_id_all_zero_remainder_is_invalid() {
    assert_eq!(modify_id(10000), Err(DownloadError::InvalidIdentifier));
    assert_eq!(modify_id(12340000), Err(DownloadError::InvalidIdentifier));
}

#[test]
fn modify_id_four_digits_or_fewer_is_invalid() {
    assert_eq!(modify_id(1234), Err(DownloadError::InvalidIdentifier));
    assert_eq!(modify_id(7), Err(DownloadError::InvalidIdentifier));
    assert_eq!(modify_id(0), Err(DownloadError::InvalidIdentifier));
}

#[test]
fn modify_id_largest_id() {
    assert_eq!(modify_id(u64::MAX).unwrap(), "1844/6744073709551615");
}

#[test]
fn fallback_url_encodes_file_name() {
    assert_eq!(
        get_no_api_download_url(123456, "my mod [1.20].jar").unwrap(),
        "https://mediafilez.forgecdn.net/files/1234/56/my%20mod%20%5b1.20%5d.jar"
    );
}

#[test]
fn fallback_url_keeps_unreserved_name() {
    assert_eq!(
        get_no_api_download_url(100001, "jei-1.20.1-forge_15.2.0.27.jar").unwrap(),
        "https://mediafilez.forgecdn.net/files/1000/1/jei-1.20.1-forge_15.2.0.27.jar"
    );
}

#[test]
fn fallback_url_encodes_non_ascii_bytes() {
    assert_eq!(
        get_no_api_download_url(123456, "café.jar").unwrap(),
        "https://mediafilez.forgecdn.net/files/1234/56/caf%c3%a9.jar"
    );
}

#[test]
fn fallback_url_invalid_id() {
    assert_eq!(get_no_api_download_url(10000, "a.jar"), Err(DownloadError::InvalidIdentifier));
}

#[test]
fn cdn_url_from_encoded_name() {
    assert_eq!(
        cdn_download_url(5123999, "x%20y.jar").unwrap(),
        "https://mediafilez.forgecdn.net/files/5123/999/x%20y.jar"
    );
}

#[test]
fn resolve_prefers_direct_url() {
    let direct = "https://edge.forgecdn.net/files/1/2/a.jar".to_string();
    assert_eq!(resolve_download_url(10000, "a.jar", Some(direct.clone())), Ok(direct));
}

#[test]
fn resolve_without_direct_url_falls_back() {
    assert_eq!(
        resolve_download_url(123456, "a b.jar", None).unwrap(),
        "https://mediafilez.forgecdn.net/files/1234/56/a%20b.jar"
    );
    assert_eq!(resolve_download_url(10000, "a.jar", None), Err(DownloadError::InvalidIdentifier));
}
