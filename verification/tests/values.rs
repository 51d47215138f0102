use katal_github_client::common::project::{ProjectSlug, RepositoryId, RepositoryRef};
use katal_github_client::common::release::{
    AuthorId, InputReleaseAssets, InputReleaseLink, ReleaseLinkId, ReleaseLinkType, ReleaseOrder,
};
use katal_github_client::text::decimal_string;
use katal_github_client::url_util::{check_pair_fits, check_path_fits};
use katal_github_client::{GithubAuth, InputPackageStatus, PackageStatus};

#[test]
fn package_status_names() {
    assert_eq!(InputPackageStatus::Default.as_str(), "default");
    assert_eq!(InputPackageStatus::Hidden.as_str(), "hidden");
    assert_eq!(PackageStatus::Default.as_str(), "default");
    assert_eq!(PackageStatus::Hidden.as_str(), "hidden");
    assert_eq!(PackageStatus::Processing.as_str(), "processing");
    assert_eq!(PackageStatus::Error.as_str(), "error");
    assert_eq!(PackageStatus::PendingDestruction.as_str(), "pending_destruction");
}

#[test]
fn release_names() {
    assert_eq!(ReleaseOrder::ReleasedAt.as_str(), "released_at");
    assert_eq!(ReleaseOrder::CreatedAt.as_str(), "created_at");
    assert_eq!(ReleaseLinkType::Other.as_str(), "other");
    assert_eq!(ReleaseLinkType::Runbook.as_str(), "runbook");
    assert_eq!(ReleaseLinkType::Image.as_str(), "image");
    assert_eq!(ReleaseLinkType::Package.as_str(), "package");
}

#[test]
fn ids_hold_their_number() {
    assert_eq!(AuthorId::new(17).into_u64(), 17);
    assert_eq!(AuthorId::new(u64::MAX).into_u64(), u64::MAX);
    assert_eq!(ReleaseLinkId::new(0).into_u64(), 0);
    assert_eq!(ReleaseLinkId::new(4242).into_u64(), 4242);
    assert_eq!(RepositoryId::new(42).into_u64(), 42);
    assert_eq!(RepositoryId::new(42).to_text(), "42");
}

#[test]
fn auth_headers() {
    let private = GithubAuth::PrivateToken("abc".to_string());
    let job = GithubAuth::JobToken("xyz".to_string());
    assert_eq!(private.http_header(), ("PRIVATE-TOKEN", "abc"));
    assert_eq!(job.http_header(), ("JOB-TOKEN", "xyz"));
    assert_eq!(private.as_view(), GithubAuth::PrivateToken("abc"));
    assert_eq!(job.as_view(), GithubAuth::JobToken("xyz"));
    assert_eq!(private.as_view().http_header(), ("PRIVATE-TOKEN", "abc"));
    assert_eq!(job.as_view().as_view().http_header(), ("JOB-TOKEN", "xyz"));
    assert_eq!(GithubAuth::PrivateToken(String::new()).http_header(), ("PRIVATE-TOKEN", ""));
}

#[test]
fn repository_references_keep_their_form() {
    let id: RepositoryRef<String> = RepositoryRef::Id(RepositoryId::new(42));
    assert_eq!(id.as_view(), RepositoryRef::Id(RepositoryId::new(42)));
    let slug = RepositoryRef::Slug(ProjectSlug::new("42".to_string(), "icu".to_string()));
    assert_eq!(slug.as_view(), RepositoryRef::Slug(ProjectSlug { owner: "42", name: "icu" }));
    assert_ne!(slug.as_view(), RepositoryRef::Id(RepositoryId::new(42)));
}

#[test]
fn input_release_views() {
    let link = InputReleaseLink {
        name: "n".to_string(),
        url: "u".to_string(),
        direct_asset_path: Some("/bin".to_string()),
        link_type: ReleaseLinkType::Package,
    };
    assert_eq!(
        link.as_view(),
        InputReleaseLink {
            name: "n",
            url: "u",
            direct_asset_path: Some("/bin"),
            link_type: ReleaseLinkType::Package
        }
    );
    let bare = InputReleaseLink {
        name: "n".to_string(),
        url: "u".to_string(),
        direct_asset_path: None,
        link_type: ReleaseLinkType::Other,
    };
    assert_eq!(bare.as_view().direct_asset_path, None);
    let assets = InputReleaseAssets { links: vec![link.clone(), bare.clone()] };
    assert_eq!(assets.as_view().links, &[link, bare][..]);
}

#[test]
fn decimal_text() {
    assert_eq!(decimal_string(0), "0");
    assert_eq!(decimal_string(7), "7");
    assert_eq!(decimal_string(10), "10");
    assert_eq!(decimal_string(42), "42");
    assert_eq!(decimal_string(1234567890), "1234567890");
    assert_eq!(decimal_string(u64::MAX), "18446744073709551615");
}

#[test]
fn path_room_is_four_and_three_per_byte() {
    let segments = vec!["repos", "o", "n", "releases"];
    // 4 * 4 + 3 * (5 + 1 + 1 + 8) = 61
    assert!(check_path_fits(4294967295 - 61, &segments));
    assert!(!check_path_fits(4294967295 - 60, &segments));
    assert!(check_path_fits(4294967295, &Vec::new()));
    assert!(check_path_fits(0, &vec!["é"]));
    // "é" takes two bytes: 4 + 3 * 2 = 10
    assert!(check_path_fits(4294967295 - 10, &vec!["é"]));
    assert!(!check_path_fits(4294967295 - 9, &vec!["é"]));
}

#[test]
fn pair_room_is_eight_and_three_per_byte() {
    // 8 + 3 * (8 + 2) = 38
    assert!(check_pair_fits(4294967295 - 38, "per_page", "30"));
    assert!(!check_pair_fits(4294967295 - 37, "per_page", "30"));
    assert!(check_pair_fits(0, "", ""));
    assert!(check_pair_fits(4294967295 - 8, "", ""));
    assert!(!check_pair_fits(4294967295 - 7, "", ""));
}
