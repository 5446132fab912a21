use asset_fetch::machine::{Downloader, TransferOutcome};
use asset_fetch::post::{DownloadError, Post, Rating};
use asset_fetch::text::{contains_substr, i32_to_string};

fn record(
    id: i32,
    score: i32,
    rating: char,
    file_ext: &str,
    file_url: Option<&str>,
    large_file_url: Option<&str>,
) -> Post {
    Post {
        id,
        score,
        rating,
        file_ext: file_ext.to_string(),
        file_url: file_url.map(|u| u.to_string()),
        large_file_url: large_file_url.map(|u| u.to_string()),
    }
}

/// Run the machine as the unverified shell would, with the directory
/// creation and existence check stubbed, and a network "client" that fails
/// the test if it is ever invoked when `allow_network` is false.
fn drive(
    post: Post,
    base: &str,
    dir_ok: bool,
    exists_already: bool,
    allow_network: bool,
    outcome: TransferOutcome,
) -> Option<Result<(), DownloadError>> {
    let mut d = Downloader::start(post, base);
    loop {
        d = match d {
            Downloader::CreatingDir { .. } => d.on_dir_created(dir_ok),
            Downloader::CheckingFile { .. } => d.on_existence(exists_already),
            Downloader::Transferring { .. } => {
                if !allow_network {
                    panic!("network client invoked");
                }
                d.on_transfer(outcome)
            }
            terminal => return terminal.result(),
        };
    }
}

#[test]
fn subfolder_mapping_is_exact() {
    assert_eq!(Rating::of_char('s').folder_name(), "sensitive");
    assert_eq!(Rating::of_char('q').folder_name(), "questionable");
    assert_eq!(Rating::of_char('e').folder_name(), "explicit");
    assert_eq!(Rating::of_char('g').folder_name(), "general");
}

#[test]
fn unrecognized_ratings_fall_back_to_unknown() {
    for c in ['x', 'u', 'S', 'E', '?', '0', ' '] {
        assert_eq!(Rating::of_char(c), Rating::Unknown);
        assert_eq!(Rating::of_char(c).folder_name(), "unknown");
    }
}

#[test]
fn decimal_rendering_is_exact() {
    assert_eq!(i32_to_string(0), "0");
    assert_eq!(i32_to_string(7), "7");
    assert_eq!(i32_to_string(-1), "-1");
    assert_eq!(i32_to_string(1000), "1000");
    assert_eq!(i32_to_string(i32::MAX), "2147483647");
    assert_eq!(i32_to_string(i32::MIN), "-2147483648");
}

#[test]
fn substring_search_finds_the_marker() {
    assert!(contains_substr("http://x/7.webm", ".webm"));
    assert!(contains_substr(".webm", ".webm"));
    assert!(contains_substr("a/.webm?query", ".webm"));
    assert!(!contains_substr("http://x/7.mp4", ".webm"));
    assert!(!contains_substr("http://x/7webm", ".webm"));
    assert!(!contains_substr(".web", ".webm"));
    assert!(!contains_substr("", ".webm"));
}

#[test]
fn alternate_variant_needs_the_marker() {
    let animated = record(1, 1, 'g', "zip", None, Some("http://x/1.webm"));
    assert!(animated.alt_selected());
    let plain = record(1, 1, 'g', "jpg", Some("http://x/1.jpg"), Some("http://x/1.png"));
    assert!(!plain.alt_selected());
    let absent = record(1, 1, 'g', "jpg", Some("http://x/1.jpg"), None);
    assert!(!absent.alt_selected());
}

#[test]
fn container_extension_corrected_for_animated_alternate() {
    let post = record(5, 2, 'g', "zip", None, Some("http://x/5.webm"));
    assert_eq!(post.effective_ext(), "webm");
}

#[test]
fn container_extension_kept_without_animated_alternate() {
    let post = record(5, 2, 'g', "zip", Some("http://x/5.zip"), Some("http://x/5.png"));
    assert_eq!(post.effective_ext(), "zip");
}

#[test]
fn declared_extension_kept_for_animated_non_container() {
    let post = record(5, 2, 'g', "gif", None, Some("http://x/5.webm"));
    assert_eq!(post.effective_ext(), "gif");
}

#[test]
fn filename_preserves_negative_and_zero_scores() {
    let negative = record(9, -5, 'g', "png", Some("u"), None);
    assert_eq!(negative.filename(), "-5_9.png");
    let zero = record(12, 0, 'g', "gif", Some("u"), None);
    assert_eq!(zero.filename(), "0_12.gif");
}

#[test]
fn scenario_standard_resolution_jpeg() {
    let post = record(42, 17, 'e', "jpg", Some("http://x/42.jpg"), None);
    let d = Downloader::start(post, "base");
    match &d {
        Downloader::CreatingDir { url, dir, path } => {
            assert_eq!(url, "http://x/42.jpg");
            assert_eq!(dir, "base/explicit");
            assert_eq!(path, "base/explicit/17_42.jpg");
        }
        other => panic!("expected directory-creation state, got {other:?}"),
    }
    let d = d.on_dir_created(true);
    let d = d.on_existence(false);
    match &d {
        Downloader::Transferring { url, path } => {
            assert_eq!(url, "http://x/42.jpg");
            assert_eq!(path, "base/explicit/17_42.jpg");
        }
        other => panic!("expected transferring state, got {other:?}"),
    }
    let d = d.on_transfer(TransferOutcome::Completed);
    assert_eq!(d.result(), Some(Ok(())));
}

#[test]
fn scenario_mislabeled_animated_alternate() {
    let post = record(7, 3, 'g', "zip", Some("http://x/7.zip"), Some("http://x/7.webm"));
    let d = Downloader::start(post, "base");
    match &d {
        Downloader::CreatingDir { url, dir, path } => {
            assert_eq!(url, "http://x/7.webm");
            assert_eq!(dir, "base/general");
            assert_eq!(path, "base/general/3_7.webm");
        }
        other => panic!("expected directory-creation state, got {other:?}"),
    }
}

#[test]
fn scenario_both_urls_absent() {
    let post = record(3, 1, 'q', "jpg", None, None);
    let d = Downloader::start(post, "base");
    match &d {
        Downloader::Failed { error } => assert_eq!(*error, DownloadError::MissingUrl),
        other => panic!("expected failed state, got {other:?}"),
    }
    let result = drive(
        record(3, 1, 'q', "jpg", None, None),
        "base",
        true,
        false,
        false,
        TransferOutcome::Completed,
    );
    assert_eq!(result, Some(Err(DownloadError::MissingUrl)));
}

#[test]
fn missing_primary_without_animated_alternate_fails() {
    let post = record(3, 1, 'q', "jpg", None, Some("http://x/3.png"));
    let d = Downloader::start(post, "base");
    match &d {
        Downloader::Failed { error } => assert_eq!(*error, DownloadError::MissingUrl),
        other => panic!("expected failed state, got {other:?}"),
    }
}

#[test]
fn preexisting_file_skips_network_and_succeeds() {
    let post = record(42, 17, 'e', "jpg", Some("http://x/42.jpg"), None);
    let result = drive(post, "base", true, true, false, TransferOutcome::Completed);
    assert_eq!(result, Some(Ok(())));
}

#[test]
fn directory_creation_failure_is_a_filesystem_error() {
    let post = record(42, 17, 'e', "jpg", Some("http://x/42.jpg"), None);
    let result = drive(post, "base", false, false, false, TransferOutcome::Completed);
    assert_eq!(result, Some(Err(DownloadError::FilesystemError)));
}

#[test]
fn request_failure_is_a_transfer_error() {
    let post = record(42, 17, 'e', "jpg", Some("http://x/42.jpg"), None);
    let result = drive(post, "base", true, false, true, TransferOutcome::RequestFailed);
    assert_eq!(result, Some(Err(DownloadError::TransferError)));
}

#[test]
fn write_failure_is_a_filesystem_error() {
    let post = record(42, 17, 'e', "jpg", Some("http://x/42.jpg"), None);
    let result = drive(post, "base", true, false, true, TransferOutcome::WriteFailed);
    assert_eq!(result, Some(Err(DownloadError::FilesystemError)));
}

#[test]
fn terminal_states_ignore_late_events() {
    let d = Downloader::Done;
    let d = d.on_dir_created(false);
    let d = d.on_existence(false);
    let d = d.on_transfer(TransferOutcome::RequestFailed);
    assert_eq!(d.result(), Some(Ok(())));
}

#[test]
fn non_terminal_states_report_no_result() {
    let post = record(42, 17, 'e', "jpg", Some("http://x/42.jpg"), None);
    let d = Downloader::start(post, "base");
    assert_eq!(d.result(), None);
}
