use super_duper::paths::{
    compress_file_path, host_path_style, lexical_path, non_overlapping_directories, path_compare_key, path_is_within,
    path_style_for_separator, paths_equal, starts_with_path, validate_location_paths, PathStyle,
};
use super_duper::text::{eq_ignore_ascii_case, i64_to_decimal, parse_i64, trim_str, u64_to_decimal};
use super_duper::validate::normalize_extension_filter;

#[test]
fn decimal_text_and_parsing() {
    assert_eq!(u64_to_decimal(0), "0");
    assert_eq!(u64_to_decimal(u64::MAX), "18446744073709551615");
    assert_eq!(i64_to_decimal(i64::MIN), "-9223372036854775808");
    assert_eq!(parse_i64("-42"), Some(-42));
    assert_eq!(parse_i64("-9223372036854775808"), Some(i64::MIN));
    assert_eq!(parse_i64("9223372036854775808"), None);
    assert_eq!(parse_i64("-"), None);
    assert_eq!(parse_i64("4 2"), None);
    assert_eq!(trim_str("\u{3000} a b \n"), "a b");
    assert_eq!(normalize_extension_filter(Some("ÀB")).unwrap(), Some("àb".to_owned()));
}

#[test]
fn directories_that_overlap_are_reduced() {
    let dirs = |v: &[&str]| v.iter().map(|s| s.to_string()).collect::<Vec<_>>();
    assert_eq!(non_overlapping_directories(dirs(&["/a/b", "/a", "/c"])), dirs(&["/a", "/c"]));
    assert_eq!(non_overlapping_directories(dirs(&["/a", "/a/b", "/ab"])), dirs(&["/a", "/ab"]));
    assert_eq!(non_overlapping_directories(dirs(&["/x", "/x"])), dirs(&["/x"]));
    assert_eq!(non_overlapping_directories(dirs(&["/a/b", "/a/c", "/a"])), dirs(&["/a"]));
    assert_eq!(non_overlapping_directories(dirs(&["/a/b", "/d", "/a/c", "/a"])), dirs(&["/d", "/a"]));
    assert!(starts_with_path("/a/b/c", "/a/b"));
    assert!(starts_with_path("/a//b/", "/a/b"));
    assert!(!starts_with_path("/a/bc", "/a/b"));
}

#[test]
fn paths_compare_lexically() {
    let unix = PathStyle::Unix;
    assert_eq!(lexical_path("/a/b/", unix), "/a/b");
    assert!(paths_equal("/a/b/", "/a/b", unix));
    assert!(path_is_within("/a/b/c", "/a/b", unix));
    assert!(!path_is_within("/a/bc", "/a/b", unix));
    assert_eq!(path_compare_key("/a/", unix), path_compare_key("/a", unix));
    assert!(!paths_equal("/A", "/a", unix));
    assert_eq!(lexical_path("C:\\x\\", unix), "C:\\x\\");
}

#[test]
fn location_lists_are_checked_and_deduplicated() {
    let paths = vec!["/a".to_owned(), "/a/".to_owned(), "/b".to_owned()];
    let kept = validate_location_paths(paths, 4, "manualLocationExclusions", PathStyle::Unix).unwrap();
    assert_eq!(kept, vec!["/a".to_owned(), "/b".to_owned()]);
    assert!(validate_location_paths(vec!["relative".to_owned()], 4, "manualLocationExclusions", PathStyle::Unix).is_err());
    assert!(validate_location_paths(vec!["/a".to_owned(); 5], 4, "manualLocationExclusions", PathStyle::Unix).is_err());
}

#[test]
fn long_paths_are_shortened_around_an_ellipsis() {
    assert_eq!(compress_file_path("/short"), "/short");
    let long = format!("/{}", "d".repeat(120));
    let short = compress_file_path(&long);
    assert_eq!(short.len(), 100);
    assert_eq!(&short[..48], &long[..48]);
    assert_eq!(&short[48..51], "...");
    assert_eq!(&short[51..], &long[long.len() - 49..]);
}

#[test]
fn ascii_case_is_ignored_only_for_ascii_letters() {
    let chars = |s: &str| s.chars().collect::<Vec<char>>();
    assert!(eq_ignore_ascii_case(&chars("OneDrive"), &chars("onedrive")));
    assert!(!eq_ignore_ascii_case(&chars("Ä"), &chars("ä")));
    assert!(!eq_ignore_ascii_case(&chars("ab"), &chars("abc")));
}

#[test]
fn windows_paths_compare_without_case_separators_or_verbatim_prefixes() {
    let win = PathStyle::Windows;
    assert_eq!(lexical_path("C:\\Data\\/", win), "C:\\Data");
    assert_eq!(path_compare_key("C:/Data/Photos/", win), "c:\\data\\photos");
    assert_eq!(path_compare_key("\\\\?\\C:\\Data", win), "c:\\data");
    assert_eq!(path_compare_key("\\\\?\\UNC\\Server\\Share\\", win), "\\\\server\\share");
    assert!(paths_equal("C:\\DATA", "c:/data/", win));
    assert!(paths_equal("\\\\?\\UNC\\srv\\share", "\\\\SRV\\Share", win));
    assert!(path_is_within("c:\\data\\x", "C:\\Data", win));
    assert!(path_is_within("C:/Data/x", "C:\\DATA\\", win));
    assert!(!path_is_within("C:\\Database", "C:\\Data", win));
    assert!(!path_is_within("C:\\Data", "C:\\Data\\x", win));
}

#[test]
fn the_host_separator_picks_the_path_rules() {
    assert_eq!(path_style_for_separator('\\'), PathStyle::Windows);
    assert_eq!(path_style_for_separator('/'), PathStyle::Unix);
    assert_eq!(host_path_style(), path_style_for_separator(std::path::MAIN_SEPARATOR));
}
