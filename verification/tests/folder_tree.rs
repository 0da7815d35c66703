use super_duper::dupes::{duplicate_positions, full_hash_candidates, group_positions};
use super_duper::cache::{CacheFile, FileTime};
use super_duper::path_tree::{try_from_cache_file, DupeFile, DupeFilePart};

fn dupe(path: &str, size: i64) -> DupeFile {
    DupeFile {
        canonical_path: path.to_owned(),
        path_no_drive: String::new(),
        file_name: String::new(),
        file_extension: None,
        drive_letter: None,
        parent_dir: String::new(),
        file_size: size,
        last_modified: FileTime { secs: 0, nanos: 0 },
        full_hash: 0,
        partial_hash: 0,
    }
}

fn summary(parts: &[DupeFilePart]) -> Vec<(i32, String, String, i64, Option<i32>, i32, bool, i32)> {
    parts
        .iter()
        .map(|p| {
            (
                p.id,
                p.canonical_path.clone(),
                p.name.clone(),
                p.file_size,
                p.parent_id,
                p.part_type,
                p.has_child_dirs,
                p.session_id,
            )
        })
        .collect()
}

#[test]
fn shared_folders_collect_the_bytes_of_every_file_beneath_them() {
    let files = vec![
        dupe("\\\\?\\C:\\photos\\a.jpg", 10),
        dupe("\\\\?\\C:\\photos\\b.jpg", 20),
        dupe("\\\\?\\D:\\c.jpg", 5),
    ];
    let parts = DupeFilePart::parts_from_dupe_files(&files, &7);
    assert_eq!(
        summary(&parts),
        vec![
            (1, "C:".to_owned(), "C:".to_owned(), 30, None, 0, true, 7),
            (2, "C:\\photos".to_owned(), "photos".to_owned(), 30, Some(1), 1, false, 7),
            (3, "C:\\photos\\a.jpg".to_owned(), "a.jpg".to_owned(), 10, Some(2), 2, false, 7),
            (4, "C:\\photos\\b.jpg".to_owned(), "b.jpg".to_owned(), 20, Some(2), 2, false, 7),
            (5, "D:".to_owned(), "D:".to_owned(), 5, None, 0, false, 7),
            (6, "D:\\c.jpg".to_owned(), "c.jpg".to_owned(), 5, Some(5), 2, false, 7),
        ]
    );
}

#[test]
fn the_same_file_twice_adds_its_size_twice() {
    let files = vec![dupe("\\\\?\\E:\\x\\y\\z", 4), dupe("\\\\?\\E:\\x\\y\\z", 6)];
    let parts = DupeFilePart::parts_from_dupe_files(&files, &1);
    assert_eq!(parts.len(), 4);
    assert!(parts.iter().all(|p| p.file_size == 10));
    assert!(parts[0].has_child_dirs && parts[1].has_child_dirs && !parts[2].has_child_dirs);
    assert!(parts[1].is_directory() && !parts[3].is_directory());
}

#[test]
fn no_files_make_no_parts() {
    assert!(DupeFilePart::parts_from_dupe_files(&[], &1).is_empty());
}

#[test]
fn cached_files_become_stored_duplicates() {
    let cached = CacheFile {
        canonical_path: "/data/a.txt".to_owned(),
        file_size: 3,
        last_modified: FileTime { secs: 9, nanos: 1 },
        full_hash: Some(u64::MAX),
        partial_hash: None,
        path: "/data/a.txt".to_owned(),
    };
    let stored = try_from_cache_file(&cached).unwrap();
    assert_eq!(stored.canonical_path, "/data/a.txt");
    assert_eq!(stored.file_name, "a.txt");
    assert_eq!(stored.file_extension.as_deref(), Some("txt"));
    assert_eq!(stored.parent_dir, "/data");
    assert_eq!((stored.file_size, stored.full_hash, stored.partial_hash), (3, -1, 0));
    assert_eq!(stored.last_modified, FileTime { secs: 9, nanos: 1 });
    let rootless = CacheFile { path: "/".to_owned(), ..cached };
    assert!(try_from_cache_file(&rootless).is_none());
}

fn sorted(mut gs: Vec<(u64, Vec<usize>)>) -> Vec<(u64, Vec<usize>)> {
    gs.sort();
    gs
}

#[test]
fn repeated_hashes_group_every_position_holding_them() {
    let keys = vec![5, 3, 5, 7, 3, 5];
    assert_eq!(sorted(duplicate_positions(&keys)), vec![(3, vec![1, 4]), (5, vec![0, 2, 5])]);
    let map = group_positions(&keys);
    assert_eq!(map.len(), 3);
    assert_eq!(*map.get(&7).unwrap(), vec![3]);
}

#[test]
fn distinct_hashes_have_no_duplicates() {
    assert!(duplicate_positions(&vec![1, 2, 3]).is_empty());
    assert!(duplicate_positions(&vec![]).is_empty());
    assert!(group_positions(&vec![]).is_empty());
}

#[test]
fn sizes_add_up_whatever_their_sign() {
    let files = vec![dupe("\\\\?\\C:\\a", -5), dupe("\\\\?\\C:\\b", 12)];
    let parts = DupeFilePart::parts_from_dupe_files(&files, &2);
    assert_eq!(parts.iter().map(|p| p.file_size).collect::<Vec<_>>(), vec![7, -5, 12]);
    assert_eq!(parts.iter().map(|p| p.id).collect::<Vec<_>>(), vec![1, 2, 3]);
    assert_eq!(parts.iter().map(|p| p.parent_id).collect::<Vec<_>>(), vec![None, Some(1), Some(1)]);
}

#[test]
fn only_shared_partial_hashes_need_a_full_hash() {
    assert_eq!(full_hash_candidates(&vec![4, 9, 4, 1, 9]), vec![true, true, true, false, true]);
    assert_eq!(full_hash_candidates(&vec![7]), vec![false]);
    assert!(full_hash_candidates(&vec![]).is_empty());
}
