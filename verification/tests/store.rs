use gamefs::{
    GameFileSystem, GfsError, GfsPath, NoEntryMeta, OwnedGfsPath, PathLike, GfsSnapshot, GFS,
};

fn fresh() -> GameFileSystem<NoEntryMeta> {
    GameFileSystem::new(&GfsPath::new(""))
}

fn names_of(paths: &[OwnedGfsPath]) -> Vec<String> {
    let mut names: Vec<String> = paths.iter().map(|p| p.to_string()).collect();
    names.sort();
    names
}

#[test]
fn write_read_round_trip() {
    let mut fs = fresh();
    let path = GfsPath::new("a/b.txt");
    fs.insert_entry(&path, NoEntryMeta, vec![0x68, 0x65, 0x6c, 0x6c, 0x6f]).unwrap();
    assert_eq!(fs.read_meta(&path).unwrap(), NoEntryMeta);
    assert_eq!(fs.read_data(&path).unwrap(), b"hello".to_vec());
}

#[test]
fn insert_replaces_existing_entry() {
    let mut fs = fresh();
    let path = GfsPath::new("a");
    fs.insert_entry(&path, NoEntryMeta, vec![1, 2]).unwrap();
    fs.insert_entry(&path, NoEntryMeta, vec![3]).unwrap();
    assert_eq!(fs.read_data(&path).unwrap(), vec![3]);
    assert_eq!(fs.read_dir(&GfsPath::new(""), true).unwrap().len(), 0);
    assert_eq!(fs.read_dir(&GfsPath::new("a"), true).unwrap().len(), 0);
}

#[test]
fn read_missing_is_entry_not_found() {
    let fs = fresh();
    assert!(matches!(fs.read_meta(&GfsPath::new("nope")), Err(GfsError::EntryNotFound)));
    assert!(matches!(fs.read_data(&GfsPath::new("nope")), Err(GfsError::EntryNotFound)));
    assert!(matches!(fs.read_entry(&GfsPath::new("nope")), Err(GfsError::EntryNotFound)));
    assert!(matches!(fs.entry_reader(&GfsPath::new("nope")), Err(GfsError::EntryNotFound)));
}

#[test]
fn remove_missing_has_no_observable_effect() {
    let mut fs = fresh();
    let kept = GfsPath::new("kept");
    fs.insert_entry(&kept, NoEntryMeta, vec![9]).unwrap();
    let r = fs.remove_entry(&GfsPath::new("nonexistent"));
    assert!(matches!(r, Err(GfsError::EntryNotFound)));
    assert_eq!(fs.read_data(&kept).unwrap(), vec![9]);
    let listing = fs.read_dir(&GfsPath::new(""), true).unwrap();
    assert_eq!(names_of(&listing), Vec::<String>::new());
}

#[test]
fn remove_then_read_fails() {
    let mut fs = fresh();
    let path = GfsPath::new("a");
    fs.insert_entry(&path, NoEntryMeta, vec![1]).unwrap();
    fs.remove_entry(&path).unwrap();
    assert!(matches!(fs.read_data(&path), Err(GfsError::EntryNotFound)));
}

#[test]
fn drop_entry_returns_the_removed_entry() {
    let mut fs = fresh();
    let path = GfsPath::new("a");
    fs.insert_entry(&path, NoEntryMeta, vec![4, 5]).unwrap();
    let file = fs.drop_entry(&path).unwrap();
    assert_eq!(file.contents().as_slice(), &[4, 5]);
    assert!(matches!(fs.drop_entry(&path), Err(GfsError::EntryNotFound)));
}

#[test]
fn rename_moves_entry_and_unbinds_old_path() {
    let mut fs = fresh();
    let old_path = GfsPath::new("a/b.txt");
    let new_path = GfsPath::new("a/c.txt");
    fs.insert_entry(&old_path, NoEntryMeta, vec![0x68, 0x69]).unwrap();
    let moved = fs.rename_entry(&old_path, &new_path).unwrap();
    assert_eq!(moved.as_str(), "a/c.txt");
    assert!(matches!(fs.read_meta(&old_path), Err(GfsError::EntryNotFound)));
    assert_eq!(fs.read_data(&new_path).unwrap(), vec![0x68, 0x69]);
}

#[test]
fn rename_missing_is_entry_not_found() {
    let mut fs = fresh();
    let r = fs.rename_entry(&GfsPath::new("absent"), &GfsPath::new("elsewhere"));
    assert!(matches!(r, Err(GfsError::EntryNotFound)));
}

#[test]
fn end_to_end_listing() {
    let mut fs = fresh();
    fs.insert_entry(&GfsPath::new("dir/file1"), NoEntryMeta, vec![1]).unwrap();
    fs.insert_entry(&GfsPath::new("dir/sub/file2"), NoEntryMeta, vec![2]).unwrap();

    let direct = fs.read_dir(&GfsPath::new("dir"), false).unwrap();
    assert_eq!(names_of(&direct), vec!["dir/file1".to_string()]);

    let all = fs.read_dir(&GfsPath::new("dir"), true).unwrap();
    assert_eq!(names_of(&all), vec!["dir/file1".to_string(), "dir/sub/file2".to_string()]);
}

#[test]
fn listing_of_a_path_with_no_descendants_is_empty() {
    let mut fs = fresh();
    fs.insert_entry(&GfsPath::new("dir/file1"), NoEntryMeta, vec![1]).unwrap();
    assert_eq!(fs.read_dir(&GfsPath::new("other"), true).unwrap().len(), 0);
}

#[test]
fn listing_treats_query_as_directory_prefix() {
    let mut fs = fresh();
    fs.insert_entry(&GfsPath::new("dir/file1"), NoEntryMeta, vec![1]).unwrap();
    fs.insert_entry(&GfsPath::new("dirt/file2"), NoEntryMeta, vec![2]).unwrap();
    let under_dir = fs.read_dir(&GfsPath::new("dir"), true).unwrap();
    assert_eq!(names_of(&under_dir), vec!["dir/file1".to_string()]);
}

#[test]
fn read_root_lists_under_the_root_directory_form() {
    let mut fs = GameFileSystem::<NoEntryMeta>::new(&GfsPath::new("pack"));
    fs.insert_entry(&GfsPath::new("pack/a"), NoEntryMeta, vec![1]).unwrap();
    fs.insert_entry(&GfsPath::new("other/b"), NoEntryMeta, vec![2]).unwrap();
    let listing = fs.read_root(true).unwrap();
    assert_eq!(names_of(&listing), vec!["pack/a".to_string()]);
}

#[test]
fn root_and_ids_are_fixed_at_construction() {
    let fs = GameFileSystem::<NoEntryMeta>::with_id(&GfsPath::new("base"), 7);
    assert_eq!(fs.root().as_str(), "base");
    assert_eq!(fs.instance_id(), 7);
    let fresh_fs = fresh();
    assert_eq!(fresh_fs.instance_id(), 0);
}

#[test]
fn create_path_normalizes_and_joins_onto_root() {
    let fs = GameFileSystem::<NoEntryMeta>::new(&GfsPath::new("assets"));
    let bound = fs.create_path(&GfsPath::new("models\\tree"));
    assert_eq!(bound.as_str(), "assets/models/tree");
    assert_eq!(bound.filesystem(), fs.instance_id());
}

#[test]
fn bound_path_operations_resolve_through_the_owner() {
    let mut fs = fresh();
    fs.insert_entry(&GfsPath::new("x/data"), NoEntryMeta, vec![1, 2, 3]).unwrap();
    let bound = OwnedGfsPath::create(GfsPath::new("x/data"), fs.instance_id());
    assert_eq!(bound.fs_meta(&fs).unwrap(), NoEntryMeta);
    assert_eq!(bound.fs_data(&fs).unwrap(), vec![1, 2, 3]);
    let mut reader = bound.fs_reader(&fs).unwrap();
    assert_eq!(reader.read(3), vec![1, 2, 3]);

    let dropped = bound.fs_drop_entry(&mut fs).unwrap();
    assert_eq!(dropped.contents().as_slice(), &[1, 2, 3]);
    assert!(matches!(bound.fs_meta(&fs), Err(GfsError::EntryNotFound)));

    bound.fs_new(&mut fs, NoEntryMeta, vec![9]).unwrap();
    assert_eq!(fs.read_data(&GfsPath::new("x/data")).unwrap(), vec![9]);
    bound.fs_remove_entry(&mut fs).unwrap();
    assert!(matches!(fs.read_data(&GfsPath::new("x/data")), Err(GfsError::EntryNotFound)));
}

#[test]
fn bound_path_rename_through_the_owner() {
    let mut fs = fresh();
    fs.insert_entry(&GfsPath::new("from"), NoEntryMeta, vec![8]).unwrap();
    let bound = OwnedGfsPath::create(GfsPath::new("from"), fs.instance_id());
    let moved = bound.fs_rename_entry(&mut fs, &GfsPath::new("to")).unwrap();
    assert_eq!(moved.as_str(), "to");
    assert_eq!(fs.read_data(&GfsPath::new("to")).unwrap(), vec![8]);
}

#[test]
fn replace_entry_stores_a_whole_file_value() {
    let mut fs = fresh();
    let path = GfsPath::new("swap");
    fs.insert_entry(&path, NoEntryMeta, vec![1]).unwrap();
    let taken = fs.drop_entry(&path).unwrap();
    let put = fs.replace_entry(&GfsPath::new("swapped"), taken).unwrap();
    assert_eq!(put.as_str(), "swapped");
    assert_eq!(fs.read_data(&GfsPath::new("swapped")).unwrap(), vec![1]);
}

#[test]
fn normalize_path_rewrites_alternative_separators() {
    let normalized = GameFileSystem::<NoEntryMeta>::normalize_path(&GfsPath::new("a\\b/c"));
    assert_eq!(normalized.as_str(), "a/b/c");
}

#[test]
fn bound_paths_share_the_path_algebra() {
    let fs = GameFileSystem::<NoEntryMeta>::with_id(&GfsPath::new(gamefs::GFS_ROOT), 3);
    let bound = OwnedGfsPath::create(GfsPath::new("a"), fs.instance_id());
    let joined = bound.join(&GfsPath::new("/b"));
    assert_eq!(joined.as_str(), "a/b");
    assert_eq!(joined.filesystem(), 3);
    let dir = joined.to_directory_path();
    assert_eq!(dir.as_str(), "a/b/");
    assert_eq!(dir.filesystem(), 3);
    assert!(bound.clone().is_child(&dir));
    assert_eq!(dir.to_string(), "a/b/");
    assert_eq!(dir.as_path().as_str(), "a/b/");
    assert_eq!(dir.to_path().as_str(), "a/b/");
}

#[test]
fn plain_paths_can_be_bound_to_a_filesystem() {
    let fs = GameFileSystem::<NoEntryMeta>::with_id(&GfsPath::new(""), 11);
    let p = GfsPath::new("q");
    let borrowed_bind = p.as_owned_path(&fs);
    assert_eq!(borrowed_bind.as_str(), "q");
    assert_eq!(borrowed_bind.filesystem(), 11);
    let owned_bind = p.to_owned_path(&fs);
    assert_eq!(owned_bind.as_str(), "q");
    assert_eq!(owned_bind.filesystem(), 11);
}

#[test]
fn bound_writer_resolves_through_the_owner() {
    let mut fs = fresh();
    let bound = OwnedGfsPath::create(GfsPath::new("w"), fs.instance_id());
    let mut w = bound.fs_writer(&fs).unwrap();
    w.write(b"payload".as_slice()).unwrap();
    w.commit(&mut fs).unwrap();
    assert_eq!(bound.fs_data(&fs).unwrap(), b"payload".to_vec());
}

#[test]
fn bound_path_against_another_filesystem_is_rejected() {
    let mut fs = fresh();
    let other = GameFileSystem::<NoEntryMeta>::with_id(&GfsPath::new(""), 42);
    fs.insert_entry(&GfsPath::new("p"), NoEntryMeta, vec![1]).unwrap();
    let bound = fs.create_path(&GfsPath::new("p"));
    assert!(matches!(bound.fs_meta(&other), Err(GfsError::Other(_))));
    let mut other_mut = other;
    assert!(matches!(bound.fs_drop_entry(&mut other_mut), Err(GfsError::Other(_))));
    assert!(matches!(other_mut.read_meta(&GfsPath::new("p")), Err(GfsError::EntryNotFound)));
}
