use gamefs::{
    GameFileSystem, GfsError, GfsFile, GfsPath, GfsSeekFrom, NoEntryMeta, PathLike, ReadableFile,
    WritableFile, GfsSnapshot, GFS,
};

fn fresh() -> GameFileSystem<NoEntryMeta> {
    GameFileSystem::new(&GfsPath::new(""))
}

#[test]
fn write_handle_commit_persists_buffered_content() {
    let mut fs = fresh();
    let path = GfsPath::new("fresh.txt");
    let mut w = fs.entry_writer(&path).unwrap();
    assert_eq!(w.write(b"xyz".as_slice()).unwrap(), 3);
    let committed = w.commit(&mut fs).unwrap();
    assert_eq!(committed.as_str(), "fresh.txt");
    assert_eq!(fs.read_data(&path).unwrap(), b"xyz".to_vec());
}

#[test]
fn write_handle_on_existing_entry_is_prepopulated() {
    let mut fs = fresh();
    let path = GfsPath::new("doc");
    fs.insert_entry(&path, NoEntryMeta, b"abcdef".to_vec()).unwrap();
    let mut w = fs.entry_writer(&path).unwrap();
    assert_eq!(w.write(b"XY".as_slice()).unwrap(), 2);
    w.commit(&mut fs).unwrap();
    assert_eq!(fs.read_data(&path).unwrap(), b"XYcdef".to_vec());
}

#[test]
fn discarded_write_handle_persists_nothing() {
    let mut fs = fresh();
    let path = GfsPath::new("never");
    {
        let mut w = fs.entry_writer(&path).unwrap();
        w.write(b"lost".as_slice()).unwrap();
    }
    assert!(matches!(fs.read_data(&path), Err(GfsError::EntryNotFound)));
}

#[test]
fn write_handle_starts_from_defaults_on_a_missing_path() {
    let fs = fresh();
    let mut w = fs.entry_writer(&GfsPath::new("missing")).unwrap();
    assert_eq!(*w.metadata(), NoEntryMeta);
    assert_eq!(w.read(16), Vec::<u8>::new());
}

#[test]
fn write_handle_read_write_seek_share_one_cursor() {
    let fs = fresh();
    let mut w = fs.entry_writer(&GfsPath::new("scratch")).unwrap();
    w.write(b"hello world".as_slice()).unwrap();
    assert_eq!(w.seek(GfsSeekFrom::Start(6)).unwrap(), 6);
    assert_eq!(w.read(5), b"world".to_vec());
    assert_eq!(w.seek(GfsSeekFrom::Current(-5)).unwrap(), 6);
    w.write(b"verus".as_slice()).unwrap();
    assert_eq!(w.seek(GfsSeekFrom::Start(0)).unwrap(), 0);
    assert_eq!(w.read(32), b"hello verus".to_vec());
}

#[test]
fn write_past_end_zero_fills_the_gap() {
    let fs = fresh();
    let mut w = fs.entry_writer(&GfsPath::new("gap")).unwrap();
    w.seek(GfsSeekFrom::Start(3)).unwrap();
    w.write(b"z".as_slice()).unwrap();
    w.seek(GfsSeekFrom::Start(0)).unwrap();
    assert_eq!(w.read(8), vec![0, 0, 0, b'z']);
}

#[test]
fn write_handle_metadata_can_be_replaced_while_open() {
    let fs = fresh();
    let mut w = fs.entry_writer(&GfsPath::new("meta")).unwrap();
    w.modify_metadata(NoEntryMeta);
    assert_eq!(*w.metadata(), NoEntryMeta);
    assert!(w.flush().is_ok());
}

#[test]
fn write_handle_from_owned_targets_the_bound_path() {
    let mut fs = fresh();
    let bound = fs.create_path(&GfsPath::new("made"));
    let mut w = WritableFile::from_owned(&bound, NoEntryMeta, b"seed".to_vec());
    assert_eq!(w.read(4), b"seed".to_vec());
    w.commit(&mut fs).unwrap();
    assert_eq!(fs.read_data(&GfsPath::new("/made")).unwrap(), b"seed".to_vec());
}

#[test]
fn write_handle_create_targets_the_root_joined_path() {
    let mut fs = GameFileSystem::<NoEntryMeta>::new(&GfsPath::new("root"));
    let w = WritableFile::create(&GfsPath::new("leaf"), &fs, NoEntryMeta, b"v".to_vec());
    w.commit(&mut fs).unwrap();
    assert_eq!(fs.read_data(&GfsPath::new("root/leaf")).unwrap(), b"v".to_vec());
}

#[test]
fn commit_against_another_filesystem_is_rejected() {
    let fs = fresh();
    let mut other = GameFileSystem::<NoEntryMeta>::with_id(&GfsPath::new(""), 5);
    let w = fs.entry_writer(&GfsPath::new("p")).unwrap();
    assert!(matches!(w.commit(&mut other), Err(GfsError::Other(_))));
    assert!(matches!(other.read_data(&GfsPath::new("p")), Err(GfsError::EntryNotFound)));
}

#[test]
fn read_handle_sees_a_snapshot_of_open_time() {
    let mut fs = fresh();
    let path = GfsPath::new("snap");
    fs.insert_entry(&path, NoEntryMeta, b"before".to_vec()).unwrap();
    let mut reader = fs.entry_reader(&path).unwrap();
    fs.insert_entry(&path, NoEntryMeta, b"after".to_vec()).unwrap();
    assert_eq!(reader.read(16), b"before".to_vec());
    assert_eq!(fs.read_data(&path).unwrap(), b"after".to_vec());
}

#[test]
fn read_handle_reads_advance_the_cursor_and_stop_at_the_end() {
    let file = GfsFile::create(NoEntryMeta, b"abcde".to_vec());
    let mut r = ReadableFile::from(file);
    assert_eq!(r.len(), 5);
    assert_eq!(*r.metadata(), NoEntryMeta);
    assert_eq!(r.read(2), b"ab".to_vec());
    assert_eq!(r.read(2), b"cd".to_vec());
    assert_eq!(r.read(2), b"e".to_vec());
    assert_eq!(r.read(2), Vec::<u8>::new());
}

#[test]
fn read_handle_seeks_from_start_current_and_end() {
    let file = GfsFile::create(NoEntryMeta, b"0123456789".to_vec());
    let mut r = ReadableFile::from(file);
    assert_eq!(r.seek(GfsSeekFrom::Start(4)).unwrap(), 4);
    assert_eq!(r.read(2), b"45".to_vec());
    assert_eq!(r.seek(GfsSeekFrom::Current(-2)).unwrap(), 4);
    assert_eq!(r.seek(GfsSeekFrom::End(-3)).unwrap(), 7);
    assert_eq!(r.read(10), b"789".to_vec());
}

#[test]
fn seek_before_the_start_is_rejected_and_keeps_the_cursor() {
    let file = GfsFile::create(NoEntryMeta, b"xy".to_vec());
    let mut r = ReadableFile::from(file);
    r.seek(GfsSeekFrom::Start(1)).unwrap();
    assert!(matches!(r.seek(GfsSeekFrom::Current(-5)), Err(GfsError::Other(_))));
    assert!(matches!(r.seek(GfsSeekFrom::End(-3)), Err(GfsError::Other(_))));
    assert_eq!(r.read(1), b"y".to_vec());
}

#[test]
fn seek_past_the_end_reads_nothing() {
    let file = GfsFile::create(NoEntryMeta, b"xy".to_vec());
    let mut r = ReadableFile::from(file);
    assert_eq!(r.seek(GfsSeekFrom::End(5)).unwrap(), 7);
    assert_eq!(r.read(3), Vec::<u8>::new());
}

#[test]
fn stock_game_aliases_work_together() {
    let mut fs: GameFileSystem<gamefs::GameMeta> = GameFileSystem::new(&GfsPath::new(""));
    let file: gamefs::GameFile = GfsFile::create(gamefs::GameMeta::default(), b"go".to_vec());
    fs.replace_entry(&GfsPath::new("alias"), file).unwrap();
    let mut reader: gamefs::ReadableGameFile = fs.entry_reader(&GfsPath::new("alias")).unwrap();
    assert_eq!(reader.read(2), b"go".to_vec());
    let w: gamefs::WritableGameFile = fs.entry_writer(&GfsPath::new("alias")).unwrap();
    w.commit(&mut fs).unwrap();
    assert_eq!(fs.read_data(&GfsPath::new("alias")).unwrap(), b"go".to_vec());
}

#[test]
fn entry_values_pack_and_unpack() {
    let file = GfsFile::create(NoEntryMeta, vec![1, 2, 3]);
    assert_eq!(*file.metadata(), NoEntryMeta);
    assert_eq!(file.contents().as_slice(), &[1, 2, 3]);
    let copy = file.clone();
    let (meta, contents) = copy.into_parts();
    assert_eq!(meta, NoEntryMeta);
    assert_eq!(contents, vec![1, 2, 3]);
    assert_eq!(file.contents().as_slice(), &[1, 2, 3]);
}
