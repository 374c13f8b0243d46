use gamefs::{
    import_archive, import_entry, GameFileSystem, GameMeta, GfsPath, PathLike, GfsSnapshot, GFS,
};

fn fresh() -> GameFileSystem<GameMeta> {
    GameFileSystem::new(&GfsPath::new(""))
}

#[test]
fn import_entry_places_the_entry_under_the_destination_root() {
    let mut fs = fresh();
    let replaced = import_entry(
        &mut fs,
        &GfsPath::new("mod"),
        &GfsPath::new("data/cfg"),
        GameMeta::default(),
        b"k=v".to_vec(),
    )
    .unwrap();
    assert!(replaced.is_none());
    assert_eq!(fs.read_data(&GfsPath::new("mod/data/cfg")).unwrap(), b"k=v".to_vec());
}

#[test]
fn import_entry_returns_what_it_replaced() {
    let mut fs = fresh();
    fs.insert_entry(&GfsPath::new("mod/a"), GameMeta::default(), vec![1]).unwrap();
    let replaced = import_entry(
        &mut fs,
        &GfsPath::new("mod"),
        &GfsPath::new("a"),
        GameMeta::default(),
        vec![2],
    )
    .unwrap();
    assert_eq!(replaced.unwrap().contents().as_slice(), &[1]);
    assert_eq!(fs.read_data(&GfsPath::new("mod/a")).unwrap(), vec![2]);
}

#[test]
fn import_archive_accumulates_replaced_entries_in_order() {
    let mut fs = fresh();
    fs.insert_entry(&GfsPath::new("base/two"), GameMeta::default(), vec![20]).unwrap();
    let items = vec![
        (GfsPath::new("one"), GameMeta::default(), vec![1]),
        (GfsPath::new("two"), GameMeta::default(), vec![2]),
        (GfsPath::new("one"), GameMeta::default(), vec![11]),
    ];
    let replaced = import_archive(&mut fs, &GfsPath::new("base"), &items).unwrap();

    assert_eq!(replaced.len(), 2);
    assert_eq!(replaced[0].0.as_str(), "two");
    assert_eq!(replaced[0].1.contents().as_slice(), &[20]);
    assert_eq!(replaced[1].0.as_str(), "one");
    assert_eq!(replaced[1].1.contents().as_slice(), &[1]);

    assert_eq!(fs.read_data(&GfsPath::new("base/one")).unwrap(), vec![11]);
    assert_eq!(fs.read_data(&GfsPath::new("base/two")).unwrap(), vec![2]);
}

#[test]
fn import_archive_of_nothing_changes_nothing() {
    let mut fs = fresh();
    fs.insert_entry(&GfsPath::new("keep"), GameMeta::default(), vec![7]).unwrap();
    let replaced = import_archive(&mut fs, &GfsPath::new("base"), &vec![]).unwrap();
    assert!(replaced.is_empty());
    assert_eq!(fs.read_data(&GfsPath::new("keep")).unwrap(), vec![7]);
}
