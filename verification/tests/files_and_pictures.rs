use sls::config::{SLSMEMBER, USER};
use sls::get_fsmap::{
    fs_root_path, fsmap_access, fsmap_reply, is_hidden, is_listed, is_under_static, metadata_failed,
    static_link_of, walk_failed, EntryKind, EntryMeta, FileObject, FsMapBuilder, WalkEntry,
};
use sls::get_sls_members::{member_card, sls_member_categories, SlsMemberCards};
use sls::read_image_files_in_folder::{folder_root, image_folder, is_picture_extension, picture_entry};
use sls::reply::{Data, Rejection, Reply, Step};
use sls::submit_images::upload_path;
use sls::token::Token;

fn entry(path: &str, name: &str, kind: EntryKind) -> WalkEntry {
    WalkEntry { path: path.to_string(), file_name: Some(name.to_string()), kind }
}

fn meta(size: u64) -> EntryMeta {
    EntryMeta { size, mod_date: "2024/01/02 03:04:05".to_string() }
}

fn find<'a>(objects: &'a [FileObject], path: &str) -> &'a FileObject {
    let id = sha256::digest(path);
    objects.iter().find(|o| o.id == id).expect("object listed")
}

fn member(verified: bool) -> USER {
    USER {
        student_id: "s".to_string(),
        name: "n".to_string(),
        password: "p".to_string(),
        token: Token::new_empty(),
        sls_verification: verified,
    }
}

fn failure_text(r: &Result<Reply, Rejection>) -> String {
    match r {
        Ok(Reply::Failure(m)) => m.clone(),
        other => panic!("expected a failure, got {:?}", other),
    }
}

#[test]
fn listing_links_children_to_their_folder() {
    let mut b = FsMapBuilder::new();
    let root = entry("resources/ftp", "ftp", EntryKind::Dir);
    let docs = entry("resources/ftp/docs", "docs", EntryKind::Dir);
    let a = entry("resources/ftp/docs/a.txt", "a.txt", EntryKind::File);
    let top = entry("resources/ftp/top.pdf", "top.pdf", EntryKind::File);
    for (e, size) in [(root, 0), (docs, 0), (a, 12), (top, 30)] {
        assert!(b.has_room());
        assert!(is_listed(&e));
        b.add(e, meta(size));
    }
    let map = b.finish();
    assert_eq!(map.root_folder_id, sha256::digest("resources/ftp/"));
    assert_eq!(map.file_map.len(), 4);

    let root = find(&map.file_map, "resources/ftp");
    assert!(root.isDir);
    assert_eq!(root.parentId, "");
    assert_eq!(root.childrenCount, 2);
    assert_eq!(
        root.childrenIds,
        vec![sha256::digest("resources/ftp/docs"), sha256::digest("resources/ftp/top.pdf")]
    );
    assert_eq!(root.thumbnailUrl, "");

    let docs = find(&map.file_map, "resources/ftp/docs");
    assert_eq!(docs.parentId, sha256::digest("resources/ftp"));
    assert_eq!(docs.childrenIds, vec![sha256::digest("resources/ftp/docs/a.txt")]);
    assert_eq!(docs.childrenCount, 1);

    let a = find(&map.file_map, "resources/ftp/docs/a.txt");
    assert!(!a.isDir);
    assert_eq!(a.name, "a.txt");
    assert_eq!(a.size, 12);
    assert_eq!(a.modDate, "2024/01/02 03:04:05");
    assert_eq!(a.parentId, sha256::digest("resources/ftp/docs"));
    assert_eq!(a.thumbnailUrl, "http://psplhl-pc.dynv6.net:4000/ftp/docs/a.txt");
    assert_eq!(a.childrenCount, 0);
}

#[test]
fn windows_paths_are_keyed_with_slashes() {
    let mut b = FsMapBuilder::new();
    b.add(entry("resources\\ftp", "ftp", EntryKind::Dir), meta(0));
    b.add(entry("resources\\ftp\\b.txt", "b.txt", EntryKind::File), meta(5));
    let map = b.finish();
    let f = find(&map.file_map, "resources/ftp/b.txt");
    assert_eq!(f.thumbnailUrl, "http://psplhl-pc.dynv6.net:4000/ftp/b.txt");
    assert_eq!(f.parentId, sha256::digest("resources/ftp"));
}

#[test]
fn entries_without_a_placed_folder_are_kept_unlinked() {
    let mut b = FsMapBuilder::new();
    b.add(entry("resources/ftp", "ftp", EntryKind::Dir), meta(0));
    // a file named like a folder is no folder
    b.add(entry("resources/ftp/x", "x", EntryKind::File), meta(1));
    b.add(entry("resources/ftp/x/y", "y", EntryKind::File), meta(1));
    // a folder that was never placed
    b.add(entry("resources/ftp/gone/z", "z", EntryKind::File), meta(1));
    let map = b.finish();
    assert_eq!(find(&map.file_map, "resources/ftp").parentId, "");
    assert_eq!(find(&map.file_map, "resources/ftp/x/y").parentId, "");
    assert_eq!(find(&map.file_map, "resources/ftp/gone/z").parentId, "");
    assert_eq!(find(&map.file_map, "resources/ftp").childrenIds, vec![sha256::digest("resources/ftp/x")]);
    assert_eq!(find(&map.file_map, "resources/ftp/x").childrenCount, 0);
}

#[test]
fn folders_of_the_same_name_keep_their_own_children() {
    let mut b = FsMapBuilder::new();
    for (path, name, kind) in [
        ("resources/ftp/", "ftp", EntryKind::Dir),
        ("resources/ftp/x", "x", EntryKind::Dir),
        ("resources/ftp/x/sub", "sub", EntryKind::Dir),
        ("resources/ftp/y", "y", EntryKind::Dir),
        ("resources/ftp/y/sub", "sub", EntryKind::Dir),
        ("resources/ftp/y/sub/f", "f", EntryKind::File),
    ] {
        b.add(entry(path, name, kind), meta(1));
    }
    let map = b.finish();
    let f = find(&map.file_map, "resources/ftp/y/sub/f");
    assert_eq!(f.parentId, sha256::digest("resources/ftp/y/sub"));
    let ysub = find(&map.file_map, "resources/ftp/y/sub");
    assert_eq!(ysub.childrenIds, vec![sha256::digest("resources/ftp/y/sub/f")]);
    assert_eq!(ysub.parentId, sha256::digest("resources/ftp/y"));
    let xsub = find(&map.file_map, "resources/ftp/x/sub");
    assert!(xsub.childrenIds.is_empty());
    assert_eq!(xsub.parentId, sha256::digest("resources/ftp/x"));
    // the walk's root, spelled with its trailing `/`, holds the top folders
    let root = find(&map.file_map, "resources/ftp/");
    assert_eq!(root.id, map.root_folder_id);
    assert_eq!(root.childrenIds, vec![sha256::digest("resources/ftp/x"), sha256::digest("resources/ftp/y")]);
}

#[test]
fn the_same_path_twice_replaces_the_object() {
    let mut b = FsMapBuilder::new();
    b.add(entry("resources/ftp", "ftp", EntryKind::Dir), meta(0));
    b.add(entry("resources/ftp/a", "a", EntryKind::File), meta(1));
    b.add(entry("resources/ftp/a", "a", EntryKind::File), meta(2));
    let map = b.finish();
    assert_eq!(map.file_map.len(), 2);
    assert_eq!(find(&map.file_map, "resources/ftp/a").size, 2);
    let root = find(&map.file_map, "resources/ftp");
    assert_eq!(root.childrenCount, 2);
    assert_eq!(root.childrenIds.len(), 2);
}

#[test]
fn unnamed_and_other_entries_are_not_listed() {
    let mut e = entry("resources/ftp/l", "l", EntryKind::Other);
    assert!(!is_listed(&e));
    e.kind = EntryKind::File;
    assert!(is_listed(&e));
    e.file_name = None;
    assert!(!is_listed(&e));
}

#[test]
fn hidden_entries() {
    assert!(is_hidden(None));
    assert!(is_hidden(Some(2)));
    assert!(is_hidden(Some(0x22)));
    assert!(!is_hidden(Some(0)));
    assert!(!is_hidden(Some(1)));
    assert!(!is_hidden(Some(0x20)));
}

#[test]
fn static_links() {
    assert!(is_under_static("resources/a"));
    assert!(is_under_static("resources/"));
    assert!(!is_under_static("resource/a"));
    assert!(!is_under_static("res"));
    assert_eq!(static_link_of("resources/images/a.png"), "http://psplhl-pc.dynv6.net:4000/images/a.png");
    assert_eq!(fs_root_path(), "resources/ftp/");
}

#[test]
fn shared_files_are_for_members() {
    assert!(matches!(fsmap_access(&member(true)), Step::Next(())));
    match fsmap_access(&member(false)) {
        Step::Done(r) => assert_eq!(failure_text(&r), "仅山林寺成员可查看"),
        Step::Next(_) => panic!("a non-member got through"),
    }
}

#[test]
fn listing_answers() {
    assert_eq!(failure_text(&walk_failed("boom".to_string())), "boom");
    match metadata_failed("gone".to_string()) {
        Err(Rejection::GetFsMap(e)) => assert_eq!(e.0, "gone"),
        other => panic!("unexpected {:?}", other),
    }
    let map = FsMapBuilder::new().finish();
    match fsmap_reply(map) {
        Ok(Reply::Success(Data::FsMap(m))) => assert!(m.file_map.is_empty()),
        other => panic!("unexpected {:?}", other),
    }
}

#[test]
fn picture_folders() {
    assert_eq!(image_folder(&"photo_wall".to_string()), "images/photo_wall/");
    assert_eq!(image_folder(&"annual".to_string()), "images/annual/");
    assert_eq!(image_folder(&"anything".to_string()), "images/temp/");
    assert_eq!(folder_root("images/annual/"), "resources/images/annual/");
}

#[test]
fn picture_extensions() {
    for ext in ["jpg", "jpeg", "png", "gif", "bmp", "webp"] {
        assert!(is_picture_extension(&ext.to_string()));
    }
    for ext in ["JPG", "txt", "", "pn"] {
        assert!(!is_picture_extension(&ext.to_string()));
    }
}

#[test]
fn picture_entries() {
    let img = picture_entry(
        "resources\\images\\annual\\team.png",
        true,
        Some("png".to_string()),
        Some("team".to_string()),
    )
    .expect("a picture");
    assert_eq!(img.image, "http://psplhl-pc.dynv6.net:4000/images/annual/team.png");
    assert_eq!(img.title, "team");
    assert_eq!(img.file_path, "resources/images/annual/team.png");
    assert!(picture_entry("resources/a.txt", true, Some("txt".to_string()), Some("a".to_string())).is_none());
    assert!(picture_entry("resources/d.png", false, Some("png".to_string()), Some("d".to_string())).is_none());
    assert!(picture_entry("resources/x", true, None, Some("x".to_string())).is_none());
    assert!(picture_entry("resources/.png", true, Some("png".to_string()), None).is_none());
}

#[test]
fn upload_paths() {
    assert_eq!(upload_path("images/photo_wall/", "a.png"), "./resources/images/photo_wall//a.png");
}

fn sls_member(name: &str, image: &str) -> SLSMEMBER {
    SLSMEMBER {
        name: name.to_string(),
        description: format!("{} desc", name),
        image: image.to_string(),
        student_id: "1".to_string(),
        introduction: String::new(),
        email: String::new(),
        phone_number: String::new(),
        papers: Vec::new(),
        paper_years: Vec::new(),
        url: String::new(),
    }
}

#[test]
fn member_cards() {
    let card = member_card(sls_member("Wang", "w.png"));
    assert_eq!(card.name, "Wang");
    assert_eq!(card.description, "Wang desc");
    assert_eq!(card.image, "http://psplhl-pc.dynv6.net:4000/images/sls_members/w.png");
}

#[test]
fn member_directory_by_category() {
    assert_eq!(sls_member_categories(), vec!["teachers", "students", "graduates"]);
    let mut cards = SlsMemberCards::new();
    cards.file(&"teachers".to_string(), sls_member("T", "t.png"));
    cards.file(&"students".to_string(), sls_member("S1", "s1.png"));
    cards.file(&"students".to_string(), sls_member("S2", "s2.png"));
    cards.file(&"graduates".to_string(), sls_member("G", "g.png"));
    cards.file(&"visitors".to_string(), sls_member("V", "v.png"));
    assert_eq!(cards.teachers.len(), 1);
    assert_eq!(cards.students.iter().map(|c| c.name.as_str()).collect::<Vec<_>>(), vec!["S1", "S2"]);
    assert_eq!(cards.graduates[0].image, "http://psplhl-pc.dynv6.net:4000/images/sls_members/g.png");
}

#[test]
fn root_entry_is_the_root_folder() {
    let mut b = FsMapBuilder::new();
    b.add(entry("resources/ftp/", "ftp", EntryKind::Dir), meta(0));
    b.add(entry("resources/ftp/n.txt", "n.txt", EntryKind::File), meta(3));
    let map = b.finish();
    let root = find(&map.file_map, "resources/ftp/");
    assert_eq!(root.id, map.root_folder_id);
    assert_eq!(root.childrenIds, vec![sha256::digest("resources/ftp/n.txt")]);
}
