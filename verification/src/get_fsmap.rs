//! The tree of shared files shown to verified SLS members.
use vstd::prelude::*;
use crate::config::{DIR_FTP, DIR_STATIC, USER, static_base, static_base_url};
use crate::reply::{Data, Endpoint, Reply, Rejection, Response, Step, fails_with, failure, reject,
    rejection_for};
use crate::text::{forward_slashes, join2, prefix_to, replace_backslashes, suffix_from};
use crate::token::{sha256_digest, sha256_hex};
use crate::submit_an_action::no_repeats;

verus! {

/// Raised when listing the shared files fails.
#[derive(Debug)]
pub struct FailedToGetFsMap(pub String);

/// One file or folder of the shared-file tree.
#[allow(non_snake_case)]
#[derive(Clone, Debug)]
pub struct FileObject {
    pub id: String,
    pub name: String,
    pub isDir: bool,
    pub childrenIds: Vec<String>,
    pub parentId: String,
    pub childrenCount: usize,
    pub size: u64,
    pub modDate: String,
    pub thumbnailUrl: String,
}

/// The shared-file tree: the id of its root folder and every object, keyed
/// by id (no two objects share an id).
#[derive(Clone, Debug)]
pub struct FsMap {
    pub root_folder_id: String,
    pub file_map: Vec<FileObject>,
}

/// [`FileObject`] as values.
pub struct FileObjectView {
    pub id: Seq<char>,
    pub name: Seq<char>,
    pub is_dir: bool,
    pub children_ids: Seq<Seq<char>>,
    pub parent_id: Seq<char>,
    pub children_count: usize,
    pub size: u64,
    pub mod_date: Seq<char>,
    pub thumbnail_url: Seq<char>,
}

impl View for FileObject {
    type V = FileObjectView;

    open spec fn view(&self) -> FileObjectView {
        FileObjectView {
            id: self.id@,
            name: self.name@,
            is_dir: self.isDir,
            children_ids: self.childrenIds.deep_view(),
            parent_id: self.parentId@,
            children_count: self.childrenCount,
            size: self.size,
            mod_date: self.modDate@,
            thumbnail_url: self.thumbnailUrl@,
        }
    }
}

/// What a directory walk reports of an entry.
#[derive(Clone, Copy, Debug, PartialEq, Eq, Structural)]
pub enum EntryKind {
    File,
    Dir,
    Other,
}

/// One entry of the walk through the shared-file area, as plain values: its
/// path as the file system spells it, its own name, and its kind.
#[derive(Clone, Debug)]
pub struct WalkEntry {
    pub path: String,
    pub file_name: Option<String>,
    pub kind: EntryKind,
}

pub struct WalkEntryView {
    pub path: Seq<char>,
    pub file_name: Option<Seq<char>>,
    pub kind: EntryKind,
}

pub open spec fn view_name(n: Option<String>) -> Option<Seq<char>> {
    match n {
        Some(s) => Some(s@),
        None => None,
    }
}

impl View for WalkEntry {
    type V = WalkEntryView;

    open spec fn view(&self) -> WalkEntryView {
        WalkEntryView { path: self.path@, file_name: view_name(self.file_name), kind: self.kind }
    }
}

/// The size in bytes and the modification time (as shown) of an entry.
#[derive(Clone, Debug)]
pub struct EntryMeta {
    pub size: u64,
    pub mod_date: String,
}

pub struct EntryMetaView {
    pub size: u64,
    pub mod_date: Seq<char>,
}

impl View for EntryMeta {
    type V = EntryMetaView;

    open spec fn view(&self) -> EntryMetaView {
        EntryMetaView { size: self.size, mod_date: self.mod_date@ }
    }
}

/// Files and folders that have a name are listed; anything else is passed
/// over.
pub open spec fn listed(e: WalkEntryView) -> bool {
    e.kind != EntryKind::Other && e.file_name is Some
}

pub fn is_listed(e: &WalkEntry) -> (r: bool)
    ensures
        r == listed(e@),
{
    match e.kind {
        EntryKind::Other => false,
        _ => e.file_name.is_some(),
    }
}

/// A path below the static directory: it begins with `DIR_STATIC`.
pub open spec fn under_static(p: Seq<char>) -> bool {
    p.len() >= DIR_STATIC@.len() && p.take(DIR_STATIC@.len() as int) == DIR_STATIC@
}

pub fn is_under_static(p: &str) -> (r: bool)
    ensures
        r == under_static(p@),
{
    proof {
        reveal_strlit("resources/");
    }
    let n = p.unicode_len();
    if n < 10 {
        return false;
    }
    let head = crate::text::prefix_to(p, 10);
    crate::text::same_text(head.as_str(), DIR_STATIC)
}

/// The link to a file below the static directory: the server's address
/// followed by the path without the `DIR_STATIC` prefix.
pub open spec fn static_link(p: Seq<char>) -> Seq<char> {
    static_base() + p.skip(DIR_STATIC@.len() as int)
}

pub fn static_link_of(p: &str) -> (r: String)
    requires
        under_static(p@),
    ensures
        r@ == static_link(p@),
{
    proof {
        reveal_strlit("resources/");
    }
    let mut s = static_base_url();
    let rest = suffix_from(p, 10);
    s.append(rest.as_str());
    s
}

/// A path as folders are matched by: without one trailing `/`.
pub open spec fn trimmed(p: Seq<char>) -> Seq<char> {
    if p.len() > 0 && p.last() == '/' {
        p.drop_last()
    } else {
        p
    }
}

/// `child` lies directly in the folder `parent`: it is `parent`, a `/`, and
/// a non-empty last component without `/`.
pub open spec fn parent_of(child: Seq<char>, parent: Seq<char>) -> bool {
    &&& parent.len() + 1 < child.len()
    &&& child.take(parent.len() as int) == parent
    &&& child[parent.len() as int] == '/'
    &&& forall|j: int| parent.len() < j < child.len() ==> child[j] != '/'
}

/// A path lies directly in at most one folder.
pub proof fn lemma_parent_unique(child: Seq<char>, p1: Seq<char>, p2: Seq<char>)
    requires
        parent_of(child, p1),
        parent_of(child, p2),
    ensures
        p1 == p2,
{
    if p1.len() < p2.len() {
        assert(child[p2.len() as int] == '/');
    } else if p2.len() < p1.len() {
        assert(child[p1.len() as int] == '/');
    }
}

/// What the tree keeps of an object already placed, to find folders by.
pub struct Placed {
    path: String,
    is_dir: bool,
    id: String,
}

pub struct PlacedView {
    pub path: Seq<char>,
    pub is_dir: bool,
    pub id: Seq<char>,
}

impl View for Placed {
    type V = PlacedView;

    closed spec fn view(&self) -> PlacedView {
        PlacedView { path: self.path@, is_dir: self.is_dir, id: self.id@ }
    }
}

/// `p` is the folder that the path `path` lies directly in.
pub open spec fn parent_candidate(p: PlacedView, path: Seq<char>) -> bool {
    p.is_dir && parent_of(path, p.path)
}

/// `i` is the first placed folder that `path` lies directly in.
pub open spec fn first_candidate(placed: Seq<PlacedView>, path: Seq<char>, i: int) -> bool {
    &&& 0 <= i < placed.len()
    &&& parent_candidate(placed[i], path)
    &&& forall|j: int| 0 <= j < i ==> !parent_candidate(placed[j], path)
}

/// The id of the folder that an entry with (trimmed) path `path` lies
/// directly in, if that folder was placed (the first such, should a folder
/// path have been placed twice).
pub open spec fn parent_link(placed: Seq<PlacedView>, path: Seq<char>) -> Option<Seq<char>> {
    if exists|i: int| first_candidate(placed, path, i) {
        Some(placed[choose|i: int| first_candidate(placed, path, i)].id)
    } else {
        None
    }
}

proof fn lemma_parent_link_first(placed: Seq<PlacedView>, path: Seq<char>, i: int)
    requires
        first_candidate(placed, path, i),
    ensures
        parent_link(placed, path) == Some(placed[i].id),
{
    let k = choose|k: int| first_candidate(placed, path, k);
    if k < i {
        assert(!parent_candidate(placed[k], path));
    }
    if k > i {
        assert(parent_candidate(placed[i], path));
    }
}

/// `p` without one trailing `/`.
fn trim_slash(p: &str) -> (r: String)
    ensures
        r@ == trimmed(p@),
{
    let n = p.unicode_len();
    if n > 0 && p.get_char(n - 1) == '/' {
        prefix_to(p, n - 1)
    } else {
        String::from_str(p)
    }
}

/// The folder path that `p` lies directly in, if any.
fn folder_of(p: &str) -> (r: Option<String>)
    ensures
        match r {
            Some(f) => parent_of(p@, f@),
            None => forall|f: Seq<char>| !parent_of(p@, f),
        },
{
    let n = p.unicode_len();
    let mut last: Option<usize> = None;
    for i in 0..n
        invariant
            n == p@.len(),
            match last {
                Some(k) => k < i && p@[k as int] == '/' && forall|j: int| k < j < i ==> p@[j] != '/',
                None => forall|j: int| 0 <= j < i ==> p@[j] != '/',
            },
    {
        if p.get_char(i) == '/' {
            last = Some(i);
        }
    }
    match last {
        Some(k) => {
            if k + 1 < n {
                let f = prefix_to(p, k);
                assert(parent_of(p@, f@));
                Some(f)
            } else {
                assert forall|f: Seq<char>| !parent_of(p@, f) by {
                    if parent_of(p@, f) {
                        assert(p@[k as int] != '/');
                    }
                }
                None
            }
        },
        None => {
            assert forall|f: Seq<char>| !parent_of(p@, f) by {
                if parent_of(p@, f) {
                    assert(p@[f.len() as int] == '/');
                }
            }
            None
        },
    }
}

/// `o` after taking `child` as one more child.
pub open spec fn adopted(o: FileObjectView, child: Seq<char>) -> FileObjectView {
    FileObjectView {
        children_ids: o.children_ids.push(child),
        children_count: (o.children_count + 1) as usize,
        ..o
    }
}

/// Every object whose id is `parent` takes `child` as one more child.
pub open spec fn adopt_all(objects: Seq<FileObjectView>, parent: Seq<char>, child: Seq<char>) -> Seq<FileObjectView> {
    objects.map_values(|o: FileObjectView| if o.id == parent { adopted(o, child) } else { o })
}

/// `i` is the first position of an object with id `id`.
pub open spec fn first_with_id(objects: Seq<FileObjectView>, id: Seq<char>, i: int) -> bool {
    &&& 0 <= i < objects.len()
    &&& objects[i].id == id
    &&& forall|j: int| 0 <= j < i ==> objects[j].id != id
}

/// The objects with `o` stored under its id: it replaces the object of that
/// id, or is added when there is none.
pub open spec fn upserted(objects: Seq<FileObjectView>, o: FileObjectView) -> Seq<FileObjectView> {
    if exists|i: int| first_with_id(objects, o.id, i) {
        objects.update(choose|i: int| first_with_id(objects, o.id, i), o)
    } else {
        objects.push(o)
    }
}

/// The listing under construction: the objects, keyed by id, and the
/// objects placed so far in walk order.
pub struct BuilderView {
    pub objects: Seq<FileObjectView>,
    pub placed: Seq<PlacedView>,
}

/// The object an entry becomes, given the id of its folder (empty if none).
pub open spec fn entry_object(e: WalkEntryView, m: EntryMetaView, parent_id: Seq<char>) -> FileObjectView {
    let p = forward_slashes(e.path);
    FileObjectView {
        id: sha256_digest(p),
        name: e.file_name.unwrap(),
        is_dir: e.kind == EntryKind::Dir,
        children_ids: Seq::empty(),
        parent_id: parent_id,
        children_count: 0,
        size: m.size,
        mod_date: m.mod_date,
        thumbnail_url: if e.kind == EntryKind::File {
            static_link(p)
        } else {
            Seq::empty()
        },
    }
}

/// The key of an entry: the digest of its path with `/` separators.
pub open spec fn entry_id(e: WalkEntryView) -> Seq<char> {
    sha256_digest(forward_slashes(e.path))
}

/// The listing after a listed entry is added: the folder it lies directly
/// in, if placed, takes it as a child; then the entry is stored under the
/// digest of its path (with `/` separators) and placed.
pub open spec fn builder_after(b: BuilderView, e: WalkEntryView, m: EntryMetaView) -> BuilderView {
    let p = forward_slashes(e.path);
    let id = sha256_digest(p);
    let link = parent_link(b.placed, trimmed(p));
    let objects = match link {
        Some(pid) => adopt_all(b.objects, pid, id),
        None => b.objects,
    };
    let parent_id = match link {
        Some(pid) => pid,
        None => Seq::empty(),
    };
    let o = entry_object(e, m, parent_id);
    BuilderView {
        objects: upserted(objects, o),
        placed: b.placed.push(PlacedView { path: trimmed(p), is_dir: o.is_dir, id }),
    }
}

/// No two objects share an id.
pub open spec fn ids_unique(objects: Seq<FileObjectView>) -> bool {
    forall|i: int, j: int| 0 <= i < j < objects.len() ==> objects[i].id != objects[j].id
}

/// Every object counts exactly the children it lists.
pub open spec fn counts_match(objects: Seq<FileObjectView>) -> bool {
    forall|i: int| 0 <= i < objects.len() ==> objects[i].children_count == objects[i].children_ids.len()
}

/// The listing of the shared-file area, built entry by entry as the walk
/// goes.
pub struct FsMapBuilder {
    objects: Vec<FileObject>,
    placed: Vec<Placed>,
}

impl View for FsMapBuilder {
    type V = BuilderView;

    closed spec fn view(&self) -> BuilderView {
        BuilderView {
            objects: self.objects@.map_values(|o: FileObject| o@),
            placed: self.placed@.map_values(|p: Placed| p@),
        }
    }
}

impl FsMapBuilder {
    /// Objects and placements agree, ids are unique, and every object counts
    /// the children it lists (never more than the entries placed).
    pub closed spec fn wf(&self) -> bool {
        &&& ids_unique(self@.objects)
        &&& counts_match(self@.objects)
        &&& forall|i: int| 0 <= i < self@.objects.len() ==> self@.objects[i].children_count
            <= self@.placed.len()
    }

    /// An empty listing.
    pub fn new() -> (r: FsMapBuilder)
        ensures
            r.wf(),
            r@.objects == Seq::<FileObjectView>::empty(),
            r@.placed == Seq::<PlacedView>::empty(),
    {
        let r = FsMapBuilder { objects: Vec::new(), placed: Vec::new() };
        assert(r@.objects =~= Seq::<FileObjectView>::empty());
        assert(r@.placed =~= Seq::<PlacedView>::empty());
        r
    }

    /// Whether one more entry can be placed.
    pub fn has_room(&self) -> (r: bool)
        ensures
            r == (self@.placed.len() < usize::MAX),
    {
        self.placed.len() < usize::MAX
    }

    /// The id of the first placed folder that the (trimmed) path `path` lies
    /// directly in, as [`parent_link`] defines it.
    fn find_parent(&self, path: &String) -> (r: Option<String>)
        ensures
            match parent_link(self@.placed, path@) {
                Some(id) => r matches Some(s) && s@ == id,
                None => r is None,
            },
    {
        let folder = match folder_of(path.as_str()) {
            Some(f) => f,
            None => {
                proof {
                    if exists|k: int| first_candidate(self@.placed, path@, k) {
                        let k = choose|k: int| first_candidate(self@.placed, path@, k);
                        assert(parent_of(path@, self@.placed[k].path));
                    }
                }
                return None;
            },
        };
        let n = self.placed.len();
        for i in 0..n
            invariant
                n == self.placed.len(),
                parent_of(path@, folder@),
                forall|j: int| 0 <= j < i ==> !parent_candidate(self@.placed[j], path@),
        {
            let p = &self.placed[i];
            assert(self@.placed[i as int] == p@);
            proof {
                if parent_candidate(p@, path@) {
                    lemma_parent_unique(path@, p@.path, folder@);
                }
            }
            if p.is_dir && p.path == folder {
                let ghost placed = self@.placed;
                assert(first_candidate(placed, path@, i as int));
                proof {
                    lemma_parent_link_first(placed, path@, i as int);
                }
                let r = p.id.clone();
                return Some(r);
            }
        }
        proof {
            if exists|k: int| first_candidate(self@.placed, path@, k) {
                let k = choose|k: int| first_candidate(self@.placed, path@, k);
                assert(!parent_candidate(self@.placed[k], path@));
            }
        }
        None
    }

    /// The object with id `parent`, if any, takes `child` as a child.
    fn adopt(&mut self, parent: &String, child: &String)
        requires
            old(self).wf(),
            old(self)@.placed.len() < usize::MAX,
        ensures
            final(self)@.objects == adopt_all(old(self)@.objects, parent@, child@),
            final(self)@.placed == old(self)@.placed,
            ids_unique(final(self)@.objects),
            counts_match(final(self)@.objects),
            forall|i: int| 0 <= i < final(self)@.objects.len() ==> final(self)@.objects[i].children_count
                <= old(self)@.placed.len() + 1,
    {
        let ghost before = self@.objects;
        let n = self.objects.len();
        let mut found: Option<usize> = None;
        for i in 0..n
            invariant
                n == self.objects.len(),
                before == self@.objects,
                match found {
                    None => forall|j: int| 0 <= j < i ==> before[j].id != parent@,
                    Some(k) => first_with_id(before, parent@, k as int),
                },
        {
            assert(before[i as int] == self.objects[i as int]@);
            if found.is_none() && self.objects[i].id == *parent {
                found = Some(i);
            }
        }
        match found {
            None => {
                assert(adopt_all(before, parent@, child@) =~= before);
            },
            Some(i) => {
                let mut o = self.objects.remove(i);
                assert(before[i as int] == o@);
                o.childrenCount = o.childrenCount + 1;
                let ghost kids = o.childrenIds.deep_view();
                o.childrenIds.push(child.clone());
                assert(o.childrenIds.deep_view() =~= kids.push(child@));
                assert(o@ == adopted(before[i as int], child@));
                self.objects.insert(i, o);
                assert forall|j: int| 0 <= j < n && j != i implies before[j].id != parent@ by {
                    if j > i {
                        assert(before[i as int].id == parent@);
                    }
                }
                assert(self@.objects =~= adopt_all(before, parent@, child@));
            },
        }
    }

    /// Stores `o` under its id, replacing the object of that id if any.
    fn upsert(&mut self, o: FileObject)
        requires
            ids_unique(old(self)@.objects),
            counts_match(old(self)@.objects),
            o@.children_count == 0,
            o@.children_ids.len() == 0,
        ensures
            final(self)@.objects == upserted(old(self)@.objects, o@),
            final(self)@.placed == old(self)@.placed,
            ids_unique(final(self)@.objects),
            counts_match(final(self)@.objects),
            forall|i: int| 0 <= i < final(self)@.objects.len() ==> (final(self)@.objects[i].children_count
                == 0 || exists|j: int| 0 <= j < old(self)@.objects.len() && final(self)@.objects[i]
                == old(self)@.objects[j]),
    {
        let ghost before = self@.objects;
        let n = self.objects.len();
        let mut found: Option<usize> = None;
        for i in 0..n
            invariant
                n == self.objects.len(),
                before == self@.objects,
                match found {
                    None => forall|j: int| 0 <= j < i ==> before[j].id != o@.id,
                    Some(k) => first_with_id(before, o@.id, k as int),
                },
        {
            assert(before[i as int] == self.objects[i as int]@);
            if found.is_none() && self.objects[i].id == o.id {
                found = Some(i);
            }
        }
        let ghost ov = o@;
        match found {
            Some(k) => {
                proof {
                    let c = choose|c: int| first_with_id(before, ov.id, c);
                    if c < k {
                        assert(before[c].id != ov.id);
                    }
                    if c > k {
                        assert(before[k as int].id == ov.id);
                    }
                }
                self.objects.set(k, o);
                assert(self@.objects =~= before.update(k as int, ov));
                assert forall|a: int, b: int| 0 <= a < b < self@.objects.len() implies self@.objects[a].id
                    != self@.objects[b].id by {
                    if a != k && b != k {
                        assert(before[a].id != before[b].id);
                    } else if a == k {
                        assert(before[a].id != before[b].id);
                    } else {
                        assert(before[a].id != before[b].id);
                    }
                }
                assert forall|i: int| 0 <= i < self@.objects.len() implies (self@.objects[i].children_count
                    == 0 || exists|j: int| 0 <= j < before.len() && self@.objects[i] == before[j]) by {
                    if i != k {
                        assert(self@.objects[i] == before[i]);
                    }
                }
            },
            None => {
                assert(!exists|c: int| first_with_id(before, ov.id, c));
                self.objects.push(o);
                assert(self@.objects =~= before.push(ov));
                assert forall|a: int, b: int| 0 <= a < b < self@.objects.len() implies self@.objects[a].id
                    != self@.objects[b].id by {
                    if b < before.len() {
                        assert(before[a].id != before[b].id);
                    } else {
                        assert(before[a].id != ov.id);
                    }
                }
                assert forall|i: int| 0 <= i < self@.objects.len() implies (self@.objects[i].children_count
                    == 0 || exists|j: int| 0 <= j < before.len() && self@.objects[i] == before[j]) by {
                    if i < before.len() {
                        assert(self@.objects[i] == before[i]);
                    }
                }
            },
        }
    }

    /// Adds a listed entry of the walk, with its size and modification time.
    pub fn add(&mut self, entry: WalkEntry, meta: EntryMeta)
        requires
            old(self).wf(),
            old(self)@.placed.len() < usize::MAX,
            listed(entry@),
            entry@.kind == EntryKind::File ==> under_static(forward_slashes(entry@.path)),
        ensures
            final(self).wf(),
            final(self)@ == builder_after(old(self)@, entry@, meta@),
            exists|k: int| 0 <= k < final(self)@.objects.len() && final(self)@.objects[k].id == entry_id(entry@),
            forall|k: int|
                0 <= k < final(self)@.objects.len() && (#[trigger] final(self)@.objects[k]).id == entry_id(entry@)
                    ==> final(self)@.objects[k].name == entry@.file_name.unwrap() && final(self)@.objects[k].is_dir
                    == (entry@.kind == EntryKind::Dir) && final(self)@.objects[k].size == meta@.size
                    && final(self)@.objects[k].mod_date == meta@.mod_date,
    {
        let ghost b = self@;
        let ghost ev = entry@;
        let ghost mv = meta@;
        let path = replace_backslashes(entry.path.as_str());
        let id = sha256_hex(path.as_str());
        let key = trim_slash(path.as_str());
        let link = self.find_parent(&key);
        match &link {
            Some(pid) => self.adopt(pid, &id),
            None => {
                assert(counts_match(self@.objects));
            },
        }
        let ghost mid = self@.objects;
        let parent_id = match link {
            Some(pid) => pid,
            None => String::new(),
        };
        let is_dir = match entry.kind {
            EntryKind::Dir => true,
            _ => false,
        };
        let thumbnail = match entry.kind {
            EntryKind::File => static_link_of(path.as_str()),
            _ => String::new(),
        };
        let name = entry.file_name.unwrap();
        let o = FileObject {
            id: id.clone(),
            name,
            isDir: is_dir,
            childrenIds: Vec::new(),
            parentId: parent_id,
            childrenCount: 0,
            size: meta.size,
            modDate: meta.mod_date,
            thumbnailUrl: thumbnail,
        };
        assert(o.childrenIds.deep_view() =~= Seq::<Seq<char>>::empty());
        assert(o@ == entry_object(ev, mv, o@.parent_id));
        self.upsert(o);
        let ghost placed_before = self@.placed;
        self.placed.push(Placed { path: key, is_dir, id });
        assert(self@.placed =~= placed_before.push(
            PlacedView { path: trimmed(forward_slashes(ev.path)), is_dir, id: sha256_digest(forward_slashes(ev.path)) },
        ));
        assert(self@ == builder_after(b, ev, mv));
        proof {
            assert(counts_below_max(b.objects)) by {
                assert forall|i: int| 0 <= i < b.objects.len() implies b.objects[i].children_count < usize::MAX by {}
            }
            lemma_added_entry_object(b, ev, mv);
        }
        assert forall|i: int| 0 <= i < self@.objects.len() implies self@.objects[i].children_count
            <= self@.placed.len() by {
            if self@.objects[i].children_count != 0 {
                let j = choose|j: int| 0 <= j < mid.len() && self@.objects[i] == mid[j];
            }
        }
    }

    /// The finished listing: the id of the root folder and every object.
    pub fn finish(self) -> (r: FsMap)
        ensures
            r.root_folder_id@ == sha256_digest(fs_root()),
            r.file_map@.map_values(|o: FileObject| o@) == self@.objects,
    {
        let root = fs_root_path();
        FsMap { root_folder_id: sha256_hex(root.as_str()), file_map: self.objects }
    }
}

/// The root of the shared-file area: `DIR_STATIC` followed by `DIR_FTP`.
pub open spec fn fs_root() -> Seq<char> {
    DIR_STATIC@ + DIR_FTP@
}

pub fn fs_root_path() -> (r: String)
    ensures
        r@ == fs_root(),
{
    join2(DIR_STATIC, DIR_FTP)
}

pub const REASON_MEMBERS_ONLY: &'static str = "仅山林寺成员可查看";

/// Only verified SLS members may see the shared files.
pub fn fsmap_access(user: &USER) -> (r: Step<()>)
    ensures
        user.sls_verification ==> r == Step::<()>::Next(()),
        !user.sls_verification ==> (r matches Step::Done(resp) && fails_with(resp, REASON_MEMBERS_ONLY@)),
{
    if user.sls_verification {
        Step::Next(())
    } else {
        Step::Done(failure(REASON_MEMBERS_ONLY))
    }
}

/// A walk error ends the listing with a failure that shows the error.
pub fn walk_failed(reason: String) -> (r: Response)
    ensures
        r == Ok::<Reply, Rejection>(Reply::Failure(reason)),
{
    Ok(Reply::Failure(reason))
}

/// An entry whose metadata cannot be read ends the listing with an error.
pub fn metadata_failed(reason: String) -> (r: Response)
    ensures
        r == Err::<Reply, Rejection>(rejection_for(Endpoint::GetFsMap, reason)),
{
    Err(reject(Endpoint::GetFsMap, reason))
}

/// The answer carrying the finished listing.
pub fn fsmap_reply(map: FsMap) -> (r: Response)
    ensures
        r == Ok::<Reply, Rejection>(Reply::Success(Data::FsMap(map))),
{
    Ok(Reply::Success(Data::FsMap(map)))
}

/// The hidden bit of Windows file attributes.
pub const FILE_ATTRIBUTE_HIDDEN: u32 = 2;

/// Whether a walk skips an entry (and everything below it): when its
/// attributes cannot be read, or when they carry the hidden bit.
pub open spec fn hidden_by(attributes: Option<u32>) -> bool {
    match attributes {
        Some(a) => a & FILE_ATTRIBUTE_HIDDEN != 0,
        None => true,
    }
}

pub fn is_hidden(attributes: Option<u32>) -> (r: bool)
    ensures
        r == hidden_by(attributes),
{
    match attributes {
        Some(a) => (a & FILE_ATTRIBUTE_HIDDEN) > 0,
        None => true,
    }
}

/// No object counts as many children as a `usize` can hold.
pub open spec fn counts_below_max(objects: Seq<FileObjectView>) -> bool {
    forall|i: int| 0 <= i < objects.len() ==> objects[i].children_count < usize::MAX
}

proof fn lemma_adopt_keeps_consistency(objects: Seq<FileObjectView>, parent: Seq<char>, child: Seq<char>)
    requires
        ids_unique(objects),
        counts_match(objects),
        counts_below_max(objects),
    ensures
        ids_unique(adopt_all(objects, parent, child)),
        counts_match(adopt_all(objects, parent, child)),
        adopt_all(objects, parent, child).len() == objects.len(),
        forall|i: int| 0 <= i < objects.len() ==> #[trigger] adopt_all(objects, parent, child)[i].id
            == objects[i].id,
{
    let r = adopt_all(objects, parent, child);
    assert forall|a: int, b: int| 0 <= a < b < r.len() implies r[a].id != r[b].id by {
        assert(r[a].id == objects[a].id);
        assert(r[b].id == objects[b].id);
    }
    assert forall|i: int| 0 <= i < r.len() implies r[i].children_count == r[i].children_ids.len() by {
        assert(objects[i].children_count == objects[i].children_ids.len());
    }
}

proof fn lemma_upsert_keeps_consistency(objects: Seq<FileObjectView>, o: FileObjectView)
    requires
        ids_unique(objects),
        counts_match(objects),
        o.children_count == 0,
        o.children_ids.len() == 0,
    ensures
        ids_unique(upserted(objects, o)),
        counts_match(upserted(objects, o)),
        exists|k: int| 0 <= k < upserted(objects, o).len() && upserted(objects, o)[k] == o,
{
    let r = upserted(objects, o);
    if exists|i: int| first_with_id(objects, o.id, i) {
        let k = choose|i: int| first_with_id(objects, o.id, i);
        assert(r[k] == o);
        assert forall|a: int, b: int| 0 <= a < b < r.len() implies r[a].id != r[b].id by {
            assert(objects[a].id != objects[b].id);
        }
    } else {
        assert(r[objects.len() as int] == o);
        assert forall|a: int, b: int| 0 <= a < b < r.len() implies r[a].id != r[b].id by {
            if b < objects.len() {
                assert(objects[a].id != objects[b].id);
            } else if objects[a].id == o.id {
                assert(first_with_id(objects, o.id, a) || exists|i: int| first_with_id(objects, o.id, i)) by {
                    assert forall|j: int| 0 <= j < a implies objects[j].id != o.id by {
                        assert(objects[j].id != objects[a].id);
                    }
                }
            }
        }
    }
}

/// Adding an entry keeps the listing a tree index: ids stay unique and
/// every object counts exactly the children it lists.
pub proof fn lemma_listing_stays_consistent(b: BuilderView, e: WalkEntryView, m: EntryMetaView)
    requires
        ids_unique(b.objects),
        counts_match(b.objects),
        counts_below_max(b.objects),
    ensures
        ids_unique(builder_after(b, e, m).objects),
        counts_match(builder_after(b, e, m).objects),
{
    let id = sha256_digest(forward_slashes(e.path));
    let link = parent_link(b.placed, trimmed(forward_slashes(e.path)));
    let objects = match link {
        Some(pid) => adopt_all(b.objects, pid, id),
        None => b.objects,
    };
    if let Some(pid) = link {
        lemma_adopt_keeps_consistency(b.objects, pid, id);
    }
    let parent_id = match link {
        Some(pid) => pid,
        None => Seq::empty(),
    };
    lemma_upsert_keeps_consistency(objects, entry_object(e, m, parent_id));
}

/// After an entry is added, the listing holds it under the digest of its
/// path, with its name, kind, size, date and folder, and no children yet.
pub proof fn lemma_entry_is_listed(b: BuilderView, e: WalkEntryView, m: EntryMetaView)
    requires
        ids_unique(b.objects),
        counts_match(b.objects),
        counts_below_max(b.objects),
    ensures
        exists|k: int| 0 <= k < builder_after(b, e, m).objects.len() && builder_after(b, e, m).objects[k]
            == entry_object(
            e,
            m,
            match parent_link(b.placed, trimmed(forward_slashes(e.path))) {
                Some(pid) => pid,
                None => Seq::empty(),
            },
        ),
{
    let id = sha256_digest(forward_slashes(e.path));
    let link = parent_link(b.placed, trimmed(forward_slashes(e.path)));
    let objects = match link {
        Some(pid) => adopt_all(b.objects, pid, id),
        None => b.objects,
    };
    if let Some(pid) = link {
        lemma_adopt_keeps_consistency(b.objects, pid, id);
    }
    let parent_id = match link {
        Some(pid) => pid,
        None => Seq::empty(),
    };
    lemma_upsert_keeps_consistency(objects, entry_object(e, m, parent_id));
    assert(builder_after(b, e, m).objects == upserted(objects, entry_object(e, m, parent_id)));
}

/// After an entry is added, the listing holds an object keyed by the
/// digest of the entry's path, and every object under that key carries the
/// entry's own file name (the last component of its path, for a folder as
/// for a file), its kind, its size and date, the link to a file, and no
/// children yet.
pub proof fn lemma_added_entry_object(b: BuilderView, e: WalkEntryView, m: EntryMetaView)
    requires
        ids_unique(b.objects),
        counts_match(b.objects),
        counts_below_max(b.objects),
    ensures
        exists|k: int| 0 <= k < builder_after(b, e, m).objects.len() && builder_after(b, e, m).objects[k].id
            == entry_id(e),
        forall|k: int|
            0 <= k < builder_after(b, e, m).objects.len() && (#[trigger] builder_after(b, e, m).objects[k]).id
                == entry_id(e) ==> {
                let o = builder_after(b, e, m).objects[k];
                &&& o.name == e.file_name.unwrap()
                &&& o.is_dir == (e.kind == EntryKind::Dir)
                &&& o.size == m.size
                &&& o.mod_date == m.mod_date
                &&& o.children_ids.len() == 0
                &&& o.children_count == 0
                &&& (e.kind == EntryKind::File ==> o.thumbnail_url == static_link(forward_slashes(e.path)))
            },
{
    lemma_entry_is_listed(b, e, m);
    lemma_listing_stays_consistent(b, e, m);
    let after = builder_after(b, e, m);
    let parent_id = match parent_link(b.placed, trimmed(forward_slashes(e.path))) {
        Some(pid) => pid,
        None => Seq::empty(),
    };
    let k = choose|k: int| 0 <= k < after.objects.len() && after.objects[k] == entry_object(e, m, parent_id);
    assert(after.objects[k].id == entry_id(e));
    assert forall|k2: int| 0 <= k2 < after.objects.len() && (#[trigger] after.objects[k2]).id == entry_id(e)
        implies after.objects[k2] == entry_object(e, m, parent_id) by {
        if k2 != k {
            if k2 < k {
                assert(after.objects[k2].id != after.objects[k].id);
            } else {
                assert(after.objects[k].id != after.objects[k2].id);
            }
        }
    }
}

/// When an entry finds its folder in the listing (and is not that
/// folder itself), the folder lists the entry's id among its children.
pub proof fn lemma_folder_lists_child(b: BuilderView, e: WalkEntryView, m: EntryMetaView, j: int)
    requires
        ids_unique(b.objects),
        counts_match(b.objects),
        counts_below_max(b.objects),
        0 <= j < b.objects.len(),
        parent_link(b.placed, trimmed(forward_slashes(e.path))) == Some(b.objects[j].id),
        b.objects[j].id != sha256_digest(forward_slashes(e.path)),
    ensures
        builder_after(b, e, m).objects[j].id == b.objects[j].id,
        builder_after(b, e, m).objects[j].children_ids.contains(sha256_digest(forward_slashes(e.path))),
        builder_after(b, e, m).objects[j].children_count == b.objects[j].children_count + 1,
{
    let id = sha256_digest(forward_slashes(e.path));
    let pid = b.objects[j].id;
    let objects = adopt_all(b.objects, pid, id);
    lemma_adopt_keeps_consistency(b.objects, pid, id);
    let o = entry_object(e, m, pid);
    let r = upserted(objects, o);
    assert(objects[j] == adopted(b.objects[j], id));
    assert(objects[j].children_ids[objects[j].children_ids.len() - 1] == id);
    if exists|i: int| first_with_id(objects, o.id, i) {
        let k = choose|i: int| first_with_id(objects, o.id, i);
        assert(k != j);
        assert(r[j] == objects[j]);
    } else {
        assert(r[j] == objects[j]);
    }
}

/// The walk's root entry, spelled as the root of the shared-file area, is
/// stored under the listing's root folder id.
pub proof fn lemma_root_entry_is_root_folder(e: WalkEntryView, m: EntryMetaView, parent_id: Seq<char>)
    requires
        e.path == fs_root(),
    ensures
        entry_object(e, m, parent_id).id == sha256_digest(fs_root()),
{
    reveal_strlit("resources/");
    reveal_strlit("ftp/");
    let p = fs_root();
    assert forall|i: int| 0 <= i < p.len() implies p[i] != '\\' by {
        if i < 10 {
            assert(p[i] == DIR_STATIC@[i]);
        } else {
            assert(p[i] == DIR_FTP@[i - 10]);
        }
    }
    assert(forward_slashes(p) =~= p);
}

/// The objects form a tree index: ids are unique, every object counts the
/// children it lists and lists none twice, every object that names a folder
/// is listed among that folder's children, and every listed child names the
/// folder that lists it.
pub open spec fn tree_linked(objects: Seq<FileObjectView>) -> bool {
    &&& ids_unique(objects)
    &&& counts_match(objects)
    &&& forall|j: int| 0 <= j < objects.len() ==> no_repeats(#[trigger] objects[j].children_ids)
    &&& forall|i: int|
        0 <= i < objects.len() && objects[i].parent_id != Seq::<char>::empty() ==> exists|j: int|
            0 <= j < objects.len() && objects[j].id == objects[i].parent_id
                && #[trigger] objects[j].children_ids.contains(objects[i].id)
    &&& forall|j: int, c: int|
        0 <= j < objects.len() && 0 <= c < objects[j].children_ids.len() ==> exists|i: int|
            0 <= i < objects.len() && objects[i].id == #[trigger] objects[j].children_ids[c]
                && objects[i].parent_id == objects[j].id
}

/// The listing built by adding `entries` in order to an empty listing.
#[verifier::opaque]
pub open spec fn walked(entries: Seq<(WalkEntryView, EntryMetaView)>) -> BuilderView
    decreases entries.len(),
{
    if entries.len() == 0 {
        BuilderView { objects: Seq::empty(), placed: Seq::empty() }
    } else {
        builder_after(walked(entries.drop_last()), entries.last().0, entries.last().1)
    }
}

/// The id an entry's folder gets in the listing built so far: that of the
/// folder it lies directly in, or empty when none was placed.
pub open spec fn folder_id(placed: Seq<PlacedView>, e: WalkEntryView) -> Seq<char> {
    match parent_link(placed, trimmed(forward_slashes(e.path))) {
        Some(pid) => pid,
        None => Seq::empty(),
    }
}

/// How an entry is placed: its trimmed path, whether it is a folder, and
/// its key.
pub open spec fn placement(e: WalkEntryView) -> PlacedView {
    PlacedView { path: trimmed(forward_slashes(e.path)), is_dir: e.kind == EntryKind::Dir, id: entry_id(e) }
}

/// What a walk of entries with distinct keys keeps: one object per entry, in
/// walk order, and the objects form a tree index.
pub open spec fn walk_inv(b: BuilderView, entries: Seq<(WalkEntryView, EntryMetaView)>) -> bool {
    &&& b.objects.len() == entries.len()
    &&& b.placed.len() == entries.len()
    &&& tree_linked(b.objects)
    &&& forall|i: int| 0 <= i < b.objects.len() ==> #[trigger] b.objects[i].id == entry_id(entries[i].0)
    &&& forall|i: int| 0 <= i < b.objects.len() ==> #[trigger] b.placed[i] == placement(entries[i].0)
    &&& forall|i: int| 0 <= i < b.objects.len() ==> #[trigger] b.objects[i].is_dir == (entries[i].0.kind
        == EntryKind::Dir)
    &&& forall|i: int| 0 <= i < b.objects.len() && !b.objects[i].is_dir ==> (#[trigger] b.objects[i].children_ids).len()
        == 0
    &&& forall|i: int| 0 <= i < b.objects.len() ==> #[trigger] b.objects[i].parent_id == Seq::<char>::empty()
        || exists|j: int| 0 <= j < b.objects.len() && b.objects[j].is_dir && b.objects[j].id == b.objects[i].parent_id
    &&& forall|i: int| 0 <= i < b.objects.len() ==> #[trigger] b.objects[i].children_count <= b.placed.len()
    &&& forall|i: int| 0 <= i < b.objects.len() ==> #[trigger] b.objects[i].parent_id == folder_id(
        walked(entries.take(i)).placed,
        entries[i].0,
    )
}

proof fn lemma_fresh_step(
    b: BuilderView,
    entries: Seq<(WalkEntryView, EntryMetaView)>,
    e: WalkEntryView,
    m: EntryMetaView,
)
    requires
        walk_inv(b, entries),
        b == walked(entries),
        entries.len() + 1 < usize::MAX,
        forall|i: int| 0 <= i < entries.len() ==> entry_id(#[trigger] entries[i].0) != entry_id(e),
    ensures
        walk_inv(builder_after(b, e, m), entries.push((e, m))),
{
    let objs = b.objects;
    let id = entry_id(e);
    let p = forward_slashes(e.path);
    let link = parent_link(b.placed, trimmed(p));
    let a = match link {
        Some(pid) => adopt_all(objs, pid, id),
        None => objs,
    };
    let o = entry_object(e, m, folder_id(b.placed, e));
    let after = builder_after(b, e, m);
    let es = entries.push((e, m));
    assert(counts_below_max(objs)) by {
        assert forall|i: int| 0 <= i < objs.len() implies objs[i].children_count < usize::MAX by {
            assert(objs[i].children_count <= b.placed.len());
        }
    }
    if let Some(pid) = link {
        lemma_adopt_keeps_consistency(objs, pid, id);
    }
    assert(a.len() == objs.len());
    assert forall|i: int| 0 <= i < a.len() implies #[trigger] a[i].id == objs[i].id && a[i].parent_id
        == objs[i].parent_id by {}
    // the new key is fresh
    assert forall|i: int| 0 <= i < a.len() implies a[i].id != id by {
        assert(objs[i].id == entry_id(entries[i].0));
    }
    assert(!exists|i: int| first_with_id(a, o.id, i));
    assert(after.objects == a.push(o));
    let n = after.objects;
    // every old child id names an old object, so the new key is in no child list
    assert forall|j: int| 0 <= j < objs.len() implies !(#[trigger] objs[j].children_ids).contains(id) by {
        if objs[j].children_ids.contains(id) {
            let c = choose|c: int| 0 <= c < objs[j].children_ids.len() && objs[j].children_ids[c] == id;
            let i = choose|i: int|
                0 <= i < objs.len() && objs[i].id == objs[j].children_ids[c] && objs[i].parent_id == objs[j].id;
            assert(objs[i].id == entry_id(entries[i].0));
        }
    }
    // how each old object's child list changed
    assert forall|j: int| 0 <= j < objs.len() implies (#[trigger] n[j]).children_ids == objs[j].children_ids
        || (link == Some(objs[j].id) && n[j].children_ids == objs[j].children_ids.push(id)) by {
        assert(n[j] == a[j]);
    }
    assert(ids_unique(n)) by {
        assert forall|x: int, y: int| 0 <= x < y < n.len() implies n[x].id != n[y].id by {
            if y < objs.len() {
                assert(objs[x].id != objs[y].id);
            } else {
                assert(n[x] == a[x]);
            }
        }
    }
    assert(counts_match(n)) by {
        assert forall|i: int| 0 <= i < n.len() implies n[i].children_count == n[i].children_ids.len() by {
            if i < objs.len() {
                assert(n[i] == a[i]);
            }
        }
    }
    assert forall|j: int| 0 <= j < n.len() implies no_repeats(#[trigger] n[j].children_ids) by {
        if j < objs.len() {
            assert(no_repeats(objs[j].children_ids));
            if n[j].children_ids != objs[j].children_ids {
                let ch = objs[j].children_ids;
                assert(!ch.contains(id));
                assert forall|x: int, y: int| 0 <= x < y < ch.push(id).len() implies ch.push(id)[x]
                    != ch.push(id)[y] by {
                    if y == ch.len() {
                        assert(ch[x] != id);
                    }
                }
            }
        } else {
            assert(n[j] == o);
        }
    }
    // folder side: whoever names a folder is among its children
    assert forall|i: int|
        0 <= i < n.len() && n[i].parent_id != Seq::<char>::empty() implies exists|j: int|
        0 <= j < n.len() && n[j].id == n[i].parent_id && #[trigger] n[j].children_ids.contains(n[i].id) by {
        if i < objs.len() {
            assert(n[i] == a[i]);
            let j = choose|j: int|
                0 <= j < objs.len() && objs[j].id == objs[i].parent_id && objs[j].children_ids.contains(
                    objs[i].id,
                );
            let k = choose|k: int| 0 <= k < objs[j].children_ids.len() && objs[j].children_ids[k] == objs[i].id;
            assert(n[j].children_ids[k] == objs[i].id);
            assert(n[j].children_ids.contains(n[i].id));
        } else {
            assert(n[i] == o);
            let pid = link.unwrap();
            let k = choose|k: int| first_candidate(b.placed, trimmed(p), k);
            assert(b.placed[k] == placement(entries[k].0));
            assert(objs[k].id == pid);
            assert(n[k].children_ids == objs[k].children_ids.push(id));
            assert(n[k].children_ids[objs[k].children_ids.len() as int] == id);
            assert(n[k].children_ids.contains(n[i].id));
        }
    }
    // child side: every listed child names its folder
    assert forall|j: int, c: int|
        0 <= j < n.len() && 0 <= c < n[j].children_ids.len() implies exists|i: int|
        0 <= i < n.len() && n[i].id == #[trigger] n[j].children_ids[c] && n[i].parent_id == n[j].id by {
        if j < objs.len() {
            if c < objs[j].children_ids.len() {
                assert(n[j].children_ids[c] == objs[j].children_ids[c]);
                let i = choose|i: int|
                    0 <= i < objs.len() && objs[i].id == objs[j].children_ids[c] && objs[i].parent_id == objs[j].id;
                assert(n[i] == a[i]);
            } else {
                assert(n[j].children_ids[c] == id);
                assert(n[objs.len() as int] == o);
            }
        } else {
            assert(n[j] == o);
        }
    }
    assert(tree_linked(n));
    // keys, placements, counts and folders
    assert forall|i: int| 0 <= i < n.len() implies #[trigger] n[i].id == entry_id(es[i].0) by {
        if i < objs.len() {
            assert(es[i] == entries[i]);
        }
    }
    assert forall|i: int| 0 <= i < n.len() implies #[trigger] after.placed[i] == placement(es[i].0) by {
        if i < objs.len() {
            assert(es[i] == entries[i]);
        }
    }
    assert forall|i: int| 0 <= i < n.len() implies #[trigger] n[i].is_dir == (es[i].0.kind == EntryKind::Dir) by {
        if i < objs.len() {
            assert(es[i] == entries[i]);
            assert(n[i] == a[i]);
        }
    }
    // only the entry's folder took a child, and it is a folder
    assert forall|i: int| 0 <= i < n.len() && !n[i].is_dir implies (#[trigger] n[i].children_ids).len() == 0 by {
        if i < objs.len() {
            assert(n[i] == a[i]);
            if link == Some(objs[i].id) {
                let k = choose|k: int| first_candidate(b.placed, trimmed(p), k);
                assert(b.placed[k] == placement(entries[k].0));
                assert(objs[k].id == objs[i].id);
                assert(objs[k].is_dir);
            }
        } else {
            assert(n[i] == o);
        }
    }
    assert forall|i: int| 0 <= i < n.len() implies #[trigger] n[i].parent_id == Seq::<char>::empty()
        || exists|j: int| 0 <= j < n.len() && n[j].is_dir && n[j].id == n[i].parent_id by {
        if i < objs.len() {
            assert(n[i] == a[i]);
            if objs[i].parent_id != Seq::<char>::empty() {
                let j = choose|j: int| 0 <= j < objs.len() && objs[j].is_dir && objs[j].id == objs[i].parent_id;
                assert(n[j] == a[j]);
            }
        } else {
            assert(n[i] == o);
            if let Some(pid) = link {
                let k = choose|k: int| first_candidate(b.placed, trimmed(p), k);
                assert(b.placed[k] == placement(entries[k].0));
                assert(n[k] == a[k]);
                assert(n[k].is_dir && n[k].id == pid);
            }
        }
    }
    assert forall|i: int| 0 <= i < n.len() implies #[trigger] n[i].children_count <= after.placed.len() by {
        if i < objs.len() {
            assert(objs[i].children_count <= b.placed.len());
        }
    }
    assert forall|i: int| 0 <= i < n.len() implies #[trigger] n[i].parent_id == folder_id(
        walked(es.take(i)).placed,
        es[i].0,
    ) by {
        if i < objs.len() {
            assert(es.take(i) =~= entries.take(i));
            assert(es[i] == entries[i]);
        } else {
            assert(es.take(i) =~= entries);
        }
    }
}

/// A walk whose entries have distinct keys (digests of their paths) builds a
/// tree index: one object per entry, keyed by its digest, in walk order,
/// placed with its trimmed path and kind; each object names as its folder
/// the first folder placed before it that it lies directly in (or none), and
/// what it names is a folder object; files take no children; every object
/// that names a folder is listed, once, among that folder's children, and
/// every listed child names the folder that lists it.
pub proof fn lemma_walk_builds_tree(entries: Seq<(WalkEntryView, EntryMetaView)>)
    requires
        entries.len() < usize::MAX,
        forall|i: int, j: int| 0 <= i < j < entries.len() ==> entry_id(entries[i].0) != entry_id(entries[j].0),
    ensures
        walk_inv(walked(entries), entries),
    decreases entries.len(),
{
    reveal(walked);
    if entries.len() == 0 {
        assert(walked(entries).objects =~= Seq::<FileObjectView>::empty());
    } else {
        let prev = entries.drop_last();
        lemma_walk_builds_tree(prev);
        let (e, m) = entries.last();
        assert forall|i: int| 0 <= i < prev.len() implies entry_id(#[trigger] prev[i].0) != entry_id(e) by {
            assert(prev[i] == entries[i]);
        }
        lemma_fresh_step(walked(prev), prev, e, m);
        assert(prev.push((e, m)) =~= entries);
    }
}

proof fn lemma_first_candidate_exists(placed: Seq<PlacedView>, path: Seq<char>, j: int)
    requires
        0 <= j < placed.len(),
        parent_candidate(placed[j], path),
    ensures
        exists|k: int| first_candidate(placed, path, k),
    decreases j,
{
    if forall|i: int| 0 <= i < j ==> !parent_candidate(placed[i], path) {
        assert(first_candidate(placed, path, j));
    } else {
        let i = choose|i: int| 0 <= i < j && parent_candidate(placed[i], path);
        lemma_first_candidate_exists(placed, path, i);
    }
}

/// Every entry after the first lies directly in a folder entry walked
/// before it, as a walk from the root yields them.
pub open spec fn folders_first(entries: Seq<(WalkEntryView, EntryMetaView)>) -> bool {
    forall|i: int|
        0 < i < entries.len() ==> exists|j: int|
            0 <= j < i && entries[j].0.kind == EntryKind::Dir && parent_of(
                trimmed(forward_slashes((#[trigger] entries[i]).0.path)),
                trimmed(forward_slashes(entries[j].0.path)),
            )
}

/// The object at `i` names as its folder a folder object built before it.
pub open spec fn names_earlier_folder(objs: Seq<FileObjectView>, i: int) -> bool {
    exists|j: int| 0 <= j < i && objs[j].is_dir && objs[i].parent_id == objs[j].id
}

proof fn lemma_walk_placed(entries: Seq<(WalkEntryView, EntryMetaView)>)
    requires
        entries.len() < usize::MAX,
        forall|i: int, j: int| 0 <= i < j < entries.len() ==> entry_id(entries[i].0) != entry_id(entries[j].0),
    ensures
        walked(entries).placed.len() == entries.len(),
        forall|k: int| 0 <= k < entries.len() ==> #[trigger] walked(entries).placed[k] == placement(entries[k].0),
{
    lemma_walk_builds_tree(entries);
}

#[verifier::rlimit(100)]
#[verifier::spinoff_prover]
proof fn lemma_walk_root_step(
    entries: Seq<(WalkEntryView, EntryMetaView)>,
    objs: Seq<FileObjectView>,
    i: int,
)
    requires
        entries.len() < usize::MAX,
        forall|x: int, y: int| 0 <= x < y < entries.len() ==> entry_id(entries[x].0) != entry_id(entries[y].0),
        folders_first(entries),
        0 < i < entries.len(),
        objs.len() == entries.len(),
        forall|k: int| 0 <= k < entries.len() ==> #[trigger] objs[k].id == entry_id(entries[k].0),
        forall|k: int| 0 <= k < entries.len() ==> #[trigger] objs[k].is_dir == (entries[k].0.kind == EntryKind::Dir),
        objs[i].parent_id == folder_id(walked(entries.take(i)).placed, entries[i].0),
    ensures
        names_earlier_folder(objs, i),
{
    let pre = entries.take(i);
    assert forall|x: int, y: int| 0 <= x < y < pre.len() implies entry_id(pre[x].0) != entry_id(pre[y].0) by {
        assert(pre[x] == entries[x] && pre[y] == entries[y]);
    }
    lemma_walk_placed(pre);
    let placed = walked(pre).placed;
    let key = trimmed(forward_slashes(entries[i].0.path));
    assert(0 < i < entries.len());
    let j = choose|j: int|
        0 <= j < i && entries[j].0.kind == EntryKind::Dir && parent_of(
            key,
            trimmed(forward_slashes(entries[j].0.path)),
        );
    assert(pre[j] == entries[j]);
    assert(placed[j] == placement(pre[j].0));
    assert(parent_candidate(placed[j], key));
    lemma_first_candidate_exists(placed, key, j);
    let k = choose|k: int| first_candidate(placed, key, k);
    lemma_parent_link_first(placed, key, k);
    assert(pre[k] == entries[k]);
    assert(placed[k] == placement(pre[k].0));
    assert(objs[k].id == entry_id(entries[k].0));
    assert(objs[k].is_dir);
}

proof fn lemma_walk_facts(entries: Seq<(WalkEntryView, EntryMetaView)>)
    requires
        entries.len() < usize::MAX,
        forall|i: int, j: int| 0 <= i < j < entries.len() ==> entry_id(entries[i].0) != entry_id(entries[j].0),
    ensures
        walked(entries).objects.len() == entries.len(),
        forall|k: int| 0 <= k < entries.len() ==> #[trigger] walked(entries).objects[k].id == entry_id(entries[k].0),
        forall|k: int| 0 <= k < entries.len() ==> #[trigger] walked(entries).objects[k].is_dir == (entries[k].0.kind
            == EntryKind::Dir),
        forall|k: int| 0 <= k < entries.len() ==> #[trigger] walked(entries).objects[k].parent_id == folder_id(
            walked(entries.take(k)).placed,
            entries[k].0,
        ),
{
    lemma_walk_builds_tree(entries);
}

#[verifier::spinoff_prover]
proof fn lemma_walk_names_folder(entries: Seq<(WalkEntryView, EntryMetaView)>, i: int)
    requires
        entries.len() < usize::MAX,
        forall|x: int, y: int| 0 <= x < y < entries.len() ==> entry_id(entries[x].0) != entry_id(entries[y].0),
        folders_first(entries),
        0 < i < entries.len(),
    ensures
        names_earlier_folder(walked(entries).objects, i),
{
    lemma_walk_facts(entries);
    lemma_walk_root_step(entries, walked(entries).objects, i);
}

#[verifier::spinoff_prover]
proof fn lemma_walk_root_unlinked(entries: Seq<(WalkEntryView, EntryMetaView)>)
    requires
        entries.len() < usize::MAX,
        forall|x: int, y: int| 0 <= x < y < entries.len() ==> entry_id(entries[x].0) != entry_id(entries[y].0),
        entries.len() > 0,
    ensures
        walked(entries).objects[0].parent_id == Seq::<char>::empty(),
{
    lemma_walk_facts(entries);
    assert(entries.take(0) =~= Seq::<(WalkEntryView, EntryMetaView)>::empty());
    assert(walked(entries.take(0)).placed.len() == 0) by {
        reveal(walked);
    }
}

/// In a walk from the root with distinct keys, where every entry after the
/// first comes after the folder it lies directly in, the root names no
/// folder and every other object names a folder object built before it.
/// (That files never take children, and the rest of the tree index, is
/// [`lemma_walk_builds_tree`].)
pub proof fn lemma_walk_roots(entries: Seq<(WalkEntryView, EntryMetaView)>)
    requires
        entries.len() < usize::MAX,
        forall|i: int, j: int| 0 <= i < j < entries.len() ==> entry_id(entries[i].0) != entry_id(entries[j].0),
        folders_first(entries),
    ensures
        entries.len() > 0 ==> walked(entries).objects[0].parent_id == Seq::<char>::empty(),
        forall|i: int| 0 < i < entries.len() ==> #[trigger] names_earlier_folder(walked(entries).objects, i),
{
    if entries.len() > 0 {
        lemma_walk_root_unlinked(entries);
    }
    assert forall|i: int| 0 < i < entries.len() implies #[trigger] names_earlier_folder(walked(entries).objects, i) by {
        lemma_walk_names_folder(entries, i);
    }
}

} // verus!
