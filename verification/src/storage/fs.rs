use vstd::prelude::*;
use vstd::string::*;

use crate::keymap::{position_of, string_views, KeyMap};
use super::in_mem::{after_delete, after_put, stored_value};
use super::raw_data::{RawData, StorageError};

verus! {

// ---------------------------------------------------------------------------
// The JSON file format: one JSON object per namespace, from keys to byte arrays.
// ---------------------------------------------------------------------------

/// What `serde_json` parses from a JSON text as a map from strings to byte
/// arrays: its entries in increasing key order, or `None` when the text is not
/// such a map.
pub uninterp spec fn json_byte_map(text: Seq<char>) -> Option<Seq<(Seq<char>, Seq<u8>)>>;

/// The JSON text that `serde_json` writes for a map from strings to byte arrays,
/// given its entries.
pub uninterp spec fn json_text_of_byte_map(entries: Seq<(Seq<char>, Seq<u8>)>) -> Seq<char>;

/// The characters of each key and the bytes of each value of a list of entries.
pub open spec fn entry_views(es: Seq<(String, Vec<u8>)>) -> Seq<(Seq<char>, Seq<u8>)> {
    es.map_values(|e: (String, Vec<u8>)| (e.0@, e.1@))
}

/// `serde_json::from_str::<BTreeMap<String, Vec<u8>>>`, its entries listed in
/// the map's (increasing) key order.
///
/// Claimed: the result is `Ok` exactly when `json_byte_map` of the text is
/// `Some`, and then the entries are those it names. What the error message says
/// is left unsaid.
#[verifier::external_body]
fn parse_json_byte_map(text: &str) -> (r: Result<Vec<(String, Vec<u8>)>, String>)
    ensures
        match r {
            Ok(es) => json_byte_map(text@) == Some(entry_views(es@)),
            Err(_) => json_byte_map(text@) is None,
        },
{
    match serde_json::from_str::<std::collections::BTreeMap<String, Vec<u8>>>(text) {
        Ok(map) => Ok(map.into_iter().collect()),
        Err(e) => Err(e.to_string()),
    }
}

/// `serde_json::to_string` on the `BTreeMap<String, Vec<u8>>` holding the given
/// entries.
///
/// Claimed: the text is `json_text_of_byte_map` of the entries, and it is not
/// empty (a JSON object starts with `{`). Read back by `from_str` it gives the
/// same map: `to_string` writes each key as an escaped JSON string and each
/// value as an array of its bytes as numbers, which `from_str` reads back as
/// the same key and bytes. `serde_json` documents that serialising fails only
/// for a failing `Serialize` impl or a map with keys that are not strings,
/// neither of which can occur here; the keys are distinct, so the map holds
/// every entry.
#[verifier::external_body]
fn write_json_byte_map(keys: Vec<String>, values: Vec<Vec<u8>>) -> (r: String)
    requires
        keys@.len() == values@.len(),
        string_views(keys@).no_duplicates(),
    ensures
        r@ == json_text_of_byte_map(
            string_views(keys@).zip_with(values@.map_values(|v: Vec<u8>| v@)),
        ),
        r@.len() > 0,
        json_byte_map(r@) is Some,
        map_of_entries(json_byte_map(r@)->0) == map_of_entries(
            string_views(keys@).zip_with(values@.map_values(|v: Vec<u8>| v@)),
        ),
{
    let map: std::collections::BTreeMap<String, Vec<u8>> = keys.into_iter().zip(values).collect();
    serde_json::to_string(&map).unwrap_or_default()
}

/// The entries that a namespace file holds, given its text (`None` when there is
/// no file): none for a missing or empty file, else those of its JSON object.
pub open spec fn file_entries(contents: Option<Seq<char>>) -> Map<Seq<char>, Seq<u8>> {
    match contents {
        None => Map::empty(),
        Some(text) => if text.len() == 0 {
            Map::empty()
        } else {
            map_of_entries(json_byte_map(text)->0)
        },
    }
}

/// The map built by putting the entries one after the other.
pub open spec fn map_of_entries(es: Seq<(Seq<char>, Seq<u8>)>) -> Map<Seq<char>, Seq<u8>>
    decreases es.len(),
{
    if es.len() == 0 {
        Map::empty()
    } else {
        map_of_entries(es.drop_last()).insert(es.last().0, es.last().1)
    }
}

// ---------------------------------------------------------------------------
// Paths (Unix rules, as `std::path` applies them).
// ---------------------------------------------------------------------------

/// `base` joined with `rel` as `Path::join` does on Unix: an absolute `rel`
/// replaces `base`; otherwise a `/` separates them unless `base` is empty or
/// ends with one.
pub open spec fn path_join(base: Seq<char>, rel: Seq<char>) -> Seq<char> {
    if rel.len() > 0 && rel[0] == '/' {
        rel
    } else if base.len() == 0 || base.last() == '/' {
        base + rel
    } else {
        base + seq!['/'] + rel
    }
}

/// Whether `name` holds a dot at position `i` and none after it.
pub open spec fn is_last_dot(name: Seq<char>, i: int) -> bool {
    &&& 0 <= i < name.len()
    &&& name[i] == '.'
    &&& forall|j: int| i < j < name.len() ==> name[j] != '.'
}

/// The extension of a file name as `Path::extension` gives it: what follows the
/// last dot, when something other than nothing precedes that dot and the name
/// is not `..`.
pub open spec fn file_extension(name: Seq<char>) -> Option<Seq<char>> {
    if name == seq!['.', '.'] {
        None
    } else if exists|i: int| 0 < i && is_last_dot(name, i) {
        let i = choose|i: int| 0 < i && is_last_dot(name, i);
        Some(name.subrange(i + 1, name.len() as int))
    } else {
        None
    }
}

/// The stem of a file name as `Path::file_stem` gives it: what precedes the last
/// dot when there is an extension, the whole name otherwise.
pub open spec fn file_stem(name: Seq<char>) -> Seq<char> {
    if name != seq!['.', '.'] && exists|i: int| 0 < i && is_last_dot(name, i) {
        let i = choose|i: int| 0 < i && is_last_dot(name, i);
        name.subrange(0, i)
    } else {
        name
    }
}

/// The namespaces that a directory listing shows: the stems of the files whose
/// extension is `json`, in the order of the listing.
pub open spec fn namespaces_in_listing(entries: Seq<(Seq<char>, bool)>) -> Seq<Seq<char>>
    decreases entries.len(),
{
    if entries.len() == 0 {
        Seq::empty()
    } else {
        let rest = namespaces_in_listing(entries.drop_last());
        let (name, is_file) = entries.last();
        if is_file && file_extension(name) == Some(seq!['j', 's', 'o', 'n']) {
            rest.push(file_stem(name))
        } else {
            rest
        }
    }
}

/// The name of the file that holds a namespace: the namespace followed by `.json`.
pub open spec fn namespace_file_name(namespace: Seq<char>) -> Seq<char> {
    namespace + seq!['.', 'j', 's', 'o', 'n']
}

/// `base` joined with `rel` (see `path_join`).
pub fn join_path(base: &str, rel: &str) -> (r: String)
    ensures
        r@ == path_join(base@, rel@),
{
    let rel_len = rel.unicode_len();
    let base_len = base.unicode_len();
    if rel_len > 0 && rel.get_char(0) == '/' {
        String::from_str(rel)
    } else if base_len == 0 || base.get_char(base_len - 1) == '/' {
        let mut r = String::from_str(base);
        r.append(rel);
        r
    } else {
        let mut r = String::from_str(base);
        r.append("/");
        r.append(rel);
        proof {
            reveal_strlit("/");
        }
        r
    }
}

/// The position of the last dot of `name` that has something before it, if any.
fn last_inner_dot(name: &str) -> (r: Option<usize>)
    ensures
        match r {
            Some(i) => 0 < i && is_last_dot(name@, i as int),
            None => !exists|i: int| 0 < i && is_last_dot(name@, i),
        },
{
    let n = name.unicode_len();
    let mut i: usize = n;
    while i > 0
        invariant
            n == name@.len(),
            i <= n,
            forall|j: int| i <= j < n ==> name@[j] != '.',
        decreases i,
    {
        if name.get_char(i - 1) == '.' {
            if i - 1 == 0 {
                return None;
            }
            return Some(i - 1);
        }
        i = i - 1;
    }
    None
}

/// The extension and the stem of a file name (see `file_extension`, `file_stem`).
pub fn split_file_name(name: &str) -> (r: (Option<String>, String))
    ensures
        match r.0 {
            Some(e) => file_extension(name@) == Some(e@),
            None => file_extension(name@) is None,
        },
        r.1@ == file_stem(name@),
{
    let n = name.unicode_len();
    let is_dot_dot = n == 2 && name.get_char(0) == '.' && name.get_char(1) == '.';
    if is_dot_dot {
        assert(name@ =~= seq!['.', '.']);
        return (None, String::from_str(name));
    }
    assert(name@ != seq!['.', '.']);
    match last_inner_dot(name) {
        Some(i) => {
            proof {
                let k = choose|k: int| 0 < k && is_last_dot(name@, k);
                if k < i {
                    assert(name@[i as int] == '.');
                } else if k > i {
                    assert(name@[k] == '.');
                }
            }
            let ext = name.substring_char(i + 1, n);
            let stem = name.substring_char(0, i);
            (Some(String::from_str(ext)), String::from_str(stem))
        },
        None => (None, String::from_str(name)),
    }
}

/// The namespaces that a directory listing shows (see `namespaces_in_listing`):
/// each entry is a file name and whether it names a regular file.
pub fn namespaces_from_listing(entries: &Vec<(String, bool)>) -> (r: Vec<String>)
    ensures
        string_views(r@) == namespaces_in_listing(
            entries@.map_values(|e: (String, bool)| (e.0@, e.1)),
        ),
{
    let ghost views = entries@.map_values(|e: (String, bool)| (e.0@, e.1));
    let mut r: Vec<String> = Vec::new();
    let mut i: usize = 0;
    while i < entries.len()
        invariant
            i <= entries@.len(),
            views == entries@.map_values(|e: (String, bool)| (e.0@, e.1)),
            string_views(r@) == namespaces_in_listing(views.subrange(0, i as int)),
        decreases entries@.len() - i,
    {
        let (ext, stem) = split_file_name(entries[i].0.as_str());
        let is_json = match ext {
            Some(e) => e == String::from_str("json"),
            None => false,
        };
        let ghost before = r@;
        proof {
            reveal_strlit("json");
            assert("json"@ =~= seq!['j', 's', 'o', 'n']);
            assert(views.subrange(0, i + 1).drop_last() =~= views.subrange(0, i as int));
            assert(views.subrange(0, i + 1).last() == views[i as int]);
            assert(views[i as int] == (entries@[i as int].0@, entries@[i as int].1));
            assert(is_json == (file_extension(entries@[i as int].0@) == Some(
                seq!['j', 's', 'o', 'n'],
            )));
        }
        if entries[i].1 && is_json {
            r.push(stem);
            proof {
                assert(string_views(r@) =~= string_views(before).push(r@.last()@));
            }
        }
        i = i + 1;
    }
    proof {
        assert(views.subrange(0, i as int) =~= views);
    }
    r
}

// ---------------------------------------------------------------------------
// Namespaces and storage.
// ---------------------------------------------------------------------------

/// A namespace backed by a JSON file: an in-memory copy of the file's entries
/// and whether that copy has changes that the file does not have yet.
///
/// Writing the file is the caller's part: `contents_to_save` gives the text to
/// write, and `mark_saved` records that it was written.
pub struct FsNamespace {
    file_path: String,
    data: KeyMap<Vec<u8>>,
    modified: bool,
}

/// A storage whose namespaces are JSON files in one directory: the directory
/// and the namespaces opened so far.
///
/// The file system is the caller's part; this type decides paths, which
/// namespaces a listing shows, and which namespaces are open.
pub struct FsStorage {
    root_dir: String,
    namespaces: KeyMap<FsNamespace>,
}

impl FsNamespace {
    /// Well-formedness of the in-memory copy.
    pub closed spec fn wf(&self) -> bool {
        self.data.wf()
    }

    /// The entries: each key with its bytes.
    pub closed spec fn view(&self) -> Map<Seq<char>, Seq<u8>> {
        self.data@.map_values(|v: Vec<u8>| v@)
    }

    /// The keys, in the order in which they were first put or read.
    pub closed spec fn key_order(&self) -> Seq<Seq<char>> {
        self.data.key_order()
    }

    /// The path of the backing file.
    pub closed spec fn file_path(&self) -> Seq<char> {
        self.file_path@
    }

    /// Whether the in-memory copy has changes that are not written yet.
    pub closed spec fn modified(&self) -> bool {
        self.modified
    }

    /// The key order holds each key of the entries once.
    pub proof fn lemma_key_order(&self)
        requires
            self.wf(),
        ensures
            self.key_order().no_duplicates(),
            self.key_order().to_set() == self@.dom(),
    {
        self.data.lemma_wf();
        assert(self@.dom() =~= self.data@.dom());
    }

    /// The namespace backed by the file at `file_path`, given what the file
    /// holds (`None` when there is no such file): no entries for a missing or
    /// empty file, else the entries of its JSON object of byte arrays; `Json`
    /// when the text is not such an object. It starts unmodified.
    pub fn new(file_path: String, contents: Option<String>) -> (r: Result<Self, StorageError>)
        ensures
            match r {
                Ok(ns) => {
                    &&& ns.wf()
                    &&& ns.file_path() == file_path@
                    &&& !ns.modified()
                    &&& ns@ == file_entries(
                        match contents {
                            None => None,
                            Some(text) => Some(text@),
                        },
                    )
                },
                Err(e) => {
                    &&& e is Json
                    &&& contents is Some
                    &&& contents->0@.len() != 0
                    &&& json_byte_map(contents->0@) is None
                },
            },
    {
        let mut data: KeyMap<Vec<u8>> = KeyMap::new();
        match contents {
            None => {},
            Some(text) => {
                if !text.as_str().is_empty() {
                    match parse_json_byte_map(text.as_str()) {
                        Ok(entries) => {
                            let ghost es = entry_views(entries@);
                            let mut i: usize = 0;
                            while i < entries.len()
                                invariant
                                    i <= entries@.len(),
                                    es == entry_views(entries@),
                                    data.wf(),
                                    data@.map_values(|v: Vec<u8>| v@) == map_of_entries(
                                        es.subrange(0, i as int),
                                    ),
                                decreases entries@.len() - i,
                            {
                                let key = entries[i].0.clone();
                                let value = entries[i].1.clone();
                                let ghost pre = data@;
                                data.insert(key, value);
                                proof {
                                    assert(value@ =~= entries@[i as int].1@);
                                    assert(es.subrange(0, i + 1).drop_last() =~= es.subrange(
                                        0,
                                        i as int,
                                    ));
                                    assert(data@.map_values(|v: Vec<u8>| v@) =~= pre.map_values(
                                        |v: Vec<u8>| v@,
                                    ).insert(key@, value@));
                                }
                                i = i + 1;
                            }
                            proof {
                                assert(es.subrange(0, i as int) =~= es);
                            }
                        },
                        Err(msg) => {
                            return Err(StorageError::Json(msg));
                        },
                    }
                }
            },
        }
        Ok(FsNamespace { file_path, data, modified: false })
    }

    /// Whether a value is stored under `key`.
    pub fn exist(&self, key: &str) -> (r: bool)
        requires
            self.wf(),
        ensures
            r == self@.contains_key(key@),
    {
        self.data.contains_key(key)
    }

    /// A copy of the value stored under `key`, if any. Never fails.
    pub fn get(&self, key: &str) -> (r: Result<Option<RawData>, StorageError>)
        requires
            self.wf(),
        ensures
            match r {
                Ok(Some(d)) => stored_value(self@, key@) == Some(d@),
                Ok(None) => stored_value(self@, key@) is None,
                Err(_) => false,
            },
    {
        match self.data.get(key) {
            Some(bytes) => {
                let copy = bytes.clone();
                assert(copy@ =~= bytes@);
                Ok(Some(RawData::from_bytes(copy)))
            },
            None => Ok(None),
        }
    }

    /// Stores `value` under `key` in the in-memory copy and marks it modified.
    pub fn put(&mut self, key: &str, value: RawData)
        requires
            old(self).wf(),
        ensures
            final(self).wf(),
            final(self)@ == after_put(old(self)@, key@, value@),
            final(self).key_order() == if old(self)@.contains_key(key@) {
                old(self).key_order()
            } else {
                old(self).key_order().push(key@)
            },
            final(self).modified(),
            final(self).file_path() == old(self).file_path(),
    {
        let bytes = value.to_bytes();
        let ghost b = bytes@;
        self.data.insert(key.to_owned(), bytes);
        self.modified = true;
        assert(self@ =~= old(self)@.insert(key@, b));
    }

    /// Removes the value stored under `key` from the in-memory copy; marks the
    /// copy modified when there was such a value.
    pub fn delete(&mut self, key: &str)
        requires
            old(self).wf(),
        ensures
            final(self).wf(),
            final(self)@ == after_delete(old(self)@, key@),
            final(self).key_order() == if old(self)@.contains_key(key@) {
                old(self).key_order().remove(position_of(old(self).key_order(), key@))
            } else {
                old(self).key_order()
            },
            final(self).modified() == (old(self).modified() || old(self)@.contains_key(key@)),
            final(self).file_path() == old(self).file_path(),
    {
        if self.data.remove(key).is_some() {
            self.modified = true;
        }
        assert(self@ =~= old(self)@.remove(key@));
    }

    /// The keys, in the order in which they were first put or read. Never fails.
    pub fn keys(&self) -> (r: Result<Vec<String>, StorageError>)
        requires
            self.wf(),
        ensures
            match r {
                Ok(ks) => string_views(ks@) == self.key_order(),
                Err(_) => false,
            },
    {
        Ok(self.data.keys())
    }

    /// The path of the backing file.
    pub fn path(&self) -> (r: &str)
        ensures
            r@ == self.file_path(),
    {
        self.file_path.as_str()
    }

    /// When there are unwritten changes, the JSON text to write to the backing
    /// file: the entries as a JSON object of byte arrays.
    pub fn contents_to_save(&self) -> (r: Option<String>)
        requires
            self.wf(),
        ensures
            match r {
                Some(text) => {
                    &&& self.modified()
                    &&& exists|es: Seq<(Seq<char>, Seq<u8>)>|
                        #![auto]
                        text@ == json_text_of_byte_map(es) && map_of_entries(es) == self@
                            && es.map_values(|e: (Seq<char>, Seq<u8>)| e.0) == self.key_order()
                    &&& saved_text(self@, text@)
                },
                None => !self.modified(),
            },
    {
        if !self.modified {
            return None;
        }
        let keys = self.data.keys();
        let mut values: Vec<Vec<u8>> = Vec::new();
        let mut i: usize = 0;
        proof {
            self.data.lemma_wf();
        }
        while i < keys.len()
            invariant
                self.wf(),
                string_views(keys@) == self.key_order(),
                i <= keys@.len(),
                values@.len() == i,
                forall|j: int| 0 <= j < i ==> values@[j]@ == #[trigger] self@[keys@[j]@],
            decreases keys@.len() - i,
        {
            proof {
                assert(self.key_order()[i as int] == keys@[i as int]@);
                self.data.lemma_wf();
                assert(self.key_order().to_set().contains(keys@[i as int]@));
            }
            let v = self.data.get(keys[i].as_str());
            let bytes = match v {
                Some(b) => b.clone(),
                None => Vec::new(),
            };
            proof {
                assert(bytes@ =~= self@[keys@[i as int]@]);
            }
            values.push(bytes);
            i = i + 1;
        }
        let ghost es = string_views(keys@).zip_with(values@.map_values(|v: Vec<u8>| v@));
        let text = write_json_byte_map(keys, values);
        proof {
            self.lemma_key_order();
            assert forall|j: int| 0 <= j < es.len() implies #[trigger] es[j] == (
                self.key_order()[j],
                self@[self.key_order()[j]],
            ) by {
                assert(self.key_order()[j] == keys@[j]@);
            }
            lemma_entries_of_keys(self@, self.key_order(), es);
        }
        Some(text)
    }

    /// Records that the in-memory copy was written to the backing file.
    pub fn mark_saved(&mut self)
        ensures
            !final(self).modified(),
            final(self)@ == old(self)@,
            final(self).wf() == old(self).wf(),
            final(self).key_order() == old(self).key_order(),
            final(self).file_path() == old(self).file_path(),
    {
        self.modified = false;
    }
}

/// Entries listed in the order of distinct keys, each with its value, build the map.
proof fn lemma_entries_of_keys(
    m: Map<Seq<char>, Seq<u8>>,
    ks: Seq<Seq<char>>,
    es: Seq<(Seq<char>, Seq<u8>)>,
)
    requires
        ks.no_duplicates(),
        ks.to_set() == m.dom(),
        es.len() == ks.len(),
        forall|j: int| 0 <= j < es.len() ==> #[trigger] es[j] == (ks[j], m[ks[j]]),
    ensures
        map_of_entries(es) == m,
        es.map_values(|e: (Seq<char>, Seq<u8>)| e.0) == ks,
    decreases es.len(),
{
    assert(es.map_values(|e: (Seq<char>, Seq<u8>)| e.0) =~= ks);
    if es.len() == 0 {
        assert(m.dom() =~= Set::empty());
        assert(m =~= Map::empty());
    } else {
        let n = es.len() - 1;
        let k = ks[n];
        let ks2 = ks.drop_last();
        let m2 = m.remove(k);
        assert(ks.contains(k));
        assert(ks.to_set().contains(k));
        assert forall|a: int, b: int| 0 <= a < b < ks2.len() implies ks2[a] != ks2[b] by {
            assert(ks[a] != ks[b]);
        }
        assert(ks2.to_set() =~= m2.dom()) by {
            assert forall|x: Seq<char>| ks2.to_set().contains(x) implies m2.dom().contains(x) by {
                let j = choose|j: int| 0 <= j < ks2.len() && ks2[j] == x;
                assert(ks[j] == x);
                assert(ks.to_set().contains(x));
                assert(j != n);
            }
            assert forall|x: Seq<char>| m2.dom().contains(x) implies ks2.to_set().contains(x) by {
                assert(ks.to_set().contains(x));
                let j = choose|j: int| 0 <= j < ks.len() && ks[j] == x;
                assert(j != n);
                assert(ks2[j] == x);
            }
        }
        assert forall|j: int| 0 <= j < es.drop_last().len() implies #[trigger] es.drop_last()[j]
            == (ks2[j], m2[ks2[j]]) by {
            assert(es[j] == (ks[j], m[ks[j]]));
            assert(ks[j] != k);
        }
        lemma_entries_of_keys(m2, ks2, es.drop_last());
        assert(es.last() == (k, m[k]));
        assert(m2.insert(k, m[k]) =~= m);
    }
}

/// Whether every open namespace of `m` is well-formed and backed by the file of
/// its name in `root`.
pub open spec fn all_open_wf(root: Seq<char>, m: Map<Seq<char>, FsNamespace>) -> bool {
    forall|n: Seq<char>| #[trigger]
        m.contains_key(n) ==> m[n].wf() && m[n].file_path() == path_join(
            root,
            namespace_file_name(n),
        )
}

impl FsStorage {
    /// Well-formedness: each open namespace is well-formed and backed by the
    /// file of its name.
    pub closed spec fn wf(&self) -> bool {
        &&& self.namespaces.wf()
        &&& all_open_wf(self.root_dir@, self.namespaces@)
    }

    /// The root directory.
    pub closed spec fn root(&self) -> Seq<char> {
        self.root_dir@
    }

    /// The namespaces opened so far, by name, with their entries.
    pub closed spec fn view(&self) -> Map<Seq<char>, Map<Seq<char>, Seq<u8>>> {
        self.namespaces@.map_values(|n: FsNamespace| n@)
    }

    /// Whether the open namespace `n` has unwritten changes.
    pub closed spec fn modified_at(&self, n: Seq<char>) -> bool {
        self.namespaces@[n].modified()
    }

    /// A storage rooted at `root_dir`, with no namespace open.
    pub fn new(root_dir: String) -> (r: Self)
        ensures
            r.wf(),
            r.root() == root_dir@,
            r@ == Map::<Seq<char>, Map<Seq<char>, Seq<u8>>>::empty(),
    {
        let r = FsStorage { root_dir, namespaces: KeyMap::new() };
        assert(r@ =~= Map::<Seq<char>, Map<Seq<char>, Seq<u8>>>::empty());
        r
    }

    /// The root directory.
    pub fn root_dir(&self) -> (r: &str)
        ensures
            r@ == self.root(),
    {
        self.root_dir.as_str()
    }

    /// The path of the file that backs `namespace`: the root directory joined
    /// with the namespace followed by `.json`.
    pub fn namespace_path(&self, namespace: &str) -> (r: String)
        ensures
            r@ == path_join(self.root(), namespace_file_name(namespace@)),
    {
        let mut file = String::from_str(namespace);
        file.append(".json");
        proof {
            reveal_strlit(".json");
            assert(file@ =~= namespace_file_name(namespace@));
        }
        join_path(self.root_dir.as_str(), file.as_str())
    }

    /// Whether `namespace` is open.
    pub fn is_open(&self, namespace: &str) -> (r: bool)
        requires
            self.wf(),
        ensures
            r == self@.contains_key(namespace@),
    {
        self.namespaces.contains_key(namespace)
    }

    /// The namespace, to read and change it. An open namespace is returned as
    /// it is and `file` is not looked at. Otherwise `file` is what its backing
    /// file holds (`None` when there is no such file): with no file the result
    /// is `NoNamespace`; else the namespace is read from the text, as
    /// `FsNamespace::new` does, and is open from then on.
    pub fn open(&mut self, namespace: &str, file: Option<String>) -> (r: Result<
        &mut FsNamespace,
        StorageError,
    >)
        requires
            old(self).wf(),
        ensures
            final(self).root() == old(self).root(),
            match r {
                Ok(ns) => {
                    &&& ns.wf()
                    &&& ns.file_path() == path_join(old(self).root(), namespace_file_name(namespace@))
                    &&& old(self)@.contains_key(namespace@) ==> {
                        &&& ns@ == old(self)@[namespace@]
                        &&& ns.modified() == old(self).modified_at(namespace@)
                    }
                    &&& !old(self)@.contains_key(namespace@) ==> {
                        &&& file is Some
                        &&& !ns.modified()
                        &&& ns@ == if file->0@.len() == 0 {
                            Map::empty()
                        } else {
                            map_of_entries(json_byte_map(file->0@)->0)
                        }
                    }
                    &&& final(self)@ == old(self)@.insert(namespace@, final(ns)@)
                    &&& (final(ns).wf() && final(ns).file_path() == ns.file_path())
                        ==> final(self).wf()
                },
                Err(StorageError::NoNamespace(name)) => {
                    &&& name@ == namespace@
                    &&& !old(self)@.contains_key(namespace@)
                    &&& file is None
                    &&& final(self)@ == old(self)@
                    &&& final(self).wf()
                },
                Err(StorageError::Json(_)) => {
                    &&& !old(self)@.contains_key(namespace@)
                    &&& file is Some
                    &&& file->0@.len() != 0
                    &&& json_byte_map(file->0@) is None
                    &&& final(self)@ == old(self)@
                    &&& final(self).wf()
                },
                Err(_) => false,
            },
    {
        if !self.namespaces.contains_key(namespace) {
            match file {
                None => {
                    return Err(StorageError::NoNamespace(namespace.to_owned()));
                },
                Some(text) => {
                    let path = self.namespace_path(namespace);
                    let ns = FsNamespace::new(path, Some(text))?;
                    self.namespaces.insert(namespace.to_owned(), ns);
                    proof {
                        assert(all_open_wf(self.root_dir@, self.namespaces@));
                    }
                },
            }
        }
        let ghost pre = self.namespaces@;
        let ghost root = self.root_dir@;
        match self.namespaces.get_mut(namespace) {
            Some(ns) => {
                proof {
                    lemma_replace_open_namespace(root, pre, namespace@, *final(ns));
                }
                Ok(ns)
            },
            None => Err(StorageError::NoNamespace(namespace.to_owned())),
        }
    }

    /// The names of the open namespaces, in the order in which they were opened.
    pub fn open_namespaces(&self) -> (r: Vec<String>)
        requires
            self.wf(),
        ensures
            string_views(r@).to_set() == self@.dom(),
            string_views(r@).no_duplicates(),
    {
        proof {
            self.namespaces.lemma_wf();
            assert(self@.dom() =~= self.namespaces@.dom());
        }
        self.namespaces.keys()
    }

    /// Closes `namespace` if it is open, handing it back so that its unwritten
    /// changes can be written.
    pub fn close(&mut self, namespace: &str) -> (r: Option<FsNamespace>)
        requires
            old(self).wf(),
        ensures
            final(self).wf(),
            final(self).root() == old(self).root(),
            final(self)@ == old(self)@.remove(namespace@),
            match r {
                Some(ns) => {
                    &&& old(self)@.contains_key(namespace@)
                    &&& ns.wf()
                    &&& ns@ == old(self)@[namespace@]
                    &&& ns.modified() == old(self).modified_at(namespace@)
                    &&& ns.file_path() == path_join(old(self).root(), namespace_file_name(namespace@))
                },
                None => !old(self)@.contains_key(namespace@),
            },
    {
        let r = self.namespaces.remove(namespace);
        assert(self@ =~= old(self)@.remove(namespace@));
        r
    }

    /// Listing is supported only for the empty name (the root): any other
    /// name is refused with `NoNamespace`, since namespaces do not nest.
    pub fn check_list(namespace: &str) -> (r: Result<(), StorageError>)
        ensures
            match r {
                Ok(()) => namespace@.len() == 0,
                Err(StorageError::NoNamespace(name)) => namespace@.len() != 0 && name@
                    == namespace@,
                Err(_) => false,
            },
    {
        if namespace.is_empty() {
            Ok(())
        } else {
            Err(StorageError::NoNamespace(namespace.to_owned()))
        }
    }
}

/// Replacing one open namespace changes the entries of that namespace only, and
/// keeps the storage well-formed when the new value is well-formed and backed by
/// the same file.
proof fn lemma_replace_open_namespace(
    root: Seq<char>,
    m: Map<Seq<char>, FsNamespace>,
    k: Seq<char>,
    v: FsNamespace,
)
    requires
        m.contains_key(k),
    ensures
        m.insert(k, v).map_values(|n: FsNamespace| n@) == m.map_values(|n: FsNamespace| n@).insert(
            k,
            v@,
        ),
        all_open_wf(root, m) && v.wf() && v.file_path() == m[k].file_path() ==> all_open_wf(
            root,
            m.insert(k, v),
        ),
{
    assert(m.insert(k, v).map_values(|n: FsNamespace| n@) =~= m.map_values(
        |n: FsNamespace| n@,
    ).insert(k, v@));
}

/// Listing is compositional: the namespaces of two listings one after the other
/// are the namespaces of the first followed by those of the second. So every
/// regular file `n.json` (with `n` not empty) of a listing shows the namespace
/// `n`, at its place, whatever comes before or after it.
pub proof fn law_listing_compositional(a: Seq<(Seq<char>, bool)>, b: Seq<(Seq<char>, bool)>)
    ensures
        namespaces_in_listing(a + b) == namespaces_in_listing(a) + namespaces_in_listing(b),
    decreases b.len(),
{
    if b.len() == 0 {
        assert(a + b =~= a);
        assert(namespaces_in_listing(a) + namespaces_in_listing(b) =~= namespaces_in_listing(a));
    } else {
        law_listing_compositional(a, b.drop_last());
        assert((a + b).drop_last() =~= a + b.drop_last());
        assert((a + b).last() == b.last());
        let (name, is_file) = b.last();
        if is_file && file_extension(name) == Some(seq!['j', 's', 'o', 'n']) {
            assert(namespaces_in_listing(a + b) =~= namespaces_in_listing(a)
                + namespaces_in_listing(b));
        } else {
            assert(namespaces_in_listing(a + b) =~= namespaces_in_listing(a)
                + namespaces_in_listing(b));
        }
    }
}

/// A listing of namespace files, one per namespace name (each not empty, each
/// a regular file), shows exactly those namespaces, in order.
pub proof fn law_listing_of_namespace_files(names: Seq<Seq<char>>)
    requires
        forall|i: int| 0 <= i < names.len() ==> (#[trigger] names[i]).len() > 0,
    ensures
        namespaces_in_listing(names.map_values(|n: Seq<char>| (namespace_file_name(n), true)))
            == names,
    decreases names.len(),
{
    if names.len() > 0 {
        let last = names.last();
        let init = names.drop_last();
        law_listing_of_namespace_files(init);
        law_namespace_file_listed(last);
        let all = names.map_values(|n: Seq<char>| (namespace_file_name(n), true));
        let front = init.map_values(|n: Seq<char>| (namespace_file_name(n), true));
        assert(all =~= front + seq![(namespace_file_name(last), true)]);
        law_listing_compositional(front, seq![(namespace_file_name(last), true)]);
        assert(names =~= init + seq![last]);
    }
}

/// Joining a relative path to a directory that is not empty and does not end
/// with `/` puts the path in that directory: the directory, a `/`, then the
/// path, whatever the directory starts with.
pub proof fn law_join_in_directory(base: Seq<char>, rel: Seq<char>)
    requires
        base.len() > 0,
        base.last() != '/',
        rel.len() == 0 || rel[0] != '/',
    ensures
        path_join(base, rel) == base + seq!['/'] + rel,
        path_join(base, rel).subrange(0, base.len() as int) == base,
        path_join(base, rel)[base.len() as int] == '/',
{
    assert((base + seq!['/'] + rel).subrange(0, base.len() as int) =~= base);
}

/// Joining an absolute path gives that path; joining to an empty directory or
/// one that ends with `/` only appends.
pub proof fn law_join_absolute_or_after_separator(base: Seq<char>, rel: Seq<char>)
    ensures
        rel.len() > 0 && rel[0] == '/' ==> path_join(base, rel) == rel,
        !(rel.len() > 0 && rel[0] == '/') && (base.len() == 0 || base.last() == '/')
            ==> path_join(base, rel) == base + rel,
{
}

/// The file that backs a namespace lies in the root directory: for a root that
/// is not empty and does not end with `/`, and a namespace name that does not
/// start with `/`, it is the root, a `/`, the name and `.json`.
pub proof fn law_namespace_file_in_root(root: Seq<char>, n: Seq<char>)
    requires
        root.len() > 0,
        root.last() != '/',
        n.len() == 0 || n[0] != '/',
    ensures
        path_join(root, namespace_file_name(n)) == root + seq!['/'] + n + seq![
            '.',
            'j',
            's',
            'o',
            'n',
        ],
{
    let f = namespace_file_name(n);
    assert(f.len() > 0 && (n.len() == 0 ==> f[0] == '.') && (n.len() > 0 ==> f[0] == n[0]));
    law_join_in_directory(root, f);
    assert(root + seq!['/'] + f =~= root + seq!['/'] + n + seq!['.', 'j', 's', 'o', 'n']);
}

/// What a namespace gives to save reads back as the same entries: a text `t`
/// for which `contents_to_save` holds (`saved_text`) is accepted by
/// `FsNamespace::new` (it is JSON of the right shape, and not empty), and the
/// namespace `new` makes of it has the entries of the one that was saved.
pub proof fn law_saved_text_reloads(entries: Map<Seq<char>, Seq<u8>>, t: Seq<char>)
    requires
        saved_text(entries, t),
    ensures
        t.len() != 0,
        json_byte_map(t) is Some,
        file_entries(Some(t)) == entries,
{
}

/// Whether `t` is a text that `contents_to_save` gives for a namespace with
/// the given entries.
pub open spec fn saved_text(entries: Map<Seq<char>, Seq<u8>>, t: Seq<char>) -> bool {
    &&& t.len() != 0
    &&& json_byte_map(t) is Some
    &&& file_entries(Some(t)) == entries
}

/// The file that backs a namespace with a non-empty name is listed under that
/// name: its extension is `json` and its stem is the name.
pub proof fn law_namespace_file_listed(n: Seq<char>)
    requires
        n.len() > 0,
    ensures
        file_extension(namespace_file_name(n)) == Some(seq!['j', 's', 'o', 'n']),
        file_stem(namespace_file_name(n)) == n,
        namespaces_in_listing(seq![(namespace_file_name(n), true)]) == seq![n],
{
    let name = namespace_file_name(n);
    let i = n.len() as int;
    assert(name.len() == n.len() + 5);
    assert(name[i] == '.');
    assert forall|j: int| i < j < name.len() implies name[j] != '.' by {
        assert(name[j] == seq!['.', 'j', 's', 'o', 'n'][j - i]);
    }
    assert(is_last_dot(name, i));
    assert(name != seq!['.', '.']) by {
        assert(name.len() != 2);
    }
    let k = choose|k: int| 0 < k && is_last_dot(name, k);
    if k < i {
        assert(name[i] == '.');
    } else if k > i {
        assert(name[k] != '.');
    }
    assert(k == i);
    assert(name.subrange(i + 1, name.len() as int) =~= seq!['j', 's', 'o', 'n']);
    assert(name.subrange(0, i) =~= n);
    let l = seq![(name, true)];
    assert(l.drop_last() =~= Seq::<(Seq<char>, bool)>::empty());
    assert(namespaces_in_listing(l.drop_last()) == Seq::<Seq<char>>::empty());
    assert(Seq::<Seq<char>>::empty().push(n) =~= seq![n]);
}

} // verus!
