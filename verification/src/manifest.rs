//! Manifest files: the list of assets of one asset version, each with its
//! hash, its file name on the server and its size.

use linked_hash_map::LinkedHashMap;
use rmp_serde::decode::Error as DecodeError;
use rmp_serde::encode::Error as EncodeError;
use std::collections::hash_map::RandomState;
use vstd::prelude::*;
use vstd::slice::slice_to_vec;

use crate::error::{Error, Repr};


verus! {

/// The insertion-ordered map that holds a manifest's entries.
#[verifier::external_type_specification]
#[verifier::external_body]
#[verifier::reject_recursive_types(K)]
#[verifier::reject_recursive_types(V)]
#[verifier::reject_recursive_types(S)]
pub struct ExLinkedHashMap<K, V, S>(LinkedHashMap<K, V, S>);

/// The error of a failed MessagePack decoding.
#[verifier::external_type_specification]
#[verifier::external_body]
pub struct ExDecodeError(DecodeError);

/// The error of a failed MessagePack encoding.
#[verifier::external_type_specification]
#[verifier::external_body]
pub struct ExEncodeError(EncodeError);

/// An entry of a manifest: the SHA-1 hash of the file, the file name on
/// the server, and the file size.
#[derive(Debug, PartialEq, Eq)]
pub struct ManifestEntry(pub String, pub String, pub usize);

/// The abstract value of an entry: hash, server file name and size.
pub type EntryView = (Seq<char>, Seq<char>, usize);

/// The abstract value of a manifest: its file names with their entries, in
/// the order the manifest lists them.
pub type ManifestView = Seq<(Seq<char>, EntryView)>;

impl View for ManifestEntry {
    type V = EntryView;

    open spec fn view(&self) -> EntryView {
        (self.0@, self.1@, self.2)
    }
}

impl Clone for ManifestEntry {
    fn clone(&self) -> (r: ManifestEntry)
        ensures
            r@ == self@,
    {
        ManifestEntry(self.0.clone(), self.1.clone(), self.2)
    }
}

/// The entries of a map of manifest entries, in iteration order.
pub uninterp spec fn linked_map_entries(m: LinkedHashMap<String, ManifestEntry, RandomState>) -> ManifestView;

/// The entries that MessagePack `bytes` decode to as a one-element array
/// holding a map from file names to `[hash, file name, size]` triples, in
/// the order of the map; `None` where they do not decode.
pub uninterp spec fn msgpack_manifest_entries(bytes: Seq<u8>) -> Option<ManifestView>;

/// The MessagePack encoding of a one-element array holding the map of the
/// given entries, in their order; `None` where encoding fails.
pub uninterp spec fn msgpack_manifest_bytes(entries: ManifestView) -> Option<Seq<u8>>;

/// Whether no two entries share a file name.
pub open spec fn unique_keys(s: ManifestView) -> bool {
    forall|i: int, j: int| 0 <= i < s.len() && 0 <= j < s.len() && i != j ==> s[i].0 != s[j].0
}

/// Whether some entry has the file name `k`.
pub open spec fn has_key(s: ManifestView, k: Seq<char>) -> bool {
    exists|i: int| 0 <= i < s.len() && s[i].0 == k
}

/// The entry with file name `k`.
pub open spec fn entry_of(s: ManifestView, k: Seq<char>) -> EntryView {
    s[choose|i: int| 0 <= i < s.len() && s[i].0 == k].1
}

/// The entries other than the one with file name `k`.
pub open spec fn without_key(s: ManifestView, k: Seq<char>) -> ManifestView {
    s.filter(|e: (Seq<char>, EntryView)| e.0 != k)
}

/// An empty map (`LinkedHashMap::new`).
#[verifier::external_body]
fn linked_map_new() -> (m: LinkedHashMap<String, ManifestEntry, RandomState>)
    ensures
        linked_map_entries(m) == Seq::<(Seq<char>, EntryView)>::empty(),
{
    LinkedHashMap::new()
}

/// Inserts an entry (`LinkedHashMap::insert`): an entry with the same file
/// name is dropped and the new one goes to the back.
#[verifier::external_body]
fn linked_map_insert(
    m: &mut LinkedHashMap<String, ManifestEntry, RandomState>,
    k: String,
    v: ManifestEntry,
)
    ensures
        linked_map_entries(*final(m)) == without_key(linked_map_entries(*old(m)), k@).push(
            (k@, v@),
        ),
{
    m.insert(k, v);
}

/// The number of entries (`LinkedHashMap::len`).
#[verifier::external_body]
fn linked_map_len(m: &LinkedHashMap<String, ManifestEntry, RandomState>) -> (n: usize)
    ensures
        n == linked_map_entries(*m).len(),
{
    m.len()
}

/// The entry with file name `k` (`LinkedHashMap::get`).
#[verifier::external_body]
fn linked_map_get<'a>(m: &'a LinkedHashMap<String, ManifestEntry, RandomState>, k: &str) -> (r:
    Option<&'a ManifestEntry>)
    ensures
        match r {
            Some(e) => exists|i: int|
                0 <= i < linked_map_entries(*m).len() && linked_map_entries(*m)[i].0 == k@
                    && linked_map_entries(*m)[i].1 == e@,
            None => !has_key(linked_map_entries(*m), k@),
        },
{
    m.get(k)
}

/// The entries in iteration order, copied out (`LinkedHashMap::iter`); no
/// two share a file name.
#[verifier::external_body]
fn linked_map_entries_vec(m: &LinkedHashMap<String, ManifestEntry, RandomState>) -> (v: Vec<
    (String, ManifestEntry),
>)
    ensures
        v@.map_values(|p: (String, ManifestEntry)| (p.0@, p.1@)) == linked_map_entries(*m),
        unique_keys(v@.map_values(|p: (String, ManifestEntry)| (p.0@, p.1@))),
{
    m.iter().map(|(k, e)| (k.clone(), e.clone())).collect()
}

/// Decodes MessagePack bytes into manifest entries (`rmp_serde::from_slice`
/// into a one-element array of a `LinkedHashMap` from file names to
/// `(hash, file name, size)`); the decoded file names are distinct.
#[verifier::external_body]
fn decode_entries(bytes: &[u8]) -> (r: Result<Vec<(String, String, String, usize)>, DecodeError>)
    ensures
        match r {
            Ok(v) => msgpack_manifest_entries(bytes@) == Some(
                v@.map_values(|p: (String, String, String, usize)| (p.0@, (p.1@, p.2@, p.3))),
            ) && unique_keys(
                v@.map_values(|p: (String, String, String, usize)| (p.0@, (p.1@, p.2@, p.3))),
            ),
            Err(_) => msgpack_manifest_entries(bytes@) is None,
        },
{
    let [m]: [LinkedHashMap<String, (String, String, usize)>; 1] = rmp_serde::from_slice(bytes)?;
    Ok(m.into_iter().map(|(k, (h, f, s))| (k, h, f, s)).collect())
}

/// Encodes the entries of a map as MessagePack (`rmp_serde::to_vec` of a
/// one-element array of the map, each entry as `[hash, file name, size]`).
#[verifier::external_body]
fn encode_entries(m: &LinkedHashMap<String, ManifestEntry, RandomState>) -> (r: Result<
    Vec<u8>,
    EncodeError,
>)
    ensures
        match r {
            Ok(b) => msgpack_manifest_bytes(linked_map_entries(*m)) == Some(b@),
            Err(_) => msgpack_manifest_bytes(linked_map_entries(*m)) is None,
        },
{
    let map: LinkedHashMap<&str, (&str, &str, usize)> =
        m.iter().map(|(k, e)| (k.as_str(), (e.0.as_str(), e.1.as_str(), e.2))).collect();
    rmp_serde::to_vec(&[map])
}

/// What failed while reading or writing a manifest.
#[derive(Debug)]
pub enum ManifestErrorKind {
    /// The manifest could not be decoded.
    Deserialize(DecodeError),
    /// The manifest could not be encoded.
    Serialize(EncodeError),
}

/// A manifest error, with the bytes that failed to decode (empty when
/// encoding failed).
#[derive(Debug)]
pub struct ManifestError {
    pub kind: ManifestErrorKind,
    pub manifest: Vec<u8>,
}

impl ManifestError {
    /// A manifest error of the given kind.
    pub fn new(kind: ManifestErrorKind, manifest: Vec<u8>) -> (e: ManifestError)
        ensures
            e.kind == kind,
            e.manifest@ == manifest@,
    {
        ManifestError { kind, manifest }
    }
}

/// A manifest: file names with their entries, in the order listed.
pub struct Manifest {
    data: [LinkedHashMap<String, ManifestEntry, RandomState>; 1],
}

impl View for Manifest {
    type V = ManifestView;

    closed spec fn view(&self) -> ManifestView {
        linked_map_entries(self.data[0])
    }
}

/// The total size of the entries.
pub open spec fn total_size(s: ManifestView) -> int
    decreases s.len(),
{
    if s.len() == 0 {
        0
    } else {
        total_size(s.drop_last()) + s.last().1.2
    }
}

/// Whether `a` does not list the file name of an entry.
pub open spec fn not_listed_in(a: ManifestView) -> spec_fn((Seq<char>, EntryView)) -> bool {
    |e: (Seq<char>, EntryView)| !has_key(a, e.0)
}

/// Whether `a` lists the file name of an entry with another hash or size.
pub open spec fn changed_in(a: ManifestView) -> spec_fn((Seq<char>, EntryView)) -> bool {
    |e: (Seq<char>, EntryView)|
        has_key(a, e.0) && (entry_of(a, e.0).0 != e.1.0 || entry_of(a, e.0).2 != e.1.2)
}

/// The entries of `b` whose file name `a` does not list.
pub open spec fn spec_added(a: ManifestView, b: ManifestView) -> ManifestView {
    b.filter(not_listed_in(a))
}

/// The entries of `b` whose file name `a` lists with another hash or size.
pub open spec fn spec_updated(a: ManifestView, b: ManifestView) -> ManifestView {
    b.filter(changed_in(a))
}

/// The entries of `a` whose file name `b` does not list.
pub open spec fn spec_removed(a: ManifestView, b: ManifestView) -> ManifestView {
    a.filter(not_listed_in(b))
}

/// Filtering one more element of a sequence.
proof fn lemma_filter_take_step<A>(s: Seq<A>, i: int, p: spec_fn(A) -> bool)
    requires
        0 <= i < s.len(),
    ensures
        s.take(i + 1).filter(p) == if p(s[i]) {
            s.take(i).filter(p).push(s[i])
        } else {
            s.take(i).filter(p)
        },
{
    assert(s.take(i + 1) =~= s.take(i).push(s[i]));
    s.take(i).lemma_filter_push(s[i], p);
}

/// The difference between two manifests: the entries of the newer one that
/// are new or changed, and the entries of the older one that are gone.
pub struct ManifestDiff {
    /// Entries of the new manifest whose file name the old one lacks.
    pub added: Vec<(String, ManifestEntry)>,
    /// Entries of the new manifest whose hash or size changed.
    pub updated: Vec<(String, ManifestEntry)>,
    /// Entries of the old manifest whose file name the new one lacks.
    pub removed: Vec<(String, ManifestEntry)>,
}

/// The abstract value of a list of entries.
pub open spec fn entries_view(v: Seq<(String, ManifestEntry)>) -> ManifestView {
    v.map_values(|p: (String, ManifestEntry)| (p.0@, p.1@))
}

impl ManifestDiff {
    /// A diff with nothing added, updated or removed.
    pub fn new() -> (d: ManifestDiff)
        ensures
            d.added@.len() == 0,
            d.updated@.len() == 0,
            d.removed@.len() == 0,
    {
        ManifestDiff { added: Vec::new(), updated: Vec::new(), removed: Vec::new() }
    }
}

impl Manifest {
    /// The number of entries.
    pub fn len(&self) -> (n: usize)
        ensures
            n == self@.len(),
    {
        linked_map_len(&self.data[0])
    }

    /// Whether there are no entries.
    pub fn is_empty(&self) -> (r: bool)
        ensures
            r == (self@.len() == 0),
    {
        self.len() == 0
    }

    /// The entry for the file name `name`, if listed.
    pub fn get(&self, name: &str) -> (r: Option<&ManifestEntry>)
        ensures
            match r {
                Some(e) => has_key(self@, name@) && e@ == entry_of(self@, name@),
                None => !has_key(self@, name@),
            },
    {
        let ghost s = self@;
        let _ = linked_map_entries_vec(&self.data[0]);
        let r = linked_map_get(&self.data[0], name);
        proof {
            if let Some(e) = r {
                let i = choose|i: int| 0 <= i < s.len() && s[i].0 == name@ && s[i].1 == e@;
                let j = choose|j: int| 0 <= j < s.len() && s[j].0 == name@;
                assert(i == j);
            }
        }
        r
    }

    /// Whether the file name `name` is listed.
    pub fn contains_key(&self, name: &str) -> (r: bool)
        ensures
            r == has_key(self@, name@),
    {
        linked_map_get(&self.data[0], name).is_some()
    }

    /// The entries, in the order listed.
    pub fn entries(&self) -> (v: Vec<(String, ManifestEntry)>)
        ensures
            entries_view(v@) == self@,
            unique_keys(self@),
    {
        linked_map_entries_vec(&self.data[0])
    }

    /// The total size of all assets in the manifest.
    pub fn asset_size(&self) -> (n: usize)
        requires
            total_size(self@) <= usize::MAX,
        ensures
            n == total_size(self@),
    {
        let v = linked_map_entries_vec(&self.data[0]);
        let ghost s = self@;
        let mut acc: usize = 0;
        let mut i: usize = 0;
        while i < v.len()
            invariant
                i <= v@.len() == s.len(),
                entries_view(v@) == s,
                total_size(s) <= usize::MAX,
                acc == total_size(s.take(i as int)),
            decreases v.len() - i,
        {
            assert(s.take(i + 1).drop_last() =~= s.take(i as int));
            assert(s[i as int].1.2 == v@[i as int].1.2);
            proof { lemma_total_size_prefix(s, i + 1); }
            acc = acc + v[i].1.2;
            i += 1;
        }
        assert(s.take(s.len() as int) =~= s);
        acc
    }

    /// The total size of all assets in the manifest; `None` where it does
    /// not fit in a `usize`.
    pub fn checked_asset_size(&self) -> (r: Option<usize>)
        ensures
            match r {
                Some(n) => n == total_size(self@),
                None => total_size(self@) > usize::MAX,
            },
    {
        let v = linked_map_entries_vec(&self.data[0]);
        entries_size(&v)
    }

    /// Computes the difference from this manifest to `other`.
    pub fn diff(&self, other: &Manifest) -> (d: ManifestDiff)
        ensures
            entries_view(d.added@) == spec_added(self@, other@),
            entries_view(d.updated@) == spec_updated(self@, other@),
            entries_view(d.removed@) == spec_removed(self@, other@),
            unique_keys(self@),
            unique_keys(other@),
    {
        let mut diff = ManifestDiff::new();
        let a = self.entries();
        let b = other.entries();
        let ghost sa = self@;
        let ghost sb = other@;
        let mut i: usize = 0;
        while i < b.len()
            invariant
                i <= b@.len() == sb.len(),
                entries_view(b@) == sb,
                entries_view(a@) == sa,
                sa == self@,
                sb == other@,
                unique_keys(sa),
                entries_view(diff.added@) == sb.take(i as int).filter(not_listed_in(sa)),
                entries_view(diff.updated@) == sb.take(i as int).filter(changed_in(sa)),
                diff.removed@.len() == 0,
            decreases b.len() - i,
        {
            let (key, value) = &b[i];
            let ghost e = sb[i as int];
            assert(e == (key@, value@));
            proof {
                lemma_filter_take_step(sb, i as int, not_listed_in(sa));
                lemma_filter_take_step(sb, i as int, changed_in(sa));
            }
            let ghost added_before = diff.added@;
            let ghost updated_before = diff.updated@;
            match self.get(key.as_str()) {
                None => {
                    diff.added.push((key.clone(), value.clone()));
                    assert(entries_view(diff.added@) =~= entries_view(added_before).push(e));
                },
                Some(old) => {
                    if !(old.0 == value.0) || old.2 != value.2 {
                        diff.updated.push((key.clone(), value.clone()));
                        assert(entries_view(diff.updated@) =~= entries_view(updated_before).push(
                            e,
                        ));
                    }
                },
            }
            i += 1;
        }
        assert(sb.take(sb.len() as int) =~= sb);
        let mut j: usize = 0;
        while j < a.len()
            invariant
                j <= a@.len() == sa.len(),
                sa == self@,
                sb == other@,
                entries_view(a@) == sa,
                entries_view(b@) == sb,
                entries_view(diff.added@) == spec_added(sa, sb),
                entries_view(diff.updated@) == spec_updated(sa, sb),
                entries_view(diff.removed@) == sa.take(j as int).filter(not_listed_in(sb)),
            decreases a.len() - j,
        {
            let (key, value) = &a[j];
            let ghost e = sa[j as int];
            assert(e == (key@, value@));
            proof {
                lemma_filter_take_step(sa, j as int, not_listed_in(sb));
            }
            let ghost removed_before = diff.removed@;
            if !other.contains_key(key.as_str()) {
                assert(not_listed_in(sb)(e));
                diff.removed.push((key.clone(), value.clone()));
                assert(entries_view(diff.removed@) =~= entries_view(removed_before).push(e));
            } else {
                assert(!not_listed_in(sb)(e));
            }
            assert(entries_view(diff.removed@) == sa.take(j + 1).filter(not_listed_in(sb)));
            j += 1;
        }
        assert(sa.take(sa.len() as int) =~= sa);
        diff
    }
}

/// The view of decoded entries as manifest entries.
pub open spec fn decoded_view(v: Seq<(String, String, String, usize)>) -> ManifestView {
    v.map_values(|p: (String, String, String, usize)| (p.0@, (p.1@, p.2@, p.3)))
}

impl Manifest {
    /// Decodes a manifest from MessagePack bytes: a one-element array
    /// holding a map from file names to `[hash, file name, size]`.
    pub fn from_slice(value: &[u8]) -> (r: Result<Manifest, Error>)
        ensures
            match msgpack_manifest_entries(value@) {
                Some(es) => r matches Ok(m) && m@ == es,
                None => r matches Err(e) && e.spec_repr() matches Repr::Manifest(me) && me.kind
                    is Deserialize && me.manifest@ == value@,
            },
    {
        match decode_entries(value) {
            Ok(v) => {
                let ghost es = decoded_view(v@);
                let mut map = linked_map_new();
                let mut i: usize = 0;
                while i < v.len()
                    invariant
                        i <= v@.len(),
                        es == decoded_view(v@),
                        unique_keys(es),
                        linked_map_entries(map) == es.take(i as int),
                    decreases v.len() - i,
                {
                    let (k, h, f, n) = &v[i];
                    let ghost before = linked_map_entries(map);
                    proof {
                        assert forall|j: int| 0 <= j < before.len() implies #[trigger] before[j].0
                            != k@ by {
                            assert(before[j] == es[j]);
                            assert(es[i as int].0 == k@);
                        }
                        lemma_without_absent_key(before, k@);
                    }
                    linked_map_insert(&mut map, k.clone(), ManifestEntry(h.clone(), f.clone(), *n));
                    assert(es.take(i + 1) =~= before.push(es[i as int]));
                    i += 1;
                }
                assert(es.take(v@.len() as int) =~= es);
                Ok(Manifest { data: [map] })
            },
            Err(e) => Err(
                Error::new(
                    Repr::Manifest(
                        ManifestError::new(ManifestErrorKind::Deserialize(e), slice_to_vec(value)),
                    ),
                ),
            ),
        }
    }

    /// Encodes the manifest as MessagePack bytes, the form `from_slice` reads.
    pub fn to_bytes(self) -> (r: Result<Vec<u8>, Error>)
        ensures
            match msgpack_manifest_bytes(self@) {
                Some(b) => r matches Ok(v) && v@ == b,
                None => r matches Err(e) && e.spec_repr() matches Repr::Manifest(me) && me.kind
                    is Serialize && me.manifest@.len() == 0,
            },
    {
        match encode_entries(&self.data[0]) {
            Ok(b) => Ok(b),
            Err(e) => Err(
                Error::new(
                    Repr::Manifest(ManifestError::new(ManifestErrorKind::Serialize(e), Vec::new())),
                ),
            ),
        }
    }
}

/// Dropping a file name that no entry has leaves the entries unchanged.
proof fn lemma_without_absent_key(s: ManifestView, k: Seq<char>)
    requires
        forall|j: int| 0 <= j < s.len() ==> #[trigger] s[j].0 != k,
    ensures
        without_key(s, k) == s,
    decreases s.len(),
{
    reveal(Seq::filter);
    if s.len() > 0 {
        assert forall|j: int| 0 <= j < s.drop_last().len() implies #[trigger] s.drop_last()[j].0
            != k by {
            assert(s.drop_last()[j] == s[j]);
        }
        lemma_without_absent_key(s.drop_last(), k);
        assert(s.last().0 != k) by {
            assert(s[s.len() - 1] == s.last());
        }
        assert(s.drop_last().push(s.last()) =~= s);
    }
}

/// Comparing a manifest with itself finds nothing added, updated or removed.
pub proof fn law_diff_with_itself(m: ManifestView)
    requires
        unique_keys(m),
    ensures
        spec_added(m, m).len() == 0,
        spec_updated(m, m).len() == 0,
        spec_removed(m, m).len() == 0,
{
    assert forall|i: int| 0 <= i < m.len() implies !#[trigger] not_listed_in(m)(m[i]) && !changed_in(
        m,
    )(m[i]) by {
        assert(has_key(m, m[i].0));
        let j = choose|j: int| 0 <= j < m.len() && m[j].0 == m[i].0;
        assert(j == i);
    }
    m.lemma_all_neg_filter_empty(not_listed_in(m));
    m.lemma_all_neg_filter_empty(changed_in(m));
}

/// What one side of a diff adds, the diff taken the other way round removes.
pub proof fn law_diff_added_is_reverse_removed(a: ManifestView, b: ManifestView)
    ensures
        spec_added(a, b) == spec_removed(b, a),
{
}

/// The file names of the new manifest are those of the old one, minus the
/// removed ones, plus the added ones.
pub proof fn law_diff_accounts_for_names(a: ManifestView, b: ManifestView, k: Seq<char>)
    ensures
        has_key(b, k) <==> (has_key(a, k) && !has_key(spec_removed(a, b), k)) || has_key(
            spec_added(a, b),
            k,
        ),
{
    let p = not_listed_in(b);
    let q = not_listed_in(a);
    if has_key(b, k) {
        let i = choose|i: int| 0 <= i < b.len() && b[i].0 == k;
        if !has_key(a, k) {
            b.lemma_filter_contains(q, i);
            let j = choose|j: int| 0 <= j < b.filter(q).len() && b.filter(q)[j] == b[i];
            assert(b.filter(q)[j].0 == k);
        } else {
            if has_key(spec_removed(a, b), k) {
                let j = choose|j: int| 0 <= j < a.filter(p).len() && a.filter(p)[j].0 == k;
                a.lemma_filter_pred(p, j);
            }
        }
    } else {
        if has_key(spec_added(a, b), k) {
            let j = choose|j: int| 0 <= j < b.filter(q).len() && b.filter(q)[j].0 == k;
            let x = b.filter(q)[j];
            assert(b.filter(q).contains(x));
            b.lemma_filter_contains_rev(q, x);
            let i = choose|i: int| 0 <= i < b.len() && b[i] == x;
            assert(b[i].0 == k);
        }
        if has_key(a, k) {
            let i = choose|i: int| 0 <= i < a.len() && a[i].0 == k;
            a.lemma_filter_contains(p, i);
            let j = choose|j: int| 0 <= j < a.filter(p).len() && a.filter(p)[j] == a[i];
            assert(a.filter(p)[j].0 == k);
        }
    }
}

/// The entries of `b` that `a` lists with another hash or size are those
/// whose names both list with different hashes or sizes.
proof fn lemma_has_key_updated(a: ManifestView, b: ManifestView, k: Seq<char>)
    requires
        unique_keys(b),
    ensures
        has_key(spec_updated(a, b), k) <==> has_key(b, k) && has_key(a, k) && (entry_of(a, k).0
            != entry_of(b, k).0 || entry_of(a, k).2 != entry_of(b, k).2),
{
    let p = changed_in(a);
    if has_key(b, k) {
        let i = choose|i: int| 0 <= i < b.len() && b[i].0 == k;
        let j = choose|j: int| 0 <= j < b.len() && b[j].0 == k;
        assert(i == j);
        if p(b[i]) {
            b.lemma_filter_contains(p, i);
            let m = choose|m: int| 0 <= m < b.filter(p).len() && b.filter(p)[m] == b[i];
            assert(b.filter(p)[m].0 == k);
        }
    }
    if has_key(spec_updated(a, b), k) {
        let m = choose|m: int| 0 <= m < b.filter(p).len() && b.filter(p)[m].0 == k;
        let x = b.filter(p)[m];
        assert(b.filter(p).contains(x));
        b.lemma_filter_contains_rev(p, x);
        let i = choose|i: int| 0 <= i < b.len() && b[i] == x;
        assert(b[i].0 == k);
        let j = choose|j: int| 0 <= j < b.len() && b[j].0 == k;
        assert(i == j);
    }
}

/// A name is updated going from `a` to `b` exactly when it is updated
/// going from `b` to `a`.
pub proof fn law_diff_updated_is_symmetric(a: ManifestView, b: ManifestView, k: Seq<char>)
    requires
        unique_keys(a),
        unique_keys(b),
    ensures
        has_key(spec_updated(a, b), k) <==> has_key(spec_updated(b, a), k),
{
    lemma_has_key_updated(a, b, k);
    lemma_has_key_updated(b, a, k);
}

/// Diffs taken both ways agree: what one adds the other removes, the same
/// names are updated either way, and a manifest differs from itself in
/// nothing. Manifests list each file name once, as `Manifest::diff`
/// states of both sides.
pub proof fn law_diff_symmetry(a: ManifestView, b: ManifestView, k: Seq<char>)
    requires
        unique_keys(a),
        unique_keys(b),
    ensures
        has_key(spec_added(a, b), k) <==> has_key(spec_removed(b, a), k),
        has_key(spec_removed(a, b), k) <==> has_key(spec_added(b, a), k),
        has_key(spec_updated(a, b), k) <==> has_key(spec_updated(b, a), k),
        spec_added(a, a).len() == 0,
        spec_updated(a, a).len() == 0,
        spec_removed(a, a).len() == 0,
{
    law_diff_added_is_reverse_removed(a, b);
    law_diff_added_is_reverse_removed(b, a);
    law_diff_updated_is_symmetric(a, b, k);
    law_diff_with_itself(a);
}

/// The total size of a list of entries; `None` where it does not fit in a
/// `usize`.
pub fn entries_size(v: &Vec<(String, ManifestEntry)>) -> (r: Option<usize>)
    ensures
        match r {
            Some(n) => n == total_size(entries_view(v@)),
            None => total_size(entries_view(v@)) > usize::MAX,
        },
{
    let ghost s = entries_view(v@);
    let mut acc: usize = 0;
    let mut i: usize = 0;
    while i < v.len()
        invariant
            i <= v@.len() == s.len(),
            s == entries_view(v@),
            acc == total_size(s.take(i as int)),
        decreases v.len() - i,
    {
        assert(s.take(i + 1).drop_last() =~= s.take(i as int));
        assert(s[i as int].1.2 == v@[i as int].1.2);
        proof { lemma_total_size_prefix(s, i + 1); }
        let size = v[i].1.2;
        if acc > usize::MAX - size {
            return None;
        }
        acc = acc + size;
        i += 1;
    }
    assert(s.take(s.len() as int) =~= s);
    Some(acc)
}

/// The total size of a prefix is at most the total size.
proof fn lemma_total_size_prefix(s: ManifestView, k: int)
    requires
        0 <= k <= s.len(),
    ensures
        0 <= total_size(s.take(k)) <= total_size(s),
    decreases s.len(),
{
    if s.len() > 0 {
        if k == s.len() {
            assert(s.take(k) =~= s);
            lemma_total_size_prefix(s.drop_last(), k - 1);
            assert(s.drop_last().take(k - 1) =~= s.drop_last());
        } else {
            lemma_total_size_prefix(s.drop_last(), k);
            assert(s.drop_last().take(k) =~= s.take(k));
            lemma_total_size_prefix(s.drop_last(), s.len() - 1);
            assert(s.drop_last().take(s.len() - 1) =~= s.drop_last());
        }
    } else {
        assert(s.take(k) =~= s);
    }
}

} // verus!
