//! Resolves a request key to the stable file locations that hold its cached
//! content.
//!
//! A cache is configured with a primary (local) root and an optional
//! secondary (remote) root. An entry for a key lives at
//! `<root><sep><shard><sep><name><extension>`, where the shard label and the
//! encoded name come from `encode`. Reads consult the local root first and
//! fall back to the remote root; writes and clears touch every configured
//! root. The functions here only compute those locations; performing the
//! file operations themselves is the caller's part.

use vstd::prelude::*;
use vstd::string::StringExecFns;
use vstd::string::StrSliceExecFns;
use vstd::utf8::encode_utf8;
use crate::encode::encode;
use crate::encode::chars_to_string;
use crate::encode::lemma_encode_injective;
use crate::encode::name_of;
use crate::encode::shard_of;

verus! {

/// The full path of a cache entry under one root: the root, a separator,
/// the one-character shard label, a separator, the encoded name and the
/// reserved extension.
pub open spec fn entry_path_spec(root: Seq<char>, sep: Seq<char>, ext: Seq<char>, key: Seq<char>) -> Seq<char> {
    root + sep + seq![shard_of(encode_utf8(key))] + sep + name_of(key) + ext
}

/// Under one root, distinct keys always resolve to distinct entry paths,
/// so writing one key can never touch another key's entry.
pub proof fn lemma_entry_path_injective(
    root: Seq<char>,
    sep: Seq<char>,
    ext: Seq<char>,
    k1: Seq<char>,
    k2: Seq<char>,
)
    requires
        k1 != k2,
    ensures
        entry_path_spec(root, sep, ext, k1) != entry_path_spec(root, sep, ext, k2),
{
    lemma_encode_injective(k1, k2);
    let n1 = name_of(k1);
    let n2 = name_of(k2);
    let head1 = root + sep + seq![shard_of(encode_utf8(k1))] + sep;
    let head2 = root + sep + seq![shard_of(encode_utf8(k2))] + sep;
    let p1 = entry_path_spec(root, sep, ext, k1);
    let p2 = entry_path_spec(root, sep, ext, k2);
    assert(p1 =~= (head1 + n1) + ext);
    assert(p2 =~= (head2 + n2) + ext);
    if p1 == p2 {
        let off = head1.len() as int;
        assert(head1.len() == head2.len());
        assert(p1.len() == head1.len() + n1.len() + ext.len());
        assert(p2.len() == head2.len() + n2.len() + ext.len());
        assert(n1.len() == n2.len());
        assert forall|j: int| 0 <= j < n1.len() implies n1[j] == n2[j] by {
            assert(p1[off + j] == n1[j]);
            assert(p2[off + j] == n2[j]);
        }
        assert(n1 =~= n2);
    }
}

/// For one cache, distinct keys keep distinct entries under every
/// configured root: clearing or overwriting one key's entry can never
/// touch another key's.
pub proof fn lemma_distinct_keys_distinct_entries(c: WebCache, k1: Seq<char>, k2: Seq<char>, i: int)
    requires
        k1 != k2,
        0 <= i < c.roots_spec().len(),
    ensures
        entry_path_spec(c.roots_spec()[i], c.separator@, c.extension@, k1) != entry_path_spec(
            c.roots_spec()[i],
            c.separator@,
            c.extension@,
            k2,
        ),
{
    lemma_entry_path_injective(c.roots_spec()[i], c.separator@, c.extension@, k1, k2);
}

/// A web-content cache over one or two storage roots.
///
/// The roots are path prefixes handed in by the caller; the separator and
/// the reserved extension are fixed at construction. The cache itself is
/// pure: it computes entry locations, and the caller performs the reads,
/// writes and deletes at those locations.
#[derive(Debug, Clone)]
pub struct WebCache {
    /// The primary root, consulted first on reads.
    pub local: Option<String>,
    /// The secondary root, a read-through fallback.
    pub remote: Option<String>,
    /// The path separator placed between root, shard folder and file name.
    pub separator: String,
    /// The reserved extension that marks files of this cache.
    pub extension: String,
}

impl WebCache {
    /// The configured roots in consultation order: local first, then
    /// remote.
    pub open spec fn roots_spec(&self) -> Seq<Seq<char>> {
        (match self.local {
            Some(l) => seq![l@],
            None => Seq::empty(),
        }) + (match self.remote {
            Some(r) => seq![r@],
            None => Seq::empty(),
        })
    }

    /// Creates a new web cache over the given roots, with `/` as the
    /// separator and `.web-cache` as the reserved extension.
    pub fn new(local: Option<String>, remote: Option<String>) -> (r: WebCache)
        ensures
            r.local == local,
            r.remote == remote,
            r.separator@ == "/"@,
            r.extension@ == ".web-cache"@,
    {
        WebCache {
            local,
            remote,
            separator: String::from_str("/"),
            extension: String::from_str(".web-cache"),
        }
    }

    /// Computes the entry path for `key` under the given `root`.
    ///
    /// The result is a function of the key alone (same key, same path), and
    /// distinct keys always get distinct paths
    /// (`lemma_entry_path_injective`). The shard label and the encoded name
    /// never contain a path separator or a dot
    /// (`encode::lemma_b64_alphabet`, `encode::lemma_shard_alphabet`), so
    /// the path has exactly the intended folder structure.
    pub fn file_for_root(&self, key: &str, root: &str) -> (r: String)
        ensures
            r@ == entry_path_spec(root@, self.separator@, self.extension@, key@),
    {
        let (shard, name) = encode(key);
        let shard_str = chars_to_string(&vec![shard]);
        let mut path = String::from_str(root);
        path.append(self.separator.as_str());
        path.append(shard_str.as_str());
        path.append(self.separator.as_str());
        path.append(name.as_str());
        path.append(self.extension.as_str());
        proof {
            assert(shard_str@ =~= seq![shard_of(encode_utf8(key@))]);
            assert(path@ =~= entry_path_spec(root@, self.separator@, self.extension@, key@));
        }
        path
    }

    /// Computes the entry paths for `key` under every configured root, in
    /// consultation order: the path under the local root first, then the
    /// path under the remote root.
    ///
    /// A read takes the first of these locations that holds a file; a write
    /// replaces the file at every one of them (delete, then create); a
    /// clear deletes the file at every one of them.
    pub fn entry_paths(&self, key: &str) -> (r: Vec<String>)
        ensures
            r@.len() == self.roots_spec().len(),
            forall|i: int|
                0 <= i < r@.len() ==> (#[trigger] r@[i])@ == entry_path_spec(
                    self.roots_spec()[i],
                    self.separator@,
                    self.extension@,
                    key@,
                ),
    {
        let mut v: Vec<String> = Vec::new();
        if let Some(l) = &self.local {
            v.push(self.file_for_root(key, l.as_str()));
        }
        if let Some(r) = &self.remote {
            v.push(self.file_for_root(key, r.as_str()));
        }
        v
    }
}

} // verus!
