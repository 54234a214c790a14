use vstd::prelude::*;
use vstd::string::{StrSliceExecFns, StringExecFns};

use crate::commands::{entry_names, first_position, index_of_entry};

verus! {

/// Whether `pat` occurs in `s` as a contiguous piece.
pub open spec fn occurs_in(s: Seq<char>, pat: Seq<char>) -> bool {
    exists|i: int| 0 <= i <= s.len() - pat.len() && #[trigger] s.subrange(i, i + pat.len()) == pat
}

/// Whether `pat` occurs in `s` as a contiguous piece.
pub fn contains_text(s: &str, pat: &str) -> (r: bool)
    ensures
        r == occurs_in(s@, pat@),
{
    let n = s.unicode_len();
    let m = pat.unicode_len();
    if m > n {
        return false;
    }
    let mut i: usize = 0;
    while i <= n - m
        invariant
            n == s@.len(),
            m == pat@.len(),
            m <= n,
            i <= n - m + 1,
            forall|k: int| 0 <= k < i ==> #[trigger] s@.subrange(k, k + m) != pat@,
        decreases n - m + 1 - i,
    {
        let mut j: usize = 0;
        let mut same = true;
        while j < m
            invariant
                n == s@.len(),
                m == pat@.len(),
                i + m <= n,
                j <= m,
                same <==> (forall|k: int| 0 <= k < j ==> s@[i + k] == pat@[k]),
            decreases m - j,
        {
            if s.get_char(i + j) != pat.get_char(j) {
                same = false;
            }
            j = j + 1;
        }
        if same {
            assert(s@.subrange(i as int, i + m) =~= pat@);
            return true;
        }
        proof {
            let k = choose|k: int| 0 <= k < m && s@[i + k] != pat@[k];
            assert(s@.subrange(i as int, i + m)[k] != pat@[k]);
        }
        i = i + 1;
    }
    false
}

/// The path a texture named `res_name` is kept under: `"assets/textures/"` followed by the
/// name, with `".png"` appended when the name mentions neither `".jpg"` nor `".png"`.
pub open spec fn texture_path(res_name: Seq<char>) -> Seq<char> {
    if !occurs_in(res_name, ".jpg"@) && !occurs_in(res_name, ".png"@) {
        "assets/textures/"@ + res_name + ".png"@
    } else {
        "assets/textures/"@ + res_name
    }
}

/// The path a texture named `res_name` is kept under in the asset table.
pub fn texture_key(res_name: &str) -> (key: String)
    ensures
        key@ == texture_path(res_name@),
{
    let mut key = String::from_str("assets/textures/");
    key.append(res_name);
    if !contains_text(res_name, ".jpg") && !contains_text(res_name, ".png") {
        key.append(".png");
    }
    key
}

/// Loaded assets by path; each path occurs at most once.
pub struct AssetTable<T> {
    entries: Vec<(String, T)>,
}

/// No name occurs twice in `names`.
pub open spec fn distinct_names(names: Seq<Seq<char>>) -> bool {
    forall|i: int, j: int|
        #![trigger names[i], names[j]]
        0 <= i < names.len() && 0 <= j < names.len() && names[i] == names[j] ==> i == j
}

impl<T> AssetTable<T> {
    /// The paths of the table, in the order they were added.
    pub closed spec fn paths(self) -> Seq<Seq<char>> {
        entry_names(self.entries@)
    }

    /// The assets of the table, in the order they were added.
    pub closed spec fn assets(self) -> Seq<T> {
        self.entries@.map_values(|e: (String, T)| e.1)
    }

    /// The asset stored under `path`, if any.
    pub open spec fn lookup(self, path: Seq<char>) -> Option<T> {
        match first_position(self.paths(), path) {
            Some(i) => Some(self.assets()[i]),
            None => None,
        }
    }

    /// An empty table.
    pub fn new() -> (t: Self)
        ensures
            t.paths().len() == 0,
            t.assets().len() == 0,
            distinct_names(t.paths()),
    {
        AssetTable { entries: Vec::new() }
    }

    /// Whether an asset is stored under `path`.
    pub fn contains_key(&self, path: &str) -> (r: bool)
        ensures
            r == (self.lookup(path@) is Some),
    {
        index_of_entry(&self.entries, path).is_some()
    }

    /// The asset stored under `path`, if any.
    pub fn get(&self, path: &str) -> (r: Option<&T>)
        ensures
            match self.lookup(path@) {
                Some(a) => r == Some(&a),
                None => r is None,
            },
    {
        match index_of_entry(&self.entries, path) {
            Some(i) => Some(&self.entries[i].1),
            None => None,
        }
    }

    /// Stores `asset` under `path` unless an asset is already stored there; `true` when it
    /// was stored. An existing asset is kept as it is.
    pub fn insert_if_absent(&mut self, path: String, asset: T) -> (added: bool)
        ensures
            added == (old(self).lookup(path@) is None),
            added ==> final(self).paths() == old(self).paths().push(path@) && final(self).assets()
                == old(self).assets().push(asset),
            !added ==> final(self).paths() == old(self).paths() && final(self).assets() == old(
                self,
            ).assets(),
            distinct_names(old(self).paths()) ==> distinct_names(final(self).paths()),
    {
        match index_of_entry(&self.entries, path.as_str()) {
            Some(_) => false,
            None => {
                let ghost before = self.entries@;
                proof {
                    crate::commands::lemma_first_position_none(entry_names(before), path@);
                }
                self.entries.push((path, asset));
                proof {
                    assert(entry_names(self.entries@) =~= entry_names(before).push(path@));
                    assert(self.assets() =~= before.map_values(|e: (String, T)| e.1).push(asset));
                }
                true
            },
        }
    }
}

/// After an asset is stored under a path that held none, that path looks up to it.
pub proof fn law_lookup_after_insert<T>(before: AssetTable<T>, after: AssetTable<T>, path: Seq<char>, asset: T)
    requires
        before.lookup(path) is None,
        after.paths() == before.paths().push(path),
        after.assets() == before.assets().push(asset),
    ensures
        after.lookup(path) == Some(asset),
{
    crate::commands::lemma_first_position_push(before.paths(), path, path);
    assert(before.paths().len() == before.assets().len());
}

/// Adds `texture` to `table` under the path for the name `res_name`, unless a texture is
/// already stored there; `true` when it was added.
pub fn add_texture2d<T>(table: &mut AssetTable<T>, res_name: &str, texture: T) -> (added: bool)
    ensures
        added == (old(table).lookup(texture_path(res_name@)) is None),
        added ==> final(table).paths() == old(table).paths().push(texture_path(res_name@))
            && final(table).assets() == old(table).assets().push(texture),
        !added ==> final(table).paths() == old(table).paths() && final(table).assets() == old(
            table,
        ).assets(),
{
    let key = texture_key(res_name);
    table.insert_if_absent(key, texture)
}

} // verus!
