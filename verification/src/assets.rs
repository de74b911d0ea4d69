//! The frame source's selection rule: which entries of a directory listing
//! are image assets.
//!
//! An asset is a regular file whose extension is exactly `png`. Everything
//! else in the listing is passed over without complaint, and the assets keep
//! the order in which the listing names them.

use vstd::prelude::*;

verus! {

/// One entry of a directory listing.
#[derive(Debug)]
pub struct DirectoryEntry {
    /// The entry's path, its components separated by `/`.
    pub path: String,
    /// Whether the entry is a regular file.
    pub is_file: bool,
}

/// Whether the last component of `path` has the extension `png`: the path
/// ends in `.png`, and a non-empty file name stem stands before the dot.
/// The comparison is case-sensitive.
pub open spec fn has_png_extension(path: Seq<char>) -> bool {
    let n = path.len() as int;
    &&& n >= 5
    &&& path[n - 5] != '/'
    &&& path[n - 4] == '.'
    &&& path[n - 3] == 'p'
    &&& path[n - 2] == 'n'
    &&& path[n - 1] == 'g'
}

/// Whether an entry is an image asset.
pub open spec fn is_asset(entry: DirectoryEntry) -> bool {
    entry.is_file && has_png_extension(entry.path@)
}

/// The path of an entry that is an asset, and `None` for any other entry.
pub open spec fn asset_path(entry: DirectoryEntry) -> Option<Seq<char>> {
    if is_asset(entry) {
        Some(entry.path@)
    } else {
        None
    }
}

/// The paths of the assets of a listing, in listing order.
pub open spec fn selected_assets(entries: Seq<DirectoryEntry>) -> Seq<Seq<char>> {
    entries.filter_map(|entry: DirectoryEntry| asset_path(entry))
}

/// The contents of a list of paths.
pub open spec fn paths_of(assets: Seq<String>) -> Seq<Seq<char>> {
    assets.map_values(|path: String| path@)
}

/// Tests whether the last component of a path has the extension `png`.
pub fn is_png_path(path: &str) -> (hit: bool)
    ensures
        hit == has_png_extension(path@),
{
    let n: usize = path.unicode_len();
    if n < 5 {
        return false;
    }
    path.get_char(n - 5) != '/' && path.get_char(n - 4) == '.' && path.get_char(n - 3) == 'p'
        && path.get_char(n - 2) == 'n' && path.get_char(n - 1) == 'g'
}

/// Selects the image assets of a directory listing: the paths of the regular
/// files with extension `png`, in listing order. A listing without assets
/// gives the empty list.
pub fn enumerate_assets(entries: &Vec<DirectoryEntry>) -> (assets: Vec<String>)
    ensures
        paths_of(assets@) == selected_assets(entries@),
{
    let mut assets: Vec<String> = Vec::new();
    let mut i: usize = 0;
    while i < entries.len()
        invariant
            i <= entries.len(),
            paths_of(assets@) == selected_assets(entries@.take(i as int)),
        decreases entries.len() - i,
    {
        let ghost before = paths_of(assets@);
        let entry = &entries[i];
        proof {
            entries@.lemma_filter_map_take_succ(|e: DirectoryEntry| asset_path(e), i as int);
        }
        if entry.is_file && is_png_path(entry.path.as_str()) {
            assets.push(entry.path.clone());
            assert(paths_of(assets@) =~= before + seq![entry.path@]);
        }
        i += 1;
    }
    assert(entries@.take(entries.len() as int) =~= entries@);
    assets
}

/// Every selected path belongs to a regular file of the listing with
/// extension `png`. So directories and files with any other extension,
/// `PNG` in capitals among them, are never selected.
pub proof fn lemma_selected_are_assets(entries: Seq<DirectoryEntry>, k: int)
    requires
        0 <= k < selected_assets(entries).len(),
    ensures
        exists|i: int|
            0 <= i < entries.len() && is_asset(#[trigger] entries[i]) && entries[i].path@
                == selected_assets(entries)[k],
    decreases entries.len(),
{
    let f = |entry: DirectoryEntry| asset_path(entry);
    if entries.len() > 0 {
        let rest = entries.drop_last();
        let last_index = entries.len() - 1;
        if k < selected_assets(rest).len() {
            lemma_selected_are_assets(rest, k);
            let i = choose|i: int|
                0 <= i < rest.len() && is_asset(#[trigger] rest[i]) && rest[i].path@
                    == selected_assets(rest)[k];
            assert(entries[i] == rest[i]);
        } else {
            assert(is_asset(entries[last_index]));
        }
    }
}

/// Every asset of the listing is selected.
pub proof fn lemma_assets_are_selected(entries: Seq<DirectoryEntry>, i: int)
    requires
        0 <= i < entries.len(),
        is_asset(entries[i]),
    ensures
        selected_assets(entries).contains(entries[i].path@),
    decreases entries.len(),
{
    let rest = entries.drop_last();
    if i == entries.len() - 1 {
        let picked = selected_assets(entries);
        assert(picked[picked.len() - 1] == entries[i].path@);
    } else {
        lemma_assets_are_selected(rest, i);
        let k = choose|k: int|
            0 <= k < selected_assets(rest).len() && selected_assets(rest)[k] == rest[i].path@;
        assert(selected_assets(entries)[k] == entries[i].path@);
    }
}

} // verus!
