//! Which entries of the preset directory are presets, and under which name.
//!
//! An entry is a preset when its file name has the extension `toml`: it ends
//! in `.toml` and something stands before that dot. The preset's name is what
//! stands before it. A name that is nothing but `.toml` is a hidden file
//! without an extension, and no preset.

use vstd::prelude::*;
use crate::text::str_eq;

verus! {

/// Whether the file name `file` is that of a preset.
pub open spec fn is_preset_file(file: Seq<char>) -> bool {
    file.len() > ".toml"@.len() && ".toml"@.is_suffix_of(file)
}

/// The preset that the file name `file` stands for, if it is a preset file.
pub open spec fn preset_name_of(file: Seq<char>) -> Option<Seq<char>> {
    if is_preset_file(file) {
        Some(file.subrange(0, file.len() - ".toml"@.len()))
    } else {
        None
    }
}

/// The names of the presets among the file names `files`, in the order of
/// `files`.
pub open spec fn preset_names_of(files: Seq<Seq<char>>) -> Seq<Seq<char>> {
    files.filter_map(|file: Seq<char>| preset_name_of(file))
}

/// Reads the preset's name off a file name, or tells that the file is no
/// preset.
pub fn preset_name(file: &str) -> (name: Option<String>)
    ensures
        name.deep_view() == preset_name_of(file@),
{
    proof {
        reveal_strlit(".toml");
    }
    let len: usize = file.unicode_len();
    if len <= 5 {
        return None;
    }
    let cut: usize = len - 5;
    if str_eq(file.substring_char(cut, len), ".toml") {
        Some(file.substring_char(0, cut).to_owned())
    } else {
        None
    }
}

/// Picks the presets out of the file names of a directory, keeping their
/// order.
pub fn list_presets(files: &Vec<String>) -> (names: Vec<String>)
    ensures
        names.deep_view() == preset_names_of(files.deep_view()),
{
    let ghost all = files.deep_view();
    let ghost pick = |file: Seq<char>| preset_name_of(file);
    let mut names: Vec<String> = Vec::new();
    let mut i: usize = 0;
    while i < files.len()
        invariant
            i <= files.len(),
            all == files.deep_view(),
            pick == |file: Seq<char>| preset_name_of(file),
            names.deep_view() == all.take(i as int).filter_map(pick),
        decreases files.len() - i,
    {
        let found = preset_name(files[i].as_str());
        proof {
            all.lemma_filter_map_take_succ(pick, i as int);
        }
        match found {
            Some(name) => {
                names.push(name);
            },
            None => {},
        }
        i += 1;
    }
    assert(all.take(i as int) =~= all);
    names
}

/// A name that is not empty is read back from its own preset file: the file
/// that selecting `name` looks for is listed as `name`.
pub proof fn lemma_preset_file_round_trip(name: Seq<char>)
    requires
        name.len() > 0,
    ensures
        preset_name_of(name + ".toml"@) == Some(name),
{
}

/// A preset file is its preset's name followed by `.toml`, and that name is
/// not empty.
pub proof fn lemma_preset_file_shape(file: Seq<char>)
    requires
        is_preset_file(file),
    ensures
        preset_name_of(file) is Some,
        preset_name_of(file)->0.len() > 0,
        file == preset_name_of(file)->0 + ".toml"@,
{
}

/// Listing adds nothing and reorders nothing: every listed name is the name
/// of one of the files, and there are no more names than files.
pub proof fn lemma_listed_names_come_from_files(files: Seq<Seq<char>>, name: Seq<char>)
    ensures
        preset_names_of(files).len() <= files.len(),
        preset_names_of(files).contains(name) ==> exists|file: Seq<char>|
            #[trigger] files.contains(file) && preset_name_of(file) == Some(name),
{
    let pick = |file: Seq<char>| preset_name_of(file);
    if preset_names_of(files).contains(name) {
        files.lemma_filter_map_contains(pick, name);
    }
    lemma_filter_map_len(files);
}

/// Listing never yields more names than there are files.
proof fn lemma_filter_map_len(files: Seq<Seq<char>>)
    ensures
        preset_names_of(files).len() <= files.len(),
    decreases files.len(),
{
    if files.len() > 0 {
        lemma_filter_map_len(files.drop_last());
    }
}

} // verus!
