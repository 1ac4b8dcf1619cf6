//! Where presets live on disk.
//!
//! All paths are built by plain concatenation, so they are exactly as
//! absolute, and exactly as well formed, as the home directory handed in.

use vstd::prelude::*;

verus! {

/// The preset directory that belongs to the home directory `home`.
pub open spec fn preset_dir_of(home: Seq<char>) -> Seq<char> {
    home + "/.config/starship_presets"@
}

/// The path of the preset called `name` inside the directory `dir`.
pub open spec fn preset_path_of(dir: Seq<char>, name: Seq<char>) -> Seq<char> {
    dir + "/"@ + name + ".toml"@
}

/// The path of the `minimal` preset inside `dir`.
pub open spec fn minimal_path_of(dir: Seq<char>) -> Seq<char> {
    preset_path_of(dir, "minimal"@)
}

/// The path of the `verbose` preset inside `dir`.
pub open spec fn verbose_path_of(dir: Seq<char>) -> Seq<char> {
    preset_path_of(dir, "verbose"@)
}

/// Builds the preset directory for the home directory `home`.
pub fn preset_dir(home: &str) -> (dir: String)
    ensures
        dir@ == preset_dir_of(home@),
{
    String::from_str(home).concat("/.config/starship_presets")
}

/// Builds the path at which the preset `name` is expected inside `dir`.
pub fn preset_path(dir: &str, name: &str) -> (path: String)
    ensures
        path@ == preset_path_of(dir@, name@),
{
    String::from_str(dir).concat("/").concat(name).concat(".toml")
}

/// Builds the path of the `minimal` preset inside `dir`.
pub fn minimal_path(dir: &str) -> (path: String)
    ensures
        path@ == minimal_path_of(dir@),
{
    preset_path(dir, "minimal")
}

/// Builds the path of the `verbose` preset inside `dir`.
pub fn verbose_path(dir: &str) -> (path: String)
    ensures
        path@ == verbose_path_of(dir@),
{
    preset_path(dir, "verbose")
}

/// Within one directory, two names share a path only if they are the same
/// name.
pub proof fn lemma_preset_path_injective(dir: Seq<char>, a: Seq<char>, b: Seq<char>)
    requires
        preset_path_of(dir, a) == preset_path_of(dir, b),
    ensures
        a == b,
{
    let start = (dir + "/"@).len() as int;
    let path = preset_path_of(dir, a);
    assert(path.len() == start + a.len() + ".toml"@.len());
    assert(path.len() == start + b.len() + ".toml"@.len());
    assert(a =~= path.subrange(start, start + a.len()));
    assert(b =~= path.subrange(start, start + b.len()));
}

/// The two fixed presets never share a path.
pub proof fn lemma_fixed_presets_differ(dir: Seq<char>)
    ensures
        minimal_path_of(dir) != verbose_path_of(dir),
{
    reveal_strlit("minimal");
    reveal_strlit("verbose");
    assert("minimal"@[0] != "verbose"@[0]);
    if minimal_path_of(dir) == verbose_path_of(dir) {
        lemma_preset_path_injective(dir, "minimal"@, "verbose"@);
    }
}

/// A preset path lies directly inside its directory and ends in `.toml`:
/// it is the directory, one `/`, and the file name `<name>.toml`.
pub proof fn lemma_preset_path_shape(dir: Seq<char>, name: Seq<char>)
    ensures
        preset_path_of(dir, name) == dir + "/"@ + (name + ".toml"@),
        dir.is_prefix_of(preset_path_of(dir, name)),
        ".toml"@.is_suffix_of(preset_path_of(dir, name)),
        preset_path_of(dir, name).len() == dir.len() + 1 + name.len() + 5,
{
    reveal_strlit("/");
    reveal_strlit(".toml");
}

/// Every preset path of a home directory starts with that home directory,
/// so it is absolute whenever the home directory is.
pub proof fn lemma_preset_path_under_home(home: Seq<char>, name: Seq<char>)
    ensures
        home.is_prefix_of(preset_path_of(preset_dir_of(home), name)),
        home.len() > 0 ==> preset_path_of(preset_dir_of(home), name)[0] == home[0],
{
}

} // verus!
