//! Where a map lives on disk, and which files of the maps directory are maps.
use vstd::prelude::*;
use vstd::string::StringExecFns;
use crate::global::{path_exists, MAPS_DIR};

verus! {

/// The archive file of the map `name`.
pub open spec fn map_path(name: Seq<char>) -> Seq<char> {
    MAPS_DIR@ + "/"@ + name + ".zip"@
}

/// The archive file of the map `name`: the maps directory, a slash, the
/// name, and the ending `.zip`.
pub fn get_map_path(name: &str) -> (path: String)
    ensures
        path@ == map_path(name@),
{
    String::from_str(MAPS_DIR).concat("/").concat(name).concat(".zip")
}

/// Whether the archive file of the map `name` is on disk right now.
pub fn map_exist(name: &str) -> (found: bool) {
    let map_file_path = get_map_path(name);
    path_exists(map_file_path.as_str())
}

/// Whether `text` ends with `ending`.
pub open spec fn has_ending(text: Seq<char>, ending: Seq<char>) -> bool {
    ending.len() <= text.len() && text.skip(text.len() - ending.len()) == ending
}

/// `text` without its last `ending.len()` characters.
pub open spec fn without_ending(text: Seq<char>, ending: Seq<char>) -> Seq<char>
    recommends
        has_ending(text, ending),
{
    text.take(text.len() - ending.len())
}

/// `text` without `ending` at its end, where it ends with it.
///
/// Trusted: calls `str::strip_suffix` with a string as the pattern, which
/// hands out what stands before the suffix where the text ends with it, and
/// nothing where it does not.
#[verifier::external_body]
pub(crate) fn strip_ending(text: &str, ending: &str) -> (rest: Option<String>)
    ensures
        rest is Some == has_ending(text@, ending@),
        rest matches Some(front) ==> front@ == without_ending(text@, ending@),
{
    text.strip_suffix(ending).map(String::from)
}

/// The ending of a map's archive file.
pub const MAP_ENDING: &'static str = ".zip";

/// The map names that a listing of file names holds, in the order of the
/// listing: each name that has the ending `.zip`, without that one ending.
/// So the file of each name listed is among the files.
pub open spec fn names_of_maps(file_names: Seq<Seq<char>>) -> Seq<Seq<char>> {
    file_names.filter(|name: Seq<char>| has_ending(name, MAP_ENDING@)).map_values(
        |name: Seq<char>| without_ending(name, MAP_ENDING@),
    )
}

/// The names of the maps among the files of the maps directory.
pub fn map_names(file_names: &Vec<String>) -> (names: Vec<String>)
    ensures
        names@.map_values(|name: String| name@) == names_of_maps(
            file_names@.map_values(|name: String| name@),
        ),
{
    let ghost all = file_names@.map_values(|name: String| name@);
    let ghost is_map = |name: Seq<char>| has_ending(name, MAP_ENDING@);
    let ghost strip = |name: Seq<char>| without_ending(name, MAP_ENDING@);
    let mut names: Vec<String> = Vec::new();
    let mut i: usize = 0;
    proof {
        reveal(Seq::filter);
        assert(all.take(0) =~= Seq::<Seq<char>>::empty());
        assert(names@.map_values(|name: String| name@) =~= all.take(0).filter(is_map).map_values(
            strip,
        ));
    }
    while i < file_names.len()
        invariant
            i <= file_names.len(),
            all == file_names@.map_values(|name: String| name@),
            is_map == (|name: Seq<char>| has_ending(name, MAP_ENDING@)),
            strip == (|name: Seq<char>| without_ending(name, MAP_ENDING@)),
            names@.map_values(|name: String| name@) == all.take(i as int).filter(
                is_map,
            ).map_values(strip),
        decreases file_names.len() - i,
    {
        proof {
            reveal(Seq::filter);
            assert(all.take(i + 1).drop_last() =~= all.take(i as int));
            assert(all.take(i + 1).last() == file_names@[i as int]@);
        }
        let file_name = file_names[i].as_str();
        match strip_ending(file_name, MAP_ENDING) {
            Some(front) => {
                let ghost before = names@.map_values(|name: String| name@);
                names.push(front);
                assert(names@.map_values(|name: String| name@) =~= before.push(
                    strip(file_name@),
                ));
                assert(all.take(i + 1).filter(is_map).map_values(strip) =~= all.take(
                    i as int,
                ).filter(is_map).map_values(strip).push(strip(file_name@)));
            },
            None => {},
        }
        i = i + 1;
    }
    assert(all.take(file_names.len() as int) =~= all);
    names
}

/// The file of a map that is listed is among the files: the listing and
/// `map_path` agree on the ending.
pub proof fn lemma_listed_map_has_file(file_name: Seq<char>)
    requires
        has_ending(file_name, MAP_ENDING@),
    ensures
        without_ending(file_name, MAP_ENDING@) + MAP_ENDING@ == file_name,
{
    let front = without_ending(file_name, MAP_ENDING@);
    assert(front + file_name.skip(file_name.len() - MAP_ENDING@.len()) =~= file_name);
}

} // verus!
