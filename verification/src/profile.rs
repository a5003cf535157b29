//! Saved profiles and the state kept between runs: what is written, under
//! which name, and what a stored file is taken for.

use vstd::prelude::*;
use crate::state::KeyConfig;
use crate::text::{find_last, spec_last_index, str_eq};

verus! {

/// A named set of key colours, with the keymap that went with it.
#[derive(Debug)]
pub struct Profile {
    pub name: String,
    pub keys: Vec<KeyConfig>,
    pub keymaps: Option<Vec<u16>>,
}

/// The file a profile is stored in: its name with `.json` behind it.
pub open spec fn spec_profile_file_name(name: Seq<char>) -> Seq<char> {
    name + ".json"@
}

/// The profile a stored file holds, going by its name: what stands before
/// the last dot, where `json` follows that dot and something precedes it.
pub open spec fn spec_profile_name(file_name: Seq<char>) -> Option<Seq<char>> {
    let dot = spec_last_index(file_name, '.');
    if dot > 0 && file_name.skip(dot + 1) == "json"@ {
        Some(file_name.take(dot))
    } else {
        None
    }
}

pub fn profile_file_name(name: &str) -> (file_name: String)
    ensures
        file_name@ == spec_profile_file_name(name@),
{
    let mut file_name = name.to_owned();
    file_name.append(".json");
    file_name
}

pub fn profile_name(file_name: &str) -> (name: Option<String>)
    ensures
        match name {
            Some(stem) => spec_profile_name(file_name@) == Some(stem@),
            None => spec_profile_name(file_name@) is None,
        },
{
    let len = file_name.unicode_len();
    match find_last(file_name, '.') {
        None => None,
        Some(dot) => {
            if dot == 0 {
                return None;
            }
            proof {
                assert(file_name@.skip(dot + 1) =~= file_name@.subrange(dot + 1, len as int));
                assert(file_name@.take(dot as int) =~= file_name@.subrange(0, dot as int));
            }
            let extension = file_name.substring_char(dot + 1, len);
            if str_eq(extension, "json") {
                Some(file_name.substring_char(0, dot).to_owned())
            } else {
                None
            }
        },
    }
}

/// The names of the profiles among the files of the profile directory, in
/// the order the files were listed.
pub fn list_profiles(file_names: &Vec<String>) -> (names: Vec<String>)
    ensures
        names@.map_values(|n: String| n@) == spec_list_profiles(file_names@, file_names@.len()),
{
    let mut names: Vec<String> = Vec::new();
    let mut i: usize = 0;
    assert(names@.map_values(|n: String| n@) =~= spec_list_profiles(file_names@, 0));
    while i < file_names.len()
        invariant
            0 <= i <= file_names.len(),
            names@.map_values(|n: String| n@) == spec_list_profiles(file_names@, i as nat),
        decreases file_names.len() - i,
    {
        match profile_name(file_names[i].as_str()) {
            Some(stem) => {
                let ghost before = names@;
                names.push(stem);
                assert(names@.map_values(|n: String| n@) =~= before.map_values(|n: String| n@).push(
                    stem@,
                ));
            },
            None => {},
        }
        i = i + 1;
    }
    names
}

/// The profile names among the first `count` listed files.
pub open spec fn spec_list_profiles(file_names: Seq<String>, count: nat) -> Seq<Seq<char>>
    decreases count,
{
    if count == 0 {
        Seq::empty()
    } else {
        let earlier = spec_list_profiles(file_names, (count - 1) as nat);
        match spec_profile_name(file_names[count - 1]@) {
            Some(stem) => earlier.push(stem),
            None => earlier,
        }
    }
}

/// The profile to store under `name` for the given keys and keymap.
pub fn save_profile(name: &str, keys: &[KeyConfig; 8], keymaps: &[u16; 8]) -> (profile: Profile)
    ensures
        profile.name@ == name@,
        profile.keys@ == keys@,
        profile.keymaps matches Some(stored) && stored@ == keymaps@,
{
    let mut stored_keys: Vec<KeyConfig> = Vec::new();
    let mut stored_keymaps: Vec<u16> = Vec::new();
    let mut i: usize = 0;
    while i < 8
        invariant
            0 <= i <= 8,
            stored_keys@ == keys@.take(i as int),
            stored_keymaps@ == keymaps@.take(i as int),
        decreases 8 - i,
    {
        stored_keys.push(keys[i]);
        stored_keymaps.push(keymaps[i]);
        assert(stored_keys@ =~= keys@.take(i + 1));
        assert(stored_keymaps@ =~= keymaps@.take(i + 1));
        i = i + 1;
    }
    assert(keys@.take(8) =~= keys@);
    assert(keymaps@.take(8) =~= keymaps@);
    Profile { name: name.to_owned(), keys: stored_keys, keymaps: Some(stored_keymaps) }
}

/// The key state to store between runs.
pub fn save_state(keys: &[KeyConfig; 8]) -> (stored: Vec<KeyConfig>)
    ensures
        stored@ == keys@,
{
    let mut stored: Vec<KeyConfig> = Vec::new();
    let mut i: usize = 0;
    while i < 8
        invariant
            0 <= i <= 8,
            stored@ == keys@.take(i as int),
        decreases 8 - i,
    {
        stored.push(keys[i]);
        assert(stored@ =~= keys@.take(i + 1));
        i = i + 1;
    }
    assert(keys@.take(8) =~= keys@);
    stored
}

/// The key state read back from storage: accepted only if it holds exactly
/// one entry per key.
pub fn load_state(stored: &Vec<KeyConfig>) -> (keys: Option<[KeyConfig; 8]>)
    ensures
        keys is Some <==> stored@.len() == 8,
        keys matches Some(loaded) ==> loaded@ == stored@,
{
    if stored.len() != 8 {
        return None;
    }
    let keys = [
        stored[0],
        stored[1],
        stored[2],
        stored[3],
        stored[4],
        stored[5],
        stored[6],
        stored[7],
    ];
    assert(keys@ =~= stored@);
    Some(keys)
}

} // verus!
