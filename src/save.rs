//! Naming and loading of a game's save blob. The file system itself is a
//! collaborator: this module decides which file a game's blob lives in and
//! what a load returns for what the file system found.

use vstd::prelude::*;
use vstd::string::StringExecFns;

verus! {

/// Name of the file that holds the save blob of the game `game_name`.
pub open spec fn save_path_spec(game_name: Seq<char>) -> Seq<char> {
    game_name + ".sav"@
}

/// A blob of `n` zero bytes.
pub open spec fn blank_blob(n: nat) -> Seq<u8> {
    Seq::new(n, |_i: int| 0u8)
}

/// What a load returns when the file system found `found` under the save
/// file's name: the stored bytes as they are, whatever their length, or
/// `expected_size` zero bytes when there was no save.
pub open spec fn load_spec(found: Option<Seq<u8>>, expected_size: nat) -> Seq<u8> {
    match found {
        Some(bytes) => bytes,
        None => blank_blob(expected_size),
    }
}

/// Stored files, by name, as the file system would hold them.
pub open spec fn save_spec(
    store: Map<Seq<char>, Seq<u8>>,
    game_name: Seq<char>,
    blob: Seq<u8>,
) -> Map<Seq<char>, Seq<u8>> {
    store.insert(save_path_spec(game_name), blob)
}

/// What the store holds under the save file's name of `game_name`.
pub open spec fn lookup_spec(store: Map<Seq<char>, Seq<u8>>, game_name: Seq<char>) -> Option<
    Seq<u8>,
> {
    if store.contains_key(save_path_spec(game_name)) {
        Some(store[save_path_spec(game_name)])
    } else {
        None
    }
}

/// The name of the file that holds the save blob of `game_name`: the name
/// followed by `.sav`.
pub fn save_path(game_name: &str) -> (path: String)
    ensures
        path@ == save_path_spec(game_name@),
{
    String::from_str(game_name).concat(".sav")
}

/// The blob that a load hands to the game: the bytes found, unchanged, or
/// `expected_size` zero bytes when nothing was found. A missing save is not
/// an error.
pub fn loaded_or_blank(found: Option<Vec<u8>>, expected_size: usize) -> (blob: Vec<u8>)
    ensures
        blob@ == load_spec(
            match found {
                Some(v) => Some(v@),
                None => None,
            },
            expected_size as nat,
        ),
{
    match found {
        Some(bytes) => bytes,
        None => {
            let mut blob: Vec<u8> = Vec::new();
            let mut i: usize = 0;
            while i < expected_size
                invariant
                    i <= expected_size,
                    blob@ == blank_blob(i as nat),
                decreases expected_size - i,
            {
                blob.push(0u8);
                i = i + 1;
                assert(blob@ =~= blank_blob(i as nat));
            }
            blob
        },
    }
}

/// Loading a game's blob right after saving `blob` under the same game, with
/// the blob's own length as the expected size, gives back `blob`.
pub proof fn lemma_save_round_trip(
    store: Map<Seq<char>, Seq<u8>>,
    game_name: Seq<char>,
    blob: Seq<u8>,
)
    ensures
        load_spec(lookup_spec(save_spec(store, game_name, blob), game_name), blob.len())
            == blob,
{
}

/// Loading a game that was never saved gives exactly `expected_size` zero
/// bytes.
pub proof fn lemma_load_absent(store: Map<Seq<char>, Seq<u8>>, game_name: Seq<char>, expected_size: nat)
    requires
        !store.contains_key(save_path_spec(game_name)),
    ensures
        load_spec(lookup_spec(store, game_name), expected_size).len() == expected_size,
        forall|i: int|
            0 <= i < expected_size ==> #[trigger] load_spec(lookup_spec(store, game_name), expected_size)[i] == 0u8,
{
}

} // verus!
