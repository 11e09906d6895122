use vstd::prelude::*;

use vstd::string::StrSliceExecFns;

use crate::consoles::fake_cartridge::FakeCartridge;
use crate::consoles::gameboy::gbcartridge::GbCartridge;
use crate::utils::{last_index_of, lemma_last_index_before, rfind_char};

verus! {

/// The cartridges the library knows: a Game Boy cartridge read from a rom file, or a fake one
/// with no file behind it.
pub enum Cartridge {
    GameBoy(GbCartridge),
    Fake(FakeCartridge),
}

/// Why no cartridge could be made from a path.
#[derive(Debug)]
pub struct CartridgeNotFoundError {
    pub what: String,
}

/// Decides from the suffix after the last dot of `path` which cartridge it names: a Game Boy
/// Color rom (suffix `gbc`) gives the path back, to be read as a Game Boy cartridge; another
/// suffix gives `Suffix unknown: ` and the suffix; a path without a dot gives `Invalid path: `
/// and the path.
pub fn create(path: String) -> (r: Result<String, CartridgeNotFoundError>)
    ensures
        match last_index_of(path@, '.') {
            Some(i) => {
                let suffix = path@.subrange(i + 1, path@.len() as int);
                if suffix == "gbc"@ {
                    r == Ok::<String, CartridgeNotFoundError>(path)
                } else {
                    r is Err && r->Err_0.what@ == "Suffix unknown: "@ + suffix
                }
            },
            None => r is Err && r->Err_0.what@ == "Invalid path: "@ + path@,
        },
{
    let n = path.as_str().unicode_len();
    proof { lemma_last_index_before(path@, '.', n as int); }
    match rfind_char(path.as_str(), '.') {
        None => {
            proof { reveal_strlit("Invalid path: "); }
            let mut what = "Invalid path: ".to_owned();
            what.append(path.as_str());
            Err(CartridgeNotFoundError { what })
        },
        Some(i) => {
            let suffix = path.as_str().substring_char(i + 1, n).to_owned();
            proof { reveal_strlit("gbc"); }
            if suffix == "gbc".to_owned() {
                Ok(path)
            } else {
                proof { reveal_strlit("Suffix unknown: "); }
                let mut what = "Suffix unknown: ".to_owned();
                what.append(suffix.as_str());
                Err(CartridgeNotFoundError { what })
            }
        },
    }
}

} // verus!
