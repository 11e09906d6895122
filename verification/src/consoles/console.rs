use vstd::prelude::*;

use crate::consoles::gameboy::game_boy::GameBoy;
use crate::consoles::cartridge::Cartridge;

verus! {

/// Why no console could be made for a cartridge.
#[derive(Debug)]
pub struct NoConsolePresentError {
    pub what: String,
}

/// The console that plays `cart`: a Game Boy, as `GameBoy::new` builds it, for a Game Boy
/// cartridge; `No Console present for the rom provided` for any other cartridge.
pub fn create_for(cart: Cartridge) -> (r: Result<GameBoy, NoConsolePresentError>)
    ensures
        match cart {
            Cartridge::GameBoy(c) => r matches Ok(gb) && {
                &&& gb.wf()
                &&& gb.cpu_view().bus == crate::consoles::gameboy::game_boy::boot_bus(c@)
                &&& gb.cpu_view().regs.is_zeroed()
                &&& gb.cpu_view().pc == 0
                &&& gb.cpu_view().sp == crate::consoles::memory_map::WRAM_START
                &&& gb.cpu_view().addr == 0
                &&& !gb.cpu_view().is_prefixed
                &&& gb.cpu_view().interrupts_enabled
                &&& !gb.cpu_view().is_stopped
            },
            Cartridge::Fake(_) => r matches Err(e) && e.what@ == "No Console present for the rom provided"@,
        },
{
    match cart {
        Cartridge::GameBoy(c) => Ok(GameBoy::new(c)),
        Cartridge::Fake(_) => {
            proof { reveal_strlit("No Console present for the rom provided"); }
            Err(NoConsolePresentError { what: "No Console present for the rom provided".to_owned() })
        },
    }
}

} // verus!
