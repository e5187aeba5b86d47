//! Loading a program image into the ROM range.
use vstd::prelude::*;
use crate::cpu::Cpu;
use crate::machine::Machine;
use crate::memory::ROM_LOW_ADDRESS;

verus! {

/// The size of the ROM range, 0x8000 to 0xFFFF: the longest image that fits.
pub const ROM_SIZE: usize = 0x8000;

/// Why an image was not loaded.
#[derive(Copy, Debug, Clone, PartialEq, Eq, Structural)]
pub enum LoadError {
    /// The image is longer than the ROM range.
    ImageTooLarge,
}

/// The address space `mem` with `image` laid out from the start of the ROM
/// range, one byte per address, in order. Every other byte is that of `mem`.
pub open spec fn with_image(mem: Seq<u8>, image: Seq<u8>) -> Seq<u8> {
    Seq::new(
        mem.len(),
        |i: int|
            if 0x8000 <= i < 0x8000 + image.len() {
                image[i - 0x8000]
            } else {
                mem[i]
            },
    )
}

/// Writes `content` into memory from address 0x8000 on. An image longer than
/// the ROM range is refused, and the processor is left as it was: nothing is
/// ever written past 0xFFFF.
pub fn upload_to_rom(cpu: &mut Cpu, content: Vec<u8>) -> (result: Result<(), LoadError>)
    ensures
        content@.len() <= ROM_SIZE ==> result == Ok::<(), LoadError>(()),
        content@.len() > ROM_SIZE ==> result == Err::<(), LoadError>(LoadError::ImageTooLarge),
        result is Ok ==> final(cpu)@ == (Machine {
            mem: with_image(old(cpu)@.mem, content@),
            ..old(cpu)@
        }),
        result is Err ==> final(cpu)@ == old(cpu)@,
{
    if content.len() > ROM_SIZE {
        return Err(LoadError::ImageTooLarge);
    }
    proof {
        cpu.lemma_view_wf();
        assert(cpu@.mem =~= with_image(old(cpu)@.mem, content@.take(0)));
    }
    let mut index: usize = 0;
    while index < content.len()
        invariant
            index <= content@.len() <= ROM_SIZE,
            old(cpu)@.mem.len() == 0x10000,
            cpu@.regs == old(cpu)@.regs,
            cpu@.mem == with_image(old(cpu)@.mem, content@.take(index as int)),
        decreases content@.len() - index,
    {
        let address: u16 = ROM_LOW_ADDRESS + index as u16;
        cpu.memory.write_byte(address, content[index]);
        index = index + 1;
        assert(cpu@.mem =~= with_image(old(cpu)@.mem, content@.take(index as int)));
    }
    assert(content@.take(index as int) =~= content@);
    Ok(())
}

} // verus!
