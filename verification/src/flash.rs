//! A 2 MiB parallel NOR flash chip of the SST39VF1681 class: the byte array
//! and the recognizer of its command sequences.

use vstd::prelude::*;
use vstd::slice::slice_to_vec;
use crate::memory::AddressSpace;

verus! {

/// Number of bytes in the chip.
pub const CHIP_CAPACITY: usize = 0x200000;

/// Number of bytes that a sector erase sets.
pub const SECTOR_SIZE: usize = 0x1000;

/// Number of bytes that a block erase sets.
pub const BLOCK_SIZE: usize = 0x10000;

/// What the chip answers while it reports status.
pub const STATUS_READY: u8 = 0xC0;

/// How many command writes the chip remembers.
pub const HISTORY: usize = 6;

/// One write seen on the bus while the chip listens for a command.
#[derive(Copy, Clone, PartialEq, Eq, Structural, Debug)]
pub struct CommandWrite {
    pub address: u32,
    pub value: u8,
}

/// What a read returns.
#[derive(Copy, Clone, PartialEq, Eq, Structural, Debug)]
pub enum ReadMode {
    /// Reads of `address` return the status register.
    Status { address: u32 },
    /// Every read returns the stored byte.
    Data,
}

/// The last `N` values pushed, newest first in its view. Places that were
/// never filled, or were cleared, hold `None`.
pub struct RingBuf<const N: usize> {
    data: Vec<Option<CommandWrite>>,
    index: usize,
}

impl<const N: usize> View for RingBuf<N> {
    type V = Seq<Option<CommandWrite>>;

    /// Element `i` is the value pushed `i` pushes before the newest one.
    closed spec fn view(&self) -> Seq<Option<CommandWrite>> {
        Seq::new(N as nat, |i: int| self.data@[self.slot(i)])
    }
}

/// Whether `pattern` stands at the newest end of `history`, oldest first
/// in `pattern`. A pattern as long as the history never matches.
pub open spec fn history_ends_with(
    history: Seq<Option<CommandWrite>>,
    pattern: Seq<CommandWrite>,
) -> bool {
    &&& pattern.len() < history.len()
    &&& forall|i: int|
        0 <= i < pattern.len() ==> #[trigger] history[i] == Some(pattern[pattern.len() - 1 - i])
}

/// The history after one more write: the new value in front, the oldest gone.
pub open spec fn history_push(
    history: Seq<Option<CommandWrite>>,
    value: CommandWrite,
) -> Seq<Option<CommandWrite>> {
    Seq::new(history.len(), |i: int| if i == 0 { Some(value) } else { history[i - 1] })
}

/// A history of `n` empty places.
pub open spec fn history_empty(n: nat) -> Seq<Option<CommandWrite>> {
    Seq::new(n, |i: int| None)
}

impl<const N: usize> RingBuf<N> {
    /// Where in `data` the value pushed `i` pushes before the newest stands.
    closed spec fn slot(&self, i: int) -> int {
        if self.index as int >= 1 + i {
            self.index as int - 1 - i
        } else {
            self.index as int + N as int - 1 - i
        }
    }

    pub closed spec fn wf(&self) -> bool {
        &&& N > 0
        &&& self.data@.len() == N
        &&& self.index < N
    }

    /// An empty buffer.
    pub fn new() -> (buf: Self)
        requires
            N > 0,
        ensures
            buf.wf(),
            buf@ == history_empty(N as nat),
    {
        let mut data: Vec<Option<CommandWrite>> = Vec::new();
        let mut i: usize = 0;
        while i < N
            invariant
                i <= N,
                data@.len() == i,
                forall|j: int| 0 <= j < i ==> data@[j].is_none(),
            decreases N - i,
        {
            data.push(None);
            i = i + 1;
        }
        let buf = RingBuf { data, index: 0 };
        assert(buf@ =~= history_empty(N as nat));
        buf
    }

    /// The number of values the buffer holds.
    pub fn size(&self) -> (n: usize)
        ensures
            n == N,
    {
        N
    }

    /// Adds `value` as the newest; the oldest leaves.
    pub fn push(&mut self, value: CommandWrite)
        requires
            old(self).wf(),
        ensures
            final(self).wf(),
            final(self)@ == history_push(old(self)@, value),
    {
        let at = self.index;
        self.data[at] = Some(value);
        self.index = if at + 1 == N { 0 } else { at + 1 };
        assert(self@ =~= history_push(old(self)@, value));
    }

    /// Empties every place.
    pub fn clear(&mut self)
        requires
            old(self).wf(),
        ensures
            final(self).wf(),
            final(self)@ == history_empty(N as nat),
    {
        let mut i: usize = 0;
        while i < N
            invariant
                i <= N,
                self.data@.len() == N,
                self.index == old(self).index,
                forall|j: int| 0 <= j < i ==> self.data@[j].is_none(),
            decreases N - i,
        {
            self.data[i] = None;
            i = i + 1;
        }
        self.index = 0;
        assert(self@ =~= history_empty(N as nat));
    }

    /// The value pushed `n mod N` pushes before the newest one.
    pub fn get_from_back(&self, n: usize) -> (value: Option<CommandWrite>)
        requires
            self.wf(),
        ensures
            value == self@[(n % N) as int],
    {
        let n = n % N;
        let at = if self.index >= 1 + n { self.index - 1 - n } else { self.index + (N - 1 - n) };
        self.data[at]
    }

    /// Whether the newest values are those of `other`, in the order pushed.
    pub fn ends_with(&self, other: &[CommandWrite]) -> (b: bool)
        requires
            self.wf(),
        ensures
            b == history_ends_with(self@, other@),
    {
        if other.len() >= N {
            return false;
        }
        let len = other.len();
        let mut i: usize = 0;
        while i < len
            invariant
                self.wf(),
                len == other@.len(),
                len < N,
                i <= len,
                forall|j: int| 0 <= j < i ==> #[trigger] self@[j] == Some(other@[len - 1 - j]),
            decreases len - i,
        {
            let found = self.get_from_back(i);
            let wanted = other[len - 1 - i];
            proof {
                vstd::arithmetic::div_mod::lemma_small_mod(i as nat, N as nat);
            }
            match found {
                Some(element) => {
                    if element != wanted {
                        assert(self@[i as int] != Some(other@[len - 1 - i]));
                        return false;
                    }
                },
                None => {
                    assert(self@[i as int] != Some(other@[len - 1 - i]));
                    return false;
                },
            }
            i = i + 1;
        }
        true
    }
}

/// The unlock sequence in front of the byte to program.
pub open spec fn byte_program_sequence() -> Seq<CommandWrite> {
    seq![
        CommandWrite { address: 0xAAA, value: 0xAA },
        CommandWrite { address: 0x555, value: 0x55 },
        CommandWrite { address: 0xAAA, value: 0xA0 },
    ]
}

/// The unlock sequence in front of an erase command.
pub open spec fn erase_sequence() -> Seq<CommandWrite> {
    seq![
        CommandWrite { address: 0xAAA, value: 0xAA },
        CommandWrite { address: 0x555, value: 0x55 },
        CommandWrite { address: 0xAAA, value: 0x80 },
        CommandWrite { address: 0xAAA, value: 0xAA },
        CommandWrite { address: 0x555, value: 0x55 },
    ]
}

/// The bytes after an erase of `count` bytes from `start` on, with
/// positions taken modulo the length: those are `0xFF`, the others stay.
pub open spec fn erased_range(data: Seq<u8>, start: int, count: int) -> Seq<u8> {
    Seq::new(
        data.len(),
        |j: int| if (j - start) % (data.len() as int) < count { 0xFFu8 } else { data[j] },
    )
}

/// Position `j` lies `i` places after `start`, modulo `len`, exactly when
/// `j - start` leaves the remainder `i`.
pub proof fn lemma_offset_mod(j: int, start: int, i: int, len: int)
    requires
        len > 0,
        0 <= j < len,
        0 <= i < len,
    ensures
        ((j - start) % len == i) <==> (j == (start + i) % len),
{
    vstd::arithmetic::div_mod::lemma_fundamental_div_mod(j - start, len);
    vstd::arithmetic::div_mod::lemma_fundamental_div_mod(start + i, len);
    vstd::arithmetic::div_mod::lemma_mod_bound(j - start, len);
    vstd::arithmetic::div_mod::lemma_mod_bound(start + i, len);
    let q = (j - start) / len;
    let p = (start + i) / len;
    if (j - start) % len == i {
        assert(j == (start + i) + len * q);
        assert(start + i == (p + q) * len - q * len + (start + i) % len) by (nonlinear_arith)
            requires
                start + i == len * p + (start + i) % len,
        ;
        assert(j == (p + q) * len + (start + i) % len) by (nonlinear_arith)
            requires
                j == (start + i) + len * q,
                start + i == (p + q) * len - q * len + (start + i) % len,
        ;
        vstd::arithmetic::div_mod::lemma_fundamental_div_mod_converse(
            j,
            len,
            p + q,
            (start + i) % len,
        );
        vstd::arithmetic::div_mod::lemma_small_mod(j as nat, len as nat);
    }
    if j == (start + i) % len {
        assert(j - start == (-p) * len + i) by (nonlinear_arith)
            requires
                start + i == len * p + j,
        ;
        vstd::arithmetic::div_mod::lemma_fundamental_div_mod_converse(j - start, len, -p, i);
    }
}

/// All bytes `0xFF`.
pub open spec fn erased_chip(len: nat) -> Seq<u8> {
    Seq::new(len, |j: int| 0xFFu8)
}

/// The state of the chip as contracts see it.
pub struct FlashView {
    /// The stored bytes.
    pub data: Seq<u8>,
    pub read_mode: ReadMode,
    /// The last command writes, newest first.
    pub history: Seq<Option<CommandWrite>>,
}

impl FlashView {
    /// What a read of `address` returns.
    pub open spec fn read_value(self, address: u32) -> u8 {
        if self.read_mode == (ReadMode::Status { address }) {
            STATUS_READY
        } else {
            self.data[(address as int) % (self.data.len() as int)]
        }
    }

    /// The chip after a read of `address`: a read away from the status
    /// address ends the status report.
    pub open spec fn after_read(self, address: u32) -> FlashView {
        if self.read_mode == (ReadMode::Status { address }) {
            self
        } else {
            FlashView { read_mode: ReadMode::Data, ..self }
        }
    }

    /// Whether the next write completes a command: the history ends with
    /// an unlock sequence.
    pub open spec fn completes_command(self) -> bool {
        history_ends_with(self.history, erase_sequence()) || history_ends_with(
            self.history,
            byte_program_sequence(),
        )
    }

    /// The bytes after a write that completes a command.
    pub open spec fn data_after_command(self, address: u32, value: u8) -> Seq<u8> {
        if history_ends_with(self.history, erase_sequence()) {
            if value == 0x50 {
                erased_range(
                    self.data,
                    (address as int / SECTOR_SIZE as int) * SECTOR_SIZE as int,
                    SECTOR_SIZE as int,
                )
            } else if value == 0x30 {
                erased_range(
                    self.data,
                    (address as int / BLOCK_SIZE as int) * BLOCK_SIZE as int,
                    BLOCK_SIZE as int,
                )
            } else if address == 0xAAA && value == 0x10 {
                erased_chip(self.data.len())
            } else {
                self.data
            }
        } else {
            self.data.update((address as int) % (self.data.len() as int), value)
        }
    }

    /// The chip after a write of `value` to `address`.
    ///
    /// A write that follows an unlock sequence is a command: it programs
    /// one byte or erases a sector, a block or the chip, empties the
    /// history and makes the chip report status at `address`. Any other
    /// write is remembered and ends a status report.
    pub open spec fn after_write(self, address: u32, value: u8) -> FlashView {
        if self.completes_command() {
            FlashView {
                data: self.data_after_command(address, value),
                read_mode: ReadMode::Status { address },
                history: history_empty(self.history.len()),
            }
        } else {
            FlashView {
                data: self.data,
                read_mode: ReadMode::Data,
                history: history_push(self.history, CommandWrite { address, value }),
            }
        }
    }
}

impl FlashView {
    /// The chip after the writes `writes`, in their order.
    pub open spec fn after_writes(self, writes: Seq<CommandWrite>) -> FlashView
        decreases writes.len(),
    {
        if writes.len() == 0 {
            self
        } else {
            self.after_writes(writes.drop_last()).after_write(
                writes.last().address,
                writes.last().value,
            )
        }
    }

    /// Whether the chip waits for the first write of a command: it has a
    /// history of `HISTORY` places, all empty.
    pub open spec fn idle(self) -> bool {
        self.history == history_empty(HISTORY as nat)
    }

    /// The chip after the unlock sequence of an erase and the write of
    /// `value` to `address` that names the erase.
    pub open spec fn after_erase_command(self, address: u32, value: u8) -> FlashView {
        self.after_writes(erase_sequence()).after_write(address, value)
    }

    /// The chip after the unlock sequence of a byte program and the
    /// write of `value` to `address`.
    pub open spec fn after_program_command(self, address: u32, value: u8) -> FlashView {
        self.after_writes(byte_program_sequence()).after_write(address, value)
    }
}

/// An idle chip that is written an unlock sequence remembers it, and
/// keeps its bytes.
pub proof fn lemma_unlock(chip: FlashView)
    requires
        chip.idle(),
    ensures
        history_ends_with(chip.after_writes(erase_sequence()).history, erase_sequence()),
        chip.after_writes(erase_sequence()).data == chip.data,
        history_ends_with(
            chip.after_writes(byte_program_sequence()).history,
            byte_program_sequence(),
        ),
        !history_ends_with(chip.after_writes(byte_program_sequence()).history, erase_sequence()),
        chip.after_writes(byte_program_sequence()).data == chip.data,
        chip.after_writes(erase_sequence()).history.len() == HISTORY,
        chip.after_writes(byte_program_sequence()).history.len() == HISTORY,
{
    let e = erase_sequence();
    let e4 = e.drop_last();
    let e3 = e4.drop_last();
    let e2 = e3.drop_last();
    let e1 = e2.drop_last();
    let e0 = e1.drop_last();
    assert(e0.len() == 0);
    reveal_with_fuel(FlashView::after_writes, 6);
    let c0 = chip.after_writes(e0);
    let c1 = chip.after_writes(e1);
    let c2 = chip.after_writes(e2);
    let c3 = chip.after_writes(e3);
    let c4 = chip.after_writes(e4);
    let c5 = chip.after_writes(e);
    assert(c0 == chip);
    assert(c0.history[0] is None);
    assert(!c0.completes_command());
    assert(c1.history[1] is None);
    assert(!c1.completes_command());
    assert(c2.history[2] is None);
    assert(!c2.completes_command()) by {
        assert(c2.history[0] == Some(CommandWrite { address: 0x555, value: 0x55 }));
    }
    assert(c3.history[0] == Some(CommandWrite { address: 0xAAA, value: 0x80 }));
    assert(c3.history[3] is None);
    assert(!c3.completes_command());
    assert(c4.history[0] == Some(CommandWrite { address: 0xAAA, value: 0xAA }));
    assert(c4.history[4] is None);
    assert(!c4.completes_command());
    assert(c1.history.len() == HISTORY);
    assert(c2.history.len() == HISTORY);
    assert(c3.history.len() == HISTORY);
    assert(c4.history.len() == HISTORY);
    assert(c5.history.len() == HISTORY);
    assert(c5.history[0] == Some(e[4]));
    assert(c5.history[1] == Some(e[3]));
    assert(c5.history[2] == Some(e[2]));
    assert(c5.history[3] == Some(e[1]));
    assert(c5.history[4] == Some(e[0]));
    let b = byte_program_sequence();
    let b2 = b.drop_last();
    let b1 = b2.drop_last();
    let b0 = b1.drop_last();
    assert(b0.len() == 0);
    let d1 = chip.after_writes(b1);
    let d2 = chip.after_writes(b2);
    let d3 = chip.after_writes(b);
    assert(chip.after_writes(b0) == chip);
    assert(d1.history[1] is None);
    assert(!d1.completes_command());
    assert(d2.history[2] is None);
    assert(!d2.completes_command()) by {
        assert(d2.history[0] == Some(CommandWrite { address: 0x555, value: 0x55 }));
    }
    assert(d1.history.len() == HISTORY);
    assert(d2.history.len() == HISTORY);
    assert(d3.history.len() == HISTORY);
    assert(d3.history[0] == Some(b[2]));
    assert(d3.history[1] == Some(b[1]));
    assert(d3.history[2] == Some(b[0]));
    assert(d3.history[3] is None);
}

/// A chip erase from an idle chip leaves every byte `0xFF` and the chip
/// idle, whatever it held.
pub proof fn lemma_chip_erase(chip: FlashView)
    requires
        chip.idle(),
    ensures
        chip.after_erase_command(0xAAA, 0x10).data == erased_chip(chip.data.len()),
        chip.after_erase_command(0xAAA, 0x10).idle(),
{
    lemma_unlock(chip);
}

/// Two chip erases in a row leave every byte `0xFF`.
pub proof fn lemma_chip_erase_twice(chip: FlashView)
    requires
        chip.idle(),
    ensures
        chip.after_erase_command(0xAAA, 0x10).after_erase_command(0xAAA, 0x10).data
            == erased_chip(chip.data.len()),
{
    lemma_chip_erase(chip);
    lemma_chip_erase(chip.after_erase_command(0xAAA, 0x10));
    assert(erased_chip(chip.data.len()).len() == chip.data.len());
}

/// A byte that is programmed and then erased with its sector holds
/// `0xFF`. A read of its address returns `0xFF` too, unless the erase was
/// named at that very address: there the chip reports its status.
pub proof fn lemma_program_then_sector_erase(
    chip: FlashView,
    address: u32,
    value: u8,
    erase_address: u32,
)
    requires
        chip.idle(),
        chip.data.len() == CHIP_CAPACITY,
        erase_address / 0x1000 == address / 0x1000,
    ensures
        chip.after_program_command(address, value).data[(address as int) % (
        CHIP_CAPACITY as int)] == value,
        chip.after_program_command(address, value).after_erase_command(
            erase_address,
            0x50,
        ).data[(address as int) % (CHIP_CAPACITY as int)] == 0xFF,
        erase_address != address ==> chip.after_program_command(
            address,
            value,
        ).after_erase_command(erase_address, 0x50).read_value(address) == 0xFF,
{
    lemma_unlock(chip);
    let programmed = chip.after_program_command(address, value);
    lemma_unlock(programmed);
    let len = CHIP_CAPACITY as int;
    let start = (erase_address as int / 0x1000) * 0x1000;
    let j = (address as int) % len;
    let i = address as int - start;
    assert(0 <= i < 0x1000);
    assert(j == (start + i) % len);
    lemma_offset_mod(j, start, i, len);
}

/// The flash chip.
pub struct Flash {
    data: Vec<u8>,
    read_mode: ReadMode,
    command_writes: RingBuf<HISTORY>,
}

impl View for Flash {
    type V = FlashView;

    closed spec fn view(&self) -> FlashView {
        FlashView {
            data: self.data@,
            read_mode: self.read_mode,
            history: self.command_writes@,
        }
    }
}

impl Flash {
    /// The chip holds all its bytes and a history of `HISTORY` places.
    pub closed spec fn inv(&self) -> bool {
        &&& self.data@.len() == CHIP_CAPACITY
        &&& self.command_writes.wf()
    }

    /// What follows from `inv` for the view.
    pub proof fn lemma_inv(&self)
        requires
            self.inv(),
        ensures
            self@.data.len() == CHIP_CAPACITY,
            self@.history.len() == HISTORY,
    {
    }

    /// The chip that holds `data` and has seen no write.
    pub open spec fn initial(data: Seq<u8>) -> FlashView {
        FlashView { data, read_mode: ReadMode::Data, history: history_empty(HISTORY as nat) }
    }

    /// A chip that holds `data`, which must be an image of the whole chip.
    pub fn new(data: &[u8]) -> (flash: Result<Self, String>)
        ensures
            flash.is_ok() <==> data@.len() == CHIP_CAPACITY,
            flash matches Ok(chip) ==> chip.inv() && chip@ == Self::initial(data@),
            flash matches Err(why) ==> why@ == "Flash invalid"@,
    {
        if data.len() != CHIP_CAPACITY {
            return Err("Flash invalid".to_string());
        }
        Ok(
            Flash {
                data: slice_to_vec(data),
                read_mode: ReadMode::Data,
                command_writes: RingBuf::new(),
            },
        )
    }

    /// The number of bytes in the chip.
    pub fn len() -> (n: usize)
        ensures
            n == CHIP_CAPACITY,
    {
        CHIP_CAPACITY
    }

    /// The byte stored at `address`, whatever the chip reports on the bus.
    pub fn stored(&self, address: usize) -> (value: u8)
        requires
            self.inv(),
        ensures
            value == self@.data[(address as int) % (CHIP_CAPACITY as int)],
    {
        self.data[address % CHIP_CAPACITY]
    }

    /// Sets `count` bytes from `start` on to `0xFF`.
    fn erase_range(&mut self, start: u64, count: u64)
        requires
            old(self).inv(),
            start + count <= u64::MAX,
            count <= CHIP_CAPACITY,
        ensures
            final(self).inv(),
            final(self)@ == (FlashView {
                data: erased_range(old(self)@.data, start as int, count as int),
                ..old(self)@
            }),
    {
        let mut i: u64 = 0;
        while i < count
            invariant
                i <= count,
                start + count <= u64::MAX,
                count <= CHIP_CAPACITY,
                self.inv(),
                self.read_mode == old(self).read_mode,
                self.command_writes == old(self).command_writes,
                self.data@ =~= erased_range(old(self).data@, start as int, i as int),
            decreases count - i,
        {
            let addr = ((start + i) % (CHIP_CAPACITY as u64)) as usize;
            let ghost before = self.data@;
            self.data[addr] = 0xFF;
            proof {
                let len = CHIP_CAPACITY as int;
                assert forall|j: int| 0 <= j < len implies #[trigger] self.data@[j]
                    == erased_range(old(self).data@, start as int, i as int + 1)[j] by {
                    assert(before[j] == erased_range(old(self).data@, start as int, i as int)[j]);
                    lemma_offset_mod(j, start as int, i as int, len);
                }
                assert(self.data@ =~= erased_range(old(self).data@, start as int, i as int + 1));
            }
            i = i + 1;
        }
    }

    fn sector_erase(&mut self, sector: u32)
        requires
            old(self).inv(),
        ensures
            final(self).inv(),
            final(self)@ == (FlashView {
                data: erased_range(
                    old(self)@.data,
                    sector as int * SECTOR_SIZE as int,
                    SECTOR_SIZE as int,
                ),
                ..old(self)@
            }),
    {
        let start: u64 = (sector as u64) * 0x1000;
        self.erase_range(start, 0x1000);
    }

    fn block_erase(&mut self, block: u32)
        requires
            old(self).inv(),
        ensures
            final(self).inv(),
            final(self)@ == (FlashView {
                data: erased_range(
                    old(self)@.data,
                    block as int * BLOCK_SIZE as int,
                    BLOCK_SIZE as int,
                ),
                ..old(self)@
            }),
    {
        let start: u64 = (block as u64) * 0x10000;
        self.erase_range(start, 0x10000);
    }

    fn chip_erase(&mut self)
        requires
            old(self).inv(),
        ensures
            final(self).inv(),
            final(self)@ == (FlashView {
                data: erased_chip(CHIP_CAPACITY as nat),
                ..old(self)@
            }),
    {
        let mut i: usize = 0;
        while i < CHIP_CAPACITY
            invariant
                i <= CHIP_CAPACITY,
                self.inv(),
                self.read_mode == old(self).read_mode,
                self.command_writes == old(self).command_writes,
                forall|j: int| 0 <= j < i ==> self.data@[j] == 0xFFu8,
            decreases CHIP_CAPACITY - i,
        {
            self.data[i] = 0xFF;
            i = i + 1;
        }
        assert(self.data@ =~= erased_chip(CHIP_CAPACITY as nat));
    }

    /// Stores `value` at `address`. The chip overwrites the byte.
    fn byte_program(&mut self, address: u32, value: u8)
        requires
            old(self).inv(),
        ensures
            final(self).inv(),
            final(self)@ == (FlashView {
                data: old(self)@.data.update((address as int) % (CHIP_CAPACITY as int), value),
                ..old(self)@
            }),
    {
        let at = (address as usize) % CHIP_CAPACITY;
        self.data[at] = value;
    }

    /// Ready, last operation passed.
    fn status_register(&self) -> (status: u8)
        ensures
            status == STATUS_READY,
    {
        0b1100_0000
    }
}

impl Flash {
    /// Returns the status register at the status address while the chip
    /// reports status, and the stored byte otherwise.
    pub fn read_u8(&mut self, address: u32) -> (value: u8)
        requires
            old(self).inv(),
        ensures
            final(self).inv(),
            value == old(self)@.read_value(address),
            final(self)@ == old(self)@.after_read(address),
    {
        match self.read_mode {
            ReadMode::Status { address: status_address } => {
                if address == status_address {
                    return self.status_register();
                }
            },
            ReadMode::Data => {},
        }
        self.read_mode = ReadMode::Data;
        self.data[(address as usize) % CHIP_CAPACITY]
    }

    /// Takes one write from the bus: a command after its unlock sequence,
    /// else one more entry of the history.
    pub fn write_u8(&mut self, address: u32, value: u8)
        requires
            old(self).inv(),
        ensures
            final(self).inv(),
            final(self)@ == old(self)@.after_write(address, value),
    {
        let erase = [
            CommandWrite { address: 0xAAA, value: 0xAA },
            CommandWrite { address: 0x555, value: 0x55 },
            CommandWrite { address: 0xAAA, value: 0x80 },
            CommandWrite { address: 0xAAA, value: 0xAA },
            CommandWrite { address: 0x555, value: 0x55 },
        ];
        let byte_program = [
            CommandWrite { address: 0xAAA, value: 0xAA },
            CommandWrite { address: 0x555, value: 0x55 },
            CommandWrite { address: 0xAAA, value: 0xA0 },
        ];
        assert(erase@ =~= erase_sequence());
        assert(byte_program@ =~= byte_program_sequence());
        let mut command_handled = true;
        if self.command_writes.ends_with(erase.as_slice()) {
            if value == 0x50 {
                self.sector_erase(address / (SECTOR_SIZE as u32));
            } else if value == 0x30 {
                self.block_erase(address / (BLOCK_SIZE as u32));
            } else if address == 0xAAA && value == 0x10 {
                self.chip_erase();
            }
        } else if self.command_writes.ends_with(byte_program.as_slice()) {
            self.byte_program(address, value);
        } else {
            self.command_writes.push(CommandWrite { address, value });
            self.read_mode = ReadMode::Data;
            command_handled = false;
        }
        if command_handled {
            self.read_mode = ReadMode::Status { address };
            self.command_writes.clear();
        }
    }
}

impl AddressSpace for Flash {
    type Model = FlashView;

    open spec fn model(&self) -> FlashView {
        self@
    }

    open spec fn wf(&self) -> bool {
        self.inv()
    }

    open spec fn read_value(model: FlashView, address: u32) -> u8 {
        model.read_value(address)
    }

    open spec fn after_read(model: FlashView, address: u32) -> FlashView {
        model.after_read(address)
    }

    open spec fn after_write(model: FlashView, address: u32, value: u8) -> FlashView {
        model.after_write(address, value)
    }

    fn read_u8(&mut self, address: u32) -> (value: u8) {
        Flash::read_u8(self, address)
    }

    fn write_u8(&mut self, address: u32, value: u8) {
        Flash::write_u8(self, address, value)
    }
}

} // verus!
