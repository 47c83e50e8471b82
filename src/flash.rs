//! Flash-controller driver logic: geometry under the two bank modes, the
//! status surface, and the unlock, page-erase and doubleword-programming
//! sequences as state machines. Each machine answers a register value (or
//! the completion of a write) with the next register access to perform.

use vstd::prelude::*;
use crate::layout::{DUAL_BANK_PAGE_SIZE, FLASH_SIZE, METADATA_SIZE, SINGLE_BANK_PAGE_SIZE};
use crate::metadata::{read_u32_le, struct_to_bytes, u32_from_le, Metadata};

verus! {

/// Errors of the flash controller.
#[derive(Clone, Copy, Debug, PartialEq, Eq, Structural)]
pub enum Error {
    /// The key sequence did not clear the lock bit; only a reset helps.
    UnlockFailed,
    /// The controller is still busy.
    Busy,
    /// A programming or protection error was flagged.
    Illegal,
    /// The page number is beyond the current geometry.
    InvalidPage,
}

/// First unlock key.
pub const FLASH_KEY1: u32 = 0x4567_0123;
/// Second unlock key.
pub const FLASH_KEY2: u32 = 0xCDEF_89AB;

/// Option register: dual-bank mode (bit 22).
pub const OPTR_DBANK: u32 = 0x40_0000;

/// Status register: end of operation.
pub const SR_EOP: u32 = 0x1;
/// Status register: programming error.
pub const SR_PROGERR: u32 = 0x8;
/// Status register: write protection error.
pub const SR_WRPERR: u32 = 0x10;
/// Status register: programming alignment error.
pub const SR_PGAERR: u32 = 0x20;
/// Status register: size error.
pub const SR_SIZERR: u32 = 0x40;
/// Status register: programming sequence error.
pub const SR_PGSERR: u32 = 0x80;
/// Status register: fast programming data miss error.
pub const SR_MISERR: u32 = 0x100;
/// Status register: fast programming error.
pub const SR_FASTERR: u32 = 0x200;
/// Status register: busy.
pub const SR_BSY: u32 = 0x1_0000;

/// Every programming-error flag; each is cleared by writing a one to it.
pub const PROGRAMMING_ERROR_FLAGS: u32 = SR_PROGERR | SR_SIZERR | SR_PGAERR | SR_PGSERR | SR_WRPERR
    | SR_MISERR | SR_FASTERR;

/// Control register: programming enable.
pub const CR_PG: u32 = 0x1;
/// Control register: page erase enable.
pub const CR_PER: u32 = 0x2;
/// Control register: the page-number field, bits 3 to 10.
pub const CR_PNB_MASK: u32 = 0x7F8;
/// Control register: bank selector for page erase.
pub const CR_BKER: u32 = 0x800;
/// Control register: start an erase.
pub const CR_START: u32 = 0x1_0000;
/// Control register: lock.
pub const CR_LOCK: u32 = 0x8000_0000;

/// Pages in one bank in dual-bank mode.
pub const PAGES_PER_BANK: u32 = 256;

pub open spec fn page_size_spec(dualbank: bool) -> u32 {
    if dualbank {
        DUAL_BANK_PAGE_SIZE
    } else {
        SINGLE_BANK_PAGE_SIZE
    }
}

/// Number of pages under a geometry.
pub open spec fn page_count_spec(dualbank: bool) -> u32 {
    if dualbank {
        512
    } else {
        256
    }
}

/// The status surface: busy first, then any of the three programming
/// errors, otherwise no error.
pub open spec fn status_spec(sr: u32) -> Result<(), Error> {
    if sr & SR_BSY != 0 {
        Err(Error::Busy)
    } else if sr & (SR_PGAERR | SR_PROGERR | SR_WRPERR) != 0 {
        Err(Error::Illegal)
    } else {
        Ok(())
    }
}

/// The control-register bits an erase of `page_number` sets: page erase,
/// the page within its bank, and in dual-bank mode the bank.
pub open spec fn erase_bits_spec(page_number: u32, dualbank: bool) -> u32 {
    if dualbank {
        CR_PER | (((page_number % PAGES_PER_BANK) << 3u32) & CR_PNB_MASK) | (if page_number
            / PAGES_PER_BANK == 1 {
            CR_BKER
        } else {
            0
        })
    } else {
        CR_PER | ((page_number << 3u32) & CR_PNB_MASK)
    }
}

/// A flash controller in one of its two geometries, which the option
/// register fixes.
#[derive(Clone, Copy, Debug, PartialEq, Eq, Structural)]
pub struct Flash {
    pub dualbank: bool,
}

impl Flash {
    /// Map a status-register value to the driver's status.
    pub fn status(sr: u32) -> (r: Result<(), Error>)
        ensures
            r == status_spec(sr),
    {
        if sr & SR_BSY != 0 {
            Err(Error::Busy)
        } else if sr & (SR_PGAERR | SR_PROGERR | SR_WRPERR) != 0 {
            Err(Error::Illegal)
        } else {
            Ok(())
        }
    }

    /// One poll of a wait until idle: `None` while the status register
    /// shows busy, else the status it shows.
    pub fn wait(sr: u32) -> (r: Option<Result<(), Error>>)
        ensures
            r == (if sr & SR_BSY != 0 {
                None
            } else {
                Some(status_spec(sr))
            }),
    {
        if sr & SR_BSY != 0 {
            None
        } else {
            Some(Flash::status(sr))
        }
    }

    /// The driver for a controller whose option register reads `optr`.
    pub fn new(optr: u32) -> (r: Flash)
        ensures
            r.dualbank == (optr & OPTR_DBANK != 0),
    {
        Flash { dualbank: optr & OPTR_DBANK != 0 }
    }

    /// Dual-bank mode is on (bit 22 of the option register).
    pub fn is_dualbank(&self) -> (r: bool)
        ensures
            r == self.dualbank,
    {
        self.dualbank
    }

    /// 4 KiB in dual-bank mode, 8 KiB in single-bank mode.
    pub fn page_size(&self) -> (r: u32)
        ensures
            r == page_size_spec(self.dualbank),
    {
        if self.dualbank {
            DUAL_BANK_PAGE_SIZE
        } else {
            SINGLE_BANK_PAGE_SIZE
        }
    }

    /// The page that holds `address`.
    pub fn address_to_page_number(&self, address: u32) -> (r: u32)
        requires
            address < FLASH_SIZE,
        ensures
            r == address / page_size_spec(self.dualbank),
            r < page_count_spec(self.dualbank),
    {
        if self.dualbank {
            address / DUAL_BANK_PAGE_SIZE
        } else {
            address / SINGLE_BANK_PAGE_SIZE
        }
    }

    /// Start the unlock sequence.
    pub fn unlock_flash(&self) -> (r: (Unlock, FlashAction))
        ensures
            r.0 == (Unlock { phase: UnlockPhase::SecondKey, result: Ok(()) }),
            r.1 == FlashAction::WriteKey(FLASH_KEY1),
    {
        (Unlock { phase: UnlockPhase::SecondKey, result: Ok(()) }, FlashAction::WriteKey(FLASH_KEY1))
    }

    /// The access that locks the controller again.
    pub fn lock_flash(&self) -> (r: FlashAction)
        ensures
            r == (FlashAction::ModifyControl { set: CR_LOCK, clear: 0 }),
    {
        FlashAction::ModifyControl { set: CR_LOCK, clear: 0 }
    }

    /// Start erasing page `page_number`.
    pub fn erase_page(&self, page_number: u32) -> (r: (ErasePage, FlashAction))
        ensures
            r.0 == (ErasePage {
                page_number,
                dualbank: self.dualbank,
                phase: ErasePhase::WaitBefore,
                result: Ok(()),
            }),
            r.1 == FlashAction::ReadStatus,
    {
        (
            ErasePage {
                page_number,
                dualbank: self.dualbank,
                phase: ErasePhase::WaitBefore,
                result: Ok(()),
            },
            FlashAction::ReadStatus,
        )
    }

    /// Start programming `words` at `address`, each as its low then its
    /// high 32-bit half. The target must have been erased.
    pub fn write_dwords(&self, address: u32, words: Vec<u64>) -> (r: (WriteDwords, FlashAction))
        requires
            address + 8 * words@.len() <= u32::MAX,
        ensures
            r.0.wf(),
            r.0.words == words,
            r.0.start == address,
            r.0.index == 0,
            r.0.phase == WritePhase::WaitBefore,
            r.0.result == Ok::<(), Error>(()),
            r.1 == FlashAction::ReadStatus,
    {
        (
            WriteDwords { start: address, words, index: 0, phase: WritePhase::WaitBefore, result: Ok(()) },
            FlashAction::ReadStatus,
        )
    }

    /// Start a metadata repair session: unlock, erase the page that holds
    /// `addr`, program the block's eight doublewords at `addr`, and lock
    /// again on every path.
    pub fn repair_metadata(&self, addr: u32, meta: &Metadata) -> (r: (RepairMetadata, FlashAction))
        requires
            addr < FLASH_SIZE,
            addr % 8 == 0,
        ensures
            r.0.wf(),
            r.0.phase == RepairPhase::Unlocking,
            r.0.result == Ok::<(), Error>(()),
            r.0.unlock == (Unlock { phase: UnlockPhase::SecondKey, result: Ok(()) }),
            r.0.erase == (ErasePage {
                page_number: addr / page_size_spec(self.dualbank),
                dualbank: self.dualbank,
                phase: ErasePhase::WaitBefore,
                result: Ok(()),
            }),
            r.0.program.start == addr,
            r.0.program.index == 0,
            r.0.program.phase == WritePhase::WaitBefore,
            r.0.program.result == Ok::<(), Error>(()),
            words_of_block(r.0.program.words@, *meta),
            r.1 == FlashAction::WriteKey(FLASH_KEY1),
    {
        let (unlock, first) = self.unlock_flash();
        let (erase, _) = self.erase_page(self.address_to_page_number(addr));
        let (program, _) = self.write_dwords(addr, metadata_words(meta));
        (RepairMetadata { phase: RepairPhase::Unlocking, unlock, erase, program, result: Ok(()) }, first)
    }
}

/// `w` holds the wire form of `m` as eight little-endian doublewords.
pub open spec fn words_of_block(w: Seq<u64>, m: Metadata) -> bool {
    &&& w.len() == 8
    &&& forall|i: int|
        0 <= i < 8 ==> low_half(#[trigger] w[i]) == u32_from_le(m.spec_bytes(), 8 * i) && high_half(
            w[i],
        ) == u32_from_le(m.spec_bytes(), 8 * i + 4)
}

/// The eight doublewords of a block's wire form, little-endian.
pub fn metadata_words(m: &Metadata) -> (r: Vec<u64>)
    ensures
        words_of_block(r@, *m),
{
    let bytes = struct_to_bytes(m);
    let mut r: Vec<u64> = Vec::new();
    let mut i: usize = 0;
    while i < 8
        invariant
            i <= 8,
            bytes@ == m.spec_bytes(),
            bytes@.len() == METADATA_SIZE,
            r@.len() == i,
            forall|j: int|
                0 <= j < i ==> low_half(#[trigger] r@[j]) == u32_from_le(m.spec_bytes(), 8 * j)
                    && high_half(r@[j]) == u32_from_le(m.spec_bytes(), 8 * j + 4),
        decreases 8 - i,
    {
        let lo = read_u32_le(bytes.as_slice(), 8 * i);
        let hi = read_u32_le(bytes.as_slice(), 8 * i + 4);
        let w: u64 = (lo as u64) | ((hi as u64) << 32u64);
        assert(low_half(w) == lo && high_half(w) == hi) by (bit_vector)
            requires
                w == (lo as u64) | ((hi as u64) << 32u64),
        ;
        r.push(w);
        i = i + 1;
    }
    r
}

/// A register access for the device to perform.
#[derive(Clone, Copy, Debug, PartialEq, Eq)]
pub enum FlashAction {
    /// Read the status register and report it as `FlashEvent::Status`.
    ReadStatus,
    /// Write a key to the key register.
    WriteKey(u32),
    /// Read the control register and report it as `FlashEvent::Control`.
    ReadControl,
    /// Write ones to every programming-error flag of the status register.
    ClearErrorFlags,
    /// Read-modify-write of the control register.
    ModifyControl { set: u32, clear: u32 },
    /// Volatile 32-bit store into flash.
    WriteWord { address: u32, value: u32 },
    /// Write a one to the end-of-operation flag.
    ClearEndOfOperation,
    /// The operation is over.
    Finish(Result<(), Error>),
}

/// What the device reports after performing an action.
#[derive(Clone, Copy, Debug, PartialEq, Eq, Structural)]
pub enum FlashEvent {
    /// The value of the status register.
    Status(u32),
    /// The value of the control register.
    Control(u32),
    /// A write has been performed.
    Written,
}

#[derive(Clone, Copy, Debug, PartialEq, Eq, Structural)]
pub enum UnlockPhase {
    SecondKey,
    Check,
    Finished,
}

/// The unlock sequence: both keys in order, then the lock bit must read clear.
#[derive(Clone, Copy, Debug, PartialEq, Eq)]
pub struct Unlock {
    pub phase: UnlockPhase,
    /// Outcome, once the lock bit has been read.
    pub result: Result<(), Error>,
}

impl Unlock {
    pub open spec fn next_spec(self, event: FlashEvent) -> (Unlock, FlashAction) {
        match self.phase {
            UnlockPhase::SecondKey => (
                Unlock { phase: UnlockPhase::Check, ..self },
                FlashAction::WriteKey(FLASH_KEY2),
            ),
            UnlockPhase::Check => match event {
                FlashEvent::Control(cr) => {
                    let r = if cr & CR_LOCK == 0 {
                        Ok(())
                    } else {
                        Err(Error::UnlockFailed)
                    };
                    (Unlock { phase: UnlockPhase::Finished, result: r }, FlashAction::Finish(r))
                },
                _ => (self, FlashAction::ReadControl),
            },
            UnlockPhase::Finished => (self, FlashAction::Finish(self.result)),
        }
    }

    /// Advance after the previous action: the second key follows the first,
    /// then the control register is read; the lock bit clear means success.
    pub fn step(&mut self, event: FlashEvent) -> (a: FlashAction)
        ensures
            (*final(self), a) == old(self).next_spec(event),
    {
        match self.phase {
            UnlockPhase::SecondKey => {
                self.phase = UnlockPhase::Check;
                FlashAction::WriteKey(FLASH_KEY2)
            },
            UnlockPhase::Check => match event {
                FlashEvent::Control(cr) => {
                    self.phase = UnlockPhase::Finished;
                    self.result = if cr & CR_LOCK == 0 {
                        Ok(())
                    } else {
                        Err(Error::UnlockFailed)
                    };
                    FlashAction::Finish(self.result)
                },
                _ => FlashAction::ReadControl,
            },
            UnlockPhase::Finished => FlashAction::Finish(self.result),
        }
    }
}

#[derive(Clone, Copy, Debug, PartialEq, Eq, Structural)]
pub enum ErasePhase {
    /// Waiting for the controller to be idle before starting.
    WaitBefore,
    /// Error flags are being cleared.
    Clearing,
    /// Page erase, bank and page number are being configured.
    Configuring,
    /// The start bit is being set.
    Starting,
    /// Waiting for the erase to finish.
    WaitAfter,
    /// Page erase is being disabled again.
    Disabling,
    Finished,
}

/// The page-erase sequence.
#[derive(Clone, Copy, Debug, PartialEq, Eq)]
pub struct ErasePage {
    pub page_number: u32,
    pub dualbank: bool,
    pub phase: ErasePhase,
    /// Status observed once the erase finished.
    pub result: Result<(), Error>,
}

impl ErasePage {
    pub open spec fn next_spec(self, event: FlashEvent) -> (ErasePage, FlashAction) {
        match self.phase {
            ErasePhase::WaitBefore => match event {
                FlashEvent::Status(sr) => if sr & SR_BSY != 0 {
                    (self, FlashAction::ReadStatus)
                } else if status_spec(sr) is Err {
                    (
                        ErasePage { phase: ErasePhase::Finished, result: status_spec(sr), ..self },
                        FlashAction::Finish(status_spec(sr)),
                    )
                } else {
                    (ErasePage { phase: ErasePhase::Clearing, ..self }, FlashAction::ClearErrorFlags)
                },
                _ => (self, FlashAction::ReadStatus),
            },
            ErasePhase::Clearing => if self.page_number >= page_count_spec(self.dualbank) {
                (
                    ErasePage {
                        phase: ErasePhase::Finished,
                        result: Err(Error::InvalidPage),
                        ..self
                    },
                    FlashAction::Finish(Err(Error::InvalidPage)),
                )
            } else {
                (
                    ErasePage { phase: ErasePhase::Configuring, ..self },
                    FlashAction::ModifyControl {
                        set: erase_bits_spec(self.page_number, self.dualbank),
                        clear: CR_PNB_MASK | CR_BKER,
                    },
                )
            },
            ErasePhase::Configuring => (
                ErasePage { phase: ErasePhase::Starting, ..self },
                FlashAction::ModifyControl { set: CR_START, clear: 0 },
            ),
            ErasePhase::Starting => (
                ErasePage { phase: ErasePhase::WaitAfter, ..self },
                FlashAction::ReadStatus,
            ),
            ErasePhase::WaitAfter => match event {
                FlashEvent::Status(sr) => if sr & SR_BSY != 0 {
                    (self, FlashAction::ReadStatus)
                } else {
                    (
                        ErasePage { phase: ErasePhase::Disabling, result: status_spec(sr), ..self },
                        FlashAction::ModifyControl { set: 0, clear: CR_PER },
                    )
                },
                _ => (self, FlashAction::ReadStatus),
            },
            ErasePhase::Disabling => (
                ErasePage { phase: ErasePhase::Finished, ..self },
                FlashAction::Finish(self.result),
            ),
            ErasePhase::Finished => (self, FlashAction::Finish(self.result)),
        }
    }

    fn erase_bits(&self) -> (r: u32)
        ensures
            r == erase_bits_spec(self.page_number, self.dualbank),
    {
        if self.dualbank {
            let bank = self.page_number / PAGES_PER_BANK;
            let in_bank = self.page_number % PAGES_PER_BANK;
            CR_PER | ((in_bank << 3u32) & CR_PNB_MASK) | (if bank == 1 {
                CR_BKER
            } else {
                0
            })
        } else {
            CR_PER | ((self.page_number << 3u32) & CR_PNB_MASK)
        }
    }

    /// Advance after the previous action: wait until idle (an error there
    /// ends the erase), clear the error flags, reject a page beyond the
    /// geometry, configure page erase with bank and page number, start,
    /// wait until idle and record the status, disable page erase, and
    /// report the recorded status.
    pub fn step(&mut self, event: FlashEvent) -> (a: FlashAction)
        ensures
            (*final(self), a) == old(self).next_spec(event),
    {
        match self.phase {
            ErasePhase::WaitBefore => match event {
                FlashEvent::Status(sr) => {
                    if sr & SR_BSY != 0 {
                        FlashAction::ReadStatus
                    } else {
                        let s = Flash::status(sr);
                        if s.is_err() {
                            self.phase = ErasePhase::Finished;
                            self.result = s;
                            FlashAction::Finish(s)
                        } else {
                            self.phase = ErasePhase::Clearing;
                            FlashAction::ClearErrorFlags
                        }
                    }
                },
                _ => FlashAction::ReadStatus,
            },
            ErasePhase::Clearing => {
                let count: u32 = if self.dualbank {
                    512
                } else {
                    256
                };
                if self.page_number >= count {
                    self.phase = ErasePhase::Finished;
                    self.result = Err(Error::InvalidPage);
                    FlashAction::Finish(Err(Error::InvalidPage))
                } else {
                    self.phase = ErasePhase::Configuring;
                    FlashAction::ModifyControl { set: self.erase_bits(), clear: CR_PNB_MASK | CR_BKER }
                }
            },
            ErasePhase::Configuring => {
                self.phase = ErasePhase::Starting;
                FlashAction::ModifyControl { set: CR_START, clear: 0 }
            },
            ErasePhase::Starting => {
                self.phase = ErasePhase::WaitAfter;
                FlashAction::ReadStatus
            },
            ErasePhase::WaitAfter => match event {
                FlashEvent::Status(sr) => {
                    if sr & SR_BSY != 0 {
                        FlashAction::ReadStatus
                    } else {
                        self.phase = ErasePhase::Disabling;
                        self.result = Flash::status(sr);
                        FlashAction::ModifyControl { set: 0, clear: CR_PER }
                    }
                },
                _ => FlashAction::ReadStatus,
            },
            ErasePhase::Disabling => {
                self.phase = ErasePhase::Finished;
                FlashAction::Finish(self.result)
            },
            ErasePhase::Finished => FlashAction::Finish(self.result),
        }
    }
}

#[derive(Clone, Copy, Debug, PartialEq, Eq, Structural)]
pub enum WritePhase {
    /// Waiting for the controller to be idle before starting.
    WaitBefore,
    /// Error flags are being cleared.
    Clearing,
    /// Programming is being enabled.
    Enabling,
    /// The low half of the current doubleword is being stored.
    WritingLow,
    /// The high half of the current doubleword is being stored.
    WritingHigh,
    /// Waiting for the doubleword to be programmed.
    WaitWord,
    /// The end-of-operation flag is being cleared.
    ClearingEop,
    /// Programming is being disabled.
    Disabling,
    Finished,
}

/// The doubleword-programming sequence.
pub struct WriteDwords {
    /// Flash address of the first doubleword.
    pub start: u32,
    pub words: Vec<u64>,
    /// Index of the doubleword being programmed.
    pub index: usize,
    pub phase: WritePhase,
    /// Outcome so far; an error stops the programming.
    pub result: Result<(), Error>,
}

/// Low 32 bits of a doubleword.
pub open spec fn low_half(d: u64) -> u32 {
    (d & 0xFFFF_FFFF) as u32
}

/// High 32 bits of a doubleword.
pub open spec fn high_half(d: u64) -> u32 {
    (d >> 32u64) as u32
}

impl WriteDwords {
    pub open spec fn wf(self) -> bool {
        &&& self.start + 8 * self.words@.len() <= u32::MAX
        &&& self.index <= self.words@.len()
        &&& (self.phase == WritePhase::WritingLow || self.phase == WritePhase::WritingHigh
            || self.phase == WritePhase::WaitWord || self.phase == WritePhase::ClearingEop)
            ==> self.index < self.words@.len()
    }

    /// Address of doubleword `i`.
    pub open spec fn address_of(self, i: int) -> u32 {
        (self.start + 8 * i) as u32
    }

    /// Begin doubleword `index` with its low half, or disable programming
    /// when every doubleword is done.
    pub open spec fn begin_word_spec(self, index: int) -> (WriteDwords, FlashAction) {
        if index < self.words@.len() {
            (
                WriteDwords { index: index as usize, phase: WritePhase::WritingLow, ..self },
                FlashAction::WriteWord {
                    address: self.address_of(index),
                    value: low_half(self.words@[index]),
                },
            )
        } else {
            (
                WriteDwords { index: index as usize, phase: WritePhase::Disabling, ..self },
                FlashAction::ModifyControl { set: 0, clear: CR_PG },
            )
        }
    }

    pub open spec fn next_spec(self, event: FlashEvent) -> (WriteDwords, FlashAction) {
        match self.phase {
            WritePhase::WaitBefore => match event {
                FlashEvent::Status(sr) => if sr & SR_BSY != 0 {
                    (self, FlashAction::ReadStatus)
                } else if status_spec(sr) is Err {
                    (
                        WriteDwords { phase: WritePhase::Finished, result: status_spec(sr), ..self },
                        FlashAction::Finish(status_spec(sr)),
                    )
                } else {
                    (WriteDwords { phase: WritePhase::Clearing, ..self }, FlashAction::ClearErrorFlags)
                },
                _ => (self, FlashAction::ReadStatus),
            },
            WritePhase::Clearing => (
                WriteDwords { phase: WritePhase::Enabling, ..self },
                FlashAction::ModifyControl { set: CR_PG, clear: 0 },
            ),
            WritePhase::Enabling => self.begin_word_spec(0),
            WritePhase::WritingLow => (
                WriteDwords { phase: WritePhase::WritingHigh, ..self },
                FlashAction::WriteWord {
                    address: (self.address_of(self.index as int) + 4) as u32,
                    value: high_half(self.words@[self.index as int]),
                },
            ),
            WritePhase::WritingHigh => (
                WriteDwords { phase: WritePhase::WaitWord, ..self },
                FlashAction::ReadStatus,
            ),
            WritePhase::WaitWord => match event {
                FlashEvent::Status(sr) => if sr & SR_BSY != 0 {
                    (self, FlashAction::ReadStatus)
                } else if status_spec(sr) is Err {
                    (
                        WriteDwords { phase: WritePhase::Disabling, result: status_spec(sr), ..self },
                        FlashAction::ModifyControl { set: 0, clear: CR_PG },
                    )
                } else if sr & SR_EOP != 0 {
                    (
                        WriteDwords { phase: WritePhase::ClearingEop, ..self },
                        FlashAction::ClearEndOfOperation,
                    )
                } else {
                    self.begin_word_spec(self.index + 1)
                },
                _ => (self, FlashAction::ReadStatus),
            },
            WritePhase::ClearingEop => self.begin_word_spec(self.index + 1),
            WritePhase::Disabling => (
                WriteDwords { phase: WritePhase::Finished, ..self },
                FlashAction::Finish(self.result),
            ),
            WritePhase::Finished => (self, FlashAction::Finish(self.result)),
        }
    }

    fn begin_word(&mut self, index: usize) -> (a: FlashAction)
        requires
            old(self).start + 8 * old(self).words@.len() <= u32::MAX,
            index <= old(self).words@.len(),
        ensures
            (*final(self), a) == old(self).begin_word_spec(index as int),
    {
        self.index = index;
        if index < self.words.len() {
            self.phase = WritePhase::WritingLow;
            let d = self.words[index];
            FlashAction::WriteWord {
                address: self.start + 8 * (index as u32),
                value: (d & 0xFFFF_FFFF) as u32,
            }
        } else {
            self.phase = WritePhase::Disabling;
            FlashAction::ModifyControl { set: 0, clear: CR_PG }
        }
    }

    /// Advance after the previous action: wait until idle (an error ends
    /// the sequence before anything is enabled), clear the error flags,
    /// enable programming; for each doubleword store the low half, then the
    /// high half four bytes above, wait until idle and clear the
    /// end-of-operation flag when it is set; an error while waiting stops
    /// the programming. Programming is disabled before the outcome is
    /// reported, on success and on error alike.
    pub fn step(&mut self, event: FlashEvent) -> (a: FlashAction)
        requires
            old(self).wf(),
        ensures
            final(self).wf(),
            (*final(self), a) == old(self).next_spec(event),
    {
        match self.phase {
            WritePhase::WaitBefore => match event {
                FlashEvent::Status(sr) => {
                    if sr & SR_BSY != 0 {
                        FlashAction::ReadStatus
                    } else {
                        let s = Flash::status(sr);
                        if s.is_err() {
                            self.phase = WritePhase::Finished;
                            self.result = s;
                            FlashAction::Finish(s)
                        } else {
                            self.phase = WritePhase::Clearing;
                            FlashAction::ClearErrorFlags
                        }
                    }
                },
                _ => FlashAction::ReadStatus,
            },
            WritePhase::Clearing => {
                self.phase = WritePhase::Enabling;
                FlashAction::ModifyControl { set: CR_PG, clear: 0 }
            },
            WritePhase::Enabling => self.begin_word(0),
            WritePhase::WritingLow => {
                self.phase = WritePhase::WritingHigh;
                let d = self.words[self.index];
                FlashAction::WriteWord {
                    address: self.start + 8 * (self.index as u32) + 4,
                    value: (d >> 32u64) as u32,
                }
            },
            WritePhase::WritingHigh => {
                self.phase = WritePhase::WaitWord;
                FlashAction::ReadStatus
            },
            WritePhase::WaitWord => match event {
                FlashEvent::Status(sr) => {
                    if sr & SR_BSY != 0 {
                        FlashAction::ReadStatus
                    } else {
                        let s = Flash::status(sr);
                        if s.is_err() {
                            self.phase = WritePhase::Disabling;
                            self.result = s;
                            FlashAction::ModifyControl { set: 0, clear: CR_PG }
                        } else if sr & SR_EOP != 0 {
                            self.phase = WritePhase::ClearingEop;
                            FlashAction::ClearEndOfOperation
                        } else {
                            let next = self.index + 1;
                            self.begin_word(next)
                        }
                    }
                },
                _ => FlashAction::ReadStatus,
            },
            WritePhase::ClearingEop => {
                let next = self.index + 1;
                self.begin_word(next)
            },
            WritePhase::Disabling => {
                self.phase = WritePhase::Finished;
                FlashAction::Finish(self.result)
            },
            WritePhase::Finished => FlashAction::Finish(self.result),
        }
    }
}

#[derive(Clone, Copy, Debug, PartialEq, Eq, Structural)]
pub enum RepairPhase {
    Unlocking,
    Erasing,
    Programming,
    /// The lock has been requested; the outcome follows.
    Locking,
    Finished,
}

/// A metadata repair session: unlock, erase the page, program the block,
/// lock. A failure at any stage skips the rest but still locks.
pub struct RepairMetadata {
    pub phase: RepairPhase,
    pub unlock: Unlock,
    pub erase: ErasePage,
    pub program: WriteDwords,
    /// Outcome of the first stage that failed, or success.
    pub result: Result<(), Error>,
}

/// The access that locks the controller.
pub open spec fn lock_action() -> FlashAction {
    FlashAction::ModifyControl { set: CR_LOCK, clear: 0 }
}

impl RepairMetadata {
    pub open spec fn wf(self) -> bool {
        self.program.wf()
    }

    pub open spec fn next_spec(self, event: FlashEvent) -> (RepairMetadata, FlashAction) {
        match self.phase {
            RepairPhase::Unlocking => {
                let (u, a) = self.unlock.next_spec(event);
                match a {
                    FlashAction::Finish(r) => if r is Ok {
                        (
                            RepairMetadata { phase: RepairPhase::Erasing, unlock: u, ..self },
                            FlashAction::ReadStatus,
                        )
                    } else {
                        (
                            RepairMetadata { phase: RepairPhase::Locking, unlock: u, result: r, ..self },
                            lock_action(),
                        )
                    },
                    _ => (RepairMetadata { unlock: u, ..self }, a),
                }
            },
            RepairPhase::Erasing => {
                let (e, a) = self.erase.next_spec(event);
                match a {
                    FlashAction::Finish(r) => if r is Ok {
                        (
                            RepairMetadata { phase: RepairPhase::Programming, erase: e, ..self },
                            FlashAction::ReadStatus,
                        )
                    } else {
                        (
                            RepairMetadata { phase: RepairPhase::Locking, erase: e, result: r, ..self },
                            lock_action(),
                        )
                    },
                    _ => (RepairMetadata { erase: e, ..self }, a),
                }
            },
            RepairPhase::Programming => {
                let (p, a) = self.program.next_spec(event);
                match a {
                    FlashAction::Finish(r) => (
                        RepairMetadata { phase: RepairPhase::Locking, program: p, result: r, ..self },
                        lock_action(),
                    ),
                    _ => (RepairMetadata { program: p, ..self }, a),
                }
            },
            RepairPhase::Locking => (
                RepairMetadata { phase: RepairPhase::Finished, ..self },
                FlashAction::Finish(self.result),
            ),
            RepairPhase::Finished => (self, FlashAction::Finish(self.result)),
        }
    }

    /// Advance after the previous action. The unlock, erase and program
    /// sequences run in turn, each starting once the previous one has
    /// succeeded; the first failure, or the end of programming, requests the
    /// lock, and the outcome is reported after it.
    pub fn step(&mut self, event: FlashEvent) -> (a: FlashAction)
        requires
            old(self).wf(),
        ensures
            final(self).wf(),
            (*final(self), a) == old(self).next_spec(event),
    {
        match self.phase {
            RepairPhase::Unlocking => {
                let a = self.unlock.step(event);
                match a {
                    FlashAction::Finish(r) => {
                        if r.is_ok() {
                            self.phase = RepairPhase::Erasing;
                            FlashAction::ReadStatus
                        } else {
                            self.phase = RepairPhase::Locking;
                            self.result = r;
                            FlashAction::ModifyControl { set: CR_LOCK, clear: 0 }
                        }
                    },
                    _ => a,
                }
            },
            RepairPhase::Erasing => {
                let a = self.erase.step(event);
                match a {
                    FlashAction::Finish(r) => {
                        if r.is_ok() {
                            self.phase = RepairPhase::Programming;
                            FlashAction::ReadStatus
                        } else {
                            self.phase = RepairPhase::Locking;
                            self.result = r;
                            FlashAction::ModifyControl { set: CR_LOCK, clear: 0 }
                        }
                    },
                    _ => a,
                }
            },
            RepairPhase::Programming => {
                let a = self.program.step(event);
                match a {
                    FlashAction::Finish(r) => {
                        self.phase = RepairPhase::Locking;
                        self.result = r;
                        FlashAction::ModifyControl { set: CR_LOCK, clear: 0 }
                    },
                    _ => a,
                }
            },
            RepairPhase::Locking => {
                self.phase = RepairPhase::Finished;
                FlashAction::Finish(self.result)
            },
            RepairPhase::Finished => FlashAction::Finish(self.result),
        }
    }
}

/// A repair session never reports its outcome without locking: a step
/// reports `Finish` only from the locking phase or after it, the step that
/// enters the locking phase is the lock request itself, and the session
/// reaches its end only through the locking phase.
pub proof fn lemma_repair_locks_before_finish(s: RepairMetadata, event: FlashEvent)
    ensures
        s.next_spec(event).1 is Finish ==> s.phase == RepairPhase::Locking || s.phase
            == RepairPhase::Finished,
        s.next_spec(event).0.phase == RepairPhase::Locking && s.phase != RepairPhase::Locking
            ==> s.next_spec(event).1 == lock_action(),
        s.next_spec(event).0.phase == RepairPhase::Finished ==> s.phase == RepairPhase::Locking
            || s.phase == RepairPhase::Finished,
{
}

} // verus!
