//! The bookkeeping of a transmission that goes out block by block.
//!
//! A buffer of bytes is sent in blocks of at most `tx_size` bytes. Each time
//! the transport is ready for more, it asks for the next block; when nothing
//! is left, the transmission is complete and the state is idle again.

use vstd::prelude::*;

verus! {

/// The low eight bits of `n`.
pub open spec fn wrap_u8(n: int) -> int {
    n % 0x100
}

/// The smaller of two numbers.
pub open spec fn min_of(a: int, b: int) -> int {
    if a <= b {
        a
    } else {
        b
    }
}

/// Bytes to transmit, and the size of a block. Where the data is longer
/// than a block, it goes out in blocks of `tx_size` bytes, the last one as
/// long as what is left.
#[derive(Copy, Clone)]
pub struct I2CBuffer {
    pub data: &'static [u8],
    pub tx_size: u8,
}

impl I2CBuffer {
    /// The buffer for `data`, in blocks of `tx_size` bytes or, where none is
    /// given, in one block as long as the data. The size of a block is kept
    /// to its low eight bits.
    pub fn new(data: &'static [u8], tx_size: Option<usize>) -> (r: I2CBuffer)
        ensures
            r.data@ == data@,
            r.tx_size == wrap_u8(
                match tx_size {
                    Some(x) => x as int,
                    None => data@.len() as int,
                },
            ),
    {
        let size: usize = match tx_size {
            Some(x) => x,
            None => data.len(),
        };
        assert((size as u8) as int == (size as int) % 0x100) by (bit_vector);
        #[verifier::truncate]
        let tx_size: u8 = size as u8;
        I2CBuffer { data, tx_size }
    }
}

/// What the transport is to do next.
#[derive(Copy, Clone, Debug, PartialEq, Eq, Structural)]
pub enum TxBlock {
    /// Send `length` bytes of the data, starting at `offset`.
    Send { offset: usize, length: u8 },
    /// Nothing is left to send.
    Complete,
}

/// How far a transmission has come: the buffer that is being sent, if any,
/// and how many of its bytes have been handed to the transport.
pub struct TxState {
    tx_data: Option<I2CBuffer>,
    tx_index: usize,
}

impl TxState {
    /// No more bytes are handed out than the data has.
    #[verifier::type_invariant]
    closed spec fn index_in_data(self) -> bool {
        match self.tx_data {
            Some(buffer) => self.tx_index <= buffer.data@.len(),
            None => self.tx_index == 0,
        }
    }

    /// The bytes being sent, if any.
    pub closed spec fn data(self) -> Option<Seq<u8>> {
        match self.tx_data {
            Some(buffer) => Some(buffer.data@),
            None => None,
        }
    }

    /// The size of a block of the buffer being sent; zero where none is.
    pub closed spec fn block_size(self) -> int {
        match self.tx_data {
            Some(buffer) => buffer.tx_size as int,
            None => 0,
        }
    }

    /// How many bytes have been handed out.
    pub closed spec fn sent(self) -> int {
        self.tx_index as int
    }

    /// No buffer is being sent.
    pub open spec fn is_idle_spec(self) -> bool {
        self.data() is None && self.sent() == 0
    }

    /// A state that sends nothing.
    pub fn idle() -> (r: TxState)
        ensures
            r.is_idle_spec(),
    {
        TxState { tx_data: None, tx_index: 0 }
    }

    /// Whether no buffer is being sent.
    pub fn is_idle(&self) -> (r: bool)
        ensures
            r == self.is_idle_spec(),
    {
        proof {
            use_type_invariant(self);
        }
        self.tx_data.is_none()
    }

    /// The buffer that is being sent, if any.
    pub fn current(&self) -> (r: Option<I2CBuffer>)
        ensures
            match r {
                Some(buffer) => self.data() == Some(buffer.data@) && self.block_size()
                    == buffer.tx_size,
                None => self.data() is None,
            },
    {
        self.tx_data
    }

    /// Takes up `pending` where no buffer is being sent, and hands back what
    /// was not taken: `pending` itself while a buffer is being sent, nothing
    /// otherwise.
    pub fn acquire(&mut self, pending: Option<I2CBuffer>) -> (left: Option<I2CBuffer>)
        ensures
            old(self).data() is Some ==> *final(self) == *old(self) && left == pending,
            old(self).data() is None ==> left is None && final(self).sent() == 0,
            old(self).data() is None ==> final(self).data() == (match pending {
                Some(buffer) => Some(buffer.data@),
                None => None,
            }),
            old(self).data() is None ==> final(self).block_size() == (match pending {
                Some(buffer) => buffer.tx_size as int,
                None => 0,
            }),
    {
        proof {
            use_type_invariant(&*self);
        }
        if self.tx_data.is_none() {
            self.tx_data = pending;
            self.tx_index = 0;
            None
        } else {
            pending
        }
    }

    /// The next block to send. While bytes are left, it starts where the
    /// last one ended and is as long as a block, or as what is left if that
    /// is less. When none is left, or no buffer is being sent, the
    /// transmission is complete and the state idle.
    pub fn next_block(&mut self) -> (block: TxBlock)
        ensures
            match old(self).data() {
                Some(data) if old(self).sent() < data.len() => {
                    &&& block == (TxBlock::Send {
                        offset: old(self).sent() as usize,
                        length: min_of(data.len() - old(self).sent(), old(self).block_size()) as u8,
                    })
                    &&& final(self).data() == old(self).data()
                    &&& final(self).block_size() == old(self).block_size()
                    &&& final(self).sent() == old(self).sent() + min_of(
                        data.len() - old(self).sent(),
                        old(self).block_size(),
                    )
                },
                _ => block == TxBlock::Complete && final(self).is_idle_spec(),
            },
    {
        proof {
            use_type_invariant(&*self);
        }
        match self.tx_data {
            Some(tx_data) if self.tx_index < tx_data.data.len() => {
                let left: usize = tx_data.data.len() - self.tx_index;
                let size: usize = tx_data.tx_size as usize;
                let length: u8 = if left < size {
                    left as u8
                } else {
                    tx_data.tx_size
                };
                let offset: usize = self.tx_index;
                self.tx_index = self.tx_index + length as usize;
                TxBlock::Send { offset, length }
            },
            _ => {
                self.tx_index = 0;
                self.tx_data = None;
                TxBlock::Complete
            },
        }
    }
}

} // verus!
