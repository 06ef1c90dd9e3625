//! The console UART.
use crate::effect::Operation;
use vstd::prelude::*;
use vstd::string::*;

verus! {

/// Where the console UART lies.
pub const UART_BASE: usize = 0x0900_0000;

pub struct Uart {
    pub base: usize,
}

/// The stores to `base` that send `text`, one for each byte of its UTF-8 form.
pub open spec fn stores(base: usize, text: Seq<char>) -> Seq<Operation> {
    let bytes = vstd::utf8::encode_utf8(text);
    Seq::new(
        bytes.len(),
        |i: int| (Operation::Store8 { address: base, value: bytes[i] }),
    )
}

impl Uart {
    /// The UART whose data register lies at `base`.
    pub fn new(base: usize) -> (uart: Self)
        ensures
            uart.base == base,
    {
        Uart { base }
    }

    /// The store that sends `byte`.
    pub fn put_byte(&self, byte: u8) -> (store: Operation)
        ensures
            store == (Operation::Store8 { address: self.base, value: byte }),
    {
        Operation::Store8 { address: self.base, value: byte }
    }

    /// The stores that send `s`, one for each byte of its UTF-8 form.
    pub fn write_bytes(&self, s: &str) -> (stores: Vec<Operation>)
        ensures
            stores@ == self::stores(self.base, s@),
            stores@.len() == vstd::utf8::encode_utf8(s@).len(),
            forall|i: int|
                0 <= i < stores@.len() ==> #[trigger] stores@[i] == (Operation::Store8 {
                    address: self.base,
                    value: vstd::utf8::encode_utf8(s@)[i],
                }),
    {
        let bytes: &[u8] = s.as_bytes();
        let mut stores: Vec<Operation> = Vec::new();
        let mut i: usize = 0;
        while i < bytes.len()
            invariant
                i <= bytes@.len(),
                stores@ == Seq::new(
                    i as nat,
                    |j: int| (Operation::Store8 { address: self.base, value: bytes@[j] }),
                ),
            decreases bytes@.len() - i,
        {
            stores.push(self.put_byte(bytes[i]));
            i = i + 1;
        }
        stores
    }
}

/// Sending a text is sending its parts one behind the other.
pub proof fn law_text_may_be_sent_in_parts(base: usize, first: Seq<char>, rest: Seq<char>)
    ensures
        stores(base, first + rest) == stores(base, first) + stores(base, rest),
{
    lemma_encoding_adds_up(first, rest);
    assert(stores(base, first + rest) =~= stores(base, first) + stores(base, rest));
}

/// The UTF-8 form of a text is that of its parts one behind the other.
proof fn lemma_encoding_adds_up(first: Seq<char>, rest: Seq<char>)
    ensures
        vstd::utf8::encode_utf8(first + rest) == vstd::utf8::encode_utf8(first)
            + vstd::utf8::encode_utf8(rest),
    decreases first.len(),
{
    if first.len() == 0 {
        assert(first + rest =~= rest);
        assert(vstd::utf8::encode_utf8(first) =~= Seq::<u8>::empty());
    } else {
        lemma_encoding_adds_up(first.drop_first(), rest);
        assert((first + rest).drop_first() =~= first.drop_first() + rest);
    }
}

/// The stores of a text are those of its UTF-8 bytes, in order, each unchanged
/// and to the data register.
pub proof fn law_each_byte_is_stored_unchanged(base: usize, text: Seq<char>, i: int)
    requires
        0 <= i < vstd::utf8::encode_utf8(text).len(),
    ensures
        stores(base, text).len() == vstd::utf8::encode_utf8(text).len(),
        stores(base, text)[i] == (Operation::Store8 {
            address: base,
            value: vstd::utf8::encode_utf8(text)[i],
        }),
{
}

/// The text can be read back from the bytes that were stored.
pub proof fn law_text_can_be_read_back(base: usize, text: Seq<char>, bytes: Seq<u8>)
    requires
        stores(base, text) == Seq::new(
            bytes.len(),
            |i: int| (Operation::Store8 { address: base, value: bytes[i] }),
        ),
    ensures
        vstd::utf8::valid_utf8(bytes),
        vstd::utf8::decode_utf8(bytes) == text,
{
    let sent = vstd::utf8::encode_utf8(text);
    assert(stores(base, text).len() == bytes.len());
    assert forall|i: int| 0 <= i < sent.len() implies sent[i] == bytes[i] by {
        assert(stores(base, text)[i]->Store8_value == bytes[i]);
    }
    assert(sent =~= bytes);
    vstd::utf8::encode_utf8_valid_utf8(text);
    vstd::utf8::encode_utf8_decode_utf8(text);
}

} // verus!
