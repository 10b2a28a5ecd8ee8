use vstd::prelude::*;

verus! {

/// Fixed-size header of a transaction message.
pub struct MessageHeader {
    pub num_required_signatures: u8,
    pub num_readonly_signed: u8,
    pub num_readonly_unsigned: u8,
}

/// An instruction referencing its target program and its accounts by index
/// into the message's account-key list.
pub struct CompiledInstruction {
    pub program_id_index: u8,
    pub accounts: Vec<u8>,
    pub data: Vec<u8>,
}

/// The fields shared by both message wire formats: the header, the ordered
/// account keys (32-byte public keys), and the ordered instruction list.
pub struct MessageBody {
    pub header: MessageHeader,
    pub account_keys: Vec<Vec<u8>>,
    pub instructions: Vec<CompiledInstruction>,
}

/// A transaction message in either of the two wire formats. Both variants
/// carry the same fields once decoded; the tag records which layout the
/// bytes came from.
pub enum Message {
    Legacy(MessageBody),
    V0(MessageBody),
}

impl Message {
    /// The shared fields, independent of the wire format.
    pub open spec fn body(&self) -> MessageBody {
        match self {
            Message::Legacy(b) => *b,
            Message::V0(b) => *b,
        }
    }

    /// The ordered account keys of either variant.
    pub fn account_keys(&self) -> (r: &Vec<Vec<u8>>)
        ensures
            *r == self.body().account_keys,
    {
        match self {
            Message::Legacy(b) => &b.account_keys,
            Message::V0(b) => &b.account_keys,
        }
    }

    /// The ordered instruction list of either variant.
    pub fn instructions(&self) -> (r: &Vec<CompiledInstruction>)
        ensures
            *r == self.body().instructions,
    {
        match self {
            Message::Legacy(b) => &b.instructions,
            Message::V0(b) => &b.instructions,
        }
    }

    /// The number of signatures the message requires.
    pub fn num_required_signatures(&self) -> (r: u8)
        ensures
            r == self.body().header.num_required_signatures,
    {
        match self {
            Message::Legacy(b) => b.header.num_required_signatures,
            Message::V0(b) => b.header.num_required_signatures,
        }
    }

    /// An account index is a signer exactly when it lies below the number of
    /// required signatures.
    pub fn is_signer(&self, index: usize) -> (r: bool)
        ensures
            r == (index < self.body().header.num_required_signatures),
    {
        index < self.num_required_signatures() as usize
    }
}

/// A decoded transaction: its signatures (64-byte values) and its message.
pub struct Transaction {
    pub signatures: Vec<Vec<u8>>,
    pub message: Message,
}

impl Transaction {
    /// Structural well-formedness: every signature is 64 bytes and every
    /// account key is 32 bytes.
    pub open spec fn wf(&self) -> bool {
        &&& forall|i: int|
            0 <= i < self.signatures@.len() ==> (#[trigger] self.signatures@[i])@.len() == 64
        &&& forall|i: int|
            0 <= i < self.message.body().account_keys@.len() ==> (
            #[trigger] self.message.body().account_keys@[i])@.len() == 32
    }
}

} // verus!
