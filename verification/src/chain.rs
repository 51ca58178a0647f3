//! Plain-value records for the chain objects that the client's logic reads:
//! boxes, tokens, registers, transactions and decoded network addresses.
//! Identifiers travel as their canonical string encodings; serialized values
//! (scripts, constants) travel as their byte form.

use vstd::prelude::*;

verus! {

/// An amount of one token held by a box.
#[derive(Debug, Clone)]
pub struct TokenAmount {
    /// Token identifier in its canonical hex encoding.
    pub token_id: String,
    /// Amount held, in the token's smallest unit.
    pub amount: u64,
}

/// One of the ten optional box registers, `R0` through `R9`.
#[derive(Debug, Clone, Copy, PartialEq, Eq, Structural)]
pub struct RegisterId {
    /// Register index, at most 9.
    pub index: u8,
}

impl RegisterId {
    /// A register id is meaningful only for indices 0 through 9.
    pub open spec fn wf(self) -> bool {
        self.index <= 9
    }

    /// Builds a register id, rejecting indices past `R9`.
    pub fn new(index: u8) -> (r: Option<RegisterId>)
        ensures
            index <= 9 ==> r == Some(RegisterId { index }),
            index > 9 ==> r is None,
            r matches Some(id) ==> id.wf(),
    {
        if index <= 9 {
            Some(RegisterId { index })
        } else {
            None
        }
    }
}

/// A typed constant in its serialized byte form, as it crosses the wire.
#[derive(Debug, Clone)]
pub struct Constant {
    /// Serialized bytes of the constant.
    pub bytes: Vec<u8>,
}

/// A register entry of a box: which register, and the constant stored in it.
#[derive(Debug, Clone)]
pub struct RegisterEntry {
    pub id: RegisterId,
    pub value: Constant,
}

/// An unspent transaction output: the unit of value the wallet selects from.
#[derive(Debug, Clone)]
pub struct ErgoBox {
    /// Box identifier in its canonical hex encoding.
    pub box_id: String,
    /// Monetary value in nanounits of the native currency.
    pub value: u64,
    /// Serialized guarding script.
    pub ergo_tree: Vec<u8>,
    /// Height of the block that created the box.
    pub creation_height: u32,
    /// Tokens held by the box.
    pub assets: Vec<TokenAmount>,
    /// Optional register values.
    pub additional_registers: Vec<RegisterEntry>,
}

/// A transaction before signing: no proofs attached.
#[derive(Debug, Clone)]
pub struct UnsignedTransaction {
    /// Identifiers of the boxes spent, in order.
    pub inputs: Vec<String>,
    /// Identifiers of the read-only data inputs, in order.
    pub data_inputs: Vec<String>,
    /// Outputs created, in order.
    pub outputs: Vec<ErgoBox>,
}

/// A signed transaction, ready for submission.
#[derive(Debug, Clone)]
pub struct Transaction {
    /// Transaction identifier in its canonical hex encoding.
    pub id: String,
    /// Identifiers of the boxes spent, in order.
    pub inputs: Vec<String>,
    /// Identifiers of the read-only data inputs, in order.
    pub data_inputs: Vec<String>,
    /// Outputs created, in order.
    pub outputs: Vec<ErgoBox>,
}

/// The serialized form of a guarding script.
#[derive(Debug, Clone)]
pub struct ErgoTree {
    /// Serialized bytes of the script.
    pub bytes: Vec<u8>,
}

/// Which network an address or a node belongs to.
#[derive(Debug, Clone, Copy, PartialEq, Eq, Structural)]
pub enum NetworkKind {
    Mainnet,
    Testnet,
}

/// The three shapes a network address can decode to.
#[derive(Debug, Clone, Copy, PartialEq, Eq, Structural)]
pub enum AddressKind {
    /// Pay-to-public-key: the payload is a serialized public key point.
    P2Pk,
    /// Pay-to-script-hash: the payload is a script hash.
    P2Sh,
    /// Pay-to-script: the payload is the serialized script itself.
    P2S,
}

/// A network address taken apart: network, address shape, and content bytes.
#[derive(Debug, Clone)]
pub struct DecodedAddress {
    /// Which network the address is encoded for.
    pub network: NetworkKind,
    /// Which of the three address shapes it carries.
    pub kind: AddressKind,
    /// The content bytes: a public key, a script hash, or a serialized script.
    pub payload: Vec<u8>,
}

} // verus!
