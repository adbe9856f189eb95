//! Bitcoin transactions and addresses, as plain values.

use vstd::prelude::*;

use crate::model::{copy_byte_strings, copy_bytes, view_result, views};

verus! {

/// The bytes that a length takes up before what it counts.
pub open spec fn prefix_size(len: nat) -> nat {
    if len < 0xfd {
        1
    } else if len <= 0xffff {
        3
    } else if len <= 0xffff_ffff {
        5
    } else {
        9
    }
}

/// The bytes that the elements of a witness take up, each with its length before it.
pub open spec fn witness_size(elements: Seq<Seq<u8>>) -> nat
    decreases elements.len(),
{
    if elements.len() == 0 {
        0
    } else {
        witness_size(elements.drop_last()) + prefix_size(elements.last().len())
            + elements.last().len()
    }
}

/// The witness of an input. It never takes up more than 2^32 bytes.
#[derive(Debug, PartialEq, Eq)]
pub struct Witness {
    elements: Vec<Vec<u8>>,
}

impl View for Witness {
    type V = Seq<Seq<u8>>;

    closed spec fn view(&self) -> Seq<Seq<u8>> {
        views(self.elements@)
    }
}

impl Witness {
    #[verifier::type_invariant]
    closed spec fn fits(self) -> bool {
        witness_size(views(self.elements@)) <= u32::MAX
    }

    /// The witness without elements.
    pub fn empty() -> (witness: Witness)
        ensures
            witness@ == Seq::<Seq<u8>>::empty(),
    {
        let elements: Vec<Vec<u8>> = Vec::new();
        assert(views(elements@) =~= Seq::<Seq<u8>>::empty());
        Witness { elements }
    }

    /// The witness of these elements, if they fit into one.
    pub fn new(elements: Vec<Vec<u8>>) -> (witness: Option<Witness>)
        ensures
            witness is Some <==> witness_size(views(elements@)) <= u32::MAX,
            witness matches Some(made) ==> made@ == views(elements@),
    {
        let mut size: u64 = 0;
        let mut i: usize = 0;
        while i < elements.len()
            invariant
                i <= elements@.len(),
                size == witness_size(views(elements@).take(i as int)),
                size <= u32::MAX,
            decreases elements@.len() - i,
        {
            let ghost seen = views(elements@);
            assert(seen.take(i + 1).drop_last() =~= seen.take(i as int));
            let len: u64 = elements[i].len() as u64;
            let prefix: u64 = if len < 0xfd {
                1
            } else if len <= 0xffff {
                3
            } else {
                5
            };
            if len > 0xffff_ffff || size + prefix + len > 0xffff_ffff {
                proof {
                    lemma_witness_size_grows(seen, i + 1);
                }
                return None;
            }
            size = size + prefix + len;
            i = i + 1;
        }
        assert(views(elements@).take(i as int) =~= views(elements@));
        Some(Witness { elements })
    }

    /// The elements, the first at the bottom of the stack.
    pub fn elements(&self) -> (elements: &Vec<Vec<u8>>)
        ensures
            views(elements@) == self@,
    {
        &self.elements
    }
}

proof fn lemma_witness_size_grows(elements: Seq<Seq<u8>>, i: int)
    requires
        0 <= i <= elements.len(),
    ensures
        witness_size(elements.take(i)) <= witness_size(elements),
    decreases elements.len() - i,
{
    if i < elements.len() {
        assert(elements.take(i + 1).drop_last() =~= elements.take(i));
        lemma_witness_size_grows(elements, i + 1);
    } else {
        assert(elements.take(i) =~= elements);
    }
}

impl Clone for Witness {
    fn clone(&self) -> (copy: Self)
        ensures
            copy@ == self@,
    {
        proof {
            use_type_invariant(self);
        }
        Witness { elements: copy_byte_strings(&self.elements) }
    }
}

/// An input of a transaction: the output that it spends, and what unlocks it.
#[derive(Debug, PartialEq, Eq)]
pub struct TxIn {
    /// The id of the transaction spent from, in the byte order that transactions store.
    pub txid: [u8; 32],
    pub vout: u32,
    pub script_sig: Vec<u8>,
    pub sequence: u32,
    pub witness: Witness,
}

/// The view of a `TxIn`.
pub struct TxInView {
    pub txid: Seq<u8>,
    pub vout: u32,
    pub script_sig: Seq<u8>,
    pub sequence: u32,
    pub witness: Seq<Seq<u8>>,
}

impl View for TxIn {
    type V = TxInView;

    open spec fn view(&self) -> TxInView {
        TxInView {
            txid: self.txid@,
            vout: self.vout,
            script_sig: self.script_sig@,
            sequence: self.sequence,
            witness: self.witness@,
        }
    }
}

impl Clone for TxIn {
    fn clone(&self) -> (copy: Self)
        ensures
            copy@ == self@,
    {
        TxIn {
            txid: self.txid,
            vout: self.vout,
            script_sig: copy_bytes(&self.script_sig),
            sequence: self.sequence,
            witness: self.witness.clone(),
        }
    }
}

/// An output of a transaction: an amount in satoshis, and the script that locks it.
#[derive(Debug, PartialEq, Eq)]
pub struct TxOut {
    pub value: u64,
    pub script_pubkey: Vec<u8>,
}

/// The view of a `TxOut`.
pub struct TxOutView {
    pub value: u64,
    pub script_pubkey: Seq<u8>,
}

impl View for TxOut {
    type V = TxOutView;

    open spec fn view(&self) -> TxOutView {
        TxOutView { value: self.value, script_pubkey: self.script_pubkey@ }
    }
}

impl Clone for TxOut {
    fn clone(&self) -> (copy: Self)
        ensures
            copy@ == self@,
    {
        TxOut { value: self.value, script_pubkey: copy_bytes(&self.script_pubkey) }
    }
}

/// A transaction.
#[derive(Debug, PartialEq, Eq)]
pub struct Transaction {
    pub version: i32,
    pub lock_time: u32,
    pub inputs: Vec<TxIn>,
    pub outputs: Vec<TxOut>,
}

/// The view of a `Transaction`.
pub struct TransactionView {
    pub version: i32,
    pub lock_time: u32,
    pub inputs: Seq<TxInView>,
    pub outputs: Seq<TxOutView>,
}

impl View for Transaction {
    type V = TransactionView;

    open spec fn view(&self) -> TransactionView {
        TransactionView {
            version: self.version,
            lock_time: self.lock_time,
            inputs: views(self.inputs@),
            outputs: views(self.outputs@),
        }
    }
}

impl TransactionView {
    /// Whether no witness takes up more than four million bytes. A transaction that is not signed
    /// yet has no witness at all.
    pub open spec fn has_small_witnesses(self) -> bool {
        forall|i: int|
            0 <= i < self.inputs.len() ==> witness_size((#[trigger] self.inputs[i]).witness)
                <= 4_000_000
    }
}

impl Clone for Transaction {
    fn clone(&self) -> (copy: Self)
        ensures
            copy@ == self@,
    {
        let inputs = self.inputs.clone();
        let outputs = self.outputs.clone();
        assert(views(inputs@) =~= views(self.inputs@));
        assert(views(outputs@) =~= views(self.outputs@));
        Transaction { version: self.version, lock_time: self.lock_time, inputs, outputs }
    }
}

/// The consensus encoding of a transaction.
pub uninterp spec fn consensus_bytes(transaction: TransactionView) -> Seq<u8>;

/// The transaction that a byte string encodes, or the message of the decoding error.
pub uninterp spec fn consensus_decoded(bytes: Seq<u8>) -> Result<TransactionView, Seq<char>>;

/// The transaction that a hexadecimal text encodes, or the message of the decoding error.
pub uninterp spec fn consensus_decoded_hex(text: Seq<char>) -> Result<TransactionView, Seq<char>>;

/// Whether a byte string decodes to a transaction.
pub open spec fn decodes_to(bytes: Seq<u8>, transaction: TransactionView) -> bool {
    consensus_decoded(bytes) == Ok::<TransactionView, Seq<char>>(transaction)
}

/// `bitcoin::consensus::serialize` of a transaction, named by `consensus_bytes`. Decoding gives
/// back a transaction with small witnesses, and refuses one with a witness over four million
/// bytes.
#[verifier::external_body]
pub(crate) fn encode_transaction(transaction: &Transaction) -> (bytes: Vec<u8>)
    ensures
        bytes@ == consensus_bytes(transaction@),
        transaction@.has_small_witnesses() ==> decodes_to(bytes@, transaction@),
        !transaction@.has_small_witnesses() ==> consensus_decoded(bytes@) is Err,
{
    bitcoin::consensus::serialize(&bitcoin::Transaction {
        version: bitcoin::transaction::Version(transaction.version),
        lock_time: bitcoin::absolute::LockTime::from_consensus(transaction.lock_time),
        input: transaction.inputs.iter().map(|i| bitcoin::TxIn {
            previous_output: bitcoin::OutPoint { txid: bitcoin::hashes::Hash::from_byte_array(i.txid), vout: i.vout },
            script_sig: i.script_sig.clone().into(),
            sequence: bitcoin::Sequence(i.sequence),
            witness: bitcoin::Witness::from_slice(i.witness.elements()),
        }).collect(),
        output: transaction.outputs.iter().map(|o| bitcoin::TxOut {
            value: bitcoin::Amount::from_sat(o.value),
            script_pubkey: o.script_pubkey.clone().into(),
        }).collect(),
    })
}

/// `bitcoin::consensus::deserialize` of a transaction, as plain values, named by
/// `consensus_decoded`; an error comes as its message.
#[verifier::external_body]
pub(crate) fn decode_transaction(bytes: &[u8]) -> (result: Result<Transaction, String>)
    ensures
        view_result(result) == consensus_decoded(bytes@),
{
    let decoded = bitcoin::consensus::deserialize::<bitcoin::Transaction>(bytes);
    decoded.map_err(|e| e.to_string()).map(|tx| Transaction {
        version: tx.version.0,
        lock_time: tx.lock_time.to_consensus_u32(),
        inputs: tx.input.into_iter().map(|i| TxIn {
            txid: bitcoin::hashes::Hash::to_byte_array(i.previous_output.txid),
            vout: i.previous_output.vout,
            script_sig: i.script_sig.into_bytes(),
            sequence: i.sequence.0,
            witness: Witness { elements: i.witness.to_vec() },
        }).collect(),
        outputs: tx.output.into_iter().map(|o| TxOut { value: o.value.to_sat(), script_pubkey: o.script_pubkey.into_bytes() }).collect(),
    })
}

/// `bitcoin::consensus::encode::deserialize_hex` of a transaction, as plain values, named by
/// `consensus_decoded_hex`; an error comes as its message.
#[verifier::external_body]
pub(crate) fn decode_transaction_hex(text: &str) -> (result: Result<Transaction, String>)
    ensures
        view_result(result) == consensus_decoded_hex(text@),
{
    let decoded = bitcoin::consensus::encode::deserialize_hex::<bitcoin::Transaction>(text);
    decoded.map_err(|e| e.to_string()).map(|tx| Transaction {
        version: tx.version.0,
        lock_time: tx.lock_time.to_consensus_u32(),
        inputs: tx.input.into_iter().map(|i| TxIn {
            txid: bitcoin::hashes::Hash::to_byte_array(i.previous_output.txid),
            vout: i.previous_output.vout,
            script_sig: i.script_sig.into_bytes(),
            sequence: i.sequence.0,
            witness: Witness { elements: i.witness.to_vec() },
        }).collect(),
        outputs: tx.output.into_iter().map(|o| TxOut { value: o.value.to_sat(), script_pubkey: o.script_pubkey.into_bytes() }).collect(),
    })
}

/// The bitcoin network that a wallet works on.
#[derive(Debug, PartialEq, Eq, Clone, Copy, Structural)]
pub enum Network {
    Mainnet,
    Testnet,
    Signet,
    Regtest,
}

/// What is wrong with an address.
#[derive(Debug, PartialEq, Eq, Clone, Copy, Structural)]
pub enum AddressFault {
    /// The text is not an address.
    Malformed,
    /// The address belongs to another network.
    WrongNetwork,
}

impl View for AddressFault {
    type V = AddressFault;

    open spec fn view(&self) -> AddressFault {
        *self
    }
}

/// The script that pays to an address of a network, or what is wrong with the address.
pub uninterp spec fn address_script(address: Seq<char>, network: Network) -> Result<
    Seq<u8>,
    AddressFault,
>;

/// `bitcoin::Address::from_str`, then `require_network` and `script_pubkey`: the script of an
/// address of the network, named by `address_script`. It tells an unreadable address from one of
/// another network.
#[verifier::external_body]
pub(crate) fn script_of_address(address: &str, network: Network) -> (result: Result<
    Vec<u8>,
    AddressFault,
>)
    ensures
        view_result(result) == address_script(address@, network),
{
    let required = match network {
        Network::Mainnet => bitcoin::Network::Bitcoin,
        Network::Testnet => bitcoin::Network::Testnet,
        Network::Signet => bitcoin::Network::Signet,
        Network::Regtest => bitcoin::Network::Regtest,
    };
    let parsed = <bitcoin::Address<bitcoin::address::NetworkUnchecked> as std::str::FromStr>::from_str(address);
    let parsed = parsed.map_err(|_| AddressFault::Malformed)?;
    let checked = parsed.require_network(required).map_err(|_| AddressFault::WrongNetwork)?;
    Ok(checked.script_pubkey().into_bytes())
}

/// A witness takes up what its parts take up: nothing without elements, and for an element its
/// bytes and its length before them, which takes one byte below 253, three below 2^16, five below
/// 2^32, and else nine.
pub proof fn witness_sizes_add_up(first: Seq<Seq<u8>>, second: Seq<Seq<u8>>, element: Seq<u8>)
    ensures
        witness_size(first + second) == witness_size(first) + witness_size(second),
        witness_size(Seq::<Seq<u8>>::empty()) == 0,
        element.len() < 253 <==> witness_size(seq![element]) == element.len() + 1,
        253 <= element.len() < 65_536 <==> witness_size(seq![element]) == element.len() + 3,
        65_536 <= element.len() < 4_294_967_296 <==> witness_size(seq![element]) == element.len()
            + 5,
        4_294_967_296 <= element.len() <==> witness_size(seq![element]) == element.len() + 9,
    decreases second.len(),
{
    let none = Seq::<Seq<u8>>::empty();
    assert(witness_size(none) == 0);
    assert(seq![element].drop_last() =~= none);
    assert(witness_size(seq![element]) == witness_size(seq![element].drop_last()) + prefix_size(
        seq![element].last().len(),
    ) + seq![element].last().len());
    if second.len() == 0 {
        assert(first + second =~= first);
    } else {
        assert((first + second).drop_last() =~= first + second.drop_last());
        assert((first + second).last() == second.last());
        witness_sizes_add_up(first, second.drop_last(), element);
    }
}

} // verus!
