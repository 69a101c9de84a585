//! The closed set of Bitcoin command names and their 12-byte, NUL-padded
//! ASCII wire form.

use vstd::prelude::*;
use vstd::slice::slice_index_get;

use crate::errors::CodecError;

verus! {

broadcast use vstd::array::group_array_axioms;

/// Every command name this client knows.
#[derive(Clone, Copy, Debug, PartialEq, Eq, Structural)]
pub enum Command {
    Version,
    VerAck,
    Addr,
    Inv,
    GetData,
    NotFound,
    GetBlocks,
    GetHeaders,
    Tx,
    Block,
    Headers,
    GetAddr,
    MemPool,
    CheckOrder,
    SubmitOrder,
    Reply,
    Ping,
    Pong,
    Reject,
    FilterLoad,
    FilterAdd,
    FilterClear,
    MerkleBlock,
    Alert,
    SendHeaders,
    FeeFilter,
    SendCmpct,
    CmpctBlock,
    GetBlockTxn,
    BlockTxn,
}

/// The lowercase ASCII bytes of a command's wire name.
pub open spec fn spec_command_name(c: Command) -> Seq<u8> {
    match c {
        Command::Version => seq![118u8, 101u8, 114u8, 115u8, 105u8, 111u8, 110u8],  // "version"
        Command::VerAck => seq![118u8, 101u8, 114u8, 97u8, 99u8, 107u8],  // "verack"
        Command::Addr => seq![97u8, 100u8, 100u8, 114u8],  // "addr"
        Command::Inv => seq![105u8, 110u8, 118u8],  // "inv"
        Command::GetData => seq![103u8, 101u8, 116u8, 100u8, 97u8, 116u8, 97u8],  // "getdata"
        Command::NotFound => seq![110u8, 111u8, 116u8, 102u8, 111u8, 117u8, 110u8, 100u8],  // "notfound"
        Command::GetBlocks => seq![103u8, 101u8, 116u8, 98u8, 108u8, 111u8, 99u8, 107u8, 115u8],  // "getblocks"
        Command::GetHeaders => seq![103u8, 101u8, 116u8, 104u8, 101u8, 97u8, 100u8, 101u8, 114u8, 115u8],  // "getheaders"
        Command::Tx => seq![116u8, 120u8],  // "tx"
        Command::Block => seq![98u8, 108u8, 111u8, 99u8, 107u8],  // "block"
        Command::Headers => seq![104u8, 101u8, 97u8, 100u8, 101u8, 114u8, 115u8],  // "headers"
        Command::GetAddr => seq![103u8, 101u8, 116u8, 97u8, 100u8, 100u8, 114u8],  // "getaddr"
        Command::MemPool => seq![109u8, 101u8, 109u8, 112u8, 111u8, 111u8, 108u8],  // "mempool"
        Command::CheckOrder => seq![99u8, 104u8, 101u8, 99u8, 107u8, 111u8, 114u8, 100u8, 101u8, 114u8],  // "checkorder"
        Command::SubmitOrder => seq![115u8, 117u8, 98u8, 109u8, 105u8, 116u8, 111u8, 114u8, 100u8, 101u8, 114u8],  // "submitorder"
        Command::Reply => seq![114u8, 101u8, 112u8, 108u8, 121u8],  // "reply"
        Command::Ping => seq![112u8, 105u8, 110u8, 103u8],  // "ping"
        Command::Pong => seq![112u8, 111u8, 110u8, 103u8],  // "pong"
        Command::Reject => seq![114u8, 101u8, 106u8, 101u8, 99u8, 116u8],  // "reject"
        Command::FilterLoad => seq![102u8, 105u8, 108u8, 116u8, 101u8, 114u8, 108u8, 111u8, 97u8, 100u8],  // "filterload"
        Command::FilterAdd => seq![102u8, 105u8, 108u8, 116u8, 101u8, 114u8, 97u8, 100u8, 100u8],  // "filteradd"
        Command::FilterClear => seq![102u8, 105u8, 108u8, 116u8, 101u8, 114u8, 99u8, 108u8, 101u8, 97u8, 114u8],  // "filterclear"
        Command::MerkleBlock => seq![109u8, 101u8, 114u8, 107u8, 108u8, 101u8, 98u8, 108u8, 111u8, 99u8, 107u8],  // "merkleblock"
        Command::Alert => seq![97u8, 108u8, 101u8, 114u8, 116u8],  // "alert"
        Command::SendHeaders => seq![115u8, 101u8, 110u8, 100u8, 104u8, 101u8, 97u8, 100u8, 101u8, 114u8, 115u8],  // "sendheaders"
        Command::FeeFilter => seq![102u8, 101u8, 101u8, 102u8, 105u8, 108u8, 116u8, 101u8, 114u8],  // "feefilter"
        Command::SendCmpct => seq![115u8, 101u8, 110u8, 100u8, 99u8, 109u8, 112u8, 99u8, 116u8],  // "sendcmpct"
        Command::CmpctBlock => seq![99u8, 109u8, 112u8, 99u8, 116u8, 98u8, 108u8, 111u8, 99u8, 107u8],  // "cmpctblock"
        Command::GetBlockTxn => seq![103u8, 101u8, 116u8, 98u8, 108u8, 111u8, 99u8, 107u8, 116u8, 120u8, 110u8],  // "getblocktxn"
        Command::BlockTxn => seq![98u8, 108u8, 111u8, 99u8, 107u8, 116u8, 120u8, 110u8],  // "blocktxn"
    }
}

/// The name of a command as text.
pub open spec fn spec_command_text(c: Command) -> Seq<char> {
    match c {
        Command::Version => "version"@,
        Command::VerAck => "verack"@,
        Command::Addr => "addr"@,
        Command::Inv => "inv"@,
        Command::GetData => "getdata"@,
        Command::NotFound => "notfound"@,
        Command::GetBlocks => "getblocks"@,
        Command::GetHeaders => "getheaders"@,
        Command::Tx => "tx"@,
        Command::Block => "block"@,
        Command::Headers => "headers"@,
        Command::GetAddr => "getaddr"@,
        Command::MemPool => "mempool"@,
        Command::CheckOrder => "checkorder"@,
        Command::SubmitOrder => "submitorder"@,
        Command::Reply => "reply"@,
        Command::Ping => "ping"@,
        Command::Pong => "pong"@,
        Command::Reject => "reject"@,
        Command::FilterLoad => "filterload"@,
        Command::FilterAdd => "filteradd"@,
        Command::FilterClear => "filterclear"@,
        Command::MerkleBlock => "merkleblock"@,
        Command::Alert => "alert"@,
        Command::SendHeaders => "sendheaders"@,
        Command::FeeFilter => "feefilter"@,
        Command::SendCmpct => "sendcmpct"@,
        Command::CmpctBlock => "cmpctblock"@,
        Command::GetBlockTxn => "getblocktxn"@,
        Command::BlockTxn => "blocktxn"@,
    }
}

/// A command's 12-byte wire form: its name, NUL-padded.
pub open spec fn spec_command_wire(c: Command) -> Seq<u8> {
    spec_command_name(c) + Seq::new((12 - spec_command_name(c).len()) as nat, |i: int| 0u8)
}

/// Whether the 12 bytes of `b`, read up to the first NUL, spell exactly
/// the name of `c`. Since no name holds a NUL, this is: `b` starts with
/// the name, and the name is either 12 bytes long or followed by a NUL.
pub open spec fn spec_command_accepts(b: Seq<u8>, c: Command) -> bool {
    let name = spec_command_name(c);
    b.subrange(0, name.len() as int) == name && (name.len() == 12 || b[name.len() as int] == 0u8)
}

/// The command spelled by a 12-byte command field, if any.
pub open spec fn spec_command_decode(b: Seq<u8>) -> Option<Command> {
    if spec_command_accepts(b, Command::Version) {
        Some(Command::Version)
    } else if spec_command_accepts(b, Command::VerAck) {
        Some(Command::VerAck)
    } else if spec_command_accepts(b, Command::Addr) {
        Some(Command::Addr)
    } else if spec_command_accepts(b, Command::Inv) {
        Some(Command::Inv)
    } else if spec_command_accepts(b, Command::GetData) {
        Some(Command::GetData)
    } else if spec_command_accepts(b, Command::NotFound) {
        Some(Command::NotFound)
    } else if spec_command_accepts(b, Command::GetBlocks) {
        Some(Command::GetBlocks)
    } else if spec_command_accepts(b, Command::GetHeaders) {
        Some(Command::GetHeaders)
    } else if spec_command_accepts(b, Command::Tx) {
        Some(Command::Tx)
    } else if spec_command_accepts(b, Command::Block) {
        Some(Command::Block)
    } else if spec_command_accepts(b, Command::Headers) {
        Some(Command::Headers)
    } else if spec_command_accepts(b, Command::GetAddr) {
        Some(Command::GetAddr)
    } else if spec_command_accepts(b, Command::MemPool) {
        Some(Command::MemPool)
    } else if spec_command_accepts(b, Command::CheckOrder) {
        Some(Command::CheckOrder)
    } else if spec_command_accepts(b, Command::SubmitOrder) {
        Some(Command::SubmitOrder)
    } else if spec_command_accepts(b, Command::Reply) {
        Some(Command::Reply)
    } else if spec_command_accepts(b, Command::Ping) {
        Some(Command::Ping)
    } else if spec_command_accepts(b, Command::Pong) {
        Some(Command::Pong)
    } else if spec_command_accepts(b, Command::Reject) {
        Some(Command::Reject)
    } else if spec_command_accepts(b, Command::FilterLoad) {
        Some(Command::FilterLoad)
    } else if spec_command_accepts(b, Command::FilterAdd) {
        Some(Command::FilterAdd)
    } else if spec_command_accepts(b, Command::FilterClear) {
        Some(Command::FilterClear)
    } else if spec_command_accepts(b, Command::MerkleBlock) {
        Some(Command::MerkleBlock)
    } else if spec_command_accepts(b, Command::Alert) {
        Some(Command::Alert)
    } else if spec_command_accepts(b, Command::SendHeaders) {
        Some(Command::SendHeaders)
    } else if spec_command_accepts(b, Command::FeeFilter) {
        Some(Command::FeeFilter)
    } else if spec_command_accepts(b, Command::SendCmpct) {
        Some(Command::SendCmpct)
    } else if spec_command_accepts(b, Command::CmpctBlock) {
        Some(Command::CmpctBlock)
    } else if spec_command_accepts(b, Command::GetBlockTxn) {
        Some(Command::GetBlockTxn)
    } else if spec_command_accepts(b, Command::BlockTxn) {
        Some(Command::BlockTxn)
    } else {
        None
    }
}

/// Whether the first `name.len()` bytes of `buf` spell `name`, with the
/// next byte (if any) a NUL.
fn accepts(buf: &[u8; 12], name: &[u8]) -> (r: bool)
    requires
        name@.len() <= 12,
    ensures
        r <==> (buf@.subrange(0, name@.len() as int) == name@ && (name@.len() == 12 || buf@[
            name@.len() as int
        ] == 0u8)),
{
    let n = name.len();
    let mut i: usize = 0;
    while i < n
        invariant
            i <= n,
            n == name@.len(),
            n <= 12,
            forall|j: int| 0 <= j < i ==> buf@[j] == name@[j],
        decreases n - i,
    {
        if buf[i] != *slice_index_get(name, i) {
            proof {
                assert(buf@.subrange(0, n as int)[i as int] == buf@[i as int]);
            }
            return false;
        }
        i = i + 1;
    }
    proof {
        assert(buf@.subrange(0, n as int) =~= name@);
    }
    if n == 12 {
        true
    } else {
        buf[n] == 0
    }
}

impl Command {
    /// The command's lowercase wire name as text.
    pub fn name(&self) -> (r: String)
        ensures
            r@ == spec_command_text(*self),
    {
        match self {
            Command::Version => "version".to_owned(),
            Command::VerAck => "verack".to_owned(),
            Command::Addr => "addr".to_owned(),
            Command::Inv => "inv".to_owned(),
            Command::GetData => "getdata".to_owned(),
            Command::NotFound => "notfound".to_owned(),
            Command::GetBlocks => "getblocks".to_owned(),
            Command::GetHeaders => "getheaders".to_owned(),
            Command::Tx => "tx".to_owned(),
            Command::Block => "block".to_owned(),
            Command::Headers => "headers".to_owned(),
            Command::GetAddr => "getaddr".to_owned(),
            Command::MemPool => "mempool".to_owned(),
            Command::CheckOrder => "checkorder".to_owned(),
            Command::SubmitOrder => "submitorder".to_owned(),
            Command::Reply => "reply".to_owned(),
            Command::Ping => "ping".to_owned(),
            Command::Pong => "pong".to_owned(),
            Command::Reject => "reject".to_owned(),
            Command::FilterLoad => "filterload".to_owned(),
            Command::FilterAdd => "filteradd".to_owned(),
            Command::FilterClear => "filterclear".to_owned(),
            Command::MerkleBlock => "merkleblock".to_owned(),
            Command::Alert => "alert".to_owned(),
            Command::SendHeaders => "sendheaders".to_owned(),
            Command::FeeFilter => "feefilter".to_owned(),
            Command::SendCmpct => "sendcmpct".to_owned(),
            Command::CmpctBlock => "cmpctblock".to_owned(),
            Command::GetBlockTxn => "getblocktxn".to_owned(),
            Command::BlockTxn => "blocktxn".to_owned(),
        }
    }

    /// The command's name as bytes.
    fn name_vec(&self) -> (r: Vec<u8>)
        ensures
            r@ == spec_command_name(*self),
            r@.len() <= 12,
    {
        let r: Vec<u8> = match self {
            Command::Version => vec![118, 101, 114, 115, 105, 111, 110],
            Command::VerAck => vec![118, 101, 114, 97, 99, 107],
            Command::Addr => vec![97, 100, 100, 114],
            Command::Inv => vec![105, 110, 118],
            Command::GetData => vec![103, 101, 116, 100, 97, 116, 97],
            Command::NotFound => vec![110, 111, 116, 102, 111, 117, 110, 100],
            Command::GetBlocks => vec![103, 101, 116, 98, 108, 111, 99, 107, 115],
            Command::GetHeaders => vec![103, 101, 116, 104, 101, 97, 100, 101, 114, 115],
            Command::Tx => vec![116, 120],
            Command::Block => vec![98, 108, 111, 99, 107],
            Command::Headers => vec![104, 101, 97, 100, 101, 114, 115],
            Command::GetAddr => vec![103, 101, 116, 97, 100, 100, 114],
            Command::MemPool => vec![109, 101, 109, 112, 111, 111, 108],
            Command::CheckOrder => vec![99, 104, 101, 99, 107, 111, 114, 100, 101, 114],
            Command::SubmitOrder => vec![115, 117, 98, 109, 105, 116, 111, 114, 100, 101, 114],
            Command::Reply => vec![114, 101, 112, 108, 121],
            Command::Ping => vec![112, 105, 110, 103],
            Command::Pong => vec![112, 111, 110, 103],
            Command::Reject => vec![114, 101, 106, 101, 99, 116],
            Command::FilterLoad => vec![102, 105, 108, 116, 101, 114, 108, 111, 97, 100],
            Command::FilterAdd => vec![102, 105, 108, 116, 101, 114, 97, 100, 100],
            Command::FilterClear => vec![102, 105, 108, 116, 101, 114, 99, 108, 101, 97, 114],
            Command::MerkleBlock => vec![109, 101, 114, 107, 108, 101, 98, 108, 111, 99, 107],
            Command::Alert => vec![97, 108, 101, 114, 116],
            Command::SendHeaders => vec![115, 101, 110, 100, 104, 101, 97, 100, 101, 114, 115],
            Command::FeeFilter => vec![102, 101, 101, 102, 105, 108, 116, 101, 114],
            Command::SendCmpct => vec![115, 101, 110, 100, 99, 109, 112, 99, 116],
            Command::CmpctBlock => vec![99, 109, 112, 99, 116, 98, 108, 111, 99, 107],
            Command::GetBlockTxn => vec![103, 101, 116, 98, 108, 111, 99, 107, 116, 120, 110],
            Command::BlockTxn => vec![98, 108, 111, 99, 107, 116, 120, 110],
        };
        proof {
            assert(r@ =~= spec_command_name(*self));
        }
        r
    }

    /// The 12-byte wire form: the lowercase ASCII name, NUL-padded.
    /// The closed enum makes failure impossible, so the result is
    /// always `Ok`.
    pub fn encode(&self) -> (r: Result<[u8; 12], CodecError>)
        ensures
            r matches Ok(b) && b@ == spec_command_wire(*self),
    {
        let b: [u8; 12] = match self {
            Command::Version => [118, 101, 114, 115, 105, 111, 110, 0, 0, 0, 0, 0],
            Command::VerAck => [118, 101, 114, 97, 99, 107, 0, 0, 0, 0, 0, 0],
            Command::Addr => [97, 100, 100, 114, 0, 0, 0, 0, 0, 0, 0, 0],
            Command::Inv => [105, 110, 118, 0, 0, 0, 0, 0, 0, 0, 0, 0],
            Command::GetData => [103, 101, 116, 100, 97, 116, 97, 0, 0, 0, 0, 0],
            Command::NotFound => [110, 111, 116, 102, 111, 117, 110, 100, 0, 0, 0, 0],
            Command::GetBlocks => [103, 101, 116, 98, 108, 111, 99, 107, 115, 0, 0, 0],
            Command::GetHeaders => [103, 101, 116, 104, 101, 97, 100, 101, 114, 115, 0, 0],
            Command::Tx => [116, 120, 0, 0, 0, 0, 0, 0, 0, 0, 0, 0],
            Command::Block => [98, 108, 111, 99, 107, 0, 0, 0, 0, 0, 0, 0],
            Command::Headers => [104, 101, 97, 100, 101, 114, 115, 0, 0, 0, 0, 0],
            Command::GetAddr => [103, 101, 116, 97, 100, 100, 114, 0, 0, 0, 0, 0],
            Command::MemPool => [109, 101, 109, 112, 111, 111, 108, 0, 0, 0, 0, 0],
            Command::CheckOrder => [99, 104, 101, 99, 107, 111, 114, 100, 101, 114, 0, 0],
            Command::SubmitOrder => [115, 117, 98, 109, 105, 116, 111, 114, 100, 101, 114, 0],
            Command::Reply => [114, 101, 112, 108, 121, 0, 0, 0, 0, 0, 0, 0],
            Command::Ping => [112, 105, 110, 103, 0, 0, 0, 0, 0, 0, 0, 0],
            Command::Pong => [112, 111, 110, 103, 0, 0, 0, 0, 0, 0, 0, 0],
            Command::Reject => [114, 101, 106, 101, 99, 116, 0, 0, 0, 0, 0, 0],
            Command::FilterLoad => [102, 105, 108, 116, 101, 114, 108, 111, 97, 100, 0, 0],
            Command::FilterAdd => [102, 105, 108, 116, 101, 114, 97, 100, 100, 0, 0, 0],
            Command::FilterClear => [102, 105, 108, 116, 101, 114, 99, 108, 101, 97, 114, 0],
            Command::MerkleBlock => [109, 101, 114, 107, 108, 101, 98, 108, 111, 99, 107, 0],
            Command::Alert => [97, 108, 101, 114, 116, 0, 0, 0, 0, 0, 0, 0],
            Command::SendHeaders => [115, 101, 110, 100, 104, 101, 97, 100, 101, 114, 115, 0],
            Command::FeeFilter => [102, 101, 101, 102, 105, 108, 116, 101, 114, 0, 0, 0],
            Command::SendCmpct => [115, 101, 110, 100, 99, 109, 112, 99, 116, 0, 0, 0],
            Command::CmpctBlock => [99, 109, 112, 99, 116, 98, 108, 111, 99, 107, 0, 0],
            Command::GetBlockTxn => [103, 101, 116, 98, 108, 111, 99, 107, 116, 120, 110, 0],
            Command::BlockTxn => [98, 108, 111, 99, 107, 116, 120, 110, 0, 0, 0, 0],
        };
        proof {
            assert(b@ =~= spec_command_wire(*self));
        }
        Ok(b)
    }

    /// Reads a command from a 12-byte field: the bytes up to the first
    /// NUL must spell a known lowercase name; anything else is
    /// `UnknownCommand`.
    pub fn decode(buf: [u8; 12]) -> (r: Result<Command, CodecError>)
        ensures
            match r {
                Ok(c) => spec_command_decode(buf@) == Some(c),
                Err(e) => e == CodecError::UnknownCommand && spec_command_decode(buf@) is None,
            },
    {
        let name = Command::Version.name_vec();
        if accepts(&buf, name.as_slice()) {
            return Ok(Command::Version);
        }
        let name = Command::VerAck.name_vec();
        if accepts(&buf, name.as_slice()) {
            return Ok(Command::VerAck);
        }
        let name = Command::Addr.name_vec();
        if accepts(&buf, name.as_slice()) {
            return Ok(Command::Addr);
        }
        let name = Command::Inv.name_vec();
        if accepts(&buf, name.as_slice()) {
            return Ok(Command::Inv);
        }
        let name = Command::GetData.name_vec();
        if accepts(&buf, name.as_slice()) {
            return Ok(Command::GetData);
        }
        let name = Command::NotFound.name_vec();
        if accepts(&buf, name.as_slice()) {
            return Ok(Command::NotFound);
        }
        let name = Command::GetBlocks.name_vec();
        if accepts(&buf, name.as_slice()) {
            return Ok(Command::GetBlocks);
        }
        let name = Command::GetHeaders.name_vec();
        if accepts(&buf, name.as_slice()) {
            return Ok(Command::GetHeaders);
        }
        let name = Command::Tx.name_vec();
        if accepts(&buf, name.as_slice()) {
            return Ok(Command::Tx);
        }
        let name = Command::Block.name_vec();
        if accepts(&buf, name.as_slice()) {
            return Ok(Command::Block);
        }
        let name = Command::Headers.name_vec();
        if accepts(&buf, name.as_slice()) {
            return Ok(Command::Headers);
        }
        let name = Command::GetAddr.name_vec();
        if accepts(&buf, name.as_slice()) {
            return Ok(Command::GetAddr);
        }
        let name = Command::MemPool.name_vec();
        if accepts(&buf, name.as_slice()) {
            return Ok(Command::MemPool);
        }
        let name = Command::CheckOrder.name_vec();
        if accepts(&buf, name.as_slice()) {
            return Ok(Command::CheckOrder);
        }
        let name = Command::SubmitOrder.name_vec();
        if accepts(&buf, name.as_slice()) {
            return Ok(Command::SubmitOrder);
        }
        let name = Command::Reply.name_vec();
        if accepts(&buf, name.as_slice()) {
            return Ok(Command::Reply);
        }
        let name = Command::Ping.name_vec();
        if accepts(&buf, name.as_slice()) {
            return Ok(Command::Ping);
        }
        let name = Command::Pong.name_vec();
        if accepts(&buf, name.as_slice()) {
            return Ok(Command::Pong);
        }
        let name = Command::Reject.name_vec();
        if accepts(&buf, name.as_slice()) {
            return Ok(Command::Reject);
        }
        let name = Command::FilterLoad.name_vec();
        if accepts(&buf, name.as_slice()) {
            return Ok(Command::FilterLoad);
        }
        let name = Command::FilterAdd.name_vec();
        if accepts(&buf, name.as_slice()) {
            return Ok(Command::FilterAdd);
        }
        let name = Command::FilterClear.name_vec();
        if accepts(&buf, name.as_slice()) {
            return Ok(Command::FilterClear);
        }
        let name = Command::MerkleBlock.name_vec();
        if accepts(&buf, name.as_slice()) {
            return Ok(Command::MerkleBlock);
        }
        let name = Command::Alert.name_vec();
        if accepts(&buf, name.as_slice()) {
            return Ok(Command::Alert);
        }
        let name = Command::SendHeaders.name_vec();
        if accepts(&buf, name.as_slice()) {
            return Ok(Command::SendHeaders);
        }
        let name = Command::FeeFilter.name_vec();
        if accepts(&buf, name.as_slice()) {
            return Ok(Command::FeeFilter);
        }
        let name = Command::SendCmpct.name_vec();
        if accepts(&buf, name.as_slice()) {
            return Ok(Command::SendCmpct);
        }
        let name = Command::CmpctBlock.name_vec();
        if accepts(&buf, name.as_slice()) {
            return Ok(Command::CmpctBlock);
        }
        let name = Command::GetBlockTxn.name_vec();
        if accepts(&buf, name.as_slice()) {
            return Ok(Command::GetBlockTxn);
        }
        let name = Command::BlockTxn.name_vec();
        if accepts(&buf, name.as_slice()) {
            return Ok(Command::BlockTxn);
        }
        Err(CodecError::UnknownCommand)
    }
}


/// Whether two byte slices hold the same bytes.
fn bytes_equal(a: &[u8], b: &[u8]) -> (r: bool)
    ensures
        r <==> a@ == b@,
{
    if a.len() != b.len() {
        proof {
            assert(a@.len() != b@.len());
        }
        return false;
    }
    let n = a.len();
    let mut i: usize = 0;
    while i < n
        invariant
            i <= n,
            n == a@.len(),
            n == b@.len(),
            forall|j: int| 0 <= j < i ==> a@[j] == b@[j],
        decreases n - i,
    {
        if *slice_index_get(a, i) != *slice_index_get(b, i) {
            return false;
        }
        i = i + 1;
    }
    proof {
        assert(a@ =~= b@);
    }
    true
}

impl core::str::FromStr for Command {
    type Err = CodecError;

    /// Parses a lowercase command name, as `name` prints it.
    fn from_str(s: &str) -> (r: Result<Command, CodecError>) {
        let bytes = s.as_bytes();
        let name = Command::Version.name_vec();
        if bytes_equal(bytes, name.as_slice()) {
            return Ok(Command::Version);
        }
        let name = Command::VerAck.name_vec();
        if bytes_equal(bytes, name.as_slice()) {
            return Ok(Command::VerAck);
        }
        let name = Command::Addr.name_vec();
        if bytes_equal(bytes, name.as_slice()) {
            return Ok(Command::Addr);
        }
        let name = Command::Inv.name_vec();
        if bytes_equal(bytes, name.as_slice()) {
            return Ok(Command::Inv);
        }
        let name = Command::GetData.name_vec();
        if bytes_equal(bytes, name.as_slice()) {
            return Ok(Command::GetData);
        }
        let name = Command::NotFound.name_vec();
        if bytes_equal(bytes, name.as_slice()) {
            return Ok(Command::NotFound);
        }
        let name = Command::GetBlocks.name_vec();
        if bytes_equal(bytes, name.as_slice()) {
            return Ok(Command::GetBlocks);
        }
        let name = Command::GetHeaders.name_vec();
        if bytes_equal(bytes, name.as_slice()) {
            return Ok(Command::GetHeaders);
        }
        let name = Command::Tx.name_vec();
        if bytes_equal(bytes, name.as_slice()) {
            return Ok(Command::Tx);
        }
        let name = Command::Block.name_vec();
        if bytes_equal(bytes, name.as_slice()) {
            return Ok(Command::Block);
        }
        let name = Command::Headers.name_vec();
        if bytes_equal(bytes, name.as_slice()) {
            return Ok(Command::Headers);
        }
        let name = Command::GetAddr.name_vec();
        if bytes_equal(bytes, name.as_slice()) {
            return Ok(Command::GetAddr);
        }
        let name = Command::MemPool.name_vec();
        if bytes_equal(bytes, name.as_slice()) {
            return Ok(Command::MemPool);
        }
        let name = Command::CheckOrder.name_vec();
        if bytes_equal(bytes, name.as_slice()) {
            return Ok(Command::CheckOrder);
        }
        let name = Command::SubmitOrder.name_vec();
        if bytes_equal(bytes, name.as_slice()) {
            return Ok(Command::SubmitOrder);
        }
        let name = Command::Reply.name_vec();
        if bytes_equal(bytes, name.as_slice()) {
            return Ok(Command::Reply);
        }
        let name = Command::Ping.name_vec();
        if bytes_equal(bytes, name.as_slice()) {
            return Ok(Command::Ping);
        }
        let name = Command::Pong.name_vec();
        if bytes_equal(bytes, name.as_slice()) {
            return Ok(Command::Pong);
        }
        let name = Command::Reject.name_vec();
        if bytes_equal(bytes, name.as_slice()) {
            return Ok(Command::Reject);
        }
        let name = Command::FilterLoad.name_vec();
        if bytes_equal(bytes, name.as_slice()) {
            return Ok(Command::FilterLoad);
        }
        let name = Command::FilterAdd.name_vec();
        if bytes_equal(bytes, name.as_slice()) {
            return Ok(Command::FilterAdd);
        }
        let name = Command::FilterClear.name_vec();
        if bytes_equal(bytes, name.as_slice()) {
            return Ok(Command::FilterClear);
        }
        let name = Command::MerkleBlock.name_vec();
        if bytes_equal(bytes, name.as_slice()) {
            return Ok(Command::MerkleBlock);
        }
        let name = Command::Alert.name_vec();
        if bytes_equal(bytes, name.as_slice()) {
            return Ok(Command::Alert);
        }
        let name = Command::SendHeaders.name_vec();
        if bytes_equal(bytes, name.as_slice()) {
            return Ok(Command::SendHeaders);
        }
        let name = Command::FeeFilter.name_vec();
        if bytes_equal(bytes, name.as_slice()) {
            return Ok(Command::FeeFilter);
        }
        let name = Command::SendCmpct.name_vec();
        if bytes_equal(bytes, name.as_slice()) {
            return Ok(Command::SendCmpct);
        }
        let name = Command::CmpctBlock.name_vec();
        if bytes_equal(bytes, name.as_slice()) {
            return Ok(Command::CmpctBlock);
        }
        let name = Command::GetBlockTxn.name_vec();
        if bytes_equal(bytes, name.as_slice()) {
            return Ok(Command::GetBlockTxn);
        }
        let name = Command::BlockTxn.name_vec();
        if bytes_equal(bytes, name.as_slice()) {
            return Ok(Command::BlockTxn);
        }
        Err(CodecError::UnknownCommand)
    }
}

/// Every wire name is at most 12 bytes, so every padded wire form is
/// exactly 12 bytes.
pub proof fn lemma_command_wire_len(c: Command)
    ensures
        spec_command_name(c).len() <= 12,
        spec_command_wire(c).len() == 12,
{
}

/// Decoding undoes encoding: the 12-byte wire form of every command
/// reads back as exactly that command.
#[verifier::rlimit(60)]
pub proof fn lemma_command_round_trip(c: Command)
    ensures
        spec_command_decode(spec_command_wire(c)) == Some(c),
{
    let b = spec_command_wire(c);
    let name = spec_command_name(c);
    assert(b.subrange(0, name.len() as int) =~= name);
    match c {
        Command::Version => {
            assert(spec_command_decode(b) == Some(Command::Version));
        },
        Command::VerAck => {
            assert(spec_command_decode(b) == Some(Command::VerAck));
        },
        Command::Addr => {
            assert(spec_command_decode(b) == Some(Command::Addr));
        },
        Command::Inv => {
            assert(spec_command_decode(b) == Some(Command::Inv));
        },
        Command::GetData => {
            assert(spec_command_decode(b) == Some(Command::GetData));
        },
        Command::NotFound => {
            assert(spec_command_decode(b) == Some(Command::NotFound));
        },
        Command::GetBlocks => {
            assert(spec_command_decode(b) == Some(Command::GetBlocks));
        },
        Command::GetHeaders => {
            assert(spec_command_decode(b) == Some(Command::GetHeaders));
        },
        Command::Tx => {
            assert(spec_command_decode(b) == Some(Command::Tx));
        },
        Command::Block => {
            assert(spec_command_decode(b) == Some(Command::Block));
        },
        Command::Headers => {
            assert(spec_command_decode(b) == Some(Command::Headers));
        },
        Command::GetAddr => {
            assert(spec_command_decode(b) == Some(Command::GetAddr));
        },
        Command::MemPool => {
            assert(spec_command_decode(b) == Some(Command::MemPool));
        },
        Command::CheckOrder => {
            assert(spec_command_decode(b) == Some(Command::CheckOrder));
        },
        Command::SubmitOrder => {
            assert(spec_command_decode(b) == Some(Command::SubmitOrder));
        },
        Command::Reply => {
            assert(spec_command_decode(b) == Some(Command::Reply));
        },
        Command::Ping => {
            assert(spec_command_decode(b) == Some(Command::Ping));
        },
        Command::Pong => {
            assert(spec_command_decode(b) == Some(Command::Pong));
        },
        Command::Reject => {
            assert(spec_command_decode(b) == Some(Command::Reject));
        },
        Command::FilterLoad => {
            assert(spec_command_decode(b) == Some(Command::FilterLoad));
        },
        Command::FilterAdd => {
            assert(spec_command_decode(b) == Some(Command::FilterAdd));
        },
        Command::FilterClear => {
            assert(spec_command_decode(b) == Some(Command::FilterClear));
        },
        Command::MerkleBlock => {
            assert(spec_command_decode(b) == Some(Command::MerkleBlock));
        },
        Command::Alert => {
            assert(spec_command_decode(b) == Some(Command::Alert));
        },
        Command::SendHeaders => {
            assert(spec_command_decode(b) == Some(Command::SendHeaders));
        },
        Command::FeeFilter => {
            assert(spec_command_decode(b) == Some(Command::FeeFilter));
        },
        Command::SendCmpct => {
            assert(spec_command_decode(b) == Some(Command::SendCmpct));
        },
        Command::CmpctBlock => {
            assert(spec_command_decode(b) == Some(Command::CmpctBlock));
        },
        Command::GetBlockTxn => {
            assert(spec_command_decode(b) == Some(Command::GetBlockTxn));
        },
        Command::BlockTxn => {
            assert(spec_command_decode(b) == Some(Command::BlockTxn));
        },
    }
}

} // verus!
