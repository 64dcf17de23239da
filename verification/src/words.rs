//! The fixed vocabulary of Huff: keywords, EVM opcode mnemonics and builtin
//! function names.
//!
//! Each table is written as a chain of comparisons rather than a map built at
//! start-up: a `HashMap` keyed by `String` gives no specification that ties a
//! lookup to the key's characters, while a chain of comparisons lets each
//! lookup be proved equal to the spec table it is written beside.
use vstd::prelude::*;
use crate::text::chars_equal_str;
use crate::token::{SpecTokenKind, TokenKind};

verus! {

/// The keyword that `w` spells, if any: the words a Huff source uses for
/// definitions (`macro`, `fn`, `test`, `function`, `constant`, `error`,
/// `event`, `jumptable`, `jumptable__packed`, `table`) and for signatures
/// (`takes`, `returns`, `nonpayable`, `payable`, `indexed`, `view`, `pure`).
pub open spec fn keyword_kind(w: Seq<char>) -> Option<SpecTokenKind> {
    if w == "macro"@ {
        Some(SpecTokenKind::Macro)
    } else if w == "fn"@ {
        Some(SpecTokenKind::Fn)
    } else if w == "test"@ {
        Some(SpecTokenKind::Test)
    } else if w == "function"@ {
        Some(SpecTokenKind::Function)
    } else if w == "constant"@ {
        Some(SpecTokenKind::Constant)
    } else if w == "error"@ {
        Some(SpecTokenKind::Error)
    } else if w == "takes"@ {
        Some(SpecTokenKind::Takes)
    } else if w == "returns"@ {
        Some(SpecTokenKind::Returns)
    } else if w == "event"@ {
        Some(SpecTokenKind::Event)
    } else if w == "nonpayable"@ {
        Some(SpecTokenKind::NonPayable)
    } else if w == "payable"@ {
        Some(SpecTokenKind::Payable)
    } else if w == "indexed"@ {
        Some(SpecTokenKind::Indexed)
    } else if w == "view"@ {
        Some(SpecTokenKind::View)
    } else if w == "pure"@ {
        Some(SpecTokenKind::Pure)
    } else if w == "jumptable__packed"@ {
        Some(SpecTokenKind::JumpTablePacked)
    } else if w == "jumptable"@ {
        Some(SpecTokenKind::JumpTable)
    } else if w == "table"@ {
        Some(SpecTokenKind::CodeTable)
    } else {
        None
    }
}

/// The mathematical value of an optional kind.
pub open spec fn opt_kind_view(k: Option<TokenKind>) -> Option<SpecTokenKind> {
    match k {
        Some(k) => Some(k@),
        None => None,
    }
}

/// Looks up the keyword that `w` spells.
pub fn lookup_keyword(w: &Vec<char>) -> (res: Option<TokenKind>)
    ensures
        opt_kind_view(res) == keyword_kind(w@),
{
    if chars_equal_str(w, "macro") {
        Some(TokenKind::Macro)
    } else if chars_equal_str(w, "fn") {
        Some(TokenKind::Fn)
    } else if chars_equal_str(w, "test") {
        Some(TokenKind::Test)
    } else if chars_equal_str(w, "function") {
        Some(TokenKind::Function)
    } else if chars_equal_str(w, "constant") {
        Some(TokenKind::Constant)
    } else if chars_equal_str(w, "error") {
        Some(TokenKind::Error)
    } else if chars_equal_str(w, "takes") {
        Some(TokenKind::Takes)
    } else if chars_equal_str(w, "returns") {
        Some(TokenKind::Returns)
    } else if chars_equal_str(w, "event") {
        Some(TokenKind::Event)
    } else if chars_equal_str(w, "nonpayable") {
        Some(TokenKind::NonPayable)
    } else if chars_equal_str(w, "payable") {
        Some(TokenKind::Payable)
    } else if chars_equal_str(w, "indexed") {
        Some(TokenKind::Indexed)
    } else if chars_equal_str(w, "view") {
        Some(TokenKind::View)
    } else if chars_equal_str(w, "pure") {
        Some(TokenKind::Pure)
    } else if chars_equal_str(w, "jumptable__packed") {
        Some(TokenKind::JumpTablePacked)
    } else if chars_equal_str(w, "jumptable") {
        Some(TokenKind::JumpTable)
    } else if chars_equal_str(w, "table") {
        Some(TokenKind::CodeTable)
    } else {
        None
    }
}

/// Whether `w` names a builtin function.
pub open spec fn is_builtin_name(w: Seq<char>) -> bool {
    ||| w == "__tablesize"@
    ||| w == "__codesize"@
    ||| w == "__tablestart"@
    ||| w == "__FUNC_SIG"@
    ||| w == "__EVENT_HASH"@
    ||| w == "__ERROR"@
    ||| w == "__RIGHTPAD"@
    ||| w == "__CODECOPY_DYN_ARG"@
    ||| w == "__VERBATIM"@
}

/// Whether `w` names a builtin function.
pub fn builtin_name(w: &Vec<char>) -> (res: bool)
    ensures
        res == is_builtin_name(w@),
{
    chars_equal_str(w, "__tablesize") || chars_equal_str(w, "__codesize") || chars_equal_str(
        w,
        "__tablestart",
    ) || chars_equal_str(w, "__FUNC_SIG") || chars_equal_str(w, "__EVENT_HASH")
        || chars_equal_str(w, "__ERROR") || chars_equal_str(w, "__RIGHTPAD") || chars_equal_str(
        w,
        "__CODECOPY_DYN_ARG",
    ) || chars_equal_str(w, "__VERBATIM")
}

/// The instruction byte of the EVM opcode with mnemonic `w`, if `w` is one.
pub open spec fn opcode_of(w: Seq<char>) -> Option<u8> {
    if w == "add"@ {
        Some(0x01u8)
    } else if w == "addmod"@ {
        Some(0x08u8)
    } else if w == "and"@ {
        Some(0x16u8)
    } else if w == "address"@ {
        Some(0x30u8)
    } else if w == "byte"@ {
        Some(0x1au8)
    } else if w == "balance"@ {
        Some(0x31u8)
    } else if w == "blockhash"@ {
        Some(0x40u8)
    } else if w == "basefee"@ {
        Some(0x48u8)
    } else if w == "blobhash"@ {
        Some(0x49u8)
    } else if w == "blobbasefee"@ {
        Some(0x4au8)
    } else if w == "caller"@ {
        Some(0x33u8)
    } else if w == "callvalue"@ {
        Some(0x34u8)
    } else if w == "calldataload"@ {
        Some(0x35u8)
    } else if w == "calldatasize"@ {
        Some(0x36u8)
    } else if w == "calldatacopy"@ {
        Some(0x37u8)
    } else if w == "codesize"@ {
        Some(0x38u8)
    } else if w == "codecopy"@ {
        Some(0x39u8)
    } else if w == "coinbase"@ {
        Some(0x41u8)
    } else if w == "chainid"@ {
        Some(0x46u8)
    } else if w == "create"@ {
        Some(0xf0u8)
    } else if w == "call"@ {
        Some(0xf1u8)
    } else if w == "callcode"@ {
        Some(0xf2u8)
    } else if w == "create2"@ {
        Some(0xf5u8)
    } else if w == "div"@ {
        Some(0x04u8)
    } else if w == "difficulty"@ {
        Some(0x44u8)
    } else if w == "dup1"@ {
        Some(0x80u8)
    } else if w == "dup2"@ {
        Some(0x81u8)
    } else if w == "dup3"@ {
        Some(0x82u8)
    } else if w == "dup4"@ {
        Some(0x83u8)
    } else if w == "dup5"@ {
        Some(0x84u8)
    } else if w == "dup6"@ {
        Some(0x85u8)
    } else if w == "dup7"@ {
        Some(0x86u8)
    } else if w == "dup8"@ {
        Some(0x87u8)
    } else if w == "dup9"@ {
        Some(0x88u8)
    } else if w == "dup10"@ {
        Some(0x89u8)
    } else if w == "dup11"@ {
        Some(0x8au8)
    } else if w == "dup12"@ {
        Some(0x8bu8)
    } else if w == "dup13"@ {
        Some(0x8cu8)
    } else if w == "dup14"@ {
        Some(0x8du8)
    } else if w == "dup15"@ {
        Some(0x8eu8)
    } else if w == "dup16"@ {
        Some(0x8fu8)
    } else if w == "delegatecall"@ {
        Some(0xf4u8)
    } else if w == "exp"@ {
        Some(0x0au8)
    } else if w == "eq"@ {
        Some(0x14u8)
    } else if w == "extcodesize"@ {
        Some(0x3bu8)
    } else if w == "extcodecopy"@ {
        Some(0x3cu8)
    } else if w == "extcodehash"@ {
        Some(0x3fu8)
    } else if w == "gt"@ {
        Some(0x11u8)
    } else if w == "gasprice"@ {
        Some(0x3au8)
    } else if w == "gaslimit"@ {
        Some(0x45u8)
    } else if w == "gas"@ {
        Some(0x5au8)
    } else if w == "iszero"@ {
        Some(0x15u8)
    } else if w == "invalid"@ {
        Some(0xfeu8)
    } else if w == "jump"@ {
        Some(0x56u8)
    } else if w == "jumpi"@ {
        Some(0x57u8)
    } else if w == "jumpdest"@ {
        Some(0x5bu8)
    } else if w == "keccak256"@ {
        Some(0x20u8)
    } else if w == "lt"@ {
        Some(0x10u8)
    } else if w == "log0"@ {
        Some(0xa0u8)
    } else if w == "log1"@ {
        Some(0xa1u8)
    } else if w == "log2"@ {
        Some(0xa2u8)
    } else if w == "log3"@ {
        Some(0xa3u8)
    } else if w == "log4"@ {
        Some(0xa4u8)
    } else if w == "mul"@ {
        Some(0x02u8)
    } else if w == "mod"@ {
        Some(0x06u8)
    } else if w == "mulmod"@ {
        Some(0x09u8)
    } else if w == "mload"@ {
        Some(0x51u8)
    } else if w == "mstore"@ {
        Some(0x52u8)
    } else if w == "mstore8"@ {
        Some(0x53u8)
    } else if w == "msize"@ {
        Some(0x59u8)
    } else if w == "mcopy"@ {
        Some(0x5eu8)
    } else if w == "not"@ {
        Some(0x19u8)
    } else if w == "number"@ {
        Some(0x43u8)
    } else if w == "or"@ {
        Some(0x17u8)
    } else if w == "origin"@ {
        Some(0x32u8)
    } else if w == "prevrandao"@ {
        Some(0x44u8)
    } else if w == "pop"@ {
        Some(0x50u8)
    } else if w == "pc"@ {
        Some(0x58u8)
    } else if w == "push0"@ {
        Some(0x5fu8)
    } else if w == "push1"@ {
        Some(0x60u8)
    } else if w == "push2"@ {
        Some(0x61u8)
    } else if w == "push3"@ {
        Some(0x62u8)
    } else if w == "push4"@ {
        Some(0x63u8)
    } else if w == "push5"@ {
        Some(0x64u8)
    } else if w == "push6"@ {
        Some(0x65u8)
    } else if w == "push7"@ {
        Some(0x66u8)
    } else if w == "push8"@ {
        Some(0x67u8)
    } else if w == "push9"@ {
        Some(0x68u8)
    } else if w == "push10"@ {
        Some(0x69u8)
    } else if w == "push11"@ {
        Some(0x6au8)
    } else if w == "push12"@ {
        Some(0x6bu8)
    } else if w == "push13"@ {
        Some(0x6cu8)
    } else if w == "push14"@ {
        Some(0x6du8)
    } else if w == "push15"@ {
        Some(0x6eu8)
    } else if w == "push16"@ {
        Some(0x6fu8)
    } else if w == "push17"@ {
        Some(0x70u8)
    } else if w == "push18"@ {
        Some(0x71u8)
    } else if w == "push19"@ {
        Some(0x72u8)
    } else if w == "push20"@ {
        Some(0x73u8)
    } else if w == "push21"@ {
        Some(0x74u8)
    } else if w == "push22"@ {
        Some(0x75u8)
    } else if w == "push23"@ {
        Some(0x76u8)
    } else if w == "push24"@ {
        Some(0x77u8)
    } else if w == "push25"@ {
        Some(0x78u8)
    } else if w == "push26"@ {
        Some(0x79u8)
    } else if w == "push27"@ {
        Some(0x7au8)
    } else if w == "push28"@ {
        Some(0x7bu8)
    } else if w == "push29"@ {
        Some(0x7cu8)
    } else if w == "push30"@ {
        Some(0x7du8)
    } else if w == "push31"@ {
        Some(0x7eu8)
    } else if w == "push32"@ {
        Some(0x7fu8)
    } else if w == "returndatasize"@ {
        Some(0x3du8)
    } else if w == "returndatacopy"@ {
        Some(0x3eu8)
    } else if w == "return"@ {
        Some(0xf3u8)
    } else if w == "revert"@ {
        Some(0xfdu8)
    } else if w == "stop"@ {
        Some(0x00u8)
    } else if w == "sub"@ {
        Some(0x03u8)
    } else if w == "sdiv"@ {
        Some(0x05u8)
    } else if w == "smod"@ {
        Some(0x07u8)
    } else if w == "signextend"@ {
        Some(0x0bu8)
    } else if w == "slt"@ {
        Some(0x12u8)
    } else if w == "sgt"@ {
        Some(0x13u8)
    } else if w == "shl"@ {
        Some(0x1bu8)
    } else if w == "shr"@ {
        Some(0x1cu8)
    } else if w == "sar"@ {
        Some(0x1du8)
    } else if w == "sha3"@ {
        Some(0x20u8)
    } else if w == "selfbalance"@ {
        Some(0x47u8)
    } else if w == "sload"@ {
        Some(0x54u8)
    } else if w == "sstore"@ {
        Some(0x55u8)
    } else if w == "swap1"@ {
        Some(0x90u8)
    } else if w == "swap2"@ {
        Some(0x91u8)
    } else if w == "swap3"@ {
        Some(0x92u8)
    } else if w == "swap4"@ {
        Some(0x93u8)
    } else if w == "swap5"@ {
        Some(0x94u8)
    } else if w == "swap6"@ {
        Some(0x95u8)
    } else if w == "swap7"@ {
        Some(0x96u8)
    } else if w == "swap8"@ {
        Some(0x97u8)
    } else if w == "swap9"@ {
        Some(0x98u8)
    } else if w == "swap10"@ {
        Some(0x99u8)
    } else if w == "swap11"@ {
        Some(0x9au8)
    } else if w == "swap12"@ {
        Some(0x9bu8)
    } else if w == "swap13"@ {
        Some(0x9cu8)
    } else if w == "swap14"@ {
        Some(0x9du8)
    } else if w == "swap15"@ {
        Some(0x9eu8)
    } else if w == "swap16"@ {
        Some(0x9fu8)
    } else if w == "staticcall"@ {
        Some(0xfau8)
    } else if w == "selfdestruct"@ {
        Some(0xffu8)
    } else if w == "timestamp"@ {
        Some(0x42u8)
    } else if w == "tload"@ {
        Some(0x5cu8)
    } else if w == "tstore"@ {
        Some(0x5du8)
    } else if w == "xor"@ {
        Some(0x18u8)
    } else {
        None
    }
}

/// Looks up the opcode whose mnemonic is `w`.
pub fn lookup_opcode(w: &Vec<char>) -> (res: Option<u8>)
    ensures
        res == opcode_of(w@),
{
    if chars_equal_str(w, "add") {
        Some(0x01u8)
    } else if chars_equal_str(w, "addmod") {
        Some(0x08u8)
    } else if chars_equal_str(w, "and") {
        Some(0x16u8)
    } else if chars_equal_str(w, "address") {
        Some(0x30u8)
    } else if chars_equal_str(w, "byte") {
        Some(0x1au8)
    } else if chars_equal_str(w, "balance") {
        Some(0x31u8)
    } else if chars_equal_str(w, "blockhash") {
        Some(0x40u8)
    } else if chars_equal_str(w, "basefee") {
        Some(0x48u8)
    } else if chars_equal_str(w, "blobhash") {
        Some(0x49u8)
    } else if chars_equal_str(w, "blobbasefee") {
        Some(0x4au8)
    } else if chars_equal_str(w, "caller") {
        Some(0x33u8)
    } else if chars_equal_str(w, "callvalue") {
        Some(0x34u8)
    } else if chars_equal_str(w, "calldataload") {
        Some(0x35u8)
    } else if chars_equal_str(w, "calldatasize") {
        Some(0x36u8)
    } else if chars_equal_str(w, "calldatacopy") {
        Some(0x37u8)
    } else if chars_equal_str(w, "codesize") {
        Some(0x38u8)
    } else if chars_equal_str(w, "codecopy") {
        Some(0x39u8)
    } else if chars_equal_str(w, "coinbase") {
        Some(0x41u8)
    } else if chars_equal_str(w, "chainid") {
        Some(0x46u8)
    } else if chars_equal_str(w, "create") {
        Some(0xf0u8)
    } else if chars_equal_str(w, "call") {
        Some(0xf1u8)
    } else if chars_equal_str(w, "callcode") {
        Some(0xf2u8)
    } else if chars_equal_str(w, "create2") {
        Some(0xf5u8)
    } else if chars_equal_str(w, "div") {
        Some(0x04u8)
    } else if chars_equal_str(w, "difficulty") {
        Some(0x44u8)
    } else if chars_equal_str(w, "dup1") {
        Some(0x80u8)
    } else if chars_equal_str(w, "dup2") {
        Some(0x81u8)
    } else if chars_equal_str(w, "dup3") {
        Some(0x82u8)
    } else if chars_equal_str(w, "dup4") {
        Some(0x83u8)
    } else if chars_equal_str(w, "dup5") {
        Some(0x84u8)
    } else if chars_equal_str(w, "dup6") {
        Some(0x85u8)
    } else if chars_equal_str(w, "dup7") {
        Some(0x86u8)
    } else if chars_equal_str(w, "dup8") {
        Some(0x87u8)
    } else if chars_equal_str(w, "dup9") {
        Some(0x88u8)
    } else if chars_equal_str(w, "dup10") {
        Some(0x89u8)
    } else if chars_equal_str(w, "dup11") {
        Some(0x8au8)
    } else if chars_equal_str(w, "dup12") {
        Some(0x8bu8)
    } else if chars_equal_str(w, "dup13") {
        Some(0x8cu8)
    } else if chars_equal_str(w, "dup14") {
        Some(0x8du8)
    } else if chars_equal_str(w, "dup15") {
        Some(0x8eu8)
    } else if chars_equal_str(w, "dup16") {
        Some(0x8fu8)
    } else if chars_equal_str(w, "delegatecall") {
        Some(0xf4u8)
    } else if chars_equal_str(w, "exp") {
        Some(0x0au8)
    } else if chars_equal_str(w, "eq") {
        Some(0x14u8)
    } else if chars_equal_str(w, "extcodesize") {
        Some(0x3bu8)
    } else if chars_equal_str(w, "extcodecopy") {
        Some(0x3cu8)
    } else if chars_equal_str(w, "extcodehash") {
        Some(0x3fu8)
    } else if chars_equal_str(w, "gt") {
        Some(0x11u8)
    } else if chars_equal_str(w, "gasprice") {
        Some(0x3au8)
    } else if chars_equal_str(w, "gaslimit") {
        Some(0x45u8)
    } else if chars_equal_str(w, "gas") {
        Some(0x5au8)
    } else if chars_equal_str(w, "iszero") {
        Some(0x15u8)
    } else if chars_equal_str(w, "invalid") {
        Some(0xfeu8)
    } else if chars_equal_str(w, "jump") {
        Some(0x56u8)
    } else if chars_equal_str(w, "jumpi") {
        Some(0x57u8)
    } else if chars_equal_str(w, "jumpdest") {
        Some(0x5bu8)
    } else if chars_equal_str(w, "keccak256") {
        Some(0x20u8)
    } else if chars_equal_str(w, "lt") {
        Some(0x10u8)
    } else if chars_equal_str(w, "log0") {
        Some(0xa0u8)
    } else if chars_equal_str(w, "log1") {
        Some(0xa1u8)
    } else if chars_equal_str(w, "log2") {
        Some(0xa2u8)
    } else if chars_equal_str(w, "log3") {
        Some(0xa3u8)
    } else if chars_equal_str(w, "log4") {
        Some(0xa4u8)
    } else if chars_equal_str(w, "mul") {
        Some(0x02u8)
    } else if chars_equal_str(w, "mod") {
        Some(0x06u8)
    } else if chars_equal_str(w, "mulmod") {
        Some(0x09u8)
    } else if chars_equal_str(w, "mload") {
        Some(0x51u8)
    } else if chars_equal_str(w, "mstore") {
        Some(0x52u8)
    } else if chars_equal_str(w, "mstore8") {
        Some(0x53u8)
    } else if chars_equal_str(w, "msize") {
        Some(0x59u8)
    } else if chars_equal_str(w, "mcopy") {
        Some(0x5eu8)
    } else if chars_equal_str(w, "not") {
        Some(0x19u8)
    } else if chars_equal_str(w, "number") {
        Some(0x43u8)
    } else if chars_equal_str(w, "or") {
        Some(0x17u8)
    } else if chars_equal_str(w, "origin") {
        Some(0x32u8)
    } else if chars_equal_str(w, "prevrandao") {
        Some(0x44u8)
    } else if chars_equal_str(w, "pop") {
        Some(0x50u8)
    } else if chars_equal_str(w, "pc") {
        Some(0x58u8)
    } else if chars_equal_str(w, "push0") {
        Some(0x5fu8)
    } else if chars_equal_str(w, "push1") {
        Some(0x60u8)
    } else if chars_equal_str(w, "push2") {
        Some(0x61u8)
    } else if chars_equal_str(w, "push3") {
        Some(0x62u8)
    } else if chars_equal_str(w, "push4") {
        Some(0x63u8)
    } else if chars_equal_str(w, "push5") {
        Some(0x64u8)
    } else if chars_equal_str(w, "push6") {
        Some(0x65u8)
    } else if chars_equal_str(w, "push7") {
        Some(0x66u8)
    } else if chars_equal_str(w, "push8") {
        Some(0x67u8)
    } else if chars_equal_str(w, "push9") {
        Some(0x68u8)
    } else if chars_equal_str(w, "push10") {
        Some(0x69u8)
    } else if chars_equal_str(w, "push11") {
        Some(0x6au8)
    } else if chars_equal_str(w, "push12") {
        Some(0x6bu8)
    } else if chars_equal_str(w, "push13") {
        Some(0x6cu8)
    } else if chars_equal_str(w, "push14") {
        Some(0x6du8)
    } else if chars_equal_str(w, "push15") {
        Some(0x6eu8)
    } else if chars_equal_str(w, "push16") {
        Some(0x6fu8)
    } else if chars_equal_str(w, "push17") {
        Some(0x70u8)
    } else if chars_equal_str(w, "push18") {
        Some(0x71u8)
    } else if chars_equal_str(w, "push19") {
        Some(0x72u8)
    } else if chars_equal_str(w, "push20") {
        Some(0x73u8)
    } else if chars_equal_str(w, "push21") {
        Some(0x74u8)
    } else if chars_equal_str(w, "push22") {
        Some(0x75u8)
    } else if chars_equal_str(w, "push23") {
        Some(0x76u8)
    } else if chars_equal_str(w, "push24") {
        Some(0x77u8)
    } else if chars_equal_str(w, "push25") {
        Some(0x78u8)
    } else if chars_equal_str(w, "push26") {
        Some(0x79u8)
    } else if chars_equal_str(w, "push27") {
        Some(0x7au8)
    } else if chars_equal_str(w, "push28") {
        Some(0x7bu8)
    } else if chars_equal_str(w, "push29") {
        Some(0x7cu8)
    } else if chars_equal_str(w, "push30") {
        Some(0x7du8)
    } else if chars_equal_str(w, "push31") {
        Some(0x7eu8)
    } else if chars_equal_str(w, "push32") {
        Some(0x7fu8)
    } else if chars_equal_str(w, "returndatasize") {
        Some(0x3du8)
    } else if chars_equal_str(w, "returndatacopy") {
        Some(0x3eu8)
    } else if chars_equal_str(w, "return") {
        Some(0xf3u8)
    } else if chars_equal_str(w, "revert") {
        Some(0xfdu8)
    } else if chars_equal_str(w, "stop") {
        Some(0x00u8)
    } else if chars_equal_str(w, "sub") {
        Some(0x03u8)
    } else if chars_equal_str(w, "sdiv") {
        Some(0x05u8)
    } else if chars_equal_str(w, "smod") {
        Some(0x07u8)
    } else if chars_equal_str(w, "signextend") {
        Some(0x0bu8)
    } else if chars_equal_str(w, "slt") {
        Some(0x12u8)
    } else if chars_equal_str(w, "sgt") {
        Some(0x13u8)
    } else if chars_equal_str(w, "shl") {
        Some(0x1bu8)
    } else if chars_equal_str(w, "shr") {
        Some(0x1cu8)
    } else if chars_equal_str(w, "sar") {
        Some(0x1du8)
    } else if chars_equal_str(w, "sha3") {
        Some(0x20u8)
    } else if chars_equal_str(w, "selfbalance") {
        Some(0x47u8)
    } else if chars_equal_str(w, "sload") {
        Some(0x54u8)
    } else if chars_equal_str(w, "sstore") {
        Some(0x55u8)
    } else if chars_equal_str(w, "swap1") {
        Some(0x90u8)
    } else if chars_equal_str(w, "swap2") {
        Some(0x91u8)
    } else if chars_equal_str(w, "swap3") {
        Some(0x92u8)
    } else if chars_equal_str(w, "swap4") {
        Some(0x93u8)
    } else if chars_equal_str(w, "swap5") {
        Some(0x94u8)
    } else if chars_equal_str(w, "swap6") {
        Some(0x95u8)
    } else if chars_equal_str(w, "swap7") {
        Some(0x96u8)
    } else if chars_equal_str(w, "swap8") {
        Some(0x97u8)
    } else if chars_equal_str(w, "swap9") {
        Some(0x98u8)
    } else if chars_equal_str(w, "swap10") {
        Some(0x99u8)
    } else if chars_equal_str(w, "swap11") {
        Some(0x9au8)
    } else if chars_equal_str(w, "swap12") {
        Some(0x9bu8)
    } else if chars_equal_str(w, "swap13") {
        Some(0x9cu8)
    } else if chars_equal_str(w, "swap14") {
        Some(0x9du8)
    } else if chars_equal_str(w, "swap15") {
        Some(0x9eu8)
    } else if chars_equal_str(w, "swap16") {
        Some(0x9fu8)
    } else if chars_equal_str(w, "staticcall") {
        Some(0xfau8)
    } else if chars_equal_str(w, "selfdestruct") {
        Some(0xffu8)
    } else if chars_equal_str(w, "timestamp") {
        Some(0x42u8)
    } else if chars_equal_str(w, "tload") {
        Some(0x5cu8)
    } else if chars_equal_str(w, "tstore") {
        Some(0x5du8)
    } else if chars_equal_str(w, "xor") {
        Some(0x18u8)
    } else {
        None
    }
}

} // verus!
