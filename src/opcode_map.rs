use vstd::prelude::*;

use crate::addr::wrap16;
use crate::addressing::{shift_pc, with_pc};
use crate::bus::peek_spec;
use crate::cpu::{AddressMode, Flag, Register};
use crate::error::EmuError;
use crate::opcode::OpCode;
use crate::system::System;

verus! {

/// The decode table: the operation and addressing mode of each opcode byte this
/// processor implements.
pub open spec fn decode_spec(byte: u8) -> Option<(OpCode, AddressMode)> {
    match byte {
        0x00 => Some((OpCode::Break, AddressMode::Implied)),
        0x01 => Some((OpCode::Or, AddressMode::Indirect(Some(Register::X)))),
        0x03 => Some((OpCode::ShiftLeftOrHack, AddressMode::Indirect(Some(Register::X)))),
        0x04 => Some((OpCode::NoOp, AddressMode::Zero(None))),
        0x05 => Some((OpCode::Or, AddressMode::Zero(None))),
        0x06 => Some((OpCode::ShiftLeft, AddressMode::Zero(None))),
        0x07 => Some((OpCode::ShiftLeftOrHack, AddressMode::Zero(None))),
        0x08 => Some((OpCode::PushFlags, AddressMode::Implied)),
        0x09 => Some((OpCode::Or, AddressMode::Immediate)),
        0x0a => Some((OpCode::ShiftLeft, AddressMode::Register(Register::A))),
        0x0c => Some((OpCode::NoOp, AddressMode::Absolute(None))),
        0x0d => Some((OpCode::Or, AddressMode::Absolute(None))),
        0x0e => Some((OpCode::ShiftLeft, AddressMode::Absolute(None))),
        0x0f => Some((OpCode::ShiftLeftOrHack, AddressMode::Absolute(None))),
        0x10 => Some((OpCode::BranchIf(Flag::Negative, false), AddressMode::Relative)),
        0x11 => Some((OpCode::Or, AddressMode::Indirect(Some(Register::Y)))),
        0x13 => Some((OpCode::ShiftLeftOrHack, AddressMode::Indirect(Some(Register::Y)))),
        0x14 => Some((OpCode::NoOp, AddressMode::Zero(Some(Register::X)))),
        0x15 => Some((OpCode::Or, AddressMode::Zero(Some(Register::X)))),
        0x16 => Some((OpCode::ShiftLeft, AddressMode::Zero(Some(Register::X)))),
        0x17 => Some((OpCode::ShiftLeftOrHack, AddressMode::Zero(Some(Register::X)))),
        0x18 => Some((OpCode::SetFlag(Flag::Carry, false), AddressMode::Implied)),
        0x19 => Some((OpCode::Or, AddressMode::Absolute(Some(Register::Y)))),
        0x1a => Some((OpCode::NoOp, AddressMode::Implied)),
        0x1b => Some((OpCode::ShiftLeftOrHack, AddressMode::Absolute(Some(Register::Y)))),
        0x1c => Some((OpCode::NoOp, AddressMode::Absolute(Some(Register::X)))),
        0x1d => Some((OpCode::Or, AddressMode::Absolute(Some(Register::X)))),
        0x1e => Some((OpCode::ShiftLeft, AddressMode::Absolute(Some(Register::X)))),
        0x1f => Some((OpCode::ShiftLeftOrHack, AddressMode::Absolute(Some(Register::X)))),
        0x20 => Some((OpCode::JumpSub, AddressMode::Absolute(None))),
        0x21 => Some((OpCode::And, AddressMode::Indirect(Some(Register::X)))),
        0x23 => Some((OpCode::RotLeftAndHack, AddressMode::Indirect(Some(Register::X)))),
        0x24 => Some((OpCode::Bit, AddressMode::Zero(None))),
        0x25 => Some((OpCode::And, AddressMode::Zero(None))),
        0x26 => Some((OpCode::RotateLeft, AddressMode::Zero(None))),
        0x27 => Some((OpCode::RotLeftAndHack, AddressMode::Zero(None))),
        0x28 => Some((OpCode::PullFlags, AddressMode::Implied)),
        0x29 => Some((OpCode::And, AddressMode::Immediate)),
        0x2a => Some((OpCode::RotateLeft, AddressMode::Register(Register::A))),
        0x2c => Some((OpCode::Bit, AddressMode::Absolute(None))),
        0x2d => Some((OpCode::And, AddressMode::Absolute(None))),
        0x2e => Some((OpCode::RotateLeft, AddressMode::Absolute(None))),
        0x2f => Some((OpCode::RotLeftAndHack, AddressMode::Absolute(None))),
        0x30 => Some((OpCode::BranchIf(Flag::Negative, true), AddressMode::Relative)),
        0x31 => Some((OpCode::And, AddressMode::Indirect(Some(Register::Y)))),
        0x33 => Some((OpCode::RotLeftAndHack, AddressMode::Indirect(Some(Register::Y)))),
        0x34 => Some((OpCode::NoOp, AddressMode::Zero(Some(Register::X)))),
        0x35 => Some((OpCode::And, AddressMode::Zero(Some(Register::X)))),
        0x36 => Some((OpCode::RotateLeft, AddressMode::Zero(Some(Register::X)))),
        0x37 => Some((OpCode::RotLeftAndHack, AddressMode::Zero(Some(Register::X)))),
        0x38 => Some((OpCode::SetFlag(Flag::Carry, true), AddressMode::Implied)),
        0x39 => Some((OpCode::And, AddressMode::Absolute(Some(Register::Y)))),
        0x3a => Some((OpCode::NoOp, AddressMode::Implied)),
        0x3b => Some((OpCode::RotLeftAndHack, AddressMode::Absolute(Some(Register::Y)))),
        0x3c => Some((OpCode::NoOp, AddressMode::Absolute(Some(Register::X)))),
        0x3d => Some((OpCode::And, AddressMode::Absolute(Some(Register::X)))),
        0x3e => Some((OpCode::RotateLeft, AddressMode::Absolute(Some(Register::X)))),
        0x3f => Some((OpCode::RotLeftAndHack, AddressMode::Absolute(Some(Register::X)))),
        0x40 => Some((OpCode::ReturnInt, AddressMode::Implied)),
        0x41 => Some((OpCode::ExOr, AddressMode::Indirect(Some(Register::X)))),
        0x43 => Some((OpCode::ShiftRightOrHack, AddressMode::Indirect(Some(Register::X)))),
        0x44 => Some((OpCode::NoOp, AddressMode::Zero(None))),
        0x45 => Some((OpCode::ExOr, AddressMode::Zero(None))),
        0x46 => Some((OpCode::ShiftRight, AddressMode::Zero(None))),
        0x47 => Some((OpCode::ShiftRightOrHack, AddressMode::Zero(None))),
        0x48 => Some((OpCode::PushAcc, AddressMode::Implied)),
        0x49 => Some((OpCode::ExOr, AddressMode::Immediate)),
        0x4a => Some((OpCode::ShiftRight, AddressMode::Register(Register::A))),
        0x4c => Some((OpCode::Jump, AddressMode::Absolute(None))),
        0x4d => Some((OpCode::ExOr, AddressMode::Absolute(None))),
        0x4e => Some((OpCode::ShiftRight, AddressMode::Absolute(None))),
        0x4f => Some((OpCode::ShiftRightOrHack, AddressMode::Absolute(None))),
        0x50 => Some((OpCode::BranchIf(Flag::Overflow, false), AddressMode::Relative)),
        0x51 => Some((OpCode::ExOr, AddressMode::Indirect(Some(Register::Y)))),
        0x53 => Some((OpCode::ShiftRightOrHack, AddressMode::Indirect(Some(Register::Y)))),
        0x54 => Some((OpCode::NoOp, AddressMode::Zero(Some(Register::X)))),
        0x55 => Some((OpCode::ExOr, AddressMode::Zero(Some(Register::X)))),
        0x56 => Some((OpCode::ShiftRight, AddressMode::Zero(Some(Register::X)))),
        0x57 => Some((OpCode::ShiftRightOrHack, AddressMode::Zero(Some(Register::X)))),
        0x58 => Some((OpCode::SetFlag(Flag::Interrupt, false), AddressMode::Implied)),
        0x59 => Some((OpCode::ExOr, AddressMode::Absolute(Some(Register::Y)))),
        0x5a => Some((OpCode::NoOp, AddressMode::Implied)),
        0x5b => Some((OpCode::ShiftRightOrHack, AddressMode::Absolute(Some(Register::Y)))),
        0x5c => Some((OpCode::NoOp, AddressMode::Absolute(Some(Register::X)))),
        0x5d => Some((OpCode::ExOr, AddressMode::Absolute(Some(Register::X)))),
        0x5e => Some((OpCode::ShiftRight, AddressMode::Absolute(Some(Register::X)))),
        0x5f => Some((OpCode::ShiftRightOrHack, AddressMode::Absolute(Some(Register::X)))),
        0x60 => Some((OpCode::ReturnSub, AddressMode::Implied)),
        0x61 => Some((OpCode::Add, AddressMode::Indirect(Some(Register::X)))),
        0x63 => Some((OpCode::RotRightAddHack, AddressMode::Indirect(Some(Register::X)))),
        0x64 => Some((OpCode::NoOp, AddressMode::Zero(None))),
        0x65 => Some((OpCode::Add, AddressMode::Zero(None))),
        0x66 => Some((OpCode::RotateRight, AddressMode::Zero(None))),
        0x67 => Some((OpCode::RotRightAddHack, AddressMode::Zero(None))),
        0x68 => Some((OpCode::PullAcc, AddressMode::Implied)),
        0x69 => Some((OpCode::Add, AddressMode::Immediate)),
        0x6a => Some((OpCode::RotateRight, AddressMode::Register(Register::A))),
        0x6c => Some((OpCode::Jump, AddressMode::Indirect(None))),
        0x6d => Some((OpCode::Add, AddressMode::Absolute(None))),
        0x6e => Some((OpCode::RotateRight, AddressMode::Absolute(None))),
        0x6f => Some((OpCode::RotRightAddHack, AddressMode::Absolute(None))),
        0x70 => Some((OpCode::BranchIf(Flag::Overflow, true), AddressMode::Relative)),
        0x71 => Some((OpCode::Add, AddressMode::Indirect(Some(Register::Y)))),
        0x73 => Some((OpCode::RotRightAddHack, AddressMode::Indirect(Some(Register::Y)))),
        0x74 => Some((OpCode::NoOp, AddressMode::Zero(Some(Register::X)))),
        0x75 => Some((OpCode::Add, AddressMode::Zero(Some(Register::X)))),
        0x76 => Some((OpCode::RotateRight, AddressMode::Zero(Some(Register::X)))),
        0x77 => Some((OpCode::RotRightAddHack, AddressMode::Zero(Some(Register::X)))),
        0x78 => Some((OpCode::SetFlag(Flag::Interrupt, true), AddressMode::Implied)),
        0x79 => Some((OpCode::Add, AddressMode::Absolute(Some(Register::Y)))),
        0x7a => Some((OpCode::NoOp, AddressMode::Implied)),
        0x7b => Some((OpCode::RotRightAddHack, AddressMode::Absolute(Some(Register::Y)))),
        0x7c => Some((OpCode::NoOp, AddressMode::Absolute(Some(Register::X)))),
        0x7d => Some((OpCode::Add, AddressMode::Absolute(Some(Register::X)))),
        0x7e => Some((OpCode::RotateRight, AddressMode::Absolute(Some(Register::X)))),
        0x7f => Some((OpCode::RotRightAddHack, AddressMode::Absolute(Some(Register::X)))),
        0x80 => Some((OpCode::NoOp, AddressMode::Immediate)),
        0x81 => Some((OpCode::Store(Register::A), AddressMode::Indirect(Some(Register::X)))),
        0x83 => Some((OpCode::StoreHack(Register::A, Register::X), AddressMode::Indirect(Some(Register::X)))),
        0x84 => Some((OpCode::Store(Register::Y), AddressMode::Zero(None))),
        0x85 => Some((OpCode::Store(Register::A), AddressMode::Zero(None))),
        0x86 => Some((OpCode::Store(Register::X), AddressMode::Zero(None))),
        0x87 => Some((OpCode::StoreHack(Register::A, Register::X), AddressMode::Zero(None))),
        0x88 => Some((OpCode::Dec(Some(Register::Y)), AddressMode::Implied)),
        0x8a => Some((OpCode::Transfer(Register::X, Register::A ), AddressMode::Implied)),
        0x8c => Some((OpCode::Store(Register::Y), AddressMode::Absolute(None))),
        0x8d => Some((OpCode::Store(Register::A), AddressMode::Absolute(None))),
        0x8e => Some((OpCode::Store(Register::X), AddressMode::Absolute(None))),
        0x8f => Some((OpCode::StoreHack(Register::A, Register::X), AddressMode::Absolute(None))),
        0x90 => Some((OpCode::BranchIf(Flag::Carry, false), AddressMode::Relative)),
        0x91 => Some((OpCode::Store(Register::A), AddressMode::Indirect(Some(Register::Y)))),
        0x93 => Some((OpCode::StoreHack(Register::A, Register::X), AddressMode::Indirect(Some(Register::Y)))),
        0x94 => Some((OpCode::Store(Register::Y), AddressMode::Zero(Some(Register::X)))),
        0x95 => Some((OpCode::Store(Register::A), AddressMode::Zero(Some(Register::X)))),
        0x96 => Some((OpCode::Store(Register::X), AddressMode::Zero(Some(Register::Y)))),
        0x97 => Some((OpCode::StoreHack(Register::A, Register::X), AddressMode::Zero(Some(Register::Y)))),
        0x98 => Some((OpCode::Transfer(Register::Y, Register::A ), AddressMode::Implied)),
        0x99 => Some((OpCode::Store(Register::A), AddressMode::Absolute(Some(Register::Y)))),
        0x9a => Some((OpCode::Transfer(Register::X, Register::SP), AddressMode::Implied)),
        0x9d => Some((OpCode::Store(Register::A), AddressMode::Absolute(Some(Register::X)))),
        0xa0 => Some((OpCode::Load(Register::Y), AddressMode::Immediate)),
        0xa1 => Some((OpCode::Load(Register::A), AddressMode::Indirect(Some(Register::X)))),
        0xa2 => Some((OpCode::Load(Register::X), AddressMode::Immediate)),
        0xa3 => Some((OpCode::LoadHack(Register::A, Register::X), AddressMode::Indirect(Some(Register::X)))),
        0xa4 => Some((OpCode::Load(Register::Y), AddressMode::Zero(None))),
        0xa5 => Some((OpCode::Load(Register::A), AddressMode::Zero(None))),
        0xa6 => Some((OpCode::Load(Register::X), AddressMode::Zero(None))),
        0xa7 => Some((OpCode::LoadHack(Register::A, Register::X), AddressMode::Zero(None))),
        0xa8 => Some((OpCode::Transfer(Register::A, Register::Y ), AddressMode::Implied)),
        0xa9 => Some((OpCode::Load(Register::A), AddressMode::Immediate)),
        0xaa => Some((OpCode::Transfer(Register::A, Register::X ), AddressMode::Implied)),
        0xac => Some((OpCode::Load(Register::Y), AddressMode::Absolute(None))),
        0xad => Some((OpCode::Load(Register::A), AddressMode::Absolute(None))),
        0xae => Some((OpCode::Load(Register::X), AddressMode::Absolute(None))),
        0xaf => Some((OpCode::LoadHack(Register::A, Register::X), AddressMode::Absolute(None))),
        0xb0 => Some((OpCode::BranchIf(Flag::Carry, true), AddressMode::Relative)),
        0xb1 => Some((OpCode::Load(Register::A), AddressMode::Indirect(Some(Register::Y)))),
        0xb3 => Some((OpCode::LoadHack(Register::A, Register::X), AddressMode::Indirect(Some(Register::Y)))),
        0xb4 => Some((OpCode::Load(Register::Y), AddressMode::Zero(Some(Register::X)))),
        0xb5 => Some((OpCode::Load(Register::A), AddressMode::Zero(Some(Register::X)))),
        0xb6 => Some((OpCode::Load(Register::X), AddressMode::Zero(Some(Register::Y)))),
        0xb7 => Some((OpCode::LoadHack(Register::A, Register::X), AddressMode::Zero(Some(Register::Y)))),
        0xb8 => Some((OpCode::SetFlag(Flag::Overflow, false), AddressMode::Implied)),
        0xb9 => Some((OpCode::Load(Register::A), AddressMode::Absolute(Some(Register::Y)))),
        0xba => Some((OpCode::Transfer(Register::SP, Register::X ), AddressMode::Implied)),
        0xbc => Some((OpCode::Load(Register::Y), AddressMode::Absolute(Some(Register::X)))),
        0xbd => Some((OpCode::Load(Register::A), AddressMode::Absolute(Some(Register::X)))),
        0xbe => Some((OpCode::Load(Register::X), AddressMode::Absolute(Some(Register::Y)))),
        0xbf => Some((OpCode::LoadHack(Register::A, Register::X), AddressMode::Absolute(Some(Register::Y)))),
        0xc0 => Some((OpCode::Compare(Register::Y), AddressMode::Immediate)),
        0xc1 => Some((OpCode::Compare(Register::A), AddressMode::Indirect(Some(Register::X)))),
        0xc3 => Some((OpCode::DecCmpHack, AddressMode::Indirect(Some(Register::X)))),
        0xc4 => Some((OpCode::Compare(Register::Y), AddressMode::Zero(None))),
        0xc5 => Some((OpCode::Compare(Register::A), AddressMode::Zero(None))),
        0xc6 => Some((OpCode::Dec(None), AddressMode::Zero(None))),
        0xc7 => Some((OpCode::DecCmpHack, AddressMode::Zero(None))),
        0xc8 => Some((OpCode::Inc(Some(Register::Y)), AddressMode::Implied)),
        0xc9 => Some((OpCode::Compare(Register::A), AddressMode::Immediate)),
        0xca => Some((OpCode::Dec(Some(Register::X)), AddressMode::Implied)),
        0xcc => Some((OpCode::Compare(Register::Y), AddressMode::Absolute(None))),
        0xcd => Some((OpCode::Compare(Register::A), AddressMode::Absolute(None))),
        0xce => Some((OpCode::Dec(None), AddressMode::Absolute(None))),
        0xcf => Some((OpCode::DecCmpHack, AddressMode::Absolute(None))),
        0xd0 => Some((OpCode::BranchIf(Flag::Zero, false), AddressMode::Relative)),
        0xd1 => Some((OpCode::Compare(Register::A), AddressMode::Indirect(Some(Register::Y)))),
        0xd3 => Some((OpCode::DecCmpHack, AddressMode::Indirect(Some(Register::Y)))),
        0xd4 => Some((OpCode::NoOp, AddressMode::Zero(Some(Register::X)))),
        0xd5 => Some((OpCode::Compare(Register::A), AddressMode::Zero(Some(Register::X)))),
        0xd6 => Some((OpCode::Dec(None), AddressMode::Zero(Some(Register::X)))),
        0xd7 => Some((OpCode::DecCmpHack, AddressMode::Zero(Some(Register::X)))),
        0xd8 => Some((OpCode::SetFlag(Flag::Decimal, false), AddressMode::Implied)),
        0xd9 => Some((OpCode::Compare(Register::A), AddressMode::Absolute(Some(Register::Y)))),
        0xda => Some((OpCode::NoOp, AddressMode::Implied)),
        0xdb => Some((OpCode::DecCmpHack, AddressMode::Absolute(Some(Register::Y)))),
        0xdc => Some((OpCode::NoOp, AddressMode::Absolute(Some(Register::X)))),
        0xdd => Some((OpCode::Compare(Register::A), AddressMode::Absolute(Some(Register::X)))),
        0xde => Some((OpCode::Dec(None), AddressMode::Absolute(Some(Register::X)))),
        0xdf => Some((OpCode::DecCmpHack, AddressMode::Absolute(Some(Register::X)))),
        0xe0 => Some((OpCode::Compare(Register::X), AddressMode::Immediate)),
        0xe1 => Some((OpCode::Sub, AddressMode::Indirect(Some(Register::X)))),
        0xe3 => Some((OpCode::IncSubHack, AddressMode::Indirect(Some(Register::X)))),
        0xe4 => Some((OpCode::Compare(Register::X), AddressMode::Zero(None))),
        0xe5 => Some((OpCode::Sub, AddressMode::Zero(None))),
        0xe6 => Some((OpCode::Inc(None), AddressMode::Zero(None))),
        0xe7 => Some((OpCode::IncSubHack, AddressMode::Zero(None))),
        0xe8 => Some((OpCode::Inc(Some(Register::X)), AddressMode::Implied)),
        0xe9 => Some((OpCode::Sub, AddressMode::Immediate)),
        0xea => Some((OpCode::NoOp, AddressMode::Implied)),
        0xeb => Some((OpCode::Sub, AddressMode::Immediate)),
        0xec => Some((OpCode::Compare(Register::X), AddressMode::Absolute(None))),
        0xed => Some((OpCode::Sub, AddressMode::Absolute(None))),
        0xee => Some((OpCode::Inc(None), AddressMode::Absolute(None))),
        0xef => Some((OpCode::IncSubHack, AddressMode::Absolute(None))),
        0xf0 => Some((OpCode::BranchIf(Flag::Zero, true), AddressMode::Relative)),
        0xf1 => Some((OpCode::Sub, AddressMode::Indirect(Some(Register::Y)))),
        0xf3 => Some((OpCode::IncSubHack, AddressMode::Indirect(Some(Register::Y)))),
        0xf4 => Some((OpCode::NoOp, AddressMode::Zero(Some(Register::X)))),
        0xf5 => Some((OpCode::Sub, AddressMode::Zero(Some(Register::X)))),
        0xf6 => Some((OpCode::Inc(None), AddressMode::Zero(Some(Register::X)))),
        0xf7 => Some((OpCode::IncSubHack, AddressMode::Zero(Some(Register::X)))),
        0xf8 => Some((OpCode::SetFlag(Flag::Decimal, true), AddressMode::Implied)),
        0xf9 => Some((OpCode::Sub, AddressMode::Absolute(Some(Register::Y)))),
        0xfa => Some((OpCode::NoOp, AddressMode::Implied)),
        0xfb => Some((OpCode::IncSubHack, AddressMode::Absolute(Some(Register::Y)))),
        0xfc => Some((OpCode::NoOp, AddressMode::Absolute(Some(Register::X)))),
        0xfd => Some((OpCode::Sub, AddressMode::Absolute(Some(Register::X)))),
        0xfe => Some((OpCode::Inc(None), AddressMode::Absolute(Some(Register::X)))),
        0xff => Some((OpCode::IncSubHack, AddressMode::Absolute(Some(Register::X)))),
        _ => None,
    }
}

/// Looks an opcode byte up in the decode table.
pub fn decode(byte: u8) -> (r: Option<(OpCode, AddressMode)>)
    ensures
        r == decode_spec(byte),
{
    match byte {
        0x00 => Some((OpCode::Break, AddressMode::Implied)),
        0x01 => Some((OpCode::Or, AddressMode::Indirect(Some(Register::X)))),
        0x03 => Some((OpCode::ShiftLeftOrHack, AddressMode::Indirect(Some(Register::X)))),
        0x04 => Some((OpCode::NoOp, AddressMode::Zero(None))),
        0x05 => Some((OpCode::Or, AddressMode::Zero(None))),
        0x06 => Some((OpCode::ShiftLeft, AddressMode::Zero(None))),
        0x07 => Some((OpCode::ShiftLeftOrHack, AddressMode::Zero(None))),
        0x08 => Some((OpCode::PushFlags, AddressMode::Implied)),
        0x09 => Some((OpCode::Or, AddressMode::Immediate)),
        0x0a => Some((OpCode::ShiftLeft, AddressMode::Register(Register::A))),
        0x0c => Some((OpCode::NoOp, AddressMode::Absolute(None))),
        0x0d => Some((OpCode::Or, AddressMode::Absolute(None))),
        0x0e => Some((OpCode::ShiftLeft, AddressMode::Absolute(None))),
        0x0f => Some((OpCode::ShiftLeftOrHack, AddressMode::Absolute(None))),
        0x10 => Some((OpCode::BranchIf(Flag::Negative, false), AddressMode::Relative)),
        0x11 => Some((OpCode::Or, AddressMode::Indirect(Some(Register::Y)))),
        0x13 => Some((OpCode::ShiftLeftOrHack, AddressMode::Indirect(Some(Register::Y)))),
        0x14 => Some((OpCode::NoOp, AddressMode::Zero(Some(Register::X)))),
        0x15 => Some((OpCode::Or, AddressMode::Zero(Some(Register::X)))),
        0x16 => Some((OpCode::ShiftLeft, AddressMode::Zero(Some(Register::X)))),
        0x17 => Some((OpCode::ShiftLeftOrHack, AddressMode::Zero(Some(Register::X)))),
        0x18 => Some((OpCode::SetFlag(Flag::Carry, false), AddressMode::Implied)),
        0x19 => Some((OpCode::Or, AddressMode::Absolute(Some(Register::Y)))),
        0x1a => Some((OpCode::NoOp, AddressMode::Implied)),
        0x1b => Some((OpCode::ShiftLeftOrHack, AddressMode::Absolute(Some(Register::Y)))),
        0x1c => Some((OpCode::NoOp, AddressMode::Absolute(Some(Register::X)))),
        0x1d => Some((OpCode::Or, AddressMode::Absolute(Some(Register::X)))),
        0x1e => Some((OpCode::ShiftLeft, AddressMode::Absolute(Some(Register::X)))),
        0x1f => Some((OpCode::ShiftLeftOrHack, AddressMode::Absolute(Some(Register::X)))),
        0x20 => Some((OpCode::JumpSub, AddressMode::Absolute(None))),
        0x21 => Some((OpCode::And, AddressMode::Indirect(Some(Register::X)))),
        0x23 => Some((OpCode::RotLeftAndHack, AddressMode::Indirect(Some(Register::X)))),
        0x24 => Some((OpCode::Bit, AddressMode::Zero(None))),
        0x25 => Some((OpCode::And, AddressMode::Zero(None))),
        0x26 => Some((OpCode::RotateLeft, AddressMode::Zero(None))),
        0x27 => Some((OpCode::RotLeftAndHack, AddressMode::Zero(None))),
        0x28 => Some((OpCode::PullFlags, AddressMode::Implied)),
        0x29 => Some((OpCode::And, AddressMode::Immediate)),
        0x2a => Some((OpCode::RotateLeft, AddressMode::Register(Register::A))),
        0x2c => Some((OpCode::Bit, AddressMode::Absolute(None))),
        0x2d => Some((OpCode::And, AddressMode::Absolute(None))),
        0x2e => Some((OpCode::RotateLeft, AddressMode::Absolute(None))),
        0x2f => Some((OpCode::RotLeftAndHack, AddressMode::Absolute(None))),
        0x30 => Some((OpCode::BranchIf(Flag::Negative, true), AddressMode::Relative)),
        0x31 => Some((OpCode::And, AddressMode::Indirect(Some(Register::Y)))),
        0x33 => Some((OpCode::RotLeftAndHack, AddressMode::Indirect(Some(Register::Y)))),
        0x34 => Some((OpCode::NoOp, AddressMode::Zero(Some(Register::X)))),
        0x35 => Some((OpCode::And, AddressMode::Zero(Some(Register::X)))),
        0x36 => Some((OpCode::RotateLeft, AddressMode::Zero(Some(Register::X)))),
        0x37 => Some((OpCode::RotLeftAndHack, AddressMode::Zero(Some(Register::X)))),
        0x38 => Some((OpCode::SetFlag(Flag::Carry, true), AddressMode::Implied)),
        0x39 => Some((OpCode::And, AddressMode::Absolute(Some(Register::Y)))),
        0x3a => Some((OpCode::NoOp, AddressMode::Implied)),
        0x3b => Some((OpCode::RotLeftAndHack, AddressMode::Absolute(Some(Register::Y)))),
        0x3c => Some((OpCode::NoOp, AddressMode::Absolute(Some(Register::X)))),
        0x3d => Some((OpCode::And, AddressMode::Absolute(Some(Register::X)))),
        0x3e => Some((OpCode::RotateLeft, AddressMode::Absolute(Some(Register::X)))),
        0x3f => Some((OpCode::RotLeftAndHack, AddressMode::Absolute(Some(Register::X)))),
        0x40 => Some((OpCode::ReturnInt, AddressMode::Implied)),
        0x41 => Some((OpCode::ExOr, AddressMode::Indirect(Some(Register::X)))),
        0x43 => Some((OpCode::ShiftRightOrHack, AddressMode::Indirect(Some(Register::X)))),
        0x44 => Some((OpCode::NoOp, AddressMode::Zero(None))),
        0x45 => Some((OpCode::ExOr, AddressMode::Zero(None))),
        0x46 => Some((OpCode::ShiftRight, AddressMode::Zero(None))),
        0x47 => Some((OpCode::ShiftRightOrHack, AddressMode::Zero(None))),
        0x48 => Some((OpCode::PushAcc, AddressMode::Implied)),
        0x49 => Some((OpCode::ExOr, AddressMode::Immediate)),
        0x4a => Some((OpCode::ShiftRight, AddressMode::Register(Register::A))),
        0x4c => Some((OpCode::Jump, AddressMode::Absolute(None))),
        0x4d => Some((OpCode::ExOr, AddressMode::Absolute(None))),
        0x4e => Some((OpCode::ShiftRight, AddressMode::Absolute(None))),
        0x4f => Some((OpCode::ShiftRightOrHack, AddressMode::Absolute(None))),
        0x50 => Some((OpCode::BranchIf(Flag::Overflow, false), AddressMode::Relative)),
        0x51 => Some((OpCode::ExOr, AddressMode::Indirect(Some(Register::Y)))),
        0x53 => Some((OpCode::ShiftRightOrHack, AddressMode::Indirect(Some(Register::Y)))),
        0x54 => Some((OpCode::NoOp, AddressMode::Zero(Some(Register::X)))),
        0x55 => Some((OpCode::ExOr, AddressMode::Zero(Some(Register::X)))),
        0x56 => Some((OpCode::ShiftRight, AddressMode::Zero(Some(Register::X)))),
        0x57 => Some((OpCode::ShiftRightOrHack, AddressMode::Zero(Some(Register::X)))),
        0x58 => Some((OpCode::SetFlag(Flag::Interrupt, false), AddressMode::Implied)),
        0x59 => Some((OpCode::ExOr, AddressMode::Absolute(Some(Register::Y)))),
        0x5a => Some((OpCode::NoOp, AddressMode::Implied)),
        0x5b => Some((OpCode::ShiftRightOrHack, AddressMode::Absolute(Some(Register::Y)))),
        0x5c => Some((OpCode::NoOp, AddressMode::Absolute(Some(Register::X)))),
        0x5d => Some((OpCode::ExOr, AddressMode::Absolute(Some(Register::X)))),
        0x5e => Some((OpCode::ShiftRight, AddressMode::Absolute(Some(Register::X)))),
        0x5f => Some((OpCode::ShiftRightOrHack, AddressMode::Absolute(Some(Register::X)))),
        0x60 => Some((OpCode::ReturnSub, AddressMode::Implied)),
        0x61 => Some((OpCode::Add, AddressMode::Indirect(Some(Register::X)))),
        0x63 => Some((OpCode::RotRightAddHack, AddressMode::Indirect(Some(Register::X)))),
        0x64 => Some((OpCode::NoOp, AddressMode::Zero(None))),
        0x65 => Some((OpCode::Add, AddressMode::Zero(None))),
        0x66 => Some((OpCode::RotateRight, AddressMode::Zero(None))),
        0x67 => Some((OpCode::RotRightAddHack, AddressMode::Zero(None))),
        0x68 => Some((OpCode::PullAcc, AddressMode::Implied)),
        0x69 => Some((OpCode::Add, AddressMode::Immediate)),
        0x6a => Some((OpCode::RotateRight, AddressMode::Register(Register::A))),
        0x6c => Some((OpCode::Jump, AddressMode::Indirect(None))),
        0x6d => Some((OpCode::Add, AddressMode::Absolute(None))),
        0x6e => Some((OpCode::RotateRight, AddressMode::Absolute(None))),
        0x6f => Some((OpCode::RotRightAddHack, AddressMode::Absolute(None))),
        0x70 => Some((OpCode::BranchIf(Flag::Overflow, true), AddressMode::Relative)),
        0x71 => Some((OpCode::Add, AddressMode::Indirect(Some(Register::Y)))),
        0x73 => Some((OpCode::RotRightAddHack, AddressMode::Indirect(Some(Register::Y)))),
        0x74 => Some((OpCode::NoOp, AddressMode::Zero(Some(Register::X)))),
        0x75 => Some((OpCode::Add, AddressMode::Zero(Some(Register::X)))),
        0x76 => Some((OpCode::RotateRight, AddressMode::Zero(Some(Register::X)))),
        0x77 => Some((OpCode::RotRightAddHack, AddressMode::Zero(Some(Register::X)))),
        0x78 => Some((OpCode::SetFlag(Flag::Interrupt, true), AddressMode::Implied)),
        0x79 => Some((OpCode::Add, AddressMode::Absolute(Some(Register::Y)))),
        0x7a => Some((OpCode::NoOp, AddressMode::Implied)),
        0x7b => Some((OpCode::RotRightAddHack, AddressMode::Absolute(Some(Register::Y)))),
        0x7c => Some((OpCode::NoOp, AddressMode::Absolute(Some(Register::X)))),
        0x7d => Some((OpCode::Add, AddressMode::Absolute(Some(Register::X)))),
        0x7e => Some((OpCode::RotateRight, AddressMode::Absolute(Some(Register::X)))),
        0x7f => Some((OpCode::RotRightAddHack, AddressMode::Absolute(Some(Register::X)))),
        0x80 => Some((OpCode::NoOp, AddressMode::Immediate)),
        0x81 => Some((OpCode::Store(Register::A), AddressMode::Indirect(Some(Register::X)))),
        0x83 => Some((OpCode::StoreHack(Register::A, Register::X), AddressMode::Indirect(Some(Register::X)))),
        0x84 => Some((OpCode::Store(Register::Y), AddressMode::Zero(None))),
        0x85 => Some((OpCode::Store(Register::A), AddressMode::Zero(None))),
        0x86 => Some((OpCode::Store(Register::X), AddressMode::Zero(None))),
        0x87 => Some((OpCode::StoreHack(Register::A, Register::X), AddressMode::Zero(None))),
        0x88 => Some((OpCode::Dec(Some(Register::Y)), AddressMode::Implied)),
        0x8a => Some((OpCode::Transfer(Register::X, Register::A ), AddressMode::Implied)),
        0x8c => Some((OpCode::Store(Register::Y), AddressMode::Absolute(None))),
        0x8d => Some((OpCode::Store(Register::A), AddressMode::Absolute(None))),
        0x8e => Some((OpCode::Store(Register::X), AddressMode::Absolute(None))),
        0x8f => Some((OpCode::StoreHack(Register::A, Register::X), AddressMode::Absolute(None))),
        0x90 => Some((OpCode::BranchIf(Flag::Carry, false), AddressMode::Relative)),
        0x91 => Some((OpCode::Store(Register::A), AddressMode::Indirect(Some(Register::Y)))),
        0x93 => Some((OpCode::StoreHack(Register::A, Register::X), AddressMode::Indirect(Some(Register::Y)))),
        0x94 => Some((OpCode::Store(Register::Y), AddressMode::Zero(Some(Register::X)))),
        0x95 => Some((OpCode::Store(Register::A), AddressMode::Zero(Some(Register::X)))),
        0x96 => Some((OpCode::Store(Register::X), AddressMode::Zero(Some(Register::Y)))),
        0x97 => Some((OpCode::StoreHack(Register::A, Register::X), AddressMode::Zero(Some(Register::Y)))),
        0x98 => Some((OpCode::Transfer(Register::Y, Register::A ), AddressMode::Implied)),
        0x99 => Some((OpCode::Store(Register::A), AddressMode::Absolute(Some(Register::Y)))),
        0x9a => Some((OpCode::Transfer(Register::X, Register::SP), AddressMode::Implied)),
        0x9d => Some((OpCode::Store(Register::A), AddressMode::Absolute(Some(Register::X)))),
        0xa0 => Some((OpCode::Load(Register::Y), AddressMode::Immediate)),
        0xa1 => Some((OpCode::Load(Register::A), AddressMode::Indirect(Some(Register::X)))),
        0xa2 => Some((OpCode::Load(Register::X), AddressMode::Immediate)),
        0xa3 => Some((OpCode::LoadHack(Register::A, Register::X), AddressMode::Indirect(Some(Register::X)))),
        0xa4 => Some((OpCode::Load(Register::Y), AddressMode::Zero(None))),
        0xa5 => Some((OpCode::Load(Register::A), AddressMode::Zero(None))),
        0xa6 => Some((OpCode::Load(Register::X), AddressMode::Zero(None))),
        0xa7 => Some((OpCode::LoadHack(Register::A, Register::X), AddressMode::Zero(None))),
        0xa8 => Some((OpCode::Transfer(Register::A, Register::Y ), AddressMode::Implied)),
        0xa9 => Some((OpCode::Load(Register::A), AddressMode::Immediate)),
        0xaa => Some((OpCode::Transfer(Register::A, Register::X ), AddressMode::Implied)),
        0xac => Some((OpCode::Load(Register::Y), AddressMode::Absolute(None))),
        0xad => Some((OpCode::Load(Register::A), AddressMode::Absolute(None))),
        0xae => Some((OpCode::Load(Register::X), AddressMode::Absolute(None))),
        0xaf => Some((OpCode::LoadHack(Register::A, Register::X), AddressMode::Absolute(None))),
        0xb0 => Some((OpCode::BranchIf(Flag::Carry, true), AddressMode::Relative)),
        0xb1 => Some((OpCode::Load(Register::A), AddressMode::Indirect(Some(Register::Y)))),
        0xb3 => Some((OpCode::LoadHack(Register::A, Register::X), AddressMode::Indirect(Some(Register::Y)))),
        0xb4 => Some((OpCode::Load(Register::Y), AddressMode::Zero(Some(Register::X)))),
        0xb5 => Some((OpCode::Load(Register::A), AddressMode::Zero(Some(Register::X)))),
        0xb6 => Some((OpCode::Load(Register::X), AddressMode::Zero(Some(Register::Y)))),
        0xb7 => Some((OpCode::LoadHack(Register::A, Register::X), AddressMode::Zero(Some(Register::Y)))),
        0xb8 => Some((OpCode::SetFlag(Flag::Overflow, false), AddressMode::Implied)),
        0xb9 => Some((OpCode::Load(Register::A), AddressMode::Absolute(Some(Register::Y)))),
        0xba => Some((OpCode::Transfer(Register::SP, Register::X ), AddressMode::Implied)),
        0xbc => Some((OpCode::Load(Register::Y), AddressMode::Absolute(Some(Register::X)))),
        0xbd => Some((OpCode::Load(Register::A), AddressMode::Absolute(Some(Register::X)))),
        0xbe => Some((OpCode::Load(Register::X), AddressMode::Absolute(Some(Register::Y)))),
        0xbf => Some((OpCode::LoadHack(Register::A, Register::X), AddressMode::Absolute(Some(Register::Y)))),
        0xc0 => Some((OpCode::Compare(Register::Y), AddressMode::Immediate)),
        0xc1 => Some((OpCode::Compare(Register::A), AddressMode::Indirect(Some(Register::X)))),
        0xc3 => Some((OpCode::DecCmpHack, AddressMode::Indirect(Some(Register::X)))),
        0xc4 => Some((OpCode::Compare(Register::Y), AddressMode::Zero(None))),
        0xc5 => Some((OpCode::Compare(Register::A), AddressMode::Zero(None))),
        0xc6 => Some((OpCode::Dec(None), AddressMode::Zero(None))),
        0xc7 => Some((OpCode::DecCmpHack, AddressMode::Zero(None))),
        0xc8 => Some((OpCode::Inc(Some(Register::Y)), AddressMode::Implied)),
        0xc9 => Some((OpCode::Compare(Register::A), AddressMode::Immediate)),
        0xca => Some((OpCode::Dec(Some(Register::X)), AddressMode::Implied)),
        0xcc => Some((OpCode::Compare(Register::Y), AddressMode::Absolute(None))),
        0xcd => Some((OpCode::Compare(Register::A), AddressMode::Absolute(None))),
        0xce => Some((OpCode::Dec(None), AddressMode::Absolute(None))),
        0xcf => Some((OpCode::DecCmpHack, AddressMode::Absolute(None))),
        0xd0 => Some((OpCode::BranchIf(Flag::Zero, false), AddressMode::Relative)),
        0xd1 => Some((OpCode::Compare(Register::A), AddressMode::Indirect(Some(Register::Y)))),
        0xd3 => Some((OpCode::DecCmpHack, AddressMode::Indirect(Some(Register::Y)))),
        0xd4 => Some((OpCode::NoOp, AddressMode::Zero(Some(Register::X)))),
        0xd5 => Some((OpCode::Compare(Register::A), AddressMode::Zero(Some(Register::X)))),
        0xd6 => Some((OpCode::Dec(None), AddressMode::Zero(Some(Register::X)))),
        0xd7 => Some((OpCode::DecCmpHack, AddressMode::Zero(Some(Register::X)))),
        0xd8 => Some((OpCode::SetFlag(Flag::Decimal, false), AddressMode::Implied)),
        0xd9 => Some((OpCode::Compare(Register::A), AddressMode::Absolute(Some(Register::Y)))),
        0xda => Some((OpCode::NoOp, AddressMode::Implied)),
        0xdb => Some((OpCode::DecCmpHack, AddressMode::Absolute(Some(Register::Y)))),
        0xdc => Some((OpCode::NoOp, AddressMode::Absolute(Some(Register::X)))),
        0xdd => Some((OpCode::Compare(Register::A), AddressMode::Absolute(Some(Register::X)))),
        0xde => Some((OpCode::Dec(None), AddressMode::Absolute(Some(Register::X)))),
        0xdf => Some((OpCode::DecCmpHack, AddressMode::Absolute(Some(Register::X)))),
        0xe0 => Some((OpCode::Compare(Register::X), AddressMode::Immediate)),
        0xe1 => Some((OpCode::Sub, AddressMode::Indirect(Some(Register::X)))),
        0xe3 => Some((OpCode::IncSubHack, AddressMode::Indirect(Some(Register::X)))),
        0xe4 => Some((OpCode::Compare(Register::X), AddressMode::Zero(None))),
        0xe5 => Some((OpCode::Sub, AddressMode::Zero(None))),
        0xe6 => Some((OpCode::Inc(None), AddressMode::Zero(None))),
        0xe7 => Some((OpCode::IncSubHack, AddressMode::Zero(None))),
        0xe8 => Some((OpCode::Inc(Some(Register::X)), AddressMode::Implied)),
        0xe9 => Some((OpCode::Sub, AddressMode::Immediate)),
        0xea => Some((OpCode::NoOp, AddressMode::Implied)),
        0xeb => Some((OpCode::Sub, AddressMode::Immediate)),
        0xec => Some((OpCode::Compare(Register::X), AddressMode::Absolute(None))),
        0xed => Some((OpCode::Sub, AddressMode::Absolute(None))),
        0xee => Some((OpCode::Inc(None), AddressMode::Absolute(None))),
        0xef => Some((OpCode::IncSubHack, AddressMode::Absolute(None))),
        0xf0 => Some((OpCode::BranchIf(Flag::Zero, true), AddressMode::Relative)),
        0xf1 => Some((OpCode::Sub, AddressMode::Indirect(Some(Register::Y)))),
        0xf3 => Some((OpCode::IncSubHack, AddressMode::Indirect(Some(Register::Y)))),
        0xf4 => Some((OpCode::NoOp, AddressMode::Zero(Some(Register::X)))),
        0xf5 => Some((OpCode::Sub, AddressMode::Zero(Some(Register::X)))),
        0xf6 => Some((OpCode::Inc(None), AddressMode::Zero(Some(Register::X)))),
        0xf7 => Some((OpCode::IncSubHack, AddressMode::Zero(Some(Register::X)))),
        0xf8 => Some((OpCode::SetFlag(Flag::Decimal, true), AddressMode::Implied)),
        0xf9 => Some((OpCode::Sub, AddressMode::Absolute(Some(Register::Y)))),
        0xfa => Some((OpCode::NoOp, AddressMode::Implied)),
        0xfb => Some((OpCode::IncSubHack, AddressMode::Absolute(Some(Register::Y)))),
        0xfc => Some((OpCode::NoOp, AddressMode::Absolute(Some(Register::X)))),
        0xfd => Some((OpCode::Sub, AddressMode::Absolute(Some(Register::X)))),
        0xfe => Some((OpCode::Inc(None), AddressMode::Absolute(Some(Register::X)))),
        0xff => Some((OpCode::IncSubHack, AddressMode::Absolute(Some(Register::X)))),
        _ => None,
    }
}

/// Fetches the opcode byte at PC, moves past it, and decodes it.
pub fn load(sys: &mut System) -> (r: Result<(OpCode, AddressMode), EmuError>)
    requires
        old(sys).wf(),
    ensures
        final(sys).wf(),
        match peek_spec(old(sys), old(sys).cpu.pc.0) {
            Err(e) => r == Err::<(OpCode, AddressMode), EmuError>(e) && *final(sys) == *old(sys),
            Ok(b) => *final(sys) == with_pc(old(sys), wrap16(old(sys).cpu.pc.0 + 1)) && match decode_spec(b) {
                Some(x) => r == Ok::<(OpCode, AddressMode), EmuError>(x),
                None => r == Err::<(OpCode, AddressMode), EmuError>(
                    EmuError::UnknownOpcode { pc: old(sys).cpu.pc.0, opcode: b },
                ),
            },
        },
{
    let pc = sys.cpu.pc.0;
    let b = match shift_pc(sys) {
        Ok(b) => b,
        Err(e) => return Err(e),
    };
    match decode(b) {
        Some(x) => Ok(x),
        None => Err(EmuError::UnknownOpcode { pc, opcode: b }),
    }
}

/// Only the shifts and rotates of A use the accumulator mode.
pub proof fn lemma_register_mode_ops(b: u8)
    ensures
        match decode_spec(b) {
            Some((op, am)) => am is Register ==> (op is ShiftLeft || op is ShiftRight
                || op is RotateLeft || op is RotateRight),
            None => true,
        },
{
}

/// The mnemonic table: the three-letter name of every opcode byte, undocumented
/// ones included; "XXX" for the bytes that halt the processor.
pub open spec fn op_name(byte: u8) -> &'static str {
    match byte {
        0x00 => "BRK",
        0x01 | 0x05 | 0x09 | 0x0d | 0x11 | 0x15 | 0x19 | 0x1d => "ORA",
        0x02 | 0x12 | 0x22 | 0x32 | 0x42 | 0x52 | 0x62 | 0x72 | 0x82 | 0x92 | 0xb2 | 0xc2 | 0xd2 | 0xe2 | 0xf2 => "XXX",
        0x03 | 0x07 | 0x0f | 0x13 | 0x17 | 0x1b | 0x1f => "SLO",
        0x04 | 0x0c | 0x14 | 0x1a | 0x1c | 0x34 | 0x3a | 0x3c | 0x44 | 0x54 | 0x5a | 0x5c | 0x64 | 0x74 | 0x7a | 0x7c | 0x80 | 0x89 | 0xd4 | 0xda | 0xdc | 0xea | 0xf4 | 0xfa | 0xfc => "NOP",
        0x06 | 0x0a | 0x0e | 0x16 | 0x1e => "ASL",
        0x08 => "PHP",
        0x0b | 0x2b => "ANC",
        0x10 => "BPL",
        0x18 => "CLC",
        0x20 => "JSR",
        0x21 | 0x25 | 0x29 | 0x2d | 0x31 | 0x35 | 0x39 | 0x3d => "AND",
        0x23 | 0x27 | 0x2f | 0x33 | 0x37 | 0x3b | 0x3f => "RLA",
        0x24 | 0x2c => "BIT",
        0x26 | 0x2a | 0x2e | 0x36 | 0x3e => "ROL",
        0x28 => "PLP",
        0x30 => "BMI",
        0x38 => "SEC",
        0x40 => "RTI",
        0x41 | 0x45 | 0x49 | 0x4d | 0x51 | 0x55 | 0x59 | 0x5d => "EOR",
        0x43 | 0x47 | 0x4f | 0x53 | 0x57 | 0x5b | 0x5f => "SRE",
        0x46 | 0x4a | 0x4e | 0x56 | 0x5e => "LSR",
        0x48 => "PHA",
        0x4b => "ASR",
        0x4c | 0x6c => "JMP",
        0x50 => "BVC",
        0x58 => "CLI",
        0x60 => "RTS",
        0x61 | 0x65 | 0x69 | 0x6d | 0x71 | 0x75 | 0x79 | 0x7d => "ADC",
        0x63 | 0x67 | 0x6f | 0x73 | 0x77 | 0x7b | 0x7f => "RRA",
        0x66 | 0x6a | 0x6e | 0x76 | 0x7e => "ROR",
        0x68 => "PLA",
        0x6b => "ARR",
        0x70 => "BVS",
        0x78 => "SEI",
        0x81 | 0x85 | 0x8d | 0x91 | 0x95 | 0x99 | 0x9d => "STA",
        0x83 | 0x87 | 0x8f | 0x97 => "SAX",
        0x84 | 0x8c | 0x94 => "STY",
        0x86 | 0x8e | 0x96 => "STX",
        0x88 => "DEY",
        0x8a => "TXA",
        0x8b => "ANE",
        0x90 => "BCC",
        0x93 | 0x9f => "SHA",
        0x98 => "TYA",
        0x9a => "TXS",
        0x9b => "SHS",
        0x9c => "SHY",
        0x9e => "SHX",
        0xa0 | 0xa4 | 0xac | 0xb4 | 0xbc => "LDY",
        0xa1 | 0xa5 | 0xa9 | 0xad | 0xb1 | 0xb5 | 0xb9 | 0xbd => "LDA",
        0xa2 | 0xa6 | 0xae | 0xb6 | 0xbe => "LDX",
        0xa3 | 0xa7 | 0xaf | 0xb3 | 0xb7 | 0xbf => "LAX",
        0xa8 => "TAY",
        0xaa => "TAX",
        0xab => "LXA",
        0xb0 => "BCS",
        0xb8 => "CLV",
        0xba => "TSX",
        0xbb => "LAS",
        0xc0 | 0xc4 | 0xcc => "CPY",
        0xc1 | 0xc5 | 0xc9 | 0xcd | 0xd1 | 0xd5 | 0xd9 | 0xdd => "CMP",
        0xc3 | 0xc7 | 0xcf | 0xd3 | 0xd7 | 0xdb | 0xdf => "DCP",
        0xc6 | 0xce | 0xd6 | 0xde => "DEC",
        0xc8 => "INY",
        0xca => "DEX",
        0xcb => "SBX",
        0xd0 => "BNE",
        0xd8 => "CLD",
        0xe0 | 0xe4 | 0xec => "CPX",
        0xe1 | 0xe5 | 0xe9 | 0xeb | 0xed | 0xf1 | 0xf5 | 0xf9 | 0xfd => "SBC",
        0xe3 | 0xe7 | 0xef | 0xf3 | 0xf7 | 0xfb | 0xff => "ISB",
        0xe6 | 0xee | 0xf6 | 0xfe => "INC",
        0xe8 => "INX",
        0xf0 => "BEQ",
        0xf8 => "SED",
    }
}

/// The three-letter mnemonic of an opcode byte, undocumented ones included; "XXX"
/// for the bytes that halt the processor.
pub fn format_op_byte(byte: u8) -> (r: &'static str)
    ensures
        r == op_name(byte),
{
    match byte {
        0x00 => "BRK",
        0x01 | 0x05 | 0x09 | 0x0d | 0x11 | 0x15 | 0x19 | 0x1d => "ORA",
        0x02 | 0x12 | 0x22 | 0x32 | 0x42 | 0x52 | 0x62 | 0x72 | 0x82 | 0x92 | 0xb2 | 0xc2 | 0xd2 | 0xe2 | 0xf2 => "XXX",
        0x03 | 0x07 | 0x0f | 0x13 | 0x17 | 0x1b | 0x1f => "SLO",
        0x04 | 0x0c | 0x14 | 0x1a | 0x1c | 0x34 | 0x3a | 0x3c | 0x44 | 0x54 | 0x5a | 0x5c | 0x64 | 0x74 | 0x7a | 0x7c | 0x80 | 0x89 | 0xd4 | 0xda | 0xdc | 0xea | 0xf4 | 0xfa | 0xfc => "NOP",
        0x06 | 0x0a | 0x0e | 0x16 | 0x1e => "ASL",
        0x08 => "PHP",
        0x0b | 0x2b => "ANC",
        0x10 => "BPL",
        0x18 => "CLC",
        0x20 => "JSR",
        0x21 | 0x25 | 0x29 | 0x2d | 0x31 | 0x35 | 0x39 | 0x3d => "AND",
        0x23 | 0x27 | 0x2f | 0x33 | 0x37 | 0x3b | 0x3f => "RLA",
        0x24 | 0x2c => "BIT",
        0x26 | 0x2a | 0x2e | 0x36 | 0x3e => "ROL",
        0x28 => "PLP",
        0x30 => "BMI",
        0x38 => "SEC",
        0x40 => "RTI",
        0x41 | 0x45 | 0x49 | 0x4d | 0x51 | 0x55 | 0x59 | 0x5d => "EOR",
        0x43 | 0x47 | 0x4f | 0x53 | 0x57 | 0x5b | 0x5f => "SRE",
        0x46 | 0x4a | 0x4e | 0x56 | 0x5e => "LSR",
        0x48 => "PHA",
        0x4b => "ASR",
        0x4c | 0x6c => "JMP",
        0x50 => "BVC",
        0x58 => "CLI",
        0x60 => "RTS",
        0x61 | 0x65 | 0x69 | 0x6d | 0x71 | 0x75 | 0x79 | 0x7d => "ADC",
        0x63 | 0x67 | 0x6f | 0x73 | 0x77 | 0x7b | 0x7f => "RRA",
        0x66 | 0x6a | 0x6e | 0x76 | 0x7e => "ROR",
        0x68 => "PLA",
        0x6b => "ARR",
        0x70 => "BVS",
        0x78 => "SEI",
        0x81 | 0x85 | 0x8d | 0x91 | 0x95 | 0x99 | 0x9d => "STA",
        0x83 | 0x87 | 0x8f | 0x97 => "SAX",
        0x84 | 0x8c | 0x94 => "STY",
        0x86 | 0x8e | 0x96 => "STX",
        0x88 => "DEY",
        0x8a => "TXA",
        0x8b => "ANE",
        0x90 => "BCC",
        0x93 | 0x9f => "SHA",
        0x98 => "TYA",
        0x9a => "TXS",
        0x9b => "SHS",
        0x9c => "SHY",
        0x9e => "SHX",
        0xa0 | 0xa4 | 0xac | 0xb4 | 0xbc => "LDY",
        0xa1 | 0xa5 | 0xa9 | 0xad | 0xb1 | 0xb5 | 0xb9 | 0xbd => "LDA",
        0xa2 | 0xa6 | 0xae | 0xb6 | 0xbe => "LDX",
        0xa3 | 0xa7 | 0xaf | 0xb3 | 0xb7 | 0xbf => "LAX",
        0xa8 => "TAY",
        0xaa => "TAX",
        0xab => "LXA",
        0xb0 => "BCS",
        0xb8 => "CLV",
        0xba => "TSX",
        0xbb => "LAS",
        0xc0 | 0xc4 | 0xcc => "CPY",
        0xc1 | 0xc5 | 0xc9 | 0xcd | 0xd1 | 0xd5 | 0xd9 | 0xdd => "CMP",
        0xc3 | 0xc7 | 0xcf | 0xd3 | 0xd7 | 0xdb | 0xdf => "DCP",
        0xc6 | 0xce | 0xd6 | 0xde => "DEC",
        0xc8 => "INY",
        0xca => "DEX",
        0xcb => "SBX",
        0xd0 => "BNE",
        0xd8 => "CLD",
        0xe0 | 0xe4 | 0xec => "CPX",
        0xe1 | 0xe5 | 0xe9 | 0xeb | 0xed | 0xf1 | 0xf5 | 0xf9 | 0xfd => "SBC",
        0xe3 | 0xe7 | 0xef | 0xf3 | 0xf7 | 0xfb | 0xff => "ISB",
        0xe6 | 0xee | 0xf6 | 0xfe => "INC",
        0xe8 => "INX",
        0xf0 => "BEQ",
        0xf8 => "SED",
    }
}

} // verus!
