use gameboy_core::decode::map_prefixed_instruction;
use gameboy_core::{Cond, Cpu, Instruction, Memory, B3, R16, R16MEM, R16STK, R8, TGT3};

#[test]
fn cpu_core_test_fetch_instruction() {
    let mut memory = Memory::new();
    let mut cpu = Cpu::new();

    memory.write_byte(0, 0x00).unwrap();
    assert_eq!(cpu.fetch_instruction(&memory), Ok(Instruction::Nop));

    memory.write_byte(1, 0x01).unwrap();
    memory.write_byte(2, 0x34).unwrap();
    memory.write_byte(3, 0x12).unwrap();
    assert_eq!(cpu.fetch_instruction(&memory), Ok(Instruction::LdR16Imm16(R16::BC, 0x1234)));

    memory.write_byte(4, 0x02).unwrap();
    assert_eq!(cpu.fetch_instruction(&memory), Ok(Instruction::LdR16MemA(R16MEM::BC)));

    memory.write_byte(5, 0x0A).unwrap();
    assert_eq!(cpu.fetch_instruction(&memory), Ok(Instruction::LdAR16Mem(R16MEM::BC)));

    memory.write_byte(6, 0x08).unwrap();
    memory.write_byte(7, 0x34).unwrap();
    memory.write_byte(8, 0x12).unwrap();
    assert_eq!(cpu.fetch_instruction(&memory), Ok(Instruction::LdMemImm16SP(0x1234)));

    memory.write_byte(9, 0x03).unwrap();
    assert_eq!(cpu.fetch_instruction(&memory), Ok(Instruction::IncR16(R16::BC)));

    memory.write_byte(10, 0x0B).unwrap();
    assert_eq!(cpu.fetch_instruction(&memory), Ok(Instruction::DecR16(R16::BC)));

    memory.write_byte(11, 0x09).unwrap();
    assert_eq!(cpu.fetch_instruction(&memory), Ok(Instruction::AddHlR16(R16::BC)));

    memory.write_byte(12, 0x04).unwrap();
    assert_eq!(cpu.fetch_instruction(&memory), Ok(Instruction::IncR8(R8::B)));

    memory.write_byte(13, 0x34).unwrap();
    assert_eq!(cpu.fetch_instruction(&memory), Ok(Instruction::IncMemHl));

    memory.write_byte(14, 0x05).unwrap();
    assert_eq!(cpu.fetch_instruction(&memory), Ok(Instruction::DecR8(R8::B)));

    memory.write_byte(15, 0x35).unwrap();
    assert_eq!(cpu.fetch_instruction(&memory), Ok(Instruction::DecMemHl));

    memory.write_byte(16, 0x06).unwrap();
    memory.write_byte(17, 0x12).unwrap();
    assert_eq!(cpu.fetch_instruction(&memory), Ok(Instruction::LdR8Imm8(R8::B, 0x12)));
    println!("reached");

    memory.write_byte(18, 0x36).unwrap();
    memory.write_byte(19, 0x12).unwrap();
    assert_eq!(cpu.fetch_instruction(&memory), Ok(Instruction::LdMemHlImm8(0x12)));
    println!("reached");

    memory.write_byte(20, 0x07).unwrap();
    assert_eq!(cpu.fetch_instruction(&memory), Ok(Instruction::Rlca));

    memory.write_byte(21, 0x0F).unwrap();
    assert_eq!(cpu.fetch_instruction(&memory), Ok(Instruction::Rrca));

    memory.write_byte(22, 0x17).unwrap();
    assert_eq!(cpu.fetch_instruction(&memory), Ok(Instruction::Rla));

    memory.write_byte(23, 0x1F).unwrap();
    assert_eq!(cpu.fetch_instruction(&memory), Ok(Instruction::Rra));

    memory.write_byte(24, 0x27).unwrap();
    assert_eq!(cpu.fetch_instruction(&memory), Ok(Instruction::Daa));

    memory.write_byte(25, 0x2F).unwrap();
    assert_eq!(cpu.fetch_instruction(&memory), Ok(Instruction::Cpl));

    memory.write_byte(26, 0x37).unwrap();
    assert_eq!(cpu.fetch_instruction(&memory), Ok(Instruction::Scf));

    memory.write_byte(27, 0x3F).unwrap();
    assert_eq!(cpu.fetch_instruction(&memory), Ok(Instruction::Ccf));

    memory.write_byte(28, 0x18).unwrap();
    memory.write_byte(29, 0x12).unwrap();
    assert_eq!(cpu.fetch_instruction(&memory), Ok(Instruction::JrImm8(0x12)));

    memory.write_byte(30, 0x20).unwrap();
    memory.write_byte(31, 0x10).unwrap();
    assert_eq!(cpu.fetch_instruction(&memory), Ok(Instruction::JrCondImm8(Cond::NotZero, 0x10)));

    memory.write_byte(32, 0x10).unwrap();
    assert_eq!(cpu.fetch_instruction(&memory), Ok(Instruction::Stop));

    memory.write_byte(33, 0x76).unwrap();
    assert_eq!(cpu.fetch_instruction(&memory), Ok(Instruction::Halt));

    memory.write_byte(34, 0x40).unwrap();
    assert_eq!(cpu.fetch_instruction(&memory), Ok(Instruction::LdR8R8(R8::B, R8::B)));

    memory.write_byte(35, 0x46).unwrap();
    assert_eq!(cpu.fetch_instruction(&memory), Ok(Instruction::LdR8MemHl(R8::B)));

    memory.write_byte(36, 0x70).unwrap();
    assert_eq!(cpu.fetch_instruction(&memory), Ok(Instruction::LdMemHlR8(R8::B)));

    memory.write_byte(37, 0x80).unwrap();
    assert_eq!(cpu.fetch_instruction(&memory), Ok(Instruction::AddAR8(R8::B)));

    memory.write_byte(38, 0x86).unwrap();
    assert_eq!(cpu.fetch_instruction(&memory), Ok(Instruction::AddAMemHl));

    memory.write_byte(39, 0x88).unwrap();
    assert_eq!(cpu.fetch_instruction(&memory), Ok(Instruction::AdcAR8(R8::B)));

    memory.write_byte(40, 0x8E).unwrap();
    assert_eq!(cpu.fetch_instruction(&memory), Ok(Instruction::AdcAMemHl));

    memory.write_byte(41, 0x90).unwrap();
    assert_eq!(cpu.fetch_instruction(&memory), Ok(Instruction::SubAR8(R8::B)));

    memory.write_byte(42, 0x96).unwrap();
    assert_eq!(cpu.fetch_instruction(&memory), Ok(Instruction::SubAMemHl));

    memory.write_byte(43, 0x98).unwrap();
    assert_eq!(cpu.fetch_instruction(&memory), Ok(Instruction::SbcAR8(R8::B)));

    memory.write_byte(44, 0x9E).unwrap();
    assert_eq!(cpu.fetch_instruction(&memory), Ok(Instruction::SbcAMemHl));

    memory.write_byte(45, 0xA0).unwrap();
    assert_eq!(cpu.fetch_instruction(&memory), Ok(Instruction::AndAR8(R8::B)));

    memory.write_byte(46, 0xA6).unwrap();
    assert_eq!(cpu.fetch_instruction(&memory), Ok(Instruction::AndAMemHl));

    memory.write_byte(47, 0xA8).unwrap();
    assert_eq!(cpu.fetch_instruction(&memory), Ok(Instruction::XorAR8(R8::B)));

    memory.write_byte(48, 0xAE).unwrap();
    assert_eq!(cpu.fetch_instruction(&memory), Ok(Instruction::XorAMemHl));

    memory.write_byte(49, 0xB0).unwrap();
    assert_eq!(cpu.fetch_instruction(&memory), Ok(Instruction::OrAR8(R8::B)));

    memory.write_byte(50, 0xB6).unwrap();
    assert_eq!(cpu.fetch_instruction(&memory), Ok(Instruction::OrAMemHl));

    memory.write_byte(51, 0xB8).unwrap();
    assert_eq!(cpu.fetch_instruction(&memory), Ok(Instruction::CpAR8(R8::B)));

    memory.write_byte(52, 0xBE).unwrap();
    assert_eq!(cpu.fetch_instruction(&memory), Ok(Instruction::CpAMemHl));

    memory.write_byte(53, 0xC6).unwrap();
    memory.write_byte(54, 0x12).unwrap();
    assert_eq!(cpu.fetch_instruction(&memory), Ok(Instruction::AddAImm8(0x12)));

    memory.write_byte(55, 0xCE).unwrap();
    memory.write_byte(56, 0x12).unwrap();
    assert_eq!(cpu.fetch_instruction(&memory), Ok(Instruction::AdcAImm8(0x12)));

    memory.write_byte(57, 0xD6).unwrap();
    memory.write_byte(58, 0x12).unwrap();
    assert_eq!(cpu.fetch_instruction(&memory), Ok(Instruction::SubAImm8(0x12)));

    memory.write_byte(59, 0xDE).unwrap();
    memory.write_byte(60, 0x12).unwrap();
    assert_eq!(cpu.fetch_instruction(&memory), Ok(Instruction::SbcAImm8(0x12)));

    memory.write_byte(61, 0xE6).unwrap();
    memory.write_byte(62, 0x12).unwrap();
    assert_eq!(cpu.fetch_instruction(&memory), Ok(Instruction::AndAImm8(0x12)));

    memory.write_byte(63, 0xEE).unwrap();
    memory.write_byte(64, 0x12).unwrap();
    assert_eq!(cpu.fetch_instruction(&memory), Ok(Instruction::XorAImm8(0x12)));

    memory.write_byte(65, 0xF6).unwrap();
    memory.write_byte(66, 0x12).unwrap();
    assert_eq!(cpu.fetch_instruction(&memory), Ok(Instruction::OrAImm8(0x12)));

    memory.write_byte(67, 0xFE).unwrap();
    memory.write_byte(68, 0x12).unwrap();
    assert_eq!(cpu.fetch_instruction(&memory), Ok(Instruction::CpAImm8(0x12)));

    memory.write_byte(69, 0xC0).unwrap();
    assert_eq!(cpu.fetch_instruction(&memory), Ok(Instruction::RetCond(Cond::NotZero)));

    memory.write_byte(70, 0xC9).unwrap();
    assert_eq!(cpu.fetch_instruction(&memory), Ok(Instruction::Ret));

    memory.write_byte(71, 0xD9).unwrap();
    assert_eq!(cpu.fetch_instruction(&memory), Ok(Instruction::Reti));

    memory.write_byte(72, 0xC2).unwrap();
    memory.write_byte(73, 0x12).unwrap();
    memory.write_byte(74, 0x34).unwrap();
    assert_eq!(cpu.fetch_instruction(&memory), Ok(Instruction::JpCondImm16(Cond::NotZero, 0x3412)));

    memory.write_byte(75, 0xC3).unwrap();
    memory.write_byte(76, 0x12).unwrap();
    memory.write_byte(77, 0x34).unwrap();
    assert_eq!(cpu.fetch_instruction(&memory), Ok(Instruction::JpImm16(0x3412)));

    memory.write_byte(78, 0xE9).unwrap();
    assert_eq!(cpu.fetch_instruction(&memory), Ok(Instruction::JpHl));

    memory.write_byte(79, 0xC4).unwrap();
    memory.write_byte(80, 0x12).unwrap();
    memory.write_byte(81, 0x34).unwrap();
    assert_eq!(cpu.fetch_instruction(&memory), Ok(Instruction::CallCondImm16(Cond::NotZero, 0x3412)));

    memory.write_byte(82, 0xCD).unwrap();
    memory.write_byte(83, 0x12).unwrap();
    memory.write_byte(84, 0x34).unwrap();
    assert_eq!(cpu.fetch_instruction(&memory), Ok(Instruction::CallImm16(0x3412)));

    memory.write_byte(85, 0xC7).unwrap();
    assert_eq!(cpu.fetch_instruction(&memory), Ok(Instruction::RstTgt3(TGT3::Zero)));

    memory.write_byte(86, 0xC1).unwrap();
    assert_eq!(cpu.fetch_instruction(&memory), Ok(Instruction::PopR16Stk(R16STK::BC)));

    memory.write_byte(87, 0xC5).unwrap();
    assert_eq!(cpu.fetch_instruction(&memory), Ok(Instruction::PushR16Stk(R16STK::BC)));

    memory.write_byte(88, 0xCB).unwrap();
    memory.write_byte(89, 0x00).unwrap();
    assert_eq!(cpu.fetch_instruction(&memory), Ok(Instruction::RlcR8(R8::B)));

    memory.write_byte(90, 0xCB).unwrap();
    memory.write_byte(91, 0x06).unwrap();
    assert_eq!(cpu.fetch_instruction(&memory), Ok(Instruction::RlcMemHl));

    memory.write_byte(92, 0xCB).unwrap();
    memory.write_byte(93, 0x08).unwrap();
    assert_eq!(cpu.fetch_instruction(&memory), Ok(Instruction::RrcR8(R8::B)));

    memory.write_byte(94, 0xCB).unwrap();
    memory.write_byte(95, 0x0E).unwrap();
    assert_eq!(cpu.fetch_instruction(&memory), Ok(Instruction::RrcMemHl));

    memory.write_byte(96, 0xCB).unwrap();
    memory.write_byte(97, 0x10).unwrap();
    assert_eq!(cpu.fetch_instruction(&memory), Ok(Instruction::RlR8(R8::B)));

    memory.write_byte(98, 0xCB).unwrap();
    memory.write_byte(99, 0x16).unwrap();
    assert_eq!(cpu.fetch_instruction(&memory), Ok(Instruction::RlMemHl));

    memory.write_byte(100, 0xCB).unwrap();
    memory.write_byte(101, 0x18).unwrap();
    assert_eq!(cpu.fetch_instruction(&memory), Ok(Instruction::RrR8(R8::B)));

    memory.write_byte(102, 0xCB).unwrap();
    memory.write_byte(103, 0x1E).unwrap();
    assert_eq!(cpu.fetch_instruction(&memory), Ok(Instruction::RrMemHl));

    memory.write_byte(104, 0xCB).unwrap();
    memory.write_byte(105, 0x20).unwrap();
    assert_eq!(cpu.fetch_instruction(&memory), Ok(Instruction::SlaR8(R8::B)));

    memory.write_byte(106, 0xCB).unwrap();
    memory.write_byte(107, 0x26).unwrap();
    assert_eq!(cpu.fetch_instruction(&memory), Ok(Instruction::SlaMemHl));

    memory.write_byte(108, 0xCB).unwrap();
    memory.write_byte(109, 0x28).unwrap();
    assert_eq!(cpu.fetch_instruction(&memory), Ok(Instruction::SraR8(R8::B)));

    memory.write_byte(110, 0xCB).unwrap();
    memory.write_byte(111, 0x2E).unwrap();
    assert_eq!(cpu.fetch_instruction(&memory), Ok(Instruction::SraMemHl));

    memory.write_byte(112, 0xCB).unwrap();
    memory.write_byte(113, 0x30).unwrap();
    assert_eq!(cpu.fetch_instruction(&memory), Ok(Instruction::SwapR8(R8::B)));

    memory.write_byte(114, 0xCB).unwrap();
    memory.write_byte(115, 0x36).unwrap();
    assert_eq!(cpu.fetch_instruction(&memory), Ok(Instruction::SwapMemHl));

    memory.write_byte(116, 0xCB).unwrap();
    memory.write_byte(117, 0x38).unwrap();
    assert_eq!(cpu.fetch_instruction(&memory), Ok(Instruction::SrlR8(R8::B)));

    memory.write_byte(118, 0xCB).unwrap();
    memory.write_byte(119, 0x3E).unwrap();
    assert_eq!(cpu.fetch_instruction(&memory), Ok(Instruction::SrlMemHl));

    memory.write_byte(120, 0xCB).unwrap();
    memory.write_byte(121, 0x40).unwrap();
    assert_eq!(cpu.fetch_instruction(&memory), Ok(Instruction::BitB3R8(B3::Zero, R8::B)));

    memory.write_byte(122, 0xCB).unwrap();
    memory.write_byte(123, 0x46).unwrap();
    assert_eq!(cpu.fetch_instruction(&memory), Ok(Instruction::BitB3MemHl(B3::Zero)));

    memory.write_byte(124, 0xCB).unwrap();
    memory.write_byte(125, 0x80).unwrap();
    assert_eq!(cpu.fetch_instruction(&memory), Ok(Instruction::ResB3R8(B3::Zero, R8::B)));

    memory.write_byte(126, 0xCB).unwrap();
    memory.write_byte(127, 0x86).unwrap();
    assert_eq!(cpu.fetch_instruction(&memory), Ok(Instruction::ResB3MemHl(B3::Zero)));

    memory.write_byte(128, 0xCB).unwrap();
    memory.write_byte(129, 0xC0).unwrap();
    assert_eq!(cpu.fetch_instruction(&memory), Ok(Instruction::SetB3R8(B3::Zero, R8::B)));

    memory.write_byte(130, 0xCB).unwrap();
    memory.write_byte(131, 0xC6).unwrap();
    assert_eq!(cpu.fetch_instruction(&memory), Ok(Instruction::SetB3MemHl(B3::Zero)));

    memory.write_byte(132, 0xE2).unwrap();
    assert_eq!(cpu.fetch_instruction(&memory), Ok(Instruction::LdhMemCA));

    memory.write_byte(133, 0xE0).unwrap();
    memory.write_byte(134, 0x12).unwrap();
    assert_eq!(cpu.fetch_instruction(&memory), Ok(Instruction::LdhMemImm8A(0x12)));

    memory.write_byte(135, 0xEA).unwrap();
    memory.write_byte(136, 0x34).unwrap();
    memory.write_byte(137, 0x12).unwrap();
    assert_eq!(cpu.fetch_instruction(&memory), Ok(Instruction::LdMemImm16A(0x1234)));

    memory.write_byte(138, 0xF2).unwrap();
    assert_eq!(cpu.fetch_instruction(&memory), Ok(Instruction::LdAMemC));

    memory.write_byte(139, 0xF0).unwrap();
    memory.write_byte(140, 0x12).unwrap();
    assert_eq!(cpu.fetch_instruction(&memory), Ok(Instruction::LdhAMemImm8(0x12)));

    memory.write_byte(141, 0xFA).unwrap();
    memory.write_byte(142, 0x34).unwrap();
    memory.write_byte(143, 0x12).unwrap();
    assert_eq!(cpu.fetch_instruction(&memory), Ok(Instruction::LdAMemImm16(0x1234)));

    memory.write_byte(144, 0xE8).unwrap();
    memory.write_byte(145, 0x12).unwrap();
    assert_eq!(cpu.fetch_instruction(&memory), Ok(Instruction::AddSpImm8(0x12)));

    memory.write_byte(146, 0xF8).unwrap();
    memory.write_byte(147, 0x12).unwrap();
    assert_eq!(cpu.fetch_instruction(&memory), Ok(Instruction::LdHlSpImm8(0x12)));

    memory.write_byte(148, 0xF9).unwrap();
    assert_eq!(cpu.fetch_instruction(&memory), Ok(Instruction::LdSpHl));

    memory.write_byte(149, 0xF3).unwrap();
    assert_eq!(cpu.fetch_instruction(&memory), Ok(Instruction::Di));

    memory.write_byte(150, 0xFB).unwrap();
    assert_eq!(cpu.fetch_instruction(&memory), Ok(Instruction::Ei));
}

#[test]
fn test_map_prefixed_instruction() {
    assert_eq!(map_prefixed_instruction(0x00), Instruction::RlcR8(R8::B));
    assert_eq!(map_prefixed_instruction(0x06), Instruction::RlcMemHl);
    assert_eq!(map_prefixed_instruction(0x08), Instruction::RrcR8(R8::B));
    assert_eq!(map_prefixed_instruction(0x0E), Instruction::RrcMemHl);
    assert_eq!(map_prefixed_instruction(0x10), Instruction::RlR8(R8::B));
    assert_eq!(map_prefixed_instruction(0x16), Instruction::RlMemHl);
    assert_eq!(map_prefixed_instruction(0x18), Instruction::RrR8(R8::B));
    assert_eq!(map_prefixed_instruction(0x1E), Instruction::RrMemHl);
    assert_eq!(map_prefixed_instruction(0x20), Instruction::SlaR8(R8::B));
    assert_eq!(map_prefixed_instruction(0x26), Instruction::SlaMemHl);
    assert_eq!(map_prefixed_instruction(0x28), Instruction::SraR8(R8::B));
    assert_eq!(map_prefixed_instruction(0x2E), Instruction::SraMemHl);
    assert_eq!(map_prefixed_instruction(0x30), Instruction::SwapR8(R8::B));
    assert_eq!(map_prefixed_instruction(0x36), Instruction::SwapMemHl);
    assert_eq!(map_prefixed_instruction(0x38), Instruction::SrlR8(R8::B));
    assert_eq!(map_prefixed_instruction(0x3E), Instruction::SrlMemHl);
    assert_eq!(
        map_prefixed_instruction(0x40),
        Instruction::BitB3R8(B3::Zero, R8::B)
    );
    assert_eq!(
        map_prefixed_instruction(0x46),
        Instruction::BitB3MemHl(B3::Zero)
    );
    assert_eq!(
        map_prefixed_instruction(0x80),
        Instruction::ResB3R8(B3::Zero, R8::B)
    );
    assert_eq!(
        map_prefixed_instruction(0x86),
        Instruction::ResB3MemHl(B3::Zero)
    );
    assert_eq!(
        map_prefixed_instruction(0xC0),
        Instruction::SetB3R8(B3::Zero, R8::B)
    );
    assert_eq!(
        map_prefixed_instruction(0xC6),
        Instruction::SetB3MemHl(B3::Zero)
    );
}

#[test]
fn cpu_test_fetch_instruction() {
    let mut memory = Memory::new();
    let mut cpu = Cpu::new();

    memory.write_byte(0, 0x00).unwrap();
    assert_eq!(cpu.fetch_instruction(&memory), Ok(Instruction::Nop));

    memory.write_byte(1, 0x01).unwrap();
    memory.write_byte(2, 0x12).unwrap(); // imm16
    assert_eq!(cpu.fetch_instruction(&memory), Ok(Instruction::LdR16Imm16(R16::BC, 0x12)));

    memory.write_byte(4, 0x02).unwrap();
    assert_eq!(cpu.fetch_instruction(&memory), Ok(Instruction::LdR16MemA(R16MEM::BC)));

    memory.write_byte(5, 0x0A).unwrap();
    assert_eq!(cpu.fetch_instruction(&memory), Ok(Instruction::LdAR16Mem(R16MEM::BC)));

    memory.write_byte(6, 0x08).unwrap();
    memory.write_byte(7, 0x34).unwrap();
    memory.write_byte(8, 0x12).unwrap();
    assert_eq!(cpu.fetch_instruction(&memory), Ok(Instruction::LdMemImm16SP(0x1234)));

    memory.write_byte(9, 0x03).unwrap();
    assert_eq!(cpu.fetch_instruction(&memory), Ok(Instruction::IncR16(R16::BC)));

    memory.write_byte(10, 0x0B).unwrap();
    assert_eq!(cpu.fetch_instruction(&memory), Ok(Instruction::DecR16(R16::BC)));

    memory.write_byte(11, 0x09).unwrap();
    assert_eq!(cpu.fetch_instruction(&memory), Ok(Instruction::AddHlR16(R16::BC)));

    memory.write_byte(12, 0x04).unwrap();
    assert_eq!(cpu.fetch_instruction(&memory), Ok(Instruction::IncR8(R8::B)));

    memory.write_byte(13, 0x05).unwrap();
    assert_eq!(cpu.fetch_instruction(&memory), Ok(Instruction::DecR8(R8::B)));

    memory.write_byte(14, 0x06).unwrap();
    memory.write_byte(15, 0x12).unwrap();
    assert_eq!(cpu.fetch_instruction(&memory), Ok(Instruction::LdR8Imm8(R8::B, 0x12)));

    memory.write_byte(16, 0x07).unwrap();
    assert_eq!(cpu.fetch_instruction(&memory), Ok(Instruction::Rlca));

    memory.write_byte(17, 0x0F).unwrap();
    assert_eq!(cpu.fetch_instruction(&memory), Ok(Instruction::Rrca));

    memory.write_byte(18, 0x17).unwrap();
    assert_eq!(cpu.fetch_instruction(&memory), Ok(Instruction::Rla));

    memory.write_byte(19, 0x1F).unwrap();
    assert_eq!(cpu.fetch_instruction(&memory), Ok(Instruction::Rra));

    memory.write_byte(20, 0x27).unwrap();
    assert_eq!(cpu.fetch_instruction(&memory), Ok(Instruction::Daa));

    memory.write_byte(21, 0x2F).unwrap();
    assert_eq!(cpu.fetch_instruction(&memory), Ok(Instruction::Cpl));

    memory.write_byte(22, 0x37).unwrap();
    assert_eq!(cpu.fetch_instruction(&memory), Ok(Instruction::Scf));

    memory.write_byte(23, 0x3F).unwrap();
    assert_eq!(cpu.fetch_instruction(&memory), Ok(Instruction::Ccf));

    memory.write_byte(24, 0x18).unwrap();
    memory.write_byte(25, 0x12).unwrap();
    assert_eq!(cpu.fetch_instruction(&memory), Ok(Instruction::JrImm8(0x12)));

    memory.write_byte(26, 0x20).unwrap();
    memory.write_byte(27, 0x10).unwrap();
    assert_eq!(cpu.fetch_instruction(&memory), Ok(Instruction::JrCondImm8(Cond::NotZero, 0x10)));

    memory.write_byte(28, 0x10).unwrap();
    assert_eq!(cpu.fetch_instruction(&memory), Ok(Instruction::Stop));

    memory.write_byte(29, 0x76).unwrap();
    assert_eq!(cpu.fetch_instruction(&memory), Ok(Instruction::Halt));

    memory.write_byte(30, 0x40).unwrap();
    assert_eq!(cpu.fetch_instruction(&memory), Ok(Instruction::LdR8R8(R8::B, R8::B)));

    memory.write_byte(31, 0x80).unwrap();
    assert_eq!(cpu.fetch_instruction(&memory), Ok(Instruction::AddAR8(R8::B)));

    memory.write_byte(32, 0x88).unwrap();
    assert_eq!(cpu.fetch_instruction(&memory), Ok(Instruction::AdcAR8(R8::B)));

    memory.write_byte(33, 0x90).unwrap();
    assert_eq!(cpu.fetch_instruction(&memory), Ok(Instruction::SubAR8(R8::B)));

    memory.write_byte(34, 0x98).unwrap();
    assert_eq!(cpu.fetch_instruction(&memory), Ok(Instruction::SbcAR8(R8::B)));

    memory.write_byte(35, 0xA0).unwrap();
    assert_eq!(cpu.fetch_instruction(&memory), Ok(Instruction::AndAR8(R8::B)));

    memory.write_byte(36, 0xA8).unwrap();
    assert_eq!(cpu.fetch_instruction(&memory), Ok(Instruction::XorAR8(R8::B)));

    memory.write_byte(37, 0xB0).unwrap();
    assert_eq!(cpu.fetch_instruction(&memory), Ok(Instruction::OrAR8(R8::B)));

    memory.write_byte(38, 0xB8).unwrap();
    assert_eq!(cpu.fetch_instruction(&memory), Ok(Instruction::CpAR8(R8::B)));

    memory.write_byte(39, 0xC6).unwrap();
    memory.write_byte(40, 0x12).unwrap();
    assert_eq!(cpu.fetch_instruction(&memory), Ok(Instruction::AddAImm8(0x12)));

    memory.write_byte(41, 0xCE).unwrap();
    memory.write_byte(42, 0x12).unwrap();
    assert_eq!(cpu.fetch_instruction(&memory), Ok(Instruction::AdcAImm8(0x12)));

    memory.write_byte(43, 0xD6).unwrap();
    memory.write_byte(44, 0x12).unwrap();
    assert_eq!(cpu.fetch_instruction(&memory), Ok(Instruction::SubAImm8(0x12)));

    memory.write_byte(45, 0xDE).unwrap();
    memory.write_byte(46, 0x12).unwrap();
    assert_eq!(cpu.fetch_instruction(&memory), Ok(Instruction::SbcAImm8(0x12)));

    memory.write_byte(47, 0xE6).unwrap();
    memory.write_byte(48, 0x12).unwrap();
    assert_eq!(cpu.fetch_instruction(&memory), Ok(Instruction::AndAImm8(0x12)));

    memory.write_byte(49, 0xEE).unwrap();
    memory.write_byte(50, 0x12).unwrap();
    assert_eq!(cpu.fetch_instruction(&memory), Ok(Instruction::XorAImm8(0x12)));

    memory.write_byte(51, 0xF6).unwrap();
    memory.write_byte(52, 0x12).unwrap();
    assert_eq!(cpu.fetch_instruction(&memory), Ok(Instruction::OrAImm8(0x12)));

    memory.write_byte(53, 0xFE).unwrap();
    memory.write_byte(54, 0x12).unwrap();
    assert_eq!(cpu.fetch_instruction(&memory), Ok(Instruction::CpAImm8(0x12)));

    memory.write_byte(55, 0xC0).unwrap();
    assert_eq!(cpu.fetch_instruction(&memory), Ok(Instruction::RetCond(Cond::NotZero)));

    memory.write_byte(56, 0xC9).unwrap();
    assert_eq!(cpu.fetch_instruction(&memory), Ok(Instruction::Ret));

    memory.write_byte(57, 0xD9).unwrap();
    assert_eq!(cpu.fetch_instruction(&memory), Ok(Instruction::Reti));
    
    memory.write_byte(58, 0xC2).unwrap();
    memory.write_byte(59, 0x12).unwrap();
    memory.write_byte(60, 0x34).unwrap();
    assert_eq!(cpu.fetch_instruction(&memory), Ok(Instruction::JpCondImm16(Cond::NotZero, 0x3412)));

    memory.write_byte(61, 0xC3).unwrap();
    memory.write_byte(62, 0x12).unwrap();
    memory.write_byte(63, 0x34).unwrap();
    assert_eq!(cpu.fetch_instruction(&memory), Ok(Instruction::JpImm16(0x3412)));

    memory.write_byte(64, 0xE9).unwrap();
    assert_eq!(cpu.fetch_instruction(&memory), Ok(Instruction::JpHl));
    
    memory.write_byte(65, 0xC4).unwrap();
    memory.write_byte(66, 0x12).unwrap();
    memory.write_byte(67, 0x34).unwrap();
    assert_eq!(cpu.fetch_instruction(&memory), Ok(Instruction::CallCondImm16(Cond::NotZero, 0x3412)));

    memory.write_byte(68, 0xCD).unwrap();
    memory.write_byte(69, 0x12).unwrap();
    memory.write_byte(70, 0x34).unwrap();
    assert_eq!(cpu.fetch_instruction(&memory), Ok(Instruction::CallImm16(0x3412)));

    memory.write_byte(71, 0xC7).unwrap();
    assert_eq!(cpu.fetch_instruction(&memory), Ok(Instruction::RstTgt3(TGT3::Zero)));

    memory.write_byte(72, 0xC1).unwrap();
    assert_eq!(cpu.fetch_instruction(&memory), Ok(Instruction::PopR16Stk(R16STK::BC)));

    memory.write_byte(73, 0xC5).unwrap();
    assert_eq!(cpu.fetch_instruction(&memory), Ok(Instruction::PushR16Stk(R16STK::BC)));

    memory.write_byte(74, 0xCB).unwrap();
    memory.write_byte(75, 0x00).unwrap();
    assert_eq!(cpu.fetch_instruction(&memory), Ok(Instruction::RlcR8(R8::B)));

    memory.write_byte(76, 0xCB).unwrap();
    memory.write_byte(77, 0x08).unwrap();
    assert_eq!(cpu.fetch_instruction(&memory), Ok(Instruction::RrcR8(R8::B)));

    memory.write_byte(78, 0xCB).unwrap();
    memory.write_byte(79, 0x10).unwrap();
    assert_eq!(cpu.fetch_instruction(&memory), Ok(Instruction::RlR8(R8::B)));

    memory.write_byte(80, 0xCB).unwrap();
    memory.write_byte(81, 0x18).unwrap();
    assert_eq!(cpu.fetch_instruction(&memory), Ok(Instruction::RrR8(R8::B)));

    memory.write_byte(82, 0xCB).unwrap();
    memory.write_byte(83, 0x20).unwrap();
    assert_eq!(cpu.fetch_instruction(&memory), Ok(Instruction::SlaR8(R8::B)));

    memory.write_byte(84, 0xCB).unwrap();
    memory.write_byte(85, 0x28).unwrap();
    assert_eq!(cpu.fetch_instruction(&memory), Ok(Instruction::SraR8(R8::B)));

    memory.write_byte(86, 0xCB).unwrap();
    memory.write_byte(87, 0x30).unwrap();
    assert_eq!(cpu.fetch_instruction(&memory), Ok(Instruction::SwapR8(R8::B)));

    memory.write_byte(88, 0xCB).unwrap();
    memory.write_byte(89, 0x38).unwrap();
    assert_eq!(cpu.fetch_instruction(&memory), Ok(Instruction::SrlR8(R8::B)));

    memory.write_byte(90, 0xE2).unwrap();
    assert_eq!(cpu.fetch_instruction(&memory), Ok(Instruction::LdhMemCA));

    memory.write_byte(91, 0xE0).unwrap();
    memory.write_byte(92, 0x12).unwrap();
    assert_eq!(cpu.fetch_instruction(&memory), Ok(Instruction::LdhMemImm8A(0x12)));

    memory.write_byte(93, 0xEA).unwrap();
    memory.write_byte(94, 0x34).unwrap();
    memory.write_byte(95, 0x12).unwrap();
    assert_eq!(cpu.fetch_instruction(&memory), Ok(Instruction::LdMemImm16A(0x1234)));

    memory.write_byte(96, 0xF2).unwrap();
    assert_eq!(cpu.fetch_instruction(&memory), Ok(Instruction::LdAMemC));

    memory.write_byte(97, 0xF0).unwrap();
    memory.write_byte(98, 0x12).unwrap();
    assert_eq!(cpu.fetch_instruction(&memory), Ok(Instruction::LdhAMemImm8(0x12)));

    memory.write_byte(99, 0xFA).unwrap();
    memory.write_byte(100, 0x34).unwrap();
    memory.write_byte(101, 0x12).unwrap();
    assert_eq!(cpu.fetch_instruction(&memory), Ok(Instruction::LdAMemImm16(0x1234)));

    memory.write_byte(102, 0xE8).unwrap();
    memory.write_byte(103, 0x12).unwrap();
    assert_eq!(cpu.fetch_instruction(&memory), Ok(Instruction::AddSpImm8(0x12)));

    memory.write_byte(104, 0xF8).unwrap();
    memory.write_byte(105, 0x12).unwrap();
    assert_eq!(cpu.fetch_instruction(&memory), Ok(Instruction::LdHlSpImm8(0x12)));

    memory.write_byte(106, 0xF9).unwrap();
    assert_eq!(cpu.fetch_instruction(&memory), Ok(Instruction::LdSpHl));

    memory.write_byte(107, 0xF3).unwrap();
    assert_eq!(cpu.fetch_instruction(&memory), Ok(Instruction::Di));

    memory.write_byte(108, 0xFB).unwrap();
    assert_eq!(cpu.fetch_instruction(&memory), Ok(Instruction::Ei));

}
