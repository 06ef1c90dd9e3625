//! The exception syndrome in words.
use crate::text;
use vstd::prelude::*;
use vstd::string::*;

verus! {

/// The exception class of a supervisor call.
pub const EC_SVC: u64 = 0x15;

/// The exception class of a data abort of the kernel itself.
pub const EC_DATA_ABORT_SAME_EL: u64 = 0x25;

/// The exception class of a breakpoint instruction.
pub const EC_BRK: u64 = 0x3C;

/// The exception class: bits 31 to 26 of the syndrome.
pub open spec fn class_of(esr: u64) -> u64 {
    esr / 0x400_0000 % 64
}

/// The instruction length bit: bit 25 of the syndrome.
pub open spec fn length_of(esr: u64) -> u64 {
    esr / 0x200_0000 % 2
}

/// What the class does not say: bits 24 to 0 of the syndrome.
pub open spec fn specific_of(esr: u64) -> u64 {
    esr % 0x200_0000
}

/// The exception class of the syndrome.
pub fn exception_class(esr: u64) -> (ec: u64)
    ensures
        ec == class_of(esr),
{
    assert((esr >> 26) & 0x3F == esr / 0x400_0000 % 64) by (bit_vector);
    (esr >> 26) & 0x3F
}

/// The instruction length bit of the syndrome.
pub fn instruction_length(esr: u64) -> (il: u64)
    ensures
        il == length_of(esr),
{
    assert((esr >> 25) & 1 == esr / 0x200_0000 % 2) by (bit_vector);
    (esr >> 25) & 1
}

/// What the class does not say of the syndrome.
pub fn specific_syndrome(esr: u64) -> (iss: u64)
    ensures
        iss == specific_of(esr),
{
    assert(esr & 0x01FF_FFFF == esr % 0x200_0000) by (bit_vector);
    esr & 0x01FF_FFFF
}

/// The name of the exception class `ec`.
pub open spec fn cause(ec: u64) -> Seq<char> {
    match ec {
        0x00 => "Unknown exception"@,
        0x01 => "Trapped WFI/WFE"@,
        0x07 => "Trapped SVE/SME"@,
        0x15 => "SVC instruction"@,
        0x16 => "HVC instruction"@,
        0x17 => "SMC instruction"@,
        0x18 => "Trapped MSR/MRS"@,
        0x20 => "Instruction abort from lower EL"@,
        0x21 => "Instruction abort from same EL"@,
        0x22 => "PC alignment fault"@,
        0x24 => "Data abort from lower EL"@,
        0x25 => "Data abort from same EL"@,
        0x26 => "SP alignment fault"@,
        0x2C => "FP exception"@,
        0x3C => "BRK instruction"@,
        _ => "Other synchronous exception"@,
    }
}

/// The name of the syndrome's exception class.
pub fn decode_esr(esr: u64) -> (name: &'static str)
    ensures
        name@ == cause(class_of(esr)),
{
    let ec: u64 = exception_class(esr);
    match ec {
        0x00 => "Unknown exception",
        0x01 => "Trapped WFI/WFE",
        0x07 => "Trapped SVE/SME",
        0x15 => "SVC instruction",
        0x16 => "HVC instruction",
        0x17 => "SMC instruction",
        0x18 => "Trapped MSR/MRS",
        0x20 => "Instruction abort from lower EL",
        0x21 => "Instruction abort from same EL",
        0x22 => "PC alignment fault",
        0x24 => "Data abort from lower EL",
        0x25 => "Data abort from same EL",
        0x26 => "SP alignment fault",
        0x2C => "FP exception",
        0x3C => "BRK instruction",
        _ => "Other synchronous exception",
    }
}

/// The name of the access size `sas`.
pub open spec fn access_size(sas: u64) -> Seq<char> {
    match sas {
        0 => "byte"@,
        1 => "halfword"@,
        2 => "word"@,
        3 => "doubleword"@,
        _ => "unknown"@,
    }
}

/// The name of the fault status `dfsc`.
pub open spec fn fault(dfsc: u64) -> Seq<char> {
    match dfsc {
        0x04 => "Translation fault, level 0"@,
        0x05 => "Translation fault, level 1"@,
        0x06 => "Translation fault, level 2"@,
        0x07 => "Translation fault, level 3"@,
        0x09 => "Access flag fault, level 1"@,
        0x0A => "Access flag fault, level 2"@,
        0x0B => "Access flag fault, level 3"@,
        0x0D => "Permission fault, level 1"@,
        0x0E => "Permission fault, level 2"@,
        0x0F => "Permission fault, level 3"@,
        0x10 => "Synchronous external abort"@,
        0x11 => "Synchronous external abort, translation table walk, level 1"@,
        0x12 => "Synchronous external abort, translation table walk, level 2"@,
        0x13 => "Synchronous external abort, translation table walk, level 3"@,
        _ => "Other data abort"@,
    }
}

/// `out` followed by the details of the data abort with syndrome `esr`: bit 24
/// says whether they are valid, bit 6 tells a write, bits 23 and 22 give the
/// size, bits 5 to 0 the fault status.
pub open spec fn with_data_abort(out: Seq<char>, esr: u64) -> Seq<char> {
    let dfsc = esr % 64;
    let t = text::with_line(out, "Data abort details:"@);
    let t = text::with_decimal_line(t, "ISV = "@, (esr / 0x100_0000 % 2) as nat);
    let t = text::with_text_line(
        t,
        "Access = "@,
        if esr / 64 % 2 == 1 {
            "write"@
        } else {
            "read"@
        },
    );
    let t = text::with_text_line(t, "Access size = "@, access_size(esr / 0x40_0000 % 4));
    let t = text::with_hex_line(t, "DFSC = "@, dfsc as nat, 4);
    text::with_text_line(t, "Fault = "@, fault(dfsc))
}

/// Appends the details of the data abort with syndrome `esr`.
pub fn decode_data_abort(out: &mut String, esr: u64)
    ensures
        final(out)@ == with_data_abort(old(out)@, esr),
{
    let iss: u64 = esr & 0x01FF_FFFF;
    let isv: u64 = (iss >> 24) & 1;
    let wnr: u64 = (iss >> 6) & 1;
    let sas: u64 = (iss >> 22) & 0x3;
    let dfsc: u64 = iss & 0x3F;
    assert(isv == esr / 0x100_0000 % 2 && wnr == esr / 64 % 2 && sas == esr / 0x40_0000 % 4 && dfsc
        == esr % 64) by (bit_vector)
        requires
            isv == ((esr & 0x01FF_FFFF) >> 24) & 1,
            wnr == ((esr & 0x01FF_FFFF) >> 6) & 1,
            sas == ((esr & 0x01FF_FFFF) >> 22) & 0x3,
            dfsc == (esr & 0x01FF_FFFF) & 0x3F,
    ;
    let access_size: &str = match sas {
        0 => "byte",
        1 => "halfword",
        2 => "word",
        3 => "doubleword",
        _ => "unknown",
    };
    let fault: &str = match dfsc {
        0x04 => "Translation fault, level 0",
        0x05 => "Translation fault, level 1",
        0x06 => "Translation fault, level 2",
        0x07 => "Translation fault, level 3",
        0x09 => "Access flag fault, level 1",
        0x0A => "Access flag fault, level 2",
        0x0B => "Access flag fault, level 3",
        0x0D => "Permission fault, level 1",
        0x0E => "Permission fault, level 2",
        0x0F => "Permission fault, level 3",
        0x10 => "Synchronous external abort",
        0x11 => "Synchronous external abort, translation table walk, level 1",
        0x12 => "Synchronous external abort, translation table walk, level 2",
        0x13 => "Synchronous external abort, translation table walk, level 3",
        _ => "Other data abort",
    };
    let access: &str = if wnr == 1 {
        "write"
    } else {
        "read"
    };
    text::put_line(out, "Data abort details:");
    text::put_decimal_line(out, "ISV = ", isv);
    text::put_text_line(out, "Access = ", access);
    text::put_text_line(out, "Access size = ", access_size);
    text::put_hex_line(out, "DFSC = ", dfsc, 4);
    text::put_text_line(out, "Fault = ", fault);
}

} // verus!
