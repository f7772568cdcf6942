//! The fixed vocabulary of the language: mnemonics, registers, special
//! function registers and directives.
use crate::parser::pattern::{first_group, regex_first_group};
use crate::parser::text::{digit_value, is_digit, is_word, lowercase, to_lowercase};
use vstd::prelude::*;

verus! {

/// An instruction mnemonic.
#[derive(Clone, Copy, Debug, PartialEq, Eq, Structural)]
pub enum Operator {
    Acall,
    Add,
    Addc,
    Ajmp,
    Anl,
    Call,
    Cjne,
    Clr,
    Cpl,
    Da,
    Dec,
    Div,
    Djnz,
    Inc,
    Jb,
    Jbc,
    Jc,
    Jmp,
    Jnb,
    Jnc,
    Jnz,
    Jz,
    Lcall,
    Ljmp,
    Mov,
    Movc,
    Movx,
    Mul,
    Nop,
    Orl,
    Pop,
    Push,
    Ret,
    Reti,
    Rl,
    Rlc,
    Rr,
    Rrc,
    Setb,
    Sjmp,
    Subb,
    Swap,
    Xch,
    Xchd,
    Xrl,
}

impl Operator {
    /// The mnemonic that a lower-case word spells, if any.
    pub open spec fn named(word: Seq<char>) -> Option<Operator> {
        if word == "acall"@ {
            Some(Operator::Acall)
        } else if word == "add"@ {
            Some(Operator::Add)
        } else if word == "addc"@ {
            Some(Operator::Addc)
        } else if word == "ajmp"@ {
            Some(Operator::Ajmp)
        } else if word == "anl"@ {
            Some(Operator::Anl)
        } else if word == "call"@ {
            Some(Operator::Call)
        } else if word == "cjne"@ {
            Some(Operator::Cjne)
        } else if word == "clr"@ {
            Some(Operator::Clr)
        } else if word == "cpl"@ {
            Some(Operator::Cpl)
        } else if word == "da"@ {
            Some(Operator::Da)
        } else if word == "dec"@ {
            Some(Operator::Dec)
        } else if word == "div"@ {
            Some(Operator::Div)
        } else if word == "djnz"@ {
            Some(Operator::Djnz)
        } else if word == "inc"@ {
            Some(Operator::Inc)
        } else if word == "jb"@ {
            Some(Operator::Jb)
        } else if word == "jbc"@ {
            Some(Operator::Jbc)
        } else if word == "jc"@ {
            Some(Operator::Jc)
        } else if word == "jmp"@ {
            Some(Operator::Jmp)
        } else if word == "jnb"@ {
            Some(Operator::Jnb)
        } else if word == "jnc"@ {
            Some(Operator::Jnc)
        } else if word == "jnz"@ {
            Some(Operator::Jnz)
        } else if word == "jz"@ {
            Some(Operator::Jz)
        } else if word == "lcall"@ {
            Some(Operator::Lcall)
        } else if word == "ljmp"@ {
            Some(Operator::Ljmp)
        } else if word == "mov"@ {
            Some(Operator::Mov)
        } else if word == "movc"@ {
            Some(Operator::Movc)
        } else if word == "movx"@ {
            Some(Operator::Movx)
        } else if word == "mul"@ {
            Some(Operator::Mul)
        } else if word == "nop"@ {
            Some(Operator::Nop)
        } else if word == "orl"@ {
            Some(Operator::Orl)
        } else if word == "pop"@ {
            Some(Operator::Pop)
        } else if word == "push"@ {
            Some(Operator::Push)
        } else if word == "ret"@ {
            Some(Operator::Ret)
        } else if word == "reti"@ {
            Some(Operator::Reti)
        } else if word == "rl"@ {
            Some(Operator::Rl)
        } else if word == "rlc"@ {
            Some(Operator::Rlc)
        } else if word == "rr"@ {
            Some(Operator::Rr)
        } else if word == "rrc"@ {
            Some(Operator::Rrc)
        } else if word == "setb"@ {
            Some(Operator::Setb)
        } else if word == "sjmp"@ {
            Some(Operator::Sjmp)
        } else if word == "subb"@ {
            Some(Operator::Subb)
        } else if word == "swap"@ {
            Some(Operator::Swap)
        } else if word == "xch"@ {
            Some(Operator::Xch)
        } else if word == "xchd"@ {
            Some(Operator::Xchd)
        } else if word == "xrl"@ {
            Some(Operator::Xrl)
        } else {
            None
        }
    }

    /// Reads a mnemonic, in any mix of upper and lower case.
    pub fn from_str(s: &str) -> (r: Result<Operator, ()>)
        ensures
            r.ok() == Operator::named(lowercase(s@)),
    {
        let word = to_lowercase(s);
        if is_word(&word, "acall") {
            Ok(Operator::Acall)
        } else if is_word(&word, "add") {
            Ok(Operator::Add)
        } else if is_word(&word, "addc") {
            Ok(Operator::Addc)
        } else if is_word(&word, "ajmp") {
            Ok(Operator::Ajmp)
        } else if is_word(&word, "anl") {
            Ok(Operator::Anl)
        } else if is_word(&word, "call") {
            Ok(Operator::Call)
        } else if is_word(&word, "cjne") {
            Ok(Operator::Cjne)
        } else if is_word(&word, "clr") {
            Ok(Operator::Clr)
        } else if is_word(&word, "cpl") {
            Ok(Operator::Cpl)
        } else if is_word(&word, "da") {
            Ok(Operator::Da)
        } else if is_word(&word, "dec") {
            Ok(Operator::Dec)
        } else if is_word(&word, "div") {
            Ok(Operator::Div)
        } else if is_word(&word, "djnz") {
            Ok(Operator::Djnz)
        } else if is_word(&word, "inc") {
            Ok(Operator::Inc)
        } else if is_word(&word, "jb") {
            Ok(Operator::Jb)
        } else if is_word(&word, "jbc") {
            Ok(Operator::Jbc)
        } else if is_word(&word, "jc") {
            Ok(Operator::Jc)
        } else if is_word(&word, "jmp") {
            Ok(Operator::Jmp)
        } else if is_word(&word, "jnb") {
            Ok(Operator::Jnb)
        } else if is_word(&word, "jnc") {
            Ok(Operator::Jnc)
        } else if is_word(&word, "jnz") {
            Ok(Operator::Jnz)
        } else if is_word(&word, "jz") {
            Ok(Operator::Jz)
        } else if is_word(&word, "lcall") {
            Ok(Operator::Lcall)
        } else if is_word(&word, "ljmp") {
            Ok(Operator::Ljmp)
        } else if is_word(&word, "mov") {
            Ok(Operator::Mov)
        } else if is_word(&word, "movc") {
            Ok(Operator::Movc)
        } else if is_word(&word, "movx") {
            Ok(Operator::Movx)
        } else if is_word(&word, "mul") {
            Ok(Operator::Mul)
        } else if is_word(&word, "nop") {
            Ok(Operator::Nop)
        } else if is_word(&word, "orl") {
            Ok(Operator::Orl)
        } else if is_word(&word, "pop") {
            Ok(Operator::Pop)
        } else if is_word(&word, "push") {
            Ok(Operator::Push)
        } else if is_word(&word, "ret") {
            Ok(Operator::Ret)
        } else if is_word(&word, "reti") {
            Ok(Operator::Reti)
        } else if is_word(&word, "rl") {
            Ok(Operator::Rl)
        } else if is_word(&word, "rlc") {
            Ok(Operator::Rlc)
        } else if is_word(&word, "rr") {
            Ok(Operator::Rr)
        } else if is_word(&word, "rrc") {
            Ok(Operator::Rrc)
        } else if is_word(&word, "setb") {
            Ok(Operator::Setb)
        } else if is_word(&word, "sjmp") {
            Ok(Operator::Sjmp)
        } else if is_word(&word, "subb") {
            Ok(Operator::Subb)
        } else if is_word(&word, "swap") {
            Ok(Operator::Swap)
        } else if is_word(&word, "xch") {
            Ok(Operator::Xch)
        } else if is_word(&word, "xchd") {
            Ok(Operator::Xchd)
        } else if is_word(&word, "xrl") {
            Ok(Operator::Xrl)
        } else {
            Err(())
        }
    }
}

impl std::str::FromStr for Operator {
    type Err = ();

    fn from_str(s: &str) -> (r: Result<Operator, ()>)
        ensures
            r.ok() == Operator::named(lowercase(s@)),
    {
        Operator::from_str(s)
    }
}

/// A CPU register: the accumulator, the carry flag, the program counter, the
/// data pointer, or one of the eight working registers.
#[derive(Clone, Copy, Debug, PartialEq, Eq, Structural)]
pub enum Register {
    R(u8),
    A,
    C,
    PC,
    DPTR,
}

/// The expression that a working register's name matches: a capital `R` and
/// one digit, which is group 1.
pub open spec fn register_pattern() -> Seq<char> {
    "^R(\\d)$"@
}

/// The digit 0 to 9 that a captured group holds, if it holds exactly one.
pub open spec fn captured_digit(group: Seq<char>) -> Option<u8> {
    if group.len() == 1 && is_digit(group[0]) {
        Some(digit_value(group[0]) as u8)
    } else {
        None
    }
}

/// Reads the one decimal digit of a captured group.
pub fn digit_of(group: &str) -> (r: Option<u8>)
    ensures
        r == captured_digit(group@),
{
    if group.unicode_len() == 1 {
        let c = group.get_char(0);
        if c >= '0' && c <= '9' {
            Some((c as u8) - 48)
        } else {
            None
        }
    } else {
        None
    }
}

impl View for Register {
    type V = Register;

    open spec fn view(&self) -> Register {
        *self
    }
}

impl Register {
    /// Working registers are numbered 0 to 7.
    pub open spec fn wf(&self) -> bool {
        match *self {
            Register::R(n) => n < 8,
            _ => true,
        }
    }

    /// The register that a name stands for, given what the working-register
    /// expression captured from the name.
    pub open spec fn from_match(group: Option<Seq<char>>, name: Seq<char>) -> Option<Register> {
        match group {
            Some(g) => match captured_digit(g) {
                Some(n) => if n < 8 {
                    Some(Register::R(n))
                } else {
                    None
                },
                None => None,
            },
            None => {
                let word = lowercase(name);
                if word == "a"@ {
                    Some(Register::A)
                } else if word == "c"@ {
                    Some(Register::C)
                } else if word == "pc"@ {
                    Some(Register::PC)
                } else if word == "dptr"@ {
                    Some(Register::DPTR)
                } else {
                    None
                }
            },
        }
    }

    /// The register that a name stands for.
    pub open spec fn named(name: Seq<char>) -> Option<Register> {
        Register::from_match(regex_first_group(register_pattern(), name), name)
    }

    /// Decides which register a name stands for, once the working-register
    /// expression has been matched against it: `group` is what it captured.
    pub fn from_capture(group: Option<String>, s: &str) -> (r: Result<Register, ()>)
        ensures
            r.ok() == Register::from_match(
                match group {
                    Some(g) => Some(g@),
                    None => None,
                },
                s@,
            ),
            r is Ok ==> r.unwrap().wf(),
    {
        match group {
            Some(g) => match digit_of(g.as_str()) {
                Some(n) => if n < 8 {
                    Ok(Register::R(n))
                } else {
                    Err(())
                },
                None => Err(()),
            },
            None => {
                let word = to_lowercase(s);
                if is_word(&word, "a") {
                    Ok(Register::A)
                } else if is_word(&word, "c") {
                    Ok(Register::C)
                } else if is_word(&word, "pc") {
                    Ok(Register::PC)
                } else if is_word(&word, "dptr") {
                    Ok(Register::DPTR)
                } else {
                    Err(())
                }
            },
        }
    }

    /// Reads a register name: `R0` to `R7` with a capital `R`, or `A`, `C`,
    /// `PC`, `DPTR` in any mix of upper and lower case.
    pub fn from_str(s: &str) -> (r: Result<Register, ()>)
        ensures
            r.ok() == Register::named(s@),
            r is Ok ==> r.unwrap().wf(),
    {
        let group = first_group("^R(\\d)$", s);
        Register::from_capture(group, s)
    }
}

impl std::str::FromStr for Register {
    type Err = ();

    fn from_str(s: &str) -> (r: Result<Register, ()>)
        ensures
            r.ok() == Register::named(s@),
            r is Ok ==> r.unwrap().wf(),
    {
        Register::from_str(s)
    }
}

/// A data-definition directive.
#[derive(Clone, Copy, Debug, PartialEq, Eq, Structural)]
pub enum Definition {
    DefineByte,
    DefineWord,
}

impl View for Definition {
    type V = Definition;

    open spec fn view(&self) -> Definition {
        *self
    }
}

impl Definition {
    /// The directive that a lower-case word spells, if any.
    pub open spec fn named(word: Seq<char>) -> Option<Definition> {
        if word == "db"@ {
            Some(Definition::DefineByte)
        } else if word == "dw"@ {
            Some(Definition::DefineWord)
        } else {
            None
        }
    }

    /// Reads `db` or `dw`, in any mix of upper and lower case.
    pub fn from_str(s: &str) -> (r: Result<Definition, ()>)
        ensures
            r.ok() == Definition::named(lowercase(s@)),
    {
        let word = to_lowercase(s);
        if is_word(&word, "db") {
            Ok(Definition::DefineByte)
        } else if is_word(&word, "dw") {
            Ok(Definition::DefineWord)
        } else {
            Err(())
        }
    }
}

impl std::str::FromStr for Definition {
    type Err = ();

    fn from_str(s: &str) -> (r: Result<Definition, ()>)
        ensures
            r.ok() == Definition::named(lowercase(s@)),
    {
        Definition::from_str(s)
    }
}

/// A special function register, named by its place in the direct address
/// space.
#[derive(Clone, Copy, Debug, PartialEq, Eq, Structural)]
pub enum DirectLocation {
    Port(u8),
    SP,
    DPL,
    DPH,
    PCON,
    TCON,
    TMOD,
    TL0,
    TL1,
    TH0,
    TH1,
    SCON,
    SBUF,
    IEN0,
    IP0,
    IEN1,
    IP1,
    IRCON,
    CCEN,
    CCL1,
    CCH1,
    CCL2,
    CCH2,
    CCL3,
    CCH3,
    T2CON,
    CRCL,
    CRCH,
    TL2,
    TH2,
    PSW,
    ADCON,
    ADDAT,
    DAPR,
    ACC,
    B,
}

/// The expression that a port's lower-case name matches: `p` and one digit,
/// which is group 1.
pub open spec fn port_pattern() -> Seq<char> {
    "^p(\\d)$"@
}

impl DirectLocation {
    /// Ports are numbered 0 to 6.
    pub open spec fn wf(&self) -> bool {
        match *self {
            DirectLocation::Port(p) => p < 7,
            _ => true,
        }
    }

    /// The register that a lower-case word other than a port's name spells,
    /// if any.
    pub open spec fn named_register(word: Seq<char>) -> Option<DirectLocation> {
        if word == "sp"@ {
            Some(DirectLocation::SP)
        } else if word == "dpl"@ {
            Some(DirectLocation::DPL)
        } else if word == "dph"@ {
            Some(DirectLocation::DPH)
        } else if word == "pcon"@ {
            Some(DirectLocation::PCON)
        } else if word == "tcon"@ {
            Some(DirectLocation::TCON)
        } else if word == "tmod"@ {
            Some(DirectLocation::TMOD)
        } else if word == "tl0"@ {
            Some(DirectLocation::TL0)
        } else if word == "tl1"@ {
            Some(DirectLocation::TL1)
        } else if word == "th0"@ {
            Some(DirectLocation::TH0)
        } else if word == "th1"@ {
            Some(DirectLocation::TH1)
        } else if word == "scon"@ {
            Some(DirectLocation::SCON)
        } else if word == "sbuf"@ {
            Some(DirectLocation::SBUF)
        } else if word == "ien0"@ {
            Some(DirectLocation::IEN0)
        } else if word == "ip0"@ {
            Some(DirectLocation::IP0)
        } else if word == "ien1"@ {
            Some(DirectLocation::IEN1)
        } else if word == "ip1"@ {
            Some(DirectLocation::IP1)
        } else if word == "ircon"@ {
            Some(DirectLocation::IRCON)
        } else if word == "ccen"@ {
            Some(DirectLocation::CCEN)
        } else if word == "ccl1"@ {
            Some(DirectLocation::CCL1)
        } else if word == "cch1"@ {
            Some(DirectLocation::CCH1)
        } else if word == "ccl2"@ {
            Some(DirectLocation::CCL2)
        } else if word == "cch2"@ {
            Some(DirectLocation::CCH2)
        } else if word == "ccl3"@ {
            Some(DirectLocation::CCL3)
        } else if word == "cch3"@ {
            Some(DirectLocation::CCH3)
        } else if word == "t2con"@ {
            Some(DirectLocation::T2CON)
        } else if word == "crcl"@ {
            Some(DirectLocation::CRCL)
        } else if word == "crch"@ {
            Some(DirectLocation::CRCH)
        } else if word == "tl2"@ {
            Some(DirectLocation::TL2)
        } else if word == "th2"@ {
            Some(DirectLocation::TH2)
        } else if word == "psw"@ {
            Some(DirectLocation::PSW)
        } else if word == "adcon"@ {
            Some(DirectLocation::ADCON)
        } else if word == "addat"@ {
            Some(DirectLocation::ADDAT)
        } else if word == "dapr"@ {
            Some(DirectLocation::DAPR)
        } else if word == "acc"@ {
            Some(DirectLocation::ACC)
        } else if word == "b"@ {
            Some(DirectLocation::B)
        } else {
            None
        }
    }

    /// The location that a lower-case word stands for, given what the port
    /// expression captured from the word.
    pub open spec fn from_match(group: Option<Seq<char>>, word: Seq<char>) -> Option<
        DirectLocation,
    > {
        match group {
            Some(g) => match captured_digit(g) {
                Some(n) => if n < 7 {
                    Some(DirectLocation::Port(n))
                } else {
                    None
                },
                None => None,
            },
            None => DirectLocation::named_register(word),
        }
    }

    /// The location that a name stands for.
    pub open spec fn named(name: Seq<char>) -> Option<DirectLocation> {
        let word = lowercase(name);
        DirectLocation::from_match(regex_first_group(port_pattern(), word), word)
    }

    /// Decides which location a lower-case word stands for, once the port
    /// expression has been matched against it: `group` is what it captured.
    pub fn from_capture(group: Option<String>, word: &String) -> (r: Result<DirectLocation, ()>)
        ensures
            r.ok() == DirectLocation::from_match(
                match group {
                    Some(g) => Some(g@),
                    None => None,
                },
                word@,
            ),
            r is Ok ==> r.unwrap().wf(),
    {
        match group {
            Some(g) => match digit_of(g.as_str()) {
                Some(n) => if n < 7 {
                    Ok(DirectLocation::Port(n))
                } else {
                    Err(())
                },
                None => Err(()),
            },
            None => {
                if is_word(word, "sp") {
                    Ok(DirectLocation::SP)
                } else if is_word(word, "dpl") {
                    Ok(DirectLocation::DPL)
                } else if is_word(word, "dph") {
                    Ok(DirectLocation::DPH)
                } else if is_word(word, "pcon") {
                    Ok(DirectLocation::PCON)
                } else if is_word(word, "tcon") {
                    Ok(DirectLocation::TCON)
                } else if is_word(word, "tmod") {
                    Ok(DirectLocation::TMOD)
                } else if is_word(word, "tl0") {
                    Ok(DirectLocation::TL0)
                } else if is_word(word, "tl1") {
                    Ok(DirectLocation::TL1)
                } else if is_word(word, "th0") {
                    Ok(DirectLocation::TH0)
                } else if is_word(word, "th1") {
                    Ok(DirectLocation::TH1)
                } else if is_word(word, "scon") {
                    Ok(DirectLocation::SCON)
                } else if is_word(word, "sbuf") {
                    Ok(DirectLocation::SBUF)
                } else if is_word(word, "ien0") {
                    Ok(DirectLocation::IEN0)
                } else if is_word(word, "ip0") {
                    Ok(DirectLocation::IP0)
                } else if is_word(word, "ien1") {
                    Ok(DirectLocation::IEN1)
                } else if is_word(word, "ip1") {
                    Ok(DirectLocation::IP1)
                } else if is_word(word, "ircon") {
                    Ok(DirectLocation::IRCON)
                } else if is_word(word, "ccen") {
                    Ok(DirectLocation::CCEN)
                } else if is_word(word, "ccl1") {
                    Ok(DirectLocation::CCL1)
                } else if is_word(word, "cch1") {
                    Ok(DirectLocation::CCH1)
                } else if is_word(word, "ccl2") {
                    Ok(DirectLocation::CCL2)
                } else if is_word(word, "cch2") {
                    Ok(DirectLocation::CCH2)
                } else if is_word(word, "ccl3") {
                    Ok(DirectLocation::CCL3)
                } else if is_word(word, "cch3") {
                    Ok(DirectLocation::CCH3)
                } else if is_word(word, "t2con") {
                    Ok(DirectLocation::T2CON)
                } else if is_word(word, "crcl") {
                    Ok(DirectLocation::CRCL)
                } else if is_word(word, "crch") {
                    Ok(DirectLocation::CRCH)
                } else if is_word(word, "tl2") {
                    Ok(DirectLocation::TL2)
                } else if is_word(word, "th2") {
                    Ok(DirectLocation::TH2)
                } else if is_word(word, "psw") {
                    Ok(DirectLocation::PSW)
                } else if is_word(word, "adcon") {
                    Ok(DirectLocation::ADCON)
                } else if is_word(word, "addat") {
                    Ok(DirectLocation::ADDAT)
                } else if is_word(word, "dapr") {
                    Ok(DirectLocation::DAPR)
                } else if is_word(word, "acc") {
                    Ok(DirectLocation::ACC)
                } else if is_word(word, "b") {
                    Ok(DirectLocation::B)
                } else {
                    Err(())
                }
            },
        }
    }

    /// Reads the name of a special function register, in any mix of upper and
    /// lower case.
    pub fn from_str(s: &str) -> (r: Result<DirectLocation, ()>)
        ensures
            r.ok() == DirectLocation::named(s@),
            r is Ok ==> r.unwrap().wf(),
    {
        let word = to_lowercase(s);
        let group = first_group("^p(\\d)$", word.as_str());
        DirectLocation::from_capture(group, &word)
    }

    /// The direct address of the register.
    pub open spec fn addr(&self) -> u8 {
        match *self {
            DirectLocation::Port(p) => if p == 0 {
                0x80
            } else if p == 1 {
                0x90
            } else if p == 2 {
                0xA0
            } else if p == 3 {
                0xB0
            } else if p == 4 {
                0xE8
            } else if p == 5 {
                0xF8
            } else {
                0xDB
            },
            DirectLocation::SP => 0x81,
            DirectLocation::DPL => 0x82,
            DirectLocation::DPH => 0x83,
            DirectLocation::PCON => 0x87,
            DirectLocation::TCON => 0x88,
            DirectLocation::TMOD => 0x89,
            DirectLocation::TL0 => 0x8A,
            DirectLocation::TL1 => 0x8B,
            DirectLocation::TH0 => 0x8C,
            DirectLocation::TH1 => 0x8D,
            DirectLocation::SCON => 0x98,
            DirectLocation::SBUF => 0x99,
            DirectLocation::IEN0 => 0xA8,
            DirectLocation::IP0 => 0xA9,
            DirectLocation::IEN1 => 0xB8,
            DirectLocation::IP1 => 0xB9,
            DirectLocation::IRCON => 0xC0,
            DirectLocation::CCEN => 0xC1,
            DirectLocation::CCL1 => 0xC2,
            DirectLocation::CCH1 => 0xC3,
            DirectLocation::CCL2 => 0xC4,
            DirectLocation::CCH2 => 0xC5,
            DirectLocation::CCL3 => 0xC6,
            DirectLocation::CCH3 => 0xC7,
            DirectLocation::T2CON => 0xC8,
            DirectLocation::CRCL => 0xCA,
            DirectLocation::CRCH => 0xCB,
            DirectLocation::TL2 => 0xCC,
            DirectLocation::TH2 => 0xCD,
            DirectLocation::PSW => 0xD0,
            DirectLocation::ADCON => 0xD8,
            DirectLocation::ADDAT => 0xD9,
            DirectLocation::DAPR => 0xDA,
            DirectLocation::ACC => 0xE0,
            DirectLocation::B => 0xF0,
        }
    }

    pub fn get_addr(&self) -> (a: u8)
        requires
            self.wf(),
        ensures
            a == self.addr(),
            a >= 0x80,
    {
        match *self {
            DirectLocation::Port(p) => match p {
                0 => 0x80,
                1 => 0x90,
                2 => 0xA0,
                3 => 0xB0,
                4 => 0xE8,
                5 => 0xF8,
                _ => 0xDB,
            },
            DirectLocation::SP => 0x81,
            DirectLocation::DPL => 0x82,
            DirectLocation::DPH => 0x83,
            DirectLocation::PCON => 0x87,
            DirectLocation::TCON => 0x88,
            DirectLocation::TMOD => 0x89,
            DirectLocation::TL0 => 0x8A,
            DirectLocation::TL1 => 0x8B,
            DirectLocation::TH0 => 0x8C,
            DirectLocation::TH1 => 0x8D,
            DirectLocation::SCON => 0x98,
            DirectLocation::SBUF => 0x99,
            DirectLocation::IEN0 => 0xA8,
            DirectLocation::IP0 => 0xA9,
            DirectLocation::IEN1 => 0xB8,
            DirectLocation::IP1 => 0xB9,
            DirectLocation::IRCON => 0xC0,
            DirectLocation::CCEN => 0xC1,
            DirectLocation::CCL1 => 0xC2,
            DirectLocation::CCH1 => 0xC3,
            DirectLocation::CCL2 => 0xC4,
            DirectLocation::CCH2 => 0xC5,
            DirectLocation::CCL3 => 0xC6,
            DirectLocation::CCH3 => 0xC7,
            DirectLocation::T2CON => 0xC8,
            DirectLocation::CRCL => 0xCA,
            DirectLocation::CRCH => 0xCB,
            DirectLocation::TL2 => 0xCC,
            DirectLocation::TH2 => 0xCD,
            DirectLocation::PSW => 0xD0,
            DirectLocation::ADCON => 0xD8,
            DirectLocation::ADDAT => 0xD9,
            DirectLocation::DAPR => 0xDA,
            DirectLocation::ACC => 0xE0,
            DirectLocation::B => 0xF0,
        }
    }
}

impl std::str::FromStr for DirectLocation {
    type Err = ();

    fn from_str(s: &str) -> (r: Result<DirectLocation, ()>)
        ensures
            r.ok() == DirectLocation::named(s@),
            r is Ok ==> r.unwrap().wf(),
    {
        DirectLocation::from_str(s)
    }
}

/// A directive that opens a line of its own kind.
#[derive(Clone, Copy, Debug, PartialEq, Eq, Structural)]
pub enum Keyword {
    Org,
    Equ,
}

impl Keyword {
    /// The keyword that a lower-case word spells, if any.
    pub open spec fn named(word: Seq<char>) -> Option<Keyword> {
        if word == "org"@ {
            Some(Keyword::Org)
        } else if word == "equ"@ {
            Some(Keyword::Equ)
        } else {
            None
        }
    }

    /// Reads `org` or `equ`, in any mix of upper and lower case.
    pub fn from_str(s: &str) -> (r: Result<Keyword, ()>)
        ensures
            r.ok() == Keyword::named(lowercase(s@)),
    {
        let word = to_lowercase(s);
        if is_word(&word, "org") {
            Ok(Keyword::Org)
        } else if is_word(&word, "equ") {
            Ok(Keyword::Equ)
        } else {
            Err(())
        }
    }
}

impl std::str::FromStr for Keyword {
    type Err = ();

    fn from_str(s: &str) -> (r: Result<Keyword, ()>)
        ensures
            r.ok() == Keyword::named(lowercase(s@)),
    {
        Keyword::from_str(s)
    }
}

} // verus!
