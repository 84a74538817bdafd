//! The mnemonic text codec: rendering a decoded instruction as a canonical
//! space-separated line (`BR 2 117`, `ADD 7 2 1 10`, with the `JSRR` and
//! `RET` aliases) and parsing such a line back into an instruction. The
//! grammar is fixed exactly by the spec functions here: tokens separated by
//! single spaces, numeric fields in plain decimal within their bit widths.

use vstd::prelude::*;
use vstd::string::StrSliceExecFns;
use vstd::string::StringExecFns;
use crate::error::VmError;
use crate::instruction::Instruction;
use crate::opcode::Opcode;

verus! {

/// A decimal digit character.
pub open spec fn spec_is_digit(c: char) -> bool {
    48 <= c as int <= 57
}

/// The numeric value of a digit string, most significant first. Meaningful
/// when every character is a digit.
pub open spec fn spec_dec_val(t: Seq<char>) -> int
    decreases t.len(),
{
    if t.len() == 0 {
        0
    } else {
        spec_dec_val(t.drop_last()) * 10 + (t.last() as int - 48)
    }
}

/// The digit character for one value below ten.
pub open spec fn spec_digit_char(d: int) -> char
    recommends
        0 <= d < 10,
{
    if d == 0 {
        '0'
    } else if d == 1 {
        '1'
    } else if d == 2 {
        '2'
    } else if d == 3 {
        '3'
    } else if d == 4 {
        '4'
    } else if d == 5 {
        '5'
    } else if d == 6 {
        '6'
    } else if d == 7 {
        '7'
    } else if d == 8 {
        '8'
    } else {
        '9'
    }
}

/// The canonical decimal rendering of a number: no sign, no leading zeros
/// (a single zero for zero itself).
pub open spec fn spec_dec(n: int) -> Seq<char>
    recommends
        n >= 0,
    decreases n,
{
    if n < 10 {
        seq![spec_digit_char(n)]
    } else {
        spec_dec(n / 10).push(spec_digit_char(n % 10))
    }
}

/// A number parses back to itself: the value of its canonical decimal
/// rendering is the number, and every rendered character is a digit.
pub proof fn lemma_dec_val_of_dec(n: int)
    requires
        n >= 0,
    ensures
        spec_dec_val(spec_dec(n)) == n,
        forall|j: int| 0 <= j < spec_dec(n).len() ==> spec_is_digit(#[trigger] spec_dec(n)[j]),
        spec_dec(n).len() >= 1,
    decreases n,
{
    assert(forall|d: int| 0 <= d < 10 ==> #[trigger] spec_digit_char(d) as int == 48 + d);
    if n < 10 {
        assert(spec_dec(n).drop_last() =~= Seq::<char>::empty());
        assert(spec_dec_val(Seq::<char>::empty()) == 0);
        assert(spec_dec(n).last() == spec_digit_char(n));
        assert(spec_dec_val(spec_dec(n)) == spec_digit_char(n) as int - 48);
    } else {
        lemma_dec_val_of_dec(n / 10);
        assert(spec_dec(n).drop_last() =~= spec_dec(n / 10));
        vstd::arithmetic::div_mod::lemma_fundamental_div_mod(n, 10);
    }
}

/// Digit strings only grow in value as digits are appended.
proof fn lemma_dec_val_monotone(t: Seq<char>, i: int)
    requires
        0 <= i <= t.len(),
        forall|j: int| 0 <= j < t.len() ==> spec_is_digit(#[trigger] t[j]),
    ensures
        spec_dec_val(t) >= spec_dec_val(t.take(i)),
        spec_dec_val(t.take(i)) >= 0,
    decreases t.len() - i,
{
    if i == t.len() {
        assert(t.take(i) =~= t);
        lemma_dec_val_nonneg(t);
    } else {
        lemma_dec_val_monotone(t, i + 1);
        assert(t.take(i + 1).drop_last() =~= t.take(i));
        lemma_dec_val_nonneg(t.take(i));
        assert(spec_dec_val(t.take(i + 1)) == spec_dec_val(t.take(i)) * 10 + (t[i] as int - 48));
    }
}

/// The value of a digit string is never negative.
proof fn lemma_dec_val_nonneg(t: Seq<char>)
    requires
        forall|j: int| 0 <= j < t.len() ==> spec_is_digit(#[trigger] t[j]),
    ensures
        spec_dec_val(t) >= 0,
    decreases t.len(),
{
    if t.len() > 0 {
        assert(forall|j: int|
            0 <= j < t.drop_last().len() ==> spec_is_digit(#[trigger] t.drop_last()[j]));
        lemma_dec_val_nonneg(t.drop_last());
    }
}

/// A whole token as a 16-bit number: some digits, and a value that fits.
pub open spec fn spec_parse_u16(t: Seq<char>) -> Option<u16> {
    if t.len() >= 1 && (forall|j: int| 0 <= j < t.len() ==> spec_is_digit(#[trigger] t[j]))
        && spec_dec_val(t) <= 0xFFFF {
        Some(spec_dec_val(t) as u16)
    } else {
        None
    }
}

/// Parses one token as a decimal 16-bit number.
fn parse_u16(t: &str) -> (r: Option<u16>)
    ensures
        r == spec_parse_u16(t@),
{
    let n = t.unicode_len();
    if n == 0 {
        return None;
    }
    let mut value: u32 = 0;
    let mut i: usize = 0;
    while i < n
        invariant
            0 <= i <= n,
            n == t@.len(),
            forall|k: int| 0 <= k < i ==> spec_is_digit(#[trigger] t@[k]),
            value == spec_dec_val(t@.take(i as int)),
            value <= 0xFFFF,
        decreases n - i,
    {
        let c = t.get_char(i);
        let code = c as u32;
        if code < 48 || code > 57 {
            return None;
        }
        let d = code - 48;
        proof {
            assert(t@.take(i as int + 1).drop_last() =~= t@.take(i as int));
        }
        let next = value * 10 + d;
        if next > 0xFFFF {
            proof {
                if forall|j: int| 0 <= j < t@.len() ==> spec_is_digit(#[trigger] t@[j]) {
                    lemma_dec_val_monotone(t@, i as int + 1);
                }
            }
            return None;
        }
        value = next;
        i = i + 1;
    }
    proof {
        assert(t@.take(n as int) =~= t@);
    }
    Some(value as u16)
}

/// The digit character for one value below ten, as a one-character string.
fn digit_str(d: u16) -> (r: &'static str)
    requires
        d < 10,
    ensures
        r@ =~= seq![spec_digit_char(d as int)],
{
    proof {
        reveal_strlit("0");
        reveal_strlit("1");
        reveal_strlit("2");
        reveal_strlit("3");
        reveal_strlit("4");
        reveal_strlit("5");
        reveal_strlit("6");
        reveal_strlit("7");
        reveal_strlit("8");
        reveal_strlit("9");
    }
    if d == 0 {
        "0"
    } else if d == 1 {
        "1"
    } else if d == 2 {
        "2"
    } else if d == 3 {
        "3"
    } else if d == 4 {
        "4"
    } else if d == 5 {
        "5"
    } else if d == 6 {
        "6"
    } else if d == 7 {
        "7"
    } else if d == 8 {
        "8"
    } else {
        "9"
    }
}

/// The mnemonic of each opcode.
pub open spec fn spec_mnemonic(op: Opcode) -> Seq<char> {
    match op {
        Opcode::Br => seq!['B', 'R'],
        Opcode::Add => seq!['A', 'D', 'D'],
        Opcode::Ld => seq!['L', 'D'],
        Opcode::St => seq!['S', 'T'],
        Opcode::Jsr => seq!['J', 'S', 'R'],
        Opcode::And => seq!['A', 'N', 'D'],
        Opcode::Ldr => seq!['L', 'D', 'R'],
        Opcode::Str => seq!['S', 'T', 'R'],
        Opcode::Rti => seq!['R', 'T', 'I'],
        Opcode::Not => seq!['N', 'O', 'T'],
        Opcode::Ldi => seq!['L', 'D', 'I'],
        Opcode::Sti => seq!['S', 'T', 'I'],
        Opcode::Jmp => seq!['J', 'M', 'P'],
        Opcode::Res => seq!['R', 'E', 'S'],
        Opcode::Lea => seq!['L', 'E', 'A'],
        Opcode::Trap => seq!['T', 'R', 'A', 'P'],
    }
}

/// The register-mode alias of JSR.
pub open spec fn spec_jsrr() -> Seq<char> {
    seq!['J', 'S', 'R', 'R']
}

/// The return alias of JMP through R7.
pub open spec fn spec_ret() -> Seq<char> {
    seq!['R', 'E', 'T']
}

/// A single space, the token separator.
pub open spec fn spec_sp() -> Seq<char> {
    seq![' ']
}

/// The canonical mnemonic line of an instruction: the mnemonic (JSR and JMP
/// show their aliases), then the populated fields in decimal, separated by
/// single spaces.
pub open spec fn spec_instruction_text(i: Instruction) -> Seq<char> {
    match i.opcode {
        Opcode::Br => spec_mnemonic(i.opcode) + spec_sp() + spec_dec(i.nzp as int) + spec_sp()
            + spec_dec(i.pc_offset_9 as int),
        Opcode::Add | Opcode::And => spec_mnemonic(i.opcode) + spec_sp() + spec_dec(i.dr as int)
            + spec_sp() + spec_dec(i.sr1 as int) + spec_sp() + spec_dec(i.imm_or_cond_flag as int)
            + spec_sp() + spec_dec(
            if i.imm_or_cond_flag == 1 {
                i.imm5 as int
            } else {
                i.sr2 as int
            },
        ),
        Opcode::Ld | Opcode::Ldi | Opcode::Lea => spec_mnemonic(i.opcode) + spec_sp() + spec_dec(
            i.dr as int,
        ) + spec_sp() + spec_dec(i.pc_offset_9 as int),
        Opcode::St | Opcode::Sti => spec_mnemonic(i.opcode) + spec_sp() + spec_dec(i.sr1 as int)
            + spec_sp() + spec_dec(i.pc_offset_9 as int),
        Opcode::Jsr => (if i.imm_or_cond_flag == 1 {
            spec_mnemonic(i.opcode)
        } else {
            spec_jsrr()
        }) + spec_sp() + spec_dec(i.imm_or_cond_flag as int) + spec_sp() + spec_dec(
            if i.imm_or_cond_flag == 1 {
                i.pc_offset_11 as int
            } else {
                i.base_r as int
            },
        ),
        Opcode::Ldr => spec_mnemonic(i.opcode) + spec_sp() + spec_dec(i.dr as int) + spec_sp()
            + spec_dec(i.base_r as int) + spec_sp() + spec_dec(i.offset_6 as int),
        Opcode::Str => spec_mnemonic(i.opcode) + spec_sp() + spec_dec(i.sr1 as int) + spec_sp()
            + spec_dec(i.base_r as int) + spec_sp() + spec_dec(i.offset_6 as int),
        Opcode::Not => spec_mnemonic(i.opcode) + spec_sp() + spec_dec(i.dr as int) + spec_sp()
            + spec_dec(i.sr1 as int),
        Opcode::Jmp => (if i.base_r == 7 {
            spec_ret()
        } else {
            spec_mnemonic(i.opcode)
        }) + spec_sp() + spec_dec(i.base_r as int),
        Opcode::Rti | Opcode::Res => spec_mnemonic(i.opcode),
        Opcode::Trap => spec_mnemonic(i.opcode) + spec_sp() + spec_dec(i.trap_vect_8 as int),
    }
}

/// The mnemonic of an opcode as a string slice.
fn mnemonic_str(op: Opcode) -> (r: &'static str)
    ensures
        r@ == spec_mnemonic(op),
{
    proof {
        reveal_strlit("BR");
        reveal_strlit("ADD");
        reveal_strlit("LD");
        reveal_strlit("ST");
        reveal_strlit("JSR");
        reveal_strlit("AND");
        reveal_strlit("LDR");
        reveal_strlit("STR");
        reveal_strlit("RTI");
        reveal_strlit("NOT");
        reveal_strlit("LDI");
        reveal_strlit("STI");
        reveal_strlit("JMP");
        reveal_strlit("RES");
        reveal_strlit("LEA");
        reveal_strlit("TRAP");
    }
    let r = match op {
        Opcode::Br => "BR",
        Opcode::Add => "ADD",
        Opcode::Ld => "LD",
        Opcode::St => "ST",
        Opcode::Jsr => "JSR",
        Opcode::And => "AND",
        Opcode::Ldr => "LDR",
        Opcode::Str => "STR",
        Opcode::Rti => "RTI",
        Opcode::Not => "NOT",
        Opcode::Ldi => "LDI",
        Opcode::Sti => "STI",
        Opcode::Jmp => "JMP",
        Opcode::Res => "RES",
        Opcode::Lea => "LEA",
        Opcode::Trap => "TRAP",
    };
    proof {
        assert(r@ =~= spec_mnemonic(op));
    }
    r
}

impl Instruction {
    /// Renders this instruction as its canonical mnemonic line.
    pub fn to_text(&self) -> (r: String)
        ensures
            r@ == spec_instruction_text(*self),
    {
        proof {
            reveal_strlit(" ");
            reveal_strlit("JSRR");
            reveal_strlit("RET");
        }
        let mut s: String;
        match self.opcode {
            Opcode::Br => {
                s = String::from_str(mnemonic_str(self.opcode));
                s.append(" ");
                s.append(u16_to_dec(self.nzp).as_str());
                s.append(" ");
                s.append(u16_to_dec(self.pc_offset_9).as_str());
            },
            Opcode::Add | Opcode::And => {
                s = String::from_str(mnemonic_str(self.opcode));
                s.append(" ");
                s.append(u16_to_dec(self.dr).as_str());
                s.append(" ");
                s.append(u16_to_dec(self.sr1).as_str());
                s.append(" ");
                s.append(u16_to_dec(self.imm_or_cond_flag).as_str());
                s.append(" ");
                if self.imm_or_cond_flag == 1 {
                    s.append(u16_to_dec(self.imm5).as_str());
                } else {
                    s.append(u16_to_dec(self.sr2).as_str());
                }
            },
            Opcode::Ld | Opcode::Ldi | Opcode::Lea => {
                s = String::from_str(mnemonic_str(self.opcode));
                s.append(" ");
                s.append(u16_to_dec(self.dr).as_str());
                s.append(" ");
                s.append(u16_to_dec(self.pc_offset_9).as_str());
            },
            Opcode::St | Opcode::Sti => {
                s = String::from_str(mnemonic_str(self.opcode));
                s.append(" ");
                s.append(u16_to_dec(self.sr1).as_str());
                s.append(" ");
                s.append(u16_to_dec(self.pc_offset_9).as_str());
            },
            Opcode::Jsr => {
                if self.imm_or_cond_flag == 1 {
                    s = String::from_str(mnemonic_str(self.opcode));
                } else {
                    s = String::from_str("JSRR");
                    proof {
                        assert(s@ =~= spec_jsrr());
                    }
                }
                s.append(" ");
                s.append(u16_to_dec(self.imm_or_cond_flag).as_str());
                s.append(" ");
                if self.imm_or_cond_flag == 1 {
                    s.append(u16_to_dec(self.pc_offset_11).as_str());
                } else {
                    s.append(u16_to_dec(self.base_r).as_str());
                }
            },
            Opcode::Ldr => {
                s = String::from_str(mnemonic_str(self.opcode));
                s.append(" ");
                s.append(u16_to_dec(self.dr).as_str());
                s.append(" ");
                s.append(u16_to_dec(self.base_r).as_str());
                s.append(" ");
                s.append(u16_to_dec(self.offset_6).as_str());
            },
            Opcode::Str => {
                s = String::from_str(mnemonic_str(self.opcode));
                s.append(" ");
                s.append(u16_to_dec(self.sr1).as_str());
                s.append(" ");
                s.append(u16_to_dec(self.base_r).as_str());
                s.append(" ");
                s.append(u16_to_dec(self.offset_6).as_str());
            },
            Opcode::Not => {
                s = String::from_str(mnemonic_str(self.opcode));
                s.append(" ");
                s.append(u16_to_dec(self.dr).as_str());
                s.append(" ");
                s.append(u16_to_dec(self.sr1).as_str());
            },
            Opcode::Jmp => {
                if self.base_r == 7 {
                    s = String::from_str("RET");
                    proof {
                        assert(s@ =~= spec_ret());
                    }
                } else {
                    s = String::from_str(mnemonic_str(self.opcode));
                }
                s.append(" ");
                s.append(u16_to_dec(self.base_r).as_str());
            },
            Opcode::Rti | Opcode::Res => {
                s = String::from_str(mnemonic_str(self.opcode));
            },
            Opcode::Trap => {
                s = String::from_str(mnemonic_str(self.opcode));
                s.append(" ");
                s.append(u16_to_dec(self.trap_vect_8).as_str());
            },
        }
        proof {
            assert(s@ =~= spec_instruction_text(*self));
        }
        s
    }
}

/// Renders a number in canonical decimal.
fn u16_to_dec(n: u16) -> (r: String)
    ensures
        r@ == spec_dec(n as int),
    decreases n,
{
    if n < 10 {
        String::from_str(digit_str(n))
    } else {
        let mut s = u16_to_dec(n / 10);
        s.append(digit_str(n % 10));
        proof {
            assert(s@ =~= spec_dec(n as int));
        }
        s
    }
}

/// Splitting a line at spaces, empty pieces kept: the empty line is one
/// empty token, a leading space puts an empty token in front, and any other
/// first character joins the first token of the rest.
pub open spec fn spec_split(s: Seq<char>) -> Seq<Seq<char>>
    decreases s.len(),
{
    if s.len() == 0 {
        seq![Seq::<char>::empty()]
    } else if s[0] == ' ' {
        seq![Seq::<char>::empty()] + spec_split(s.drop_first())
    } else {
        let rest = spec_split(s.drop_first());
        seq![seq![s[0]] + rest[0]] + rest.drop_first()
    }
}

/// A split always yields at least one token.
pub proof fn lemma_split_len(s: Seq<char>)
    ensures
        spec_split(s).len() >= 1,
    decreases s.len(),
{
    if s.len() != 0 {
        lemma_split_len(s.drop_first());
    }
}

/// A line without a space is a single token.
proof fn lemma_split_nospace(s: Seq<char>)
    requires
        forall|j: int| 0 <= j < s.len() ==> s[j] != ' ',
    ensures
        spec_split(s) == seq![s],
    decreases s.len(),
{
    if s.len() == 0 {
        assert(spec_split(s) =~~= seq![s]);
    } else {
        lemma_split_nospace(s.drop_first());
        assert(seq![s[0]] + s.drop_first() =~= s);
        assert(spec_split(s) =~~= seq![s]);
    }
}

/// A line whose first space sits at `j` splits into its first `j`
/// characters followed by the split of what comes after the space.
proof fn lemma_split_at(s: Seq<char>, j: int)
    requires
        0 <= j < s.len(),
        s[j] == ' ',
        forall|k: int| 0 <= k < j ==> s[k] != ' ',
    ensures
        spec_split(s) == seq![s.take(j)] + spec_split(s.skip(j + 1)),
    decreases j,
{
    if j == 0 {
        assert(s.take(0) =~= Seq::<char>::empty());
        assert(s.skip(1) =~= s.drop_first());
        assert(spec_split(s) =~~= seq![s.take(0)] + spec_split(s.skip(1)));
    } else {
        lemma_split_at(s.drop_first(), j - 1);
        lemma_split_len(s.drop_first().skip(j));
        assert(s.drop_first().take(j - 1) =~= s.take(j).drop_first());
        assert(seq![s[0]] + s.take(j).drop_first() =~= s.take(j));
        assert(s.drop_first().skip(j) =~= s.skip(j + 1));
        assert(spec_split(s) =~~= seq![s.take(j)] + spec_split(s.skip(j + 1)));
    }
}

/// The views of a vector of string slices.
pub open spec fn views_of(toks: Seq<&str>) -> Seq<Seq<char>> {
    toks.map_values(|t: &str| t@)
}

/// Splits a line into its space-separated tokens.
fn tokenize<'a>(s: &'a str) -> (toks: Vec<&'a str>)
    ensures
        views_of(toks@) == spec_split(s@),
{
    let n = s.unicode_len();
    let mut toks: Vec<&str> = Vec::new();
    let mut start: usize = 0;
    let mut i: usize = 0;
    proof {
        assert(s@.skip(0) =~= s@);
        assert(views_of(toks@) =~= Seq::<Seq<char>>::empty());
    }
    while i < n
        invariant
            0 <= start <= i <= n,
            n == s@.len(),
            spec_split(s@) == views_of(toks@) + spec_split(s@.skip(start as int)),
            forall|m: int| start <= m < i ==> s@[m] != ' ',
        decreases n - i,
    {
        if s.get_char(i) == ' ' {
            let tok = s.substring_char(start, i);
            let ghost pre = toks@;
            toks.push(tok);
            proof {
                lemma_split_at(s@.skip(start as int), i - start);
                assert(s@.skip(start as int).take(i - start) =~= tok@);
                assert(s@.skip(start as int).skip(i - start + 1) =~= s@.skip(i as int + 1));
                assert(views_of(toks@) =~= views_of(pre) + seq![tok@]);
                assert(views_of(pre) + seq![tok@] + spec_split(s@.skip(i as int + 1)) =~~= views_of(
                    pre,
                ) + (seq![tok@] + spec_split(s@.skip(i as int + 1))));
            }
            start = i + 1;
        }
        i = i + 1;
    }
    let tok = s.substring_char(start, n);
    let ghost pre = toks@;
    toks.push(tok);
    proof {
        lemma_split_nospace(s@.skip(start as int));
        assert(s@.skip(start as int) =~= tok@);
        assert(views_of(toks@) =~= views_of(pre) + seq![tok@]);
    }
    toks
}

/// A rendered number is one space-free token that parses back to itself.
proof fn lemma_dec_token(n: int)
    requires
        0 <= n <= 0xFFFF,
    ensures
        spec_parse_u16(spec_dec(n)) == Some(n as u16),
        forall|j: int| 0 <= j < spec_dec(n).len() ==> #[trigger] spec_dec(n)[j] != ' ',
{
    lemma_dec_val_of_dec(n);
    assert forall|j: int| 0 <= j < spec_dec(n).len() implies #[trigger] spec_dec(n)[j] != ' ' by {
        assert(spec_is_digit(spec_dec(n)[j]));
        assert(' ' as int == 32);
    }
}

/// Gluing one space-free token in front of a line puts it in front of the
/// line's split.
proof fn lemma_split_glue(a: Seq<char>, b: Seq<char>)
    requires
        forall|j: int| 0 <= j < a.len() ==> #[trigger] a[j] != ' ',
    ensures
        spec_split(a + spec_sp() + b) == seq![a] + spec_split(b),
{
    let s = a + spec_sp() + b;
    assert(s[a.len() as int] == ' ');
    assert(forall|k: int| 0 <= k < a.len() ==> s[k] == a[k]);
    lemma_split_at(s, a.len() as int);
    assert(s.take(a.len() as int) =~= a);
    assert(s.skip(a.len() as int + 1) =~= b);
}

/// Two space-free tokens joined by a space split into exactly those tokens.
proof fn lemma_split_two(t0: Seq<char>, t1: Seq<char>)
    requires
        forall|j: int| 0 <= j < t0.len() ==> #[trigger] t0[j] != ' ',
        forall|j: int| 0 <= j < t1.len() ==> #[trigger] t1[j] != ' ',
    ensures
        spec_split(t0 + spec_sp() + t1) == seq![t0, t1],
{
    lemma_split_glue(t0, t1);
    lemma_split_nospace(t1);
    assert(seq![t0] + seq![t1] =~= seq![t0, t1]);
}

/// Three space-free tokens joined by spaces split into exactly those tokens.
proof fn lemma_split_three(t0: Seq<char>, t1: Seq<char>, t2: Seq<char>)
    requires
        forall|j: int| 0 <= j < t0.len() ==> #[trigger] t0[j] != ' ',
        forall|j: int| 0 <= j < t1.len() ==> #[trigger] t1[j] != ' ',
        forall|j: int| 0 <= j < t2.len() ==> #[trigger] t2[j] != ' ',
    ensures
        spec_split(t0 + spec_sp() + t1 + spec_sp() + t2) == seq![t0, t1, t2],
{
    let tail = t1 + spec_sp() + t2;
    assert(t0 + spec_sp() + t1 + spec_sp() + t2 =~= t0 + spec_sp() + tail);
    lemma_split_glue(t0, tail);
    lemma_split_two(t1, t2);
    assert(seq![t0] + seq![t1, t2] =~= seq![t0, t1, t2]);
}

/// Four space-free tokens joined by spaces split into exactly those tokens.
proof fn lemma_split_four(t0: Seq<char>, t1: Seq<char>, t2: Seq<char>, t3: Seq<char>)
    requires
        forall|j: int| 0 <= j < t0.len() ==> #[trigger] t0[j] != ' ',
        forall|j: int| 0 <= j < t1.len() ==> #[trigger] t1[j] != ' ',
        forall|j: int| 0 <= j < t2.len() ==> #[trigger] t2[j] != ' ',
        forall|j: int| 0 <= j < t3.len() ==> #[trigger] t3[j] != ' ',
    ensures
        spec_split(t0 + spec_sp() + t1 + spec_sp() + t2 + spec_sp() + t3) == seq![t0, t1, t2, t3],
{
    let tail = t1 + spec_sp() + t2 + spec_sp() + t3;
    assert(t0 + spec_sp() + t1 + spec_sp() + t2 + spec_sp() + t3 =~= t0 + spec_sp() + tail);
    lemma_split_glue(t0, tail);
    lemma_split_three(t1, t2, t3);
    assert(seq![t0] + seq![t1, t2, t3] =~= seq![t0, t1, t2, t3]);
}

/// Five space-free tokens joined by spaces split into exactly those tokens.
proof fn lemma_split_five(t0: Seq<char>, t1: Seq<char>, t2: Seq<char>, t3: Seq<char>, t4: Seq<char>)
    requires
        forall|j: int| 0 <= j < t0.len() ==> #[trigger] t0[j] != ' ',
        forall|j: int| 0 <= j < t1.len() ==> #[trigger] t1[j] != ' ',
        forall|j: int| 0 <= j < t2.len() ==> #[trigger] t2[j] != ' ',
        forall|j: int| 0 <= j < t3.len() ==> #[trigger] t3[j] != ' ',
        forall|j: int| 0 <= j < t4.len() ==> #[trigger] t4[j] != ' ',
    ensures
        spec_split(t0 + spec_sp() + t1 + spec_sp() + t2 + spec_sp() + t3 + spec_sp() + t4)
            == seq![t0, t1, t2, t3, t4],
{
    let tail = t1 + spec_sp() + t2 + spec_sp() + t3 + spec_sp() + t4;
    assert(t0 + spec_sp() + t1 + spec_sp() + t2 + spec_sp() + t3 + spec_sp() + t4 =~= t0
        + spec_sp() + tail);
    lemma_split_glue(t0, tail);
    lemma_split_four(t1, t2, t3, t4);
    assert(seq![t0] + seq![t1, t2, t3, t4] =~= seq![t0, t1, t2, t3, t4]);
}

/// Parse of a BR line: mask and 9-bit offset.
pub open spec fn spec_parse_br(toks: Seq<Seq<char>>) -> Result<Instruction, VmError> {
    if toks.len() == 3 {
        match (spec_parse_u16(toks[1]), spec_parse_u16(toks[2])) {
            (Some(nzp), Some(off)) => {
                if nzp < 8 && off < 512 {
                    Ok(
                        Instruction {
                            nzp,
                            pc_offset_9: off,
                            ..Instruction::spec_new(Opcode::Br)
                        },
                    )
                } else {
                    Err(VmError::BadMnemonic)
                }
            },
            _ => Err(VmError::BadMnemonic),
        }
    } else {
        Err(VmError::BadMnemonic)
    }
}

/// Parse of an ADD or AND line: destination, first source, mode flag, then
/// an immediate or the second source register by the flag.
pub open spec fn spec_parse_arith(toks: Seq<Seq<char>>, op: Opcode) -> Result<
    Instruction,
    VmError,
> {
    if toks.len() == 5 {
        match (
            spec_parse_u16(toks[1]),
            spec_parse_u16(toks[2]),
            spec_parse_u16(toks[3]),
            spec_parse_u16(toks[4]),
        ) {
            (Some(dr), Some(sr1), Some(mode), Some(operand)) => {
                if dr < 8 && sr1 < 8 && mode < 2 {
                    if mode == 1 {
                        if operand < 32 {
                            Ok(
                                Instruction {
                                    dr,
                                    sr1,
                                    imm_or_cond_flag: 1,
                                    imm5: operand,
                                    ..Instruction::spec_new(op)
                                },
                            )
                        } else {
                            Err(VmError::BadMnemonic)
                        }
                    } else {
                        if operand < 8 {
                            Ok(
                                Instruction {
                                    dr,
                                    sr1,
                                    imm_or_cond_flag: 0,
                                    sr2: operand,
                                    ..Instruction::spec_new(op)
                                },
                            )
                        } else {
                            Err(VmError::BadMnemonic)
                        }
                    }
                } else {
                    Err(VmError::BadMnemonic)
                }
            },
            _ => Err(VmError::BadMnemonic),
        }
    } else {
        Err(VmError::BadMnemonic)
    }
}

/// Parse of a load-class line (LD, LDI, LEA): destination and 9-bit offset.
pub open spec fn spec_parse_dr_off9(toks: Seq<Seq<char>>, op: Opcode) -> Result<
    Instruction,
    VmError,
> {
    if toks.len() == 3 {
        match (spec_parse_u16(toks[1]), spec_parse_u16(toks[2])) {
            (Some(dr), Some(off)) => {
                if dr < 8 && off < 512 {
                    Ok(Instruction { dr, pc_offset_9: off, ..Instruction::spec_new(op) })
                } else {
                    Err(VmError::BadMnemonic)
                }
            },
            _ => Err(VmError::BadMnemonic),
        }
    } else {
        Err(VmError::BadMnemonic)
    }
}

/// Parse of a store-class line (ST, STI): source and 9-bit offset.
pub open spec fn spec_parse_sr_off9(toks: Seq<Seq<char>>, op: Opcode) -> Result<
    Instruction,
    VmError,
> {
    if toks.len() == 3 {
        match (spec_parse_u16(toks[1]), spec_parse_u16(toks[2])) {
            (Some(sr1), Some(off)) => {
                if sr1 < 8 && off < 512 {
                    Ok(Instruction { sr1, pc_offset_9: off, ..Instruction::spec_new(op) })
                } else {
                    Err(VmError::BadMnemonic)
                }
            },
            _ => Err(VmError::BadMnemonic),
        }
    } else {
        Err(VmError::BadMnemonic)
    }
}

/// Parse of a JSR or JSRR line: the mode flag, then an 11-bit offset or a
/// base register by the flag.
pub open spec fn spec_parse_jsr(toks: Seq<Seq<char>>) -> Result<Instruction, VmError> {
    if toks.len() == 3 {
        match (spec_parse_u16(toks[1]), spec_parse_u16(toks[2])) {
            (Some(mode), Some(operand)) => {
                if mode == 1 && operand < 2048 {
                    Ok(
                        Instruction {
                            imm_or_cond_flag: 1,
                            pc_offset_11: operand,
                            ..Instruction::spec_new(Opcode::Jsr)
                        },
                    )
                } else if mode == 0 && operand < 8 {
                    Ok(Instruction { base_r: operand, ..Instruction::spec_new(Opcode::Jsr) })
                } else {
                    Err(VmError::BadMnemonic)
                }
            },
            _ => Err(VmError::BadMnemonic),
        }
    } else {
        Err(VmError::BadMnemonic)
    }
}

/// Parse of an LDR or STR line: register, base register, 6-bit offset.
pub open spec fn spec_parse_base_off6(toks: Seq<Seq<char>>, op: Opcode) -> Result<
    Instruction,
    VmError,
> {
    if toks.len() == 4 {
        match (spec_parse_u16(toks[1]), spec_parse_u16(toks[2]), spec_parse_u16(toks[3])) {
            (Some(reg), Some(base), Some(off)) => {
                if reg < 8 && base < 8 && off < 64 {
                    if op is Ldr {
                        Ok(
                            Instruction {
                                dr: reg,
                                base_r: base,
                                offset_6: off,
                                ..Instruction::spec_new(op)
                            },
                        )
                    } else {
                        Ok(
                            Instruction {
                                sr1: reg,
                                base_r: base,
                                offset_6: off,
                                ..Instruction::spec_new(op)
                            },
                        )
                    }
                } else {
                    Err(VmError::BadMnemonic)
                }
            },
            _ => Err(VmError::BadMnemonic),
        }
    } else {
        Err(VmError::BadMnemonic)
    }
}

/// Parse of a NOT line: destination and source.
pub open spec fn spec_parse_not(toks: Seq<Seq<char>>) -> Result<Instruction, VmError> {
    if toks.len() == 3 {
        match (spec_parse_u16(toks[1]), spec_parse_u16(toks[2])) {
            (Some(dr), Some(sr1)) => {
                if dr < 8 && sr1 < 8 {
                    Ok(Instruction { dr, sr1, ..Instruction::spec_new(Opcode::Not) })
                } else {
                    Err(VmError::BadMnemonic)
                }
            },
            _ => Err(VmError::BadMnemonic),
        }
    } else {
        Err(VmError::BadMnemonic)
    }
}

/// Parse of a JMP or RET line: the base register.
pub open spec fn spec_parse_jmp(toks: Seq<Seq<char>>) -> Result<Instruction, VmError> {
    if toks.len() == 2 {
        match spec_parse_u16(toks[1]) {
            Some(base) => {
                if base < 8 {
                    Ok(Instruction { base_r: base, ..Instruction::spec_new(Opcode::Jmp) })
                } else {
                    Err(VmError::BadMnemonic)
                }
            },
            None => Err(VmError::BadMnemonic),
        }
    } else {
        Err(VmError::BadMnemonic)
    }
}

/// Parse of a TRAP line: the 8-bit vector.
pub open spec fn spec_parse_trap(toks: Seq<Seq<char>>) -> Result<Instruction, VmError> {
    if toks.len() == 2 {
        match spec_parse_u16(toks[1]) {
            Some(vect) => {
                if vect < 256 {
                    Ok(Instruction { trap_vect_8: vect, ..Instruction::spec_new(Opcode::Trap) })
                } else {
                    Err(VmError::BadMnemonic)
                }
            },
            None => Err(VmError::BadMnemonic),
        }
    } else {
        Err(VmError::BadMnemonic)
    }
}

/// Parse of a bare mnemonic line (RTI, RES): no fields.
pub open spec fn spec_parse_bare(toks: Seq<Seq<char>>, op: Opcode) -> Result<
    Instruction,
    VmError,
> {
    if toks.len() == 1 {
        Ok(Instruction::spec_new(op))
    } else {
        Err(VmError::BadMnemonic)
    }
}

/// The mnemonic line grammar: the first token picks the opcode (with the
/// JSRR and RET aliases accepted), the rest are its fields in decimal
/// within their bit widths; anything else is a parse error.
pub open spec fn spec_parse_line(s: Seq<char>) -> Result<Instruction, VmError> {
    let toks = spec_split(s);
    let mn = toks[0];
    if mn == spec_mnemonic(Opcode::Br) {
        spec_parse_br(toks)
    } else if mn == spec_mnemonic(Opcode::Add) {
        spec_parse_arith(toks, Opcode::Add)
    } else if mn == spec_mnemonic(Opcode::And) {
        spec_parse_arith(toks, Opcode::And)
    } else if mn == spec_mnemonic(Opcode::Ld) {
        spec_parse_dr_off9(toks, Opcode::Ld)
    } else if mn == spec_mnemonic(Opcode::Ldi) {
        spec_parse_dr_off9(toks, Opcode::Ldi)
    } else if mn == spec_mnemonic(Opcode::Lea) {
        spec_parse_dr_off9(toks, Opcode::Lea)
    } else if mn == spec_mnemonic(Opcode::St) {
        spec_parse_sr_off9(toks, Opcode::St)
    } else if mn == spec_mnemonic(Opcode::Sti) {
        spec_parse_sr_off9(toks, Opcode::Sti)
    } else if mn == spec_mnemonic(Opcode::Jsr) || mn == spec_jsrr() {
        spec_parse_jsr(toks)
    } else if mn == spec_mnemonic(Opcode::Ldr) {
        spec_parse_base_off6(toks, Opcode::Ldr)
    } else if mn == spec_mnemonic(Opcode::Str) {
        spec_parse_base_off6(toks, Opcode::Str)
    } else if mn == spec_mnemonic(Opcode::Not) {
        spec_parse_not(toks)
    } else if mn == spec_mnemonic(Opcode::Jmp) || mn == spec_ret() {
        spec_parse_jmp(toks)
    } else if mn == spec_mnemonic(Opcode::Rti) {
        spec_parse_bare(toks, Opcode::Rti)
    } else if mn == spec_mnemonic(Opcode::Res) {
        spec_parse_bare(toks, Opcode::Res)
    } else if mn == spec_mnemonic(Opcode::Trap) {
        spec_parse_trap(toks)
    } else {
        Err(VmError::BadMnemonic)
    }
}

/// The lengths and characters of every mnemonic token, and that none holds
/// a space: the facts that separate the grammar's branches from each other.
proof fn lemma_token_features()
    ensures
        spec_mnemonic(Opcode::Br) == seq!['B', 'R'],
        spec_mnemonic(Opcode::Add) == seq!['A', 'D', 'D'],
        spec_mnemonic(Opcode::And) == seq!['A', 'N', 'D'],
        spec_mnemonic(Opcode::Ld) == seq!['L', 'D'],
        spec_mnemonic(Opcode::Ldi) == seq!['L', 'D', 'I'],
        spec_mnemonic(Opcode::Lea) == seq!['L', 'E', 'A'],
        spec_mnemonic(Opcode::St) == seq!['S', 'T'],
        spec_mnemonic(Opcode::Sti) == seq!['S', 'T', 'I'],
        spec_mnemonic(Opcode::Jsr) == seq!['J', 'S', 'R'],
        spec_mnemonic(Opcode::Ldr) == seq!['L', 'D', 'R'],
        spec_mnemonic(Opcode::Str) == seq!['S', 'T', 'R'],
        spec_mnemonic(Opcode::Not) == seq!['N', 'O', 'T'],
        spec_mnemonic(Opcode::Jmp) == seq!['J', 'M', 'P'],
        spec_mnemonic(Opcode::Rti) == seq!['R', 'T', 'I'],
        spec_mnemonic(Opcode::Res) == seq!['R', 'E', 'S'],
        spec_mnemonic(Opcode::Trap) == seq!['T', 'R', 'A', 'P'],
        spec_jsrr() == seq!['J', 'S', 'R', 'R'],
        spec_ret() == seq!['R', 'E', 'T'],
        forall|op: Opcode, j: int|
            0 <= j < spec_mnemonic(op).len() ==> #[trigger] spec_mnemonic(op)[j] != ' ',
        forall|j: int| 0 <= j < spec_jsrr().len() ==> #[trigger] spec_jsrr()[j] != ' ',
        forall|j: int| 0 <= j < spec_ret().len() ==> #[trigger] spec_ret()[j] != ' ',
{
    assert forall|op: Opcode, j: int|
        0 <= j < spec_mnemonic(op).len() implies #[trigger] spec_mnemonic(op)[j] != ' ' by {
        let mn = spec_mnemonic(op);
        assert(mn.len() <= 4);
        assert(mn[0] != ' ' && (mn.len() > 1 ==> mn[1] != ' ') && (mn.len() > 2 ==> mn[2] != ' ')
            && (mn.len() > 3 ==> mn[3] != ' '));
    }
    assert forall|j: int| 0 <= j < spec_jsrr().len() implies #[trigger] spec_jsrr()[j] != ' ' by {
        let t = spec_jsrr();
        assert(t[0] != ' ' && t[1] != ' ' && t[2] != ' ' && t[3] != ' ');
    }
    assert forall|j: int| 0 <= j < spec_ret().len() implies #[trigger] spec_ret()[j] != ' ' by {
        let t = spec_ret();
        assert(t[0] != ' ' && t[1] != ' ' && t[2] != ' ');
    }
}

/// Round trip of the text codec: rendering a well-formed instruction and
/// parsing the line back gives the instruction again, aliases included.
pub proof fn lemma_text_round_trip(i: Instruction)
    requires
        i.wf(),
    ensures
        spec_parse_line(spec_instruction_text(i)) == Ok::<Instruction, VmError>(i),
{
    lemma_token_features();
    let text = spec_instruction_text(i);
    match i.opcode {
        Opcode::Br => {
            let t0 = spec_mnemonic(i.opcode);
            let t1 = spec_dec(i.nzp as int);
            let t2 = spec_dec(i.pc_offset_9 as int);
            lemma_dec_token(i.nzp as int);
            lemma_dec_token(i.pc_offset_9 as int);
            lemma_split_three(t0, t1, t2);
            assert(text =~= t0 + spec_sp() + t1 + spec_sp() + t2);
        },
        Opcode::Add | Opcode::And => {
            let t0 = spec_mnemonic(i.opcode);
            let t1 = spec_dec(i.dr as int);
            let t2 = spec_dec(i.sr1 as int);
            let t3 = spec_dec(i.imm_or_cond_flag as int);
            let operand = if i.imm_or_cond_flag == 1 {
                i.imm5 as int
            } else {
                i.sr2 as int
            };
            let t4 = spec_dec(operand);
            lemma_dec_token(i.dr as int);
            lemma_dec_token(i.sr1 as int);
            lemma_dec_token(i.imm_or_cond_flag as int);
            lemma_dec_token(operand);
            lemma_split_five(t0, t1, t2, t3, t4);
            assert(text =~= t0 + spec_sp() + t1 + spec_sp() + t2 + spec_sp() + t3 + spec_sp()
                + t4);
        },
        Opcode::Ld | Opcode::Ldi | Opcode::Lea => {
            let t0 = spec_mnemonic(i.opcode);
            let t1 = spec_dec(i.dr as int);
            let t2 = spec_dec(i.pc_offset_9 as int);
            lemma_dec_token(i.dr as int);
            lemma_dec_token(i.pc_offset_9 as int);
            lemma_split_three(t0, t1, t2);
            assert(text =~= t0 + spec_sp() + t1 + spec_sp() + t2);
        },
        Opcode::St | Opcode::Sti => {
            let t0 = spec_mnemonic(i.opcode);
            let t1 = spec_dec(i.sr1 as int);
            let t2 = spec_dec(i.pc_offset_9 as int);
            lemma_dec_token(i.sr1 as int);
            lemma_dec_token(i.pc_offset_9 as int);
            lemma_split_three(t0, t1, t2);
            assert(text =~= t0 + spec_sp() + t1 + spec_sp() + t2);
        },
        Opcode::Jsr => {
            let t0 = if i.imm_or_cond_flag == 1 {
                spec_mnemonic(i.opcode)
            } else {
                spec_jsrr()
            };
            let t1 = spec_dec(i.imm_or_cond_flag as int);
            let operand = if i.imm_or_cond_flag == 1 {
                i.pc_offset_11 as int
            } else {
                i.base_r as int
            };
            let t2 = spec_dec(operand);
            lemma_dec_token(i.imm_or_cond_flag as int);
            lemma_dec_token(operand);
            lemma_split_three(t0, t1, t2);
            assert(text =~= t0 + spec_sp() + t1 + spec_sp() + t2);
        },
        Opcode::Ldr => {
            let t0 = spec_mnemonic(i.opcode);
            let t1 = spec_dec(i.dr as int);
            let t2 = spec_dec(i.base_r as int);
            let t3 = spec_dec(i.offset_6 as int);
            lemma_dec_token(i.dr as int);
            lemma_dec_token(i.base_r as int);
            lemma_dec_token(i.offset_6 as int);
            lemma_split_four(t0, t1, t2, t3);
            assert(text =~= t0 + spec_sp() + t1 + spec_sp() + t2 + spec_sp() + t3);
        },
        Opcode::Str => {
            let t0 = spec_mnemonic(i.opcode);
            let t1 = spec_dec(i.sr1 as int);
            let t2 = spec_dec(i.base_r as int);
            let t3 = spec_dec(i.offset_6 as int);
            lemma_dec_token(i.sr1 as int);
            lemma_dec_token(i.base_r as int);
            lemma_dec_token(i.offset_6 as int);
            lemma_split_four(t0, t1, t2, t3);
            assert(text =~= t0 + spec_sp() + t1 + spec_sp() + t2 + spec_sp() + t3);
        },
        Opcode::Not => {
            let t0 = spec_mnemonic(i.opcode);
            let t1 = spec_dec(i.dr as int);
            let t2 = spec_dec(i.sr1 as int);
            lemma_dec_token(i.dr as int);
            lemma_dec_token(i.sr1 as int);
            lemma_split_three(t0, t1, t2);
            assert(text =~= t0 + spec_sp() + t1 + spec_sp() + t2);
        },
        Opcode::Jmp => {
            let t0 = if i.base_r == 7 {
                spec_ret()
            } else {
                spec_mnemonic(i.opcode)
            };
            let t1 = spec_dec(i.base_r as int);
            lemma_dec_token(i.base_r as int);
            lemma_split_two(t0, t1);
            assert(text =~= t0 + spec_sp() + t1);
        },
        Opcode::Rti | Opcode::Res => {
            lemma_split_nospace(text);
        },
        Opcode::Trap => {
            let t0 = spec_mnemonic(i.opcode);
            let t1 = spec_dec(i.trap_vect_8 as int);
            lemma_dec_token(i.trap_vect_8 as int);
            lemma_split_two(t0, t1);
            assert(text =~= t0 + spec_sp() + t1);
        },
    }
}

/// Character-for-character token comparison.
fn tok_eq(t: &str, pat: &str) -> (r: bool)
    ensures
        r == (t@ == pat@),
{
    let n = t.unicode_len();
    let m = pat.unicode_len();
    if n != m {
        return false;
    }
    let mut i: usize = 0;
    while i < n
        invariant
            0 <= i <= n,
            n == t@.len(),
            n == pat@.len(),
            forall|k: int| 0 <= k < i ==> t@[k] == pat@[k],
        decreases n - i,
    {
        if t.get_char(i) != pat.get_char(i) {
            return false;
        }
        i = i + 1;
    }
    proof {
        assert(t@ =~= pat@);
    }
    true
}

/// Parses the fields of a BR line.
fn parse_br(toks: &Vec<&str>) -> (r: Result<Instruction, VmError>)
    ensures
        r == spec_parse_br(views_of(toks@)),
        r matches Ok(i) ==> i.wf(),
{
    if toks.len() == 3 {
        match (parse_u16(toks[1]), parse_u16(toks[2])) {
            (Some(nzp), Some(off)) => {
                if nzp < 8 && off < 512 {
                    let mut i = Instruction::new(Opcode::Br);
                    i.nzp = nzp;
                    i.pc_offset_9 = off;
                    Ok(i)
                } else {
                    Err(VmError::BadMnemonic)
                }
            },
            _ => Err(VmError::BadMnemonic),
        }
    } else {
        Err(VmError::BadMnemonic)
    }
}

/// Parses the fields of an ADD or AND line.
fn parse_arith(toks: &Vec<&str>, op: Opcode) -> (r: Result<Instruction, VmError>)
    requires
        op is Add || op is And,
    ensures
        r == spec_parse_arith(views_of(toks@), op),
        r matches Ok(i) ==> i.wf(),
{
    if toks.len() == 5 {
        match (parse_u16(toks[1]), parse_u16(toks[2]), parse_u16(toks[3]), parse_u16(toks[4])) {
            (Some(dr), Some(sr1), Some(mode), Some(operand)) => {
                if dr < 8 && sr1 < 8 && mode < 2 {
                    if mode == 1 {
                        if operand < 32 {
                            let mut i = Instruction::new(op);
                            i.dr = dr;
                            i.sr1 = sr1;
                            i.imm_or_cond_flag = 1;
                            i.imm5 = operand;
                            Ok(i)
                        } else {
                            Err(VmError::BadMnemonic)
                        }
                    } else {
                        if operand < 8 {
                            let mut i = Instruction::new(op);
                            i.dr = dr;
                            i.sr1 = sr1;
                            i.sr2 = operand;
                            Ok(i)
                        } else {
                            Err(VmError::BadMnemonic)
                        }
                    }
                } else {
                    Err(VmError::BadMnemonic)
                }
            },
            _ => Err(VmError::BadMnemonic),
        }
    } else {
        Err(VmError::BadMnemonic)
    }
}

/// Parses the fields of an LD, LDI or LEA line.
fn parse_dr_off9(toks: &Vec<&str>, op: Opcode) -> (r: Result<Instruction, VmError>)
    requires
        op is Ld || op is Ldi || op is Lea,
    ensures
        r == spec_parse_dr_off9(views_of(toks@), op),
        r matches Ok(i) ==> i.wf(),
{
    if toks.len() == 3 {
        match (parse_u16(toks[1]), parse_u16(toks[2])) {
            (Some(dr), Some(off)) => {
                if dr < 8 && off < 512 {
                    let mut i = Instruction::new(op);
                    i.dr = dr;
                    i.pc_offset_9 = off;
                    Ok(i)
                } else {
                    Err(VmError::BadMnemonic)
                }
            },
            _ => Err(VmError::BadMnemonic),
        }
    } else {
        Err(VmError::BadMnemonic)
    }
}

/// Parses the fields of an ST or STI line.
fn parse_sr_off9(toks: &Vec<&str>, op: Opcode) -> (r: Result<Instruction, VmError>)
    requires
        op is St || op is Sti,
    ensures
        r == spec_parse_sr_off9(views_of(toks@), op),
        r matches Ok(i) ==> i.wf(),
{
    if toks.len() == 3 {
        match (parse_u16(toks[1]), parse_u16(toks[2])) {
            (Some(sr1), Some(off)) => {
                if sr1 < 8 && off < 512 {
                    let mut i = Instruction::new(op);
                    i.sr1 = sr1;
                    i.pc_offset_9 = off;
                    Ok(i)
                } else {
                    Err(VmError::BadMnemonic)
                }
            },
            _ => Err(VmError::BadMnemonic),
        }
    } else {
        Err(VmError::BadMnemonic)
    }
}

/// Parses the fields of a JSR or JSRR line.
fn parse_jsr(toks: &Vec<&str>) -> (r: Result<Instruction, VmError>)
    ensures
        r == spec_parse_jsr(views_of(toks@)),
        r matches Ok(i) ==> i.wf(),
{
    if toks.len() == 3 {
        match (parse_u16(toks[1]), parse_u16(toks[2])) {
            (Some(mode), Some(operand)) => {
                if mode == 1 && operand < 2048 {
                    let mut i = Instruction::new(Opcode::Jsr);
                    i.imm_or_cond_flag = 1;
                    i.pc_offset_11 = operand;
                    Ok(i)
                } else if mode == 0 && operand < 8 {
                    let mut i = Instruction::new(Opcode::Jsr);
                    i.base_r = operand;
                    Ok(i)
                } else {
                    Err(VmError::BadMnemonic)
                }
            },
            _ => Err(VmError::BadMnemonic),
        }
    } else {
        Err(VmError::BadMnemonic)
    }
}

/// Parses the fields of an LDR or STR line.
fn parse_base_off6(toks: &Vec<&str>, op: Opcode) -> (r: Result<Instruction, VmError>)
    requires
        op is Ldr || op is Str,
    ensures
        r == spec_parse_base_off6(views_of(toks@), op),
        r matches Ok(i) ==> i.wf(),
{
    if toks.len() == 4 {
        match (parse_u16(toks[1]), parse_u16(toks[2]), parse_u16(toks[3])) {
            (Some(reg), Some(base), Some(off)) => {
                if reg < 8 && base < 8 && off < 64 {
                    let mut i = Instruction::new(op);
                    if matches!(op, Opcode::Ldr) {
                        i.dr = reg;
                    } else {
                        i.sr1 = reg;
                    }
                    i.base_r = base;
                    i.offset_6 = off;
                    Ok(i)
                } else {
                    Err(VmError::BadMnemonic)
                }
            },
            _ => Err(VmError::BadMnemonic),
        }
    } else {
        Err(VmError::BadMnemonic)
    }
}

/// Parses the fields of a NOT line.
fn parse_not(toks: &Vec<&str>) -> (r: Result<Instruction, VmError>)
    ensures
        r == spec_parse_not(views_of(toks@)),
        r matches Ok(i) ==> i.wf(),
{
    if toks.len() == 3 {
        match (parse_u16(toks[1]), parse_u16(toks[2])) {
            (Some(dr), Some(sr1)) => {
                if dr < 8 && sr1 < 8 {
                    let mut i = Instruction::new(Opcode::Not);
                    i.dr = dr;
                    i.sr1 = sr1;
                    Ok(i)
                } else {
                    Err(VmError::BadMnemonic)
                }
            },
            _ => Err(VmError::BadMnemonic),
        }
    } else {
        Err(VmError::BadMnemonic)
    }
}

/// Parses the field of a JMP or RET line.
fn parse_jmp(toks: &Vec<&str>) -> (r: Result<Instruction, VmError>)
    ensures
        r == spec_parse_jmp(views_of(toks@)),
        r matches Ok(i) ==> i.wf(),
{
    if toks.len() == 2 {
        match parse_u16(toks[1]) {
            Some(base) => {
                if base < 8 {
                    let mut i = Instruction::new(Opcode::Jmp);
                    i.base_r = base;
                    Ok(i)
                } else {
                    Err(VmError::BadMnemonic)
                }
            },
            None => Err(VmError::BadMnemonic),
        }
    } else {
        Err(VmError::BadMnemonic)
    }
}

/// Parses the field of a TRAP line.
fn parse_trap(toks: &Vec<&str>) -> (r: Result<Instruction, VmError>)
    ensures
        r == spec_parse_trap(views_of(toks@)),
        r matches Ok(i) ==> i.wf(),
{
    if toks.len() == 2 {
        match parse_u16(toks[1]) {
            Some(vect) => {
                if vect < 256 {
                    let mut i = Instruction::new(Opcode::Trap);
                    i.trap_vect_8 = vect;
                    Ok(i)
                } else {
                    Err(VmError::BadMnemonic)
                }
            },
            None => Err(VmError::BadMnemonic),
        }
    } else {
        Err(VmError::BadMnemonic)
    }
}

/// Parses a bare RTI or RES line.
fn parse_bare(toks: &Vec<&str>, op: Opcode) -> (r: Result<Instruction, VmError>)
    requires
        op is Rti || op is Res,
    ensures
        r == spec_parse_bare(views_of(toks@), op),
        r matches Ok(i) ==> i.wf(),
{
    if toks.len() == 1 {
        Ok(Instruction::new(op))
    } else {
        Err(VmError::BadMnemonic)
    }
}

/// Parses a mnemonic line back into an instruction: the inverse direction
/// of `Instruction::to_text`, by the grammar `spec_parse_line` fixes. A
/// line that names no opcode, has the wrong number of fields, or a field
/// out of its bit width, is refused.
pub fn encode_instruction_string(instruction: String) -> (r: Result<Instruction, VmError>)
    ensures
        r == spec_parse_line(instruction@),
        r matches Ok(i) ==> i.wf(),
{
    proof {
        reveal_strlit("BR");
        reveal_strlit("ADD");
        reveal_strlit("AND");
        reveal_strlit("LD");
        reveal_strlit("LDI");
        reveal_strlit("LEA");
        reveal_strlit("ST");
        reveal_strlit("STI");
        reveal_strlit("JSR");
        reveal_strlit("JSRR");
        reveal_strlit("LDR");
        reveal_strlit("STR");
        reveal_strlit("NOT");
        reveal_strlit("JMP");
        reveal_strlit("RET");
        reveal_strlit("RTI");
        reveal_strlit("RES");
        reveal_strlit("TRAP");
        assert("BR"@ =~= spec_mnemonic(Opcode::Br));
        assert("ADD"@ =~= spec_mnemonic(Opcode::Add));
        assert("AND"@ =~= spec_mnemonic(Opcode::And));
        assert("LD"@ =~= spec_mnemonic(Opcode::Ld));
        assert("LDI"@ =~= spec_mnemonic(Opcode::Ldi));
        assert("LEA"@ =~= spec_mnemonic(Opcode::Lea));
        assert("ST"@ =~= spec_mnemonic(Opcode::St));
        assert("STI"@ =~= spec_mnemonic(Opcode::Sti));
        assert("JSR"@ =~= spec_mnemonic(Opcode::Jsr));
        assert("JSRR"@ =~= spec_jsrr());
        assert("LDR"@ =~= spec_mnemonic(Opcode::Ldr));
        assert("STR"@ =~= spec_mnemonic(Opcode::Str));
        assert("NOT"@ =~= spec_mnemonic(Opcode::Not));
        assert("JMP"@ =~= spec_mnemonic(Opcode::Jmp));
        assert("RET"@ =~= spec_ret());
        assert("RTI"@ =~= spec_mnemonic(Opcode::Rti));
        assert("RES"@ =~= spec_mnemonic(Opcode::Res));
        assert("TRAP"@ =~= spec_mnemonic(Opcode::Trap));
    }
    let s = instruction.as_str();
    let toks = tokenize(s);
    proof {
        lemma_split_len(s@);
        assert(toks@.len() == views_of(toks@).len());
    }
    let mn = toks[0];
    if tok_eq(mn, "BR") {
        parse_br(&toks)
    } else if tok_eq(mn, "ADD") {
        parse_arith(&toks, Opcode::Add)
    } else if tok_eq(mn, "AND") {
        parse_arith(&toks, Opcode::And)
    } else if tok_eq(mn, "LD") {
        parse_dr_off9(&toks, Opcode::Ld)
    } else if tok_eq(mn, "LDI") {
        parse_dr_off9(&toks, Opcode::Ldi)
    } else if tok_eq(mn, "LEA") {
        parse_dr_off9(&toks, Opcode::Lea)
    } else if tok_eq(mn, "ST") {
        parse_sr_off9(&toks, Opcode::St)
    } else if tok_eq(mn, "STI") {
        parse_sr_off9(&toks, Opcode::Sti)
    } else if tok_eq(mn, "JSR") || tok_eq(mn, "JSRR") {
        parse_jsr(&toks)
    } else if tok_eq(mn, "LDR") {
        parse_base_off6(&toks, Opcode::Ldr)
    } else if tok_eq(mn, "STR") {
        parse_base_off6(&toks, Opcode::Str)
    } else if tok_eq(mn, "NOT") {
        parse_not(&toks)
    } else if tok_eq(mn, "JMP") || tok_eq(mn, "RET") {
        parse_jmp(&toks)
    } else if tok_eq(mn, "RTI") {
        parse_bare(&toks, Opcode::Rti)
    } else if tok_eq(mn, "RES") {
        parse_bare(&toks, Opcode::Res)
    } else if tok_eq(mn, "TRAP") {
        parse_trap(&toks)
    } else {
        Err(VmError::BadMnemonic)
    }
}

} // verus!
