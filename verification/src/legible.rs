//! A statement names its operands: from the line of a move its destination
//! and its source can be read back.

use crate::resolve::{statement, Operand};
use crate::tables::{ea_text, reg_text};
use crate::text::{decimal, digit};
use vstd::prelude::*;

verus! {

/// Whether a character is a decimal digit.
pub open spec fn is_digit(c: char) -> bool {
    '0' <= c <= '9'
}

/// Whether a character is a lower-case letter.
pub open spec fn is_letter(c: char) -> bool {
    'a' <= c <= 'z'
}

/// A numeral is not empty and holds digits only.
pub proof fn lemma_numeral_is_digits(n: nat)
    ensures
        decimal(n).len() >= 1,
        n >= 10 ==> decimal(n).len() >= 2,
        forall|i: int| 0 <= i < decimal(n).len() ==> is_digit(#[trigger] decimal(n)[i]),
    decreases n,
{
    if n >= 10 {
        lemma_numeral_is_digits(n / 10);
    }
}

/// Different values have different numerals.
pub proof fn lemma_numeral_names_value(a: nat, b: nat)
    requires
        decimal(a) == decimal(b),
    ensures
        a == b,
    decreases a,
{
    lemma_numeral_is_digits(a);
    lemma_numeral_is_digits(b);
    if a >= 10 && b >= 10 {
        let front_a = decimal(a / 10);
        let front_b = decimal(b / 10);
        assert(front_a =~= decimal(a).drop_last());
        assert(front_b =~= decimal(b).drop_last());
        assert(digit(a % 10) == decimal(a).last());
        assert(digit(b % 10) == decimal(b).last());
        lemma_numeral_names_value(a / 10, b / 10);
        assert(a % 10 == b % 10);
    } else if a < 10 && b < 10 {
        assert(decimal(a)[0] == digit(a));
        assert(decimal(b)[0] == digit(b));
    } else if a < 10 {
        assert(decimal(a).len() == 1);
        assert(false);
    } else {
        assert(decimal(b).len() == 1);
        assert(false);
    }
}

/// The two letters of a register's name.
spec fn letters(w: u8, index: u8) -> (char, char) {
    if w == 0 {
        if index == 0 {
            ('a', 'l')
        } else if index == 1 {
            ('c', 'l')
        } else if index == 2 {
            ('d', 'l')
        } else if index == 3 {
            ('b', 'l')
        } else if index == 4 {
            ('a', 'h')
        } else if index == 5 {
            ('c', 'h')
        } else if index == 6 {
            ('d', 'h')
        } else {
            ('b', 'h')
        }
    } else {
        if index == 0 {
            ('a', 'x')
        } else if index == 1 {
            ('c', 'x')
        } else if index == 2 {
            ('d', 'x')
        } else if index == 3 {
            ('b', 'x')
        } else if index == 4 {
            ('s', 'p')
        } else if index == 5 {
            ('b', 'p')
        } else if index == 6 {
            ('s', 'i')
        } else {
            ('d', 'i')
        }
    }
}

proof fn lemma_register_letters(w: u8, index: u8)
    requires
        w <= 1,
        index <= 7,
    ensures
        reg_text(w, index) =~= seq![letters(w, index).0, letters(w, index).1],
{
    reveal_strlit("al");
    reveal_strlit("cl");
    reveal_strlit("dl");
    reveal_strlit("bl");
    reveal_strlit("ah");
    reveal_strlit("ch");
    reveal_strlit("dh");
    reveal_strlit("bh");
    reveal_strlit("ax");
    reveal_strlit("cx");
    reveal_strlit("dx");
    reveal_strlit("bx");
    reveal_strlit("sp");
    reveal_strlit("bp");
    reveal_strlit("si");
    reveal_strlit("di");
}

/// A register's name is two letters.
pub proof fn lemma_register_name_is_letters(w: u8, index: u8)
    requires
        w <= 1,
        index <= 7,
    ensures
        reg_text(w, index).len() == 2,
        is_letter(reg_text(w, index)[0]),
        is_letter(reg_text(w, index)[1]),
{
    lemma_register_letters(w, index);
}

/// No two registers share a name, whatever their widths.
pub proof fn lemma_register_named_once(w1: u8, index1: u8, w2: u8, index2: u8)
    requires
        w1 <= 1,
        index1 <= 7,
        w2 <= 1,
        index2 <= 7,
        reg_text(w1, index1) == reg_text(w2, index2),
    ensures
        w1 == w2,
        index1 == index2,
{
    lemma_register_letters(w1, index1);
    lemma_register_letters(w2, index2);
    let a = reg_text(w1, index1);
    let b = reg_text(w2, index2);
    assert(a[0] == letters(w1, index1).0 && a[1] == letters(w1, index1).1);
    assert(b[0] == letters(w2, index2).0 && b[1] == letters(w2, index2).1);
}

/// Whether a character can stand in a base expression.
pub open spec fn is_base_char(c: char) -> bool {
    is_letter(c) || c == ' ' || c == '+'
}

/// A base expression is `xx + yy` for the first four memory fields and `xx`
/// for the others, where `xx` and `yy` are register names.
pub proof fn lemma_base_shape(rm: u8)
    requires
        rm <= 7,
    ensures
        ea_text(rm).len() == (if rm <= 3 { 7int } else { 2int }),
        forall|i: int| 0 <= i < ea_text(rm).len() ==> is_base_char(#[trigger] ea_text(rm)[i]),
        is_letter(ea_text(rm)[0]),
        is_letter(ea_text(rm).last()),
        rm <= 3 ==> is_letter(ea_text(rm)[5]),
{
    reveal_strlit("bx + si");
    reveal_strlit("bx + di");
    reveal_strlit("bp + si");
    reveal_strlit("bp + di");
    reveal_strlit("si");
    reveal_strlit("di");
    reveal_strlit("bp");
    reveal_strlit("bx");
}

/// No two memory fields share a base expression.
pub proof fn lemma_base_named_once(rm1: u8, rm2: u8)
    requires
        rm1 <= 7,
        rm2 <= 7,
        ea_text(rm1) == ea_text(rm2),
    ensures
        rm1 == rm2,
{
    reveal_strlit("bx + si");
    reveal_strlit("bx + di");
    reveal_strlit("bp + si");
    reveal_strlit("bp + di");
    reveal_strlit("si");
    reveal_strlit("di");
    reveal_strlit("bp");
    reveal_strlit("bx");
    let a = ea_text(rm1);
    let b = ea_text(rm2);
    assert(a.len() == b.len());
    assert(a[0] == b[0] && a[1] == b[1]);
    if rm1 <= 3 {
        assert(a[5] == b[5] && a[6] == b[6]);
    }
}

/// What a memory operand holds between its brackets.
pub open spec fn inner(operand: Operand) -> Seq<char>
    recommends
        operand is Direct || operand is Based,
{
    match operand {
        Operand::Direct { address } => decimal(address),
        Operand::Based { rm, displacement: Some(d) } => ea_text(rm) + " + "@ + decimal(d),
        Operand::Based { rm, displacement: None } => ea_text(rm),
        _ => Seq::empty(),
    }
}

/// An operand's text is not empty and holds no comma. A register starts with
/// a letter and a value with a digit; a memory operand is its inner text
/// between brackets.
pub proof fn lemma_operand_shape(operand: Operand)
    requires
        operand.wf(),
    ensures
        operand.text().len() >= 1,
        forall|i: int| 0 <= i < operand.text().len() ==> #[trigger] operand.text()[i] != ',',
        operand is Register ==> is_letter(operand.text()[0]),
        operand is Immediate ==> is_digit(operand.text()[0]),
        operand is Direct || operand is Based ==> operand.text() == seq!['['] + inner(operand)
            + seq![']'],
        operand is Direct || operand is Based ==> inner(operand).len() >= 1,
        operand is Direct ==> is_digit(inner(operand)[0]),
        operand is Based ==> is_letter(inner(operand)[0]),
        operand matches Operand::Based { displacement, .. } ==> (displacement is Some
            <==> is_digit(inner(operand).last())),
{
    reveal_strlit("[");
    reveal_strlit("]");
    reveal_strlit(" + ");
    assert("["@ =~= seq!['[']);
    assert("]"@ =~= seq![']']);
    match operand {
        Operand::Register { w, index } => {
            lemma_register_name_is_letters(w, index);
        },
        Operand::Immediate { value } => {
            lemma_numeral_is_digits(value);
        },
        Operand::Direct { address } => {
            lemma_numeral_is_digits(address);
        },
        Operand::Based { rm, displacement: None } => {
            lemma_base_shape(rm);
        },
        Operand::Based { rm, displacement: Some(d) } => {
            lemma_base_shape(rm);
            lemma_numeral_is_digits(d);
            let body = ea_text(rm) + " + "@ + decimal(d);
            assert(operand.text() =~= seq!['['] + body + seq![']']);
            assert(body.last() == decimal(d).last());
        },
    }
}

/// Two memory operands with the same inner text are the same operand.
proof fn lemma_inner_names_operand(a: Operand, b: Operand)
    requires
        a.wf(),
        b.wf(),
        a is Direct || a is Based,
        b is Direct || b is Based,
        inner(a) == inner(b),
    ensures
        a == b,
{
    lemma_operand_shape(a);
    lemma_operand_shape(b);
    reveal_strlit(" + ");
    match (a, b) {
        (Operand::Direct { address: x }, Operand::Direct { address: y }) => {
            lemma_numeral_names_value(x, y);
        },
        (
            Operand::Based { rm: r1, displacement: None },
            Operand::Based { rm: r2, displacement: None },
        ) => {
            lemma_base_named_once(r1, r2);
        },
        (
            Operand::Based { rm: r1, displacement: Some(d1) },
            Operand::Based { rm: r2, displacement: Some(d2) },
        ) => {
            lemma_base_shape(r1);
            lemma_base_shape(r2);
            lemma_numeral_is_digits(d1);
            lemma_numeral_is_digits(d2);
            let base1 = ea_text(r1);
            let base2 = ea_text(r2);
            let whole = inner(a);
            if base1.len() < base2.len() {
                assert(whole[5] == decimal(d1)[0]);
                assert(whole[5] == base2[5]);
                assert(false);
            } else if base2.len() < base1.len() {
                assert(whole[5] == decimal(d2)[0]);
                assert(whole[5] == base1[5]);
                assert(false);
            } else {
                let n = base1.len() as int;
                assert(base1 =~= whole.subrange(0, n));
                assert(base2 =~= whole.subrange(0, n));
                lemma_base_named_once(r1, r2);
                assert(decimal(d1) =~= whole.subrange(n + 3, whole.len() as int));
                assert(decimal(d2) =~= whole.subrange(n + 3, whole.len() as int));
                lemma_numeral_names_value(d1, d2);
            }
        },
        _ => {
            assert(inner(a)[0] == inner(b)[0]);
            assert(inner(a).last() == inner(b).last());
            assert(false);
        },
    }
}

/// An operand's text names the operand: two operands that are written the
/// same are the same register, the same address, the same base with the same
/// displacement, or the same value.
pub proof fn lemma_text_names_operand(a: Operand, b: Operand)
    requires
        a.wf(),
        b.wf(),
        a.text() == b.text(),
    ensures
        a == b,
{
    lemma_operand_shape(a);
    lemma_operand_shape(b);
    let memory_a = a is Direct || a is Based;
    let memory_b = b is Direct || b is Based;
    assert(a.text()[0] == b.text()[0]);
    if memory_a && memory_b {
        let whole = a.text();
        assert(inner(a) =~= whole.subrange(1, whole.len() - 1));
        assert(inner(b) =~= whole.subrange(1, whole.len() - 1));
        lemma_inner_names_operand(a, b);
    } else if memory_a || memory_b {
        assert(false);
    } else {
        match (a, b) {
            (
                Operand::Register { w: w1, index: i1 },
                Operand::Register { w: w2, index: i2 },
            ) => {
                lemma_register_named_once(w1, i1, w2, i2);
            },
            (Operand::Immediate { value: x }, Operand::Immediate { value: y }) => {
                lemma_numeral_names_value(x, y);
            },
            _ => {
                assert(false);
            },
        }
    }
}

/// A statement names its operands: two moves that are written the same have
/// the same destination and the same source. What was decoded can thus be read
/// back from the line, operand by operand.
pub proof fn lemma_statement_names_operands(
    mnemonic: Seq<char>,
    dest1: Operand,
    src1: Operand,
    dest2: Operand,
    src2: Operand,
)
    requires
        dest1.wf(),
        src1.wf(),
        dest2.wf(),
        src2.wf(),
        statement(mnemonic, dest1.text(), src1.text()) == statement(
            mnemonic,
            dest2.text(),
            src2.text(),
        ),
    ensures
        dest1 == dest2,
        src1 == src2,
{
    lemma_operand_shape(dest1);
    lemma_operand_shape(dest2);
    reveal_strlit(" ");
    reveal_strlit(", ");
    let whole = statement(mnemonic, dest1.text(), src1.text());
    let d1 = dest1.text();
    let d2 = dest2.text();
    let start: int = mnemonic.len() as int + 1;
    assert(whole =~= mnemonic + " "@ + d1 + ", "@ + src1.text());
    assert(whole =~= mnemonic + " "@ + d2 + ", "@ + src2.text());
    if d1.len() < d2.len() {
        assert(whole[start + d1.len()] == ',');
        assert(whole[start + d1.len()] == d2[d1.len() as int]);
        assert(false);
    } else if d2.len() < d1.len() {
        assert(whole[start + d2.len()] == ',');
        assert(whole[start + d2.len()] == d1[d2.len() as int]);
        assert(false);
    } else {
        let end: int = start + d1.len();
        assert(d1 =~= whole.subrange(start, end));
        assert(d2 =~= whole.subrange(start, end));
        assert(src1.text() =~= whole.subrange(end + 2, whole.len() as int));
        assert(src2.text() =~= whole.subrange(end + 2, whole.len() as int));
        lemma_text_names_operand(dest1, dest2);
        lemma_text_names_operand(src1, src2);
    }
}

} // verus!
