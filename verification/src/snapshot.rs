use vstd::prelude::*;
use vstd::string::StringExecFns;

use crate::flags::active_mnemonics;
use crate::flags::spec_active;
use crate::machine::Emulator;
use crate::machine::MachineView;

verus! {

/// The `k`-th hexadecimal digit of `w`, counting from the least significant.
pub open spec fn nibble(w: u32, k: u32) -> u32
    recommends
        k < 8,
{
    (w >> (4 * k)) & 0xF
}

/// The uppercase hexadecimal character for a digit value below 16.
pub open spec fn hex_char(d: u32) -> char
    recommends
        d < 16,
{
    if d == 0 {
        '0'
    } else if d == 1 {
        '1'
    } else if d == 2 {
        '2'
    } else if d == 3 {
        '3'
    } else if d == 4 {
        '4'
    } else if d == 5 {
        '5'
    } else if d == 6 {
        '6'
    } else if d == 7 {
        '7'
    } else if d == 8 {
        '8'
    } else if d == 9 {
        '9'
    } else if d == 10 {
        'A'
    } else if d == 11 {
        'B'
    } else if d == 12 {
        'C'
    } else if d == 13 {
        'D'
    } else if d == 14 {
        'E'
    } else if d == 15 {
        'F'
    } else {
        '0'
    }
}

/// `w` written as exactly eight uppercase hexadecimal characters, zero
/// padded, most significant digit first.
pub open spec fn spec_hex8(w: u32) -> Seq<char> {
    Seq::new(8, |i: int| hex_char(nibble(w, (7 - i) as u32)))
}

/// The one-character string for a hexadecimal digit value.
fn hex_char_str(d: u32) -> (r: &'static str)
    requires
        d < 16,
    ensures
        r@ == seq![hex_char(d)],
{
    let r: &'static str = if d == 0 {
        "0"
    } else if d == 1 {
        "1"
    } else if d == 2 {
        "2"
    } else if d == 3 {
        "3"
    } else if d == 4 {
        "4"
    } else if d == 5 {
        "5"
    } else if d == 6 {
        "6"
    } else if d == 7 {
        "7"
    } else if d == 8 {
        "8"
    } else if d == 9 {
        "9"
    } else if d == 10 {
        "A"
    } else if d == 11 {
        "B"
    } else if d == 12 {
        "C"
    } else if d == 13 {
        "D"
    } else if d == 14 {
        "E"
    } else {
        "F"
    };
    proof {
        reveal_strlit("0");
        reveal_strlit("1");
        reveal_strlit("2");
        reveal_strlit("3");
        reveal_strlit("4");
        reveal_strlit("5");
        reveal_strlit("6");
        reveal_strlit("7");
        reveal_strlit("8");
        reveal_strlit("9");
        reveal_strlit("A");
        reveal_strlit("B");
        reveal_strlit("C");
        reveal_strlit("D");
        reveal_strlit("E");
        reveal_strlit("F");
        assert(r@ =~= seq![hex_char(d)]);
    }
    r
}

/// Appends the eight-digit hexadecimal rendering of `w` to `out`.
fn push_hex8(out: &mut String, w: u32)
    ensures
        final(out)@ == old(out)@ + spec_hex8(w),
{
    let mut i: usize = 0;
    while i < 8
        invariant
            i <= 8,
            out@ == old(out)@ + spec_hex8(w).subrange(0, i as int),
        decreases 8 - i,
    {
        let k: u32 = (7 - i) as u32;
        let d: u32 = (w >> (4 * k)) & 0xF;
        assert((w >> (4 * k)) & 0xF < 16) by (bit_vector);
        let c = hex_char_str(d);
        out.append(c);
        proof {
            assert(spec_hex8(w).subrange(0, i as int + 1) =~= spec_hex8(w).subrange(0, i as int)
                + seq![hex_char(nibble(w, k))]);
        }
        i += 1;
    }
    proof {
        assert(spec_hex8(w).subrange(0, 8) =~= spec_hex8(w));
    }
}

/// The pieces joined by single spaces: empty for no pieces, and no leading
/// or trailing separator.
pub open spec fn spec_join(l: Seq<Seq<char>>) -> Seq<char>
    decreases l.len(),
{
    if l.len() == 0 {
        Seq::empty()
    } else if l.len() == 1 {
        l[0]
    } else {
        l[0] + " "@ + spec_join(l.subrange(1, l.len() as int))
    }
}

/// Joining splits at the last piece: the join of everything before it,
/// a space, then the last piece.
proof fn lemma_join_snoc(l: Seq<Seq<char>>)
    requires
        l.len() >= 2,
    ensures
        spec_join(l) == spec_join(l.subrange(0, l.len() - 1)) + " "@ + l.last(),
    decreases l.len(),
{
    let n = l.len() as int;
    let t = l.subrange(1, n);
    let front = l.subrange(0, n - 1);
    if n == 2 {
        assert(t =~= seq![l[1]]);
        assert(front =~= seq![l[0]]);
        assert(spec_join(t) == l[1]);
        assert(spec_join(front) == l[0]);
        assert(spec_join(l) == l[0] + " "@ + l[1]);
    } else {
        lemma_join_snoc(t);
        let mid = t.subrange(0, t.len() - 1);
        assert(mid =~= front.subrange(1, front.len() as int));
        assert(t.last() == l.last());
        assert(front[0] == l[0]);
        assert(spec_join(l) == l[0] + " "@ + spec_join(t));
        assert(spec_join(t) == spec_join(mid) + " "@ + l.last());
        assert(spec_join(front) == l[0] + " "@ + spec_join(mid));
        assert((l[0] + " "@ + spec_join(mid)) + " "@ + l.last() =~= l[0] + " "@ + (spec_join(mid)
            + " "@ + l.last()));
        assert(spec_join(l) == spec_join(front) + " "@ + l.last());
    }
    assert(front == l.subrange(0, l.len() - 1));
}

/// Appends the pieces, space separated, to `out`.
fn append_joined(out: &mut String, v: &Vec<&str>)
    ensures
        final(out)@ == old(out)@ + spec_join(v.deep_view()),
{
    let ghost l: Seq<Seq<char>> = v.deep_view();
    let n = v.len();
    assert(l.len() == n as int);
    assert(old(out)@ + spec_join(l.subrange(0, 0)) =~= old(out)@);
    let mut i: usize = 0;
    while i < n
        invariant
            i <= n,
            n == v.len(),
            l == v.deep_view(),
            l.len() == n as int,
            out@ == old(out)@ + spec_join(l.subrange(0, i as int)),
        decreases n - i,
    {
        if i > 0 {
            out.append(" ");
        }
        let s: &str = v[i];
        out.append(s);
        proof {
            assert(s@ == l[i as int]);
            if i == 0 {
                assert(l.subrange(0, 1) =~= seq![l[0]]);
                assert(out@ =~= old(out)@ + spec_join(l.subrange(0, 1)));
            } else {
                lemma_join_snoc(l.subrange(0, i as int + 1));
                assert(l.subrange(0, i as int + 1).subrange(0, i as int) =~= l.subrange(
                    0,
                    i as int,
                ));
                assert(l.subrange(0, i as int + 1).last() == l[i as int]);
                assert(out@ =~= old(out)@ + spec_join(l.subrange(0, i as int + 1)));
            }
        }
        i += 1;
    }
    proof {
        assert(l.subrange(0, n as int) =~= l);
    }
}

/// The deterministic textual snapshot of a machine: a header, the eight
/// registers in canonical order as eight-digit uppercase hexadecimal, the
/// raw EFLAGS word followed by its space-joined active mnemonics, the
/// instruction pointer, and the memory section header.
pub open spec fn spec_snapshot(m: MachineView) -> Seq<char> {
    "Emulator\n<Registers>\n  EAX 0x"@ + spec_hex8(m.regs[0]) + "\n  ECX 0x"@ + spec_hex8(m.regs[1])
        + "\n  EDX 0x"@ + spec_hex8(m.regs[2]) + "\n  EBX 0x"@ + spec_hex8(m.regs[3])
        + "\n  ESP 0x"@ + spec_hex8(m.regs[4]) + "\n  EBP 0x"@ + spec_hex8(m.regs[5])
        + "\n  ESI 0x"@ + spec_hex8(m.regs[6]) + "\n  EDI 0x"@ + spec_hex8(m.regs[7])
        + "\n<EFlags>\n  0x"@ + spec_hex8(m.eflags) + " ["@ + spec_join(spec_active(m.eflags))
        + "]\n<EIP>\n  0x"@ + spec_hex8(m.eip) + "\n<Memory>\n"@
}

impl Emulator {
    /// Renders the snapshot. A pure function of the machine state: equal
    /// states give byte-identical text.
    pub fn snapshot(&self) -> (r: String)
        ensures
            r@ == spec_snapshot(self@),
    {
        let mut s = String::new();
        s.append("Emulator\n<Registers>\n  EAX 0x");
        push_hex8(&mut s, self.reg_slot(0));
        s.append("\n  ECX 0x");
        push_hex8(&mut s, self.reg_slot(1));
        s.append("\n  EDX 0x");
        push_hex8(&mut s, self.reg_slot(2));
        s.append("\n  EBX 0x");
        push_hex8(&mut s, self.reg_slot(3));
        s.append("\n  ESP 0x");
        push_hex8(&mut s, self.reg_slot(4));
        s.append("\n  EBP 0x");
        push_hex8(&mut s, self.reg_slot(5));
        s.append("\n  ESI 0x");
        push_hex8(&mut s, self.reg_slot(6));
        s.append("\n  EDI 0x");
        push_hex8(&mut s, self.reg_slot(7));
        s.append("\n<EFlags>\n  0x");
        push_hex8(&mut s, self.eflags_word());
        s.append(" [");
        let names = active_mnemonics(self.eflags_word());
        append_joined(&mut s, &names);
        s.append("]\n<EIP>\n  0x");
        push_hex8(&mut s, self.instruction_pointer());
        s.append("\n<Memory>\n");
        proof {
            assert(s@ =~= spec_snapshot(self@));
        }
        s
    }
}

/// Formatter determinism: the snapshot is a pure function of the machine
/// state, so equal states render to identical text.
pub proof fn lemma_snapshot_deterministic(a: MachineView, b: MachineView)
    requires
        a == b,
    ensures
        spec_snapshot(a) == spec_snapshot(b),
{
}

} // verus!
