use vstd::prelude::*;

verus! {

/// Number of named fields of the EFLAGS word, in ascending bit order.
pub open spec fn flag_count() -> int {
    19
}

/// Bit mask of the `i`-th named field of the EFLAGS word, in ascending bit
/// order. IOPL is a two-bit field; every other entry is a single bit. Bit 31
/// carries no architectural meaning and is kept as a display-only mnemonic.
pub open spec fn flag_mask(i: int) -> u32 {
    if i == 0 {
        0x1
    } else if i == 1 {
        0x4
    } else if i == 2 {
        0x10
    } else if i == 3 {
        0x40
    } else if i == 4 {
        0x80
    } else if i == 5 {
        0x100
    } else if i == 6 {
        0x200
    } else if i == 7 {
        0x400
    } else if i == 8 {
        0x800
    } else if i == 9 {
        0x3000
    } else if i == 10 {
        0x4000
    } else if i == 11 {
        0x8000
    } else if i == 12 {
        0x10000
    } else if i == 13 {
        0x20000
    } else if i == 14 {
        0x40000
    } else if i == 15 {
        0x80000
    } else if i == 16 {
        0x100000
    } else if i == 17 {
        0x200000
    } else if i == 18 {
        0x80000000
    } else {
        0
    }
}

/// Mnemonic of the `i`-th named field of the EFLAGS word.
pub open spec fn flag_name(i: int) -> Seq<char> {
    if i == 0 {
        "CF"@
    } else if i == 1 {
        "PF"@
    } else if i == 2 {
        "AF"@
    } else if i == 3 {
        "ZF"@
    } else if i == 4 {
        "SF"@
    } else if i == 5 {
        "TF"@
    } else if i == 6 {
        "IF"@
    } else if i == 7 {
        "DF"@
    } else if i == 8 {
        "OF"@
    } else if i == 9 {
        "IOPL"@
    } else if i == 10 {
        "NT"@
    } else if i == 11 {
        "MD"@
    } else if i == 12 {
        "RF"@
    } else if i == 13 {
        "VM"@
    } else if i == 14 {
        "AC"@
    } else if i == 15 {
        "VIF"@
    } else if i == 16 {
        "VIP"@
    } else if i == 17 {
        "ID"@
    } else if i == 18 {
        "AI"@
    } else {
        ""@
    }
}

/// Mnemonics of the fields among the first `n` that are active in `w`, in
/// ascending bit order; a multi-bit field counts as active when any of its
/// bits is set.
pub open spec fn spec_active_prefix(w: u32, n: int) -> Seq<Seq<char>>
    decreases n,
{
    if n <= 0 {
        Seq::empty()
    } else if w & flag_mask(n - 1) != 0 {
        spec_active_prefix(w, n - 1).push(flag_name(n - 1))
    } else {
        spec_active_prefix(w, n - 1)
    }
}

/// Mnemonics of every active field of `w`, in ascending bit order.
pub open spec fn spec_active(w: u32) -> Seq<Seq<char>> {
    spec_active_prefix(w, flag_count())
}

/// Appends the mnemonic of the `i`-th field when it is active in `w`,
/// carrying the decoder from the first `i` fields to the first `i + 1`.
fn push_if_active(v: &mut Vec<&'static str>, w: u32, mask: u32, name: &'static str, Ghost(i): Ghost<
    int,
>)
    requires
        0 <= i,
        mask == flag_mask(i),
        name@ == flag_name(i),
        old(v).deep_view() == spec_active_prefix(w, i),
    ensures
        final(v).deep_view() == spec_active_prefix(w, i + 1),
{
    if w & mask != 0 {
        v.push(name);
    }
    assert(v.deep_view() =~= spec_active_prefix(w, i + 1));
}

/// Decodes an EFLAGS word to the mnemonics of its active fields, in strictly
/// ascending bit-index order, omitting inactive ones. IOPL is reported once
/// if either of its two bits is set.
pub fn active_mnemonics(w: u32) -> (r: Vec<&'static str>)
    ensures
        r.deep_view() == spec_active(w),
{
    let mut v: Vec<&'static str> = Vec::new();
    assert(v.deep_view() =~= spec_active_prefix(w, 0));
    push_if_active(&mut v, w, 0x1, "CF", Ghost(0));
    push_if_active(&mut v, w, 0x4, "PF", Ghost(1));
    push_if_active(&mut v, w, 0x10, "AF", Ghost(2));
    push_if_active(&mut v, w, 0x40, "ZF", Ghost(3));
    push_if_active(&mut v, w, 0x80, "SF", Ghost(4));
    push_if_active(&mut v, w, 0x100, "TF", Ghost(5));
    push_if_active(&mut v, w, 0x200, "IF", Ghost(6));
    push_if_active(&mut v, w, 0x400, "DF", Ghost(7));
    push_if_active(&mut v, w, 0x800, "OF", Ghost(8));
    push_if_active(&mut v, w, 0x3000, "IOPL", Ghost(9));
    push_if_active(&mut v, w, 0x4000, "NT", Ghost(10));
    push_if_active(&mut v, w, 0x8000, "MD", Ghost(11));
    push_if_active(&mut v, w, 0x10000, "RF", Ghost(12));
    push_if_active(&mut v, w, 0x20000, "VM", Ghost(13));
    push_if_active(&mut v, w, 0x40000, "AC", Ghost(14));
    push_if_active(&mut v, w, 0x80000, "VIF", Ghost(15));
    push_if_active(&mut v, w, 0x100000, "VIP", Ghost(16));
    push_if_active(&mut v, w, 0x200000, "ID", Ghost(17));
    push_if_active(&mut v, w, 0x80000000, "AI", Ghost(18));
    v
}

} // verus!
