//! Token-level utilities shared by the per-leaf decoders: bit-to-label
//! detection, compound-token expansion, column-aware word wrap and the
//! register-bytes-to-text conversion used for name strings.

use vstd::prelude::*;

use crate::reg::bit32;
use crate::reg::CpuidResult;
use crate::reg::Reg;
use crate::PARSE_WIDTH;

verus! {

/// The character sequences of a sequence of strings.
pub open spec fn views<S: View<V = Seq<char>>>(ss: Seq<S>) -> Seq<Seq<char>> {
    Seq::new(ss.len(), |i: int| ss[i]@)
}

/// The flag/character-sequence pairs of a sequence of flagged strings.
pub open spec fn pair_views(ps: Seq<(bool, &str)>) -> Seq<(bool, Seq<char>)> {
    Seq::new(ps.len(), |i: int| (ps[i].0, ps[i].1@))
}

/// Labels of the table entries among the first `n` whose register bit is set
/// and whose label is non-empty, in ascending bit order.
pub open spec fn detect_upto(reg: u32, tbl: Seq<Seq<char>>, n: int) -> Seq<Seq<char>>
    decreases n,
{
    if n <= 0 {
        Seq::empty()
    } else {
        detect_upto(reg, tbl, n - 1) + (if bit32(reg, (n - 1) as u32) && tbl[n - 1].len() > 0 {
            seq![tbl[n - 1]]
        } else {
            Seq::empty()
        })
    }
}

/// Labels at the set bits of `reg` with a non-empty table entry, in
/// ascending bit-index order; at most the first 32 table entries are read.
pub open spec fn detect(reg: u32, tbl: Seq<Seq<char>>) -> Seq<Seq<char>> {
    detect_upto(reg, tbl, if tbl.len() < 32 {
        tbl.len() as int
    } else {
        32
    })
}

/// The labels at the set bits of `reg`, read from `ftr_str`: entry `i` is
/// returned exactly when bit `i` of `reg` is set and the entry is non-empty,
/// in ascending bit-index order.
pub fn str_detect_ftr(reg: u32, ftr_str: &[&str]) -> (r: Vec<String>)
    ensures
        views(r@) == detect(reg, views(ftr_str@)),
{
    let bits = Reg::new(reg).to_bool_array();
    let n = if ftr_str.len() < 32 {
        ftr_str.len()
    } else {
        32
    };
    let mut buff: Vec<String> = Vec::new();
    let mut i: usize = 0;
    while i < n
        invariant
            i <= n,
            n == (if ftr_str@.len() < 32 {
                ftr_str@.len() as int
            } else {
                32
            }),
            forall|j: int| 0 <= j < 32 ==> bits@[j] == bit32(reg, j as u32),
            views(buff@) == detect_upto(reg, views(ftr_str@), i as int),
        decreases n - i,
    {
        let ftr = ftr_str[i];
        if bits[i] && ftr.unicode_len() > 0 {
            buff.push(ftr.to_owned());
        }
        proof {
            assert(views(buff@) =~= detect_upto(reg, views(ftr_str@), i + 1));
        }
        i += 1;
    }
    buff
}

/// The concatenation of a sequence of character sequences, first `n` only.
pub open spec fn concat_upto(ss: Seq<Seq<char>>, n: int) -> Seq<char>
    decreases n,
{
    if n <= 0 {
        Seq::empty()
    } else {
        concat_upto(ss, n - 1) + ss[n - 1]
    }
}

/// The concatenation of a sequence of character sequences.
pub open spec fn concat_views(ss: Seq<Seq<char>>) -> Seq<char> {
    concat_upto(ss, ss.len() as int)
}

/// Concatenates the strings of `src` in order.
pub fn concat_string_from_slice(src: &[String]) -> (r: String)
    ensures
        r@ == concat_views(views(src@)),
{
    let mut dst = String::new();
    let mut i: usize = 0;
    while i < src.len()
        invariant
            i <= src@.len(),
            dst@ == concat_upto(views(src@), i as int),
        decreases src@.len() - i,
    {
        dst.append(src[i].as_str());
        proof {
            assert(dst@ =~= concat_upto(views(src@), i + 1));
        }
        i += 1;
    }
    dst
}

/// The comma-joined names of the selected flags; `started` records whether a
/// name has already been emitted before this suffix.
pub open spec fn sel_join(flags: Seq<(bool, Seq<char>)>, started: bool) -> Seq<char>
    decreases flags.len(),
{
    if flags.len() == 0 {
        Seq::empty()
    } else if flags[0].0 {
        (if started {
            seq![',']
        } else {
            Seq::empty()
        }) + flags[0].1 + sel_join(flags.drop_first(), true)
    } else {
        sel_join(flags.drop_first(), started)
    }
}

/// True when at least one flag of the list is set.
pub open spec fn any_flag(flags: Seq<(bool, Seq<char>)>) -> bool {
    exists|i: int| 0 <= i < flags.len() && flags[i].0
}

/// The compound token built from `base` and the selected suffixes: the
/// suffixes whose flag is set, in declared order, comma-joined inside
/// braces. With no selected suffix the opening brace is dropped and the
/// token degenerates to the base followed by a closing brace.
pub open spec fn variant_expand(base: Seq<char>, flags: Seq<(bool, Seq<char>)>) -> Seq<char> {
    if any_flag(flags) {
        base + seq!['{'] + sel_join(flags, false) + seq!['}']
    } else {
        base + seq!['}']
    }
}

/// Builds `BASE{suffix,...}` from the suffixes whose flag is true, in
/// declared order, comma-joined with no trailing comma.
pub fn ftr_variant_expand(base_name: &str, flag_str: &[(bool, &str)]) -> (r: String)
    ensures
        r@ == variant_expand(base_name@, pair_views(flag_str@)),
{
    let ghost pv = pair_views(flag_str@);
    let mut inner = String::new();
    let mut started = false;
    let mut i: usize = 0;
    proof {
        reveal_strlit(",");
        assert(pv.skip(0) =~= pv);
        assert(inner@ + sel_join(pv, false) =~= sel_join(pv, false));
        assert(pv.take(0) =~= Seq::<(bool, Seq<char>)>::empty());
    }
    while i < flag_str.len()
        invariant
            i <= flag_str@.len(),
            pv == pair_views(flag_str@),
            started == any_flag(pv.take(i as int)),
            sel_join(pv, false) == inner@ + sel_join(pv.skip(i as int), started),
            ","@.len() == 1 && ","@[0] == ',',
        decreases flag_str@.len() - i,
    {
        let (flag, name) = flag_str[i];
        proof {
            assert(pv.skip(i as int).drop_first() =~= pv.skip(i + 1));
            assert(pv.skip(i as int)[0] == (flag, name@));
            assert(pv.take(i + 1) =~= pv.take(i as int).push((flag, name@)));
        }
        if flag {
            if started {
                inner.append(",");
            }
            inner.append(name);
            proof {
                assert(sel_join(pv, false) =~= inner@ + sel_join(pv.skip(i + 1), true));
                assert(pv.take(i + 1)[i as int].0);
            }
            started = true;
        } else {
            proof {
                assert(any_flag(pv.take(i + 1)) == any_flag(pv.take(i as int))) by {
                    if any_flag(pv.take(i as int)) {
                        let j = choose|j: int|
                            0 <= j < pv.take(i as int).len() && (#[trigger] pv.take(i as int)[j]).0;
                        assert(pv.take(i + 1)[j].0);
                    }
                    if any_flag(pv.take(i + 1)) {
                        let j = choose|j: int| 0 <= j < pv.take(i + 1).len() && (#[trigger] pv.take(i + 1)[j]).0;
                        if j < i {
                            assert(pv.take(i as int)[j].0);
                        } else {
                            assert(pv.take(i + 1)[i as int] == (flag, name@));
                        }
                    }
                }
            }
        }
        i += 1;
    }
    proof {
        assert(pv.skip(flag_str@.len() as int) =~= Seq::<(bool, Seq<char>)>::empty());
        assert(pv.take(flag_str@.len() as int) =~= pv);
        assert(inner@ =~= sel_join(pv, false));
    }
    let mut base = base_name.to_owned();
    if started {
        proof {
            reveal_strlit("{");
            reveal_strlit("}");
        }
        base.append("{");
        base.append(inner.as_str());
        base.append("}");
        proof {
            assert(base@ =~= variant_expand(base_name@, pv));
        }
    } else {
        proof {
            reveal_strlit("}");
        }
        base.append("}");
        proof {
            assert(base@ =~= variant_expand(base_name@, pv));
        }
    }
    base
}

/// The left pad that aligns wrapped token lines under the output column:
/// one character more than the two input/output column widths together.
pub open spec fn pad_seq() -> Seq<char> {
    crate::strfmt::repeat_char(' ', 64)
}

/// A line break followed by the wrap pad.
pub open spec fn padln_seq() -> Seq<char> {
    seq!['\n'] + pad_seq()
}

/// One decorated token, `" [token]"`.
pub open spec fn mold_piece(t: Seq<char>) -> Seq<char> {
    seq![' ', '['] + t + seq![']']
}

/// The wrapped rendering of the decorated tokens `ts` with `rest` columns
/// left on the current line: a token whose decorated length fits is
/// appended inline; otherwise it continues on a new, padded line, and a
/// token longer than the whole budget leaves no room on its line.
pub open spec fn mold(ts: Seq<Seq<char>>, rest: nat) -> Seq<char>
    decreases ts.len(),
{
    if ts.len() == 0 {
        Seq::empty()
    } else {
        let len = ts[0].len() + 3;
        if len <= rest {
            mold_piece(ts[0]) + mold(ts.drop_first(), (rest - len) as nat)
        } else if len > PARSE_WIDTH {
            padln_seq() + mold_piece(ts[0]) + mold(ts.drop_first(), 0)
        } else {
            padln_seq() + mold_piece(ts[0]) + mold(ts.drop_first(), (PARSE_WIDTH - len) as nat)
        }
    }
}

/// The wrap pad as a string.
pub fn pad() -> (r: String)
    ensures
        r@ == pad_seq(),
{
    crate::strfmt::spaces(64)
}

/// A line break followed by the wrap pad, as a string.
pub fn padln() -> (r: String)
    ensures
        r@ == padln_seq(),
{
    proof {
        reveal_strlit("\n");
    }
    let mut s = String::new();
    s.append("\n");
    let p = pad();
    s.append(p.as_str());
    proof {
        assert(s@ =~= padln_seq());
    }
    s
}

/// Renders each token of `buff` as a bracketed segment `" [token]"`,
/// wrapping onto padded continuation lines under the column budget.
pub fn align_mold_ftr(buff: &[String]) -> (r: String)
    ensures
        r@ == mold(views(buff@), PARSE_WIDTH as nat),
{
    let ghost ts = views(buff@);
    let mut rest: usize = PARSE_WIDTH;
    let mut mold_str = String::new();
    let nl = padln();
    let mut i: usize = 0;
    proof {
        reveal_strlit(" [");
        reveal_strlit("]");
        assert(ts.skip(0) =~= ts);
        assert(mold_str@ + mold(ts, PARSE_WIDTH as nat) =~= mold(ts, PARSE_WIDTH as nat));
    }
    while i < buff.len()
        invariant
            i <= buff@.len(),
            ts == views(buff@),
            nl@ == padln_seq(),
            " ["@ == seq![' ', '['],
            "]"@ == seq![']'],
            mold(ts, PARSE_WIDTH as nat) == mold_str@ + mold(ts.skip(i as int), rest as nat),
        decreases buff@.len() - i,
    {
        let v = &buff[i];
        let ul = v.as_str().unicode_len();
        let ghost len = v@.len() + 3;
        proof {
            assert(ts.skip(i as int).drop_first() =~= ts.skip(i + 1));
            assert(ts.skip(i as int)[0] == v@);
        }
        if 3 <= rest && ul <= rest - 3 {
            mold_str.append(" [");
            mold_str.append(v.as_str());
            mold_str.append("]");
            rest = rest - 3 - ul;
            proof {
                assert(mold_str@ + mold(ts.skip(i + 1), rest as nat) =~= mold(
                    ts,
                    PARSE_WIDTH as nat,
                ));
            }
        } else {
            mold_str.append(nl.as_str());
            mold_str.append(" [");
            mold_str.append(v.as_str());
            mold_str.append("]");
            if ul > PARSE_WIDTH - 3 {
                rest = 0;
            } else {
                rest = PARSE_WIDTH - 3 - ul;
            }
            proof {
                assert(mold_str@ + mold(ts.skip(i + 1), rest as nat) =~= mold(
                    ts,
                    PARSE_WIDTH as nat,
                ));
            }
        }
        i += 1;
    }
    proof {
        assert(ts.skip(buff@.len() as int) =~= Seq::<Seq<char>>::empty());
        assert(mold_str@ =~= mold(ts, PARSE_WIDTH as nat));
    }
    mold_str
}

/// The characters standing for a sequence of bytes, one character per byte.
pub open spec fn chars_of_bytes(bs: Seq<u8>) -> Seq<char> {
    bs.map_values(|b: u8| b as char)
}

/// The four bytes of `v`, least significant first.
pub open spec fn le_bytes(v: u32) -> Seq<u8> {
    seq![
        (v & 0xFF) as u8,
        ((v >> 8) & 0xFF) as u8,
        ((v >> 16) & 0xFF) as u8,
        ((v >> 24) & 0xFF) as u8,
    ]
}

/// A control byte prints as a space; all others stand for themselves.
pub open spec fn printable_byte(b: u8) -> u8 {
    if b <= 0x1F {
        0x20
    } else {
        b
    }
}

/// The sixteen name-string bytes of one register quartet: the bytes of
/// eax, ebx, ecx, edx in little-endian order, control bytes as spaces.
pub open spec fn name_bytes(c: CpuidResult) -> Seq<u8> {
    (le_bytes(c.eax) + le_bytes(c.ebx) + le_bytes(c.ecx) + le_bytes(c.edx)).map_values(
        |b: u8| printable_byte(b),
    )
}

/// Relies on `String::from_utf8`: a vector of bytes below 0x80 is valid
/// UTF-8 and decodes to the string whose characters are those bytes.
#[verifier::external_body]
pub(crate) fn ascii_bytes_to_string(v: Vec<u8>) -> (r: String)
    requires
        forall|i: int| 0 <= i < v@.len() ==> v@[i] < 0x80,
    ensures
        r@.len() == v@.len(),
        forall|i: int| 0 <= i < v@.len() ==> r@[i] == v@[i] as char,
{
    match String::from_utf8(v) {
        Ok(s) => s,
        Err(_) => String::new(),
    }
}

/// Appends the four bytes of `v`, least significant first, to `out`,
/// replacing control bytes by spaces.
pub(crate) fn push_printable_le_bytes(out: &mut Vec<u8>, v: u32)
    ensures
        final(out)@ == old(out)@ + le_bytes(v).map_values(|b: u8| printable_byte(b)),
{
    let mut k: u32 = 0;
    while k < 4
        invariant
            k <= 4,
            out@ == old(out)@ + le_bytes(v).map_values(|b: u8| printable_byte(b)).take(k as int),
        decreases 4 - k,
    {
        let sh = 8 * k;
        let masked = (v >> sh) & 0xFF;
        proof {
            assert(masked < 256 && masked == (if k == 0 {
                v & 0xFF
            } else if k == 1 {
                (v >> 8u32) & 0xFF
            } else if k == 2 {
                (v >> 16u32) & 0xFF
            } else {
                (v >> 24u32) & 0xFF
            })) by (bit_vector)
                requires
                    k < 4,
                    sh == 8 * k,
                    masked == (v >> sh) & 0xFF,
            ;
        }
        let byte = masked as u8;
        let mapped: u8 = if byte <= 0x1F {
            0x20
        } else {
            byte
        };
        out.push(mapped);
        proof {
            let m = le_bytes(v).map_values(|b: u8| printable_byte(b));
            assert(le_bytes(v)[k as int] == byte);
            assert(m.take(k + 1) =~= m.take(k as int).push(mapped));
            assert(out@ =~= old(out)@ + m.take(k + 1));
        }
        k += 1;
    }
    proof {
        let m = le_bytes(v).map_values(|b: u8| printable_byte(b));
        assert(m.take(4) =~= m);
    }
}

/// The sixteen-character name string carried in one register quartet, as
/// used by the processor-name leaves: the bytes of the four registers in
/// little-endian order, control bytes replaced by spaces.
pub fn cpu_name(cpuid: &CpuidResult) -> (r: String)
    requires
        forall|i: int| 0 <= i < 16 ==> name_bytes(*cpuid)[i] < 0x80,
    ensures
        r@.len() == 16,
        forall|i: int| 0 <= i < 16 ==> r@[i] == name_bytes(*cpuid)[i] as char,
{
    let mut name: Vec<u8> = Vec::new();
    push_printable_le_bytes(&mut name, cpuid.eax);
    push_printable_le_bytes(&mut name, cpuid.ebx);
    push_printable_le_bytes(&mut name, cpuid.ecx);
    push_printable_le_bytes(&mut name, cpuid.edx);
    proof {
        assert(name@ =~= name_bytes(*cpuid));
    }
    ascii_bytes_to_string(name)
}

} // verus!
