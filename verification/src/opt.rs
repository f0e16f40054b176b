//! The resolved run configuration: output style, processor selection,
//! filtering and diffing switches, and the verified pieces each run needs —
//! numeric argument parsing, the per-style headers and the rendering of a
//! sample pool into bytes.

use vstd::prelude::*;

use crate::pool::kept_pool;
use crate::pool::filter_pool;
use crate::raw_cpuid::compat_fmt_chars;
use crate::raw_cpuid::bin_fmt_chars;
use crate::raw_cpuid::parse_fmt_chars;
use crate::raw_cpuid::parse_ok;
use crate::raw_cpuid::raw_fmt_chars;
use crate::raw_cpuid::CpuVendor;
use crate::raw_cpuid::RawCpuid;
use crate::strfmt::dec3;
use crate::strfmt::dec_digits;
use crate::strfmt::lemma_encode_utf8_add;
use crate::strfmt::push_dec;
use crate::strfmt::push_dec3;
use crate::strfmt::push_repeat;
use crate::strfmt::repeat_char;
use vstd::utf8::encode_utf8;

verus! {

/// The four output encodings.
#[derive(Clone, Copy, Debug, PartialEq, Eq, Structural)]
pub enum DumpFormat {
    Raw,
    Binary,
    Parse,
    CompatCpuid,
}

/// The topology identifiers of one logical processor, as read from the
/// topology leaves by the caller.
#[derive(Clone, Copy, Debug, PartialEq, Eq, Structural)]
pub struct TopoInfo {
    pub pkg_id: u32,
    pub core_id: u32,
    pub smt_id: u32,
    pub x2apic_id: u32,
}

/// The resolved run configuration.
#[derive(Clone, Debug)]
pub struct MainOpt {
    pub fmt: DumpFormat,
    pub dump_all: bool,
    pub save_path: Option<String>,
    pub leaf: Option<(u32, u32)>,
    pub skip_zero: bool,
    pub diff: bool,
}

/// The characters with the underscore digit separators removed.
pub open spec fn strip_separators(s: Seq<char>) -> Seq<char> {
    s.filter(|c: char| c != '_')
}

/// True when `c` is a decimal digit.
pub open spec fn is_dec_digit(c: char) -> bool {
    '0' <= c && c <= '9'
}

/// True when `c` is a digit of the given radix (ten or sixteen).
pub open spec fn is_radix_digit(c: char, radix: nat) -> bool {
    if radix == 16 {
        is_dec_digit(c) || ('a' <= c && c <= 'f') || ('A' <= c && c <= 'F')
    } else {
        is_dec_digit(c)
    }
}

/// The numeric value of one digit character.
pub open spec fn digit_val(c: char) -> nat {
    if is_dec_digit(c) {
        (c as u32 - '0' as u32) as nat
    } else if 'a' <= c && c <= 'f' {
        (c as u32 - 'a' as u32 + 10) as nat
    } else {
        (c as u32 - 'A' as u32 + 10) as nat
    }
}

/// True when every character of `s` is a digit of the radix.
pub open spec fn all_radix_digits(s: Seq<char>, radix: nat) -> bool {
    forall|i: int| 0 <= i < s.len() ==> is_radix_digit(#[trigger] s[i], radix)
}

/// The unbounded value of a digit string in the given radix.
pub open spec fn digits_value(s: Seq<char>, radix: nat) -> nat
    decreases s.len(),
{
    if s.len() == 0 {
        0
    } else {
        digits_value(s.drop_last(), radix) * radix + digit_val(s.last())
    }
}

/// The digit string with one optional leading plus sign removed.
pub open spec fn strip_plus(s: Seq<char>) -> Seq<char> {
    if s.len() > 0 && s[0] == '+' {
        s.drop_first()
    } else {
        s
    }
}

/// The parse of one digit body: its value, when it is non-empty, all its
/// characters are digits of the radix and the value fits in 32 bits.
pub open spec fn parse_digits(s: Seq<char>, radix: nat) -> Option<u32> {
    let b = strip_plus(s);
    if b.len() > 0 && all_radix_digits(b, radix) && digits_value(b, radix) <= 0xFFFFFFFF {
        Some(digits_value(b, radix) as u32)
    } else {
        None
    }
}

/// The parse of one numeric argument: underscore separators are dropped,
/// a `0x` prefix selects hexadecimal, anything else is decimal; malformed
/// or out-of-range input yields nothing.
pub open spec fn parse_value_spec(s: Seq<char>) -> Option<u32> {
    let t = strip_separators(s);
    if t.len() >= 2 && t[0] == '0' && t[1] == 'x' {
        parse_digits(t.skip(2), 16)
    } else {
        parse_digits(t, 10)
    }
}

/// Parses the body of a numeral from `chars[start..]` in the given radix.
fn parse_digit_body(chars: &Vec<char>, start: usize, radix: u32) -> (r: Option<u32>)
    requires
        start <= chars@.len(),
        radix == 10 || radix == 16,
    ensures
        r == parse_digits(chars@.skip(start as int), radix as nat),
{
    let ghost whole = chars@.skip(start as int);
    let mut from = start;
    if from < chars.len() && chars[from] == '+' {
        from += 1;
    }
    let ghost body = strip_plus(whole);
    proof {
        assert(body =~= chars@.skip(from as int));
    }
    if from == chars.len() {
        return None;
    }
    let mut value: u64 = 0;
    let mut over = false;
    let mut i = from;
    while i < chars.len()
        invariant
            from <= i <= chars@.len(),
            radix == 10 || radix == 16,
            start <= chars@.len(),
            body == chars@.skip(from as int),
            body == strip_plus(chars@.skip(start as int)),
            all_radix_digits(body.take(i - from), radix as nat),
            !over ==> value == digits_value(body.take(i - from), radix as nat) && value
                <= 0xFFFFFFFF,
            over ==> digits_value(body.take(i - from), radix as nat) > 0xFFFFFFFF,
        decreases chars@.len() - i,
    {
        let c = chars[i];
        let dopt: Option<u32> = if c >= '0' && c <= '9' {
            Some(c as u32 - '0' as u32)
        } else if radix == 16 && c >= 'a' && c <= 'f' {
            Some(c as u32 - 'a' as u32 + 10)
        } else if radix == 16 && c >= 'A' && c <= 'F' {
            Some(c as u32 - 'A' as u32 + 10)
        } else {
            None
        };
        let d: u32 = match dopt {
            Some(d) => d,
            None => {
                proof {
                    assert(body[i - from] == c);
                    assert(!is_radix_digit(c, radix as nat));
                    assert(!all_radix_digits(body, radix as nat));
                }
                return None;
            },
        };
        proof {
            assert(body.take(i - from + 1).drop_last() =~= body.take(i - from));
            assert(body.take(i - from + 1).last() == c);
            assert(is_radix_digit(c, radix as nat) && digit_val(c) == d);
            assert(all_radix_digits(body.take(i - from + 1), radix as nat));
        }
        if !over {
            let next = value * (radix as u64) + (d as u64);
            if next > 0xFFFFFFFF {
                over = true;
            } else {
                value = next;
            }
            proof {
                assert(digits_value(body.take(i - from + 1), radix as nat) == digits_value(
                    body.take(i - from),
                    radix as nat,
                ) * (radix as nat) + d);
            }
        } else {
            proof {
                let prev = digits_value(body.take(i - from), radix as nat);
                assert(digits_value(body.take(i - from + 1), radix as nat) == prev * (
                radix as nat) + d);
                assert(prev * (radix as nat) >= prev * 10) by (nonlinear_arith)
                    requires
                        radix == 10 || radix == 16,
                        prev >= 0,
                ;
                assert(prev * 10 > 0xFFFFFFFF) by (nonlinear_arith)
                    requires
                        prev > 0xFFFFFFFF,
                ;
            }
        }
        i += 1;
    }
    proof {
        assert(body.take(i - from) =~= body);
    }
    if over {
        None
    } else {
        Some(value as u32)
    }
}

/// Parses one numeric command-line value: decimal, or hexadecimal with a
/// `0x` prefix, with optional underscore digit separators. Malformed or
/// out-of-range input yields nothing; the caller decides whether that is
/// fatal.
fn parse_value_str(raw_value: &str) -> (r: Option<u32>)
    ensures
        r == parse_value_spec(raw_value@),
{
    let n = raw_value.unicode_len();
    let mut chars: Vec<char> = Vec::new();
    let mut i: usize = 0;
    proof {
        reveal(Seq::filter);
        assert(chars@ =~= strip_separators(raw_value@.take(0)));
    }
    while i < n
        invariant
            i <= n == raw_value@.len(),
            chars@ == strip_separators(raw_value@.take(i as int)),
        decreases n - i,
    {
        let c = raw_value.get_char(i);
        if c != '_' {
            chars.push(c);
        }
        proof {
            reveal(Seq::filter);
            assert(raw_value@.take(i + 1).drop_last() =~= raw_value@.take(i as int));
            assert(raw_value@.take(i + 1).last() == c);
            assert(chars@ =~= strip_separators(raw_value@.take(i + 1)));
        }
        i += 1;
    }
    proof {
        assert(raw_value@.take(raw_value@.len() as int) =~= raw_value@);
    }
    if chars.len() >= 2 && chars[0] == '0' && chars[1] == 'x' {
        parse_digit_body(&chars, 2, 16)
    } else {
        proof {
            assert(chars@.skip(0) =~= chars@);
        }
        parse_digit_body(&chars, 0, 10)
    }
}

/// The fixed header over the leaf/sub-leaf input column.
pub open spec fn leaf_head_chars() -> Seq<char> {
    "       [Leaf.Sub]"@
}

/// The header of the raw and parsed encodings: the column labels and a
/// full-width separator line.
pub open spec fn hex_head_chars() -> Seq<char> {
    leaf_head_chars() + "    [EAX]      [EBX]      [ECX]      [EDX]   \n"@ + repeat_char('=', 100)
        + "\n"@
}

/// The header of the binary encoding: the two register-pair column labels
/// and their separator lines.
pub open spec fn bin_head_chars() -> Seq<char> {
    leaf_head_chars() + "  "@ + repeat_char(' ', 11) + " [EAX / ECX] "@ + repeat_char(' ', 11)
        + " "@ + repeat_char(' ', 11) + "  [EBX / EDX]\n"@ + repeat_char('=', 17) + "  "@
        + repeat_char('=', 35) + "  "@ + repeat_char('=', 35) + "\n"@
}

/// Renders the header of the raw and parsed encodings.
pub fn hex_head() -> (r: String)
    ensures
        r@ == hex_head_chars(),
{
    let mut s = String::new();
    s.append("       [Leaf.Sub]");
    s.append("    [EAX]      [EBX]      [ECX]      [EDX]   \n");
    proof {
        reveal_strlit("=");
    }
    push_repeat(&mut s, "=", 100);
    s.append("\n");
    proof {
        assert(s@ =~= hex_head_chars());
    }
    s
}

/// Renders the header of the binary encoding.
pub fn bin_head() -> (r: String)
    ensures
        r@ == bin_head_chars(),
{
    let mut s = String::new();
    s.append("       [Leaf.Sub]");
    s.append("  ");
    proof {
        reveal_strlit(" ");
        reveal_strlit("=");
    }
    push_repeat(&mut s, " ", 11);
    s.append(" [EAX / ECX] ");
    push_repeat(&mut s, " ", 11);
    s.append(" ");
    push_repeat(&mut s, " ", 11);
    s.append("  [EBX / EDX]\n");
    push_repeat(&mut s, "=", 17);
    s.append("  ");
    push_repeat(&mut s, "=", 35);
    s.append("  ");
    push_repeat(&mut s, "=", 35);
    s.append("\n");
    proof {
        assert(s@ =~= bin_head_chars());
    }
    s
}

/// The topology header of one processor, without a thread id: its package,
/// core, SMT and x2APIC identifiers, or nothing when the topology is
/// unknown.
pub open spec fn topo_head_chars(topo: Option<TopoInfo>) -> Seq<char> {
    match topo {
        Some(t) => "[Pkg: "@ + dec3(t.pkg_id as nat) + ", Core: "@ + dec3(t.core_id as nat)
            + ", SMT: "@ + dec3(t.smt_id as nat) + ", x2APIC: "@ + dec3(t.x2apic_id as nat)
            + "]\n"@,
        None => Seq::empty(),
    }
}

/// The topology header of one processor with its thread id appended, or a
/// bare thread header when the topology is unknown.
pub open spec fn topo_thread_head_chars(thread_id: usize, topo: Option<TopoInfo>) -> Seq<char> {
    match topo {
        Some(t) => "[Pkg: "@ + dec3(t.pkg_id as nat) + ", Core: "@ + dec3(t.core_id as nat)
            + ", SMT: "@ + dec3(t.smt_id as nat) + ", x2APIC: "@ + dec3(t.x2apic_id as nat)
            + ", Thread: "@ + dec3(thread_id as nat) + "]\n"@,
        None => "[Thread: "@ + dec3(thread_id as nat) + "]\n"@,
    }
}

/// Renders the topology header of one processor; an unknown topology
/// yields an empty header.
pub fn topo_info_head(topo: Option<&TopoInfo>) -> (r: String)
    ensures
        r@ == topo_head_chars(match topo {
            Some(t) => Some(*t),
            None => None,
        }),
{
    match topo {
        Some(t) => {
            let mut s = String::new();
            s.append("[Pkg: ");
            push_dec3(&mut s, t.pkg_id as u64);
            s.append(", Core: ");
            push_dec3(&mut s, t.core_id as u64);
            s.append(", SMT: ");
            push_dec3(&mut s, t.smt_id as u64);
            s.append(", x2APIC: ");
            push_dec3(&mut s, t.x2apic_id as u64);
            s.append("]\n");
            proof {
                assert(s@ =~= topo_head_chars(Some(*t)));
            }
            s
        },
        None => String::new(),
    }
}

/// Renders the topology header of one processor with its thread id; an
/// unknown topology yields the bare thread header.
pub fn topo_info_thread_id_head(thread_id: usize, topo: Option<&TopoInfo>) -> (r: String)
    ensures
        r@ == topo_thread_head_chars(thread_id, match topo {
            Some(t) => Some(*t),
            None => None,
        }),
{
    match topo {
        Some(t) => {
            let mut s = String::new();
            s.append("[Pkg: ");
            push_dec3(&mut s, t.pkg_id as u64);
            s.append(", Core: ");
            push_dec3(&mut s, t.core_id as u64);
            s.append(", SMT: ");
            push_dec3(&mut s, t.smt_id as u64);
            s.append(", x2APIC: ");
            push_dec3(&mut s, t.x2apic_id as u64);
            s.append(", Thread: ");
            push_dec3(&mut s, thread_id as u64);
            s.append("]\n");
            proof {
                assert(s@ =~= topo_thread_head_chars(thread_id, Some(*t)));
            }
            s
        },
        None => {
            let mut s = String::new();
            s.append("[Thread: ");
            push_dec3(&mut s, thread_id as u64);
            s.append("]\n");
            proof {
                assert(s@ =~= topo_thread_head_chars(thread_id, None::<TopoInfo>));
            }
            s
        },
    }
}

/// The text of one entry in the given encoding.
pub open spec fn fmt_entry_chars(fmt: DumpFormat, rc: RawCpuid, vendor: CpuVendor) -> Seq<char> {
    match fmt {
        DumpFormat::Raw => raw_fmt_chars(rc),
        DumpFormat::Binary => bin_fmt_chars(rc),
        DumpFormat::Parse => parse_fmt_chars(rc, vendor),
        DumpFormat::CompatCpuid => compat_fmt_chars(rc),
    }
}

/// The text of the first `n` entries of a pool, concatenated.
pub open spec fn pool_chars_upto(
    fmt: DumpFormat,
    pool: Seq<RawCpuid>,
    vendor: CpuVendor,
    n: int,
) -> Seq<char>
    decreases n,
{
    if n <= 0 {
        Seq::empty()
    } else {
        pool_chars_upto(fmt, pool, vendor, n - 1) + fmt_entry_chars(fmt, pool[n - 1], vendor)
    }
}

/// The text of a whole pool in the given encoding.
pub open spec fn pool_chars(fmt: DumpFormat, pool: Seq<RawCpuid>, vendor: CpuVendor) -> Seq<
    char,
> {
    pool_chars_upto(fmt, pool, vendor, pool.len() as int)
}

/// True when every entry of the pool can be rendered in the given
/// encoding: the parsed encoding asks that the vendor leaf carry no bytes
/// this library rejects.
pub open spec fn pool_fmt_ok(fmt: DumpFormat, pool: Seq<RawCpuid>) -> bool {
    fmt == DumpFormat::Parse ==> forall|i: int| 0 <= i < pool.len() ==> parse_ok(#[trigger] pool[i])
}

impl MainOpt {
    /// The default configuration: parsed output for the current processor
    /// only, zero-skip and diffing enabled, no save path and no leaf
    /// restriction.
    pub fn init() -> (r: Self)
        ensures
            r.fmt == DumpFormat::Parse,
            !r.dump_all,
            r.save_path is None,
            r.leaf is None,
            r.skip_zero,
            r.diff,
    {
        MainOpt {
            fmt: DumpFormat::Parse,
            dump_all: false,
            save_path: None,
            leaf: None,
            skip_zero: true,
            diff: true,
        }
    }

    /// Parses one numeric command-line value: decimal, or hexadecimal
    /// with a `0x` prefix, with optional underscore digit separators.
    /// Malformed or out-of-range input yields nothing; the caller decides
    /// whether that is fatal.
    pub fn parse_value(raw_value: &str) -> (r: Option<u32>)
        ensures
            r == parse_value_spec(raw_value@),
    {
        parse_value_str(raw_value)
    }

    /// The per-processor header of this configuration: the compatibility
    /// encoding uses its own plain `CPU n:` header, every other encoding
    /// the topology header.
    pub fn thread_id_head(&self, thread_id: usize, topo: Option<&TopoInfo>) -> (r: String)
        ensures
            r@ == (if self.fmt == DumpFormat::CompatCpuid {
                "CPU "@ + dec_digits(thread_id as nat) + ":\n"@
            } else {
                topo_thread_head_chars(thread_id, match topo {
                    Some(t) => Some(*t),
                    None => None,
                })
            }),
    {
        match self.fmt {
            DumpFormat::CompatCpuid => {
                let mut s = String::new();
                s.append("CPU ");
                push_dec(&mut s, thread_id as u64);
                s.append(":\n");
                proof {
                    assert(s@ =~= "CPU "@ + dec_digits(thread_id as nat) + ":\n"@);
                }
                s
            },
            _ => topo_info_thread_id_head(thread_id, topo),
        }
    }

    /// The column header of this configuration's encoding: the binary
    /// header, nothing for the compatibility encoding, and the hex header
    /// otherwise.
    pub fn head_fmt(&self) -> (r: String)
        ensures
            r@ == (match self.fmt {
                DumpFormat::Binary => bin_head_chars(),
                DumpFormat::CompatCpuid => Seq::<char>::empty(),
                _ => hex_head_chars(),
            }),
    {
        match self.fmt {
            DumpFormat::Binary => bin_head(),
            DumpFormat::CompatCpuid => String::new(),
            _ => hex_head(),
        }
    }

    /// Applies this configuration's zero-skip filtering to one probed
    /// sweep: an all-zero entry is dropped exactly when zero-skip is on.
    pub fn rawcpuid_pool(&self, probed: Vec<RawCpuid>) -> (r: Vec<RawCpuid>)
        ensures
            r@ == kept_pool(self.skip_zero, probed@),
    {
        filter_pool(self.skip_zero, probed)
    }

    /// Renders a pool of entries into bytes, one entry after the other, in
    /// this configuration's encoding.
    pub fn select_pool(&self, rawcpuid_pool: &Vec<RawCpuid>, vendor: &CpuVendor) -> (r: Vec<u8>)
        requires
            pool_fmt_ok(self.fmt, rawcpuid_pool@),
        ensures
            r@ == encode_utf8(pool_chars(self.fmt, rawcpuid_pool@, *vendor)),
    {
        let mut out: Vec<u8> = Vec::new();
        let mut i: usize = 0;
        proof {
            assert(out@ =~= encode_utf8(pool_chars_upto(self.fmt, rawcpuid_pool@, *vendor, 0)));
        }
        while i < rawcpuid_pool.len()
            invariant
                i <= rawcpuid_pool@.len(),
                pool_fmt_ok(self.fmt, rawcpuid_pool@),
                out@ == encode_utf8(pool_chars_upto(self.fmt, rawcpuid_pool@, *vendor, i as int)),
            decreases rawcpuid_pool@.len() - i,
        {
            let rc = &rawcpuid_pool[i];
            let s = match self.fmt {
                DumpFormat::Raw => rc.raw_fmt(),
                DumpFormat::Binary => rc.bin_fmt(),
                DumpFormat::Parse => rc.parse_fmt(vendor),
                DumpFormat::CompatCpuid => rc.compat_fmt(),
            };
            let mut bytes = s.as_str().as_bytes_vec();
            out.append(&mut bytes);
            proof {
                lemma_encode_utf8_add(
                    pool_chars_upto(self.fmt, rawcpuid_pool@, *vendor, i as int),
                    fmt_entry_chars(self.fmt, rawcpuid_pool@[i as int], *vendor),
                );
                assert(out@ =~= encode_utf8(
                    pool_chars_upto(self.fmt, rawcpuid_pool@, *vendor, i + 1),
                ));
            }
            i += 1;
        }
        out
    }

    /// Renders one processor's block: the given header text followed by
    /// the rendered pool.
    pub fn dump_block(&self, head: &str, pool: &Vec<RawCpuid>, vendor: &CpuVendor) -> (r: Vec<
        u8,
    >)
        requires
            pool_fmt_ok(self.fmt, pool@),
        ensures
            r@ == encode_utf8(head@ + pool_chars(self.fmt, pool@, *vendor)),
    {
        let mut out = head.as_bytes_vec();
        let mut rest = self.select_pool(pool, vendor);
        out.append(&mut rest);
        proof {
            lemma_encode_utf8_add(head@, pool_chars(self.fmt, pool@, *vendor));
        }
        out
    }
}

} // verus!
