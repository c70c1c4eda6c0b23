//! Debug renderings of requests and replies, in the layout `{:#?}` prints:
//! the type's name, then one indented `name: value,` line per field.

use vstd::prelude::*;
use vstd::string::StringSliceAdditionalSpecFns;

use crate::ascii::{
    is_ascii_bytes,
    lemma_dec_ascii,
    lemma_dec_padded_ascii,
    lemma_hex_ascii,
    lemma_oct_ascii,
    push_dec,
    push_dec_padded,
    push_hex,
    push_oct,
    spec_dec,
    spec_dec_padded,
    spec_hex,
    spec_oct,
};
use crate::text::string_from_ascii;
use crate::file_mode::FileMode;
use crate::lock::LockOwner;
use crate::time::UnixTime;
use crate::wire::push_bytes;

verus! {

broadcast use vstd::string::is_ascii_spec_bytes;

// Text {{{

/// The ASCII bytes of `s`.
pub open spec fn ascii_of(s: Seq<char>) -> Seq<u8> {
    s.map_values(|c: char| c as u8)
}

/// The characters of ASCII bytes.
pub open spec fn to_chars(s: Seq<u8>) -> Seq<char> {
    s.map_values(|b: u8| b as char)
}

/// The bytes of an ASCII string.
pub fn ascii_bytes(s: &str) -> (r: &[u8])
    requires
        vstd::string::is_ascii(s),
    ensures
        r@ == ascii_of(s@),
        is_ascii_bytes(r@),
{
    let b = s.as_bytes();
    proof {
        assert(b@ =~= ascii_of(s@));
    }
    b
}

// }}}

// Structs {{{

/// One field line: four spaces, the name, `: `, the value, `,` and a
/// newline.
pub open spec fn spec_field_line(name: Seq<u8>, value: Seq<u8>) -> Seq<u8> {
    seq![32u8, 32u8, 32u8, 32u8] + name + seq![58u8, 32u8] + value + seq![44u8, 10u8]
}

/// The field lines of `fields`, in order.
pub open spec fn spec_fields_text(fields: Seq<(Seq<u8>, Seq<u8>)>) -> Seq<u8>
    decreases fields.len(),
{
    if fields.len() == 0 {
        Seq::empty()
    } else {
        spec_fields_text(fields.drop_last()) + spec_field_line(fields.last().0, fields.last().1)
    }
}

/// A struct named `name` with `fields`: the bare name when there are none,
/// else the name, ` {`, the field lines and `}`.
pub open spec fn spec_debug_struct(name: Seq<u8>, fields: Seq<(Seq<u8>, Seq<u8>)>) -> Seq<u8> {
    if fields.len() == 0 {
        name
    } else {
        name + seq![32u8, 123u8, 10u8] + spec_fields_text(fields) + seq![125u8]
    }
}

/// Builds the rendering of a struct, field by field.
pub struct DebugStruct {
    out: Vec<u8>,
    has_fields: bool,
    name: Ghost<Seq<u8>>,
    fields: Ghost<Seq<(Seq<u8>, Seq<u8>)>>,
}

impl DebugStruct {
    #[verifier::type_invariant]
    spec fn inv(self) -> bool {
        &&& is_ascii_bytes(self.out@)
        &&& self.has_fields == (self.fields@.len() > 0)
        &&& self.out@ == if self.fields@.len() == 0 {
            self.name@
        } else {
            self.name@ + seq![32u8, 123u8, 10u8] + spec_fields_text(self.fields@)
        }
    }

    /// The name of the struct.
    pub closed spec fn spec_name(self) -> Seq<u8> {
        self.name@
    }

    /// The fields written so far.
    pub closed spec fn spec_fields(self) -> Seq<(Seq<u8>, Seq<u8>)> {
        self.fields@
    }

    /// Starts the rendering of a struct named `name`.
    pub fn new(name: &str) -> (r: DebugStruct)
        requires
            vstd::string::is_ascii(name),
        ensures
            r.spec_name() == ascii_of(name@),
            r.spec_fields() == Seq::<(Seq<u8>, Seq<u8>)>::empty(),
    {
        let mut out: Vec<u8> = Vec::new();
        push_bytes(&mut out, ascii_bytes(name));
        DebugStruct { out, has_fields: false, name: Ghost(ascii_of(name@)), fields: Ghost(Seq::empty()) }
    }

    /// Adds the field `name` rendered as `value`.
    pub fn field(self, name: &str, value: &[u8]) -> (r: DebugStruct)
        requires
            vstd::string::is_ascii(name),
            is_ascii_bytes(value@),
        ensures
            r.spec_name() == self.spec_name(),
            r.spec_fields() == self.spec_fields().push((ascii_of(name@), value@)),
    {
        proof {
            use_type_invariant(&self);
        }
        let DebugStruct { out, has_fields, name: struct_name, fields } = self;
        let mut out = out;
        if !has_fields {
            out.push(32u8);
            out.push(123u8);
            out.push(10u8);
        }
        out.push(32u8);
        out.push(32u8);
        out.push(32u8);
        out.push(32u8);
        push_bytes(&mut out, ascii_bytes(name));
        out.push(58u8);
        out.push(32u8);
        push_bytes(&mut out, value);
        out.push(44u8);
        out.push(10u8);
        let ghost next = fields@.push((ascii_of(name@), value@));
        proof {
            assert(next.drop_last() =~= fields@);
            assert(spec_fields_text(next) == spec_fields_text(fields@) + spec_field_line(
                ascii_of(name@),
                value@,
            ));
            if fields@.len() == 0 {
                assert(spec_fields_text(fields@) =~= Seq::<u8>::empty());
            }
            assert(out@ =~= struct_name@ + seq![32u8, 123u8, 10u8] + spec_fields_text(next));
        }
        DebugStruct { out, has_fields: true, name: struct_name, fields: Ghost(next) }
    }

    /// The rendering of the struct.
    pub fn finish(self) -> (r: String)
        ensures
            r@ == to_chars(spec_debug_struct(self.spec_name(), self.spec_fields())),
    {
        proof {
            use_type_invariant(&self);
        }
        let DebugStruct { out, has_fields, name: struct_name, fields } = self;
        let mut out = out;
        if has_fields {
            out.push(125u8);
        }
        proof {
            assert(out@ =~= spec_debug_struct(struct_name@, fields@));
            assert(is_ascii_bytes(out@));
        }
        string_from_ascii(out)
    }
}

// }}}

// Values {{{

/// `0x` then `width` upper-case hexadecimal digits.
pub open spec fn spec_hex_text(n: nat, width: nat) -> Seq<u8> {
    seq![48u8, 120u8] + spec_hex(n, width, true)
}

/// `Some(` the value `)`.
pub open spec fn spec_some_text(inner: Seq<u8>) -> Seq<u8> {
    seq![83u8, 111u8, 109u8, 101u8, 40u8] + inner + seq![41u8]
}

/// `None`.
pub open spec fn spec_none_text() -> Seq<u8> {
    seq![78u8, 111u8, 110u8, 101u8]
}

/// `true` or `false`.
pub open spec fn spec_bool_text(b: bool) -> Seq<u8> {
    if b {
        seq![116u8, 114u8, 117u8, 101u8]
    } else {
        seq![102u8, 97u8, 108u8, 115u8, 101u8]
    }
}

/// A signed number in decimal.
pub open spec fn spec_signed_text(n: int) -> Seq<u8> {
    if n < 0 {
        seq![45u8] + spec_dec((-n) as nat)
    } else {
        spec_dec(n as nat)
    }
}

/// `UnixTime(` seconds `.` nine digits of nanoseconds `)`.
pub open spec fn spec_unix_time_text(seconds: i64, nanos: u32) -> Seq<u8> {
    seq![85u8, 110u8, 105u8, 120u8, 84u8, 105u8, 109u8, 101u8, 40u8] + spec_signed_text(seconds as int)
        + seq![46u8] + spec_dec_padded(nanos as nat, 9) + seq![41u8]
}

/// The escape of one byte, as `core::ascii::escape_default` gives it.
pub open spec fn spec_escape_byte(b: u8) -> Seq<u8> {
    if b == 9 {
        seq![92u8, 116u8]
    } else if b == 13 {
        seq![92u8, 114u8]
    } else if b == 10 {
        seq![92u8, 110u8]
    } else if b == 92 {
        seq![92u8, 92u8]
    } else if b == 39 {
        seq![92u8, 39u8]
    } else if b == 34 {
        seq![92u8, 34u8]
    } else if 32 <= b < 127 {
        seq![b]
    } else {
        seq![92u8, 120u8] + spec_hex(b as nat, 2, false)
    }
}

/// The escapes of `s`, in order.
pub open spec fn spec_escape(s: Seq<u8>) -> Seq<u8>
    decreases s.len(),
{
    if s.len() == 0 {
        Seq::empty()
    } else {
        spec_escape(s.drop_last()) + spec_escape_byte(s.last())
    }
}

/// Bytes shown as a quoted string, escaped.
pub open spec fn spec_quoted_text(s: Seq<u8>) -> Seq<u8> {
    seq![34u8] + spec_escape(s) + seq![34u8]
}

/// Renders `n` in decimal.
pub fn dec_text(n: u64) -> (r: Vec<u8>)
    ensures
        r@ == spec_dec(n as nat),
        is_ascii_bytes(r@),
{
    let mut out: Vec<u8> = Vec::new();
    push_dec(&mut out, n);
    proof {
        lemma_dec_ascii(n as nat);
        assert(out@ =~= spec_dec(n as nat));
    }
    out
}

/// Renders `n` as `0x` and `width` upper-case hexadecimal digits.
pub fn hex_text(n: u64, width: u32) -> (r: Vec<u8>)
    ensures
        r@ == spec_hex_text(n as nat, width as nat),
        is_ascii_bytes(r@),
{
    let mut out: Vec<u8> = Vec::new();
    out.push(48u8);
    out.push(120u8);
    push_hex(&mut out, n, width, true);
    proof {
        lemma_hex_ascii(n as nat, width as nat, true);
        assert(out@ =~= spec_hex_text(n as nat, width as nat));
    }
    out
}

/// Renders `n` as `0o` and octal digits.
pub fn octal_text(n: u64) -> (r: Vec<u8>)
    ensures
        r@ == seq![48u8, 111u8] + spec_oct(n as nat),
        is_ascii_bytes(r@),
{
    let mut out: Vec<u8> = Vec::new();
    out.push(48u8);
    out.push(111u8);
    push_oct(&mut out, n);
    proof {
        lemma_oct_ascii(n as nat);
        assert(out@ =~= seq![48u8, 111u8] + spec_oct(n as nat));
    }
    out
}

/// Wraps a rendering in `Some(` and `)`.
pub fn some_text(inner: Vec<u8>) -> (r: Vec<u8>)
    requires
        is_ascii_bytes(inner@),
    ensures
        r@ == spec_some_text(inner@),
        is_ascii_bytes(r@),
{
    let mut out: Vec<u8> = vec![83u8, 111u8, 109u8, 101u8, 40u8];
    push_bytes(&mut out, inner.as_slice());
    out.push(41u8);
    proof {
        assert(out@ =~= spec_some_text(inner@));
    }
    out
}

/// `None`.
pub fn none_text() -> (r: Vec<u8>)
    ensures
        r@ == spec_none_text(),
        is_ascii_bytes(r@),
{
    let out: Vec<u8> = vec![78u8, 111u8, 110u8, 101u8];
    proof {
        assert(out@ =~= spec_none_text());
    }
    out
}

/// `true` or `false`.
pub fn bool_text(b: bool) -> (r: Vec<u8>)
    ensures
        r@ == spec_bool_text(b),
        is_ascii_bytes(r@),
{
    let out: Vec<u8> = if b {
        vec![116u8, 114u8, 117u8, 101u8]
    } else {
        vec![102u8, 97u8, 108u8, 115u8, 101u8]
    };
    proof {
        assert(out@ =~= spec_bool_text(b));
    }
    out
}

/// Renders a time as `UnixTime(seconds.nanoseconds)`.
pub fn unix_time_text(t: &UnixTime) -> (r: Vec<u8>)
    ensures
        r@ == spec_unix_time_text(t.spec_seconds(), t.spec_nanos()),
        is_ascii_bytes(r@),
{
    let mut out: Vec<u8> = vec![85u8, 110u8, 105u8, 120u8, 84u8, 105u8, 109u8, 101u8, 40u8];
    let ghost start = out@;
    let s = t.timestamp_seconds();
    let magnitude: u64 = if s < 0 {
        out.push(45u8);
        ((-(s + 1)) as u64) + 1
    } else {
        s as u64
    };
    push_dec(&mut out, magnitude);
    out.push(46u8);
    push_dec_padded(&mut out, t.timestamp_subsec_nanos() as u64, 9);
    out.push(41u8);
    proof {
        lemma_dec_ascii(magnitude as nat);
        lemma_dec_padded_ascii(t.spec_nanos() as nat, 9);
        assert(out@ =~= spec_unix_time_text(t.spec_seconds(), t.spec_nanos()));
    }
    out
}

/// Appends the escape of `b` to `out`.
fn push_escape_byte(out: &mut Vec<u8>, b: u8)
    ensures
        final(out)@ == old(out)@ + spec_escape_byte(b),
{
    if b == 9 {
        out.push(92u8);
        out.push(116u8);
    } else if b == 13 {
        out.push(92u8);
        out.push(114u8);
    } else if b == 10 {
        out.push(92u8);
        out.push(110u8);
    } else if b == 92 {
        out.push(92u8);
        out.push(92u8);
    } else if b == 39 {
        out.push(92u8);
        out.push(39u8);
    } else if b == 34 {
        out.push(92u8);
        out.push(34u8);
    } else if 32 <= b && b < 127 {
        out.push(b);
    } else {
        out.push(92u8);
        out.push(120u8);
        push_hex(out, b as u64, 2, false);
    }
    proof {
        assert(final(out)@ =~= old(out)@ + spec_escape_byte(b));
    }
}

/// Escapes are ASCII.
proof fn lemma_escape_ascii(s: Seq<u8>)
    ensures
        is_ascii_bytes(spec_escape(s)),
    decreases s.len(),
{
    if s.len() > 0 {
        lemma_escape_ascii(s.drop_last());
        lemma_hex_ascii(s.last() as nat, 2, false);
    }
}

/// Renders bytes as a quoted, escaped string.
pub fn quoted_text(s: &[u8]) -> (r: Vec<u8>)
    ensures
        r@ == spec_quoted_text(s@),
        is_ascii_bytes(r@),
{
    let mut out: Vec<u8> = vec![34u8];
    let mut i: usize = 0;
    while i < s.len()
        invariant
            i <= s@.len(),
            out@ == seq![34u8] + spec_escape(s@.subrange(0, i as int)),
        decreases s@.len() - i,
    {
        proof {
            assert(s@.subrange(0, i + 1).drop_last() =~= s@.subrange(0, i as int));
        }
        push_escape_byte(&mut out, s[i]);
        i = i + 1;
    }
    out.push(34u8);
    proof {
        assert(s@.subrange(0, s@.len() as int) =~= s@);
        lemma_escape_ascii(s@);
        assert(out@ =~= spec_quoted_text(s@));
    }
    out
}

/// An optional number, in decimal.
pub open spec fn spec_opt_dec_text(o: Option<u64>) -> Seq<u8> {
    match o {
        Some(v) => spec_some_text(spec_dec(v as nat)),
        None => spec_none_text(),
    }
}

/// An optional 32-bit number, in decimal.
pub open spec fn spec_opt_dec32_text(o: Option<u32>) -> Seq<u8> {
    match o {
        Some(v) => spec_some_text(spec_dec(v as nat)),
        None => spec_none_text(),
    }
}

/// An optional time, given by its parts when present.
pub open spec fn spec_opt_time_parts_text(present: bool, seconds: i64, nanos: u32) -> Seq<u8> {
    if present {
        spec_some_text(spec_unix_time_text(seconds, nanos))
    } else {
        spec_none_text()
    }
}

/// An optional lock owner, as `0x` and sixteen hexadecimal digits.
pub open spec fn spec_lock_owner_text(o: Option<LockOwner>) -> Seq<u8> {
    match o {
        Some(v) => spec_some_text(spec_hex_text(v.0 as nat, 16)),
        None => spec_none_text(),
    }
}

/// An optional time.
pub open spec fn spec_opt_time_text(o: Option<UnixTime>) -> Seq<u8> {
    match o {
        Some(t) => spec_some_text(spec_unix_time_text(t.spec_seconds(), t.spec_nanos())),
        None => spec_none_text(),
    }
}

/// An optional file mode, as `0o` and octal digits.
pub open spec fn spec_opt_mode_text(o: Option<FileMode>) -> Seq<u8> {
    match o {
        Some(m) => spec_some_text(seq![48u8, 111u8] + spec_oct(m@ as nat)),
        None => spec_none_text(),
    }
}

/// Renders an optional number in decimal.
pub fn opt_dec_text(o: Option<u64>) -> (r: Vec<u8>)
    ensures
        r@ == spec_opt_dec_text(o),
        is_ascii_bytes(r@),
{
    match o {
        Some(v) => some_text(dec_text(v)),
        None => none_text(),
    }
}

/// Renders an optional 32-bit number in decimal.
pub fn opt_dec32_text(o: Option<u32>) -> (r: Vec<u8>)
    ensures
        r@ == spec_opt_dec32_text(o),
        is_ascii_bytes(r@),
{
    match o {
        Some(v) => some_text(dec_text(v as u64)),
        None => none_text(),
    }
}

/// Renders an optional lock owner.
pub fn lock_owner_text(o: Option<LockOwner>) -> (r: Vec<u8>)
    ensures
        r@ == spec_lock_owner_text(o),
        is_ascii_bytes(r@),
{
    match o {
        Some(v) => some_text(hex_text(v.0, 16)),
        None => none_text(),
    }
}

/// Renders an optional time.
pub fn opt_time_text(o: Option<UnixTime>) -> (r: Vec<u8>)
    ensures
        r@ == spec_opt_time_text(o),
        is_ascii_bytes(r@),
{
    match o {
        Some(t) => some_text(unix_time_text(&t)),
        None => none_text(),
    }
}

/// Renders an optional file mode.
pub fn opt_mode_text(o: Option<FileMode>) -> (r: Vec<u8>)
    ensures
        r@ == spec_opt_mode_text(o),
        is_ascii_bytes(r@),
{
    match o {
        Some(m) => some_text(octal_text(m.get() as u64)),
        None => none_text(),
    }
}

// }}}


// Flag sets {{{

/// The names a flag type gives its bits.
pub trait FlagNames {
    /// The name of the flag whose bit is `mask`, if it has one.
    spec fn spec_flag_name(mask: u32) -> Option<Seq<u8>>;

    /// The name of the flag whose bit is `mask`, if it has one, in ASCII.
    fn flag_name(mask: u32) -> (r: Option<&'static [u8]>)
        ensures
            match r {
                Some(b) => Self::spec_flag_name(mask) == Some(b@) && is_ascii_bytes(b@),
                None => Self::spec_flag_name(mask) is None,
            };
}

/// How a set bit is shown: the flag's name, or else the bit as `0x` and
/// eight hexadecimal digits.
pub open spec fn spec_flag_entry<F: FlagNames>(mask: u32) -> Seq<u8> {
    match F::spec_flag_name(mask) {
        Some(name) => name,
        None => spec_hex_text(mask as nat, 8),
    }
}

/// The entry lines of the set bits among the lowest `n`, lowest first: each
/// indented by eight spaces and ended by `,` and a newline.
pub open spec fn spec_flag_lines<F: FlagNames>(bits: u32, n: nat) -> Seq<u8>
    decreases n,
{
    if n == 0 {
        Seq::empty()
    } else {
        let prev = spec_flag_lines::<F>(bits, (n - 1) as nat);
        let mask = 1u32 << ((n - 1) as u32);
        if bits & mask != 0 {
            prev + seq![32u8, 32u8, 32u8, 32u8, 32u8, 32u8, 32u8, 32u8] + spec_flag_entry::<F>(mask)
                + seq![44u8, 10u8]
        } else {
            prev
        }
    }
}

/// A flag set named `name`, as a field of a `{:#?}` rendering shows it: the
/// name and `{}` when no bit is set, else the name, ` {`, one line per set
/// bit, and `}` indented as the field.
pub open spec fn spec_flags_text<F: FlagNames>(name: Seq<u8>, bits: u32) -> Seq<u8> {
    if bits == 0 {
        name + seq![32u8, 123u8, 125u8]
    } else {
        name + seq![32u8, 123u8, 10u8] + spec_flag_lines::<F>(bits, 32) + seq![
            32u8,
            32u8,
            32u8,
            32u8,
            125u8,
        ]
    }
}

/// Concatenations of ASCII bytes are ASCII.
proof fn lemma_ascii_concat(a: Seq<u8>, b: Seq<u8>)
    requires
        is_ascii_bytes(a),
        is_ascii_bytes(b),
    ensures
        is_ascii_bytes(a + b),
{
    assert forall|i: int| 0 <= i < (a + b).len() implies #[trigger] (a + b)[i] < 128u8 by {
        if i >= a.len() {
            assert((a + b)[i] == b[i - a.len()]);
        }
    }
}

/// Renders the flag set `bits` of a type named `name`, as a field of a
/// `{:#?}` rendering shows it.
pub fn flags_text<F: FlagNames>(name: &str, bits: u32) -> (r: Vec<u8>)
    requires
        vstd::string::is_ascii(name),
    ensures
        r@ == spec_flags_text::<F>(ascii_of(name@), bits),
        is_ascii_bytes(r@),
{
    let mut out: Vec<u8> = Vec::new();
    push_bytes(&mut out, ascii_bytes(name));
    if bits == 0 {
        out.push(32u8);
        out.push(123u8);
        out.push(125u8);
        proof {
            assert(out@ =~= spec_flags_text::<F>(ascii_of(name@), bits));
        }
        return out;
    }
    out.push(32u8);
    out.push(123u8);
    out.push(10u8);
    let ghost head = out@;
    proof {
        assert(out@ =~= head + spec_flag_lines::<F>(bits, 0));
    }
    let mut i: u32 = 0;
    while i < 32
        invariant
            i <= 32,
            is_ascii_bytes(head),
            out@ == head + spec_flag_lines::<F>(bits, i as nat),
            is_ascii_bytes(out@),
        decreases 32 - i,
    {
        let mask: u32 = 1u32 << i;
        let ghost before = out@;
        if bits & mask != 0 {
            let mut line: Vec<u8> = vec![32u8, 32u8, 32u8, 32u8, 32u8, 32u8, 32u8, 32u8];
            match F::flag_name(mask) {
                Some(b) => {
                    push_bytes(&mut line, b);
                },
                None => {
                    let h = hex_text(mask as u64, 8);
                    push_bytes(&mut line, h.as_slice());
                },
            }
            line.push(44u8);
            line.push(10u8);
            proof {
                assert(line@ =~= seq![32u8, 32u8, 32u8, 32u8, 32u8, 32u8, 32u8, 32u8]
                    + spec_flag_entry::<F>(mask) + seq![44u8, 10u8]);
                assert(is_ascii_bytes(line@)) by {
                    lemma_hex_ascii(mask as nat, 8, true);
                    assert forall|k: int| 0 <= k < line@.len() implies #[trigger] line@[k] < 128u8 by {
                        let e = spec_flag_entry::<F>(mask);
                        if 8 <= k < 8 + e.len() {
                            assert(line@[k] == e[k - 8]);
                        }
                    }
                }
                lemma_ascii_concat(before, line@);
            }
            push_bytes(&mut out, line.as_slice());
        }
        proof {
            assert(((i + 1) as nat - 1) as u32 == i);
            assert(out@ =~= head + spec_flag_lines::<F>(bits, (i + 1) as nat));
        }
        i = i + 1;
    }
    out.push(32u8);
    out.push(32u8);
    out.push(32u8);
    out.push(32u8);
    out.push(125u8);
    proof {
        assert(out@ =~= spec_flags_text::<F>(ascii_of(name@), bits));
    }
    out
}

// }}}

} // verus!
