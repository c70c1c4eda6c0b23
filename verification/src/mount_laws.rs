//! What the mount data says of the options it is made from, and how the
//! numbers in it are written.

use vstd::prelude::*;

use crate::ascii::{spec_dec, spec_oct};
use crate::linux::{spec_join, spec_mount_data, spec_mount_entries, MountOptions};

verus! {

// Mount data and numerals {{{

/// The value of the ASCII digits `s` in base `base`, most significant first.
pub open spec fn spec_digits_value(s: Seq<u8>, base: nat) -> int
    decreases s.len(),
{
    if s.len() == 0 {
        0
    } else {
        spec_digits_value(s.drop_last(), base) * base + (s.last() - 48)
    }
}

/// Whether `s` is a numeral in base `base` (at most ten): ASCII digits
/// below the base, at least one, and no leading zero.
pub open spec fn is_numeral(s: Seq<u8>, base: nat) -> bool {
    &&& s.len() >= 1
    &&& forall|i: int| 0 <= i < s.len() ==> 48 <= #[trigger] s[i] < 48 + base
    &&& (s[0] == 48u8 ==> s.len() == 1)
}

/// A number written in decimal is a decimal numeral that reads back as the
/// number.
pub proof fn law_dec_reads_back(n: nat)
    ensures
        is_numeral(spec_dec(n), 10),
        spec_digits_value(spec_dec(n), 10) == n,
    decreases n,
{
    let s = spec_dec(n);
    if n >= 10 {
        law_dec_reads_back(n / 10);
        let p = spec_dec(n / 10);
        assert(s.drop_last() =~= p);
        assert(s[0] == p[0]);
        assert(s.last() == (48 + n % 10) as u8);
        assert(spec_digits_value(s, 10) == spec_digits_value(p, 10) * 10 + (n % 10));
        assert((n / 10) * 10 + n % 10 == n) by (nonlinear_arith);
        if p[0] == 48u8 {
            assert(p.len() == 1);
            assert(spec_digits_value(p, 10) == spec_digits_value(p.drop_last(), 10) * 10 + 0);
            assert(p.drop_last().len() == 0);
        }
    } else {
        assert(s.drop_last().len() == 0);
        assert(s.last() == (48 + n) as u8);
        assert(spec_digits_value(s.drop_last(), 10) == 0);
        assert(spec_digits_value(s, 10) == spec_digits_value(s.drop_last(), 10) * 10 + (s.last() - 48));
    }
}

/// A number written in octal is an octal numeral that reads back as the
/// number.
pub proof fn law_oct_reads_back(n: nat)
    ensures
        is_numeral(spec_oct(n), 8),
        spec_digits_value(spec_oct(n), 8) == n,
    decreases n,
{
    let s = spec_oct(n);
    if n >= 8 {
        law_oct_reads_back(n / 8);
        let p = spec_oct(n / 8);
        assert(s.drop_last() =~= p);
        assert(s[0] == p[0]);
        assert(s.last() == (48 + n % 8) as u8);
        assert(spec_digits_value(s, 8) == spec_digits_value(p, 8) * 8 + (n % 8));
        assert((n / 8) * 8 + n % 8 == n) by (nonlinear_arith);
        if p[0] == 48u8 {
            assert(p.len() == 1);
            assert(spec_digits_value(p, 8) == spec_digits_value(p.drop_last(), 8) * 8 + 0);
            assert(p.drop_last().len() == 0);
        }
    } else {
        assert(s.drop_last().len() == 0);
        assert(s.last() == (48 + n) as u8);
        assert(spec_digits_value(s.drop_last(), 8) == 0);
        assert(spec_digits_value(s, 8) == spec_digits_value(s.drop_last(), 8) * 8 + (s.last() - 48));
    }
}

/// Whether `e` stands in `data` at `i` as a whole entry: preceded by the
/// start or a comma, followed by a comma or the end of `data`.
pub open spec fn entry_at(data: Seq<u8>, i: int, e: Seq<u8>) -> bool {
    &&& 0 <= i
    &&& i + e.len() <= data.len()
    &&& data.subrange(i, i + e.len()) == e
    &&& (i == 0 || data[i - 1] == 44u8)
    &&& (i + e.len() == data.len() || data[i + e.len()] == 44u8)
}

/// Whether the C string `data` lists `e` as one of its comma-separated
/// entries.
#[verifier::opaque]
pub open spec fn lists_entry(data: Seq<u8>, e: Seq<u8>) -> bool {
    exists|i: int|
        0 <= i && i + e.len() < data.len() && #[trigger] data.subrange(i, i + e.len()) == e && (i == 0
            || data[i - 1] == 44u8) && (data[i + e.len()] == 44u8 || data[i + e.len()] == 0u8)
}

/// Each of the entries joined by commas stands whole in the result.
proof fn lemma_join_holds(entries: Seq<Seq<u8>>, k: int)
    requires
        0 <= k < entries.len(),
    ensures
        exists|i: int| entry_at(spec_join(entries), i, entries[k]),
    decreases entries.len(),
{
    let j = spec_join(entries);
    let e = entries[k];
    if entries.len() == 1 {
        assert(j.subrange(0, e.len() as int) =~= e);
        assert(entry_at(j, 0, e));
    } else {
        let d = entries.drop_last();
        let jd = spec_join(d);
        assert(j == jd + seq![44u8] + entries.last());
        if k == entries.len() - 1 {
            let i: int = jd.len() as int + 1;
            assert(j.subrange(i, i + e.len()) =~= e);
            assert(entry_at(j, i, e));
        } else {
            lemma_join_holds(d, k);
            assert(d[k] == e);
            let i = choose|i: int| entry_at(jd, i, d[k]);
            assert(j.subrange(i, i + e.len()) =~= jd.subrange(i, i + e.len()));
            if i > 0 {
                assert(j[i - 1] == jd[i - 1]);
            }
            if i + e.len() < jd.len() {
                assert(j[i + e.len()] == jd[i + e.len()]);
            }
            assert(entry_at(j, i, e));
        }
    }
}

/// The first of the joined entries starts the result.
proof fn lemma_join_starts(entries: Seq<Seq<u8>>)
    requires
        entries.len() >= 1,
    ensures
        spec_join(entries).len() >= entries[0].len(),
        spec_join(entries).subrange(0, entries[0].len() as int) == entries[0],
    decreases entries.len(),
{
    if entries.len() > 1 {
        let d = entries.drop_last();
        lemma_join_starts(d);
        let jd = spec_join(d);
        assert(spec_join(entries) == jd + seq![44u8] + entries.last());
        assert(spec_join(entries).subrange(0, entries[0].len() as int) =~= jd.subrange(0, d[0].len() as int));
    } else {
        assert(spec_join(entries).subrange(0, entries[0].len() as int) =~= entries[0]);
    }
}

/// An entry of the mount options stands whole in the mount data.
proof fn lemma_mount_data_lists(opts: MountOptions, k: int)
    requires
        0 <= k < spec_mount_entries(opts).len(),
    ensures
        lists_entry(spec_mount_data(opts), spec_mount_entries(opts)[k]),
{
    let es = spec_mount_entries(opts);
    let j = spec_join(es);
    let data = spec_mount_data(opts);
    let e = es[k];
    reveal(lists_entry);
    lemma_join_holds(es, k);
    let i = choose|i: int| entry_at(j, i, e);
    assert(data == j.push(0u8));
    assert(data.subrange(i, i + e.len()) =~= j.subrange(i, i + e.len()));
    if i > 0 {
        assert(data[i - 1] == j[i - 1]);
    }
    if i + e.len() < j.len() {
        assert(data[i + e.len()] == j[i + e.len()]);
    }
}

/// An entry among the mount entries stands whole in the mount data.
proof fn lemma_mount_data_lists_entry(opts: MountOptions, e: Seq<u8>)
    requires
        spec_mount_entries(opts).contains(e),
    ensures
        lists_entry(spec_mount_data(opts), e),
{
    let k = choose|k: int| 0 <= k < spec_mount_entries(opts).len() && spec_mount_entries(opts)[k] == e;
    lemma_mount_data_lists(opts, k);
}

/// Every option that is set has its entry among the mount entries, the file
/// descriptor's first.
#[verifier::rlimit(100)]
proof fn lemma_mount_entries_hold(opts: MountOptions)
    ensures
        ({
            let es = spec_mount_entries(opts);
            // "fd="
            &&& opts.fuse_device_fd matches Some(v) ==> es.len() >= 1 && es[0] == seq![102u8, 100u8, 61u8]
                + spec_dec(v as nat)
            // "allow_other"
            &&& opts.allow_other ==> es.contains(seq![97u8, 108u8, 108u8, 111u8, 119u8, 95u8, 111u8, 116u8, 104u8, 101u8, 114u8],
            )
            // "blksize="
            &&& opts.block_size matches Some(v) ==> es.contains(seq![98u8, 108u8, 107u8, 115u8, 105u8, 122u8, 101u8, 61u8] + spec_dec(v as nat),
            )
            // "default_permissions"
            &&& opts.default_permissions ==> es.contains(seq![
                    100u8, 101u8, 102u8, 97u8, 117u8, 108u8, 116u8, 95u8, 112u8, 101u8, 114u8,
                    109u8, 105u8, 115u8, 115u8, 105u8, 111u8, 110u8, 115u8
                ],
            )
            // "group_id="
            &&& opts.group_id matches Some(v) ==> es.contains(seq![103u8, 114u8, 111u8, 117u8, 112u8, 95u8, 105u8, 100u8, 61u8] + spec_dec(v as nat),
            )
            // "max_read="
            &&& opts.max_read matches Some(v) ==> es.contains(seq![109u8, 97u8, 120u8, 95u8, 114u8, 101u8, 97u8, 100u8, 61u8] + spec_dec(v as nat),
            )
            // "rootmode="
            &&& opts.root_mode matches Some(v) ==> es.contains(seq![114u8, 111u8, 111u8, 116u8, 109u8, 111u8, 100u8, 101u8, 61u8] + spec_oct(v as nat),
            )
            // "subtype="
            &&& opts.subtype matches Some(t) ==> es.contains(seq![115u8, 117u8, 98u8, 116u8, 121u8, 112u8, 101u8, 61u8] + t.view_bytes(),
            )
            // "user_id="
            &&& opts.user_id matches Some(v) ==> es.contains(seq![117u8, 115u8, 101u8, 114u8, 95u8, 105u8, 100u8, 61u8] + spec_dec(v as nat),
            )
        }),
{
    let es = spec_mount_entries(opts);
    let s0: Seq<Seq<u8>> = Seq::empty();
    let s1 = match opts.fuse_device_fd {
        Some(v) => s0.push(seq![102u8, 100u8, 61u8] + spec_dec(v as nat)),
        None => s0,
    };
    let s2 = if opts.allow_other {
        s1.push(seq![97u8, 108u8, 108u8, 111u8, 119u8, 95u8, 111u8, 116u8, 104u8, 101u8, 114u8])
    } else {
        s1
    };
    let s3 = match opts.block_size {
        Some(v) => s2.push(seq![98u8, 108u8, 107u8, 115u8, 105u8, 122u8, 101u8, 61u8] + spec_dec(v as nat)),
        None => s2,
    };
    let s4 = if opts.default_permissions {
        s3.push(
            seq![
                100u8, 101u8, 102u8, 97u8, 117u8, 108u8, 116u8, 95u8, 112u8, 101u8, 114u8, 109u8,
                105u8, 115u8, 115u8, 105u8, 111u8, 110u8, 115u8
            ],
        )
    } else {
        s3
    };
    let s5 = match opts.group_id {
        Some(v) => s4.push(seq![103u8, 114u8, 111u8, 117u8, 112u8, 95u8, 105u8, 100u8, 61u8] + spec_dec(v as nat)),
        None => s4,
    };
    let s6 = match opts.max_read {
        Some(v) => s5.push(seq![109u8, 97u8, 120u8, 95u8, 114u8, 101u8, 97u8, 100u8, 61u8] + spec_dec(v as nat)),
        None => s5,
    };
    let s7 = match opts.root_mode {
        Some(v) => s6.push(seq![114u8, 111u8, 111u8, 116u8, 109u8, 111u8, 100u8, 101u8, 61u8] + spec_oct(v as nat)),
        None => s6,
    };
    let s8 = match opts.subtype {
        Some(t) => s7.push(seq![115u8, 117u8, 98u8, 116u8, 121u8, 112u8, 101u8, 61u8] + t.view_bytes()),
        None => s7,
    };
    let s9 = match opts.user_id {
        Some(v) => s8.push(seq![117u8, 115u8, 101u8, 114u8, 95u8, 105u8, 100u8, 61u8] + spec_dec(v as nat)),
        None => s8,
    };
    assert(es =~= s9);
    if opts.allow_other {
        assert(es[s1.len() as int] == s9[s1.len() as int]);
    }
    if opts.block_size is Some {
        assert(es[s2.len() as int] == s9[s2.len() as int]);
    }
    if opts.default_permissions {
        assert(es[s3.len() as int] == s9[s3.len() as int]);
    }
    if opts.group_id is Some {
        assert(es[s4.len() as int] == s9[s4.len() as int]);
    }
    if opts.max_read is Some {
        assert(es[s5.len() as int] == s9[s5.len() as int]);
    }
    if opts.root_mode is Some {
        assert(es[s6.len() as int] == s9[s6.len() as int]);
    }
    if opts.subtype is Some {
        assert(es[s7.len() as int] == s9[s7.len() as int]);
    }
    if opts.user_id is Some {
        assert(es[s8.len() as int] == s9[s8.len() as int]);
    }
}

/// The mount data lists every option that is set, each as one
/// comma-separated entry: `fd=`, `blksize=`, `group_id=`, `max_read=` and
/// `user_id=` followed by the value in decimal, `rootmode=` followed by the
/// mode in octal, `subtype=` followed by the subtype, and the words
/// `allow_other` and `default_permissions`. The file descriptor, when set,
/// comes first.
#[verifier::rlimit(100)]
pub proof fn law_mount_data_lists_options(opts: MountOptions)
    ensures
        ({
            let data = spec_mount_data(opts);
            // "fd="
            &&& opts.fuse_device_fd matches Some(v) ==> {
                &&& lists_entry(data, seq![102u8, 100u8, 61u8] + spec_dec(v as nat))
                &&& data.subrange(0, 3 + spec_dec(v as nat).len() as int) == seq![102u8, 100u8, 61u8]
                    + spec_dec(v as nat)
            }
            // "allow_other"
            &&& opts.allow_other ==> lists_entry(
                data,
                seq![97u8, 108u8, 108u8, 111u8, 119u8, 95u8, 111u8, 116u8, 104u8, 101u8, 114u8],
            )
            // "blksize="
            &&& opts.block_size matches Some(v) ==> lists_entry(
                data,
                seq![98u8, 108u8, 107u8, 115u8, 105u8, 122u8, 101u8, 61u8] + spec_dec(v as nat),
            )
            // "default_permissions"
            &&& opts.default_permissions ==> lists_entry(
                data,
                seq![
                    100u8, 101u8, 102u8, 97u8, 117u8, 108u8, 116u8, 95u8, 112u8, 101u8, 114u8,
                    109u8, 105u8, 115u8, 115u8, 105u8, 111u8, 110u8, 115u8
                ],
            )
            // "group_id="
            &&& opts.group_id matches Some(v) ==> lists_entry(
                data,
                seq![103u8, 114u8, 111u8, 117u8, 112u8, 95u8, 105u8, 100u8, 61u8] + spec_dec(v as nat),
            )
            // "max_read="
            &&& opts.max_read matches Some(v) ==> lists_entry(
                data,
                seq![109u8, 97u8, 120u8, 95u8, 114u8, 101u8, 97u8, 100u8, 61u8] + spec_dec(v as nat),
            )
            // "rootmode="
            &&& opts.root_mode matches Some(v) ==> lists_entry(
                data,
                seq![114u8, 111u8, 111u8, 116u8, 109u8, 111u8, 100u8, 101u8, 61u8] + spec_oct(v as nat),
            )
            // "subtype="
            &&& opts.subtype matches Some(t) ==> lists_entry(
                data,
                seq![115u8, 117u8, 98u8, 116u8, 121u8, 112u8, 101u8, 61u8] + t.view_bytes(),
            )
            // "user_id="
            &&& opts.user_id matches Some(v) ==> lists_entry(
                data,
                seq![117u8, 115u8, 101u8, 114u8, 95u8, 105u8, 100u8, 61u8] + spec_dec(v as nat),
            )
        }),
{
    let es = spec_mount_entries(opts);
    lemma_mount_entries_hold(opts);
    if let Some(v) = opts.fuse_device_fd {
        lemma_mount_data_lists(opts, 0);
        lemma_join_starts(es);
        let j = spec_join(es);
        assert(spec_mount_data(opts) == j.push(0u8));
        assert(spec_mount_data(opts).subrange(0, es[0].len() as int) =~= j.subrange(0, es[0].len() as int));
    }
    if opts.allow_other {
        lemma_mount_data_lists_entry(
            opts,
            seq![97u8, 108u8, 108u8, 111u8, 119u8, 95u8, 111u8, 116u8, 104u8, 101u8, 114u8],
        );
    }
    if let Some(v) = opts.block_size {
        lemma_mount_data_lists_entry(opts, seq![98u8, 108u8, 107u8, 115u8, 105u8, 122u8, 101u8, 61u8] + spec_dec(v as nat));
    }
    if opts.default_permissions {
        lemma_mount_data_lists_entry(
            opts,
            seq![
                100u8, 101u8, 102u8, 97u8, 117u8, 108u8, 116u8, 95u8, 112u8, 101u8, 114u8, 109u8,
                105u8, 115u8, 115u8, 105u8, 111u8, 110u8, 115u8
            ],
        );
    }
    if let Some(v) = opts.group_id {
        lemma_mount_data_lists_entry(opts, seq![103u8, 114u8, 111u8, 117u8, 112u8, 95u8, 105u8, 100u8, 61u8] + spec_dec(v as nat));
    }
    if let Some(v) = opts.max_read {
        lemma_mount_data_lists_entry(opts, seq![109u8, 97u8, 120u8, 95u8, 114u8, 101u8, 97u8, 100u8, 61u8] + spec_dec(v as nat));
    }
    if let Some(v) = opts.root_mode {
        lemma_mount_data_lists_entry(opts, seq![114u8, 111u8, 111u8, 116u8, 109u8, 111u8, 100u8, 101u8, 61u8] + spec_oct(v as nat));
    }
    if let Some(t) = opts.subtype {
        lemma_mount_data_lists_entry(opts, seq![115u8, 117u8, 98u8, 116u8, 121u8, 112u8, 101u8, 61u8] + t.view_bytes());
    }
    if let Some(v) = opts.user_id {
        lemma_mount_data_lists_entry(opts, seq![117u8, 115u8, 101u8, 114u8, 95u8, 105u8, 100u8, 61u8] + spec_dec(v as nat));
    }
}

// }}}

} // verus!
