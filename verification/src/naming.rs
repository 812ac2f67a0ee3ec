//! Names of the per-process shared-memory segment. The injector creates the
//! segment under one name and the capture library, running inside the target
//! process, opens it under a name it builds from its own process id.

use vstd::prelude::*;
use crate::decimal::{decimal, digits_value, lemma_decimal_len, lemma_decimal_spells, pow10, usize_to_str};

verus! {

/// The bytes of `SylvScreenShare`, the common start of every segment name.
pub open spec fn shared_memory_prefix() -> Seq<u8> {
    seq![83u8, 121, 108, 118, 83, 99, 114, 101, 101, 110, 83, 104, 97, 114, 101]
}

/// The name of the segment of process `pid`, without a terminator.
pub open spec fn segment_name(pid: u32) -> Seq<u8> {
    shared_memory_prefix() + decimal(pid as nat)
}

/// `s` holds the C string `name`: `name` has no zero byte and is followed in
/// `s` by a zero byte.
pub open spec fn holds_c_string(s: Seq<u8>, name: Seq<u8>) -> bool {
    &&& name.len() < s.len()
    &&& s.take(name.len() as int) == name
    &&& s[name.len() as int] == 0
    &&& forall|i: int| 0 <= i < name.len() ==> #[trigger] name[i] != 0
}

/// The buffer size that the capture library writes its segment name into.
pub const DLL_NAME_BUFFER_LEN: usize = 26;

/// Appends the decimal text of `n` (`"0"` for zero).
pub fn push_decimal(out: &mut Vec<u8>, n: usize)
    ensures
        final(out)@ == old(out)@ + decimal(n as nat),
{
    if n == 0 {
        out.push(48u8);
        assert(decimal(0) =~= seq![48u8]);
    } else {
        let mut buf = [0u8; 20];
        let digits = usize_to_str(n, &mut buf);
        let ghost start = out@;
        let mut k: usize = 0;
        while k < digits.len()
            invariant
                k <= digits@.len(),
                digits@ == decimal(n as nat),
                out@ == start + digits@.take(k as int),
            decreases digits@.len() - k,
        {
            out.push(digits[k]);
            k += 1;
            assert(out@ =~= start + digits@.take(k as int));
        }
        assert(digits@.take(digits@.len() as int) =~= digits@);
    }
}

/// The zero-terminated name under which the injector creates the segment
/// for process `pid`.
pub fn injector_shared_memory_name(pid: u32) -> (r: Vec<u8>)
    ensures
        r@ == segment_name(pid).push(0),
{
    let prefix: [u8; 15] = [83u8, 121, 108, 118, 83, 99, 114, 101, 101, 110, 83, 104, 97, 114, 101];
    let mut out: Vec<u8> = Vec::new();
    let mut k: usize = 0;
    while k < 15
        invariant
            k <= 15,
            prefix@ == shared_memory_prefix(),
            out@ == shared_memory_prefix().take(k as int),
        decreases 15 - k,
    {
        out.push(prefix[k]);
        k += 1;
        assert(out@ =~= shared_memory_prefix().take(k as int));
    }
    assert(shared_memory_prefix().take(15) =~= shared_memory_prefix());
    push_decimal(&mut out, pid as usize);
    out.push(0u8);
    out
}

/// The zero-padded buffer in which the capture library, running in process
/// `pid`, spells the name of its segment.
pub fn dll_shared_memory_name(pid: u32) -> (r: [u8; 26])
    ensures
        r@ == segment_name(pid) + Seq::new((26 - segment_name(pid).len()) as nat, |i: int| 0u8),
{
    let mut name: Vec<u8> = Vec::new();
    let prefix: [u8; 15] = [83u8, 121, 108, 118, 83, 99, 114, 101, 101, 110, 83, 104, 97, 114, 101];
    let mut k: usize = 0;
    while k < 15
        invariant
            k <= 15,
            prefix@ == shared_memory_prefix(),
            name@ == shared_memory_prefix().take(k as int),
        decreases 15 - k,
    {
        name.push(prefix[k]);
        k += 1;
        assert(name@ =~= shared_memory_prefix().take(k as int));
    }
    assert(shared_memory_prefix().take(15) =~= shared_memory_prefix());
    push_decimal(&mut name, pid as usize);
    proof {
        lemma_segment_name_len(pid);
    }
    let mut buf = [0u8; 26];
    let mut j: usize = 0;
    while j < name.len()
        invariant
            j <= name@.len(),
            name@ == segment_name(pid),
            name@.len() <= 25,
            forall|i: int| 0 <= i < j ==> buf@[i] == name@[i],
            forall|i: int| j <= i < 26 ==> buf@[i] == 0u8,
        decreases name@.len() - j,
    {
        buf[j] = name[j];
        j += 1;
    }
    assert(buf@ =~= segment_name(pid) + Seq::new((26 - segment_name(pid).len()) as nat, |i: int| 0u8));
    buf
}

/// A segment name has between 16 and 25 bytes and no zero byte.
pub proof fn lemma_segment_name_len(pid: u32)
    ensures
        16 <= segment_name(pid).len() <= 25,
        forall|i: int| 0 <= i < segment_name(pid).len() ==> #[trigger] segment_name(pid)[i] != 0,
{
    reveal_with_fuel(pow10, 11);
    assert(pow10(10) == 10000000000nat);
    lemma_decimal_len(pid as nat, 10);
    lemma_decimal_spells(pid as nat);
    let s = segment_name(pid);
    assert forall|i: int| 0 <= i < s.len() implies #[trigger] s[i] != 0 by {
        if i >= 15 {
            assert(s[i] == decimal(pid as nat)[i - 15]);
            assert(crate::decimal::is_digit(decimal(pid as nat)[i - 15]));
        }
    }
}

/// Finds the zero byte that ends the C string at the start of `bytes`, as
/// `CStr::from_bytes_until_nul` does; `None` when there is none.
pub fn c_string_len(bytes: &[u8]) -> (r: Option<usize>)
    ensures
        match r {
            Some(k) => {
                &&& k < bytes@.len()
                &&& holds_c_string(bytes@, bytes@.take(k as int))
            },
            None => forall|i: int| 0 <= i < bytes@.len() ==> bytes@[i] != 0,
        },
{
    let mut k: usize = 0;
    while k < bytes.len()
        invariant
            k <= bytes@.len(),
            forall|i: int| 0 <= i < k ==> bytes@[i] != 0,
        decreases bytes@.len() - k,
    {
        if bytes[k] == 0u8 {
            assert(bytes@.take(k as int).take(k as int) =~= bytes@.take(k as int));
            return Some(k);
        }
        k += 1;
    }
    None
}

/// A buffer holds at most one C string.
pub proof fn lemma_c_string_unique(s: Seq<u8>, a: Seq<u8>, b: Seq<u8>)
    requires
        holds_c_string(s, a),
        holds_c_string(s, b),
    ensures
        a == b,
{
    if a.len() < b.len() {
        assert(b[a.len() as int] == s.take(b.len() as int)[a.len() as int]);
        assert(false);
    } else if b.len() < a.len() {
        assert(a[b.len() as int] == s.take(a.len() as int)[b.len() as int]);
        assert(false);
    } else {
        assert(a =~= b);
    }
}

/// The capture library opens exactly the segment that the injector created
/// for its process: both buffers hold the same C string, `SylvScreenShare`
/// followed by the process id.
pub proof fn lemma_dll_and_injector_agree(pid: u32)
    ensures
        holds_c_string(segment_name(pid).push(0), segment_name(pid)),
        holds_c_string(
            segment_name(pid) + Seq::new((26 - segment_name(pid).len()) as nat, |i: int| 0u8),
            segment_name(pid),
        ),
{
    lemma_segment_name_len(pid);
    let n = segment_name(pid);
    assert(n.push(0).take(n.len() as int) =~= n);
    let padded = n + Seq::new((26 - n.len()) as nat, |i: int| 0u8);
    assert(padded.take(n.len() as int) =~= n);
}

/// Different processes get different segments.
pub proof fn lemma_segment_names_distinct(a: u32, b: u32)
    requires
        a != b,
    ensures
        segment_name(a) != segment_name(b),
{
    lemma_decimal_spells(a as nat);
    lemma_decimal_spells(b as nat);
    if segment_name(a) == segment_name(b) {
        assert(decimal(a as nat) =~= segment_name(a).skip(15));
        assert(decimal(b as nat) =~= segment_name(b).skip(15));
        assert(digits_value(decimal(a as nat)) == digits_value(decimal(b as nat)));
    }
}

} // verus!
