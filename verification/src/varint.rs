use vstd::prelude::*;

use crate::error::ErrorKind;

verus! {

/// A varint field of the wire format occupies at most this many bytes.
/// Ten bytes of seven payload bits each cover every 64-bit value, so a
/// longer field can never denote a representable code or length.
pub const MAX_VARINT_BYTES: usize = 10;

/// The minimal unsigned varint encoding of `n`: seven payload bits per
/// byte, least significant group first, the high bit of every byte but
/// the last set as a continuation marker.
pub open spec fn varint_bytes(n: nat) -> Seq<u8>
    decreases n,
{
    if n < 0x80 {
        seq![n as u8]
    } else {
        seq![(n % 0x80 + 0x80) as u8] + varint_bytes(n / 0x80)
    }
}

/// The byte length of the minimal varint encoding of `n`.
pub open spec fn varint_len(n: nat) -> nat
    decreases n,
{
    if n < 0x80 {
        1
    } else {
        1 + varint_len(n / 0x80)
    }
}

/// `128` raised to the power `k`: the weight of the `k`-th varint byte.
pub open spec fn pow128(k: nat) -> nat
    decreases k,
{
    if k == 0 {
        1nat
    } else {
        128 * pow128((k - 1) as nat)
    }
}

/// Reads one varint from the front of `s`, with `k` bytes of the same
/// field already consumed before `s`. Yields the value and the bytes
/// after the field, `VarintTooLong` once the field would pass the
/// ten-byte cap, and `TruncatedInput` when `s` ends before the field
/// does.
pub open spec fn take_varint_k(s: Seq<u8>, k: nat) -> Result<(nat, Seq<u8>), ErrorKind>
    decreases 10 - k,
{
    if k >= 10 {
        Err(ErrorKind::VarintTooLong)
    } else if s.len() == 0 {
        Err(ErrorKind::TruncatedInput)
    } else if s[0] < 0x80 {
        Ok((s[0] as nat, s.drop_first()))
    } else {
        match take_varint_k(s.drop_first(), k + 1) {
            Ok((v, rest)) => Ok(((s[0] - 0x80) as nat + 0x80 * v, rest)),
            Err(e) => Err(e),
        }
    }
}

/// Reads one whole varint field from the front of `s`: the value and
/// the bytes after the field, or the error `take_varint_k` reports, or
/// `VarintTooLong` when the value does not fit the platform's word.
pub open spec fn spec_read_varint(s: Seq<u8>) -> Result<(usize, Seq<u8>), ErrorKind> {
    match take_varint_k(s, 0) {
        Ok((v, rest)) => if v > usize::MAX {
            Err(ErrorKind::VarintTooLong)
        } else {
            Ok((v as usize, rest))
        },
        Err(e) => Err(e),
    }
}

/// The minimal encoding is as long as `varint_len` says.
pub proof fn lemma_varint_bytes_len(n: nat)
    ensures
        varint_bytes(n).len() == varint_len(n),
    decreases n,
{
    if n >= 0x80 {
        lemma_varint_bytes_len(n / 0x80);
    }
}

/// A value below `128^k` encodes in at most `k` bytes.
pub proof fn lemma_varint_len_below_pow(n: nat, k: nat)
    requires
        1 <= k,
        n < pow128(k),
    ensures
        varint_len(n) <= k,
    decreases k,
{
    if n >= 0x80 {
        assert(n / 0x80 < pow128((k - 1) as nat)) by (nonlinear_arith)
            requires
                n < pow128(k),
                pow128(k) == 128 * pow128((k - 1) as nat),
        {
        }
        lemma_varint_len_below_pow(n / 0x80, (k - 1) as nat);
    }
}

/// Every value the platform's word can hold encodes in at most ten
/// bytes.
pub proof fn lemma_varint_len_max(n: nat)
    requires
        n <= usize::MAX,
    ensures
        varint_len(n) <= 10,
{
    assert(pow128(10) == 0x400000000000000000nat) by {
        reveal_with_fuel(pow128, 11);
    }
    lemma_varint_len_below_pow(n, 10);
}

/// Reading a minimal encoding back, with room for it under the cap,
/// recovers the encoded value and leaves exactly the trailing bytes.
pub proof fn lemma_take_varint_encoding(n: nat, rest: Seq<u8>, k: nat)
    requires
        k + varint_len(n) <= 10,
    ensures
        take_varint_k(varint_bytes(n) + rest, k) == Ok::<(nat, Seq<u8>), ErrorKind>((n, rest)),
    decreases n,
{
    let s = varint_bytes(n) + rest;
    if n < 0x80 {
        assert(s[0] == n as u8);
        assert(s.drop_first() =~= rest);
    } else {
        assert(s[0] == (n % 0x80 + 0x80) as u8);
        assert(s.drop_first() =~= varint_bytes(n / 0x80) + rest);
        lemma_take_varint_encoding(n / 0x80, rest, k + 1);
        assert((s[0] - 0x80) as nat + 0x80 * (n / 0x80) == n);
    }
}

/// `spec_read_varint` undoes the minimal encoding of any word-sized
/// value, whatever follows it.
pub proof fn lemma_read_varint_encoding(n: usize, rest: Seq<u8>)
    ensures
        spec_read_varint(varint_bytes(n as nat) + rest) == Ok::<(usize, Seq<u8>), ErrorKind>(
            (n, rest),
        ),
{
    lemma_varint_len_max(n as nat);
    lemma_take_varint_encoding(n as nat, rest, 0);
}

/// In a minimal encoding every byte before the last carries the
/// continuation marker.
pub proof fn lemma_varint_bytes_continuation(n: nat)
    ensures
        forall|i: int|
            0 <= i < varint_bytes(n).len() - 1 ==> #[trigger] varint_bytes(n)[i] >= 0x80,
    decreases n,
{
    if n >= 0x80 {
        lemma_varint_bytes_continuation(n / 0x80);
        assert forall|i: int|
            0 <= i < varint_bytes(n).len() - 1 implies #[trigger] varint_bytes(n)[i]
            >= 0x80 by {
            if i > 0 {
                assert(varint_bytes(n)[i] == varint_bytes(n / 0x80)[i - 1]);
            }
        }
    }
}

/// A field of continuation bytes only, still under the cap, is
/// truncated: its terminator has not arrived yet.
pub proof fn lemma_take_varint_truncated(s: Seq<u8>, k: nat)
    requires
        forall|i: int| 0 <= i < s.len() ==> #[trigger] s[i] >= 0x80,
        k + s.len() < 10,
    ensures
        take_varint_k(s, k) == Err::<(nat, Seq<u8>), ErrorKind>(ErrorKind::TruncatedInput),
    decreases s.len(),
{
    if s.len() > 0 {
        lemma_take_varint_truncated(s.drop_first(), k + 1);
    }
}

/// Appends the minimal varint encoding of `n` to `out`.
pub fn write_varint(out: &mut Vec<u8>, n: usize)
    ensures
        final(out)@ == old(out)@ + varint_bytes(n as nat),
{
    let mut cur: usize = n;
    while cur >= 0x80
        invariant
            out@ + varint_bytes(cur as nat) =~= old(out)@ + varint_bytes(n as nat),
        decreases cur,
    {
        let ghost prev = cur as nat;
        out.push((cur % 0x80 + 0x80) as u8);
        cur = cur / 0x80;
        proof {
            assert(varint_bytes(prev) == seq![(prev % 0x80 + 0x80) as u8] + varint_bytes(
                prev / 0x80,
            ));
            assert(out@ + varint_bytes(cur as nat) =~= old(out)@ + varint_bytes(n as nat));
        }
    }
    out.push(cur as u8);
    proof {
        assert(varint_bytes(cur as nat) == seq![cur as u8]);
        assert(final(out)@ =~= old(out)@ + varint_bytes(n as nat));
    }
}

/// The number of bytes the minimal varint encoding of `n` occupies.
pub fn varint_size(n: usize) -> (r: usize)
    ensures
        r == varint_len(n as nat),
{
    proof {
        lemma_varint_len_max(n as nat);
    }
    let mut cur: usize = n;
    let mut size: usize = 1;
    while cur >= 0x80
        invariant
            1 <= size,
            size + varint_len(cur as nat) == 1 + varint_len(n as nat),
            varint_len(n as nat) <= 10,
        decreases cur,
    {
        cur = cur / 0x80;
        size = size + 1;
    }
    size
}

/// Reads one varint field of `bytes` starting at index `start`.
/// Returns the value and the index of the first byte after the field.
pub fn read_varint(bytes: &[u8], start: usize) -> (r: Result<(usize, usize), ErrorKind>)
    requires
        start <= bytes@.len(),
    ensures
        match spec_read_varint(bytes@.skip(start as int)) {
            Ok((v, rest)) => r matches Ok(p) && p.0 == v && start <= p.1 <= bytes@.len()
                && bytes@.skip(p.1 as int) == rest,
            Err(e) => r == Err::<(usize, usize), ErrorKind>(e),
        },
{
    let ghost s = bytes@.skip(start as int);
    let mut value: usize = 0;
    let mut value_valid: bool = true;
    let mut mult: usize = 1;
    let mut mult_valid: bool = true;
    let mut i: usize = start;
    let mut count: usize = 0;
    let ghost mut acc: nat = 0nat;
    loop
        invariant
            start <= i <= bytes@.len(),
            count == i - start,
            count <= 10,
            mult_valid ==> mult == pow128(count as nat),
            !mult_valid ==> pow128(count as nat) > usize::MAX,
            value_valid ==> value == acc,
            !value_valid ==> acc > usize::MAX,
            s == bytes@.skip(start as int),
            match take_varint_k(bytes@.skip(i as int), count as nat) {
                Ok((v, rest)) => take_varint_k(s, 0) == Ok::<(nat, Seq<u8>), ErrorKind>(
                    (acc + pow128(count as nat) * v, rest),
                ),
                Err(e) => take_varint_k(s, 0) == Err::<(nat, Seq<u8>), ErrorKind>(e),
            },
        decreases bytes@.len() - i,
    {
        let ghost pw = pow128(count as nat);
        if count >= MAX_VARINT_BYTES {
            return Err(ErrorKind::VarintTooLong);
        }
        if i >= bytes.len() {
            return Err(ErrorKind::TruncatedInput);
        }
        let b = bytes[i];
        proof {
            assert(b & 0x7f == b % 0x80) by (bit_vector);
            assert(bytes@.skip(i as int)[0] == b);
            assert(bytes@.skip(i as int).drop_first() =~= bytes@.skip(i + 1));
        }
        let payload = (b & 0x7f) as usize;
        if b < 0x80 {
            // the terminating byte: the whole field is now in hand
            proof {
                assert(take_varint_k(bytes@.skip(i as int), count as nat) == Ok::<
                    (nat, Seq<u8>),
                    ErrorKind,
                >((b as nat, bytes@.skip(i + 1))));
            }
            let ghost total = acc + pw * payload;
            if payload == 0 {
                proof {
                    assert(total == acc) by (nonlinear_arith)
                        requires
                            total == acc + pw * payload,
                            payload == 0,
                    {
                    }
                }
                if value_valid {
                    return Ok((value, i + 1));
                }
                return Err(ErrorKind::VarintTooLong);
            }
            if value_valid && mult_valid {
                if let Some(piece) = payload.checked_mul(mult) {
                    if let Some(whole) = value.checked_add(piece) {
                        proof {
                            assert(whole == total) by (nonlinear_arith)
                                requires
                                    total == acc + pw * payload,
                                    acc == value,
                                    pw == mult,
                                    piece == payload * mult,
                                    whole == value + piece,
                            {
                            }
                        }
                        return Ok((whole, i + 1));
                    }
                }
                proof {
                    assert(total > usize::MAX) by (nonlinear_arith)
                        requires
                            total == acc + pw * payload,
                            acc == value,
                            pw == mult,
                            payload * mult > usize::MAX || value + payload * mult > usize::MAX,
                    {
                    }
                }
                return Err(ErrorKind::VarintTooLong);
            }
            proof {
                assert(total > usize::MAX) by (nonlinear_arith)
                    requires
                        total == acc + pw * payload,
                        payload >= 1,
                        acc > usize::MAX || pw > usize::MAX,
                {
                }
            }
            return Err(ErrorKind::VarintTooLong);
        }
        // a continuation byte: fold its payload in and move on
        proof {
            assert(payload == b - 0x80);
        }
        let ghost acc_next: nat = (acc + pw * payload) as nat;
        proof {
            match take_varint_k(bytes@.skip(i + 1), (count + 1) as nat) {
                Ok((v2, rest2)) => {
                    assert(acc_next + (0x80 * pw) * v2 == acc + pw * (payload + 0x80 * v2))
                        by (nonlinear_arith)
                        requires
                            acc_next == acc + pw * payload,
                    {
                    }
                },
                Err(_) => {},
            }
        }
        if value_valid && mult_valid {
            let mut ok = false;
            if let Some(piece) = payload.checked_mul(mult) {
                if let Some(nv) = value.checked_add(piece) {
                    proof {
                        assert(nv == acc_next) by (nonlinear_arith)
                            requires
                                acc_next == acc + pw * payload,
                                acc == value,
                                pw == mult,
                                piece == payload * mult,
                                nv == value + piece,
                        {
                        }
                    }
                    value = nv;
                    ok = true;
                }
            }
            if !ok {
                value_valid = false;
                proof {
                    assert(acc_next > usize::MAX) by (nonlinear_arith)
                        requires
                            acc_next == acc + pw * payload,
                            pw == mult,
                            payload * mult > usize::MAX || acc + payload * mult > usize::MAX,
                    {
                    }
                }
            }
        } else if payload > 0 {
            if value_valid {
                value_valid = false;
            }
            proof {
                assert(acc_next > usize::MAX) by (nonlinear_arith)
                    requires
                        acc_next == acc + pw * payload,
                        payload >= 1,
                        acc > usize::MAX || pw > usize::MAX,
                {
                }
            }
        }
        proof {
            if payload == 0 {
                assert(acc_next == acc) by (nonlinear_arith)
                    requires
                        acc_next == acc + pw * payload,
                        payload == 0,
                {
                }
            }
            acc = acc_next;
        }
        if mult_valid {
            if let Some(nm) = mult.checked_mul(0x80) {
                mult = nm;
            } else {
                mult_valid = false;
            }
        }
        i = i + 1;
        count = count + 1;
    }
}

/// One step of streaming varint decoding, for a reader that pulls one
/// byte at a time and may not look ahead: given the bytes of a field
/// received so far, reports the completed value, the need for one more
/// byte — the field so far is truncated — or the error the field
/// gives.
pub fn read_varint_step(bytes: &[u8]) -> (r: Result<Option<usize>, ErrorKind>)
    ensures
        match spec_read_varint(bytes@) {
            Ok((v, rest)) => r == Ok::<Option<usize>, ErrorKind>(Some(v)),
            Err(ErrorKind::TruncatedInput) => r == Ok::<Option<usize>, ErrorKind>(None),
            Err(e) => r == Err::<Option<usize>, ErrorKind>(e),
        },
{
    proof {
        assert(bytes@.skip(0) =~= bytes@);
    }
    match read_varint(bytes, 0) {
        Ok((v, _)) => Ok(Some(v)),
        Err(ErrorKind::TruncatedInput) => Ok(None),
        Err(e) => Err(e),
    }
}

} // verus!
