//! The packet identifier key under which pending packets are stored in a
//! chain-state snapshot: its canonical `port/channel/sequence` byte form,
//! written and read back here, and the retention bound for old snapshots.

use vstd::prelude::*;

use crate::errors::RelayError;

verus! {

/// How many of the latest snapshots are retained.
pub const KEEP_SNAPSHOTS: u64 = 8;

/// The height at or below which snapshots may be deleted once a snapshot
/// at `height` is stored: anything more than the retention count behind.
pub fn vacuum_threshold(height: u64) -> (r: Option<u64>)
    ensures
        height > KEEP_SNAPSHOTS ==> r == Some((height - KEEP_SNAPSHOTS) as u64),
        height <= KEEP_SNAPSHOTS ==> r is None,
{
    if height > KEEP_SNAPSHOTS {
        Some(height - KEEP_SNAPSHOTS)
    } else {
        None
    }
}

/// The canonical decimal digits of `n`, most significant first, no
/// leading zero.
pub open spec fn spec_digits(n: nat) -> Seq<u8>
    decreases n,
{
    if n < 10 {
        seq![(48 + n) as u8]
    } else {
        spec_digits(n / 10).push((48 + n % 10) as u8)
    }
}

/// The number a digit string denotes.
pub open spec fn spec_dec_value(s: Seq<u8>) -> int
    decreases s.len(),
{
    if s.len() == 0 {
        0
    } else {
        spec_dec_value(s.drop_last()) * 10 + (s.last() - 48)
    }
}

/// Whether every byte is an ASCII digit.
pub open spec fn spec_all_digits(s: Seq<u8>) -> bool {
    forall|i: int| 0 <= i < s.len() ==> 48 <= #[trigger] s[i] <= 57
}

/// The canonical digits of `n` denote `n`.
pub proof fn lemma_digits_value(n: nat)
    ensures
        spec_dec_value(spec_digits(n)) == n,
        spec_all_digits(spec_digits(n)),
        spec_digits(n).len() >= 1,
        n >= 10 ==> spec_digits(n)[0] != 48,
        n < 10 ==> spec_digits(n)[0] == 48 + n,
    decreases n,
{
    if n < 10 {
        assert(spec_digits(n).drop_last() =~= Seq::<u8>::empty());
        assert((48 + n) as u8 == 48 + n);
        assert(spec_digits(n).len() == 1);
        assert(spec_dec_value(spec_digits(n)) == spec_dec_value(spec_digits(n).drop_last()) * 10
            + (spec_digits(n).last() - 48));
        assert(spec_dec_value(spec_digits(n).drop_last()) == 0);
        assert(spec_dec_value(spec_digits(n)) == n);
    } else {
        lemma_digits_value(n / 10);
        assert(spec_digits(n).drop_last() =~= spec_digits(n / 10));
        assert(spec_digits(n)[0] == spec_digits(n / 10)[0]);
        assert(n % 10 < 10) by (nonlinear_arith);
        assert((48 + n % 10) as u8 == 48 + n % 10);
        assert(spec_digits(n).last() == (48 + n % 10) as u8);
        assert((n / 10) * 10 + n % 10 == n) by (nonlinear_arith);
        assert(spec_dec_value(spec_digits(n)) == spec_dec_value(spec_digits(n).drop_last()) * 10
            + (spec_digits(n).last() - 48));
        assert(spec_dec_value(spec_digits(n)) == n);
    }
}

/// Write `n` in its canonical decimal form.
pub fn format_u64(n: u64) -> (r: Vec<u8>)
    ensures
        r@ == spec_digits(n as nat),
    decreases n,
{
    if n < 10 {
        let mut r: Vec<u8> = Vec::new();
        r.push(48 + (n as u8));
        proof {
            assert(r@ =~= spec_digits(n as nat));
        }
        r
    } else {
        let mut r = format_u64(n / 10);
        r.push(48 + ((n % 10) as u8));
        r
    }
}

/// A longer digit prefix never denotes a smaller number.
proof fn lemma_dec_value_prefix_le(s: Seq<u8>, i: int)
    requires
        0 <= i <= s.len(),
        spec_all_digits(s),
    ensures
        0 <= spec_dec_value(s.take(i)) <= spec_dec_value(s),
    decreases s.len() - i,
{
    if i == s.len() {
        assert(s.take(i) =~= s);
        lemma_dec_value_nonneg(s.take(i));
    } else {
        lemma_dec_value_prefix_le(s, i + 1);
        lemma_dec_value_nonneg(s.take(i));
        assert(s.take(i + 1).drop_last() =~= s.take(i));
        assert(s.take(i + 1).last() == s[i]);
    }
}

proof fn lemma_dec_value_nonneg(s: Seq<u8>)
    requires
        spec_all_digits(s),
    ensures
        spec_dec_value(s) >= 0,
    decreases s.len(),
{
    if s.len() > 0 {
        assert(spec_all_digits(s.drop_last()));
        lemma_dec_value_nonneg(s.drop_last());
    }
}

/// Read a decimal digit string. Fails on an empty string, a non-digit
/// byte, or a value past the `u64` range.
pub fn parse_u64(s: &[u8]) -> (r: Option<u64>)
    ensures
        r is Some <==> s@.len() >= 1 && spec_all_digits(s@) && spec_dec_value(s@) <= u64::MAX,
        r is Some ==> r->0 == spec_dec_value(s@),
{
    if s.len() == 0 {
        return None;
    }
    let mut acc: u64 = 0;
    let mut i: usize = 0;
    proof {
        assert(s@.take(0) =~= Seq::<u8>::empty());
    }
    while i < s.len()
        invariant
            i <= s@.len(),
            spec_all_digits(s@.take(i as int)),
            acc == spec_dec_value(s@.take(i as int)),
        decreases s@.len() - i,
    {
        let b = s[i];
        if b < 48 || b > 57 {
            proof {
                assert(!(48 <= s@[i as int] <= 57));
            }
            return None;
        }
        let digit = (b - 48) as u64;
        let wide: u128 = (acc as u128) * 10 + (digit as u128);
        proof {
            assert(s@.take(i + 1).drop_last() =~= s@.take(i as int));
            assert(s@.take(i + 1).last() == s@[i as int]);
        }
        if wide > u64::MAX as u128 {
            proof {
                assert(spec_dec_value(s@.take(i + 1)) > u64::MAX);
                if s@.len() >= 1 && spec_all_digits(s@) && spec_dec_value(s@) <= u64::MAX {
                    lemma_dec_value_prefix_le(s@, i + 1);
                    assert(false);
                }
            }
            return None;
        }
        acc = wide as u64;
        i = i + 1;
    }
    proof {
        assert(s@.take(s@.len() as int) =~= s@);
    }
    Some(acc)
}

/// Whether a byte may appear in a port or channel identifier: ASCII
/// letters, digits, and `.`, `_`, `+`, `-`. The separator `/` is not
/// among them.
pub open spec fn spec_valid_id_byte(b: u8) -> bool {
    (48 <= b <= 57) || (65 <= b <= 90) || (97 <= b <= 122) || b == 46 || b == 95 || b == 43 || b
        == 45
}

/// Whether a byte string is a well-formed identifier: non-empty, bounded,
/// and of identifier bytes only.
pub open spec fn spec_valid_identifier(s: Seq<u8>) -> bool {
    1 <= s.len() <= 128 && (forall|i: int| 0 <= i < s.len() ==> spec_valid_id_byte(#[trigger] s[i]))
}

/// Exec mirror of [`spec_valid_identifier`].
fn valid_identifier(s: &[u8]) -> (r: bool)
    ensures
        r == spec_valid_identifier(s@),
{
    if s.len() < 1 || s.len() > 128 {
        return false;
    }
    let mut i: usize = 0;
    while i < s.len()
        invariant
            i <= s@.len(),
            forall|j: int| 0 <= j < i ==> spec_valid_id_byte(#[trigger] s@[j]),
        decreases s@.len() - i,
    {
        let b = s[i];
        let ok = (48 <= b && b <= 57) || (65 <= b && b <= 90) || (97 <= b && b <= 122) || b == 46
            || b == 95 || b == 43 || b == 45;
        if !ok {
            return false;
        }
        i = i + 1;
    }
    true
}

/// The key under which one pending packet is stored: its port, channel,
/// and sequence.
pub struct PacketId {
    pub port_id: Vec<u8>,
    pub channel_id: Vec<u8>,
    pub sequence: u64,
}

/// The mathematical reading of a packet identifier.
#[verifier::ext_equal]
pub struct PacketIdView {
    pub port_id: Seq<u8>,
    pub channel_id: Seq<u8>,
    pub sequence: u64,
}

impl View for PacketId {
    type V = PacketIdView;

    open spec fn view(&self) -> PacketIdView {
        PacketIdView {
            port_id: self.port_id@,
            channel_id: self.channel_id@,
            sequence: self.sequence,
        }
    }
}

/// The canonical byte form of a packet identifier.
pub open spec fn spec_packet_id_bytes(id: PacketIdView) -> Seq<u8> {
    id.port_id + seq![47u8] + id.channel_id + seq![47u8] + spec_digits(id.sequence as nat)
}

impl PacketId {
    /// Whether both identifiers are well formed.
    pub open spec fn wf(&self) -> bool {
        spec_valid_identifier(self.port_id@) && spec_valid_identifier(self.channel_id@)
    }

    /// Write the identifier in its canonical `port/channel/sequence`
    /// byte form.
    pub fn to_bytes(&self) -> (r: Vec<u8>)
        ensures
            r@ == spec_packet_id_bytes(self@),
    {
        let mut r: Vec<u8> = Vec::new();
        append_bytes(&mut r, self.port_id.as_slice());
        r.push(47);
        append_bytes(&mut r, self.channel_id.as_slice());
        r.push(47);
        let digits = format_u64(self.sequence);
        append_bytes(&mut r, digits.as_slice());
        proof {
            assert(r@ =~= spec_packet_id_bytes(self@));
        }
        r
    }
}

/// Append a byte slice to a vector.
fn append_bytes(target: &mut Vec<u8>, source: &[u8])
    ensures
        final(target)@ == old(target)@ + source@,
{
    let mut i: usize = 0;
    proof {
        assert(old(target)@ + source@.take(0) =~= old(target)@);
    }
    while i < source.len()
        invariant
            i <= source@.len(),
            target@ == old(target)@ + source@.take(i as int),
        decreases source@.len() - i,
    {
        target.push(source[i]);
        i = i + 1;
        assert(old(target)@ + source@.take(i as int) =~= (old(target)@ + source@.take(i - 1)).push(
            source@[i - 1],
        ));
    }
    assert(old(target)@ + source@.take(source@.len() as int) =~= old(target)@ + source@);
}

/// The position of the first separator at or after `from`.
pub open spec fn spec_find_slash(s: Seq<u8>, from: int) -> Option<int>
    decreases s.len() - from,
{
    if from < 0 || from >= s.len() {
        None
    } else if s[from] == 47 {
        Some(from)
    } else {
        spec_find_slash(s, from + 1)
    }
}

/// The position of the first separator at or after `from`.
fn find_slash(s: &[u8], from: usize) -> (r: Option<usize>)
    requires
        from <= s@.len(),
    ensures
        match r {
            Some(i) => spec_find_slash(s@, from as int) == Some(i as int) && from <= i < s@.len(),
            None => spec_find_slash(s@, from as int) is None,
        },
{
    let mut i: usize = from;
    while i < s.len()
        invariant
            from <= i <= s@.len(),
            spec_find_slash(s@, from as int) == spec_find_slash(s@, i as int),
        decreases s@.len() - i,
    {
        if s[i] == 47 {
            return Some(i);
        }
        i = i + 1;
    }
    None
}

/// What the canonical reader makes of a byte string: the identifier it
/// denotes, if it splits as `port/channel/sequence` with well-formed
/// identifiers and an in-range decimal sequence.
pub open spec fn spec_parse_packet_id(s: Seq<u8>) -> Option<PacketIdView> {
    match spec_find_slash(s, 0) {
        None => None,
        Some(i) => match spec_find_slash(s, i + 1) {
            None => None,
            Some(j) => {
                let port_id = s.take(i);
                let channel_id = s.subrange(i + 1, j);
                let rest = s.skip(j + 1);
                if spec_valid_identifier(port_id) && spec_valid_identifier(channel_id)
                    && rest.len() >= 1 && spec_all_digits(rest) && spec_dec_value(rest)
                    <= u64::MAX {
                    Some(
                        PacketIdView {
                            port_id,
                            channel_id,
                            sequence: spec_dec_value(rest) as u64,
                        },
                    )
                } else {
                    None
                }
            },
        },
    }
}

/// Copy of a byte range.
fn copy_byte_range(s: &[u8], start: usize, end: usize) -> (r: Vec<u8>)
    requires
        start <= end <= s@.len(),
    ensures
        r@ == s@.subrange(start as int, end as int),
{
    let mut r: Vec<u8> = Vec::new();
    let mut i: usize = start;
    while i < end
        invariant
            start <= i <= end <= s@.len(),
            r@ == s@.subrange(start as int, i as int),
        decreases end - i,
    {
        r.push(s[i]);
        i = i + 1;
        assert(s@.subrange(start as int, i as int) =~= s@.subrange(start as int, i - 1).push(
            s@[i - 1],
        ));
    }
    r
}

/// Read a packet identifier back from its `port/channel/sequence` byte
/// form; anything else is malformed.
pub fn parse_packet_id(s: &[u8]) -> (r: Result<PacketId, RelayError>)
    ensures
        match r {
            Ok(id) => spec_parse_packet_id(s@) == Some(id@) && id.wf(),
            Err(error) => spec_parse_packet_id(s@) is None && error == RelayError::MalformedPacketId,
        },
{
    let total = s.len();
    let first = match find_slash(s, 0) {
        Some(i) => i,
        None => {
            return Err(RelayError::MalformedPacketId);
        },
    };
    proof {
        assert(first < total);
    }
    let second = match find_slash(s, first + 1) {
        Some(j) => j,
        None => {
            return Err(RelayError::MalformedPacketId);
        },
    };
    let port_id = copy_byte_range(s, 0, first);
    let channel_id = copy_byte_range(s, first + 1, second);
    proof {
        assert(s@.subrange(0, first as int) =~= s@.take(first as int));
    }
    if !valid_identifier(port_id.as_slice()) {
        return Err(RelayError::MalformedPacketId);
    }
    if !valid_identifier(channel_id.as_slice()) {
        return Err(RelayError::MalformedPacketId);
    }
    let rest = copy_byte_range(s, second + 1, s.len());
    proof {
        assert(s@.subrange(second + 1, s@.len() as int) =~= s@.skip(second + 1));
    }
    let sequence = match parse_u64(rest.as_slice()) {
        Some(n) => n,
        None => {
            return Err(RelayError::MalformedPacketId);
        },
    };
    Ok(PacketId { port_id, channel_id, sequence })
}

/// A scan that passes only non-separator bytes stops at `k`.
proof fn lemma_find_slash_at(s: Seq<u8>, from: int, k: int)
    requires
        0 <= from <= k < s.len(),
        s[k] == 47,
        forall|j: int| from <= j < k ==> s[j] != 47,
    ensures
        spec_find_slash(s, from) == Some(k),
    decreases k - from,
{
    if from < k {
        lemma_find_slash_at(s, from + 1, k);
    }
}

/// Round trip: the canonical byte form of a well-formed packet identifier
/// reads back as exactly that identifier.
pub proof fn lemma_packet_id_round_trip(id: PacketIdView)
    requires
        spec_valid_identifier(id.port_id),
        spec_valid_identifier(id.channel_id),
    ensures
        spec_parse_packet_id(spec_packet_id_bytes(id)) == Some(id),
{
    let s = spec_packet_id_bytes(id);
    let p = id.port_id.len() as int;
    let c = id.channel_id.len() as int;
    lemma_digits_value(id.sequence as nat);
    let digits = spec_digits(id.sequence as nat);
    assert(s.len() == p + 1 + c + 1 + digits.len());
    assert(s[p] == 47);
    assert(s[p + 1 + c] == 47);
    assert forall|j: int| 0 <= j < p implies s[j] != 47 by {
        assert(s[j] == id.port_id[j]);
        assert(spec_valid_id_byte(id.port_id[j]));
    }
    assert forall|j: int| p + 1 <= j < p + 1 + c implies s[j] != 47 by {
        assert(s[j] == id.channel_id[j - (p + 1)]);
        assert(spec_valid_id_byte(id.channel_id[j - (p + 1)]));
    }
    lemma_find_slash_at(s, 0, p);
    lemma_find_slash_at(s, p + 1, p + 1 + c);
    assert(s.take(p) =~= id.port_id);
    assert(s.subrange(p + 1, p + 1 + c) =~= id.channel_id);
    assert(s.skip(p + 1 + c + 1) =~= digits);
    assert(spec_dec_value(digits) == id.sequence);
    let read = spec_parse_packet_id(s);
    assert(read matches Some(v) && v =~= id);
}

} // verus!
