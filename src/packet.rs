use vstd::arithmetic::div_mod::{lemma_mod_multiples_vanish, lemma_mod_twice, lemma_small_mod};
use vstd::prelude::*;

verus! {

/// Length of the synchronization stream that opens a magic payload.
pub const SYNC_LEN: usize = 6;

/// Length of a hardware (MAC) address.
pub const MAC_LEN: usize = 6;

/// Length of a whole magic payload: the synchronization stream and sixteen addresses.
pub const MAGIC_LEN: usize = 102;

/// A magic payload: 102 bytes, six `0xFF`, then the six bytes that follow repeated without
/// gaps sixteen times (so every byte past the stream equals its counterpart in the first copy).
pub open spec fn is_magic_payload(p: Seq<u8>) -> bool {
    &&& p.len() == MAGIC_LEN
    &&& forall|i: int| 0 <= i < SYNC_LEN ==> #[trigger] p[i] == 0xffu8
    &&& forall|i: int| SYNC_LEN <= i < MAGIC_LEN ==> #[trigger] p[i] == p[SYNC_LEN + (i - SYNC_LEN) % 6]
}

/// The trailing 102 bytes of a frame that holds at least that many.
pub open spec fn trailing_payload(f: Seq<u8>) -> Seq<u8> {
    f.subrange(f.len() - MAGIC_LEN, f.len() as int)
}

/// A frame is a Wake-on-LAN frame when it is long enough and its trailing 102 bytes form a
/// magic payload; whatever comes before them is not looked at.
pub open spec fn is_wol_frame(f: Seq<u8>) -> bool {
    f.len() >= MAGIC_LEN && is_magic_payload(trailing_payload(f))
}

/// The magic payload that wakes the machine with hardware address `mac`.
pub open spec fn magic_payload_for(mac: Seq<u8>) -> Seq<u8> {
    Seq::new(MAGIC_LEN as nat, |i: int| if i < SYNC_LEN { 0xffu8 } else { mac[(i - SYNC_LEN) % 6] })
}

/// `magic_payload_for(mac)` with copy number `k` (counted from zero) replaced by `other`.
pub open spec fn payload_with_altered_copy(mac: Seq<u8>, k: int, other: Seq<u8>) -> Seq<u8> {
    Seq::new(
        MAGIC_LEN as nat,
        |i: int|
            if i < SYNC_LEN {
                0xffu8
            } else if SYNC_LEN + 6 * k <= i < SYNC_LEN + 6 * k + 6 {
                other[(i - SYNC_LEN) % 6]
            } else {
                mac[(i - SYNC_LEN) % 6]
            },
    )
}

/// Decides whether a captured link-layer frame carries a Wake-on-LAN magic packet at its end.
pub fn is_wol_packet(packet: &[u8]) -> (r: bool)
    ensures
        r == is_wol_frame(packet@),
{
    if packet.len() < MAGIC_LEN {
        return false;
    }
    let start: usize = packet.len() - MAGIC_LEN;
    let ghost p = trailing_payload(packet@);
    assert(forall|k: int| 0 <= k < MAGIC_LEN ==> #[trigger] p[k] == packet@[start + k]);
    let mut i: usize = 0;
    while i < SYNC_LEN
        invariant
            start + MAGIC_LEN == packet.len(),
            p == trailing_payload(packet@),
            i <= SYNC_LEN,
            forall|k: int| 0 <= k < MAGIC_LEN ==> #[trigger] p[k] == packet@[start + k],
            forall|k: int| 0 <= k < i ==> #[trigger] p[k] == 0xffu8,
        decreases SYNC_LEN - i,
    {
        if packet[start + i] != 0xffu8 {
            assert(p[i as int] != 0xffu8);
            return false;
        }
        i = i + 1;
    }
    let mut i: usize = SYNC_LEN;
    while i < MAGIC_LEN
        invariant
            start + MAGIC_LEN == packet.len(),
            p == trailing_payload(packet@),
            SYNC_LEN <= i <= MAGIC_LEN,
            forall|k: int| 0 <= k < MAGIC_LEN ==> #[trigger] p[k] == packet@[start + k],
            forall|k: int| 0 <= k < SYNC_LEN ==> #[trigger] p[k] == 0xffu8,
            forall|k: int| SYNC_LEN <= k < i ==> #[trigger] p[k] == p[SYNC_LEN + (k - SYNC_LEN) % 6],
        decreases MAGIC_LEN - i,
    {
        let j: usize = SYNC_LEN + (i - SYNC_LEN) % MAC_LEN;
        if packet[start + i] != packet[start + j] {
            assert(p[i as int] != p[SYNC_LEN + (i - SYNC_LEN) % 6]);
            return false;
        }
        i = i + 1;
    }
    true
}

/// A frame shorter than a magic payload is never a Wake-on-LAN frame.
pub proof fn short_frame_is_rejected(f: Seq<u8>)
    requires
        f.len() < MAGIC_LEN,
    ensures
        !is_wol_frame(f),
{
}

/// Whatever bytes come first, a frame that ends in six `0xFF` and sixteen copies of any
/// six-byte address is a Wake-on-LAN frame.
pub proof fn magic_payload_is_accepted(prefix: Seq<u8>, mac: Seq<u8>)
    requires
        mac.len() == MAC_LEN,
    ensures
        is_wol_frame(prefix + magic_payload_for(mac)),
{
    let p = magic_payload_for(mac);
    let f = prefix + p;
    assert(trailing_payload(f) =~= p);
    assert forall|i: int| SYNC_LEN <= i < MAGIC_LEN implies #[trigger] p[i] == p[SYNC_LEN + (i
        - SYNC_LEN) % 6] by {
        lemma_mod_twice(i - SYNC_LEN, 6);
    }
}

/// Changing one of the sixteen address copies to a different six-byte value makes the frame
/// no Wake-on-LAN frame, whatever bytes come first.
pub proof fn altered_copy_is_rejected(prefix: Seq<u8>, mac: Seq<u8>, k: int, other: Seq<u8>)
    requires
        mac.len() == MAC_LEN,
        other.len() == MAC_LEN,
        0 <= k < 16,
        other != mac,
    ensures
        !is_wol_frame(prefix + payload_with_altered_copy(mac, k, other)),
{
    let p = payload_with_altered_copy(mac, k, other);
    let f = prefix + p;
    assert(trailing_payload(f) =~= p);
    assert(exists|j: int| 0 <= j < MAC_LEN && other[j] != mac[j]) by {
        if forall|j: int| 0 <= j < MAC_LEN ==> other[j] == mac[j] {
            assert(other =~= mac);
        }
    }
    let j = choose|j: int| 0 <= j < MAC_LEN && other[j] != mac[j];
    lemma_small_mod(j as nat, 6);
    if k == 0 {
        let i = SYNC_LEN + 6 + j;
        lemma_mod_multiples_vanish(1, j, 6);
        assert(p[i] == mac[j]);
        assert(p[SYNC_LEN + (i - SYNC_LEN) % 6] == other[j]);
    } else {
        let i = SYNC_LEN + 6 * k + j;
        lemma_mod_multiples_vanish(k, j, 6);
        assert(p[i] == other[j]);
        assert(p[SYNC_LEN + (i - SYNC_LEN) % 6] == mac[j]);
    }
}

/// Bytes placed in front of a frame of at least 102 bytes do not change its classification.
pub proof fn leading_bytes_are_ignored(pad: Seq<u8>, f: Seq<u8>)
    requires
        f.len() >= MAGIC_LEN,
    ensures
        is_wol_frame(pad + f) == is_wol_frame(f),
{
    assert(trailing_payload(pad + f) =~= trailing_payload(f));
}

} // verus!
