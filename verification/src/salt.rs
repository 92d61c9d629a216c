use vstd::prelude::*;

verus! {

/// Byte `i` (0 = most significant) of the big-endian encoding of `id`.
pub open spec fn be_byte(id: u64, i: int) -> u8 {
    ((id >> ((56 - 8 * i) as u64)) & 0xff) as u8
}

/// The 32-byte deployment salt of the contract with suffix `suffix` in the
/// governor stack `id`: the big-endian `id` in bytes 0..8, `suffix` in the last
/// byte, zero everywhere else.
pub open spec fn spec_deploy_salt(id: u64, suffix: u8) -> Seq<u8> {
    Seq::new(
        32,
        |i: int|
            if i < 8 {
                be_byte(id, i)
            } else if i == 31 {
                suffix
            } else {
                0u8
            },
    )
}

/// Builds the deterministic salt under which the contract with suffix
/// `suffix` of governor stack `id` is deployed, so that its address is
/// predictable from the factory and the id alone.
pub fn deploy_salt(id: u64, suffix: u8) -> (salt: [u8; 32])
    ensures
        salt@ == spec_deploy_salt(id, suffix),
{
    let mut salt: [u8; 32] = [0u8; 32];
    let mut i: usize = 0;
    while i < 8
        invariant
            0 <= i <= 8,
            forall|j: int| 0 <= j < i ==> salt@[j] == be_byte(id, j),
            forall|j: int| 8 <= j < 32 ==> salt@[j] == 0u8,
        decreases 8 - i,
    {
        let shift: u64 = 56 - 8 * (i as u64);
        let byte: u8 = ((id >> shift) & 0xff) as u8;
        salt[i] = byte;
        i = i + 1;
    }
    salt[31] = suffix;
    assert(salt@ =~= spec_deploy_salt(id, suffix));
    salt
}

/// Two deployment salts are equal exactly when they were made for the same
/// governor stack and the same contract suffix: no two contracts deployed by
/// the factory share a salt.
pub proof fn law_deploy_salts_are_distinct(id1: u64, suffix1: u8, id2: u64, suffix2: u8)
    ensures
        (spec_deploy_salt(id1, suffix1) == spec_deploy_salt(id2, suffix2)) <==> (id1 == id2
            && suffix1 == suffix2),
{
    let s1 = spec_deploy_salt(id1, suffix1);
    let s2 = spec_deploy_salt(id2, suffix2);
    if s1 == s2 {
        assert(s1[31] == s2[31]);
        assert(s1[0] == s2[0] && s1[1] == s2[1] && s1[2] == s2[2] && s1[3] == s2[3]);
        assert(s1[4] == s2[4] && s1[5] == s2[5] && s1[6] == s2[6] && s1[7] == s2[7]);
        let a = id1;
        let b = id2;
        assert(a == b) by (bit_vector)
            requires
                ((a >> 56u64) & 0xff) as u8 == ((b >> 56u64) & 0xff) as u8,
                ((a >> 48u64) & 0xff) as u8 == ((b >> 48u64) & 0xff) as u8,
                ((a >> 40u64) & 0xff) as u8 == ((b >> 40u64) & 0xff) as u8,
                ((a >> 32u64) & 0xff) as u8 == ((b >> 32u64) & 0xff) as u8,
                ((a >> 24u64) & 0xff) as u8 == ((b >> 24u64) & 0xff) as u8,
                ((a >> 16u64) & 0xff) as u8 == ((b >> 16u64) & 0xff) as u8,
                ((a >> 8u64) & 0xff) as u8 == ((b >> 8u64) & 0xff) as u8,
                ((a >> 0u64) & 0xff) as u8 == ((b >> 0u64) & 0xff) as u8,
        ;
    }
    if id1 == id2 && suffix1 == suffix2 {
        assert(s1 =~= s2);
    }
}

} // verus!
