use anchor_programs::error::ErrorCode;
use anchor_programs::key::Pubkey;
use anchor_programs::whitelist::{Whitelist, WhitelistEntry, WHITELIST_ENTRY_SPACE, WHITELIST_SPACE};

#[test]
fn whitelist_data_layout_and_round_trip() {
    let w = Whitelist { authority: Pubkey::new_from_array([9u8; 32]) };
    let data = w.try_serialize();
    assert_eq!(data.len(), WHITELIST_SPACE);
    assert_eq!(&data[0..8], &[204u8, 176, 52, 79, 146, 121, 54, 247]);
    assert_eq!(&data[8..40], &[9u8; 32]);
    let back = Whitelist::try_deserialize(&data).unwrap();
    assert_eq!(back.authority.bytes, [9u8; 32]);
}

#[test]
fn whitelist_entry_data_layout_and_round_trip() {
    let e = WhitelistEntry { user: Pubkey::new_from_array([3u8; 32]), bump: 251 };
    let data = e.try_serialize();
    assert_eq!(data.len(), WHITELIST_ENTRY_SPACE);
    assert_eq!(&data[0..8], &[51u8, 70, 173, 81, 219, 192, 234, 62]);
    assert_eq!(&data[8..40], &[3u8; 32]);
    assert_eq!(data[40], 251);
    let back = WhitelistEntry::try_deserialize(&data).unwrap();
    assert_eq!(back.user.bytes, [3u8; 32]);
    assert_eq!(back.bump, 251);
}

#[test]
fn account_data_refusals() {
    assert!(matches!(Whitelist::try_deserialize(&[1, 2, 3]), Err(ErrorCode::AccountDiscriminatorNotFound)));
    let entry = WhitelistEntry { user: Pubkey::new_from_array([3u8; 32]), bump: 1 }.try_serialize();
    assert!(matches!(Whitelist::try_deserialize(&entry), Err(ErrorCode::AccountDiscriminatorMismatch)));
    let list = Whitelist { authority: Pubkey::new_from_array([3u8; 32]) }.try_serialize();
    assert!(matches!(WhitelistEntry::try_deserialize(&list), Err(ErrorCode::AccountDiscriminatorMismatch)));
    assert!(matches!(WhitelistEntry::try_deserialize(&entry[0..40]), Err(ErrorCode::AccountDidNotDeserialize)));
    let mut longer = list.clone();
    longer.extend_from_slice(&[7u8; 5]);
    assert_eq!(Whitelist::try_deserialize(&longer).unwrap().authority.bytes, [3u8; 32]);
}

/// SHA-256 of a message, written out for these tests (FIPS 180-4).
fn sha256(message: &[u8]) -> [u8; 32] {
    const K: [u32; 64] = [
        0x428a2f98, 0x71374491, 0xb5c0fbcf, 0xe9b5dba5, 0x3956c25b, 0x59f111f1, 0x923f82a4, 0xab1c5ed5,
        0xd807aa98, 0x12835b01, 0x243185be, 0x550c7dc3, 0x72be5d74, 0x80deb1fe, 0x9bdc06a7, 0xc19bf174,
        0xe49b69c1, 0xefbe4786, 0x0fc19dc6, 0x240ca1cc, 0x2de92c6f, 0x4a7484aa, 0x5cb0a9dc, 0x76f988da,
        0x983e5152, 0xa831c66d, 0xb00327c8, 0xbf597fc7, 0xc6e00bf3, 0xd5a79147, 0x06ca6351, 0x14292967,
        0x27b70a85, 0x2e1b2138, 0x4d2c6dfc, 0x53380d13, 0x650a7354, 0x766a0abb, 0x81c2c92e, 0x92722c85,
        0xa2bfe8a1, 0xa81a664b, 0xc24b8b70, 0xc76c51a3, 0xd192e819, 0xd6990624, 0xf40e3585, 0x106aa070,
        0x19a4c116, 0x1e376c08, 0x2748774c, 0x34b0bcb5, 0x391c0cb3, 0x4ed8aa4a, 0x5b9cca4f, 0x682e6ff3,
        0x748f82ee, 0x78a5636f, 0x84c87814, 0x8cc70208, 0x90befffa, 0xa4506ceb, 0xbef9a3f7, 0xc67178f2,
    ];
    let mut h: [u32; 8] = [
        0x6a09e667, 0xbb67ae85, 0x3c6ef372, 0xa54ff53a, 0x510e527f, 0x9b05688c, 0x1f83d9ab, 0x5be0cd19,
    ];
    let mut padded = message.to_vec();
    padded.push(0x80);
    while padded.len() % 64 != 56 {
        padded.push(0);
    }
    padded.extend_from_slice(&((message.len() as u64) * 8).to_be_bytes());
    for block in padded.chunks(64) {
        let mut w = [0u32; 64];
        for i in 0..16 {
            w[i] = u32::from_be_bytes([block[4 * i], block[4 * i + 1], block[4 * i + 2], block[4 * i + 3]]);
        }
        for i in 16..64 {
            let s0 = w[i - 15].rotate_right(7) ^ w[i - 15].rotate_right(18) ^ (w[i - 15] >> 3);
            let s1 = w[i - 2].rotate_right(17) ^ w[i - 2].rotate_right(19) ^ (w[i - 2] >> 10);
            w[i] = w[i - 16].wrapping_add(s0).wrapping_add(w[i - 7]).wrapping_add(s1);
        }
        let mut v = h;
        for i in 0..64 {
            let s1 = v[4].rotate_right(6) ^ v[4].rotate_right(11) ^ v[4].rotate_right(25);
            let ch = (v[4] & v[5]) ^ (!v[4] & v[6]);
            let t1 = v[7].wrapping_add(s1).wrapping_add(ch).wrapping_add(K[i]).wrapping_add(w[i]);
            let s0 = v[0].rotate_right(2) ^ v[0].rotate_right(13) ^ v[0].rotate_right(22);
            let maj = (v[0] & v[1]) ^ (v[0] & v[2]) ^ (v[1] & v[2]);
            let t2 = s0.wrapping_add(maj);
            v = [t1.wrapping_add(t2), v[0], v[1], v[2], v[3].wrapping_add(t1), v[4], v[5], v[6]];
        }
        for i in 0..8 {
            h[i] = h[i].wrapping_add(v[i]);
        }
    }
    let mut out = [0u8; 32];
    for i in 0..8 {
        out[4 * i..4 * i + 4].copy_from_slice(&h[i].to_be_bytes());
    }
    out
}

fn sha256_prefix(preimage: &[u8]) -> Vec<u8> {
    sha256(preimage)[0..8].to_vec()
}

#[test]
fn sha256_of_abc() {
    assert_eq!(
        sha256(b"abc")[0..8].to_vec(),
        vec![0xba, 0x78, 0x16, 0xbf, 0x8f, 0x01, 0xcf, 0xea]
    );
}

#[test]
fn discriminators_are_the_sha256_prefixes_of_their_names() {
    let list = Whitelist { authority: Pubkey::new_from_array([0u8; 32]) }.try_serialize();
    assert_eq!(list[0..8].to_vec(), sha256_prefix(b"account:Whitelist"));
    let entry = WhitelistEntry { user: Pubkey::new_from_array([0u8; 32]), bump: 0 }.try_serialize();
    assert_eq!(entry[0..8].to_vec(), sha256_prefix(b"account:WhitelistEntry"));
    assert_eq!(
        anchor_programs::randomness::consume_randomness_discriminator_bytes(),
        sha256_prefix(b"global:consume_randomness")
    );
}
