//! Tests for the discriminator codec: determinism, agreement with the
//! protocol's known tags, and pairwise distinctness.

use transfer_hook_interface::discriminator::discriminator;

#[test]
fn discriminator_matches_known_tags() {
    assert_eq!(
        discriminator(b"spl-hook-interface", b"initialize-extra-account-metas"),
        [233, 153, 239, 113, 226, 61, 67, 134]
    );
    assert_eq!(
        discriminator(b"spl-hook-interface", b"mint-to"),
        [143, 74, 223, 72, 254, 24, 18, 53]
    );
    assert_eq!(
        discriminator(b"spl-hook-interface", b"transfer"),
        [31, 159, 135, 240, 172, 53, 179, 104]
    );
    assert_eq!(
        discriminator(b"spl-hook-interface-example", b"arbitrary"),
        [159, 188, 87, 78, 151, 190, 23, 195]
    );
}

#[test]
fn discriminator_is_deterministic() {
    let a = discriminator(b"spl-hook-interface", b"transfer");
    let b = discriminator(b"spl-hook-interface", b"transfer");
    assert_eq!(a, b);
}

#[test]
fn discriminator_matches_host_hash() {
    let digest = solana_program::hash::hash(b"spl-hook-interface:transfer").to_bytes();
    assert_eq!(discriminator(b"spl-hook-interface", b"transfer"), digest[..8]);
}

#[test]
fn known_discriminators_are_pairwise_distinct() {
    let tags = [
        discriminator(b"spl-hook-interface", b"initialize-extra-account-metas"),
        discriminator(b"spl-hook-interface", b"mint-to"),
        discriminator(b"spl-hook-interface", b"transfer"),
        discriminator(b"spl-hook-interface-example", b"arbitrary"),
    ];
    for i in 0..tags.len() {
        for j in 0..tags.len() {
            if i != j {
                assert_ne!(tags[i], tags[j]);
            }
        }
    }
}
