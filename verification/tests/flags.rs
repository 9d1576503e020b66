use control_regs::cr0::{
    Cr0Flags, CR0_ALL, CR0_AM, CR0_CD, CR0_EM, CR0_ET, CR0_MP, CR0_NE, CR0_NW, CR0_PE, CR0_PG,
    CR0_TS, CR0_WP,
};
use control_regs::cr3::{Cr3Flags, CR3_ADDR_MASK, CR3_ALL, CR3_PCD, CR3_PWT};
use control_regs::cr4::{
    Cr4Flags, CR4_ALL, CR4_DE, CR4_FSGSBASE, CR4_LA57, CR4_MCE, CR4_OSFXSR, CR4_OSXMMEXCPT,
    CR4_OSXSAVE, CR4_PAE, CR4_PCE, CR4_PCIDE, CR4_PGE, CR4_PKE, CR4_PSE, CR4_PVI, CR4_SMAP,
    CR4_SMEP, CR4_SMXE, CR4_TSD, CR4_UMIP, CR4_VME, CR4_VMXE,
};

const CR0_MASKS: [u64; 11] = [
    CR0_PE, CR0_MP, CR0_EM, CR0_TS, CR0_ET, CR0_NE, CR0_WP, CR0_AM, CR0_NW, CR0_CD, CR0_PG,
];
const CR0_POSITIONS: [u32; 11] = [0, 1, 2, 3, 4, 5, 16, 18, 29, 30, 31];

const CR3_MASKS: [u64; 2] = [CR3_PCD, CR3_PWT];
const CR3_POSITIONS: [u32; 2] = [3, 4];

const CR4_MASKS: [u64; 21] = [
    CR4_VME, CR4_PVI, CR4_TSD, CR4_DE, CR4_PSE, CR4_PAE, CR4_MCE, CR4_PGE, CR4_PCE, CR4_OSFXSR,
    CR4_OSXMMEXCPT, CR4_UMIP, CR4_LA57, CR4_VMXE, CR4_SMXE, CR4_FSGSBASE, CR4_PCIDE, CR4_OSXSAVE,
    CR4_SMEP, CR4_SMAP, CR4_PKE,
];
const CR4_POSITIONS: [u32; 21] = [
    0, 1, 2, 3, 4, 5, 6, 7, 8, 9, 10, 11, 12, 13, 14, 16, 17, 18, 20, 21, 22,
];

#[test]
fn cr0_truncation_is_masking() {
    // Truncating and reading the raw pattern back masks to the named bits.
    for r in [
        0u64,
        0x11,
        0x8000_0011,
        0xffff_ffff_ffff_ffff,
        0x1234_5678_9abc_def0,
        !CR0_ALL,
    ] {
        assert_eq!(Cr0Flags::from_raw_truncating(r).to_raw(), r & CR0_ALL);
    }
    // Exact values: named mask, a fully set raw value, a fully reserved one.
    assert_eq!(CR0_ALL, 0xe005_003f);
    assert_eq!(
        Cr0Flags::from_raw_truncating(0xffff_ffff_ffff_ffff).to_raw(),
        0xe005_003f
    );
    assert_eq!(Cr0Flags::from_raw_truncating(!CR0_ALL).to_raw(), 0);
}

#[test]
fn cr3_truncation_is_masking() {
    for r in [0u64, 0x18, 0x1234_5018, 0xffff_ffff_ffff_ffff] {
        assert_eq!(Cr3Flags::from_raw_truncating(r).to_raw(), r & CR3_ALL);
    }
    assert_eq!(CR3_ALL, 0x18);
}

#[test]
fn cr4_truncation_is_masking() {
    for r in [
        0u64,
        0x7fff,
        0x77_7fff,
        0xffff_ffff_ffff_ffff,
        0xdead_beef_dead_beef,
    ] {
        assert_eq!(Cr4Flags::from_raw_truncating(r).to_raw(), r & CR4_ALL);
    }
    assert_eq!(CR4_ALL, 0x0077_7fff);
}

#[test]
fn cr0_raw_round_trip() {
    // The round trip through raw form is lossless for named bits.
    for bits in [0u64, CR0_PE, CR0_PE | CR0_PG, CR0_ALL, CR0_WP | CR0_AM | CR0_CD] {
        let f = Cr0Flags::from_raw_truncating(bits);
        assert_eq!(Cr0Flags::from_raw_truncating(f.to_raw()), f);
    }
}

#[test]
fn cr3_raw_round_trip() {
    for bits in [0u64, CR3_PCD, CR3_PWT, CR3_ALL] {
        let f = Cr3Flags::from_raw_truncating(bits);
        assert_eq!(Cr3Flags::from_raw_truncating(f.to_raw()), f);
    }
}

#[test]
fn cr4_raw_round_trip() {
    for bits in [0u64, CR4_PAE, CR4_SMEP | CR4_SMAP | CR4_PKE, CR4_ALL] {
        let f = Cr4Flags::from_raw_truncating(bits);
        assert_eq!(Cr4Flags::from_raw_truncating(f.to_raw()), f);
    }
}

#[test]
fn cr0_set_algebra() {
    let pe = Cr0Flags::from_raw_truncating(CR0_PE);
    let pg = Cr0Flags::from_raw_truncating(CR0_PG);
    let both = pe.union(pg);
    assert_eq!(both.to_raw(), CR0_PE | CR0_PG);
    assert_eq!(both.intersection(pe), pe);
    assert_eq!(both.difference(pe), pg);
    assert!(both.contains(pe));
    assert!(both.contains(pg));
    assert!(!pe.contains(pg));
    assert!(both.contains(Cr0Flags::empty()));
    assert_eq!(Cr0Flags::empty().to_raw(), 0);
    assert_eq!(Cr0Flags::all_named().to_raw(), CR0_ALL);
    assert!(Cr0Flags::all_named().contains(both));
}

#[test]
fn cr4_set_algebra() {
    let pae = Cr4Flags::from_raw_truncating(CR4_PAE);
    let pge = Cr4Flags::from_raw_truncating(CR4_PGE);
    let both = pae.union(pge);
    assert_eq!(both.to_raw(), CR4_PAE | CR4_PGE);
    assert_eq!(both.intersection(pge), pge);
    assert_eq!(both.difference(pge), pae);
    assert!(both.contains(pae));
    assert!(!pae.contains(pge));
    assert_eq!(Cr4Flags::all_named().to_raw(), CR4_ALL);
}

#[test]
fn cr0_flag_positions_and_disjointness() {
    // Each named flag is exactly one bit at its documented position.
    for (m, p) in CR0_MASKS.iter().zip(CR0_POSITIONS.iter()) {
        assert_eq!(*m, 1u64 << p);
    }
    // No two named flags share a bit position.
    for i in 0..CR0_MASKS.len() {
        for j in 0..CR0_MASKS.len() {
            if i != j {
                assert_eq!(CR0_MASKS[i] & CR0_MASKS[j], 0);
            }
        }
    }
    // The named mask is exactly their union.
    assert_eq!(CR0_MASKS.iter().fold(0, |a, m| a | m), CR0_ALL);
}

#[test]
fn cr3_flag_positions_and_disjointness() {
    for (m, p) in CR3_MASKS.iter().zip(CR3_POSITIONS.iter()) {
        assert_eq!(*m, 1u64 << p);
    }
    assert_eq!(CR3_PCD & CR3_PWT, 0);
    assert_eq!(CR3_PCD | CR3_PWT, CR3_ALL);
    // The flag bits never overlap the address payload.
    assert_eq!(CR3_ALL & CR3_ADDR_MASK, 0);
}

#[test]
fn cr4_flag_positions_and_disjointness() {
    for (m, p) in CR4_MASKS.iter().zip(CR4_POSITIONS.iter()) {
        assert_eq!(*m, 1u64 << p);
    }
    for i in 0..CR4_MASKS.len() {
        for j in 0..CR4_MASKS.len() {
            if i != j {
                assert_eq!(CR4_MASKS[i] & CR4_MASKS[j], 0);
            }
        }
    }
    assert_eq!(CR4_MASKS.iter().fold(0, |a, m| a | m), CR4_ALL);
}
