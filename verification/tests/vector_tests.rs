//! Numeric containers: creation, the copy/borrow/transfer ownership
//! modes, the borrowed-array tracker, and the sentinel handles.

use ceed::vector::{ArrayHandle, BufferOwner, Vector, VectorKind};
use ceed::{Ceed, CopyMode, Error, MemType, NormType};

fn bits(values: &[f64]) -> Vec<u64> {
    values.iter().map(|v| v.to_bits()).collect()
}

#[test]
fn t_create_length() {
    let ceed = Ceed::default_init();
    assert_eq!(ceed.vector(10).length(), 10);
    assert_eq!(ceed.vector(0).length(), 0);
    assert_eq!(ceed.vector(3).len(), 3);
    let v = Vector::create(&ceed, 7);
    assert_eq!(v.length(), 7);
    let w = Vector::new(&ceed, bits(&[1.0, 2.0]));
    assert_eq!(w.length(), 2);
}

#[test]
fn t_set_value_max_norm() {
    let ceed = Ceed::default_init();
    let mut v = ceed.vector(10);
    v.set_value(42.0f64.to_bits()).unwrap();
    assert_eq!(v.norm(NormType::Max).unwrap(), 42.0f64.to_bits());
    v.set_value((-3.5f64).to_bits()).unwrap();
    assert_eq!(v.norm(NormType::Max).unwrap(), 3.5f64.to_bits());
}

#[test]
fn t_norm_one_two_unsupported() {
    let ceed = Ceed::default_init();
    let mut v = ceed.vector(4);
    v.set_value(1.0f64.to_bits()).unwrap();
    assert_eq!(v.norm(NormType::One), Err(Error::UnsupportedNorm));
    assert_eq!(v.norm(NormType::Two), Err(Error::UnsupportedNorm));
}

#[test]
fn t_from_slice_round_trip() {
    let ceed = Ceed::default_init();
    let data = bits(&[1.0, 2.0, 3.0]);
    let mut v = ceed.vector_from_slice(&data);
    assert_eq!(v.length(), 3);
    let h = v.get_array(MemType::Host).unwrap();
    for i in 0..3 {
        assert_eq!(h.at(i), data[i]);
    }
    v.restore_array(h).unwrap();
    let h2 = v.get_array(MemType::Host).unwrap();
    for i in 0..3 {
        assert_eq!(h2.at(i), data[i]);
    }
    v.restore_array(h2).unwrap();
}

#[test]
fn t_copy_mode_independent() {
    let ceed = Ceed::default_init();
    let mut buf = bits(&[1.0, 2.0, 3.0, 4.0]);
    let mut v = ceed.vector(4);
    v.set_slice(&buf).unwrap();
    buf[0] = 99.0f64.to_bits();
    let h = v.get_array(MemType::Host).unwrap();
    assert_eq!(h.at(0), 1.0f64.to_bits());
    v.restore_array(h).unwrap();

    let mut w = ceed.vector(4);
    let mut buf2 = bits(&[5.0, 6.0, 7.0, 8.0]);
    w.set_array(MemType::Host, CopyMode::CopyValues, buf2.clone()).unwrap();
    buf2[1] = 0.0f64.to_bits();
    let h2 = w.get_array(MemType::Host).unwrap();
    assert_eq!(h2.at(1), 6.0f64.to_bits());
    w.restore_array(h2).unwrap();
}

#[test]
fn t_borrow_exclusive() {
    let ceed = Ceed::default_init();
    let mut v = ceed.vector_from_slice(&bits(&[1.0, 2.0]));
    let h = v.get_array(MemType::Host).unwrap();
    assert!(matches!(v.get_array(MemType::Host), Err(Error::BorrowOutstanding)));
    assert_eq!(v.set_value(0), Err(Error::BorrowOutstanding));
    assert_eq!(v.set_slice(&[0, 0]), Err(Error::BorrowOutstanding));
    assert_eq!(v.norm(NormType::Max), Err(Error::BorrowOutstanding));
    v.restore_array(h).unwrap();
    let h2 = v.get_array(MemType::Host).unwrap();
    v.restore_array(h2).unwrap();
}

#[test]
fn t_borrow_reconciles_writes() {
    let ceed = Ceed::default_init();
    let mut v = ceed.vector_from_slice(&bits(&[1.0, 2.0]));
    let mut h = v.get_array(MemType::Host).unwrap();
    h.set(0, 10.0f64.to_bits());
    v.restore_array(h).unwrap();
    let h2 = v.get_array(MemType::Host).unwrap();
    assert_eq!(h2.at(0), 10.0f64.to_bits());
    assert_eq!(h2.at(1), 2.0f64.to_bits());
    assert_eq!(h2.len(), 2);
    v.restore_array(h2).unwrap();
}

#[test]
fn t_restore_errors() {
    let ceed = Ceed::default_init();
    let mut v5 = ceed.vector(5);
    let mut v3 = ceed.vector(3);
    let h5: ArrayHandle = v5.get_array(MemType::Host).unwrap();
    let h3: ArrayHandle = v3.get_array(MemType::Host).unwrap();
    // a handle of the wrong length cannot be the lent buffer
    assert_eq!(v5.restore_array(h3), Err(Error::BorrowMismatch));
    v5.restore_array(h5).unwrap();
    // nothing is outstanding any more
    let h5b = {
        let mut other = ceed.vector(5);
        other.get_array(MemType::Host).unwrap()
    };
    assert_eq!(v5.restore_array(h5b), Err(Error::NoBorrowOutstanding));
}

#[test]
fn t_set_slice_mismatch() {
    let ceed = Ceed::default_init();
    let mut v = ceed.vector(4);
    assert_eq!(v.set_slice(&bits(&[1.0, 2.0])), Err(Error::LengthMismatch));
    assert_eq!(v.length(), 4);
}

#[test]
fn t_set_array_modes() {
    let ceed = Ceed::default_init();
    let mut v = ceed.vector(2);
    assert_eq!(v.buffer_owner(), BufferOwner::Wrapper);

    v.set_array(MemType::Host, CopyMode::CopyValues, bits(&[1.0, 2.0])).unwrap();
    assert_eq!(v.buffer_owner(), BufferOwner::Wrapper);

    v.set_array(MemType::Host, CopyMode::UsePointer, bits(&[3.0, 4.0])).unwrap();
    assert_eq!(v.buffer_owner(), BufferOwner::Caller);

    v.set_array(MemType::Host, CopyMode::OwnPointer, bits(&[5.0, 6.0])).unwrap();
    assert_eq!(v.buffer_owner(), BufferOwner::Backend);
    assert_eq!(v.norm(NormType::Max).unwrap(), 6.0f64.to_bits());

    assert_eq!(
        v.set_array(MemType::Host, CopyMode::CopyValues, bits(&[1.0])),
        Err(Error::LengthMismatch)
    );
}

#[test]
fn t_sync_noop() {
    let ceed = Ceed::default_init();
    let v = ceed.vector_from_slice(&bits(&[1.0]));
    v.sync(MemType::Host);
    v.sync(MemType::Device);
    assert_eq!(v.length(), 1);
}

#[test]
fn t_sentinel_vectors() {
    let a = ceed::vector_none();
    let b = ceed::vector_none();
    assert_eq!(a.kind(), VectorKind::SentinelNone);
    assert_eq!(a.kind(), b.kind());
    assert_eq!(a.length(), b.length());
    assert!(a.is_sentinel());
    let c = ceed::vector_active();
    assert_eq!(c.kind(), VectorKind::SentinelActive);
    assert!(c.is_sentinel());
    assert_ne!(a.kind(), c.kind());
    let ceed = Ceed::default_init();
    assert!(!ceed.vector(1).is_sentinel());
}
