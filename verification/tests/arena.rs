use bump_alloc::align::align_to;
use bump_alloc::bump::{AllocError, BumpAllocator};

#[test]
fn align_to_exact_values() {
    assert_eq!(align_to(0, 1), 0);
    assert_eq!(align_to(5, 1), 5);
    assert_eq!(align_to(5, 8), 8);
    assert_eq!(align_to(8, 8), 8);
    assert_eq!(align_to(9, 8), 16);
    assert_eq!(align_to(1023, 256), 1024);
}

#[test]
fn new_has_default_capacity() {
    let a = BumpAllocator::new();
    assert_eq!(a.capacity(), 1024 * 1024 * 1024);
    assert_eq!(a.offset(), 0);
    assert!(a.needs_reservation());
}

#[test]
fn with_size_sets_capacity() {
    let a = BumpAllocator::with_size(4096);
    assert_eq!(a.capacity(), 4096);
    assert_eq!(a.offset(), 0);
    assert!(a.needs_reservation());
}

#[test]
fn reservation_failure_is_fatal_and_leaves_state() {
    let mut a = BumpAllocator::with_size(4096);
    let r = a.complete_reservation(None);
    assert_eq!(r, Err(AllocError::ReservationFailure));
    assert!(a.needs_reservation());
    assert_eq!(a.offset(), 0);
}

#[test]
fn reservation_happens_once() {
    let mut a = BumpAllocator::with_size(4096);
    assert!(a.needs_reservation());
    let r = a.complete_reservation(Some(65536));
    assert_eq!(r, Ok(()));
    assert!(!a.needs_reservation());
    assert_eq!(a.base(), 65536);
    let p = a.allocate(16, 8);
    assert!(p.is_ok());
    assert!(!a.needs_reservation());
    assert_eq!(a.base(), 65536);
}

#[test]
fn capacity_exhaustion() {
    let mut a = BumpAllocator::with_size(4096);
    a.complete_reservation(Some(65536)).unwrap();
    let p = a.allocate(4096, 1);
    assert_eq!(p, Ok(65536));
    assert_eq!(a.offset(), 4097);
    let q = a.allocate(1, 1);
    assert_eq!(q, Err(AllocError::CapacityExhausted));
    assert_eq!(a.offset(), 4099);
}

#[test]
fn served_addresses_are_aligned() {
    let mut a = BumpAllocator::with_size(1024);
    a.complete_reservation(Some(4096)).unwrap();
    let p = a.allocate(10, 8).unwrap();
    assert_eq!(p, 4096);
    assert_eq!(p % 8, 0);
    assert_eq!(a.offset(), 24);
    let q = a.allocate(3, 16).unwrap();
    assert_eq!(q, 4096 + 32);
    assert_eq!(q % 16, 0);
    let r = a.allocate(1, 64).unwrap();
    assert_eq!(r % 64, 0);
}

#[test]
fn served_ranges_are_disjoint() {
    let mut a = BumpAllocator::with_size(65536);
    a.complete_reservation(Some(1 << 20)).unwrap();
    let requests: [(usize, usize); 6] = [(1, 1), (100, 8), (17, 4), (0, 16), (255, 2), (31, 32)];
    let mut ranges: Vec<(usize, usize)> = Vec::new();
    for (size, align) in requests {
        let p = a.allocate(size, align).unwrap();
        assert_eq!(p % align, 0);
        ranges.push((p, size));
    }
    for i in 0..ranges.len() {
        for j in 0..ranges.len() {
            if i != j {
                let (pi, si) = ranges[i];
                let (pj, sj) = ranges[j];
                assert!(pi + si <= pj || pj + sj <= pi);
            }
        }
    }
}

#[test]
fn offset_is_monotone_and_within_capacity_with_headroom() {
    let mut a = BumpAllocator::with_size(4096);
    a.complete_reservation(Some(8192)).unwrap();
    let mut last: usize = a.offset();
    for (size, align) in [(100usize, 8usize), (1, 1), (512, 64), (9, 2)] {
        // headroom: offset + size + 2 * align - 1 stays below the capacity
        assert!(a.offset() + size + 2 * align - 1 <= a.capacity());
        a.allocate(size, align).unwrap();
        assert!(a.offset() >= last);
        assert!(a.offset() <= a.capacity());
        last = a.offset();
    }
}

#[test]
fn deallocate_is_a_noop() {
    let mut a = BumpAllocator::with_size(4096);
    a.complete_reservation(Some(65536)).unwrap();
    let p = a.allocate(100, 8).unwrap();
    let before_offset = a.offset();
    a.deallocate(p, 100, 8);
    assert_eq!(a.offset(), before_offset);
    assert_eq!(a.capacity(), 4096);
    assert_eq!(a.base(), 65536);
    assert!(!a.needs_reservation());
    // a later allocation is unaffected and lands past the first range
    let q = a.allocate(8, 8).unwrap();
    assert!(q >= p + 100);
}

#[test]
fn uniform_requests_consume_uniformly() {
    let mut a = BumpAllocator::with_size(4096);
    a.complete_reservation(Some(1 << 16)).unwrap();
    let n: usize = 8;
    let s: usize = 100;
    let mut addrs: Vec<usize> = Vec::new();
    for _ in 0..n {
        addrs.push(a.allocate(s, 1).unwrap());
    }
    // each request consumes exactly s + 1 bytes of offset
    assert_eq!(a.offset(), n * (s + 1));
    for i in 0..n {
        assert_eq!(addrs[i], (1 << 16) + i * (s + 1));
        if i > 0 {
            assert!(addrs[i - 1] + s <= addrs[i]);
        }
    }
}
