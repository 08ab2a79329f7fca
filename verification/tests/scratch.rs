use meshterial::scratch::{ScratchPool, UniformKind};

#[test]
fn new_pool_has_no_regions() {
    let pool: ScratchPool<u32> = ScratchPool::new(UniformKind::Material);
    assert_eq!(pool.len(), 0);
    assert_eq!(pool.kind(), UniformKind::Material);
}

#[test]
fn acquire_grows_an_empty_pool() {
    let mut pool: ScratchPool<u32> = ScratchPool::new(UniformKind::Light);
    let handle = pool.acquire(11);
    assert_eq!(handle.region(), 0);
    assert_eq!(handle.kind(), UniformKind::Light);
    assert_eq!(pool.len(), 1);
    assert_eq!(pool.value(&handle), Some(11));
}

#[test]
fn acquire_does_not_hand_out_a_claimed_region() {
    let mut pool: ScratchPool<u32> = ScratchPool::new(UniformKind::Light);
    let a = pool.acquire(1);
    let b = pool.acquire(2);
    let c = pool.acquire(3);
    assert_eq!((a.region(), b.region(), c.region()), (0, 1, 2));
    assert_eq!(pool.value(&a), Some(1));
    assert_eq!(pool.value(&b), Some(2));
    assert_eq!(pool.value(&c), Some(3));
}

#[test]
fn acquire_takes_the_first_free_region() {
    let mut pool: ScratchPool<u32> = ScratchPool::new(UniformKind::Projection);
    let a = pool.acquire(1);
    let b = pool.acquire(2);
    let _c = pool.acquire(3);
    assert!(pool.release(b));
    assert!(pool.release(a));
    let d = pool.acquire(4);
    assert_eq!(d.region(), 0);
    let e = pool.acquire(5);
    assert_eq!(e.region(), 1);
    let f = pool.acquire(6);
    assert_eq!(f.region(), 3);
    assert_eq!(pool.len(), 4);
}

#[test]
fn region_in_flight_is_kept_until_its_guard_finishes() {
    let mut pool: ScratchPool<u32> = ScratchPool::new(UniformKind::Projection);
    let a = pool.acquire(1);
    assert!(pool.submitted(&a, 100));
    assert_eq!(pool.value(&a), Some(1));
    // another submission finished: the region stays in flight
    assert_eq!(pool.recycle(&vec![99]), 0);
    let b = pool.acquire(2);
    assert_eq!(b.region(), 1);
    assert_eq!(pool.value(&a), Some(1));
    // its own submission finished: the region is free again
    assert_eq!(pool.recycle(&vec![99, 100]), 1);
    assert_eq!(pool.value(&a), None);
    let c = pool.acquire(3);
    assert_eq!(c.region(), 0);
    assert_eq!(pool.len(), 2);
}

#[test]
fn recycle_counts_every_freed_region() {
    let mut pool: ScratchPool<u32> = ScratchPool::new(UniformKind::Material);
    let a = pool.acquire(1);
    let b = pool.acquire(2);
    let c = pool.acquire(3);
    let d = pool.acquire(4);
    assert!(pool.submitted(&a, 7));
    assert!(pool.submitted(&b, 8));
    assert!(pool.submitted(&c, 7));
    assert_eq!(pool.recycle(&vec![7]), 2);
    assert_eq!(pool.value(&a), None);
    assert_eq!(pool.value(&b), Some(2));
    assert_eq!(pool.value(&c), None);
    assert_eq!(pool.value(&d), Some(4));
    assert_eq!(pool.recycle(&vec![7]), 0);
}

#[test]
fn recycle_leaves_claimed_regions_alone() {
    let mut pool: ScratchPool<u32> = ScratchPool::new(UniformKind::Material);
    let a = pool.acquire(1);
    assert_eq!(pool.recycle(&vec![0, 1, 2]), 0);
    assert_eq!(pool.value(&a), Some(1));
}

#[test]
fn submitted_marks_a_claimed_region_once() {
    let mut pool: ScratchPool<u32> = ScratchPool::new(UniformKind::Material);
    let a = pool.acquire(1);
    assert!(pool.submitted(&a, 5));
    assert!(!pool.submitted(&a, 6));
    // the first guard is the one that counts
    assert_eq!(pool.recycle(&vec![6]), 0);
    assert_eq!(pool.recycle(&vec![5]), 1);
}

#[test]
fn handles_of_another_pool_are_refused() {
    let mut lights: ScratchPool<u32> = ScratchPool::new(UniformKind::Light);
    let mut materials: ScratchPool<u32> = ScratchPool::new(UniformKind::Material);
    let light = lights.acquire(1);
    let _material = materials.acquire(2);
    assert_eq!(materials.value(&light), None);
    assert!(!materials.submitted(&light, 3));
    assert!(!materials.release(light));
    assert_eq!(materials.len(), 1);
}

#[test]
fn release_frees_a_claimed_region_only() {
    let mut pool: ScratchPool<u32> = ScratchPool::new(UniformKind::Light);
    let a = pool.acquire(1);
    let b = pool.acquire(2);
    assert!(pool.submitted(&b, 9));
    assert!(pool.release(a));
    assert!(!pool.release(b));
    let c = pool.acquire(3);
    assert_eq!(c.region(), 0);
}

#[test]
fn pool_holds_floating_point_values() {
    let mut pool: ScratchPool<[f32; 4]> = ScratchPool::new(UniformKind::Projection);
    let a = pool.acquire([1.0, 0.5, 0.25, 0.0]);
    assert_eq!(pool.value(&a), Some([1.0, 0.5, 0.25, 0.0]));
}

#[test]
fn settle_with_a_guard_puts_the_region_in_flight() {
    let mut pool: ScratchPool<u32> = ScratchPool::new(UniformKind::Light);
    let a = pool.acquire(1);
    assert!(pool.settle(a, Some(9)));
    let b = pool.acquire(2);
    assert_eq!(b.region(), 1);
    assert_eq!(pool.recycle(&vec![9]), 1);
    let c = pool.acquire(3);
    assert_eq!(c.region(), 0);
}

#[test]
fn settle_without_a_guard_frees_the_region() {
    let mut pool: ScratchPool<u32> = ScratchPool::new(UniformKind::Light);
    let a = pool.acquire(1);
    assert!(pool.settle(a, None));
    let b = pool.acquire(2);
    assert_eq!(b.region(), 0);
}

#[test]
fn settle_refuses_what_is_not_claimed() {
    let mut lights: ScratchPool<u32> = ScratchPool::new(UniformKind::Light);
    let mut materials: ScratchPool<u32> = ScratchPool::new(UniformKind::Material);
    let light = lights.acquire(1);
    let _material = materials.acquire(2);
    assert!(!materials.settle(light, Some(1)));
    assert_eq!(materials.len(), 1);
}
