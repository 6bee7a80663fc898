use cef_bridge::refcounted::{BaseRefCounted, Heap, RefCountedPtr};

type PlainHeap = Heap<BaseRefCounted, u32>;

fn fresh_object(heap: &mut PlainHeap) -> RefCountedPtr {
    heap.wrap(BaseRefCounted::zeroed(), 7, std::mem::size_of::<BaseRefCounted>())
}

#[test]
fn construction_starts_with_one_owner() {
    let mut heap: PlainHeap = Heap::empty();
    let h = fresh_object(&mut heap);
    assert!(heap.has_one_ref(h.ptr));
    assert!(heap.has_at_least_one_ref(h.ptr));
    assert_eq!(heap.borrow(h.ptr).object, 7);
}

#[test]
fn construction_installs_the_four_base_slots() {
    let mut heap: PlainHeap = Heap::empty();
    let h = fresh_object(&mut heap);
    let base = heap.borrow(h.ptr).cefobj;
    assert!(base.add_ref);
    assert!(base.release);
    assert!(base.has_one_ref);
    assert!(base.has_at_least_one_ref);
    assert_eq!(base.size, std::mem::size_of::<BaseRefCounted>());
}

#[test]
fn clones_and_drops_balance_out() {
    let mut heap: PlainHeap = Heap::empty();
    let first = fresh_object(&mut heap);

    let second = heap.clone_ptr(&first);
    let third = heap.clone_ptr(&second);
    assert!(!heap.has_one_ref(first.ptr));

    assert!(!heap.drop_ptr(third));
    assert!(!heap.drop_ptr(second));
    assert!(heap.has_one_ref(first.ptr));

    let p = first.ptr;
    assert!(heap.drop_ptr(first));
    // The container is gone; a fresh allocation must not reuse its slot.
    let next = fresh_object(&mut heap);
    assert_ne!(next.ptr, p);
}

#[test]
fn release_reports_destruction_only_at_the_last_unit() {
    let mut heap: PlainHeap = Heap::empty();
    let h = fresh_object(&mut heap);
    heap.add_ref(h.ptr);
    heap.add_ref(h.ptr);
    assert!(!heap.release(h.ptr));
    assert!(!heap.release(h.ptr));
    assert!(heap.release(h.ptr));
}

#[test]
fn many_increments_then_decrements_leave_the_object_alive() {
    // Eight batches of a thousand duplications, joined, then the same
    // number of discards: no unit is lost and nothing is destroyed early.
    let mut heap: PlainHeap = Heap::empty();
    let first = fresh_object(&mut heap);
    let mut handles: Vec<RefCountedPtr> = Vec::new();
    for _batch in 0..8 {
        for _i in 0..1000 {
            handles.push(heap.clone_ptr(&first));
        }
    }
    assert!(!heap.has_one_ref(first.ptr));
    for h in handles {
        assert!(!heap.drop_ptr(h));
    }
    assert!(heap.has_one_ref(first.ptr));
    assert!(heap.has_at_least_one_ref(first.ptr));
}

#[test]
fn borrowed_view_never_changes_the_count() {
    let mut heap: PlainHeap = Heap::empty();
    let h = fresh_object(&mut heap);
    for _i in 0..10 {
        let rc = heap.borrow(h.ptr);
        assert_eq!(rc.object, 7);
    }
    assert!(heap.has_one_ref(h.ptr));
}
