use std::sync::atomic::AtomicUsize;
use std::sync::atomic::Ordering;
use std::sync::Arc;

use rcu_cell::RcuCellNonNull;

/// A value whose destructor counts itself, to observe how many payloads a
/// cell and its handles release.
struct Counted {
    label: u32,
    drops: Arc<AtomicUsize>,
}

impl Drop for Counted {
    fn drop(&mut self) {
        self.drops.fetch_add(1, Ordering::SeqCst);
    }
}

#[test]
fn s1_basic() {
    let mut c = RcuCellNonNull::new(7u32);
    let h = c.read();
    assert_eq!(*h, 7);
    let prior = c.write(Arc::new(8u32));
    assert_eq!(*prior, 7);
    let h2 = c.read();
    assert_eq!(*h2, 8);
}

#[test]
fn s2_identity() {
    let mut c = RcuCellNonNull::new(7u32);
    let h1 = c.read();
    let h2 = c.read();
    assert!(c.arc_eq(&h1));
    assert!(c.arc_eq(&h2));
    assert!(Arc::ptr_eq(&h1, &h2));
}

#[test]
fn arc_eq_is_identity_not_content() {
    let mut c = RcuCellNonNull::new(7u32);
    let other = Arc::new(7u32);
    assert!(!c.arc_eq(&other));
    let h = c.read();
    assert!(c.arc_eq(&h));
}

#[test]
fn s3_update_chain() {
    let mut c = RcuCellNonNull::new(1u32);
    let r1 = c.update(|x: Arc<u32>| Arc::new(*x + 1));
    let r2 = c.update(|x: Arc<u32>| Arc::new(*x + 1));
    let r3 = c.update(|x: Arc<u32>| Arc::new(*x + 1));
    assert_eq!(*r1, 1);
    assert_eq!(*r2, 2);
    assert_eq!(*r3, 3);
    let h = c.read();
    assert_eq!(*h, 4);
}

#[test]
fn s4_writes_form_permutation() {
    let mut c = RcuCellNonNull::new(0u32);
    let old_a = c.write(Arc::new(1u32));
    let old_b = c.write(Arc::new(2u32));
    let last = c.read();
    let mut seen = vec![*old_a, *old_b, *last];
    seen.sort();
    assert_eq!(seen, vec![0, 1, 2]);
}

#[test]
fn s5_drop_semantics() {
    let drops = Arc::new(AtomicUsize::new(0));
    let v1 = Counted { label: 1, drops: drops.clone() };
    let v2 = Counted { label: 2, drops: drops.clone() };
    let v3 = Counted { label: 3, drops: drops.clone() };
    let mut c = RcuCellNonNull::new(v1);
    let h1 = c.write(Arc::new(v2));
    let h2 = c.write(Arc::new(v3));
    assert_eq!(h1.label, 1);
    assert_eq!(h2.label, 2);
    drop(h1);
    drop(h2);
    assert_eq!(drops.load(Ordering::SeqCst), 2);
    drop(c);
    assert_eq!(drops.load(Ordering::SeqCst), 3);
}

#[test]
fn s6_into_arc() {
    let c = RcuCellNonNull::new(5u32);
    let h = c.into_arc();
    assert_eq!(*h, 5);
    assert_eq!(Arc::strong_count(&h), 1);
}

#[test]
fn into_arc_after_reads_keeps_snapshots_alive() {
    let drops = Arc::new(AtomicUsize::new(0));
    let mut c = RcuCellNonNull::new(Counted { label: 9, drops: drops.clone() });
    let snapshot = c.read();
    let owned = c.into_arc();
    assert_eq!(drops.load(Ordering::SeqCst), 0);
    drop(owned);
    assert_eq!(drops.load(Ordering::SeqCst), 0);
    assert_eq!(snapshot.label, 9);
    drop(snapshot);
    assert_eq!(drops.load(Ordering::SeqCst), 1);
}

#[test]
fn ptr_eq_tracks_shared_handles() {
    let h = Arc::new(4u32);
    let c1 = RcuCellNonNull::from(h.clone());
    let c2 = RcuCellNonNull::from(h);
    let c3 = RcuCellNonNull::new(4u32);
    assert!(RcuCellNonNull::ptr_eq(&c1, &c2));
    assert!(!RcuCellNonNull::ptr_eq(&c1, &c3));
}

#[test]
fn from_handle_and_default() {
    let mut c = RcuCellNonNull::from(Arc::new(11u32));
    assert_eq!(*c.read(), 11);
    let mut d: RcuCellNonNull<u32> = Default::default();
    assert_eq!(*d.read(), 0);
}

#[test]
fn update_result_is_what_the_closure_returned() {
    let mut c = RcuCellNonNull::new(10u32);
    let replacement = Arc::new(20u32);
    let probe = replacement.clone();
    let prior = c.update(move |_x: Arc<u32>| replacement);
    assert_eq!(*prior, 10);
    assert!(c.arc_eq(&probe));
}

#[test]
fn update_closure_may_keep_its_argument() {
    let mut c = RcuCellNonNull::new(3u32);
    let mut kept: Option<Arc<u32>> = None;
    let prior = c.update(|x: Arc<u32>| {
        kept = Some(x.clone());
        Arc::new(*x * 2)
    });
    assert_eq!(*prior, 3);
    assert_eq!(*kept.unwrap(), 3);
    assert_eq!(*c.read(), 6);
}
