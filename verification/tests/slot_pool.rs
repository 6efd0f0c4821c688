use hypervisor::slots::MemSlotGaps;

#[test]
fn an_empty_pool_gives_nothing() {
    let mut gaps = MemSlotGaps::new();
    assert_eq!(gaps.len(), 0);
    assert_eq!(gaps.peek(), None);
    assert_eq!(gaps.pop(), None);
}

#[test]
fn the_pool_gives_the_least_number_first() {
    let mut gaps = MemSlotGaps::new();
    for slot in [7u32, 3, 9, 0, 5, u32::MAX] {
        gaps.push(slot);
    }
    assert_eq!(gaps.len(), 6);
    assert_eq!(gaps.peek(), Some(0));
    assert_eq!(gaps.len(), 6);
    let mut out = Vec::new();
    while let Some(slot) = gaps.pop() {
        out.push(slot);
    }
    assert_eq!(out, vec![0, 3, 5, 7, 9, u32::MAX]);
    assert_eq!(gaps.len(), 0);
}

#[test]
fn the_pool_holds_a_number_once() {
    let mut gaps = MemSlotGaps::new();
    gaps.push(4);
    gaps.push(4);
    gaps.push(2);
    gaps.push(4);
    assert_eq!(gaps.len(), 2);
    assert_eq!(gaps.pop(), Some(2));
    assert_eq!(gaps.pop(), Some(4));
    assert_eq!(gaps.pop(), None);
}

#[test]
fn the_pool_takes_numbers_again_after_giving_them() {
    let mut gaps = MemSlotGaps::new();
    gaps.push(1);
    gaps.push(2);
    assert_eq!(gaps.pop(), Some(1));
    gaps.push(0);
    gaps.push(1);
    assert_eq!(gaps.pop(), Some(0));
    assert_eq!(gaps.pop(), Some(1));
    assert_eq!(gaps.pop(), Some(2));
}
